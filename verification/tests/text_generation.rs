use cellasm::codegen::{copy_blocks, generate_program, process_block, process_blocks};
use cellasm::errors::ConfigError;
use cellasm::preprocess::{expand_source, parse_directive, render_table};
use cellasm::tables::Directive;
use cellasm::text::{dec_string, replace_all};

#[test]
fn decimal_rendering_is_exact() {
    assert_eq!(dec_string(0), "0");
    assert_eq!(dec_string(9), "9");
    assert_eq!(dec_string(10), "10");
    assert_eq!(dec_string(255), "255");
    assert_eq!(dec_string(20480), "20480");
}

#[test]
fn replace_substitutes_every_occurrence() {
    assert_eq!(replace_all("a!xb!xc", "!x", "YY"), "aYYbYYc");
    assert_eq!(replace_all("nothing here", "!x", "YY"), "nothing here");
    assert_eq!(replace_all("abc", "", "YY"), "abc");
    assert_eq!(replace_all("!location2", "!location", "D"), "D2");
}

#[test]
fn process_block_fills_placeholders() {
    let tmpl = "ldr r0, [!location]\nstr r0, [!location2]\nuse !rule";
    let b = process_block(tmpl, 0);
    assert_eq!(b, "ldr r0, [#data + 1]\nstr r0, [#tmp + 1]\nuse #rule\n");
    let b4 = process_block(tmpl, 4);
    assert_eq!(b4, "ldr r0, [#data + 5]\nstr r0, [#tmp + 5]\nuse #rule\n");
}

#[test]
fn one_block_per_cell_is_emitted() {
    let pv = process_blocks("p !location", 5);
    assert_eq!(pv.len(), 5);
    let cv = copy_blocks("c !from !to", 5);
    assert_eq!(cv.len(), 5);
    assert_eq!(cv[2], "c #tmp + 3 #data + 3\n");
}

#[test]
fn generated_program_text_is_exact() {
    let data = vec![7u8];
    let p = generate_program(&data, "P !location !location2 !rule", "C !from !to", "RULE")
        .unwrap();
    let expected = "!literal\n.org 0x1000\n_loop:\nP #data + 1 #tmp + 1 #rule\nC #tmp + 1 #data + 1\nmov pc, #_loop\nrule:\nRULE\n\n.org 4352\ndata:\n.byte 0, 7, 0\n\ntmp:\n.byte 0,0,0\n\n";
    assert_eq!(p.text, expected);
    assert_eq!(p.layout.data_offset, 0x100 + 0x1000);
}

#[test]
fn plain_lines_pass_through() {
    let out = expand_source("mov r0, r1\nmov r2, r3").unwrap();
    assert_eq!(out, "mov r0, r1\nmov r2, r3\n");
}

#[test]
fn increment_directive_expands_to_table() {
    let out = expand_source("!incr").unwrap();
    let joined = (0..256)
        .map(|i| ((i + 1) % 256).to_string())
        .collect::<Vec<String>>()
        .join(",");
    assert_eq!(out, format!("incr:\n.byte {}\n", joined));
}

#[test]
fn literal_directive_expands_to_table() {
    let out = expand_source("!literal").unwrap();
    let joined = (0..256)
        .map(|i| i.to_string())
        .collect::<Vec<String>>()
        .join(",");
    assert_eq!(out, format!("literal:\n.byte {}\n", joined));
}

#[test]
fn addition_directive_expands_to_table() {
    let out = expand_source("!add").unwrap();
    let mut rows: Vec<String> = Vec::new();
    for a in 0..256 {
        for b in 0..256 {
            rows.push(((a + b) % 256).to_string());
        }
    }
    assert_eq!(out, format!("add:\n.byte {}\n", rows.join(",")));
}

#[test]
fn rendered_table_matches_expansion() {
    let r = render_table(Directive::Incr);
    let out = expand_source("!incr").unwrap();
    assert_eq!(format!("{}\n", r), out);
}

#[test]
fn empty_source_is_one_empty_line() {
    assert_eq!(expand_source("").unwrap(), "\n");
}

#[test]
fn empty_vector_program_has_no_blocks() {
    let data: Vec<u8> = Vec::new();
    let p = generate_program(&data, "P !location", "C !from", "R").unwrap();
    let expected = "!literal\n.org 0x1000\n_loop:\nmov pc, #_loop\nrule:\nR\n\n.org 4096\ndata:\n.byte 0, , 0\n\ntmp:\n.byte 0,0\n\n";
    assert_eq!(p.text, expected);
}

#[test]
fn unsupported_directive_fails() {
    let r = expand_source("!bogus");
    assert!(matches!(r, Err(ConfigError::UnsupportedDirective)));
}

#[test]
fn unsupported_directive_in_context_fails() {
    let r = expand_source("fine line\n!nope\nmore");
    assert!(matches!(r, Err(ConfigError::UnsupportedDirective)));
}

#[test]
fn directive_tags_parse() {
    assert_eq!(parse_directive("!incr"), Ok(Directive::Incr));
    assert_eq!(parse_directive("!add"), Ok(Directive::Add));
    assert_eq!(parse_directive("!literal"), Ok(Directive::Literal));
    assert!(matches!(
        parse_directive("!other"),
        Err(ConfigError::UnsupportedDirective)
    ));
}

#[test]
fn generated_text_survives_expansion() {
    let mut data = vec![0u8; 8];
    data[7] = 1;
    let p = generate_program(&data, "p !location !location2 !rule", "c !from !to", "!incr")
        .unwrap();
    let expanded = expand_source(&p.text).unwrap();
    assert!(expanded.contains("incr:\n.byte 1,2,"));
    assert!(expanded.contains("literal:\n.byte 0,1,"));
}
