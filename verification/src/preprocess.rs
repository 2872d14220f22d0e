use vstd::prelude::*;

use crate::errors::ConfigError;
use crate::tables::{build_table, table_len, table_val, Directive};
use crate::text::{find_line_end, join_dec, joined_dec, line_end, lemma_line_end_bounds, str_eq};

verus! {

/// The label line that introduces an emitted table, including the `.byte`
/// directive that the joined values follow.
pub open spec fn label_spec(d: Directive) -> Seq<char> {
    match d {
        Directive::Literal => "literal:\n.byte "@,
        Directive::Incr => "incr:\n.byte "@,
        Directive::Add => "add:\n.byte "@,
    }
}

/// The contents of the table of directive `d`, as a sequence of bytes.
pub open spec fn table_seq(d: Directive) -> Seq<u8> {
    Seq::new(table_len(d), |i: int| table_val(d, i))
}

/// The full expansion text of a table directive: its label followed by the
/// comma-separated decimal values of every table entry.
pub open spec fn table_text_spec(d: Directive) -> Seq<char> {
    label_spec(d) + joined_dec(table_seq(d), table_len(d))
}

/// Render the expansion text of a table directive.
pub fn render_table(d: Directive) -> (s: String)
    ensures
        s@ == table_text_spec(d),
{
    let mut s: String = match d {
        Directive::Literal => String::from_str("literal:\n.byte "),
        Directive::Incr => String::from_str("incr:\n.byte "),
        Directive::Add => String::from_str("add:\n.byte "),
    };
    let t = build_table(d);
    proof {
        assert(t@ =~= table_seq(d));
    }
    let j = join_dec(&t);
    s.append(j.as_str());
    s
}

/// Parse a marked directive line into the table it selects. Exactly the
/// three supported tags are accepted; anything else is a fatal
/// configuration error.
pub fn parse_directive(line: &str) -> (r: Result<Directive, ConfigError>)
    ensures
        r is Ok <==> (line@ == "!incr"@ || line@ == "!add"@ || line@ == "!literal"@),
        line@ == "!incr"@ ==> r == Result::<Directive, ConfigError>::Ok(Directive::Incr),
        line@ == "!add"@ ==> r == Result::<Directive, ConfigError>::Ok(Directive::Add),
        line@ == "!literal"@ ==> r == Result::<Directive, ConfigError>::Ok(Directive::Literal),
        r is Err ==> r->Err_0 == ConfigError::UnsupportedDirective,
{
    proof {
        reveal_strlit("!incr");
        reveal_strlit("!add");
        reveal_strlit("!literal");
        assert("!incr"@.len() == 5);
        assert("!add"@.len() == 4);
        assert("!literal"@.len() == 8);
    }
    if str_eq(line, "!incr") {
        Ok(Directive::Incr)
    } else if str_eq(line, "!add") {
        Ok(Directive::Add)
    } else if str_eq(line, "!literal") {
        Ok(Directive::Literal)
    } else {
        Err(ConfigError::UnsupportedDirective)
    }
}

/// Whether a single input line is acceptable: either it is not marked as a
/// directive at all, or it names one of the three supported tables.
pub open spec fn line_ok(line: Seq<char>) -> bool {
    line.len() == 0 || line[0] != '!' || line == "!incr"@ || line == "!add"@ || line
        == "!literal"@
}

/// What a single input line expands to: marked lines become their table
/// text, every other line passes through unchanged.
pub open spec fn expand_line(line: Seq<char>) -> Seq<char> {
    if line.len() == 0 || line[0] != '!' {
        line
    } else if line == "!incr"@ {
        table_text_spec(Directive::Incr)
    } else if line == "!add"@ {
        table_text_spec(Directive::Add)
    } else if line == "!literal"@ {
        table_text_spec(Directive::Literal)
    } else {
        line
    }
}

/// The expansion of the input from position `i` on: each line expanded and
/// followed by a newline.
pub open spec fn expand_from(s: Seq<char>, i: int) -> Seq<char>
    decreases s.len() - i,
    via expand_from_dec
{
    if i < 0 || i >= s.len() {
        "\n"@
    } else {
        let e = line_end(s, i);
        if e >= s.len() {
            expand_line(s.subrange(i, e)) + "\n"@
        } else {
            expand_line(s.subrange(i, e)) + "\n"@ + expand_from(s, e + 1)
        }
    }
}

#[via_fn]
proof fn expand_from_dec(s: Seq<char>, i: int) {
    if 0 <= i < s.len() {
        lemma_line_end_bounds(s, i);
    }
}

/// Whether every line of the input from position `i` on is acceptable.
pub open spec fn lines_ok_from(s: Seq<char>, i: int) -> bool
    decreases s.len() - i,
    via lines_ok_from_dec
{
    if i < 0 || i >= s.len() {
        true
    } else {
        let e = line_end(s, i);
        line_ok(s.subrange(i, e)) && (e < s.len() ==> lines_ok_from(s, e + 1))
    }
}

#[via_fn]
proof fn lines_ok_from_dec(s: Seq<char>, i: int) {
    if 0 <= i < s.len() {
        lemma_line_end_bounds(s, i);
    }
}

/// Expand every directive line of the source text, leaving all other lines
/// untouched. Fails, producing no text at all, as soon as a marked line
/// names an unsupported table.
pub fn expand_source(src: &str) -> (r: Result<String, ConfigError>)
    ensures
        r is Ok <==> lines_ok_from(src@, 0),
        r is Ok ==> r->Ok_0@ == expand_from(src@, 0),
        r is Err ==> r->Err_0 == ConfigError::UnsupportedDirective,
{
    let len = src.unicode_len();
    let mut out = String::new();
    let mut i: usize = 0;
    loop
        invariant_except_break
            i <= len,
            len == src@.len(),
            lines_ok_from(src@, 0) <==> lines_ok_from(src@, i as int),
            expand_from(src@, 0) == out@ + expand_from(src@, i as int),
        ensures
            out@ == expand_from(src@, 0),
            lines_ok_from(src@, 0),
        decreases len - i,
    {
        let e = find_line_end(src, i);
        proof {
            lemma_line_end_bounds(src@, i as int);
        }
        let line = src.substring_char(i, e);
        let ghost pre = out@;
        if line.unicode_len() == 0 || line.get_char(0) != '!' {
            out.append(line);
        } else if str_eq(line, "!incr") {
            let t = render_table(Directive::Incr);
            out.append(t.as_str());
        } else if str_eq(line, "!add") {
            let t = render_table(Directive::Add);
            out.append(t.as_str());
        } else if str_eq(line, "!literal") {
            let t = render_table(Directive::Literal);
            out.append(t.as_str());
        } else {
            proof {
                assert(!line_ok(line@));
                assert(!lines_ok_from(src@, i as int));
            }
            return Err(ConfigError::UnsupportedDirective);
        }
        out.append("\n");
        proof {
            assert(line_ok(line@));
            assert(out@ =~= pre + (expand_line(line@) + "\n"@));
        }
        if e == len {
            proof {
                assert(expand_from(src@, i as int) == expand_line(line@) + "\n"@);
                assert(out@ =~= pre + expand_from(src@, i as int));
            }
            break;
        }
        proof {
            assert(expand_from(src@, i as int) == expand_line(line@) + "\n"@ + expand_from(
                src@,
                e + 1,
            ));
            assert(pre + (expand_line(line@) + "\n"@) + expand_from(src@, e + 1) =~= pre
                + expand_from(src@, i as int));
        }
        i = e + 1;
    }
    Ok(out)
}

} // verus!
