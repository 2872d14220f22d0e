use cellasm::errors::LayoutError;
use cellasm::layout::{check_code_fits, plan_layout};
use cellasm::tables::{build_table, Directive};

#[test]
fn identity_table_is_identity() {
    let t = build_table(Directive::Literal);
    assert_eq!(t.len(), 256);
    for i in 0..256 {
        assert_eq!(t[i] as usize, i);
    }
}

#[test]
fn increment_table_wraps() {
    let t = build_table(Directive::Incr);
    assert_eq!(t.len(), 256);
    for i in 0..256 {
        assert_eq!(t[i] as usize, (i + 1) % 256);
    }
    assert_eq!(t[255], 0);
}

#[test]
fn addition_table_covers_every_pair() {
    let t = build_table(Directive::Add);
    assert_eq!(t.len(), 65536);
    for a in 0..256 {
        for b in 0..256 {
            assert_eq!(t[a * 256 + b] as usize, (a + b) % 256);
        }
    }
}

#[test]
fn layout_is_deterministic() {
    let a = plan_layout(64).unwrap();
    let b = plan_layout(64).unwrap();
    assert_eq!(a, b);
}

#[test]
fn layout_offsets_for_sixty_four_cells() {
    let l = plan_layout(64).unwrap();
    assert_eq!(l.code_base, 0);
    assert_eq!(l.loop_entry, 0x1000);
    assert_eq!(l.data_offset, 64 * 0x100 + 0x1000);
    assert_eq!(l.scratch_offset, 64 * 0x100 + 0x1000 + 64 + 2);
}

#[test]
fn layout_offsets_for_empty_vector() {
    let l = plan_layout(0).unwrap();
    assert_eq!(l.data_offset, 0x1000);
    assert_eq!(l.scratch_offset, 0x1000 + 2);
}

#[test]
fn layout_rejects_oversized_vector() {
    let r = plan_layout(0xFFFF_0001usize);
    assert!(matches!(r, Err(LayoutError::LayoutOverflow)));
}

#[test]
fn code_bound_check_is_strict() {
    let l = plan_layout(4).unwrap();
    assert!(check_code_fits(&l, l.data_offset - 1).is_ok());
    assert!(matches!(
        check_code_fits(&l, l.data_offset),
        Err(LayoutError::LayoutOverflow)
    ));
}
