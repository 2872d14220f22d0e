use vstd::prelude::*;

verus! {

/// A lookup-table directive: which pure byte function the generated image
/// materializes as a flat table addressed by the argument encoding.
#[derive(Clone, Copy, PartialEq, Eq, Structural, Debug)]
pub enum Directive {
    /// `table[i] == i`: the identity function on bytes.
    Literal,
    /// `table[i] == (i + 1) mod 256`.
    Incr,
    /// `table[a * 256 + b] == (a + b) mod 256`, row-major by the first operand.
    Add,
}

/// How many entries the table of a directive holds: one per byte for the
/// one-input functions, one per ordered pair for the two-input function.
pub open spec fn table_len(d: Directive) -> nat {
    match d {
        Directive::Literal => 256,
        Directive::Incr => 256,
        Directive::Add => 65536,
    }
}

/// The byte stored at index `i` of the table of directive `d`.
pub open spec fn table_val(d: Directive, i: int) -> u8 {
    match d {
        Directive::Literal => i as u8,
        Directive::Incr => (((i + 1) % 256) as u8),
        Directive::Add => (((i / 256 + i % 256) % 256) as u8),
    }
}

/// Where the two-input table keeps the entry for the ordered pair `(a, b)`.
pub open spec fn pair_index(a: int, b: int) -> int {
    a * 256 + b
}

/// Materialize the table of directive `d`.
pub fn build_table(d: Directive) -> (t: Vec<u8>)
    ensures
        t@.len() == table_len(d),
        forall|i: int| 0 <= i < t@.len() ==> t@[i] == table_val(d, i),
{
    let n: usize = match d {
        Directive::Literal => 256,
        Directive::Incr => 256,
        Directive::Add => 65536,
    };
    let mut t: Vec<u8> = Vec::new();
    let mut i: usize = 0;
    while i < n
        invariant
            n == table_len(d),
            i <= n,
            t@.len() == i,
            forall|j: int| 0 <= j < i ==> t@[j] == table_val(d, j),
        decreases n - i,
    {
        let v: u8 = match d {
            Directive::Literal => i as u8,
            Directive::Incr => ((i + 1) % 256) as u8,
            Directive::Add => ((i / 256 + i % 256) % 256) as u8,
        };
        t.push(v);
        i += 1;
    }
    t
}

/// Every table is total over its declared input encoding: the one-input
/// tables have exactly 256 entries, one per byte value, and the two-input
/// table has exactly 65536 entries, one per ordered pair of bytes, with
/// the pair encoding hitting each index exactly once.
pub proof fn lemma_table_covers_every_input(d: Directive)
    ensures
        d is Add ==> table_len(d) == 65536,
        !(d is Add) ==> table_len(d) == 256,
        forall|a: int, b: int|
            0 <= a < 256 && 0 <= b < 256 ==> 0 <= #[trigger] pair_index(a, b) < 65536,
        forall|a1: int, b1: int, a2: int, b2: int|
            0 <= a1 < 256 && 0 <= b1 < 256 && 0 <= a2 < 256 && 0 <= b2 < 256
                && #[trigger] pair_index(a1, b1) == #[trigger] pair_index(a2, b2)
                ==> a1 == a2 && b1 == b2,
{
}

/// The two-input table really encodes addition mod 256: the entry for the
/// ordered pair `(a, b)` is `(a + b) mod 256`.
pub proof fn lemma_add_table_value(a: int, b: int)
    requires
        0 <= a < 256,
        0 <= b < 256,
    ensures
        table_val(Directive::Add, pair_index(a, b)) == (a + b) % 256,
{
    assert((a * 256 + b) / 256 == a && (a * 256 + b) % 256 == b) by (nonlinear_arith)
        requires
            0 <= a < 256 && 0 <= b < 256,
    ;
}

} // verus!
