use vstd::prelude::*;

use crate::tables::{build_table, pair_index, table_len, table_val, Directive};

verus! {

/// A materialized rule table together with its arity: 256 entries for a
/// one-input byte function, 65536 for a two-input one.
pub struct RuleTable {
    pub bytes: Vec<u8>,
    pub two_input: bool,
}

impl RuleTable {
    /// The declared arity matches the table size.
    pub open spec fn wf(&self) -> bool {
        self.bytes@.len() == if self.two_input {
            65536int
        } else {
            256int
        }
    }
}

/// Materialize the rule table of a directive together with its arity.
pub fn rule_table_for(d: Directive) -> (t: RuleTable)
    ensures
        t.wf(),
        t.two_input == (d is Add),
        t.bytes@.len() == table_len(d),
        forall|i: int| 0 <= i < t.bytes@.len() ==> t.bytes@[i] == table_val(d, i),
{
    let bytes = build_table(d);
    let two_input = match d {
        Directive::Add => true,
        Directive::Literal => false,
        Directive::Incr => false,
    };
    RuleTable { bytes, two_input }
}

/// A halo-framed vector: one fixed zero border byte at each end.
pub open spec fn wf_halo(d: Seq<u8>) -> bool {
    d.len() >= 2 && d[0] == 0 && d[d.len() - 1] == 0
}

/// The next value of interior cell `j`: a one-input rule looks up the
/// cell's own value, a two-input rule looks up the pair of its left and
/// right neighbors under the row-major pair encoding.
pub open spec fn next_cell(d: Seq<u8>, t: Seq<u8>, two_input: bool, j: int) -> u8 {
    if two_input {
        t[pair_index(d[j - 1] as int, d[j + 1] as int)]
    } else {
        t[d[j] as int]
    }
}

/// One full generation: every interior cell is replaced by its looked-up
/// next value; the two border cells are never overwritten.
pub open spec fn step_spec(d: Seq<u8>, t: Seq<u8>, two_input: bool) -> Seq<u8> {
    Seq::new(d.len(), |j: int|
        if 1 <= j < d.len() - 1 {
            next_cell(d, t, two_input, j)
        } else {
            d[j]
        })
}

/// Frame a raw cell vector with its two zero halo bytes.
pub fn with_halo(data: &Vec<u8>) -> (r: Vec<u8>)
    requires
        data@.len() + 2 <= usize::MAX,
    ensures
        r@ =~= seq![0u8] + data@ + seq![0u8],
        wf_halo(r@),
{
    let mut r: Vec<u8> = Vec::new();
    r.push(0);
    let mut i: usize = 0;
    while i < data.len()
        invariant
            i <= data@.len(),
            r@.len() == i + 1,
            r@[0] == 0u8,
            forall|j: int| 0 <= j < i ==> r@[j + 1] == data@[j],
        decreases data@.len() - i,
    {
        r.push(data[i]);
        i += 1;
    }
    r.push(0);
    proof {
        assert(r@ =~= seq![0u8] + data@ + seq![0u8]);
    }
    r
}

/// First pass of a generation: compute every interior cell's next value
/// into a fresh scratch buffer of the same halo-framed shape, its borders
/// zero.
pub fn apply_rule(data: &Vec<u8>, table: &RuleTable) -> (scratch: Vec<u8>)
    requires
        table.wf(),
        data@.len() >= 2,
    ensures
        scratch@.len() == data@.len(),
        scratch@[0] == 0u8,
        scratch@[scratch@.len() - 1] == 0u8,
        forall|j: int|
            1 <= j < data@.len() - 1 ==> scratch@[j] == next_cell(
                data@,
                table.bytes@,
                table.two_input,
                j,
            ),
{
    let n = data.len();
    let mut scratch: Vec<u8> = Vec::new();
    scratch.push(0);
    let mut j: usize = 1;
    while j < n - 1
        invariant
            table.wf(),
            n == data@.len(),
            n >= 2,
            1 <= j <= n - 1,
            scratch@.len() == j,
            scratch@[0] == 0u8,
            forall|k: int|
                1 <= k < j ==> scratch@[k] == next_cell(data@, table.bytes@, table.two_input, k),
        decreases n - j,
    {
        let v: u8 = if table.two_input {
            let a = data[j - 1];
            let b = data[j + 1];
            table.bytes[(a as usize) * 256 + (b as usize)]
        } else {
            table.bytes[data[j] as usize]
        };
        scratch.push(v);
        j += 1;
    }
    scratch.push(0);
    scratch
}

/// Second pass of a generation: commit every interior scratch value back
/// into the live vector, leaving the borders untouched.
pub fn commit(data: &mut Vec<u8>, scratch: &Vec<u8>)
    requires
        old(data)@.len() >= 2,
        scratch@.len() == old(data)@.len(),
    ensures
        final(data)@.len() == old(data)@.len(),
        final(data)@[0] == old(data)@[0],
        final(data)@[final(data)@.len() - 1] == old(data)@[old(data)@.len() - 1],
        forall|j: int| 1 <= j < old(data)@.len() - 1 ==> final(data)@[j] == scratch@[j],
{
    let n = data.len();
    let mut j: usize = 1;
    while j < n - 1
        invariant
            n == data@.len(),
            n >= 2,
            n == scratch@.len(),
            1 <= j <= n - 1,
            data@[0] == old(data)@[0],
            data@[n - 1] == old(data)@[n - 1],
            forall|k: int| 1 <= k < j ==> data@[k] == scratch@[k],
        decreases n - j,
    {
        let v = scratch[j];
        data.set(j, v);
        j += 1;
    }
}

/// Run one full generation in place: rule application into scratch, then
/// commit back into the live vector.
pub fn step_generation(data: &mut Vec<u8>, table: &RuleTable)
    requires
        table.wf(),
        old(data)@.len() >= 2,
    ensures
        final(data)@ == step_spec(old(data)@, table.bytes@, table.two_input),
{
    let scratch = apply_rule(data, table);
    commit(data, &scratch);
    proof {
        let post = step_spec(old(data)@, table.bytes@, table.two_input);
        assert forall|j: int| 0 <= j < data@.len() implies data@[j] == post[j] by {
            if 1 <= j < data@.len() - 1 {
                assert(data@[j] == scratch@[j]);
                assert(scratch@[j] == next_cell(old(data)@, table.bytes@, table.two_input, j));
            }
        }
        assert(data@ =~= post);
    }
}

/// An identity rule table leaves the whole halo-framed vector unchanged by
/// a generation: committing the scratch buffer is a no-op transformation.
pub proof fn lemma_identity_step(d: Seq<u8>, t: Seq<u8>)
    requires
        t.len() == 256,
        forall|i: int| 0 <= i < 256 ==> t[i] == table_val(Directive::Literal, i),
    ensures
        step_spec(d, t, false) == d,
{
    assert(step_spec(d, t, false) =~= d);
}

/// An increment rule table maps every interior cell value `v` to
/// `(v + 1) mod 256` in one generation and leaves the border cells at zero.
pub proof fn lemma_increment_step(d: Seq<u8>, t: Seq<u8>)
    requires
        t.len() == 256,
        forall|i: int| 0 <= i < 256 ==> t[i] == table_val(Directive::Incr, i),
        wf_halo(d),
    ensures
        step_spec(d, t, false).len() == d.len(),
        forall|j: int|
            1 <= j < d.len() - 1 ==> step_spec(d, t, false)[j] == ((d[j] + 1) % 256) as u8,
        step_spec(d, t, false)[0] == 0u8,
        step_spec(d, t, false)[d.len() - 1] == 0u8,
{
}

} // verus!
