use vstd::prelude::*;

use crate::errors::LayoutError;
use crate::layout::{layout_spec, plan_layout, MemoryLayout, MAX_VECTOR_LEN};
use crate::text::{dec_spec, dec_string, join_dec, joined_dec, replace_all, replace_spec};

verus! {

/// The literal address token for the scratch slot of cell `i` (offset by
/// one for the left halo byte).
pub open spec fn tmp_loc_spec(i: int) -> Seq<char> {
    "#tmp + "@ + dec_spec(i + 1)
}

/// The literal address token for the live-data slot of cell `i`.
pub open spec fn data_loc_spec(i: int) -> Seq<char> {
    "#data + "@ + dec_spec(i + 1)
}

/// One rule-application block: the template with its placeholders replaced
/// by the scratch destination, the live-data source, and the table base,
/// followed by a blank line.
pub open spec fn process_block_spec(tmpl: Seq<char>, i: int) -> Seq<char> {
    replace_spec(
        replace_spec(replace_spec(tmpl, "!location2"@, tmp_loc_spec(i)), "!location"@, data_loc_spec(i)),
        "!rule"@,
        "#rule"@,
    ) + "\n"@
}

/// One commit block: the template with its placeholders replaced by the
/// scratch source and the live-data destination, followed by a blank line.
pub open spec fn copy_block_spec(tmpl: Seq<char>, i: int) -> Seq<char> {
    replace_spec(replace_spec(tmpl, "!from"@, tmp_loc_spec(i)), "!to"@, data_loc_spec(i)) + "\n"@
}

/// Emit the rule-application block of cell `i`.
pub fn process_block(tmpl: &str, i: usize) -> (s: String)
    requires
        i < usize::MAX,
    ensures
        s@ == process_block_spec(tmpl@, i as int),
{
    let d = dec_string((i + 1) as u64);
    let mut tmp_loc = String::from_str("#tmp + ");
    tmp_loc.append(d.as_str());
    let mut data_loc = String::from_str("#data + ");
    data_loc.append(d.as_str());
    let r1 = replace_all(tmpl, "!location2", tmp_loc.as_str());
    let r2 = replace_all(r1.as_str(), "!location", data_loc.as_str());
    let mut r3 = replace_all(r2.as_str(), "!rule", "#rule");
    r3.append("\n");
    r3
}

/// Emit the commit block of cell `i`.
pub fn copy_block(tmpl: &str, i: usize) -> (s: String)
    requires
        i < usize::MAX,
    ensures
        s@ == copy_block_spec(tmpl@, i as int),
{
    let d = dec_string((i + 1) as u64);
    let mut tmp_loc = String::from_str("#tmp + ");
    tmp_loc.append(d.as_str());
    let mut data_loc = String::from_str("#data + ");
    data_loc.append(d.as_str());
    let r1 = replace_all(tmpl, "!from", tmp_loc.as_str());
    let mut r2 = replace_all(r1.as_str(), "!to", data_loc.as_str());
    r2.append("\n");
    r2
}

/// Emit one rule-application block per cell: exactly `n` blocks, the block
/// of cell `i` at index `i`.
pub fn process_blocks(tmpl: &str, n: usize) -> (v: Vec<String>)
    ensures
        v@.len() == n,
        forall|k: int| 0 <= k < n ==> (#[trigger] v@[k])@ == process_block_spec(tmpl@, k),
{
    let mut v: Vec<String> = Vec::new();
    let mut i: usize = 0;
    while i < n
        invariant
            i <= n,
            v@.len() == i,
            forall|k: int| 0 <= k < i ==> (#[trigger] v@[k])@ == process_block_spec(tmpl@, k),
        decreases n - i,
    {
        v.push(process_block(tmpl, i));
        i += 1;
    }
    v
}

/// Emit one commit block per cell: exactly `n` blocks, the block of cell
/// `i` at index `i`.
pub fn copy_blocks(tmpl: &str, n: usize) -> (v: Vec<String>)
    ensures
        v@.len() == n,
        forall|k: int| 0 <= k < n ==> (#[trigger] v@[k])@ == copy_block_spec(tmpl@, k),
{
    let mut v: Vec<String> = Vec::new();
    let mut i: usize = 0;
    while i < n
        invariant
            i <= n,
            v@.len() == i,
            forall|k: int| 0 <= k < i ==> (#[trigger] v@[k])@ == copy_block_spec(tmpl@, k),
        decreases n - i,
    {
        v.push(copy_block(tmpl, i));
        i += 1;
    }
    v
}

/// The first `k` of the given texts, concatenated in order.
pub open spec fn concat_texts(v: Seq<String>, k: nat) -> Seq<char>
    decreases k,
{
    if k == 0 {
        Seq::<char>::empty()
    } else {
        concat_texts(v, (k - 1) as nat) + v[k - 1 as int]@
    }
}

/// The first `k` rule-application blocks, concatenated.
pub open spec fn process_blocks_text(tmpl: Seq<char>, k: nat) -> Seq<char>
    decreases k,
{
    if k == 0 {
        Seq::<char>::empty()
    } else {
        process_blocks_text(tmpl, (k - 1) as nat) + process_block_spec(tmpl, k - 1)
    }
}

/// The first `k` commit blocks, concatenated.
pub open spec fn copy_blocks_text(tmpl: Seq<char>, k: nat) -> Seq<char>
    decreases k,
{
    if k == 0 {
        Seq::<char>::empty()
    } else {
        copy_blocks_text(tmpl, (k - 1) as nat) + copy_block_spec(tmpl, k - 1)
    }
}

proof fn lemma_concat_process(v: Seq<String>, tmpl: Seq<char>, k: nat)
    requires
        k <= v.len(),
        forall|j: int| 0 <= j < k ==> (#[trigger] v[j])@ == process_block_spec(tmpl, j),
    ensures
        concat_texts(v, k) == process_blocks_text(tmpl, k),
    decreases k,
{
    if k > 0 {
        lemma_concat_process(v, tmpl, (k - 1) as nat);
    }
}

proof fn lemma_concat_copy(v: Seq<String>, tmpl: Seq<char>, k: nat)
    requires
        k <= v.len(),
        forall|j: int| 0 <= j < k ==> (#[trigger] v[j])@ == copy_block_spec(tmpl, j),
    ensures
        concat_texts(v, k) == copy_blocks_text(tmpl, k),
    decreases k,
{
    if k > 0 {
        lemma_concat_copy(v, tmpl, (k - 1) as nat);
    }
}

/// Append every text of `v`, in order.
pub fn append_all(out: &mut String, v: &Vec<String>)
    ensures
        final(out)@ == old(out)@ + concat_texts(v@, v@.len()),
{
    let ghost base = out@;
    proof {
        assert(base + concat_texts(v@, 0) =~= base);
    }
    let mut i: usize = 0;
    while i < v.len()
        invariant
            i <= v@.len(),
            out@ == base + concat_texts(v@, i as nat),
        decreases v@.len() - i,
    {
        out.append(v[i].as_str());
        proof {
            assert(out@ =~= base + concat_texts(v@, (i + 1) as nat));
        }
        i += 1;
    }
}

/// A sequence of `k` zero bytes.
pub open spec fn zeros_spec(k: nat) -> Seq<u8> {
    Seq::new(k, |i: int| 0u8)
}

/// The complete generated program text: the identity-table directive, the
/// loop entry on its page boundary, one rule-application and one commit
/// block per cell, the closing branch, the rule-table directive, and the
/// halo-framed data and zeroed scratch regions at their planned offsets.
pub open spec fn program_spec(
    data: Seq<u8>,
    process_tmpl: Seq<char>,
    copy_tmpl: Seq<char>,
    rule_tmpl: Seq<char>,
) -> Seq<char> {
    "!literal\n"@ + ".org 0x1000\n"@ + "_loop:\n"@ + process_blocks_text(process_tmpl, data.len())
        + copy_blocks_text(copy_tmpl, data.len()) + "mov pc, #_loop\n"@ + "rule:\n"@ + rule_tmpl
        + "\n\n"@ + ".org "@ + dec_spec(data.len() * 0x100 + 0x1000 as int) + "\n"@ + "data:\n.byte "@
        + "0, "@ + joined_dec(data, data.len()) + ", 0"@ + "\n\n"@ + "tmp:\n.byte "@ + joined_dec(
        zeros_spec((data.len() + 2) as nat),
        (data.len() + 2) as nat,
    ) + "\n\n"@
}

/// A generated program: its full assembly text and the memory layout its
/// origin directives commit to.
pub struct GeneratedProgram {
    pub text: String,
    pub layout: MemoryLayout,
}

/// Generate the whole program for the given live vector and instruction
/// templates.
pub fn generate_program(
    data: &Vec<u8>,
    process_tmpl: &str,
    copy_tmpl: &str,
    rule_tmpl: &str,
) -> (r: Result<GeneratedProgram, LayoutError>)
    ensures
        r is Ok <==> data@.len() <= MAX_VECTOR_LEN,
        r is Ok ==> r->Ok_0.layout == layout_spec(data@.len() as nat),
        r is Ok ==> r->Ok_0.text@ == program_spec(data@, process_tmpl@, copy_tmpl@, rule_tmpl@),
        r is Err ==> r->Err_0 == LayoutError::LayoutOverflow,
{
    let n = data.len();
    let planned = plan_layout(n);
    let layout = match planned {
        Ok(l) => l,
        Err(e) => {
            return Err(e);
        },
    };
    let mut out = String::from_str("!literal\n");
    out.append(".org 0x1000\n");
    out.append("_loop:\n");

    let pv = process_blocks(process_tmpl, n);
    append_all(&mut out, &pv);
    proof {
        lemma_concat_process(pv@, process_tmpl@, n as nat);
    }

    let cv = copy_blocks(copy_tmpl, n);
    append_all(&mut out, &cv);
    proof {
        lemma_concat_copy(cv@, copy_tmpl@, n as nat);
    }

    out.append("mov pc, #_loop\n");
    out.append("rule:\n");
    out.append(rule_tmpl);
    out.append("\n\n");

    out.append(".org ");
    let addr = dec_string(layout.data_offset);
    out.append(addr.as_str());
    out.append("\n");

    out.append("data:\n.byte ");
    out.append("0, ");
    let vals = join_dec(data);
    out.append(vals.as_str());
    out.append(", 0");
    out.append("\n\n");

    out.append("tmp:\n.byte ");
    let mut scratch_zeros: Vec<u8> = Vec::new();
    let mut k: usize = 0;
    while k < n + 2
        invariant
            n + 2 <= usize::MAX,
            k <= n + 2,
            scratch_zeros@.len() == k,
            forall|j: int| 0 <= j < k ==> scratch_zeros@[j] == 0u8,
        decreases n + 2 - k,
    {
        scratch_zeros.push(0);
        k += 1;
    }
    proof {
        assert(scratch_zeros@ =~= zeros_spec((n + 2) as nat));
    }
    let z = join_dec(&scratch_zeros);
    out.append(z.as_str());
    out.append("\n\n");

    proof {
        assert(layout.data_offset == n * 0x100 + 0x1000);
        assert(out@ == program_spec(data@, process_tmpl@, copy_tmpl@, rule_tmpl@));
    }
    Ok(GeneratedProgram { text: out, layout })
}

} // verus!
