use vstd::prelude::*;

use crate::errors::LayoutError;

verus! {

/// The emulator's page granularity; the generated loop code begins at the
/// first page boundary, after the region reserved for the identity table.
pub const PAGE_SIZE: u64 = 0x1000;

/// The address budget reserved per cell: one page-per-cell worth of room
/// for each cell's rule-application and commit blocks.
pub const CELL_RESERVATION: u64 = 0x100;

/// The value seeded into the designated base-pointer register before the
/// generated address arithmetic runs.
pub const BASE_POINTER: u64 = 0x4000;

/// Largest supported live-vector length; beyond it the planned offsets
/// would no longer fit the address arithmetic.
pub const MAX_VECTOR_LEN: u64 = 0xFFFF_0000;

/// The non-overlapping address ranges of the generated image: code first,
/// the rule table directly after the loop body, then the live-data vector
/// (with its two halo bytes) and the scratch buffer of the same shape.
#[derive(Clone, Copy, PartialEq, Eq, Structural, Debug)]
pub struct MemoryLayout {
    /// Where the image begins; always zero.
    pub code_base: u64,
    /// Where the generational loop begins: the first page boundary.
    pub loop_entry: u64,
    /// Where the live-data region (left halo byte first) begins.
    pub data_offset: u64,
    /// Where the scratch region begins: directly after the live data.
    pub scratch_offset: u64,
}

/// The layout planned for a live vector of `n` cells: the loop entry on the
/// first page boundary, the data region one cell-reservation past it per
/// cell, and the scratch region directly after data plus halo.
pub open spec fn layout_spec(n: nat) -> MemoryLayout {
    MemoryLayout {
        code_base: 0,
        loop_entry: PAGE_SIZE,
        data_offset: (n * CELL_RESERVATION + PAGE_SIZE) as u64,
        scratch_offset: (n * CELL_RESERVATION + PAGE_SIZE + n + 2) as u64,
    }
}

/// Plan the memory layout for a live vector of `n` cells.
pub fn plan_layout(n: usize) -> (r: Result<MemoryLayout, LayoutError>)
    ensures
        r is Ok <==> n <= MAX_VECTOR_LEN,
        r is Ok ==> r->Ok_0 == layout_spec(n as nat),
        r is Err ==> r->Err_0 == LayoutError::LayoutOverflow,
{
    if (n as u64) > MAX_VECTOR_LEN {
        return Err(LayoutError::LayoutOverflow);
    }
    let data_offset: u64 = (n as u64) * CELL_RESERVATION + PAGE_SIZE;
    let scratch_offset: u64 = data_offset + (n as u64) + 2;
    Ok(
        MemoryLayout {
            code_base: 0,
            loop_entry: PAGE_SIZE,
            data_offset,
            scratch_offset,
        },
    )
}

/// Whether the actually generated code fits the plan: the data region must
/// begin strictly beyond the end of the code (which starts at address 0).
pub open spec fn code_fits(l: MemoryLayout, code_len: u64) -> bool {
    code_len < l.data_offset
}

/// Defensive check that generation stayed inside the reserved code bound.
pub fn check_code_fits(l: &MemoryLayout, code_len: u64) -> (r: Result<(), LayoutError>)
    ensures
        r is Ok <==> code_fits(*l, code_len),
        r is Err ==> r->Err_0 == LayoutError::LayoutOverflow,
{
    if code_len < l.data_offset {
        Ok(())
    } else {
        Err(LayoutError::LayoutOverflow)
    }
}

/// Layout planning is a pure function of the vector length: two plans made
/// for the same length hold identical offsets.
pub proof fn lemma_layout_deterministic(n: nat, a: MemoryLayout, b: MemoryLayout)
    requires
        a == layout_spec(n),
        b == layout_spec(n),
    ensures
        a == b,
{
}

/// The planned ranges do not overlap: the loop code begins at the page
/// boundary below the data region, and the scratch region starts exactly
/// one halo-framed vector past the data region.
pub proof fn lemma_layout_regions_disjoint(n: nat)
    requires
        n <= MAX_VECTOR_LEN,
    ensures
        layout_spec(n).code_base == 0,
        layout_spec(n).code_base < layout_spec(n).loop_entry,
        layout_spec(n).loop_entry <= layout_spec(n).data_offset,
        layout_spec(n).data_offset + (n + 2) == layout_spec(n).scratch_offset,
{
}

/// Under the page-per-cell policy the data region begins strictly past the
/// true end of the generated loop code: if every cell's two blocks assemble
/// to at most half a cell reservation and the fixed tail (the loop branch
/// and the embedded rule table) is smaller than the accumulated slack, the
/// code that starts at the loop entry ends below the data offset.
///
/// The bound is not tight and does not hold for every length: an empty
/// vector (`n == 0`) leaves no slack at all for the fixed tail.
pub proof fn lemma_data_beyond_code(n: nat, per_cell: nat, fixed: nat)
    requires
        n <= MAX_VECTOR_LEN,
        per_cell <= CELL_RESERVATION / 2,
        fixed < n * (CELL_RESERVATION / 2),
    ensures
        PAGE_SIZE + n * per_cell + fixed < layout_spec(n).data_offset,
{
    assert(n * per_cell <= n * (CELL_RESERVATION / 2) && n * (CELL_RESERVATION / 2) + n * (
    CELL_RESERVATION / 2) == n * CELL_RESERVATION) by (nonlinear_arith)
        requires
            per_cell <= CELL_RESERVATION / 2,
    ;
}

} // verus!
