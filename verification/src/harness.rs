use vstd::prelude::*;

use crate::evolve::{step_generation, step_spec, RuleTable};
use crate::layout::{MemoryLayout, BASE_POINTER};
use crate::sampler::{framed_spec, sample_interior};

verus! {

/// Why a run stopped normally: one of the two external budgets ran out.
/// Neither is an error; they are the only way a deliberately infinite
/// generated loop ever stops.
#[derive(Clone, Copy, PartialEq, Eq, Structural, Debug)]
pub enum HaltReason {
    Timeout,
    InstructionLimitReached,
}

/// Why a run failed: the generated program touched unmapped memory or hit
/// an illegal encoding. Both indicate a layout or generation bug.
#[derive(Clone, Copy, PartialEq, Eq, Structural, Debug)]
pub enum FaultKind {
    MemoryFault,
    InvalidInstruction,
}

/// The life of one emulated run.
#[derive(Clone, Copy, PartialEq, Eq, Structural, Debug)]
pub enum RunState {
    /// Memory is mapped and the image loaded, nothing executed yet.
    Mapped,
    /// The emulator is executing the generational loop.
    Running,
    /// A budget ran out: the normal end of a run.
    Halted(HaltReason),
    /// The emulator reported a fault: an abnormal end.
    Faulted(FaultKind),
}

/// What the emulator reports back while a run progresses.
#[derive(Clone, Copy, PartialEq, Eq, Structural, Debug)]
pub enum RunEvent {
    Start,
    InstructionLimit,
    TimeExpired,
    MemoryViolation,
    IllegalInstruction,
}

/// The run state machine: a mapped image starts running; a running image
/// halts on budget exhaustion or faults on a violation; halted and faulted
/// states are terminal, and events out of place change nothing.
pub open spec fn next_state_spec(s: RunState, e: RunEvent) -> RunState {
    match (s, e) {
        (RunState::Mapped, RunEvent::Start) => RunState::Running,
        (RunState::Running, RunEvent::InstructionLimit) => RunState::Halted(
            HaltReason::InstructionLimitReached,
        ),
        (RunState::Running, RunEvent::TimeExpired) => RunState::Halted(HaltReason::Timeout),
        (RunState::Running, RunEvent::MemoryViolation) => RunState::Faulted(
            FaultKind::MemoryFault,
        ),
        (RunState::Running, RunEvent::IllegalInstruction) => RunState::Faulted(
            FaultKind::InvalidInstruction,
        ),
        (s, _) => s,
    }
}

/// Advance the run state machine by one reported event.
pub fn next_state(s: RunState, e: RunEvent) -> (r: RunState)
    ensures
        r == next_state_spec(s, e),
{
    match (s, e) {
        (RunState::Mapped, RunEvent::Start) => RunState::Running,
        (RunState::Running, RunEvent::InstructionLimit) => RunState::Halted(
            HaltReason::InstructionLimitReached,
        ),
        (RunState::Running, RunEvent::TimeExpired) => RunState::Halted(HaltReason::Timeout),
        (RunState::Running, RunEvent::MemoryViolation) => RunState::Faulted(
            FaultKind::MemoryFault,
        ),
        (RunState::Running, RunEvent::IllegalInstruction) => RunState::Faulted(
            FaultKind::InvalidInstruction,
        ),
        (other, _) => other,
    }
}

/// Halted and faulted states are terminal: no further event changes them.
pub proof fn lemma_end_states_terminal(s: RunState, e: RunEvent)
    requires
        s is Halted || s is Faulted,
    ensures
        next_state_spec(s, e) == s,
{
}

/// How much emulator memory a run maps for an image of the given length:
/// the next page boundary strictly above it.
pub open spec fn map_size_spec(code_len: int) -> int {
    (code_len / 0x1000 + 1) * 0x1000
}

/// Everything the harness decides before a run: how much memory to map,
/// where execution enters, what the convention register holds, and which
/// window the sampling hook reads.
#[derive(Clone, Copy, PartialEq, Eq, Structural, Debug)]
pub struct RunPlan {
    pub map_size: u64,
    pub entry: u64,
    pub base_pointer: u64,
    pub window_start: u64,
    pub window_len: u64,
}

/// Plan a run of an assembled image: page-rounded mapping covering the
/// whole image, entry at the loop address, the base-pointer convention
/// value, and the sampling window one byte past the left halo border.
pub fn plan_run(code_len: u64, layout: &MemoryLayout, data_len: u64) -> (p: RunPlan)
    requires
        code_len <= u64::MAX - 0x1000,
        layout.data_offset <= u64::MAX - 1,
    ensures
        p.map_size == map_size_spec(code_len as int),
        p.map_size > code_len,
        p.map_size % 0x1000 == 0,
        p.entry == layout.loop_entry,
        p.base_pointer == BASE_POINTER,
        p.window_start == layout.data_offset + 1,
        p.window_len == data_len,
{
    let map_size: u64 = (code_len / 0x1000 + 1) * 0x1000;
    RunPlan {
        map_size,
        entry: layout.loop_entry,
        base_pointer: BASE_POINTER,
        window_start: layout.data_offset + 1,
        window_len: data_len,
    }
}

/// How many times the loop-entry hook fires under an instruction budget
/// `b` when one generation costs `c` instructions: the hook fires whenever
/// any budget is left, and a full generation is then charged.
pub open spec fn model_firings(b: int, c: int) -> nat
    decreases b when c >= 1
{
    if b <= 0 {
        0
    } else if b < c {
        1
    } else {
        1 + model_firings(b - c, c)
    }
}

/// How many whole generations complete under an instruction budget `b`
/// when one generation costs `c` instructions.
pub open spec fn model_gens(b: int, c: int) -> nat
    decreases b when c >= 1
{
    if b <= 0 {
        0
    } else if b < c {
        0
    } else {
        1 + model_gens(b - c, c)
    }
}

/// The live vector after `k` whole generations.
pub open spec fn gens_spec(d: Seq<u8>, t: Seq<u8>, two_input: bool, k: nat) -> Seq<u8>
    decreases k,
{
    if k == 0 {
        d
    } else {
        step_spec(gens_spec(d, t, two_input, (k - 1) as nat), t, two_input)
    }
}

/// With no budget at all, nothing runs: the hook never fires and no
/// generation completes.
pub proof fn lemma_zero_budget(c: int)
    requires
        c >= 1,
    ensures
        model_firings(0, c) == 0,
        model_gens(0, c) == 0,
{
}

/// What one bounded run leaves behind.
pub struct RunOutcome {
    /// How many times the loop-entry hook fired.
    pub hook_firings: usize,
    /// The framed sample line taken at each hook firing, in order.
    pub samples: Vec<String>,
    /// The final halo-framed live vector.
    pub data: Vec<u8>,
    /// Why the run stopped; the model runs under the instruction budget
    /// alone, so it always stops by exhausting it.
    pub halt: HaltReason,
}

/// Run the generational loop as a bounded iteration: the loop-entry hook
/// fires while budget remains and samples the live window, then one
/// generation is charged `gen_cost` instructions and applied; the run
/// stops deterministically when the budget is exhausted.
pub fn run_model(data: Vec<u8>, table: &RuleTable, gen_cost: u64, budget: u64) -> (r: RunOutcome)
    requires
        table.wf(),
        data@.len() >= 2,
        gen_cost >= 1,
    ensures
        r.halt == HaltReason::InstructionLimitReached,
        r.hook_firings == r.samples@.len(),
        r.samples@.len() == model_firings(budget as int, gen_cost as int),
        r.data@ == gens_spec(
            data@,
            table.bytes@,
            table.two_input,
            model_gens(budget as int, gen_cost as int),
        ),
        forall|i: int|
            0 <= i < r.samples@.len() ==> (#[trigger] r.samples@[i])@ == framed_spec(
                gens_spec(data@, table.bytes@, table.two_input, i as nat).subrange(
                    1,
                    data@.len() - 1,
                ),
            ),
        budget == 0 ==> r.hook_firings == 0 && r.data@ == data@,
{
    let ghost orig = data@;
    let ghost tbl = table.bytes@;
    let ghost two = table.two_input;
    let mut d = data;
    let mut samples: Vec<String> = Vec::new();
    let mut remaining = budget;
    let ghost mut gens_done: nat = 0;
    loop
        invariant_except_break
            table.wf(),
            table.bytes@ == tbl,
            table.two_input == two,
            gen_cost >= 1,
            orig.len() >= 2,
            d@ == gens_spec(orig, tbl, two, gens_done),
            d@.len() == orig.len(),
            samples@.len() == gens_done,
            model_firings(budget as int, gen_cost as int) == gens_done + model_firings(
                remaining as int,
                gen_cost as int,
            ),
            model_gens(budget as int, gen_cost as int) == gens_done + model_gens(
                remaining as int,
                gen_cost as int,
            ),
            forall|i: int|
                0 <= i < samples@.len() ==> (#[trigger] samples@[i])@ == framed_spec(
                    gens_spec(orig, tbl, two, i as nat).subrange(1, orig.len() - 1),
                ),
        ensures
            samples@.len() == model_firings(budget as int, gen_cost as int),
            d@ == gens_spec(orig, tbl, two, model_gens(budget as int, gen_cost as int)),
            forall|i: int|
                0 <= i < samples@.len() ==> (#[trigger] samples@[i])@ == framed_spec(
                    gens_spec(orig, tbl, two, i as nat).subrange(1, orig.len() - 1),
                ),
        decreases remaining,
    {
        if remaining == 0 {
            break;
        }
        let s = sample_interior(&d);
        samples.push(s);
        if remaining < gen_cost {
            proof {
                assert(model_firings(remaining as int, gen_cost as int) == 1);
                assert(model_gens(remaining as int, gen_cost as int) == 0);
            }
            break;
        }
        let ghost rem0 = remaining as int;
        remaining = remaining - gen_cost;
        step_generation(&mut d, table);
        proof {
            assert(model_firings(rem0, gen_cost as int) == 1 + model_firings(
                rem0 - gen_cost,
                gen_cost as int,
            ));
            assert(model_gens(rem0, gen_cost as int) == 1 + model_gens(
                rem0 - gen_cost,
                gen_cost as int,
            ));
            gens_done = gens_done + 1;
        }
    }
    proof {
        if budget == 0 {
            lemma_zero_budget(gen_cost as int);
        }
    }
    let fired = samples.len();
    RunOutcome { hook_firings: fired, samples, data: d, halt: HaltReason::InstructionLimitReached }
}

} // verus!
