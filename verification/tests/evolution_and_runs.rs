use cellasm::evolve::{apply_rule, rule_table_for, step_generation, with_halo};
use cellasm::harness::{
    next_state, plan_run, run_model, FaultKind, HaltReason, RunEvent, RunState,
};
use cellasm::layout::plan_layout;
use cellasm::sampler::render_line;
use cellasm::tables::Directive;

#[test]
fn halo_frames_the_vector() {
    let h = with_halo(&vec![1, 2, 3]);
    assert_eq!(h, vec![0, 1, 2, 3, 0]);
}

#[test]
fn scratch_has_halo_shape() {
    let t = rule_table_for(Directive::Literal);
    let d = with_halo(&vec![9u8; 6]);
    let scratch = apply_rule(&d, &t);
    assert_eq!(scratch.len(), 6 + 2);
    assert_eq!(scratch[0], 0);
    assert_eq!(scratch[7], 0);
}

#[test]
fn identity_generation_is_a_no_op() {
    let t = rule_table_for(Directive::Literal);
    let mut d = vec![0u8, 5, 9, 200, 0];
    let before = d.clone();
    step_generation(&mut d, &t);
    assert_eq!(d, before);
}

#[test]
fn increment_generation_adds_one_mod_256() {
    let t = rule_table_for(Directive::Incr);
    let mut d = vec![0u8, 255, 1, 7, 0];
    step_generation(&mut d, &t);
    assert_eq!(d, vec![0, 0, 2, 8, 0]);
}

#[test]
fn addition_generation_sums_neighbors() {
    let t = rule_table_for(Directive::Add);
    let mut d = vec![0u8, 1, 2, 3, 0];
    step_generation(&mut d, &t);
    assert_eq!(d, vec![0, 2, 4, 2, 0]);
}

#[test]
fn sampler_renders_three_symbols() {
    assert_eq!(render_line(&vec![0, 1, 5]), "| #~|");
    assert_eq!(render_line(&vec![]), "||");
}

#[test]
fn zero_budget_run_never_fires_the_hook() {
    let t = rule_table_for(Directive::Incr);
    let d = with_halo(&vec![3u8; 4]);
    let before = d.clone();
    let out = run_model(d, &t, 10, 0);
    assert_eq!(out.hook_firings, 0);
    assert!(out.samples.is_empty());
    assert_eq!(out.halt, HaltReason::InstructionLimitReached);
    assert_eq!(out.data, before);
}

#[test]
fn first_sample_of_identity_run_matches_seed() {
    let mut data = vec![0u8; 64];
    data[63] = 1;
    let t = rule_table_for(Directive::Literal);
    let h = with_halo(&data);
    let out = run_model(h, &t, 10, 25);
    assert_eq!(out.hook_firings, 3);
    let mut expected = String::from("|");
    for _ in 0..63 {
        expected.push(' ');
    }
    expected.push('#');
    expected.push('|');
    assert_eq!(out.samples[0], expected);
    assert_eq!(out.samples[1], expected);
    assert_eq!(out.halt, HaltReason::InstructionLimitReached);
}

#[test]
fn budget_is_charged_per_generation() {
    let t = rule_table_for(Directive::Incr);
    let d = with_halo(&vec![0u8; 3]);
    let out = run_model(d, &t, 5, 21);
    assert_eq!(out.hook_firings, 5);
    assert_eq!(out.data, vec![0, 4, 4, 4, 0]);
}

#[test]
fn exactly_divided_budget_stops_without_an_extra_sample() {
    let t = rule_table_for(Directive::Incr);
    let d = with_halo(&vec![0u8; 2]);
    let out = run_model(d, &t, 5, 10);
    assert_eq!(out.hook_firings, 2);
    assert_eq!(out.data, vec![0, 2, 2, 0]);
}

#[test]
fn run_states_advance_and_terminate() {
    assert_eq!(
        next_state(RunState::Mapped, RunEvent::Start),
        RunState::Running
    );
    assert_eq!(
        next_state(RunState::Running, RunEvent::InstructionLimit),
        RunState::Halted(HaltReason::InstructionLimitReached)
    );
    assert_eq!(
        next_state(RunState::Running, RunEvent::TimeExpired),
        RunState::Halted(HaltReason::Timeout)
    );
    assert_eq!(
        next_state(RunState::Running, RunEvent::MemoryViolation),
        RunState::Faulted(FaultKind::MemoryFault)
    );
    assert_eq!(
        next_state(RunState::Running, RunEvent::IllegalInstruction),
        RunState::Faulted(FaultKind::InvalidInstruction)
    );
    let halted = RunState::Halted(HaltReason::Timeout);
    assert_eq!(next_state(halted, RunEvent::Start), halted);
    let faulted = RunState::Faulted(FaultKind::MemoryFault);
    assert_eq!(next_state(faulted, RunEvent::TimeExpired), faulted);
}

#[test]
fn run_plan_follows_the_conventions() {
    let l = plan_layout(64).unwrap();
    let p = plan_run(0x1234, &l, 64);
    assert_eq!(p.map_size, 0x2000);
    assert_eq!(p.entry, 0x1000);
    assert_eq!(p.base_pointer, 0x4000);
    assert_eq!(p.window_start, l.data_offset + 1);
    assert_eq!(p.window_len, 64);
    let p0 = plan_run(0, &l, 64);
    assert_eq!(p0.map_size, 0x1000);
    let p1 = plan_run(0x1000, &l, 64);
    assert_eq!(p1.map_size, 0x2000);
}
