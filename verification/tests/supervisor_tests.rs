use jvmram_bridge::supervisor::{
    process_group_query, termination_plan, Phase, Signal, Supervisor, TerminationStep,
    GRACE_PERIOD_MILLIS,
};

#[test]
fn grace_period_is_half_a_second() {
    assert_eq!(GRACE_PERIOD_MILLIS, 500);
}

#[test]
fn process_group_query_keeps_ordinary_pids() {
    assert_eq!(process_group_query(0), 0);
    assert_eq!(process_group_query(1), 1);
    assert_eq!(process_group_query(31337), 31337);
    assert_eq!(process_group_query(i32::MAX as u32), i32::MAX);
}

#[test]
fn process_group_query_reads_large_pids_as_negative() {
    assert_eq!(process_group_query(0x8000_0000), i32::MIN);
    assert_eq!(process_group_query(u32::MAX), -1);
    assert_eq!(process_group_query(u32::MAX - 9), -10);
    assert_eq!(process_group_query(3_000_000_000), 3_000_000_000u32 as i32);
}

#[test]
fn resolved_group_is_terminated_gracefully_then_forcefully() {
    assert_eq!(
        termination_plan(4321),
        vec![
            TerminationStep::SignalGroup { group: 4321, signal: Signal::Terminate },
            TerminationStep::Wait { millis: 500 },
            TerminationStep::SignalGroup { group: 4321, signal: Signal::Kill },
            TerminationStep::Reap,
        ]
    );
}

#[test]
fn smallest_and_largest_groups() {
    assert_eq!(termination_plan(1).len(), 4);
    assert_eq!(
        termination_plan(i32::MAX)[2],
        TerminationStep::SignalGroup { group: i32::MAX, signal: Signal::Kill }
    );
}

#[test]
fn unresolved_group_falls_back_to_the_process() {
    let fallback = vec![TerminationStep::KillProcess, TerminationStep::Reap];
    assert_eq!(termination_plan(-1), fallback);
    assert_eq!(termination_plan(0), fallback);
    assert_eq!(termination_plan(i32::MIN), fallback);
}

#[test]
fn no_plan_signals_a_group_that_is_not_positive() {
    for group in [-5, -1, 0, 1, 2, 77, i32::MAX] {
        for step in termination_plan(group) {
            if let TerminationStep::SignalGroup { group: signalled, .. } = step {
                assert!(signalled > 0);
                assert_eq!(signalled, group);
            }
        }
    }
}

#[test]
fn every_plan_reaps_last_and_once() {
    for group in [-1, 0, 1, 900] {
        let plan = termination_plan(group);
        assert_eq!(plan.last(), Some(&TerminationStep::Reap));
        assert_eq!(plan.iter().filter(|step| **step == TerminationStep::Reap).count(), 1);
    }
}

#[test]
fn supervisor_goes_through_its_phases() {
    let mut supervisor: Supervisor<u32> = Supervisor::new();
    assert_eq!(supervisor.phase(), Phase::NotStarted);
    assert_eq!(supervisor.start(77), Ok(()));
    assert_eq!(supervisor.phase(), Phase::Running);
    assert_eq!(supervisor, Supervisor::Running(77));
    assert_eq!(supervisor.take_for_termination(), Some(77));
    assert_eq!(supervisor.phase(), Phase::Terminating);
    supervisor.mark_reaped();
    assert_eq!(supervisor.phase(), Phase::Terminated);
}

#[test]
fn second_process_is_refused() {
    let mut supervisor: Supervisor<u32> = Supervisor::new();
    assert_eq!(supervisor.start(1), Ok(()));
    assert_eq!(supervisor.start(2), Err(2));
    assert_eq!(supervisor, Supervisor::Running(1));
    supervisor.take_for_termination();
    assert_eq!(supervisor.start(3), Err(3));
    assert_eq!(supervisor.phase(), Phase::Terminating);
    supervisor.mark_reaped();
    assert_eq!(supervisor.start(4), Err(4));
    assert_eq!(supervisor.phase(), Phase::Terminated);
}

#[test]
fn termination_is_claimed_once() {
    let mut supervisor: Supervisor<String> = Supervisor::new();
    assert_eq!(supervisor.start("child".to_string()), Ok(()));
    assert_eq!(supervisor.take_for_termination(), Some("child".to_string()));
    assert_eq!(supervisor.take_for_termination(), None);
    assert_eq!(supervisor.phase(), Phase::Terminating);
    supervisor.mark_reaped();
    assert_eq!(supervisor.take_for_termination(), None);
    assert_eq!(supervisor.phase(), Phase::Terminated);
}

#[test]
fn nothing_to_terminate_before_a_start() {
    let mut supervisor: Supervisor<u32> = Supervisor::new();
    assert_eq!(supervisor.take_for_termination(), None);
    assert_eq!(supervisor.phase(), Phase::NotStarted);
    supervisor.mark_reaped();
    assert_eq!(supervisor.phase(), Phase::NotStarted);
}

#[test]
fn reaping_only_ends_a_termination() {
    let mut supervisor: Supervisor<u32> = Supervisor::new();
    assert_eq!(supervisor.start(5), Ok(()));
    supervisor.mark_reaped();
    assert_eq!(supervisor, Supervisor::Running(5));
}
