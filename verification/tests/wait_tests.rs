use easy_apply::wait::{wait_decision, wait_until, ProbeOutcome, WaitDecision};

#[test]
fn wait_succeeds_at_first_true_poll() {
    let states = vec![false, false, true, true];
    let r = wait_until(&states, 100, 1000).unwrap();
    assert_eq!(r.polls, 2);
    assert_eq!(r.elapsed_ms, 200);
}

#[test]
fn wait_polls_immediately_without_initial_delay() {
    let states = vec![true];
    let r = wait_until(&states, 500, 30_000).unwrap();
    assert_eq!(r.polls, 0);
    assert_eq!(r.elapsed_ms, 0);
}

#[test]
fn wait_times_out_when_predicate_never_holds() {
    let states = vec![false, false, false];
    let t = wait_until(&states, 500, 1000).unwrap_err();
    assert_eq!(t.polls, 3);
    assert_eq!(t.elapsed_ms, 1500);
    assert!(t.elapsed_ms > 1000);
    assert!(t.elapsed_ms <= 1000 + 500);
}

#[test]
fn wait_times_out_on_empty_recording() {
    let t = wait_until(&Vec::new(), 250, 600).unwrap_err();
    assert!(t.elapsed_ms > 600);
    assert!(t.elapsed_ms <= 850);
}

#[test]
fn wait_ignores_truth_past_the_deadline() {
    // The predicate only turns true after the budget is spent.
    let states = vec![false, false, true];
    let t = wait_until(&states, 600, 1000).unwrap_err();
    assert_eq!(t.elapsed_ms, 1200);
}

#[test]
fn decision_fatal_wins_over_everything() {
    assert_eq!(wait_decision(ProbeOutcome::FatalError, 0, 1000), WaitDecision::Fatal);
    assert_eq!(wait_decision(ProbeOutcome::FatalError, 5000, 1000), WaitDecision::Fatal);
}

#[test]
fn decision_checks_budget_before_predicate() {
    assert_eq!(wait_decision(ProbeOutcome::Satisfied, 1001, 1000), WaitDecision::Timeout);
    assert_eq!(wait_decision(ProbeOutcome::Satisfied, 1000, 1000), WaitDecision::Done);
    assert_eq!(wait_decision(ProbeOutcome::NotYet, 400, 1000), WaitDecision::Sleep);
    assert_eq!(wait_decision(ProbeOutcome::RetryableError, 400, 1000), WaitDecision::Sleep);
}
