use easy_apply::orchestrator::{
    apply_all, apply_posting, apply_step, stage_action, ApplyAction, ApplyStage, StageEvent,
};

#[test]
fn trigger_timeout_abandons_with_zero_submit_clicks() {
    let events = vec![StageEvent::Succeeded, StageEvent::TimedOut];
    let outcome = apply_posting(&events);
    assert_eq!(outcome.stage, ApplyStage::Abandoned);
    assert_eq!(outcome.submit_clicks, 0);
    assert_eq!(outcome.next_clicks, 0);
}

#[test]
fn abandoned_posting_does_not_block_the_next() {
    let logs = vec![
        vec![StageEvent::Succeeded, StageEvent::TimedOut],
        vec![
            StageEvent::Succeeded,
            StageEvent::Succeeded,
            StageEvent::TimedOut,
            StageEvent::Succeeded,
        ],
    ];
    let outcomes = apply_all(&logs);
    assert_eq!(outcomes.len(), 2);
    assert_eq!(outcomes[0].stage, ApplyStage::Abandoned);
    assert_eq!(outcomes[0].submit_clicks, 0);
    assert_eq!(outcomes[1].stage, ApplyStage::Done);
    assert_eq!(outcomes[1].submit_clicks, 1);
}

#[test]
fn full_flow_counts_form_steps() {
    // Navigate, trigger, two form steps, an empty wait window, submit.
    let events = vec![
        StageEvent::Succeeded,
        StageEvent::Succeeded,
        StageEvent::Succeeded,
        StageEvent::Succeeded,
        StageEvent::TimedOut,
        StageEvent::Succeeded,
    ];
    let outcome = apply_posting(&events);
    assert_eq!(outcome.stage, ApplyStage::Done);
    assert_eq!(outcome.next_clicks, 2);
    assert_eq!(outcome.submit_clicks, 1);
}

#[test]
fn navigation_failure_abandons_immediately() {
    let outcome = apply_posting(&vec![StageEvent::TransportFailed]);
    assert_eq!(outcome.stage, ApplyStage::Abandoned);
}

#[test]
fn form_step_timeout_moves_to_submit_not_abandoned() {
    assert_eq!(
        apply_step(ApplyStage::AdvanceFormStep, StageEvent::TimedOut),
        ApplyStage::Submit
    );
    assert_eq!(
        apply_step(ApplyStage::AdvanceFormStep, StageEvent::TransportFailed),
        ApplyStage::Abandoned
    );
    assert_eq!(
        apply_step(ApplyStage::AdvanceFormStep, StageEvent::Succeeded),
        ApplyStage::AdvanceFormStep
    );
}

#[test]
fn submit_timeout_abandons() {
    assert_eq!(apply_step(ApplyStage::Submit, StageEvent::TimedOut), ApplyStage::Abandoned);
    assert_eq!(apply_step(ApplyStage::Submit, StageEvent::Succeeded), ApplyStage::Done);
}

#[test]
fn terminal_stages_absorb_events() {
    assert_eq!(apply_step(ApplyStage::Done, StageEvent::TransportFailed), ApplyStage::Done);
    assert_eq!(
        apply_step(ApplyStage::Abandoned, StageEvent::Succeeded),
        ApplyStage::Abandoned
    );
}

#[test]
fn stage_actions_match_the_flow() {
    assert_eq!(stage_action(ApplyStage::NavigateToPosting), ApplyAction::OpenDeepLink);
    assert_eq!(
        stage_action(ApplyStage::TriggerEasyApply),
        ApplyAction::AwaitAndClickEasyApply
    );
    assert_eq!(stage_action(ApplyStage::AdvanceFormStep), ApplyAction::AwaitAndClickNext);
    assert_eq!(stage_action(ApplyStage::Submit), ApplyAction::AwaitAndClickSubmit);
    assert_eq!(stage_action(ApplyStage::Done), ApplyAction::Finish);
    assert_eq!(stage_action(ApplyStage::Abandoned), ApplyAction::RecordFailure);
}

#[test]
fn run_stops_consuming_after_terminal_stage() {
    // Whatever follows the failure is ignored.
    let events = vec![
        StageEvent::TimedOut,
        StageEvent::Succeeded,
        StageEvent::Succeeded,
        StageEvent::Succeeded,
    ];
    let outcome = apply_posting(&events);
    assert_eq!(outcome.stage, ApplyStage::Abandoned);
    assert_eq!(outcome.next_clicks, 0);
    assert_eq!(outcome.submit_clicks, 0);
}
