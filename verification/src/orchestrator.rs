//! Apply orchestrator: the fixed sequence of UI stages driven for each
//! discovered posting. The state machine lives here; a driver around the
//! browser performs each stage's action (navigate, wait, click) and feeds
//! the result back as an event. Failure of one posting never blocks the
//! next: each posting's outcome is a function of its own events alone.

use vstd::prelude::*;

verus! {

/// A stage of the apply flow for one posting.
#[derive(Clone, Copy, PartialEq, Eq, Structural, Debug)]
pub enum ApplyStage {
    /// Load the composed deep-link URL.
    NavigateToPosting,
    /// Wait for the primary-action button with the "Easy apply" text, then
    /// click it.
    TriggerEasyApply,
    /// Wait for a "Next"-labeled button inside the form, then click it;
    /// repeats until no further step shows up within one wait window.
    AdvanceFormStep,
    /// Wait for a "Submit"-labeled button, then click it.
    Submit,
    /// The application went through.
    Done,
    /// The posting was given up; its outcome is recorded as a failure.
    Abandoned,
}

/// What the driver reports back after performing a stage's action.
#[derive(Clone, Copy, PartialEq, Eq, Structural, Debug)]
pub enum StageEvent {
    /// The stage's wait predicate held and its action was performed.
    Succeeded,
    /// The stage's wait window closed without the predicate holding.
    TimedOut,
    /// A browser-control call failed.
    TransportFailed,
}

/// What the driver must do while a posting sits in a given stage.
#[derive(Clone, Copy, PartialEq, Eq, Structural, Debug)]
pub enum ApplyAction {
    /// Navigate to the composed deep-link URL.
    OpenDeepLink,
    /// Wait for the "Easy apply" button and click it.
    AwaitAndClickEasyApply,
    /// Wait for a "Next" button and click it.
    AwaitAndClickNext,
    /// Wait for a "Submit" button and click it.
    AwaitAndClickSubmit,
    /// Settle, then move on to the next posting.
    Finish,
    /// Record the failure, then move on to the next posting.
    RecordFailure,
}

pub open spec fn is_terminal(stage: ApplyStage) -> bool {
    stage is Done || stage is Abandoned
}

/// The transition table. A timeout ends the form-step loop normally — one
/// empty wait window means no further "Next" button — while in every other
/// stage a timeout abandons the posting, as does a transport failure
/// anywhere.
pub open spec fn apply_step_spec(stage: ApplyStage, event: StageEvent) -> ApplyStage {
    match stage {
        ApplyStage::NavigateToPosting => match event {
            StageEvent::Succeeded => ApplyStage::TriggerEasyApply,
            _ => ApplyStage::Abandoned,
        },
        ApplyStage::TriggerEasyApply => match event {
            StageEvent::Succeeded => ApplyStage::AdvanceFormStep,
            _ => ApplyStage::Abandoned,
        },
        ApplyStage::AdvanceFormStep => match event {
            StageEvent::Succeeded => ApplyStage::AdvanceFormStep,
            StageEvent::TimedOut => ApplyStage::Submit,
            StageEvent::TransportFailed => ApplyStage::Abandoned,
        },
        ApplyStage::Submit => match event {
            StageEvent::Succeeded => ApplyStage::Done,
            _ => ApplyStage::Abandoned,
        },
        ApplyStage::Done => ApplyStage::Done,
        ApplyStage::Abandoned => ApplyStage::Abandoned,
    }
}

/// Advance the state machine by one driver event.
pub fn apply_step(stage: ApplyStage, event: StageEvent) -> (next: ApplyStage)
    ensures
        next == apply_step_spec(stage, event),
{
    match stage {
        ApplyStage::NavigateToPosting => match event {
            StageEvent::Succeeded => ApplyStage::TriggerEasyApply,
            _ => ApplyStage::Abandoned,
        },
        ApplyStage::TriggerEasyApply => match event {
            StageEvent::Succeeded => ApplyStage::AdvanceFormStep,
            _ => ApplyStage::Abandoned,
        },
        ApplyStage::AdvanceFormStep => match event {
            StageEvent::Succeeded => ApplyStage::AdvanceFormStep,
            StageEvent::TimedOut => ApplyStage::Submit,
            StageEvent::TransportFailed => ApplyStage::Abandoned,
        },
        ApplyStage::Submit => match event {
            StageEvent::Succeeded => ApplyStage::Done,
            _ => ApplyStage::Abandoned,
        },
        ApplyStage::Done => ApplyStage::Done,
        ApplyStage::Abandoned => ApplyStage::Abandoned,
    }
}

pub open spec fn stage_action_spec(stage: ApplyStage) -> ApplyAction {
    match stage {
        ApplyStage::NavigateToPosting => ApplyAction::OpenDeepLink,
        ApplyStage::TriggerEasyApply => ApplyAction::AwaitAndClickEasyApply,
        ApplyStage::AdvanceFormStep => ApplyAction::AwaitAndClickNext,
        ApplyStage::Submit => ApplyAction::AwaitAndClickSubmit,
        ApplyStage::Done => ApplyAction::Finish,
        ApplyStage::Abandoned => ApplyAction::RecordFailure,
    }
}

/// The action a driver owes a posting in the given stage.
pub fn stage_action(stage: ApplyStage) -> (a: ApplyAction)
    ensures
        a == stage_action_spec(stage),
{
    match stage {
        ApplyStage::NavigateToPosting => ApplyAction::OpenDeepLink,
        ApplyStage::TriggerEasyApply => ApplyAction::AwaitAndClickEasyApply,
        ApplyStage::AdvanceFormStep => ApplyAction::AwaitAndClickNext,
        ApplyStage::Submit => ApplyAction::AwaitAndClickSubmit,
        ApplyStage::Done => ApplyAction::Finish,
        ApplyStage::Abandoned => ApplyAction::RecordFailure,
    }
}

/// The stage the machine sits in after consuming the events, starting from
/// `stage`; consumption stops at a terminal stage.
pub open spec fn final_stage_spec(stage: ApplyStage, events: Seq<StageEvent>) -> ApplyStage
    decreases events.len(),
{
    if is_terminal(stage) || events.len() == 0 {
        stage
    } else {
        final_stage_spec(apply_step_spec(stage, events[0]), events.drop_first())
    }
}

/// How many "Next" buttons the run clicks: one for each event that finds the
/// machine in the form-step stage and succeeds.
pub open spec fn next_clicks_spec(stage: ApplyStage, events: Seq<StageEvent>) -> int
    decreases events.len(),
{
    if is_terminal(stage) || events.len() == 0 {
        0
    } else {
        (if stage is AdvanceFormStep && events[0] is Succeeded {
            1int
        } else {
            0int
        }) + next_clicks_spec(apply_step_spec(stage, events[0]), events.drop_first())
    }
}

/// How many times the run clicks "Submit": one for each event that finds the
/// machine in the submit stage and succeeds.
pub open spec fn submit_clicks_spec(stage: ApplyStage, events: Seq<StageEvent>) -> int
    decreases events.len(),
{
    if is_terminal(stage) || events.len() == 0 {
        0
    } else {
        (if stage is Submit && events[0] is Succeeded {
            1int
        } else {
            0int
        }) + submit_clicks_spec(apply_step_spec(stage, events[0]), events.drop_first())
    }
}

/// The recorded outcome of driving one posting.
#[derive(Clone, Copy, PartialEq, Eq, Structural, Debug)]
pub struct ApplyOutcome {
    /// Where the run ended: `Done`, `Abandoned`, or the stage the machine sat
    /// in when the driver stopped reporting events.
    pub stage: ApplyStage,
    pub next_clicks: u64,
    pub submit_clicks: u64,
}

proof fn lemma_click_counts_bounded(stage: ApplyStage, events: Seq<StageEvent>)
    ensures
        0 <= next_clicks_spec(stage, events) <= events.len(),
        0 <= submit_clicks_spec(stage, events) <= events.len(),
    decreases events.len(),
{
    if is_terminal(stage) || events.len() == 0 {
    } else {
        lemma_click_counts_bounded(apply_step_spec(stage, events[0]), events.drop_first());
    }
}

/// Drive one posting's state machine over the events its driver reported,
/// from the initial navigation stage until a terminal stage or the end of
/// the report.
pub fn apply_posting(events: &Vec<StageEvent>) -> (r: ApplyOutcome)
    ensures
        r.stage == final_stage_spec(ApplyStage::NavigateToPosting, events@),
        r.next_clicks == next_clicks_spec(ApplyStage::NavigateToPosting, events@),
        r.submit_clicks == submit_clicks_spec(ApplyStage::NavigateToPosting, events@),
{
    let mut stage = ApplyStage::NavigateToPosting;
    let mut next_clicks: u64 = 0;
    let mut submit_clicks: u64 = 0;
    let mut i: usize = 0;
    proof {
        assert(events@.skip(0) =~= events@);
    }
    while i < events.len() && !(matches!(stage, ApplyStage::Done) || matches!(
        stage,
        ApplyStage::Abandoned,
    ))
        invariant
            0 <= i <= events@.len(),
            next_clicks <= i,
            submit_clicks <= i,
            final_stage_spec(ApplyStage::NavigateToPosting, events@) == final_stage_spec(
                stage,
                events@.skip(i as int),
            ),
            next_clicks_spec(ApplyStage::NavigateToPosting, events@) == next_clicks
                + next_clicks_spec(stage, events@.skip(i as int)),
            submit_clicks_spec(ApplyStage::NavigateToPosting, events@) == submit_clicks
                + submit_clicks_spec(stage, events@.skip(i as int)),
        decreases events@.len() - i,
    {
        let event = events[i];
        proof {
            assert(events@.skip(i as int)[0] == events@[i as int]);
            assert(events@.skip(i as int).drop_first() =~= events@.skip(i as int + 1));
        }
        if matches!(stage, ApplyStage::AdvanceFormStep) && matches!(event, StageEvent::Succeeded) {
            next_clicks = next_clicks + 1;
        }
        if matches!(stage, ApplyStage::Submit) && matches!(event, StageEvent::Succeeded) {
            submit_clicks = submit_clicks + 1;
        }
        stage = apply_step(stage, event);
        i = i + 1;
    }
    ApplyOutcome { stage, next_clicks, submit_clicks }
}

/// Drive every posting in turn. Posting `i`'s outcome is a function of its
/// own event log alone, so one posting's failure never blocks the rest.
pub fn apply_all(event_logs: &Vec<Vec<StageEvent>>) -> (r: Vec<ApplyOutcome>)
    ensures
        r@.len() == event_logs@.len(),
        forall|i: int|
            0 <= i < r@.len() ==> {
                &&& (#[trigger] r@[i]).stage == final_stage_spec(
                    ApplyStage::NavigateToPosting,
                    event_logs@[i]@,
                )
                &&& r@[i].next_clicks == next_clicks_spec(
                    ApplyStage::NavigateToPosting,
                    event_logs@[i]@,
                )
                &&& r@[i].submit_clicks == submit_clicks_spec(
                    ApplyStage::NavigateToPosting,
                    event_logs@[i]@,
                )
            },
{
    let mut out: Vec<ApplyOutcome> = Vec::new();
    let mut i: usize = 0;
    while i < event_logs.len()
        invariant
            0 <= i <= event_logs@.len(),
            out@.len() == i,
            forall|j: int|
                0 <= j < i ==> {
                    &&& (#[trigger] out@[j]).stage == final_stage_spec(
                        ApplyStage::NavigateToPosting,
                        event_logs@[j]@,
                    )
                    &&& out@[j].next_clicks == next_clicks_spec(
                        ApplyStage::NavigateToPosting,
                        event_logs@[j]@,
                    )
                    &&& out@[j].submit_clicks == submit_clicks_spec(
                        ApplyStage::NavigateToPosting,
                        event_logs@[j]@,
                    )
                },
        decreases event_logs@.len() - i,
    {
        let outcome = apply_posting(&event_logs[i]);
        out.push(outcome);
        i = i + 1;
    }
    out
}

/// Law: a posting whose easy-apply trigger times out is abandoned then and
/// there — the run ends in the abandoned stage and clicks nothing on the
/// submit stage, whatever events follow. Together with `apply_all`, whose
/// contract derives every posting's outcome from that posting's own events,
/// this is why such a posting does not block the ones after it.
pub proof fn lemma_trigger_timeout_abandons(events: Seq<StageEvent>)
    requires
        events.len() >= 2,
        events[0] is Succeeded,
        events[1] is TimedOut,
    ensures
        final_stage_spec(ApplyStage::NavigateToPosting, events) is Abandoned,
        submit_clicks_spec(ApplyStage::NavigateToPosting, events) == 0,
        next_clicks_spec(ApplyStage::NavigateToPosting, events) == 0,
{
    let after_nav = events.drop_first();
    assert(after_nav[0] == events[1]);
    let after_trigger = after_nav.drop_first();
    assert(apply_step_spec(ApplyStage::NavigateToPosting, events[0])
        == ApplyStage::TriggerEasyApply);
    assert(apply_step_spec(ApplyStage::TriggerEasyApply, after_nav[0]) == ApplyStage::Abandoned);
    assert(final_stage_spec(ApplyStage::Abandoned, after_trigger) == ApplyStage::Abandoned);
    assert(final_stage_spec(ApplyStage::TriggerEasyApply, after_nav) == final_stage_spec(
        ApplyStage::Abandoned,
        after_trigger,
    ));
    assert(final_stage_spec(ApplyStage::NavigateToPosting, events) == final_stage_spec(
        ApplyStage::TriggerEasyApply,
        after_nav,
    ));
    assert(submit_clicks_spec(ApplyStage::Abandoned, after_trigger) == 0);
    assert(submit_clicks_spec(ApplyStage::TriggerEasyApply, after_nav) == submit_clicks_spec(
        ApplyStage::Abandoned,
        after_trigger,
    ));
    assert(submit_clicks_spec(ApplyStage::NavigateToPosting, events) == submit_clicks_spec(
        ApplyStage::TriggerEasyApply,
        after_nav,
    ));
    assert(next_clicks_spec(ApplyStage::Abandoned, after_trigger) == 0);
    assert(next_clicks_spec(ApplyStage::TriggerEasyApply, after_nav) == next_clicks_spec(
        ApplyStage::Abandoned,
        after_trigger,
    ));
    assert(next_clicks_spec(ApplyStage::NavigateToPosting, events) == next_clicks_spec(
        ApplyStage::TriggerEasyApply,
        after_nav,
    ));
}

} // verus!
