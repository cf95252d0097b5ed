//! The ordering, fail-fast and format laws of the orchestration machine,
//! stated over whole event traces and proved from the transition relation.

use vstd::prelude::*;

use crate::error::{CaptureError, InteractionFailure};
use crate::request::{spec_resolve_format, Interaction, InteractionKind};
use crate::session::{spec_advance, spec_noop_step, spec_step, Action, Event, Phase, Session};

verus! {

/// The session a run of the machine ends in: `s` after absorbing every
/// event of `evs` in order.
pub open spec fn run_state(s: Session, evs: Seq<Event>) -> Session
    decreases evs.len(),
{
    if evs.len() == 0 {
        s
    } else {
        run_state(spec_step(s, evs[0]).0, evs.subrange(1, evs.len() as int))
    }
}

/// The actions a run of the machine hands the driver, one per event.
pub open spec fn run_actions(s: Session, evs: Seq<Event>) -> Seq<Action>
    decreases evs.len(),
{
    if evs.len() == 0 {
        Seq::empty()
    } else {
        seq![spec_step(s, evs[0]).1] + run_actions(
            spec_step(s, evs[0]).0,
            evs.subrange(1, evs.len() as int),
        )
    }
}

/// The interaction an action belongs to, where it belongs to one.
pub open spec fn action_step_index(a: Action) -> Option<int> {
    match a {
        Action::AwaitStepSelector { index } => Some(index as int),
        Action::Click { index } => Some(index as int),
        Action::TypeText { index } => Some(index as int),
        Action::Scroll { index } => Some(index as int),
        Action::Hover { index } => Some(index as int),
        Action::Sleep { index, .. } => Some(index as int),
        _ => None,
    }
}

/// The first interaction the session could still act on: every action the
/// machine emits from here on belongs to this step or a later one.
pub open spec fn next_step_index(s: Session) -> int {
    match s.phase {
        Phase::CreatingTab => 0,
        Phase::SettingCookie { .. } => 0,
        Phase::Navigating => 0,
        Phase::AwaitingStepSelector { index } => index as int,
        Phase::DispatchingStep { index } => index as int,
        Phase::SleepingStep { index } => index as int,
        _ => s.req.interactions@.len() as int,
    }
}

/// One step of the machine never moves backwards in the interaction
/// sequence, and any step-directed action it emits belongs exactly to the
/// step the machine then stands at.
pub proof fn lemma_step_monotone(s: Session, e: Event)
    requires
        s.wf(),
    ensures
        ({
            let (s2, a) = spec_step(s, e);
            &&& next_step_index(s) <= next_step_index(s2) <= s.req.interactions@.len()
            &&& (action_step_index(a) is Some ==> action_step_index(a) == Some(
                next_step_index(s2),
            ))
        }),
{
    assert(s.req.interactions@.len() == s.req.interactions.len());
    crate::session::lemma_step_wf(s, e);
    match s.phase {
        Phase::Navigating => {
            lemma_advance_bounds(s.req.interactions@, 0);
        },
        Phase::AwaitingStepSelector { index } => {
            lemma_advance_bounds(s.req.interactions@, index + 1);
        },
        Phase::DispatchingStep { index } => {
            lemma_advance_bounds(s.req.interactions@, index + 1);
        },
        Phase::SleepingStep { index } => {
            lemma_advance_bounds(s.req.interactions@, index + 1);
        },
        _ => {},
    }
}

/// Entering the replay at step `k` emits an action at or after `k` (or
/// none), and stands still at the step that action belongs to.
proof fn lemma_advance_bounds(steps: Seq<Interaction>, k: int)
    requires
        0 <= k <= steps.len() <= usize::MAX,
    ensures
        ({
            let (p, a, err) = spec_advance(steps, k);
            &&& match p {
                Phase::AwaitingStepSelector { index } => k <= index < steps.len()
                    && action_step_index(a) == Some(index as int),
                Phase::SleepingStep { index } => k <= index < steps.len() && action_step_index(a)
                    == Some(index as int),
                Phase::AwaitingTarget => action_step_index(a) is None,
                Phase::Done => action_step_index(a) is None,
                _ => false,
            }
        }),
    decreases steps.len() - k,
{
    if k < steps.len() && spec_noop_step(steps[k]) {
        lemma_advance_bounds(steps, k + 1);
    }
}

/// A finished session absorbs every further event unchanged: the outcome
/// is settled once and for all, and the only action ever emitted again is
/// `Finish`. In particular a failed request never produces an image later.
pub proof fn lemma_done_absorbing(s: Session, evs: Seq<Event>)
    requires
        s.phase is Done,
    ensures
        run_state(s, evs) == s,
        forall|i: int| 0 <= i < run_actions(s, evs).len() ==> run_actions(s, evs)[i]
            == Action::Finish,
    decreases evs.len(),
{
    if evs.len() > 0 {
        lemma_done_absorbing(s, evs.subrange(1, evs.len() as int));
    }
}

/// Well-formedness holds along a whole run.
pub proof fn lemma_run_wf(s: Session, evs: Seq<Event>)
    requires
        s.wf(),
    ensures
        run_state(s, evs).wf(),
        run_state(s, evs).req == s.req,
    decreases evs.len(),
{
    if evs.len() > 0 {
        crate::session::lemma_step_wf(s, evs[0]);
        lemma_run_wf(spec_step(s, evs[0]).0, evs.subrange(1, evs.len() as int));
    }
}

/// Every step-directed action of a run belongs to the step the session
/// stands at or a later one: the machine never reaches back.
pub proof fn lemma_run_lower_bound(s: Session, evs: Seq<Event>)
    requires
        s.wf(),
    ensures
        forall|i: int|
            0 <= i < run_actions(s, evs).len() && action_step_index(
                #[trigger] run_actions(s, evs)[i],
            ) is Some ==> next_step_index(s) <= action_step_index(run_actions(s, evs)[i]).unwrap(),
    decreases evs.len(),
{
    if evs.len() > 0 {
        let s2 = spec_step(s, evs[0]).0;
        let rest = evs.subrange(1, evs.len() as int);
        crate::session::lemma_step_wf(s, evs[0]);
        lemma_step_monotone(s, evs[0]);
        lemma_run_lower_bound(s2, rest);
        assert forall|i: int|
            0 <= i < run_actions(s, evs).len() && action_step_index(
                #[trigger] run_actions(s, evs)[i],
            ) is Some implies next_step_index(s) <= action_step_index(
            run_actions(s, evs)[i],
        ).unwrap() by {
            if i > 0 {
                assert(run_actions(s, evs)[i] == run_actions(s2, rest)[i - 1]);
            }
        }
    }
}

/// Interactions are replayed in exactly the given order: along any event
/// trace, the step-directed actions the machine emits carry non-decreasing
/// interaction indexes — step `k + 1` is never begun before step `k` is
/// out of the way.
pub proof fn lemma_replay_in_order(s: Session, evs: Seq<Event>)
    requires
        s.wf(),
    ensures
        forall|i: int, j: int|
            0 <= i < j < run_actions(s, evs).len() && action_step_index(
                #[trigger] run_actions(s, evs)[i],
            ) is Some && action_step_index(#[trigger] run_actions(s, evs)[j]) is Some
                ==> action_step_index(run_actions(s, evs)[i]).unwrap() <= action_step_index(
                run_actions(s, evs)[j],
            ).unwrap(),
    decreases evs.len(),
{
    if evs.len() > 0 {
        let s2 = spec_step(s, evs[0]).0;
        let rest = evs.subrange(1, evs.len() as int);
        crate::session::lemma_step_wf(s, evs[0]);
        lemma_step_monotone(s, evs[0]);
        lemma_run_lower_bound(s2, rest);
        lemma_replay_in_order(s2, rest);
        assert forall|i: int, j: int|
            0 <= i < j < run_actions(s, evs).len() && action_step_index(
                #[trigger] run_actions(s, evs)[i],
            ) is Some && action_step_index(#[trigger] run_actions(s, evs)[j]) is Some implies
            action_step_index(run_actions(s, evs)[i]).unwrap() <= action_step_index(
            run_actions(s, evs)[j],
        ).unwrap() by {
            assert(run_actions(s, evs)[j] == run_actions(s2, rest)[j - 1]);
            if i > 0 {
                assert(run_actions(s, evs)[i] == run_actions(s2, rest)[i - 1]);
            }
        }
    }
}

/// Fail-fast atomicity: if the event ending the machine's current step is
/// a failure, the whole request fails right there — the session is `Done`
/// with that step's error, no later step is ever acted on, and no image is
/// ever returned.
pub proof fn lemma_failure_is_final(s: Session, e: Event, rest: Seq<Event>)
    requires
        s.wf(),
        matching_failure(s, e),
    ensures
        spec_step(s, e).0.phase is Done,
        spec_step(s, e).0.outcome matches Some(r) && r is Err,
        run_state(spec_step(s, e).0, rest) == spec_step(s, e).0,
        forall|i: int|
            0 <= i < run_actions(spec_step(s, e).0, rest).len() ==> #[trigger] run_actions(
                spec_step(s, e).0,
                rest,
            )[i] == Action::Finish,
{
    lemma_done_absorbing(spec_step(s, e).0, rest);
}

/// The failure events that end the phase they are reported in.
pub open spec fn matching_failure(s: Session, e: Event) -> bool {
    match (s.phase, e) {
        (Phase::CreatingTab, Event::TabFailed(_)) => true,
        (Phase::SettingCookie { .. }, Event::CookieFailed(_)) => true,
        (Phase::Navigating, Event::NavigationFailed(_)) => true,
        (Phase::AwaitingStepSelector { .. }, Event::SelectorTimedOut(_)) => true,
        (Phase::DispatchingStep { .. }, Event::DispatchFailed(_)) => true,
        (Phase::AwaitingTarget, Event::SelectorTimedOut(_)) => true,
        (Phase::Measuring, Event::MeasureFailed(_)) => true,
        (Phase::Capturing, Event::CaptureFailed(_)) => true,
        _ => false,
    }
}

/// A `Wait` step with empty selector and zero duration is a no-op: entering
/// the replay at it is the same as entering right past it — no action, no
/// error, no delay come out of it.
pub proof fn lemma_noop_wait_skipped(steps: Seq<Interaction>, k: int)
    requires
        0 <= k < steps.len(),
        steps[k].kind == InteractionKind::Wait,
        steps[k].selector@.len() == 0,
        steps[k].wait_ms == 0,
    ensures
        spec_advance(steps, k) == spec_advance(steps, k + 1),
{
}

/// A `Wait` step with a non-empty selector blocks on selector resolution
/// and ignores `wait_ms` entirely: whatever `wait_ms` is changed to, the
/// machine makes the same move — a bounded selector wait, never a sleep.
pub proof fn lemma_wait_with_selector_ignores_wait_ms(
    steps: Seq<Interaction>,
    other: Seq<Interaction>,
    k: int,
    ms: u64,
)
    requires
        0 <= k < steps.len() <= usize::MAX,
        steps[k].kind == InteractionKind::Wait,
        steps[k].selector@.len() > 0,
        other == steps.update(k, Interaction { wait_ms: ms, ..steps[k] }),
    ensures
        spec_advance(steps, k) == spec_advance(other, k),
        spec_advance(steps, k) == (
            (
                Phase::AwaitingStepSelector { index: k as usize },
                Action::AwaitStepSelector { index: k as usize },
                None::<CaptureError>,
            )
        ),
{
}

/// An `Unspecified` interaction kind always fails the request with an
/// interaction error, whatever its selector, value and `wait_ms` hold —
/// it is never treated as a no-op.
pub proof fn lemma_unspecified_always_rejected(steps: Seq<Interaction>, k: int)
    requires
        0 <= k < steps.len() <= usize::MAX,
        steps[k].kind == InteractionKind::Unspecified,
    ensures
        spec_advance(steps, k) == (
            (
                Phase::Done,
                Action::Finish,
                Some(CaptureError::Interaction(InteractionFailure::UnspecifiedKind)),
            )
        ),
{
}

/// A successful outcome can only arise out of the capture itself: the
/// machine must already stand past every interaction, at the capture
/// stage, for an image ever to be returned. Together with the fail-fast
/// law this rules out any partial or best-effort image.
pub proof fn lemma_success_needs_full_replay(s: Session, e: Event)
    requires
        s.wf(),
        !(s.phase is Done),
    ensures
        ({
            let s2 = spec_step(s, e).0;
            match s2.outcome {
                Some(Ok(_)) => s.phase is Capturing && next_step_index(s)
                    == s.req.interactions@.len(),
                _ => true,
            }
        }),
{
    crate::session::lemma_step_wf(s, e);
}

/// A successful outcome always carries the concrete format the request
/// resolved to: the requested format itself, or the default (PNG) where
/// the request left it unspecified — never an unspecified format, which
/// the output type cannot even hold.
pub proof fn lemma_success_format(s: Session, e: Event)
    requires
        s.wf(),
        !(s.phase is Done),
    ensures
        ({
            let s2 = spec_step(s, e).0;
            match s2.outcome {
                Some(Ok(out)) => out.image_format == spec_resolve_format(s.req.image_format),
                _ => true,
            }
        }),
{
    crate::session::lemma_step_wf(s, e);
}

} // verus!
