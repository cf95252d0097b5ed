//! The per-request orchestration state machine.
//!
//! A [`Session`] owns one capture request end-to-end. It never touches the
//! browser itself: a driver performs each [`Action`] the session hands out
//! (create the tab, set a cookie, navigate, wait for a selector, dispatch a
//! click, sleep, measure, capture) and reports the outcome back as an
//! [`Event`]. [`Session::step`] is the whole decision logic: from the current
//! state and one event it computes the next state and the next action,
//! exactly as [`spec_step`] says.
//!
//! The protocol: a fresh session expects the driver to create a tab and
//! report `TabCreated` or `TabFailed`. From then on the driver performs the
//! returned action and reports its outcome, until the returned action is
//! `Finish`; then [`Session::take_outcome`] yields the result. Interactions
//! are replayed strictly in order and fail-fast; cookies are all applied
//! before navigation.

use vstd::prelude::*;

use crate::error::{CaptureError, InteractionFailure};
use crate::geometry::{spec_border_box_viewport, border_box_viewport, BoxModel, Rect};
use crate::request::{
    resolve_format, spec_resolve_format, CaptureRequest, Interaction, InteractionKind,
    ResolvedFormat,
};

verus! {

/// Where a session stands. Index fields count into the request's cookie or
/// interaction sequence.
#[derive(Clone, Copy, PartialEq, Eq, Structural, Debug)]
pub enum Phase {
    /// Waiting for the driver to create the request's private tab.
    CreatingTab,
    /// Cookie `index` is being applied; all cookies precede navigation.
    SettingCookie { index: usize },
    /// The tab is navigating to the request URL.
    Navigating,
    /// Interaction `index` is waiting for its selector to resolve.
    AwaitingStepSelector { index: usize },
    /// Interaction `index` resolved its selector; its action is dispatching.
    DispatchingStep { index: usize },
    /// Interaction `index` is a fixed-duration wait in progress.
    SleepingStep { index: usize },
    /// All interactions done; waiting for the target element selector.
    AwaitingTarget,
    /// The target element resolved; its box model is being measured.
    Measuring,
    /// The clipped screenshot is being taken.
    Capturing,
    /// The request ended; the outcome is available.
    Done,
}

/// What the driver must do next. Index fields name the cookie or
/// interaction of the request the action belongs to.
#[derive(Clone, Copy, PartialEq, Eq, Structural, Debug)]
pub enum Action {
    /// Apply cookie `index` to the tab.
    SetCookie { index: usize },
    /// Navigate the tab to the request URL and await commit.
    Navigate,
    /// Bounded wait for interaction `index`'s selector to resolve.
    AwaitStepSelector { index: usize },
    /// Click the element resolved for interaction `index`.
    Click { index: usize },
    /// Type interaction `index`'s value into the resolved element.
    TypeText { index: usize },
    /// Scroll the element resolved for interaction `index` into view.
    Scroll { index: usize },
    /// Move the pointer over the element resolved for interaction `index`.
    Hover { index: usize },
    /// Suspend this request for `millis` milliseconds, without blocking
    /// other requests.
    Sleep { index: usize, millis: u64 },
    /// Bounded wait for the request's target element selector.
    AwaitTarget,
    /// Measure the resolved target element's box model and scroll offset.
    Measure,
    /// Capture the rendered surface clipped to `clip`, encoded as `format`.
    Capture { format: ResolvedFormat, clip: Rect },
    /// The request is over: dispose of the tab and take the outcome.
    Finish,
    /// The reported event does not belong to the current phase; nothing
    /// changed and nothing is to be done.
    Idle,
}

/// What the driver reports back: the outcome of the last action. Failure
/// payloads carry the driver's human-readable message.
#[derive(Clone, Debug)]
pub enum Event {
    TabCreated,
    TabFailed(String),
    CookieSet,
    CookieFailed(String),
    Navigated,
    NavigationFailed(String),
    SelectorResolved,
    SelectorTimedOut(String),
    Dispatched,
    DispatchFailed(String),
    SleepFinished,
    Measured(BoxModel),
    MeasureFailed(String),
    Captured(Vec<u8>),
    CaptureFailed(String),
}

/// A successful capture before timestamping: the resolved format and the
/// encoded image bytes.
#[derive(Clone, Debug)]
pub struct CaptureOutput {
    pub image_format: ResolvedFormat,
    pub image_data: Vec<u8>,
}

/// One in-flight capture request and everything decided about it so far.
pub struct Session {
    /// The request this session serves; never modified.
    pub req: CaptureRequest,
    /// The concrete encoding the capture will use, resolved at creation.
    pub format: ResolvedFormat,
    /// Where the session stands.
    pub phase: Phase,
    /// The final outcome; present exactly when `phase` is `Done`.
    pub outcome: Option<Result<CaptureOutput, CaptureError>>,
}

/// A `Wait` step with an empty selector and `wait_ms == 0` is a documented
/// no-op: it is skipped outright, producing no action, no error and no delay.
pub open spec fn spec_noop_step(s: Interaction) -> bool {
    s.kind == InteractionKind::Wait && s.selector@.len() == 0 && s.wait_ms == 0
}

/// Entering the replay at step `k`: skips no-op waits, then yields the phase
/// to sit in, the action to hand the driver, and—only when the step's kind
/// is `Unspecified`—the error that ends the request. Past the last step the
/// session turns to locating the target element.
pub open spec fn spec_advance(steps: Seq<Interaction>, k: int) -> (Phase, Action, Option<
    CaptureError,
>)
    decreases steps.len() - k,
{
    if k < 0 || k >= steps.len() {
        (Phase::AwaitingTarget, Action::AwaitTarget, None)
    } else {
        let s = steps[k];
        match s.kind {
            InteractionKind::Unspecified => (
                Phase::Done,
                Action::Finish,
                Some(CaptureError::Interaction(InteractionFailure::UnspecifiedKind)),
            ),
            InteractionKind::Wait => if s.selector@.len() > 0 {
                (
                    Phase::AwaitingStepSelector { index: k as usize },
                    Action::AwaitStepSelector { index: k as usize },
                    None,
                )
            } else if s.wait_ms > 0 {
                (
                    Phase::SleepingStep { index: k as usize },
                    Action::Sleep { index: k as usize, millis: s.wait_ms },
                    None,
                )
            } else {
                spec_advance(steps, k + 1)
            },
            _ => (
                Phase::AwaitingStepSelector { index: k as usize },
                Action::AwaitStepSelector { index: k as usize },
                None,
            ),
        }
    }
}

/// The session value after `s` fails with `e`: phase `Done`, outcome `Err(e)`.
pub open spec fn spec_fail(s: Session, e: CaptureError) -> Session {
    Session { phase: Phase::Done, outcome: Some(Err(e)), ..s }
}

/// The session value and action after `s` enters the replay at step `k`.
pub open spec fn spec_advanced(s: Session, k: int) -> (Session, Action) {
    let (p, a, err) = spec_advance(s.req.interactions@, k);
    match err {
        Some(e) => (Session { phase: p, outcome: Some(Err(e)), ..s }, a),
        None => (Session { phase: p, ..s }, a),
    }
}

/// The transition relation of the whole machine: from a session and the
/// driver's event to the next session and the next action. An event that
/// does not belong to the current phase changes nothing and yields `Idle`;
/// a `Done` session stays `Done` and yields `Finish`.
pub open spec fn spec_step(s: Session, e: Event) -> (Session, Action) {
    match (s.phase, e) {
        (Phase::CreatingTab, Event::TabCreated) => if s.req.cookies.len() > 0 {
            (
                Session { phase: Phase::SettingCookie { index: 0 }, ..s },
                Action::SetCookie { index: 0 },
            )
        } else {
            (Session { phase: Phase::Navigating, ..s }, Action::Navigate)
        },
        (Phase::CreatingTab, Event::TabFailed(m)) => (
            spec_fail(s, CaptureError::BrowserUnavailable(m)),
            Action::Finish,
        ),
        (Phase::SettingCookie { index }, Event::CookieSet) => if index + 1
            < s.req.cookies.len() {
            (
                Session { phase: Phase::SettingCookie { index: (index + 1) as usize }, ..s },
                Action::SetCookie { index: (index + 1) as usize },
            )
        } else {
            (Session { phase: Phase::Navigating, ..s }, Action::Navigate)
        },
        (Phase::SettingCookie { index }, Event::CookieFailed(m)) => (
            spec_fail(s, CaptureError::Cookie(m)),
            Action::Finish,
        ),
        (Phase::Navigating, Event::Navigated) => spec_advanced(s, 0),
        (Phase::Navigating, Event::NavigationFailed(m)) => (
            spec_fail(s, CaptureError::Navigation(m)),
            Action::Finish,
        ),
        (Phase::AwaitingStepSelector { index }, Event::SelectorResolved) => match s.req.interactions@[index as int].kind {
            InteractionKind::Click => (
                Session { phase: Phase::DispatchingStep { index }, ..s },
                Action::Click { index },
            ),
            InteractionKind::Type => (
                Session { phase: Phase::DispatchingStep { index }, ..s },
                Action::TypeText { index },
            ),
            InteractionKind::Scroll => (
                Session { phase: Phase::DispatchingStep { index }, ..s },
                Action::Scroll { index },
            ),
            InteractionKind::Hover => (
                Session { phase: Phase::DispatchingStep { index }, ..s },
                Action::Hover { index },
            ),
            _ => spec_advanced(s, index + 1),
        },
        (Phase::AwaitingStepSelector { index }, Event::SelectorTimedOut(m)) => (
            spec_fail(s, CaptureError::ElementNotFound(m)),
            Action::Finish,
        ),
        (Phase::DispatchingStep { index }, Event::Dispatched) => spec_advanced(s, index + 1),
        (Phase::DispatchingStep { index }, Event::DispatchFailed(m)) => (
            spec_fail(s, CaptureError::Interaction(InteractionFailure::Dispatch(m))),
            Action::Finish,
        ),
        (Phase::SleepingStep { index }, Event::SleepFinished) => spec_advanced(s, index + 1),
        (Phase::AwaitingTarget, Event::SelectorResolved) => (
            Session { phase: Phase::Measuring, ..s },
            Action::Measure,
        ),
        (Phase::AwaitingTarget, Event::SelectorTimedOut(m)) => (
            spec_fail(s, CaptureError::ElementNotFound(m)),
            Action::Finish,
        ),
        (Phase::Measuring, Event::Measured(b)) => (
            Session { phase: Phase::Capturing, ..s },
            Action::Capture { format: s.format, clip: spec_border_box_viewport(b) },
        ),
        (Phase::Measuring, Event::MeasureFailed(m)) => (
            spec_fail(s, CaptureError::ElementNotFound(m)),
            Action::Finish,
        ),
        (Phase::Capturing, Event::Captured(bytes)) => (
            Session {
                phase: Phase::Done,
                outcome: Some(
                    Ok(CaptureOutput { image_format: s.format, image_data: bytes }),
                ),
                ..s
            },
            Action::Finish,
        ),
        (Phase::Capturing, Event::CaptureFailed(m)) => (
            spec_fail(s, CaptureError::Screenshot(m)),
            Action::Finish,
        ),
        (Phase::Done, _) => (s, Action::Finish),
        _ => (s, Action::Idle),
    }
}

impl Session {
    /// Well-formedness: index phases stay inside the request's sequences,
    /// the outcome is present exactly in `Done`, and the stored format is
    /// the resolved request format. Established by `new`, preserved by
    /// `step`.
    pub open spec fn wf(self) -> bool {
        &&& match self.phase {
            Phase::SettingCookie { index } => index < self.req.cookies.len(),
            Phase::AwaitingStepSelector { index } => index < self.req.interactions.len(),
            Phase::DispatchingStep { index } => index < self.req.interactions.len(),
            Phase::SleepingStep { index } => index < self.req.interactions.len(),
            _ => true,
        }
        &&& self.outcome is Some <==> self.phase is Done
        &&& self.format == spec_resolve_format(self.req.image_format)
    }

    /// Open a session for `req`. The driver's first duty is to create the
    /// request's private tab and report `TabCreated` or `TabFailed`.
    pub fn new(req: CaptureRequest) -> (s: Session)
        ensures
            s.req == req,
            s.phase == Phase::CreatingTab,
            s.outcome is None,
            s.format == spec_resolve_format(req.image_format),
            s.wf(),
    {
        let format = resolve_format(req.image_format);
        Session { req, format, phase: Phase::CreatingTab, outcome: None }
    }

    /// Enter the replay at step `from`, skipping no-op waits, and leave the
    /// session exactly where `spec_advance` says.
    fn advance_from(&mut self, from: usize) -> (a: Action)
        requires
            from <= old(self).req.interactions.len(),
            old(self).outcome is None,
        ensures
            (*final(self), a) == spec_advanced(*old(self), from as int),
    {
        let n = self.req.interactions.len();
        let mut k = from;
        while k < n && is_noop_step(&self.req.interactions[k])
            invariant
                from <= k <= n,
                n == self.req.interactions.len(),
                *self == *old(self),
                spec_advance(self.req.interactions@, from as int) == spec_advance(
                    self.req.interactions@,
                    k as int,
                ),
            decreases n - k,
        {
            k = k + 1;
        }
        if k == n {
            self.phase = Phase::AwaitingTarget;
            return Action::AwaitTarget;
        }
        match self.req.interactions[k].kind {
            InteractionKind::Unspecified => {
                self.phase = Phase::Done;
                self.outcome = Some(
                    Err(CaptureError::Interaction(InteractionFailure::UnspecifiedKind)),
                );
                Action::Finish
            },
            InteractionKind::Wait => {
                if !self.req.interactions[k].selector.as_str().is_empty() {
                    self.phase = Phase::AwaitingStepSelector { index: k };
                    Action::AwaitStepSelector { index: k }
                } else {
                    let millis = self.req.interactions[k].wait_ms;
                    self.phase = Phase::SleepingStep { index: k };
                    Action::Sleep { index: k, millis }
                }
            },
            _ => {
                self.phase = Phase::AwaitingStepSelector { index: k };
                Action::AwaitStepSelector { index: k }
            },
        }
    }

    /// Take one step of the machine: absorb the driver's event, move to the
    /// next state and hand back the next action — exactly `spec_step`.
    pub fn step(&mut self, e: Event) -> (a: Action)
        requires
            old(self).wf(),
        ensures
            (*final(self), a) == spec_step(*old(self), e),
            final(self).wf(),
    {
        proof {
            lemma_step_wf(*old(self), e);
        }
        match (self.phase, e) {
            (Phase::CreatingTab, Event::TabCreated) => {
                if self.req.cookies.len() > 0 {
                    self.phase = Phase::SettingCookie { index: 0 };
                    Action::SetCookie { index: 0 }
                } else {
                    self.phase = Phase::Navigating;
                    Action::Navigate
                }
            },
            (Phase::CreatingTab, Event::TabFailed(m)) => {
                self.fail(CaptureError::BrowserUnavailable(m))
            },
            (Phase::SettingCookie { index }, Event::CookieSet) => {
                if index + 1 < self.req.cookies.len() {
                    self.phase = Phase::SettingCookie { index: index + 1 };
                    Action::SetCookie { index: index + 1 }
                } else {
                    self.phase = Phase::Navigating;
                    Action::Navigate
                }
            },
            (Phase::SettingCookie { .. }, Event::CookieFailed(m)) => {
                self.fail(CaptureError::Cookie(m))
            },
            (Phase::Navigating, Event::Navigated) => self.advance_from(0),
            (Phase::Navigating, Event::NavigationFailed(m)) => {
                self.fail(CaptureError::Navigation(m))
            },
            (Phase::AwaitingStepSelector { index }, Event::SelectorResolved) => {
                match self.req.interactions[index].kind {
                    InteractionKind::Click => {
                        self.phase = Phase::DispatchingStep { index };
                        Action::Click { index }
                    },
                    InteractionKind::Type => {
                        self.phase = Phase::DispatchingStep { index };
                        Action::TypeText { index }
                    },
                    InteractionKind::Scroll => {
                        self.phase = Phase::DispatchingStep { index };
                        Action::Scroll { index }
                    },
                    InteractionKind::Hover => {
                        self.phase = Phase::DispatchingStep { index };
                        Action::Hover { index }
                    },
                    _ => self.advance_from(index + 1),
                }
            },
            (Phase::AwaitingStepSelector { .. }, Event::SelectorTimedOut(m)) => {
                self.fail(CaptureError::ElementNotFound(m))
            },
            (Phase::DispatchingStep { index }, Event::Dispatched) => self.advance_from(index + 1),
            (Phase::DispatchingStep { .. }, Event::DispatchFailed(m)) => {
                self.fail(CaptureError::Interaction(InteractionFailure::Dispatch(m)))
            },
            (Phase::SleepingStep { index }, Event::SleepFinished) => self.advance_from(index + 1),
            (Phase::AwaitingTarget, Event::SelectorResolved) => {
                self.phase = Phase::Measuring;
                Action::Measure
            },
            (Phase::AwaitingTarget, Event::SelectorTimedOut(m)) => {
                self.fail(CaptureError::ElementNotFound(m))
            },
            (Phase::Measuring, Event::Measured(b)) => {
                let clip = border_box_viewport(&b);
                self.phase = Phase::Capturing;
                Action::Capture { format: self.format, clip }
            },
            (Phase::Measuring, Event::MeasureFailed(m)) => {
                self.fail(CaptureError::ElementNotFound(m))
            },
            (Phase::Capturing, Event::Captured(bytes)) => {
                self.phase = Phase::Done;
                self.outcome = Some(
                    Ok(CaptureOutput { image_format: self.format, image_data: bytes }),
                );
                Action::Finish
            },
            (Phase::Capturing, Event::CaptureFailed(m)) => {
                self.fail(CaptureError::Screenshot(m))
            },
            (Phase::Done, _) => Action::Finish,
            _ => Action::Idle,
        }
    }

    /// End the request with `e`; the session turns `Done` with `Err(e)`.
    fn fail(&mut self, e: CaptureError) -> (a: Action)
        ensures
            *final(self) == spec_fail(*old(self), e),
            a == Action::Finish,
    {
        self.phase = Phase::Done;
        self.outcome = Some(Err(e));
        Action::Finish
    }

    /// Surrender the finished session's outcome: the capture output, or the
    /// error that ended the request — never a partial image.
    pub fn take_outcome(self) -> (r: Result<CaptureOutput, CaptureError>)
        requires
            self.wf(),
            self.phase is Done,
        ensures
            self.outcome == Some(r),
    {
        match self.outcome {
            Some(r) => r,
            None => vstd::pervasive::unreached(),
        }
    }
}

/// Whether this interaction is the documented no-op: a `Wait` with empty
/// selector and zero duration.
pub fn is_noop_step(s: &Interaction) -> (r: bool)
    ensures
        r == spec_noop_step(*s),
{
    match s.kind {
        InteractionKind::Wait => s.selector.as_str().is_empty() && s.wait_ms == 0,
        _ => false,
    }
}

/// Entering the replay lands only on in-range steps (or past the end), at
/// or after the entry point, and errs exactly when it stops on an
/// `Unspecified` step, which it reports with the interaction error.
pub proof fn lemma_advance_shape(steps: Seq<Interaction>, k: int)
    requires
        0 <= k <= steps.len() <= usize::MAX,
    ensures
        ({
            let (p, a, err) = spec_advance(steps, k);
            &&& match p {
                Phase::AwaitingStepSelector { index } => k <= index < steps.len() && err is None
                    && a == (Action::AwaitStepSelector { index }),
                Phase::SleepingStep { index } => k <= index < steps.len() && err is None && a == (
                Action::Sleep { index, millis: steps[index as int].wait_ms }),
                Phase::AwaitingTarget => err is None && a == Action::AwaitTarget,
                Phase::Done => err == Some(
                    CaptureError::Interaction(InteractionFailure::UnspecifiedKind),
                ) && a == Action::Finish,
                _ => false,
            }
        }),
    decreases steps.len() - k,
{
    if k < steps.len() && spec_noop_step(steps[k]) {
        lemma_advance_shape(steps, k + 1);
    }
}

/// One step of the machine preserves well-formedness, never touches the
/// request or the resolved format, and never clears or overwrites an
/// outcome already reached.
pub proof fn lemma_step_wf(s: Session, e: Event)
    requires
        s.wf(),
    ensures
        spec_step(s, e).0.wf(),
        spec_step(s, e).0.req == s.req,
        spec_step(s, e).0.format == s.format,
        s.phase is Done ==> spec_step(s, e).0 == s,
{
    assert(s.req.interactions@.len() == s.req.interactions.len());
    match s.phase {
        Phase::Navigating => {
            lemma_advance_shape(s.req.interactions@, 0);
        },
        Phase::AwaitingStepSelector { index } => {
            lemma_advance_shape(s.req.interactions@, index + 1);
        },
        Phase::DispatchingStep { index } => {
            lemma_advance_shape(s.req.interactions@, index + 1);
        },
        Phase::SleepingStep { index } => {
            lemma_advance_shape(s.req.interactions@, index + 1);
        },
        _ => {},
    }
}

} // verus!
