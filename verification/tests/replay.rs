use web_capture::error::{CaptureError, InteractionFailure};
use web_capture::geometry::BoxModel;
use web_capture::request::{
    CaptureRequest, Cookie, ImageFormat, Interaction, InteractionKind, ResolvedFormat,
};
use web_capture::session::{Action, CaptureOutput, Event, Phase, Session};

fn interaction(kind: InteractionKind, selector: &str, value: &str, wait_ms: u64) -> Interaction {
    Interaction {
        kind,
        selector: selector.to_string(),
        value: value.to_string(),
        wait_ms,
    }
}

fn request(interactions: Vec<Interaction>, cookies: Vec<Cookie>) -> CaptureRequest {
    CaptureRequest {
        url: "https://example.com".to_string(),
        element_selector: "#hero".to_string(),
        image_format: ImageFormat::Png,
        interactions,
        cookies,
    }
}

fn cookie(name: &str) -> Cookie {
    Cookie {
        name: name.to_string(),
        value: "v".to_string(),
        domain: "example.com".to_string(),
        path: None,
        secure: false,
        http_only: true,
        expires: Some(4102444800),
    }
}

fn sample_box() -> BoxModel {
    BoxModel {
        content_x: 100,
        content_y: 200,
        content_width: 300,
        content_height: 400,
        padding_left: 10,
        padding_right: 20,
        padding_top: 5,
        padding_bottom: 15,
        border_left: 1,
        border_right: 2,
        border_top: 3,
        border_bottom: 4,
        scroll_x: 50,
        scroll_y: 60,
    }
}

#[test]
fn scenario_click_fixed_wait_scroll_then_png_capture() {
    let req = request(
        vec![
            interaction(InteractionKind::Click, "#cookie-accept", "", 0),
            interaction(InteractionKind::Wait, "", "", 500),
            interaction(InteractionKind::Scroll, "#hero", "", 0),
        ],
        vec![],
    );
    let mut s = Session::new(req);
    assert_eq!(s.step(Event::TabCreated), Action::Navigate);
    assert_eq!(s.step(Event::Navigated), Action::AwaitStepSelector { index: 0 });
    assert_eq!(s.step(Event::SelectorResolved), Action::Click { index: 0 });
    assert_eq!(s.step(Event::Dispatched), Action::Sleep { index: 1, millis: 500 });
    assert_eq!(s.step(Event::SleepFinished), Action::AwaitStepSelector { index: 2 });
    assert_eq!(s.step(Event::SelectorResolved), Action::Scroll { index: 2 });
    assert_eq!(s.step(Event::Dispatched), Action::AwaitTarget);
    assert_eq!(s.step(Event::SelectorResolved), Action::Measure);
    let capture = s.step(Event::Measured(sample_box()));
    match capture {
        Action::Capture { format, clip } => {
            assert_eq!(format, ResolvedFormat::Png);
            assert_eq!(clip.x, 39);
            assert_eq!(clip.y, 132);
            assert_eq!(clip.width, 333);
            assert_eq!(clip.height, 427);
        }
        other => panic!("expected a capture action, got {:?}", other),
    }
    assert_eq!(s.step(Event::Captured(vec![7, 8, 9])), Action::Finish);
    let out: CaptureOutput = s.take_outcome().expect("capture should succeed");
    assert_eq!(out.image_format, ResolvedFormat::Png);
    assert_eq!(out.image_data, vec![7, 8, 9]);
}

#[test]
fn scenario_type_then_selector_wait_is_time_independent() {
    let req = request(
        vec![
            interaction(InteractionKind::Type, "#search", "hello", 0),
            interaction(InteractionKind::Wait, "#results", "", 0),
        ],
        vec![],
    );
    let mut s = Session::new(req);
    assert_eq!(s.step(Event::TabCreated), Action::Navigate);
    assert_eq!(s.step(Event::Navigated), Action::AwaitStepSelector { index: 0 });
    assert_eq!(s.step(Event::SelectorResolved), Action::TypeText { index: 0 });
    assert_eq!(s.step(Event::Dispatched), Action::AwaitStepSelector { index: 1 });
    assert_eq!(s.step(Event::SelectorResolved), Action::AwaitTarget);
    assert_eq!(&s.req.interactions[0].value, "hello");
}

#[test]
fn steps_are_applied_in_exactly_the_given_order() {
    let req = request(
        vec![
            interaction(InteractionKind::Click, "#a", "", 0),
            interaction(InteractionKind::Hover, "#b", "", 0),
            interaction(InteractionKind::Type, "#c", "x", 0),
        ],
        vec![],
    );
    let mut s = Session::new(req);
    let mut actions = Vec::new();
    actions.push(s.step(Event::TabCreated));
    actions.push(s.step(Event::Navigated));
    actions.push(s.step(Event::SelectorResolved));
    actions.push(s.step(Event::Dispatched));
    actions.push(s.step(Event::SelectorResolved));
    actions.push(s.step(Event::Dispatched));
    actions.push(s.step(Event::SelectorResolved));
    actions.push(s.step(Event::Dispatched));
    let expected = vec![
        Action::Navigate,
        Action::AwaitStepSelector { index: 0 },
        Action::Click { index: 0 },
        Action::AwaitStepSelector { index: 1 },
        Action::Hover { index: 1 },
        Action::AwaitStepSelector { index: 2 },
        Action::TypeText { index: 2 },
        Action::AwaitTarget,
    ];
    assert_eq!(actions, expected);
}

#[test]
fn noop_wait_is_skipped_without_error_or_delay() {
    let req = request(
        vec![
            interaction(InteractionKind::Click, "#a", "", 0),
            interaction(InteractionKind::Wait, "", "", 0),
            interaction(InteractionKind::Click, "#b", "", 0),
        ],
        vec![],
    );
    let mut s = Session::new(req);
    s.step(Event::TabCreated);
    s.step(Event::Navigated);
    s.step(Event::SelectorResolved);
    // Completing step 0 jumps straight to step 2: the no-op wait emits no
    // action, no sleep and no error.
    assert_eq!(s.step(Event::Dispatched), Action::AwaitStepSelector { index: 2 });
}

#[test]
fn request_of_only_noop_waits_goes_straight_to_target() {
    let req = request(
        vec![
            interaction(InteractionKind::Wait, "", "", 0),
            interaction(InteractionKind::Wait, "", "", 0),
        ],
        vec![],
    );
    let mut s = Session::new(req);
    s.step(Event::TabCreated);
    assert_eq!(s.step(Event::Navigated), Action::AwaitTarget);
}

#[test]
fn wait_with_selector_ignores_wait_ms() {
    let req = request(
        vec![interaction(InteractionKind::Wait, "#late", "", 99999)],
        vec![],
    );
    let mut s = Session::new(req);
    s.step(Event::TabCreated);
    // A selector wait, not a sleep, despite the large wait_ms.
    assert_eq!(s.step(Event::Navigated), Action::AwaitStepSelector { index: 0 });
    assert_eq!(s.step(Event::SelectorResolved), Action::AwaitTarget);
}

#[test]
fn wait_with_empty_selector_and_positive_ms_sleeps() {
    let req = request(
        vec![interaction(InteractionKind::Wait, "", "", 250)],
        vec![],
    );
    let mut s = Session::new(req);
    s.step(Event::TabCreated);
    assert_eq!(s.step(Event::Navigated), Action::Sleep { index: 0, millis: 250 });
    assert_eq!(s.step(Event::SleepFinished), Action::AwaitTarget);
}

#[test]
fn unspecified_kind_always_fails_whatever_its_fields_hold() {
    let req = request(
        vec![interaction(InteractionKind::Unspecified, "#x", "value", 1234)],
        vec![],
    );
    let mut s = Session::new(req);
    s.step(Event::TabCreated);
    assert_eq!(s.step(Event::Navigated), Action::Finish);
    let err = s.take_outcome().expect_err("unspecified kind must fail");
    assert!(matches!(
        err,
        CaptureError::Interaction(InteractionFailure::UnspecifiedKind)
    ));
}

#[test]
fn step_failure_stops_the_replay_and_returns_no_image() {
    let req = request(
        vec![
            interaction(InteractionKind::Click, "#a", "", 0),
            interaction(InteractionKind::Click, "#b", "", 0),
        ],
        vec![],
    );
    let mut s = Session::new(req);
    s.step(Event::TabCreated);
    s.step(Event::Navigated);
    s.step(Event::SelectorResolved);
    assert_eq!(
        s.step(Event::DispatchFailed("not interactable".to_string())),
        Action::Finish
    );
    assert_eq!(s.phase, Phase::Done);
    // Nothing the driver reports afterwards restarts the replay.
    assert_eq!(s.step(Event::Dispatched), Action::Finish);
    assert_eq!(s.step(Event::SelectorResolved), Action::Finish);
    let err = s.take_outcome().expect_err("a failed step must fail the request");
    match err {
        CaptureError::Interaction(InteractionFailure::Dispatch(m)) => {
            assert_eq!(m, "not interactable");
        }
        other => panic!("wrong error: {:?}", other),
    }
}

#[test]
fn selector_timeout_yields_element_not_found() {
    let req = request(
        vec![interaction(InteractionKind::Click, "#gone", "", 0)],
        vec![],
    );
    let mut s = Session::new(req);
    s.step(Event::TabCreated);
    s.step(Event::Navigated);
    assert_eq!(
        s.step(Event::SelectorTimedOut("timed out".to_string())),
        Action::Finish
    );
    let err = s.take_outcome().expect_err("timeout must fail");
    assert!(matches!(err, CaptureError::ElementNotFound(_)));
}

#[test]
fn cookies_are_all_applied_before_navigation() {
    let req = request(vec![], vec![cookie("a"), cookie("b"), cookie("c")]);
    let mut s = Session::new(req);
    assert_eq!(s.step(Event::TabCreated), Action::SetCookie { index: 0 });
    assert_eq!(s.step(Event::CookieSet), Action::SetCookie { index: 1 });
    assert_eq!(s.step(Event::CookieSet), Action::SetCookie { index: 2 });
    assert_eq!(s.step(Event::CookieSet), Action::Navigate);
}

#[test]
fn cookie_failure_fails_the_whole_request_before_navigation() {
    let req = request(vec![], vec![cookie("a"), cookie("b")]);
    let mut s = Session::new(req);
    s.step(Event::TabCreated);
    assert_eq!(
        s.step(Event::CookieFailed("rejected".to_string())),
        Action::Finish
    );
    let err = s.take_outcome().expect_err("cookie failure must fail");
    assert!(matches!(err, CaptureError::Cookie(_)));
}

#[test]
fn tab_creation_failure_is_browser_unavailable() {
    let mut s = Session::new(request(vec![], vec![]));
    assert_eq!(s.step(Event::TabFailed("crashed".to_string())), Action::Finish);
    let err = s.take_outcome().expect_err("tab failure must fail");
    assert!(matches!(err, CaptureError::BrowserUnavailable(_)));
}

#[test]
fn navigation_failure_aborts_before_any_interaction() {
    let req = request(
        vec![interaction(InteractionKind::Click, "#a", "", 0)],
        vec![],
    );
    let mut s = Session::new(req);
    s.step(Event::TabCreated);
    assert_eq!(
        s.step(Event::NavigationFailed("dns".to_string())),
        Action::Finish
    );
    let err = s.take_outcome().expect_err("navigation failure must fail");
    assert!(matches!(err, CaptureError::Navigation(_)));
}

#[test]
fn capture_failure_is_a_screenshot_error() {
    let mut s = Session::new(request(vec![], vec![]));
    s.step(Event::TabCreated);
    s.step(Event::Navigated);
    s.step(Event::SelectorResolved);
    s.step(Event::Measured(sample_box()));
    assert_eq!(
        s.step(Event::CaptureFailed("gone".to_string())),
        Action::Finish
    );
    let err = s.take_outcome().expect_err("capture failure must fail");
    assert!(matches!(err, CaptureError::Screenshot(_)));
}

#[test]
fn measure_failure_is_element_not_found() {
    let mut s = Session::new(request(vec![], vec![]));
    s.step(Event::TabCreated);
    s.step(Event::Navigated);
    s.step(Event::SelectorResolved);
    assert_eq!(
        s.step(Event::MeasureFailed("detached".to_string())),
        Action::Finish
    );
    let err = s.take_outcome().expect_err("measure failure must fail");
    assert!(matches!(err, CaptureError::ElementNotFound(_)));
}

#[test]
fn unspecified_image_format_resolves_to_png_in_the_outcome() {
    let mut req = request(vec![], vec![]);
    req.image_format = ImageFormat::Unspecified;
    let mut s = Session::new(req);
    s.step(Event::TabCreated);
    s.step(Event::Navigated);
    s.step(Event::SelectorResolved);
    match s.step(Event::Measured(sample_box())) {
        Action::Capture { format, .. } => assert_eq!(format, ResolvedFormat::Png),
        other => panic!("expected a capture action, got {:?}", other),
    }
    s.step(Event::Captured(vec![1]));
    let out = s.take_outcome().expect("capture should succeed");
    assert_eq!(out.image_format, ResolvedFormat::Png);
}

#[test]
fn mismatched_event_changes_nothing() {
    let req = request(
        vec![interaction(InteractionKind::Click, "#a", "", 0)],
        vec![],
    );
    let mut s = Session::new(req);
    s.step(Event::TabCreated);
    // A cookie event does not belong to the navigating phase: the session
    // stays put and asks for nothing.
    assert_eq!(s.step(Event::CookieSet), Action::Idle);
    assert_eq!(s.phase, Phase::Navigating);
    assert_eq!(s.step(Event::Navigated), Action::AwaitStepSelector { index: 0 });
}

#[test]
fn two_sessions_do_not_observe_each_other() {
    let mut a = Session::new(request(
        vec![interaction(InteractionKind::Click, "#a", "", 0)],
        vec![cookie("a")],
    ));
    let mut b = Session::new(request(vec![], vec![]));
    a.step(Event::TabCreated);
    a.step(Event::CookieSet);
    a.step(Event::NavigationFailed("dns".to_string()));
    // Failing session `a` leaves `b` exactly where its own events put it.
    assert_eq!(b.phase, Phase::CreatingTab);
    assert_eq!(b.step(Event::TabCreated), Action::Navigate);
    assert_eq!(b.step(Event::Navigated), Action::AwaitTarget);
    assert!(matches!(
        a.take_outcome().expect_err("a failed"),
        CaptureError::Navigation(_)
    ));
}
