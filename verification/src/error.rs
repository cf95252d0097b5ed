//! The per-request error taxonomy.

use vstd::prelude::*;

verus! {

/// Why replaying one interaction failed.
#[derive(Clone, Debug)]
pub enum InteractionFailure {
    /// The browser rejected the dispatched action (element not
    /// interactable, insertion refused, ...); carries the driver's message.
    Dispatch(String),
    /// The step's kind was `Unspecified`: such a step is always rejected,
    /// never treated as a no-op.
    UnspecifiedKind,
}

/// A per-request failure. Every variant terminates its own request only;
/// no partial or best-effort image is ever returned alongside one.
#[derive(Clone, Debug)]
pub enum CaptureError {
    /// Creating a tab failed: the shared browser process is unresponsive.
    BrowserUnavailable(String),
    /// Applying one cookie failed before navigation.
    Cookie(String),
    /// Navigation did not commit (DNS failure, network error, timeout).
    Navigation(String),
    /// A bounded wait for a selector never resolved.
    ElementNotFound(String),
    /// An interaction step failed.
    Interaction(InteractionFailure),
    /// The capture command itself failed.
    Screenshot(String),
}

/// The human-readable rendering of an interaction failure.
pub open spec fn interaction_failure_message_view(f: InteractionFailure) -> Seq<char> {
    match f {
        InteractionFailure::Dispatch(m) => "interaction failed: "@ + m@,
        InteractionFailure::UnspecifiedKind => "interaction failed: unspecified interaction kind"@,
    }
}

/// The human-readable rendering of a capture error.
pub open spec fn error_message_view(e: CaptureError) -> Seq<char> {
    match e {
        CaptureError::BrowserUnavailable(m) => "browser unavailable: "@ + m@,
        CaptureError::Cookie(m) => "cookie injection failed: "@ + m@,
        CaptureError::Navigation(m) => "navigation failed: "@ + m@,
        CaptureError::ElementNotFound(m) => "element not found: "@ + m@,
        CaptureError::Interaction(f) => interaction_failure_message_view(f),
        CaptureError::Screenshot(m) => "screenshot capture failed: "@ + m@,
    }
}

impl CaptureError {
    /// Render this error as the single human-readable message the service
    /// boundary reports; every error kind collapses to one generic failure
    /// status carrying this text.
    pub fn message(&self) -> (r: String)
        ensures
            r@ == error_message_view(*self),
    {
        match self {
            CaptureError::BrowserUnavailable(m) => String::from_str("browser unavailable: ").concat(m.as_str()),
            CaptureError::Cookie(m) => String::from_str("cookie injection failed: ").concat(m.as_str()),
            CaptureError::Navigation(m) => String::from_str("navigation failed: ").concat(m.as_str()),
            CaptureError::ElementNotFound(m) => String::from_str("element not found: ").concat(m.as_str()),
            CaptureError::Interaction(InteractionFailure::Dispatch(m)) => String::from_str("interaction failed: ").concat(m.as_str()),
            CaptureError::Interaction(InteractionFailure::UnspecifiedKind) => String::from_str("interaction failed: unspecified interaction kind"),
            CaptureError::Screenshot(m) => String::from_str("screenshot capture failed: ").concat(m.as_str()),
        }
    }
}

} // verus!
