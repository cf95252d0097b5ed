//! Turning a finished capture into the response value, stamped with the
//! capture time.

use vstd::prelude::*;

use crate::request::ResolvedFormat;
use crate::session::CaptureOutput;

verus! {

/// The response of a successful request: a concrete image format (never
/// unspecified — the type has no such variant), the capture time in epoch
/// seconds, and the encoded image bytes.
#[derive(Clone, Debug)]
pub struct CaptureResult {
    pub image_format: ResolvedFormat,
    pub timestamp: i64,
    pub image_data: Vec<u8>,
}

/// Relies on chrono's `Utc::now` and `DateTime::timestamp`: the current
/// wall-clock time as whole seconds since the Unix epoch. A clock reading
/// depends on when it is taken, so nothing is promised of the value.
#[verifier::external_body]
fn now_epoch_seconds() -> i64 {
    chrono::Utc::now().timestamp()
}

/// Stamp a finished capture with the time it was produced. The resolved
/// format and the image bytes pass through unchanged; the timestamp is
/// whatever the clock reported.
pub fn stamp_output(out: CaptureOutput) -> (r: CaptureResult)
    ensures
        r.image_format == out.image_format,
        r.image_data == out.image_data,
{
    let timestamp = now_epoch_seconds();
    CaptureResult { image_format: out.image_format, timestamp, image_data: out.image_data }
}

} // verus!
