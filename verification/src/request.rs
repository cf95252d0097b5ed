//! Request data: interactions, cookies, image formats and the capture request.

use vstd::prelude::*;

verus! {

/// The kind of one scripted user interaction.
///
/// `Unspecified` is an explicit rejection marker: replaying it always fails,
/// it is never treated as a no-op.
#[derive(Clone, Copy, PartialEq, Eq, Structural, Debug)]
pub enum InteractionKind {
    Unspecified,
    Click,
    Type,
    Wait,
    Scroll,
    Hover,
}

/// One scripted user interaction. The position of an interaction inside the
/// containing sequence is semantically meaningful and is preserved exactly.
#[derive(Clone, Debug)]
pub struct Interaction {
    pub kind: InteractionKind,
    pub selector: String,
    pub value: String,
    pub wait_ms: u64,
}

/// One cookie to inject into the tab before navigation.
#[derive(Clone, Debug)]
pub struct Cookie {
    pub name: String,
    pub value: String,
    pub domain: String,
    pub path: Option<String>,
    pub secure: bool,
    pub http_only: bool,
    pub expires: Option<i64>,
}

/// The image format as requested by the caller; may be `Unspecified`.
#[derive(Clone, Copy, PartialEq, Eq, Structural, Debug)]
pub enum ImageFormat {
    Unspecified,
    Png,
    Jpeg,
    Webp,
}

/// A concrete image encoding. There is no `Unspecified` variant: a response
/// always carries a resolved format.
#[derive(Clone, Copy, PartialEq, Eq, Structural, Debug)]
pub enum ResolvedFormat {
    Png,
    Jpeg,
    Webp,
}

/// What `resolve_format` returns: the requested format itself where it is
/// concrete, and the default encoding (PNG) where it is `Unspecified`.
pub open spec fn spec_resolve_format(f: ImageFormat) -> ResolvedFormat {
    match f {
        ImageFormat::Unspecified => ResolvedFormat::Png,
        ImageFormat::Png => ResolvedFormat::Png,
        ImageFormat::Jpeg => ResolvedFormat::Jpeg,
        ImageFormat::Webp => ResolvedFormat::Webp,
    }
}

/// Resolve a requested format to the concrete encoding the capture will use.
pub fn resolve_format(f: ImageFormat) -> (r: ResolvedFormat)
    ensures
        r == spec_resolve_format(f),
{
    match f {
        ImageFormat::Unspecified => ResolvedFormat::Png,
        ImageFormat::Png => ResolvedFormat::Png,
        ImageFormat::Jpeg => ResolvedFormat::Jpeg,
        ImageFormat::Webp => ResolvedFormat::Webp,
    }
}

/// A full capture request: drive `url`, replay `interactions` in order with
/// `cookies` injected first, then capture the element at `element_selector`
/// encoded as `image_format`.
#[derive(Clone, Debug)]
pub struct CaptureRequest {
    pub url: String,
    pub element_selector: String,
    pub image_format: ImageFormat,
    pub interactions: Vec<Interaction>,
    pub cookies: Vec<Cookie>,
}

} // verus!
