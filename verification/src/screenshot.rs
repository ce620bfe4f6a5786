//! Screenshots of a webview: the captured image, a picked color, and the
//! classification of capture failures.

use vstd::prelude::*;

use crate::bridge::BridgeError;
use crate::webview::{WebviewCaptureResponse, WebviewPickColorResponse};
use crate::text::{ascii_lowered, char_codes, contains_lowered, contains_text, occurs_in};

verus! {

/// A captured webview image, PNG-encoded in base64.
#[derive(Clone, Debug)]
pub struct CapturedImage {
    pub png_base64: String,
    pub width: u32,
    pub height: u32,
}

/// A picked color.
#[derive(Clone, Copy, Debug, PartialEq, Eq, Structural)]
pub struct Rgba {
    pub r: u32,
    pub g: u32,
    pub b: u32,
    pub a: u32,
}

impl From<WebviewCaptureResponse> for CapturedImage {
    fn from(response: WebviewCaptureResponse) -> (r: CapturedImage) {
        CapturedImage { png_base64: response.png_base64, width: response.width, height: response.height }
    }
}

impl vstd::std_specs::convert::FromSpecImpl<WebviewCaptureResponse> for CapturedImage {
    open spec fn obeys_from_spec() -> bool {
        true
    }

    open spec fn from_spec(v: WebviewCaptureResponse) -> CapturedImage {
        CapturedImage { png_base64: v.png_base64, width: v.width, height: v.height }
    }
}

impl From<WebviewPickColorResponse> for Rgba {
    fn from(response: WebviewPickColorResponse) -> (r: Rgba) {
        Rgba { r: response.r, g: response.g, b: response.b, a: response.a }
    }
}

impl vstd::std_specs::convert::FromSpecImpl<WebviewPickColorResponse> for Rgba {
    open spec fn obeys_from_spec() -> bool {
        true
    }

    open spec fn from_spec(v: WebviewPickColorResponse) -> Rgba {
        Rgba { r: v.r, g: v.g, b: v.b, a: v.a }
    }
}

/// Why a screenshot failed.
#[derive(Clone, Debug)]
pub enum ScreenshotError {
    UnknownWebview { message: String },
    SnapshotUnavailable { message: String },
    Internal { message: String },
}

/// The kinds of screenshot failure.
pub enum ScreenshotErrorKind {
    UnknownWebview,
    SnapshotUnavailable,
    Internal,
}

/// The kind and message of a screenshot error.
pub open spec fn screenshot_error_view(e: ScreenshotError) -> (ScreenshotErrorKind, Seq<char>) {
    match e {
        ScreenshotError::UnknownWebview { message } => (ScreenshotErrorKind::UnknownWebview, message@),
        ScreenshotError::SnapshotUnavailable { message } => (ScreenshotErrorKind::SnapshotUnavailable, message@),
        ScreenshotError::Internal { message } => (ScreenshotErrorKind::Internal, message@),
    }
}

/// The kind of failure a bridge reason reports: an unknown controller, a
/// snapshot that failed or timed out (matched case-insensitively), or an
/// internal error.
pub open spec fn screenshot_failure_kind(reason: Seq<char>) -> ScreenshotErrorKind {
    if occurs_in(reason, "Unknown WebView controller"@) {
        ScreenshotErrorKind::UnknownWebview
    } else if occurs_in(ascii_lowered(reason), char_codes("webpagesnapshot"@)) || occurs_in(
        ascii_lowered(reason),
        char_codes("timed out"@),
    ) {
        ScreenshotErrorKind::SnapshotUnavailable
    } else {
        ScreenshotErrorKind::Internal
    }
}

impl ScreenshotError {
    /// Classifies a bridge failure reason; the reason becomes the message.
    pub fn from_reason(reason: &str) -> (r: ScreenshotError)
        ensures
            screenshot_error_view(r) == (screenshot_failure_kind(reason@), reason@),
    {
        if contains_text(reason, "Unknown WebView controller") {
            ScreenshotError::UnknownWebview { message: reason.to_owned() }
        } else if contains_lowered(reason, "webpagesnapshot") || contains_lowered(reason, "timed out") {
            ScreenshotError::SnapshotUnavailable { message: reason.to_owned() }
        } else {
            ScreenshotError::Internal { message: reason.to_owned() }
        }
    }

    /// The error's message (its `Display` text).
    pub fn message(&self) -> (r: String)
        ensures
            r@ == screenshot_error_text(*self),
    {
        match self {
            ScreenshotError::UnknownWebview { message } => {
                let mut s = String::from_str("unknown webview: ");
                s.append(message.as_str());
                s
            },
            ScreenshotError::SnapshotUnavailable { message } => {
                let mut s = String::from_str("webview snapshot unavailable: ");
                s.append(message.as_str());
                s
            },
            ScreenshotError::Internal { message } => {
                let mut s = String::from_str("screenshot internal error: ");
                s.append(message.as_str());
                s
            },
        }
    }

    /// The bridge error carrying this error's message.
    pub fn into_bridge_error(self) -> (r: BridgeError)
        ensures
            r.reason@ == screenshot_error_text(self),
    {
        BridgeError { reason: self.message() }
    }
}

/// The `Display` text of a screenshot error.
pub open spec fn screenshot_error_text(e: ScreenshotError) -> Seq<char> {
    match e {
        ScreenshotError::UnknownWebview { message } => "unknown webview: "@ + message@,
        ScreenshotError::SnapshotUnavailable { message } => "webview snapshot unavailable: "@ + message@,
        ScreenshotError::Internal { message } => "screenshot internal error: "@ + message@,
    }
}

/// The result of a webview capture: the image, or the classified failure.
pub fn captured_image_result(response: Result<WebviewCaptureResponse, BridgeError>) -> (r: Result<CapturedImage, ScreenshotError>)
    ensures
        match response {
            Ok(v) => (r matches Ok(img) && img.png_base64 == v.png_base64 && img.width == v.width
                && img.height == v.height),
            Err(e) => (r matches Err(f) && screenshot_error_view(f) == (
                screenshot_failure_kind(e.reason@),
                e.reason@,
            )),
        },
{
    match response {
        Ok(v) => Ok(CapturedImage::from(v)),
        Err(e) => Err(ScreenshotError::from_reason(e.reason.as_str())),
    }
}

/// The result of a color pick: the color, or the classified failure.
pub fn picked_color_result(response: Result<WebviewPickColorResponse, BridgeError>) -> (r: Result<Rgba, ScreenshotError>)
    ensures
        match response {
            Ok(v) => r == Ok::<Rgba, ScreenshotError>(Rgba { r: v.r, g: v.g, b: v.b, a: v.a }),
            Err(e) => (r matches Err(f) && screenshot_error_view(f) == (
                screenshot_failure_kind(e.reason@),
                e.reason@,
            )),
        },
{
    match response {
        Ok(v) => Ok(Rgba::from(v)),
        Err(e) => Err(ScreenshotError::from_reason(e.reason.as_str())),
    }
}

} // verus!
