//! Cursor grab (pointer lock) on a real OS window: the checks made before the
//! window-manager call and the mapping of its outcome.

use vstd::prelude::*;

use crate::text::{decimal_text, int_text};

verus! {

/// The window manager reports that the device cannot lock the cursor.
pub const WM_ERRORCODE_DEVICE_NOT_SUPPORTED: i64 = 801;

/// The window manager reports an abnormal window state.
pub const WM_ERRORCODE_STATE_ABNORMAL: i64 = 1300002;

/// First SDK API level with cursor lock.
pub const CURSOR_LOCK_API_LEVEL: i32 = 22;

/// Why a cursor grab failed.
#[derive(Clone, Debug)]
pub enum CursorGrabError {
    /// The device or the system version cannot lock the cursor.
    NotSupported,
    /// The window manager failed with this error code.
    OsCode(i32),
    /// The request never reached the window manager.
    Bridge(String),
}

/// What the window-manager lock/unlock call returned: success, or an error
/// with its numeric code (when it carries one) and its text.
#[derive(Clone, Debug)]
pub enum WindowManagerOutcome {
    Done,
    Failed { code: Option<i64>, text: String },
}

/// The view of a grab result: the kind of error, with the OS code or the
/// bridge reason.
pub enum GrabResultView {
    Granted,
    NotSupported,
    OsCode(i32),
    Bridge(Seq<char>),
}

pub open spec fn grab_view(r: Result<(), CursorGrabError>) -> GrabResultView {
    match r {
        Ok(()) => GrabResultView::Granted,
        Err(CursorGrabError::NotSupported) => GrabResultView::NotSupported,
        Err(CursorGrabError::OsCode(c)) => GrabResultView::OsCode(c),
        Err(CursorGrabError::Bridge(reason)) => GrabResultView::Bridge(reason@),
    }
}

/// The result of a lock (`grab`) or unlock call: an abnormal-state error on
/// unlock means the cursor is already free, and a not-supported code maps to
/// `NotSupported`; an error without a code is a bridge failure.
pub open spec fn grab_outcome_view(grab: bool, code: Option<Option<i64>>, text: Seq<char>) -> GrabResultView {
    match code {
        None => GrabResultView::Granted,
        Some(None) => GrabResultView::Bridge(text),
        Some(Some(c)) => if c == WM_ERRORCODE_DEVICE_NOT_SUPPORTED {
            GrabResultView::NotSupported
        } else if c == WM_ERRORCODE_STATE_ABNORMAL && !grab {
            GrabResultView::Granted
        } else {
            GrabResultView::OsCode(c as i32)
        },
    }
}

/// The outcome's code: `None` for success, `Some(code)` for a failure.
pub open spec fn outcome_code(o: WindowManagerOutcome) -> Option<Option<i64>> {
    match o {
        WindowManagerOutcome::Done => None,
        WindowManagerOutcome::Failed { code, .. } => Some(code),
    }
}

pub open spec fn outcome_text(o: WindowManagerOutcome) -> Seq<char> {
    match o {
        WindowManagerOutcome::Done => Seq::empty(),
        WindowManagerOutcome::Failed { text, .. } => text@,
    }
}

/// The reason given for a window id that cannot name a real window.
pub open spec fn invalid_window_reason(real_window_id: i32) -> Seq<char> {
    "invalid real window id "@ + int_text(real_window_id as int)
}

/// Checks made before the window manager is called: the window id must name
/// a real window, and the system must have cursor lock.
pub fn check_cursor_grab(real_window_id: i32, sdk_api_version: i32) -> (r: Result<(), CursorGrabError>)
    ensures
        real_window_id <= 0 ==> grab_view(r) == GrabResultView::Bridge(
            invalid_window_reason(real_window_id),
        ),
        real_window_id > 0 && sdk_api_version < CURSOR_LOCK_API_LEVEL ==> grab_view(r)
            == GrabResultView::NotSupported,
        real_window_id > 0 && sdk_api_version >= CURSOR_LOCK_API_LEVEL ==> r is Ok,
{
    if real_window_id <= 0 {
        let mut reason = String::from_str("invalid real window id ");
        let n = decimal_text(real_window_id as i64);
        reason.append(n.as_str());
        return Err(CursorGrabError::Bridge(reason));
    }
    if sdk_api_version < CURSOR_LOCK_API_LEVEL {
        return Err(CursorGrabError::NotSupported);
    }
    Ok(())
}

/// Maps the window manager's answer to the grab result.
pub fn cursor_grab_outcome(grab: bool, outcome: WindowManagerOutcome) -> (r: Result<(), CursorGrabError>)
    ensures
        grab_view(r) == grab_outcome_view(grab, outcome_code(outcome), outcome_text(outcome)),
{
    match outcome {
        WindowManagerOutcome::Done => Ok(()),
        WindowManagerOutcome::Failed { code, text } => match code {
            Some(c) => {
                if c == WM_ERRORCODE_DEVICE_NOT_SUPPORTED {
                    Err(CursorGrabError::NotSupported)
                } else if c == WM_ERRORCODE_STATE_ABNORMAL && !grab {
                    Ok(())
                } else {
                    Err(CursorGrabError::OsCode(c as i32))
                }
            },
            None => Err(CursorGrabError::Bridge(text)),
        },
    }
}

/// Locks (`grab`) or unlocks the cursor on a real OS window. `call` performs
/// the window-manager call; it runs only when the checks pass, and its answer
/// decides the result.
pub fn set_cursor_grab<F: FnOnce(i32, bool) -> WindowManagerOutcome>(
    real_window_id: i32,
    grab: bool,
    sdk_api_version: i32,
    call: F,
) -> (r: Result<(), CursorGrabError>)
    requires
        real_window_id > 0 && sdk_api_version >= CURSOR_LOCK_API_LEVEL ==> call.requires((real_window_id, grab)),
    ensures
        real_window_id <= 0 ==> grab_view(r) == GrabResultView::Bridge(
            invalid_window_reason(real_window_id),
        ),
        real_window_id > 0 && sdk_api_version < CURSOR_LOCK_API_LEVEL ==> grab_view(r)
            == GrabResultView::NotSupported,
        real_window_id > 0 && sdk_api_version >= CURSOR_LOCK_API_LEVEL ==> exists|o: WindowManagerOutcome|
            #[trigger] call.ensures((real_window_id, grab), o) && grab_view(r) == grab_outcome_view(
                grab,
                outcome_code(o),
                outcome_text(o),
            ),
{
    match check_cursor_grab(real_window_id, sdk_api_version) {
        Err(e) => Err(e),
        Ok(()) => {
            let outcome = call(real_window_id, grab);
            let ghost o = outcome;
            let r = cursor_grab_outcome(grab, outcome);
            assert(call.ensures((real_window_id, grab), o));
            r
        },
    }
}

/// The message of a cursor grab error; a not-supported error on a system
/// below the cursor-lock API level names both levels.
pub open spec fn grab_error_message(e: GrabResultView, sdk_api_version: i32) -> Seq<char> {
    match e {
        GrabResultView::NotSupported => if sdk_api_version > 0 && sdk_api_version
            < CURSOR_LOCK_API_LEVEL {
            "cursor lock not supported on this device"@ + " (sdk api version "@ + int_text(
                sdk_api_version as int,
            ) + " < 22)"@
        } else {
            "cursor lock not supported on this device"@
        },
        GrabResultView::OsCode(c) => "window manager error code "@ + int_text(c as int),
        GrabResultView::Bridge(reason) => "cursor grab bridge failure: "@ + reason,
        GrabResultView::Granted => Seq::empty(),
    }
}

impl CursorGrabError {
    /// The error's message (its `Display` text).
    pub fn message(&self, sdk_api_version: i32) -> (r: String)
        ensures
            r@ == grab_error_message(grab_view(Err(*self)), sdk_api_version),
    {
        match self {
            CursorGrabError::NotSupported => {
                let mut s = String::from_str("cursor lock not supported on this device");
                if sdk_api_version > 0 && sdk_api_version < CURSOR_LOCK_API_LEVEL {
                    s.append(" (sdk api version ");
                    let n = decimal_text(sdk_api_version as i64);
                    s.append(n.as_str());
                    s.append(" < 22)");
                }
                s
            },
            CursorGrabError::OsCode(code) => {
                let mut s = String::from_str("window manager error code ");
                let n = decimal_text(*code as i64);
                s.append(n.as_str());
                s
            },
            CursorGrabError::Bridge(reason) => {
                let mut s = String::from_str("cursor grab bridge failure: ");
                s.append(reason.as_str());
                s
            },
        }
    }
}

} // verus!
