//! The accessibility plugin: screen-reader and touch-exploration queries,
//! state-change subscription, and the classification of its failures.

use vstd::prelude::*;

use crate::bridge::{
    unsupported_event, unsupported_event_reason, BridgeContextRequirement, BridgeError,
    BridgeNapiType, BridgePlugin,
};
use crate::keyed::text_eq;
use crate::text::{
    chars_of, decimal_text, find_text, int_text, is_digit, occurs_at, parse_i32, parsed_i32,
};

verus! {

/// The accessibility bridge plugin.
pub struct AccessibilityBridgePlugin;

impl BridgePlugin for AccessibilityBridgePlugin {
    const ID: &'static str = "ohos.accessibility";

    open spec fn spec_required_contexts() -> Seq<BridgeContextRequirement> {
        seq![BridgeContextRequirement::Ability]
    }

    fn required_contexts() -> (r: &'static [BridgeContextRequirement]) {
        let r: &'static [BridgeContextRequirement] = &[BridgeContextRequirement::Ability];
        r
    }
}

#[derive(Clone, Copy, Debug)]
pub struct AccessibilityGetFontScaleRequest {
}

impl BridgeNapiType for AccessibilityGetFontScaleRequest {
    const TYPE_NAME: &'static str = "ohos.accessibility.GetFontScaleRequest";
}

#[derive(Clone, Copy, Debug)]
pub struct AccessibilityIsOpenRequest {
}

impl BridgeNapiType for AccessibilityIsOpenRequest {
    const TYPE_NAME: &'static str = "ohos.accessibility.IsOpenAccessibilityRequest";
}

#[derive(Clone, Copy, Debug)]
pub struct AccessibilityIsOpenResponse {
    pub enabled: bool,
}

impl BridgeNapiType for AccessibilityIsOpenResponse {
    const TYPE_NAME: &'static str = "ohos.accessibility.IsOpenAccessibilityResponse";
}

#[derive(Clone, Copy, Debug)]
pub struct AccessibilityIsTouchExploreRequest {
}

impl BridgeNapiType for AccessibilityIsTouchExploreRequest {
    const TYPE_NAME: &'static str = "ohos.accessibility.IsTouchExploreRequest";
}

#[derive(Clone, Copy, Debug)]
pub struct AccessibilityIsTouchExploreResponse {
    pub enabled: bool,
}

impl BridgeNapiType for AccessibilityIsTouchExploreResponse {
    const TYPE_NAME: &'static str = "ohos.accessibility.IsTouchExploreResponse";
}

#[derive(Clone, Copy, Debug)]
pub struct AccessibilitySubscribeRequest {
}

impl BridgeNapiType for AccessibilitySubscribeRequest {
    const TYPE_NAME: &'static str = "ohos.accessibility.SubscribeRequest";
}

#[derive(Clone, Copy, Debug)]
pub struct AccessibilitySubscribeResponse {
    pub accepted: bool,
}

impl BridgeNapiType for AccessibilitySubscribeResponse {
    const TYPE_NAME: &'static str = "ohos.accessibility.SubscribeResponse";
}

#[derive(Clone, Copy, Debug)]
pub struct AccessibilityUnsubscribeRequest {
}

impl BridgeNapiType for AccessibilityUnsubscribeRequest {
    const TYPE_NAME: &'static str = "ohos.accessibility.UnsubscribeRequest";
}

#[derive(Clone, Copy, Debug)]
pub struct AccessibilityUnsubscribeResponse {
    pub accepted: bool,
}

impl BridgeNapiType for AccessibilityUnsubscribeResponse {
    const TYPE_NAME: &'static str = "ohos.accessibility.UnsubscribeResponse";
}

#[derive(Clone, Copy, Debug)]
pub struct AccessibilityStateChangedEvent {
    pub enabled: bool,
}

impl BridgeNapiType for AccessibilityStateChangedEvent {
    const TYPE_NAME: &'static str = "ohos.accessibility.StateChangedEvent";
}

#[derive(Clone, Copy, Debug)]
pub struct AccessibilityEventAcknowledgement {
    pub accepted: bool,
}

impl BridgeNapiType for AccessibilityEventAcknowledgement {
    const TYPE_NAME: &'static str = "ohos.accessibility.EventAcknowledgement";
}

/// The bridge error code for a denied permission.
pub const BRIDGE_ERR_PERMISSION: i32 = 201;

/// Why an accessibility query failed.
#[derive(Clone, Debug, PartialEq, Eq)]
pub enum AccessibilityError {
    PermissionDenied { code: i32, message: String },
    Unavailable { code: i32, message: String },
}

/// The number of characters from `start` on that are digits or `-`.
pub open spec fn code_run_len(s: Seq<char>, start: int) -> nat
    decreases s.len() - start,
{
    if 0 <= start < s.len() && (is_digit(s[start]) || s[start] == '-') {
        1 + code_run_len(s, start + 1)
    } else {
        0
    }
}

/// The first position of `pat` in `s`.
pub open spec fn first_occurrence(s: Seq<char>, pat: Seq<char>, i: int) -> bool {
    occurs_at(s, pat, i) && forall|j: int| 0 <= j < i ==> !#[trigger] occurs_at(s, pat, j)
}

/// The code in a bridge failure reason: the digits and `-` right after the
/// first `code=`, read as an `i32`.
pub open spec fn reason_code(s: Seq<char>) -> Option<i32> {
    if exists|i: int| first_occurrence(s, "code="@, i) {
        let i = choose|i: int| first_occurrence(s, "code="@, i);
        let start = i + "code="@.len();
        parsed_i32(s.subrange(start, start + code_run_len(s, start)))
    } else {
        None
    }
}

/// Reads the error code out of a bridge failure reason (`... code=201 ...`).
pub fn extract_code(reason: &str) -> (r: Option<i32>)
    ensures
        r == reason_code(reason@),
{
    let idx = match find_text(reason, "code=") {
        Some(i) => i,
        None => {
            proof {
                if exists|i: int| first_occurrence(reason@, "code="@, i) {
                    let i = choose|i: int| first_occurrence(reason@, "code="@, i);
                    assert(occurs_at(reason@, "code="@, i));
                }
            }
            return None;
        },
    };
    proof {
        let i = choose|i: int| first_occurrence(reason@, "code="@, i);
        assert(first_occurrence(reason@, "code="@, idx as int));
        if i < idx {
            assert(!occurs_at(reason@, "code="@, i));
        } else if i > idx {
            assert(!occurs_at(reason@, "code="@, idx as int));
        }
    }
    let cs = chars_of(reason);
    proof {
        reveal_strlit("code=");
    }
    let n = cs.len();
    assert(idx + 5 <= n);
    let start = idx + 5;
    let mut end = start;
    let mut token: Vec<char> = Vec::new();
    while end < cs.len() && (('0' <= cs[end] && cs[end] <= '9') || cs[end] == '-')
        invariant
            cs@ == reason@,
            start <= end <= cs@.len(),
            token@ == reason@.subrange(start as int, end as int),
            code_run_len(reason@, start as int) == (end - start) + code_run_len(reason@, end as int),
        decreases cs.len() - end,
    {
        token.push(cs[end]);
        assert(token@ =~= reason@.subrange(start as int, end + 1));
        end += 1;
    }
    assert(code_run_len(reason@, end as int) == 0);
    parse_i32(&token)
}

/// The kind of an accessibility failure: a permission denial when the
/// reason carries the permission code, else an unavailable service.
pub open spec fn is_permission_denial(reason: Seq<char>) -> bool {
    reason_code(reason) == Some(BRIDGE_ERR_PERMISSION)
}

/// The code an accessibility failure carries (0 when its reason has none).
pub open spec fn failure_code(reason: Seq<char>) -> i32 {
    match reason_code(reason) {
        Some(c) => c,
        None => 0,
    }
}

impl AccessibilityError {
    /// Classifies a bridge failure reason.
    pub fn from_reason(reason: &str) -> (r: AccessibilityError)
        ensures
            is_permission_denial(reason@) ==> (r matches AccessibilityError::PermissionDenied { code, message }
                && code == BRIDGE_ERR_PERMISSION && message@ == reason@),
            !is_permission_denial(reason@) ==> (r matches AccessibilityError::Unavailable { code, message }
                && code == failure_code(reason@) && message@ == reason@),
    {
        let code = match extract_code(reason) {
            Some(c) => c,
            None => 0,
        };
        let message = reason.to_owned();
        if code == BRIDGE_ERR_PERMISSION {
            AccessibilityError::PermissionDenied { code, message }
        } else {
            AccessibilityError::Unavailable { code, message }
        }
    }

    /// The error's message (its `Display` text).
    pub fn message(&self) -> (r: String)
        ensures
            r@ == accessibility_error_text(*self),
    {
        match self {
            AccessibilityError::PermissionDenied { code, message } => {
                let mut s = String::from_str("accessibility permission denied (code=");
                let n = decimal_text(*code as i64);
                s.append(n.as_str());
                s.append("): ");
                s.append(message.as_str());
                s
            },
            AccessibilityError::Unavailable { code, message } => {
                let mut s = String::from_str("accessibility query failed (code=");
                let n = decimal_text(*code as i64);
                s.append(n.as_str());
                s.append("): ");
                s.append(message.as_str());
                s
            },
        }
    }

    /// The bridge error carrying this error's message.
    pub fn into_bridge_error(self) -> (r: BridgeError)
        ensures
            r.reason@ == accessibility_error_text(self),
    {
        BridgeError { reason: self.message() }
    }
}

/// The `Display` text of an accessibility error.
pub open spec fn accessibility_error_text(e: AccessibilityError) -> Seq<char> {
    match e {
        AccessibilityError::PermissionDenied { code, message } => "accessibility permission denied (code="@
            + int_text(code as int) + "): "@ + message@,
        AccessibilityError::Unavailable { code, message } => "accessibility query failed (code="@
            + int_text(code as int) + "): "@ + message@,
    }
}

/// The message of the accessibility error a bridge failure reason is
/// classified as.
pub open spec fn classified_failure_text(reason: Seq<char>) -> Seq<char> {
    if is_permission_denial(reason) {
        "accessibility permission denied (code="@ + int_text(BRIDGE_ERR_PERMISSION as int) + "): "@ + reason
    } else {
        "accessibility query failed (code="@ + int_text(failure_code(reason) as int) + "): "@ + reason
    }
}

/// The result of a query: the value, or the classified failure.
pub fn query_result<T>(response: Result<T, BridgeError>) -> (r: Result<T, BridgeError>)
    ensures
        match response {
            Ok(v) => r == Ok::<T, BridgeError>(v),
            Err(e) => (r matches Err(f) && f.reason@ == classified_failure_text(e.reason@)),
        },
{
    match response {
        Ok(v) => Ok(v),
        Err(e) => Err(classify_failure(&e)),
    }
}

/// The bridge error an accessibility failure is reported as.
fn classify_failure(e: &BridgeError) -> (r: BridgeError)
    ensures
        r.reason@ == classified_failure_text(e.reason@),
{
    let a = AccessibilityError::from_reason(e.reason.as_str());
    a.into_bridge_error()
}

/// The outcome of a state-change subscription: whether the installed handler
/// stays, and the result. A failed call removes the handler again; a refusal
/// keeps it.
pub fn subscribe_outcome(response: Result<AccessibilitySubscribeResponse, BridgeError>) -> (r: (
    bool,
    Result<(), BridgeError>,
))
    ensures
        r.0 == response is Ok,
        response matches Ok(resp) ==> (resp.accepted ==> r.1 is Ok),
        response matches Ok(resp) ==> (!resp.accepted ==> (r.1 matches Err(e) && e.reason@
            == "Accessibility plugin rejected subscribe-state-change"@)),
        response matches Err(e) ==> (r.1 matches Err(f) && f.reason@ == classified_failure_text(e.reason@)),
{
    match response {
        Err(e) => (false, Err(classify_failure(&e))),
        Ok(resp) => {
            if resp.accepted {
                (true, Ok(()))
            } else {
                (true, Err(BridgeError::from_reason("Accessibility plugin rejected subscribe-state-change")))
            }
        },
    }
}

/// The outcome of an unsubscription (the handler is already removed).
pub fn unsubscribe_outcome(response: Result<AccessibilityUnsubscribeResponse, BridgeError>) -> (r:
    Result<(), BridgeError>)
    ensures
        response matches Ok(resp) ==> (resp.accepted ==> r is Ok),
        response matches Ok(resp) ==> (!resp.accepted ==> (r matches Err(e) && e.reason@
            == "Accessibility plugin rejected unsubscribe-state-change"@)),
        response matches Err(e) ==> (r matches Err(f) && f.reason@ == classified_failure_text(e.reason@)),
{
    match response {
        Err(e) => Err(classify_failure(&e)),
        Ok(resp) => {
            if resp.accepted {
                Ok(())
            } else {
                Err(BridgeError::from_reason("Accessibility plugin rejected unsubscribe-state-change"))
            }
        },
    }
}

/// Answers a main-thread event of the accessibility plugin: a state change
/// is passed on (`Ok(Some(enabled))`) and acknowledged; any other event is
/// refused.
pub fn accessibility_main_thread_event(name: &str, event: AccessibilityStateChangedEvent) -> (r: Result<
    (bool, AccessibilityEventAcknowledgement),
    BridgeError,
>)
    ensures
        name@ == "accessibility-state-changed"@ ==> (r matches Ok((enabled, ack)) && enabled
            == event.enabled && ack.accepted),
        name@ != "accessibility-state-changed"@ ==> (r matches Err(e) && e.reason@
            == unsupported_event_reason("ohos.accessibility"@, name@)),
{
    if text_eq(name, "accessibility-state-changed") {
        Ok((event.enabled, AccessibilityEventAcknowledgement { accepted: true }))
    } else {
        Err(unsupported_event(AccessibilityBridgePlugin::ID, name))
    }
}

/// Passes an accessibility state change to the subscribed handler, if any;
/// returns whether there was one.
pub fn dispatch_state_change<F: Fn(bool)>(handler: Option<&F>, enabled: bool) -> (dispatched: bool)
    requires
        handler matches Some(h) ==> h.requires((enabled,)),
    ensures
        dispatched == handler is Some,
{
    match handler {
        Some(h) => {
            h(enabled);
            true
        },
        None => false,
    }
}

} // verus!
