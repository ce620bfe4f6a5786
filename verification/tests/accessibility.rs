use openharmony_ability::accessibility::{
    accessibility_main_thread_event, dispatch_state_change, extract_code, query_result,
    subscribe_outcome, unsubscribe_outcome, AccessibilityBridgePlugin, AccessibilityError,
    AccessibilityEventAcknowledgement, AccessibilityGetFontScaleRequest,
    AccessibilityIsOpenRequest, AccessibilityIsOpenResponse, AccessibilityIsTouchExploreRequest,
    AccessibilityIsTouchExploreResponse, AccessibilityStateChangedEvent,
    AccessibilitySubscribeResponse, AccessibilityUnsubscribeResponse,
};
use openharmony_ability::bridge::{BridgeContextRequirement, BridgeError, BridgeNapiType, BridgePlugin};

#[test]
fn accessibility_plugin_targets_ability_context() {
    assert_eq!(AccessibilityBridgePlugin::ID, "ohos.accessibility");
    assert_eq!(
        AccessibilityBridgePlugin::required_contexts(),
        &[BridgeContextRequirement::Ability]
    );
}

#[test]
fn accessibility_types_have_stable_named_napi_contracts() {
    assert_eq!(<AccessibilityGetFontScaleRequest as BridgeNapiType>::TYPE_NAME, "ohos.accessibility.GetFontScaleRequest");
    assert_eq!(<AccessibilityIsOpenRequest as BridgeNapiType>::TYPE_NAME, "ohos.accessibility.IsOpenAccessibilityRequest");
    assert_eq!(<AccessibilityIsOpenResponse as BridgeNapiType>::TYPE_NAME, "ohos.accessibility.IsOpenAccessibilityResponse");
    assert_eq!(<AccessibilityIsTouchExploreRequest as BridgeNapiType>::TYPE_NAME, "ohos.accessibility.IsTouchExploreRequest");
    assert_eq!(<AccessibilityIsTouchExploreResponse as BridgeNapiType>::TYPE_NAME, "ohos.accessibility.IsTouchExploreResponse");
    assert_eq!(<AccessibilityStateChangedEvent as BridgeNapiType>::TYPE_NAME, "ohos.accessibility.StateChangedEvent");
    assert_eq!(<AccessibilityEventAcknowledgement as BridgeNapiType>::TYPE_NAME, "ohos.accessibility.EventAcknowledgement");
}

#[test]
fn error_reason_maps_permission_code() {
    let err = AccessibilityError::from_reason(
        "isScreenReaderOpenSync failed: code=201 msg=permission denied",
    );
    assert_eq!(
        err,
        AccessibilityError::PermissionDenied {
            code: 201,
            message: "isScreenReaderOpenSync failed: code=201 msg=permission denied".to_string()
        }
    );
    let err = AccessibilityError::from_reason(
        "on(screenReaderStateChange) failed: code=9300001 msg=inner error",
    );
    assert!(matches!(err, AccessibilityError::Unavailable { code: 9300001, .. }));
}

#[test]
fn extract_code_handles_missing_and_negative() {
    assert_eq!(extract_code("no code here"), None);
    assert_eq!(extract_code("failed: code=-1 msg=x"), Some(-1));
    assert_eq!(extract_code("code=201"), Some(201));
}

#[test]
fn extract_code_reads_only_the_first_code() {
    assert_eq!(extract_code("code=12 then code=34"), Some(12));
    assert_eq!(extract_code("code=abc"), None);
    assert_eq!(extract_code("code=99999999999"), None);
}

#[test]
fn a_reason_without_code_is_unavailable_with_code_zero() {
    assert_eq!(
        AccessibilityError::from_reason("boom"),
        AccessibilityError::Unavailable { code: 0, message: "boom".to_string() }
    );
}

#[test]
fn error_messages_name_the_kind_and_code() {
    let e = AccessibilityError::PermissionDenied { code: 201, message: "denied".into() };
    assert_eq!(e.message(), "accessibility permission denied (code=201): denied");
    let e = AccessibilityError::Unavailable { code: -1, message: "x".into() };
    assert_eq!(e.clone().into_bridge_error().reason, "accessibility query failed (code=-1): x");
}

#[test]
fn query_failures_are_classified() {
    let ok: Result<bool, BridgeError> = Ok(true);
    assert_eq!(query_result(ok).unwrap(), true);
    let failed: Result<bool, BridgeError> =
        Err(BridgeError::from_reason("isScreenReaderOpenSync failed: code=201 msg=denied"));
    assert_eq!(
        query_result(failed).unwrap_err().reason,
        "accessibility permission denied (code=201): isScreenReaderOpenSync failed: code=201 msg=denied"
    );
}

#[test]
fn subscription_outcomes() {
    let (keep, r) = subscribe_outcome(Ok(AccessibilitySubscribeResponse { accepted: true }));
    assert!(keep && r.is_ok());
    let (keep, r) = subscribe_outcome(Ok(AccessibilitySubscribeResponse { accepted: false }));
    assert!(keep);
    assert_eq!(r.unwrap_err().reason, "Accessibility plugin rejected subscribe-state-change");
    let (keep, r) = subscribe_outcome(Err(BridgeError::from_reason("code=5")));
    assert!(!keep);
    assert_eq!(r.unwrap_err().reason, "accessibility query failed (code=5): code=5");
    assert!(unsubscribe_outcome(Ok(AccessibilityUnsubscribeResponse { accepted: true })).is_ok());
    assert_eq!(
        unsubscribe_outcome(Ok(AccessibilityUnsubscribeResponse { accepted: false })).unwrap_err().reason,
        "Accessibility plugin rejected unsubscribe-state-change"
    );
}

#[test]
fn state_changes_reach_the_handler() {
    let (enabled, ack) =
        accessibility_main_thread_event("accessibility-state-changed", AccessibilityStateChangedEvent { enabled: true }).unwrap();
    assert!(enabled && ack.accepted);
    assert_eq!(
        accessibility_main_thread_event("other", AccessibilityStateChangedEvent { enabled: true }).unwrap_err().reason,
        "Unsupported ohos.accessibility main-thread event 'other'"
    );
    let seen = std::cell::Cell::new(None);
    let handler = |on: bool| seen.set(Some(on));
    assert!(dispatch_state_change(Some(&handler), false));
    assert_eq!(seen.get(), Some(false));
    assert!(!dispatch_state_change::<fn(bool)>(None, true));
}
