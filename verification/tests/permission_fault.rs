use openharmony_ability::bridge::{BridgeContextRequirement, BridgeNapiType, BridgePlugin};
use openharmony_ability::fault_injection::{
    FaultInjectionAck, FaultNoopRequest, FaultOutcomeWire, FaultRuleWire,
    FAULT_INJECTION_PLUGIN_ID,
};
use openharmony_ability::permission::{
    pair_codes, request_payload, validate_request, PermissionBridgePlugin, PermissionRequest,
    PermissionRequestPayload, PermissionResponsePayload,
};

#[test]
fn permission_request_preserves_order_and_rejects_invalid_names() {
    let permissions = PermissionRequest::from(vec![
        "ohos.permission.CAMERA".to_owned(),
        "ohos.permission.MICROPHONE".to_owned(),
    ])
    .permissions();
    assert_eq!(
        permissions,
        vec!["ohos.permission.CAMERA".to_owned(), "ohos.permission.MICROPHONE".to_owned()]
    );
    assert!(validate_request(&permissions).is_ok());
    assert!(validate_request(&vec![]).is_err());
    assert!(validate_request(&vec![" ".to_owned()]).is_err());
}

#[test]
fn permission_uses_stable_named_napi_contracts() {
    assert_eq!(<PermissionRequestPayload as BridgeNapiType>::TYPE_NAME, "ohos.permission.PermissionRequest");
    assert_eq!(<PermissionResponsePayload as BridgeNapiType>::TYPE_NAME, "ohos.permission.PermissionResponse");
    assert_eq!(PermissionBridgePlugin::ID, "ohos.permission");
    assert_eq!(PermissionBridgePlugin::required_contexts(), &[BridgeContextRequirement::Ability]);
}

#[test]
fn a_single_permission_is_a_one_element_request() {
    assert_eq!(
        PermissionRequest::from("ohos.permission.CAMERA".to_owned()).permissions(),
        vec!["ohos.permission.CAMERA".to_owned()]
    );
}

#[test]
fn invalid_requests_name_the_rule() {
    assert_eq!(
        validate_request(&vec!["ok".to_owned(), "\t".to_owned()]).unwrap_err().reason,
        "Permission requests must contain one or more non-empty permission names"
    );
    let payload = request_payload(&vec!["a".to_owned(), "b".to_owned()]).unwrap();
    assert_eq!(payload.permissions, vec!["a".to_owned(), "b".to_owned()]);
    assert!(request_payload(&vec![]).is_err());
}

#[test]
fn codes_pair_with_permissions_in_order() {
    let pairs = pair_codes(vec!["a".to_owned(), "b".to_owned()], vec![0, -1]).unwrap();
    assert_eq!(pairs.len(), 2);
    assert_eq!(pairs[0].permission, "a");
    assert_eq!(pairs[0].code, 0);
    assert_eq!(pairs[1].permission, "b");
    assert_eq!(pairs[1].code, -1);
    assert_eq!(
        pair_codes(vec!["a".to_owned(), "b".to_owned()], vec![0]).unwrap_err().reason,
        "Permission plugin returned 1 results for 2 requested permissions"
    );
}

#[test]
fn builtin_plugin_id_is_stable() {
    assert_eq!(FAULT_INJECTION_PLUGIN_ID, "ohos.fault-injection");
}

#[test]
fn wire_types_have_stable_named_napi_contracts() {
    assert_eq!(<FaultNoopRequest as BridgeNapiType>::TYPE_NAME, "ohos.fault-injection.NoopRequest");
    assert_eq!(<FaultRuleWire as BridgeNapiType>::TYPE_NAME, "ohos.fault-injection.SetRuleRequest");
    assert_eq!(<FaultInjectionAck as BridgeNapiType>::TYPE_NAME, "ohos.fault-injection.Ack");
    let rule = FaultRuleWire {
        plugin_id: "ohos.clipboard".to_owned(),
        action: Some("read-text".to_owned()),
        outcome: FaultOutcomeWire {
            kind: "error".to_owned(),
            code: Some(42),
            message: Some("injected".to_owned()),
            ms: None,
        },
        hits: Some(3),
    };
    assert_eq!(rule.outcome.code, Some(42));
}
