use openharmony_ability::app_control::{
    check_restart, start_ui_ability_request, AppControlBridgePlugin, HideAbilityRequest,
    HideAbilityResponse, RestartRequest, RestartResponse, SetColorModeRequest,
    SetColorModeResponse, ShowAbilityRequest, ShowAbilityResponse, StartUiAbilityRequest,
    StartUiAbilityResponse, TerminateRequest, TerminateResponse,
};
use openharmony_ability::bridge::{BridgeNapiType, BridgePlugin};
use openharmony_ability::process::{self, restart_code, ProcessBridgePlugin};
use openharmony_ability::registry::{window_id_for_label, ProcessRegistry};

#[test]
fn terminate_uses_a_stable_named_napi_contract() {
    assert_eq!(<TerminateRequest as BridgeNapiType>::TYPE_NAME, "ohos.app_control.TerminateRequest");
    assert_eq!(<TerminateResponse as BridgeNapiType>::TYPE_NAME, "ohos.app_control.TerminateResponse");
    assert_eq!(TerminateRequest { code: -1 }.code, -1);
    assert!(TerminateResponse { accepted: true }.accepted);
}

#[test]
fn restart_uses_a_stable_named_napi_contract() {
    assert_eq!(<RestartRequest as BridgeNapiType>::TYPE_NAME, "ohos.app_control.RestartRequest");
    assert_eq!(<RestartResponse as BridgeNapiType>::TYPE_NAME, "ohos.app_control.RestartResponse");
    assert!(RestartResponse { accepted: true }.accepted);
}

#[test]
fn set_color_mode_uses_a_stable_named_napi_contract() {
    assert_eq!(<SetColorModeRequest as BridgeNapiType>::TYPE_NAME, "ohos.app_control.SetColorModeRequest");
    assert_eq!(<SetColorModeResponse as BridgeNapiType>::TYPE_NAME, "ohos.app_control.SetColorModeResponse");
    assert_eq!(SetColorModeRequest { color_mode: 0 }.color_mode, 0);
    assert!(SetColorModeResponse { accepted: true }.accepted);
}

#[test]
fn hide_ability_uses_a_stable_named_napi_contract() {
    assert_eq!(<HideAbilityRequest as BridgeNapiType>::TYPE_NAME, "ohos.app_control.HideAbilityRequest");
    assert_eq!(<HideAbilityResponse as BridgeNapiType>::TYPE_NAME, "ohos.app_control.HideAbilityResponse");
    assert!(HideAbilityResponse { accepted: true }.accepted);
}

#[test]
fn show_ability_uses_a_stable_named_napi_contract() {
    assert_eq!(<ShowAbilityRequest as BridgeNapiType>::TYPE_NAME, "ohos.app_control.ShowAbilityRequest");
    assert_eq!(<ShowAbilityResponse as BridgeNapiType>::TYPE_NAME, "ohos.app_control.ShowAbilityResponse");
    assert!(ShowAbilityResponse { accepted: true }.accepted);
}

#[test]
fn start_ui_ability_uses_a_stable_named_napi_contract() {
    assert_eq!(<StartUiAbilityRequest as BridgeNapiType>::TYPE_NAME, "ohos.app_control.StartUiAbilityRequest");
    assert_eq!(<StartUiAbilityResponse as BridgeNapiType>::TYPE_NAME, "ohos.app_control.StartUiAbilityResponse");
    let request = StartUiAbilityRequest {
        window_id: 1,
        label: "uiability-1".into(),
        url: String::new(),
        transparent: false,
    };
    assert_eq!(request.window_id, 1);
    assert_eq!(request.label, "uiability-1");
    assert!(request.url.is_empty());
    assert!(!request.transparent);
    assert!(StartUiAbilityResponse { accepted: true }.accepted);
}

#[test]
fn app_control_acknowledgements() {
    assert!(TerminateResponse { accepted: true }.ensure().is_ok());
    assert_eq!(TerminateResponse { accepted: false }.ensure().unwrap_err().reason, "App-control plugin rejected termination");
    assert_eq!(RestartResponse { accepted: false }.ensure().unwrap_err().reason, "App-control plugin rejected restart");
    assert_eq!(HideAbilityResponse { accepted: false }.ensure().unwrap_err().reason, "App-control plugin rejected hide-ability");
    assert_eq!(ShowAbilityResponse { accepted: false }.ensure().unwrap_err().reason, "App-control plugin rejected show-ability");
    assert_eq!(SetColorModeResponse { accepted: false }.ensure().unwrap_err().reason, "App-control plugin rejected color mode change");
    assert_eq!(StartUiAbilityResponse { accepted: false }.ensure().unwrap_err().reason, "App-control plugin rejected start-ui-ability");
}

#[test]
fn restart_needs_api_12() {
    assert!(check_restart(12).is_ok());
    assert_eq!(
        check_restart(11).unwrap_err().reason,
        "restart requires API level 12+ on OpenHarmony (current: 11)"
    );
    let _ = AppControlBridgePlugin::ID;
}

#[test]
fn starting_a_ui_ability_registers_its_label_first() {
    let mut reg = ProcessRegistry::new();
    let req = start_ui_ability_request(&mut reg, 4, "detail".into(), "app://x".into(), true);
    assert_eq!(req.window_id, 4);
    assert_eq!(req.label, "detail");
    assert_eq!(req.url, "app://x");
    assert!(req.transparent);
    assert_eq!(window_id_for_label(&reg, "detail"), 4);
}

#[test]
fn process_plugin_requires_no_contexts() {
    assert_eq!(ProcessBridgePlugin::ID, "ohos.process");
    assert!(ProcessBridgePlugin::required_contexts().is_empty());
}

#[test]
fn process_types_have_stable_named_napi_contracts() {
    assert_eq!(<process::RestartRequest as BridgeNapiType>::TYPE_NAME, "ohos.process.RestartRequest");
    assert_eq!(<process::RestartResponse as BridgeNapiType>::TYPE_NAME, "ohos.process.RestartResponse");
    assert_eq!(restart_code(process::RestartResponse { code: 3 }), 3);
}
