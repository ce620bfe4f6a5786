use openharmony_ability::autostart::{
    autostart_needs_query, is_enabled_result, AutostartAcknowledgement, AutostartBridgePlugin,
    AutostartDisableRequest, AutostartEnableRequest, AutostartIsEnabledRequest,
    AutostartIsEnabledResponse, AutostartManager, AutostartOp, TsfnOutcome,
};
use openharmony_ability::bridge::{BridgeContextRequirement, BridgeError, BridgeNapiType, BridgePlugin};
use openharmony_ability::statusbar::StatusBarAcknowledgement;
use openharmony_ability::deep_link::{
    normalize_uri, response_uri, DeepLinkBridgePlugin, DeepLinkGetUriRequest,
    DeepLinkGetUriResponse,
};

#[test]
fn autostart_plugin_targets_ability_context() {
    assert_eq!(AutostartBridgePlugin::ID, "ohos.autostart");
    assert_eq!(AutostartBridgePlugin::required_contexts(), &[BridgeContextRequirement::Ability]);
}

#[test]
fn autostart_types_have_stable_named_napi_contracts() {
    assert_eq!(<AutostartEnableRequest as BridgeNapiType>::TYPE_NAME, "ohos.autostart.EnableRequest");
    assert_eq!(<AutostartDisableRequest as BridgeNapiType>::TYPE_NAME, "ohos.autostart.DisableRequest");
    assert_eq!(<AutostartIsEnabledRequest as BridgeNapiType>::TYPE_NAME, "ohos.autostart.IsEnabledRequest");
    assert_eq!(<AutostartAcknowledgement as BridgeNapiType>::TYPE_NAME, "ohos.autostart.Acknowledgement");
    assert_eq!(<AutostartIsEnabledResponse as BridgeNapiType>::TYPE_NAME, "ohos.autostart.IsEnabledResponse");
}

#[test]
fn lib_acknowledgement_ensure_rejects_false() {
    let ack = AutostartAcknowledgement { accepted: false };
    assert!(ack.ensure().is_err());
    assert_eq!(
        AutostartAcknowledgement { accepted: false }.ensure().unwrap_err().reason,
        "Autostart plugin rejected the requested operation"
    );

    let ack = StatusBarAcknowledgement { accepted: false };
    assert!(ack.ensure().is_err());
    let ack = StatusBarAcknowledgement { accepted: true };
    assert!(ack.ensure().is_ok());
}

#[test]
fn acknowledgement_ensure_accepts_true() {
    let ack = AutostartAcknowledgement { accepted: true };
    assert!(ack.ensure().is_ok());
}

#[test]
fn autostart_reads_disabled_below_api_21() {
    assert!(!autostart_needs_query(20));
    assert!(autostart_needs_query(21));
    assert_eq!(is_enabled_result(20, None).unwrap(), false);
    assert_eq!(
        is_enabled_result(21, Some(Ok(AutostartIsEnabledResponse { enabled: true }))).unwrap(),
        true
    );
    assert_eq!(
        is_enabled_result(21, Some(Err(BridgeError::from_reason("x")))).unwrap_err().reason,
        "x"
    );
}

#[test]
fn autostart_manager_failures_name_the_operation() {
    let m = AutostartManager;
    assert_eq!(m.call_result::<bool>(AutostartOp::IsEnabled, TsfnOutcome::Settled(Ok(true))).unwrap(), true);
    assert_eq!(
        m.call_result::<()>(AutostartOp::Enable, TsfnOutcome::NotInitialized).unwrap_err().reason,
        "autostart enable TSFN not initialized"
    );
    assert_eq!(
        m.call_result::<()>(AutostartOp::Disable, TsfnOutcome::CallFailed("busy".into())).unwrap_err().reason,
        "call autostartDisable TSFN failed: busy"
    );
    assert_eq!(
        m.call_result::<bool>(AutostartOp::IsEnabled, TsfnOutcome::TimedOut).unwrap_err().reason,
        "autostart isEnabled timed out"
    );
    assert_eq!(
        m.call_result::<()>(AutostartOp::Enable, TsfnOutcome::Dropped).unwrap_err().reason,
        "autostart enable receiver dropped"
    );
    assert_eq!(
        m.call_result::<()>(AutostartOp::Enable, TsfnOutcome::Settled(Err("denied".into()))).unwrap_err().reason,
        "denied"
    );
}

#[test]
fn deep_link_plugin_targets_ability_context() {
    assert_eq!(DeepLinkBridgePlugin::ID, "ohos.deep-link");
    assert_eq!(DeepLinkBridgePlugin::required_contexts(), &[BridgeContextRequirement::Ability]);
}

#[test]
fn deep_link_types_have_stable_named_napi_contracts() {
    assert_eq!(<DeepLinkGetUriRequest as BridgeNapiType>::TYPE_NAME, "ohos.deep-link.GetUriRequest");
    assert_eq!(<DeepLinkGetUriResponse as BridgeNapiType>::TYPE_NAME, "ohos.deep-link.GetUriResponse");
}

#[test]
fn normalize_uri_treats_empty_as_none() {
    assert_eq!(normalize_uri(None), None);
    assert_eq!(normalize_uri(Some(String::new())), None);
    assert_eq!(normalize_uri(Some("myapp://page".to_owned())), Some("myapp://page".to_owned()));
}

#[test]
fn response_uri_normalizes_the_answer() {
    assert_eq!(response_uri(DeepLinkGetUriResponse { uri: Some(String::new()) }), None);
    assert_eq!(
        response_uri(DeepLinkGetUriResponse { uri: Some("a://b".into()) }),
        Some("a://b".to_owned())
    );
}
