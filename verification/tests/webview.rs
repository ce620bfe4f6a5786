use openharmony_ability::webview::{
    cookie_string, created_webview_id, current_url, pdf_result, snapshot_result,
    webview_build_target, WebviewPrintResponse, WebviewSnapshotResponse,
};
use openharmony_ability::bridge::{BridgeContextRequirement, BridgeNapiType};
use openharmony_ability::webview::{
    controller_identity, engine_lifecycle_response, engine_scheme_pairs, expect_engine_phase,
    validate_create_request, webview_event_kind, WebviewAcknowledgement, WebviewBridgePlugin,
    WebviewControllerEvent, WebviewCreateResponse, WebviewDownloadEndEvent,
    WebviewDownloadStartRequest, WebviewDownloadStartResponse, WebviewEngineLifecycleEvent,
    WebviewEngineLifecycleResponse, WebviewEventAcknowledgement, WebviewEventKind,
    WebviewHttpsInterceptRequest, WebviewHttpsInterceptResponse, WebviewNavigationRequest,
    WebviewNavigationResponse, WebviewNewWindowRequest, WebviewNewWindowResponse,
    WebviewPageEvent, WebviewRegisterHttpsInterceptRequest, WebviewSchemeDeclaration,
    WebviewScriptRequest, WebviewScriptResponse, WebviewStringResponse, WebviewTitleChangeEvent,
    WebviewUserAgentRequest, BEFORE_ENGINE_INIT_EVENT, CONTROLLER_ATTACHED_EVENT,
    ENGINE_INITIALIZED_EVENT, SEAL_ENGINE_SCHEMES_EVENT,
};
use openharmony_ability::webview_controller::{
    native_tag_for, ControllerState, ProxyState, WebviewJavascriptProxyBuilder,
};
use openharmony_ability::webview_protocol::{validate_scheme, validate_webview_id, ProtocolState};

#[test]
fn stale_controller_removal_cannot_clear_a_replacement_tag() {
    let mut state = ControllerState::new();
    state.attach("detail", "native-a");
    state.attach("detail", "native-b");
    assert!(!state.is_current("detail", "native-a"));
    assert!(state.is_current("detail", "native-b"));
    assert!(!state.remove("detail", "native-a"));
    assert_eq!(state.native_tag("detail").as_deref(), Some("native-b"));
    assert!(state.remove("detail", "native-b"));
    assert!(state.native_tag("detail").is_none());

    state.attach("detail", "native-c");
    state.clear();
    assert!(state.native_tag("detail").is_none());
}

#[test]
fn native_tag_lookup_reports_unknown_webviews() {
    let mut state = ControllerState::new();
    state.attach("detail", "native-a");
    assert_eq!(native_tag_for(&state, "detail").unwrap(), "native-a");
    assert!(native_tag_for(&state, "main").is_err());
}

type Callback = fn(String, Vec<String>);

fn echo(_tag: String, _arguments: Vec<String>) {}

#[test]
fn proxy_builder_rejects_invalid_declarations_before_touching_arkweb() {
    let mut state: ProxyState<Callback> = ProxyState::new();
    assert!(WebviewJavascriptProxyBuilder::new("".into(), "native".into())
        .add_method("echo".into(), echo as Callback)
        .build(&mut state)
        .is_err());
    assert!(WebviewJavascriptProxyBuilder::new("web".into(), "".into())
        .add_method("echo".into(), echo as Callback)
        .build(&mut state)
        .is_err());
    assert!(WebviewJavascriptProxyBuilder::<Callback>::new("web".into(), "native".into())
        .build(&mut state)
        .is_err());
    assert!(state.declarations_for("web").is_none());
}

#[test]
fn proxy_declarations_install_on_the_attached_controller() {
    let mut state: ProxyState<Callback> = ProxyState::new();
    let tag = WebviewJavascriptProxyBuilder::new("web".into(), "native".into())
        .add_method("echo".into(), echo as Callback)
        .build(&mut state)
        .unwrap();
    assert_eq!(tag, None);
    assert!(state.on_controller_attached("web", "tag-1"));
    assert!(!state.on_controller_attached("web", "tag-1"));
    let tag = WebviewJavascriptProxyBuilder::new("web".into(), "second".into())
        .add_method("ping".into(), echo as Callback)
        .build(&mut state)
        .unwrap();
    assert_eq!(tag.as_deref(), Some("tag-1"));
    let declared = state.declarations_for("web").unwrap();
    assert_eq!(declared.len(), 2);
    assert_eq!(declared[0].object_name, "native");
    assert_eq!(declared[1].object_name, "second");
    state.on_controller_removed("web", "tag-0");
    assert!(!state.on_controller_attached("web", "tag-1"));
    state.on_controller_removed("web", "tag-1");
    assert!(state.on_controller_attached("web", "tag-1"));
}

#[test]
fn webview_id_remains_an_opaque_business_identifier() {
    assert!(validate_create_request("window 2 / detail#1", false, true).is_ok());
}

#[test]
fn create_requests_need_an_id_and_exactly_one_source() {
    assert_eq!(validate_create_request(" ", true, false).unwrap_err().reason, "WebView id must not be empty");
    assert_eq!(
        validate_create_request("webview", true, true).unwrap_err().reason,
        "WebView requires exactly one source: url or html"
    );
    assert!(validate_create_request("webview", false, false).is_err());
}

#[test]
fn controller_event_separates_business_id_from_process_native_tag() {
    let identity = controller_identity(WebviewControllerEvent {
        id: "detail".to_owned(),
        native_tag: "ohos.webview.bridge-1.demo-native.7".to_owned(),
    })
    .unwrap();
    assert_eq!(identity.0, "detail");
    assert_eq!(identity.1, "ohos.webview.bridge-1.demo-native.7");
    assert!(controller_identity(WebviewControllerEvent {
        id: "detail".to_owned(),
        native_tag: " ".to_owned(),
    })
    .is_err());
}

#[test]
fn webview_actions_have_named_napi_contracts() {
    assert_eq!(<WebviewCreateResponse as BridgeNapiType>::TYPE_NAME, "ohos.webview.CreateResponse");
    assert_eq!(<WebviewAcknowledgement as BridgeNapiType>::TYPE_NAME, "ohos.webview.Acknowledgement");
    assert_eq!(<WebviewScriptRequest as BridgeNapiType>::TYPE_NAME, "ohos.webview.ScriptRequest");
    assert_eq!(<WebviewScriptResponse as BridgeNapiType>::TYPE_NAME, "ohos.webview.ScriptResponse");
    assert_eq!(<WebviewStringResponse as BridgeNapiType>::TYPE_NAME, "ohos.webview.StringResponse");
    assert_eq!(<WebviewEngineLifecycleEvent as BridgeNapiType>::TYPE_NAME, "ohos.webview.EngineLifecycleEvent");
    assert_eq!(<WebviewSchemeDeclaration as BridgeNapiType>::TYPE_NAME, "ohos.webview.SchemeDeclaration");
    assert_eq!(<WebviewEngineLifecycleResponse as BridgeNapiType>::TYPE_NAME, "ohos.webview.EngineLifecycleResponse");
    assert_eq!(<WebviewControllerEvent as BridgeNapiType>::TYPE_NAME, "ohos.webview.ControllerEvent");
    assert_eq!(<WebviewNavigationRequest as BridgeNapiType>::TYPE_NAME, "ohos.webview.NavigationRequest");
    assert_eq!(<WebviewNavigationResponse as BridgeNapiType>::TYPE_NAME, "ohos.webview.NavigationResponse");
    assert_eq!(<WebviewDownloadStartRequest as BridgeNapiType>::TYPE_NAME, "ohos.webview.DownloadStartRequest");
    assert_eq!(<WebviewDownloadStartResponse as BridgeNapiType>::TYPE_NAME, "ohos.webview.DownloadStartResponse");
    assert_eq!(<WebviewDownloadEndEvent as BridgeNapiType>::TYPE_NAME, "ohos.webview.DownloadEndEvent");
    assert_eq!(<WebviewTitleChangeEvent as BridgeNapiType>::TYPE_NAME, "ohos.webview.TitleChangeEvent");
    assert_eq!(<WebviewEventAcknowledgement as BridgeNapiType>::TYPE_NAME, "ohos.webview.EventAcknowledgement");
    assert_eq!(<WebviewUserAgentRequest as BridgeNapiType>::TYPE_NAME, "ohos.webview.UserAgentRequest");
    assert_eq!(<WebviewNewWindowRequest as BridgeNapiType>::TYPE_NAME, "ohos.webview.NewWindowRequest");
    assert_eq!(<WebviewNewWindowResponse as BridgeNapiType>::TYPE_NAME, "ohos.webview.NewWindowResponse");
    assert_eq!(<WebviewPageEvent as BridgeNapiType>::TYPE_NAME, "ohos.webview.PageEvent");
    assert_eq!(<WebviewHttpsInterceptRequest as BridgeNapiType>::TYPE_NAME, "ohos.webview.HttpsInterceptRequest");
    assert_eq!(<WebviewHttpsInterceptResponse as BridgeNapiType>::TYPE_NAME, "ohos.webview.HttpsInterceptResponse");
    assert_eq!(
        <WebviewRegisterHttpsInterceptRequest as BridgeNapiType>::TYPE_NAME,
        "ohos.webview.RegisterHttpsInterceptRequest"
    );
}

#[test]
fn engine_events_are_ability_scoped_but_controller_events_require_ui() {
    let plugin = WebviewBridgePlugin;
    assert_eq!(plugin.required_contexts_for_main_thread_event(SEAL_ENGINE_SCHEMES_EVENT), &[BridgeContextRequirement::Ability]);
    assert_eq!(plugin.required_contexts_for_main_thread_event(BEFORE_ENGINE_INIT_EVENT), &[BridgeContextRequirement::Ability]);
    assert_eq!(plugin.required_contexts_for_main_thread_event(ENGINE_INITIALIZED_EVENT), &[BridgeContextRequirement::Ability]);
    assert_eq!(plugin.required_contexts_for_main_thread_event(CONTROLLER_ATTACHED_EVENT), &[BridgeContextRequirement::UiContext]);
}

#[test]
fn expect_engine_phase_matches() {
    let event = WebviewEngineLifecycleEvent { phase: "before-init".to_string(), schemes: vec![] };
    assert!(expect_engine_phase(&event, "before-init").is_ok());
}

#[test]
fn expect_engine_phase_mismatch_returns_error() {
    let event = WebviewEngineLifecycleEvent { phase: "initialized".to_string(), schemes: vec![] };
    assert!(expect_engine_phase(&event, "before-init").is_err());
    assert_eq!(
        expect_engine_phase(&event, "before-init").unwrap_err().reason,
        "Invalid WebView engine lifecycle phase 'initialized', expected 'before-init'"
    );
}

#[test]
fn engine_scheme_pairs_extracts_scheme_and_options() {
    let event = WebviewEngineLifecycleEvent {
        phase: "before-init".to_string(),
        schemes: vec![
            WebviewSchemeDeclaration { scheme: "tauri".to_string(), options: 1 },
            WebviewSchemeDeclaration { scheme: "myapp".to_string(), options: 2 },
        ],
    };
    let pairs = engine_scheme_pairs(&event);
    assert_eq!(pairs.len(), 2);
    assert_eq!(pairs[0], ("tauri".to_string(), 1u32));
    assert_eq!(pairs[1], ("myapp".to_string(), 2u32));
}

#[test]
fn engine_scheme_pairs_empty_schemes() {
    let event = WebviewEngineLifecycleEvent { phase: "before-init".to_string(), schemes: vec![] };
    assert!(engine_scheme_pairs(&event).is_empty());
}

#[test]
fn engine_lifecycle_response_reports_the_declared_schemes() {
    let r = engine_lifecycle_response(vec![("asset".to_string(), 7)]);
    assert!(r.accepted);
    assert_eq!(r.schemes.len(), 1);
    assert_eq!(r.schemes[0].scheme, "asset");
    assert_eq!(r.schemes[0].options, 7);
}

#[test]
fn webview_event_names_are_decoded() {
    assert_eq!(webview_event_kind("controller-attached").unwrap(), WebviewEventKind::ControllerAttached);
    assert_eq!(webview_event_kind("print-state").unwrap(), WebviewEventKind::PrintState);
    assert_eq!(
        webview_event_kind("nope").unwrap_err().reason,
        "Unsupported ohos.webview main-thread event 'nope'"
    );
}

#[test]
fn protocol_declarations_validate_scheme_and_webview_tag_before_arkweb() {
    assert!(validate_scheme("asset+v1").is_ok());
    assert!(validate_scheme("1asset").is_err());
    assert!(validate_webview_id("article-view").is_ok());
    assert!(validate_webview_id(" ").is_err());
    assert!(validate_webview_id("article\0view").is_err());
}

#[test]
fn per_controller_installation_is_reserved_only_once() {
    let mut state: ProtocolState<()> = ProtocolState::new();
    assert!(state.reserve_installation("native-tag-a", "asset"));
    assert!(!state.reserve_installation("native-tag-a", "asset"));
    assert!(state.reserve_installation("native-tag-b", "asset"));

    // The installation on native-tag-a completes while that controller is attached.
    state.register("asset", 7).unwrap();
    state.mark_engine_initialized(&vec![("asset".to_owned(), 7)]).unwrap();
    state.on_controller_attached("web", "native-tag-a").unwrap();
    state.finish_installation("web", "native-tag-a", "asset", true);
    state.finish_installation("other", "native-tag-b", "asset", false);
    assert!(!state.reserve_installation("native-tag-a", "asset"));
    assert!(state.reserve_installation("native-tag-b", "asset"));
}

#[test]
fn identical_scheme_registration_is_idempotent_after_engine_initialization() {
    let mut state: ProtocolState<()> = ProtocolState::new();
    assert_eq!(state.register("asset", 7).unwrap(), true);
    state.mark_engine_initialized(&vec![("asset".to_owned(), 7)]).unwrap();

    assert!(!state.scheme_registration_needed("asset", 7).unwrap());
    assert!(state.scheme_registration_needed("asset", 8).is_err());
    assert!(state.scheme_registration_needed("late", 7).is_err());
}

#[test]
fn late_module_can_join_only_with_process_registered_schemes() {
    let mut state: ProtocolState<()> = ProtocolState::new();
    state.register("asset", 7).unwrap();
    assert!(state.ensure_schemes_registered(&vec![("asset".to_owned(), 7)]).is_ok());
    assert!(state.ensure_schemes_registered(&vec![("asset".to_owned(), 8)]).is_err());
    assert!(state.ensure_schemes_registered(&vec![]).is_err());
}

#[test]
fn scheme_registration_closes_once_sealed() {
    let mut state: ProtocolState<()> = ProtocolState::new();
    state.register("asset", 7).unwrap();
    assert!(state.flush_before_engine_init().is_err());
    state.seal_before_engine_init();
    assert!(state.register("late", 1).is_err());
    assert_eq!(state.flush_before_engine_init().unwrap(), true);
    assert_eq!(state.flush_before_engine_init().unwrap(), false);
    let declared = state.declared_schemes();
    assert_eq!(declared, vec![("asset".to_owned(), 7)]);
}

#[test]
fn handlers_bind_once_and_install_on_attached_controllers() {
    let mut state: ProtocolState<u8> = ProtocolState::new();
    state.register("asset", 7).unwrap();
    assert!(state.bind("web", "undeclared", 1).is_err());
    assert_eq!(state.bind("web", "asset", 1).unwrap(), None);
    assert_eq!(state.bind("web", "asset", 2).unwrap(), None);
    assert_eq!(state.declaration("web", "asset"), Some(&1));
    assert!(state.on_controller_attached("web", "tag-1").is_err());
    state.mark_engine_initialized(&vec![("asset".to_owned(), 7)]).unwrap();
    assert_eq!(state.on_controller_attached("web", "tag-1").unwrap(), vec!["asset".to_owned()]);
    assert_eq!(state.on_controller_attached("web", "tag-1").unwrap(), Vec::<String>::new());
    state.on_controller_removed("web", "tag-1");
    assert_eq!(state.on_controller_attached("web", "tag-2").unwrap(), vec!["asset".to_owned()]);
    state.clear_attached();
    assert_eq!(state.on_controller_attached("web", "tag-2").unwrap(), vec!["asset".to_owned()]);
}

#[test]
fn plugin_answers_are_checked() {
    assert_eq!(created_webview_id("detail", WebviewCreateResponse { id: "detail".into() }).unwrap(), "detail");
    assert_eq!(
        created_webview_id("detail", WebviewCreateResponse { id: "other".into() }).unwrap_err().reason,
        "WebView plugin returned a mismatched controller ID"
    );
    assert_eq!(current_url(WebviewStringResponse { value: Some("https://a".into()) }).unwrap(), "https://a");
    assert_eq!(
        current_url(WebviewStringResponse { value: None }).unwrap_err().reason,
        "WebView controller returned no current URL"
    );
    assert_eq!(
        cookie_string(WebviewStringResponse { value: None }).unwrap_err().reason,
        "WebView cookie manager returned no cookie string"
    );
    assert!(pdf_result(WebviewPrintResponse { success: true }).is_ok());
    assert_eq!(
        pdf_result(WebviewPrintResponse { success: false }).unwrap_err().reason,
        "WebView create-pdf failed (API 14+ required or page not loaded)"
    );
    let snap = WebviewSnapshotResponse { success: true, width: 2, height: 3, rgba_len: 24 };
    assert_eq!(snapshot_result(snap).unwrap().rgba_len, 24);
    assert_eq!(
        snapshot_result(WebviewSnapshotResponse { success: false, ..snap }).unwrap_err().reason,
        "WebView web-page-snapshot failed (page not loaded or snapshot error)"
    );
    assert_eq!(webview_build_target(Some("w".into()), None).unwrap(), ("w".to_string(), 0));
    assert_eq!(webview_build_target(Some("w".into()), Some(3)).unwrap(), ("w".to_string(), 3));
    assert_eq!(webview_build_target(None, Some(3)).unwrap_err().reason, "WebTag should be provided");
}

#[test]
fn the_first_unregistered_scheme_in_name_order_is_reported() {
    let mut state: ProtocolState<()> = ProtocolState::new();
    state.register("zeta", 1).unwrap();
    state.register("alpha", 2).unwrap();
    state.register("beta", 3).unwrap();
    let err = state.ensure_schemes_registered(&vec![("alpha".to_owned(), 2)]).unwrap_err();
    assert_eq!(
        err.reason,
        "WebView scheme 'beta' from this native module was not registered with matching options before the process-global engine initialized"
    );
    let declared = state.declared_schemes();
    assert_eq!(
        declared,
        vec![("alpha".to_owned(), 2), ("beta".to_owned(), 3), ("zeta".to_owned(), 1)]
    );
}
