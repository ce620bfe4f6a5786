use openharmony_ability::demo::{
    demo_login_request, inspect_summary, main_thread_login_commit_count, LoginCommits,
    MainThreadInspectResponse,
};
use openharmony_ability::lifecycle::PluginLifecycleEvent;
use openharmony_ability::webview::{
    WebviewControllerEvent, WebviewEngineLifecycleEvent, WebviewEventKind, WebviewSchemeDeclaration,
};
use openharmony_ability::bridge::BridgeError;
use openharmony_ability::webview_engine::{engine_phase_of, AttachPlan, EnginePhase, WebviewState};

fn phase_event(phase: &str, schemes: Vec<(&str, u32)>) -> WebviewEngineLifecycleEvent {
    WebviewEngineLifecycleEvent {
        phase: phase.to_string(),
        schemes: schemes
            .into_iter()
            .map(|(s, o)| WebviewSchemeDeclaration { scheme: s.to_string(), options: o })
            .collect(),
    }
}

fn controller(id: &str, tag: &str) -> WebviewControllerEvent {
    WebviewControllerEvent { id: id.to_string(), native_tag: tag.to_string() }
}

fn attach_error(r: Result<AttachPlan, BridgeError>) -> String {
    match r {
        Err(e) => e.reason,
        Ok(_) => panic!("the controller was attached"),
    }
}

#[test]
fn engine_events_map_to_phases() {
    assert_eq!(engine_phase_of(WebviewEventKind::SealEngineSchemes), Some(EnginePhase::Seal));
    assert_eq!(engine_phase_of(WebviewEventKind::BeforeEngineInit), Some(EnginePhase::BeforeInit));
    assert_eq!(engine_phase_of(WebviewEventKind::EngineInitialized), Some(EnginePhase::Initialized));
    assert_eq!(engine_phase_of(WebviewEventKind::PageEnd), None);
}

#[test]
fn the_engine_starts_through_its_phases() {
    let mut state: WebviewState<u8, u8> = WebviewState::new();
    state.protocols.register("asset", 7).unwrap();
    assert!(state.engine_event(EnginePhase::Seal, &phase_event("before-engine-init", vec![])).is_err());
    let (resp, run) = state.engine_event(EnginePhase::Seal, &phase_event("seal-engine-schemes", vec![])).unwrap();
    assert!(resp.accepted && !run);
    assert_eq!(resp.schemes.len(), 1);
    let (_, run) = state
        .engine_event(EnginePhase::BeforeInit, &phase_event("before-engine-init", vec![("asset", 7)]))
        .unwrap();
    assert!(run);
    let (_, run) = state
        .engine_event(EnginePhase::BeforeInit, &phase_event("before-engine-init", vec![("asset", 7)]))
        .unwrap();
    assert!(!run);
    assert!(state
        .engine_event(EnginePhase::Initialized, &phase_event("engine-initialized", vec![]))
        .is_err());
    state
        .engine_event(EnginePhase::Initialized, &phase_event("engine-initialized", vec![("asset", 7)]))
        .unwrap();
    assert!(state.controller_attached(controller("w", "t")).is_ok());
}

#[test]
fn attached_controllers_get_a_plan_and_stale_removals_are_ignored() {
    let mut state: WebviewState<u8, u8> = WebviewState::new();
    state.protocols.register("asset", 7).unwrap();
    state.protocols.bind("web", "asset", 1).unwrap();
    state
        .engine_event(EnginePhase::Initialized, &phase_event("engine-initialized", vec![("asset", 7)]))
        .unwrap();
    assert!(state.controller_attached(controller(" ", "t")).is_err());
    let plan = state.controller_attached(controller("web", "tag-1")).unwrap();
    assert_eq!(plan.webview_id, "web");
    assert_eq!(plan.native_tag, "tag-1");
    assert_eq!(plan.schemes, vec!["asset".to_string()]);
    assert!(plan.install_proxies);
    let plan = state.controller_attached(controller("web", "tag-2")).unwrap();
    assert_eq!(plan.schemes, vec!["asset".to_string()]);
    state.controller_removed(controller("web", "tag-1")).unwrap();
    assert_eq!(state.controllers.native_tag("web").as_deref(), Some("tag-2"));
    state.on_lifecycle(&PluginLifecycleEvent::WindowStageCreated { window_id: 0 });
    assert_eq!(state.controllers.native_tag("web").as_deref(), Some("tag-2"));
    state.on_lifecycle(&PluginLifecycleEvent::UiContextDestroyed);
    assert!(state.controllers.native_tag("web").is_none());
    state.controller_attached(controller("web", "tag-3")).unwrap();
    state.on_lifecycle(&PluginLifecycleEvent::AbilityDestroyed { window_id: 0 });
    assert!(state.controllers.native_tag("web").is_none());
}

#[test]
fn a_reattached_controller_gets_only_what_it_lacks() {
    let mut state: WebviewState<u8, u8> = WebviewState::new();
    state.protocols.register("asset", 7).unwrap();
    state.protocols.bind("web", "asset", 1).unwrap();
    state
        .engine_event(EnginePhase::Initialized, &phase_event("engine-initialized", vec![("asset", 7)]))
        .unwrap();
    let plan = state.controller_attached(controller("web", "tag-1")).unwrap();
    assert_eq!(plan.schemes, vec!["asset".to_string()]);
    assert!(plan.install_proxies);
    let again = state.controller_attached(controller("web", "tag-1")).unwrap();
    assert!(again.schemes.is_empty());
    assert!(!again.install_proxies);
    state.controller_removed(controller("web", "tag-1")).unwrap();
    let plan = state.controller_attached(controller("web", "tag-1")).unwrap();
    assert_eq!(plan.schemes, vec!["asset".to_string()]);
    assert!(plan.install_proxies);
    state.on_lifecycle(&PluginLifecycleEvent::UiContextDestroyed);
    let plan = state.controller_attached(controller("web", "tag-1")).unwrap();
    assert_eq!(plan.schemes, vec!["asset".to_string()]);
    assert!(plan.install_proxies);
}

#[test]
fn refused_controller_events_leave_the_registries_alone() {
    let mut state: WebviewState<u8, u8> = WebviewState::new();
    state.protocols.register("asset", 7).unwrap();
    state.protocols.bind("web", "asset", 1).unwrap();
    assert_eq!(
        attach_error(state.controller_attached(controller("web", "tag-1"))),
        "WebView custom protocol handler cannot attach before Web engine initialization"
    );
    state
        .engine_event(EnginePhase::Initialized, &phase_event("engine-initialized", vec![("asset", 7)]))
        .unwrap();
    let plan = state.controller_attached(controller("web", "tag-1")).unwrap();
    assert_eq!(plan.schemes, vec!["asset".to_string()]);
    assert!(plan.install_proxies);
    assert_eq!(
        attach_error(state.controller_attached(controller("web", "  "))),
        "WebView controller event nativeTag must not be empty"
    );
    assert_eq!(
        state.controller_removed(controller("", "tag-1")).unwrap_err().reason,
        "WebView controller event id must not be empty"
    );
    assert_eq!(state.controllers.native_tag("web").as_deref(), Some("tag-1"));
    let again = state.controller_attached(controller("web", "tag-1")).unwrap();
    assert!(again.schemes.is_empty());
    assert!(!again.install_proxies);
}

#[test]
fn demo_login_counts_commits_and_builds_its_request() {
    let mut commits = LoginCommits::new();
    assert_eq!(main_thread_login_commit_count(&commits), 0);
    commits.record_commit();
    commits.record_commit();
    assert_eq!(main_thread_login_commit_count(&commits), 2);
    let req = demo_login_request();
    assert_eq!(req.provider, "demo");
    assert_eq!(req.scopes, vec!["profile".to_string(), "email".to_string()]);
}

#[test]
fn inspect_summary_lists_the_session() {
    let r = MainThreadInspectResponse {
        session_id: "s1".into(),
        ui_context_ready: true,
        execution: "main".into(),
    };
    assert_eq!(inspect_summary(&r), "session=s1, uiContextReady=true, execution=main");
}

#[test]
fn engine_answers_list_declared_schemes_in_name_order() {
    let mut state: WebviewState<u8, u8> = WebviewState::new();
    state.protocols.register("zeta", 1).unwrap();
    state.protocols.register("asset", 7).unwrap();
    state.protocols.register("media", 3).unwrap();
    let (resp, _) = state.engine_event(EnginePhase::Seal, &phase_event("seal-engine-schemes", vec![])).unwrap();
    let names: Vec<(&str, u32)> = resp.schemes.iter().map(|d| (d.scheme.as_str(), d.options)).collect();
    assert_eq!(names, vec![("asset", 7), ("media", 3), ("zeta", 1)]);
}
