use openharmony_ability::bridge::{BridgeContextRequirement, BridgeNapiType, BridgePlugin};
use openharmony_ability::statusbar::{
    add_request, icon_click, menu_click, statusbar_event_kind, QuickOperation,
    StatusBarAcknowledgement, StatusBarAddRequest, StatusBarBridgePlugin, StatusBarClickEvent,
    StatusBarEventKind, StatusBarIcon, StatusBarIconClickEvent, StatusBarMenuClickEvent,
    StatusBarPredefinedRequest, StatusBarRemoveRequest, StatusBarUpdateIconRequest,
    StatusBarUpdateMenuRequest, StatusBarUpdateTipsRequest,
};

#[test]
fn statusbar_plugin_targets_ability_context() {
    assert_eq!(StatusBarBridgePlugin::ID, "ohos.statusbar");
    assert_eq!(StatusBarBridgePlugin::required_contexts(), &[BridgeContextRequirement::Ability]);
}

#[test]
fn add_request_type_name_is_stable() {
    assert_eq!(<StatusBarAddRequest as BridgeNapiType>::TYPE_NAME, "ohos.statusbar.AddRequest");
    assert_eq!(<StatusBarRemoveRequest as BridgeNapiType>::TYPE_NAME, "ohos.statusbar.RemoveRequest");
    assert_eq!(<StatusBarUpdateIconRequest as BridgeNapiType>::TYPE_NAME, "ohos.statusbar.UpdateIconRequest");
    assert_eq!(<StatusBarUpdateMenuRequest as BridgeNapiType>::TYPE_NAME, "ohos.statusbar.UpdateMenuRequest");
    assert_eq!(<StatusBarUpdateTipsRequest as BridgeNapiType>::TYPE_NAME, "ohos.statusbar.UpdateTipsRequest");
    assert_eq!(<StatusBarPredefinedRequest as BridgeNapiType>::TYPE_NAME, "ohos.statusbar.PredefinedRequest");
    assert_eq!(<StatusBarAcknowledgement as BridgeNapiType>::TYPE_NAME, "ohos.statusbar.Acknowledgement");
}

#[test]
fn event_type_names_are_stable() {
    assert_eq!(<StatusBarIconClickEvent as BridgeNapiType>::TYPE_NAME, "ohos.statusbar.IconClickEvent");
    assert_eq!(<StatusBarMenuClickEvent as BridgeNapiType>::TYPE_NAME, "ohos.statusbar.MenuClickEvent");
}

#[test]
fn add_request_from_status_bar_item() {
    let icon = StatusBarIcon { white: Some(vec![1, 2, 3, 4]), black: Some(vec![5, 6, 7, 8]), size: 16 };
    let quick_operation = QuickOperation {
        ability_name: "MainAbility".to_string(),
        title: "Test".to_string(),
        height: 300,
        module_name: Some("entry".to_string()),
        loading_status: Some(true),
    };
    let menu_json = Some(r#"[[{"title":"Item","menuCode":"0"}]]"#.to_string());
    let req = add_request(icon, quick_operation, menu_json, Some("hello".to_string()));
    assert_eq!(req.white_icon, Some(vec![1, 2, 3, 4]));
    assert_eq!(req.black_icon, Some(vec![5, 6, 7, 8]));
    assert_eq!(req.icon_size, 16);
    assert_eq!(req.ability_name, "MainAbility");
    assert_eq!(req.title, "Test");
    assert_eq!(req.height, 300);
    assert_eq!(req.module_name, Some("entry".to_string()));
    assert_eq!(req.loading_status, Some(true));
    assert!(req.menu_json.is_some());
    assert_eq!(req.hover_tips, Some("hello".to_string()));
}

#[test]
fn update_icon_request_from_status_bar_icon() {
    let icon = StatusBarIcon { white: Some(vec![255; 64]), black: None, size: 4 };
    let req: StatusBarUpdateIconRequest = icon.into();
    assert_eq!(req.white_icon, Some(vec![255; 64]));
    assert_eq!(req.black_icon, None);
    assert_eq!(req.icon_size, 4);
}

#[test]
fn quick_operation_defaults_to_the_entry_ability() {
    let q = QuickOperation::default();
    assert_eq!(q.ability_name, "EntryAbility");
    assert_eq!(q.title, "App");
    assert_eq!(q.height, 200);
    assert_eq!(q.module_name, Some("entry".to_string()));
    assert_eq!(q.loading_status, None);
}

#[test]
fn statusbar_events_are_forwarded() {
    assert_eq!(statusbar_event_kind("icon-click").unwrap(), StatusBarEventKind::IconClick);
    assert_eq!(statusbar_event_kind("menu-click").unwrap(), StatusBarEventKind::MenuClick);
    assert_eq!(
        statusbar_event_kind("hover").unwrap_err().reason,
        "Unsupported ohos.statusbar main-thread event 'hover'"
    );
    match icon_click(StatusBarIconClickEvent { click_type: "leftClick".into() }) {
        StatusBarClickEvent::IconClick { click_type } => assert_eq!(click_type, "leftClick"),
        _ => panic!("expected IconClick"),
    }
    match menu_click(StatusBarMenuClickEvent { menu_code: "7".into() }) {
        StatusBarClickEvent::MenuClick { menu_code } => assert_eq!(menu_code, "7"),
        _ => panic!("expected MenuClick"),
    }
    assert_eq!(
        StatusBarAcknowledgement { accepted: false }.ensure().unwrap_err().reason,
        "StatusBar plugin rejected the requested operation"
    );
}
