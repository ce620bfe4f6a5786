use openharmony_ability::bridge::{BridgeContextRequirement, BridgeNapiType, BridgePlugin};
use openharmony_ability::menu::{
    menu_main_thread_event, set_menu_json, AboutMetadataData, MenuAcknowledgement,
    MenuBridgePlugin, MenuClickEvent, MenuItemData, MenuPredefinedRequest,
    MenuSetMenubarRequest, MenuSetVisibleRequest, MenuState,
};

#[test]
fn menu_plugin_targets_ui_context() {
    assert_eq!(MenuBridgePlugin::ID, "ohos.menu");
    assert_eq!(MenuBridgePlugin::required_contexts(), &[BridgeContextRequirement::UiContext]);
}

#[test]
fn request_type_names_are_stable() {
    assert_eq!(<MenuSetMenubarRequest as BridgeNapiType>::TYPE_NAME, "ohos.menu.SetMenubarRequest");
    assert_eq!(<MenuSetVisibleRequest as BridgeNapiType>::TYPE_NAME, "ohos.menu.SetVisibleRequest");
    assert_eq!(<MenuPredefinedRequest as BridgeNapiType>::TYPE_NAME, "ohos.menu.PredefinedRequest");
    assert_eq!(<MenuAcknowledgement as BridgeNapiType>::TYPE_NAME, "ohos.menu.Acknowledgement");
    assert_eq!(<MenuClickEvent as BridgeNapiType>::TYPE_NAME, "ohos.menu.MenuClickEvent");
}

#[test]
fn menubar_shows_until_hidden_or_emptied() {
    let mut state = MenuState::new();
    assert!(state.is_menubar_visible("main"));
    let accept = MenuAcknowledgement { accepted: true };
    let reject = MenuAcknowledgement { accepted: false };

    state.menubar_set(&set_menu_json("[]".into(), "main".into()), accept).unwrap();
    assert!(!state.is_menubar_visible("main"));
    assert!(state.is_menubar_visible("other"));

    state
        .menubar_set(&set_menu_json(r#"[{"type":"submenu"}]"#.into(), "main".into()), accept)
        .unwrap();
    assert!(state.is_menubar_visible("main"));

    let hide = MenuSetVisibleRequest { visible: false, window_id: "main".into() };
    assert_eq!(
        state.menubar_visibility_set(&hide, reject).unwrap_err().reason,
        "Menu plugin rejected the requested operation"
    );
    assert!(state.is_menubar_visible("main"));
    state.menubar_visibility_set(&hide, accept).unwrap();
    assert!(!state.is_menubar_visible("main"));
}

#[test]
fn menu_clicks_forward_the_menu_id() {
    let click = MenuClickEvent { menu_id: "test_id".into(), window_id: Some("main".into()) };
    assert_eq!(menu_main_thread_event("menu-click", click.clone()).unwrap(), "test_id");
    assert_eq!(
        menu_main_thread_event("other", click).unwrap_err().reason,
        "Unsupported ohos.menu main-thread event 'other'"
    );
}

#[test]
fn menu_item_data_holds_its_fields() {
    let data = MenuItemData {
        id: "item1".to_string(),
        item_type: "item".to_string(),
        text: Some("Open".to_string()),
        enabled: Some(true),
        accelerator: Some("Ctrl+O".to_string()),
        predefined_type: None,
        checked: None,
        icon: None,
        native_icon: None,
        submenu_items: None,
        about_metadata: Some(AboutMetadataData {
            name: Some("App".to_string()),
            version: Some("2.0".to_string()),
            short_version: Some("2".to_string()),
            authors: Some(vec!["A".to_string(), "B".to_string()]),
            comments: Some("test".to_string()),
            copyright: Some("C".to_string()),
            license: Some("MIT".to_string()),
            website: Some("https://example.com".to_string()),
        }),
    };
    assert_eq!(data.accelerator.as_deref(), Some("Ctrl+O"));
    assert_eq!(data.about_metadata.unwrap().license.as_deref(), Some("MIT"));
}
