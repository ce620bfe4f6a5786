use openharmony_ability::registry::{
    drain_pending_window_closes, drain_pending_window_status, get_last_ui_ability_window_id,
    is_continuation_restore, is_ui_ability_stage_ready, next_window_id, notify_window_close,
    notify_window_status, peek_continue_snapshot, register_pending_ui_ability,
    register_ui_ability_stage, register_window_label, remove_want_uri_storage,
    store_continuation, store_continue_snapshot, store_initial_want_uri, store_want_parameters,
    take_continuation_data, take_initial_want_uri, take_initial_want_uri_for_window,
    take_want_parameters, take_want_parameters_for_window, unregister_pending_ui_ability,
    unregister_ui_ability_state, unregister_window_label, window_id_for_label, ProcessRegistry,
};
use openharmony_ability::app_state::OpenHarmonyAppInner;
use openharmony_ability::geometry::Rect;

#[test]
fn test_continue_snapshot_peek_does_not_drain() {
    let mut reg = ProcessRegistry::new();
    store_continue_snapshot(&mut reg, r#"{"route":"/editor","draft":42}"#);
    assert_eq!(peek_continue_snapshot(&reg), r#"{"route":"/editor","draft":42}"#);
    assert_eq!(peek_continue_snapshot(&reg), r#"{"route":"/editor","draft":42}"#);
    store_continue_snapshot(&mut reg, "");
}

#[test]
fn test_continue_snapshot_overwrites() {
    let mut reg = ProcessRegistry::new();
    store_continue_snapshot(&mut reg, "first");
    store_continue_snapshot(&mut reg, "second");
    assert_eq!(peek_continue_snapshot(&reg), "second");
    store_continue_snapshot(&mut reg, "");
}

#[test]
fn test_continue_snapshot_empty_clears() {
    let mut reg = ProcessRegistry::new();
    store_continue_snapshot(&mut reg, "value");
    store_continue_snapshot(&mut reg, "");
    assert_eq!(peek_continue_snapshot(&reg), "");
}

#[test]
fn test_want_parameters_store_take_overwrite() {
    let mut reg = ProcessRegistry::new();
    store_want_parameters(&mut reg, 0, r#"{"key":"value","num":42}"#);
    assert_eq!(take_want_parameters_for_window(&mut reg, 0), r#"{"key":"value","num":42}"#);

    store_want_parameters(&mut reg, 0, r#"{"source":"widget"}"#);
    assert_eq!(take_want_parameters_for_window(&mut reg, 0), r#"{"source":"widget"}"#);
    assert_eq!(take_want_parameters_for_window(&mut reg, 0), "");

    assert_eq!(take_want_parameters(&mut reg), "");

    store_want_parameters(&mut reg, 0, r#"{"first":1}"#);
    store_want_parameters(&mut reg, 0, r#"{"second":2}"#);
    assert_eq!(take_want_parameters_for_window(&mut reg, 0), r#"{"second":2}"#);
}

#[test]
fn want_parameters_are_isolated_per_window() {
    let mut reg = ProcessRegistry::new();
    store_want_parameters(&mut reg, 3, r#"{"window":3}"#);
    store_want_parameters(&mut reg, 4, r#"{"window":4}"#);
    assert_eq!(take_want_parameters_for_window(&mut reg, 4), r#"{"window":4}"#);
    assert_eq!(take_want_parameters_for_window(&mut reg, 3), r#"{"window":3}"#);
    assert_eq!(take_want_parameters_for_window(&mut reg, 4), "");
}

#[test]
fn initial_want_uri_is_isolated_per_window() {
    let mut reg = ProcessRegistry::new();
    store_initial_want_uri(&mut reg, 0, "app://primary");
    store_initial_want_uri(&mut reg, 2, "app://second");
    assert_eq!(take_initial_want_uri_for_window(&mut reg, 2), "app://second");
    assert_eq!(take_initial_want_uri_for_window(&mut reg, 0), "app://primary");
    assert_eq!(take_initial_want_uri_for_window(&mut reg, 0), "");
}

#[test]
fn primary_window_wrappers_use_key_zero() {
    let mut reg = ProcessRegistry::new();
    store_initial_want_uri(&mut reg, 0, "app://primary");
    store_initial_want_uri(&mut reg, 1, "app://other");
    assert_eq!(take_initial_want_uri(&mut reg), "app://primary");
    assert_eq!(take_initial_want_uri(&mut reg), "");
    assert_eq!(take_initial_want_uri_for_window(&mut reg, 1), "app://other");
}

#[test]
fn label_registry_resolves_registered_labels() {
    let mut reg = ProcessRegistry::new();
    register_window_label(&mut reg, "main", 0);
    register_window_label(&mut reg, "secondary", 1);
    assert_eq!(window_id_for_label(&reg, "secondary"), 1);
    assert_eq!(window_id_for_label(&reg, "main"), 0);
    assert_eq!(window_id_for_label(&reg, "never-registered"), 0);
}

#[test]
fn label_reregistration_resolves_to_the_last_window() {
    let mut reg = ProcessRegistry::new();
    register_window_label(&mut reg, "detail", 3);
    register_window_label(&mut reg, "detail", 9);
    assert_eq!(window_id_for_label(&reg, "detail"), 9);
}

#[test]
fn d13_teardown_drops_per_window_registry_entries() {
    let mut reg = ProcessRegistry::new();
    register_pending_ui_ability(&mut reg, 11);
    assert!(!is_ui_ability_stage_ready(&reg, 11));
    assert_eq!(unregister_pending_ui_ability(&mut reg, 11), 0);
    assert!(is_ui_ability_stage_ready(&reg, 11));
    assert_eq!(unregister_pending_ui_ability(&mut reg, 404), 0);

    store_want_parameters(&mut reg, 11, "{}");
    store_initial_want_uri(&mut reg, 11, "tauri://never-read");
    remove_want_uri_storage(&mut reg, 11);
    assert_eq!(take_want_parameters_for_window(&mut reg, 11), "");
    assert_eq!(take_initial_want_uri_for_window(&mut reg, 11), "");

    register_window_label(&mut reg, "d13-spawned", 11);
    register_window_label(&mut reg, "d13-other", 12);
    unregister_window_label(&mut reg, 11);
    assert_eq!(window_id_for_label(&reg, "d13-spawned"), 0);
    assert_eq!(window_id_for_label(&reg, "d13-other"), 12);
}

#[test]
fn ui_ability_stage_handshake_reports_readiness() {
    let mut reg = ProcessRegistry::new();
    assert_eq!(get_last_ui_ability_window_id(&reg), -1);
    register_pending_ui_ability(&mut reg, 5);
    register_pending_ui_ability(&mut reg, 6);
    assert!(!is_ui_ability_stage_ready(&reg, 5));
    register_ui_ability_stage(&mut reg, 5);
    assert!(is_ui_ability_stage_ready(&reg, 5));
    assert!(!is_ui_ability_stage_ready(&reg, 6));
    assert_eq!(get_last_ui_ability_window_id(&reg), 5);
    assert_eq!(unregister_pending_ui_ability(&mut reg, 6), 0);
}

#[test]
fn window_ids_are_handed_out_in_order() {
    let mut reg = ProcessRegistry::new();
    assert_eq!(next_window_id(&mut reg), 1);
    assert_eq!(next_window_id(&mut reg), 2);
    assert_eq!(next_window_id(&mut reg), 3);
}

#[test]
fn window_notifications_drain_in_order() {
    let mut reg = ProcessRegistry::new();
    notify_window_close(&mut reg, 3);
    notify_window_close(&mut reg, 1);
    notify_window_status(&mut reg, 3, 2);
    notify_window_status(&mut reg, 4, 1);
    assert_eq!(drain_pending_window_closes(&mut reg), vec![3, 1]);
    assert_eq!(drain_pending_window_closes(&mut reg), Vec::<i32>::new());
    assert_eq!(drain_pending_window_status(&mut reg), vec![(3, 2), (4, 1)]);
    assert_eq!(drain_pending_window_status(&mut reg), Vec::<(i32, i32)>::new());
}

#[test]
fn process_continuation_signal_round_trips() {
    let mut reg = ProcessRegistry::new();
    store_continuation(&mut reg, true, r#"{"a":1}"#);
    assert!(is_continuation_restore(&reg));
    assert_eq!(take_continuation_data(&mut reg), r#"{"a":1}"#);
    assert_eq!(take_continuation_data(&mut reg), "");
    assert!(is_continuation_restore(&reg));
    store_continuation(&mut reg, false, r#"{"b":2}"#);
    assert!(!is_continuation_restore(&reg));
    assert_eq!(take_continuation_data(&mut reg), "");
}

#[test]
fn unregistering_a_ui_ability_drops_all_of_its_state() {
    let mut reg = ProcessRegistry::new();
    let mut app: OpenHarmonyAppInner<(), ()> = OpenHarmonyAppInner::new(0);
    let rect = Rect { top: 1, left: 2, width: 3, height: 4 };
    app.set_window_rect(8, rect);
    app.set_window_rect(9, rect);
    register_pending_ui_ability(&mut reg, 8);
    store_want_parameters(&mut reg, 8, "{}");
    store_initial_want_uri(&mut reg, 8, "app://x");
    register_window_label(&mut reg, "eight", 8);
    register_window_label(&mut reg, "nine", 9);
    unregister_ui_ability_state(&mut reg, &mut app, 8);
    assert!(is_ui_ability_stage_ready(&reg, 8));
    assert_eq!(take_want_parameters_for_window(&mut reg, 8), "");
    assert_eq!(take_initial_want_uri_for_window(&mut reg, 8), "");
    assert_eq!(window_id_for_label(&reg, "eight"), 0);
    assert_eq!(window_id_for_label(&reg, "nine"), 9);
    assert_eq!(app.window_rect_for(8), Rect::default());
    assert_eq!(app.window_rect_for(9), rect);
}
