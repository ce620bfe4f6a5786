use openharmony_ability::cursor::{
    check_cursor_grab, cursor_grab_outcome, set_cursor_grab, CursorGrabError,
    WindowManagerOutcome,
};
use openharmony_ability::input::{hover_action, InputSourceType, MouseAction};

#[test]
fn input_source_type_from_i32_covers_all_values() {
    assert!(matches!(InputSourceType::from(1), InputSourceType::Mouse));
    assert!(matches!(InputSourceType::from(2), InputSourceType::TouchScreen));
    assert!(matches!(InputSourceType::from(3), InputSourceType::Touchpad));
    assert!(matches!(InputSourceType::from(4), InputSourceType::Joystick));
    assert!(matches!(InputSourceType::from(5), InputSourceType::Keyboard));
    assert!(matches!(InputSourceType::from(99), InputSourceType::Unknown));
    assert!(matches!(InputSourceType::from(0), InputSourceType::Unknown));
}

#[test]
fn mouse_action_from_u32_covers_all_values() {
    assert!(matches!(MouseAction::from(0u32), MouseAction::NoAction));
    assert!(matches!(MouseAction::from(1u32), MouseAction::Press));
    assert!(matches!(MouseAction::from(2u32), MouseAction::Release));
    assert!(matches!(MouseAction::from(3u32), MouseAction::Move));
    assert!(matches!(MouseAction::from(99u32), MouseAction::NoAction));
}

#[test]
fn hover_events_carry_enter_leave_action() {
    assert!(matches!(hover_action(true), MouseAction::HoverEnter));
    assert!(matches!(hover_action(false), MouseAction::HoverLeave));
}

fn never_called(_: i32, _: bool) -> WindowManagerOutcome {
    panic!("the window manager must not be called")
}

fn display_covers_all_variants() {
    assert_eq!(
        CursorGrabError::OsCode(1300002).message(0),
        "window manager error code 1300002"
    );
    assert_eq!(
        CursorGrabError::Bridge("lookup failed".into()).message(0),
        "cursor grab bridge failure: lookup failed"
    );
    let not_supported = CursorGrabError::NotSupported.message(0);
    assert!(
        not_supported.starts_with("cursor lock not supported on this device"),
        "unexpected NotSupported message: {not_supported}"
    );
}

fn invalid_window_id_is_a_bridge_error() {
    assert!(matches!(
        set_cursor_grab(0, true, 22, never_called),
        Err(CursorGrabError::Bridge(_))
    ));
    assert!(matches!(
        set_cursor_grab(-3, false, 22, never_called),
        Err(CursorGrabError::Bridge(_))
    ));
}

#[test]
fn cursor_grab_display_covers_all_variants() {
    display_covers_all_variants();
}

#[test]
fn lib_display_covers_all_variants() {
    display_covers_all_variants();
}

#[test]
fn cursor_grab_invalid_window_id_is_a_bridge_error() {
    invalid_window_id_is_a_bridge_error();
}

#[test]
fn lib_invalid_window_id_is_a_bridge_error() {
    invalid_window_id_is_a_bridge_error();
}

#[test]
fn ohos_below_api22_returns_not_supported_without_ffi() {
    assert!(matches!(
        set_cursor_grab(1, true, 14, never_called),
        Err(CursorGrabError::NotSupported)
    ));
}

#[test]
fn not_supported_message_names_the_api_levels_below_22() {
    assert_eq!(
        CursorGrabError::NotSupported.message(14),
        "cursor lock not supported on this device (sdk api version 14 < 22)"
    );
    assert_eq!(
        CursorGrabError::NotSupported.message(23),
        "cursor lock not supported on this device"
    );
}

#[test]
fn invalid_window_id_reason_names_the_id() {
    match check_cursor_grab(-3, 22) {
        Err(CursorGrabError::Bridge(reason)) => assert_eq!(reason, "invalid real window id -3"),
        other => panic!("unexpected {other:?}"),
    }
    assert!(check_cursor_grab(5, 22).is_ok());
}

#[test]
fn window_manager_answers_map_to_grab_results() {
    assert!(cursor_grab_outcome(true, WindowManagerOutcome::Done).is_ok());
    let failed = |code: Option<i64>| WindowManagerOutcome::Failed { code, text: "boom".into() };
    assert!(matches!(cursor_grab_outcome(true, failed(Some(801))), Err(CursorGrabError::NotSupported)));
    assert!(cursor_grab_outcome(false, failed(Some(1300002))).is_ok());
    assert!(matches!(cursor_grab_outcome(true, failed(Some(1300002))), Err(CursorGrabError::OsCode(1300002))));
    assert!(matches!(cursor_grab_outcome(true, failed(Some(201))), Err(CursorGrabError::OsCode(201))));
    match cursor_grab_outcome(true, failed(None)) {
        Err(CursorGrabError::Bridge(reason)) => assert_eq!(reason, "boom"),
        other => panic!("unexpected {other:?}"),
    }
}

#[test]
fn supported_grab_calls_the_window_manager_once() {
    let mut calls = Vec::new();
    let r = set_cursor_grab(7, true, 22, |id, grab| {
        calls.push((id, grab));
        WindowManagerOutcome::Done
    });
    assert!(r.is_ok());
    assert_eq!(calls, vec![(7, true)]);
}

#[test]
fn host_reports_not_supported() {
    // Without a recorded API level (0) the cursor lock is unavailable.
    assert!(matches!(
        set_cursor_grab(1, true, 0, never_called),
        Err(CursorGrabError::NotSupported)
    ));
}
