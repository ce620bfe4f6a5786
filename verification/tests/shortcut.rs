use openharmony_ability::bridge::{BridgeContextRequirement, BridgeNapiType, BridgePlugin};
use openharmony_ability::shortcut::{
    emit_event, emit_shortcut_event, hotkeys_supported, parse_shortcut_state, register_request,
    shortcut_event, shortcut_main_thread_event, validate_and_dedup_modifiers,
    GlobalShortcutBridgePlugin, Key, Modifier, ShortcutAcknowledgement, ShortcutChannel,
    ShortcutEvent, ShortcutRegisterRequest, ShortcutRequest, ShortcutState,
    ShortcutTriggeredEvent, ShortcutUnregisterAllRequest, ShortcutUnregisterRequest,
    SHORTCUT_QUEUE_CAPACITY,
};

#[test]
fn modifier_as_str() {
    assert_eq!(Modifier::Control.as_str(), "Ctrl");
    assert_eq!(Modifier::Shift.as_str(), "Shift");
    assert_eq!(Modifier::Alt.as_str(), "Alt");
    assert_eq!(Modifier::Super.as_str(), "Meta");
}

#[test]
fn key_as_str() {
    assert_eq!(Key::A.as_str(), "A");
    assert_eq!(Key::F5.as_str(), "F5");
    assert_eq!(Key::Space.as_str(), "Space");
    assert_eq!(Key::Escape.as_str(), "Escape");
}

#[test]
fn key_names_round_trip() {
    for key in [Key::A, Key::F5, Key::Space, Key::Escape] {
        assert_eq!(Key::from_name(key.as_str()), Some(key));
    }
    assert_eq!(Key::from_name("NotAKey"), None);
}

#[test]
fn shortcut_state_variants() {
    let pressed = ShortcutState::Pressed;
    let released = ShortcutState::Released;
    assert_ne!(pressed, released);
    assert_eq!(parse_shortcut_state("Pressed"), ShortcutState::Pressed);
    assert_eq!(parse_shortcut_state("Released"), ShortcutState::Released);
    assert_eq!(parse_shortcut_state("anything else"), ShortcutState::Pressed);
}

#[test]
fn modifier_count_validation() {
    let max_modifiers: usize = 2;
    let valid: Vec<Modifier> = vec![Modifier::Control, Modifier::Shift];
    assert!(valid.len() <= max_modifiers);
    let invalid: Vec<Modifier> = vec![Modifier::Control, Modifier::Shift, Modifier::Alt];
    assert!(invalid.len() > max_modifiers);
}

#[test]
fn shortcut_request_register() {
    let req = ShortcutRequest::Register { id: 1, pre_key1: 2072, pre_key2: 2047, final_key: 2017 };
    match req {
        ShortcutRequest::Register { id, pre_key1, pre_key2, final_key } => {
            assert_eq!(id, 1);
            assert_eq!(pre_key1, 2072);
            assert_eq!(pre_key2, 2047);
            assert_eq!(final_key, 2017);
        }
        _ => panic!("Expected Register variant"),
    }
}

#[test]
fn global_shortcut_plugin_targets_ability_context() {
    assert_eq!(GlobalShortcutBridgePlugin::ID, "ohos.global-shortcut");
    assert_eq!(
        GlobalShortcutBridgePlugin::required_contexts(),
        &[BridgeContextRequirement::Ability]
    );
}

#[test]
fn global_shortcut_types_have_stable_named_napi_contracts() {
    assert_eq!(<ShortcutRegisterRequest as BridgeNapiType>::TYPE_NAME, "ohos.global-shortcut.RegisterRequest");
    assert_eq!(<ShortcutUnregisterRequest as BridgeNapiType>::TYPE_NAME, "ohos.global-shortcut.UnregisterRequest");
    assert_eq!(<ShortcutUnregisterAllRequest as BridgeNapiType>::TYPE_NAME, "ohos.global-shortcut.UnregisterAllRequest");
    assert_eq!(<ShortcutAcknowledgement as BridgeNapiType>::TYPE_NAME, "ohos.global-shortcut.Acknowledgement");
    assert_eq!(<ShortcutTriggeredEvent as BridgeNapiType>::TYPE_NAME, "ohos.global-shortcut.TriggeredEvent");
}

#[test]
fn modifier_validation_rejects_empty() {
    assert!(validate_and_dedup_modifiers(&vec![]).is_err());
}

#[test]
fn modifier_validation_rejects_more_than_two() {
    let mods = vec!["Control".to_owned(), "Shift".to_owned(), "Alt".to_owned()];
    assert!(validate_and_dedup_modifiers(&mods).is_err());
}

#[test]
fn modifier_validation_dedups_consecutive_duplicates() {
    let mods = vec!["Control".to_owned(), "Control".to_owned()];
    let result = validate_and_dedup_modifiers(&mods).unwrap();
    assert_eq!(result, vec!["Control".to_owned()]);
}

#[test]
fn modifier_validation_accepts_two_distinct() {
    let mods = vec!["Control".to_owned(), "Shift".to_owned()];
    let result = validate_and_dedup_modifiers(&mods).unwrap();
    assert_eq!(result, vec!["Control".to_owned(), "Shift".to_owned()]);
}

#[test]
fn modifier_validation_does_not_dedup_non_consecutive() {
    let mods = vec!["Control".to_owned(), "Shift".to_owned(), "Control".to_owned()];
    assert!(validate_and_dedup_modifiers(&mods).is_err());
}

#[test]
fn modifier_validation_error_reasons() {
    assert_eq!(
        validate_and_dedup_modifiers(&vec![]).unwrap_err().reason,
        "At least 1 modifier key is required"
    );
    let three = vec!["Control".to_owned(), "Shift".to_owned(), "Alt".to_owned()];
    assert_eq!(
        validate_and_dedup_modifiers(&three).unwrap_err().reason,
        "OHOS supports at most 2 modifier keys"
    );
}

#[test]
fn registration_below_the_hotkey_api_is_a_no_op() {
    assert!(!hotkeys_supported(13));
    assert!(hotkeys_supported(14));
    let mods = vec!["Control".to_owned(), "Control".to_owned()];
    assert!(register_request(13, 1, &mods, "A").unwrap().is_none());
    let req = register_request(14, 7, &mods, "A").unwrap().unwrap();
    assert_eq!(req.id, 7);
    assert_eq!(req.modifiers, vec!["Control".to_owned()]);
    assert_eq!(req.key, "A");
    assert!(register_request(14, 7, &vec![], "A").is_err());
}

#[test]
fn acknowledgement_ensure_accepts_and_rejects() {
    assert!(ShortcutAcknowledgement { accepted: true }.ensure().is_ok());
    assert_eq!(
        ShortcutAcknowledgement { accepted: false }.ensure().unwrap_err().reason,
        "Global shortcut plugin rejected the requested operation"
    );
}

#[test]
fn emitted_events_come_out_in_order() {
    let mut channel = ShortcutChannel::new();
    assert!(emit_event(&mut channel, ShortcutEvent { id: 1, state: ShortcutState::Pressed }));
    assert!(emit_shortcut_event(&mut channel, 2, "Released"));
    assert_eq!(channel.next_event(), Some(ShortcutEvent { id: 1, state: ShortcutState::Pressed }));
    assert_eq!(channel.next_event(), Some(shortcut_event(2, "Released")));
    assert_eq!(channel.next_event(), None);
}

#[test]
fn a_full_queue_drops_new_events() {
    let mut channel = ShortcutChannel::new();
    for i in 0..SHORTCUT_QUEUE_CAPACITY {
        assert!(emit_event(&mut channel, ShortcutEvent { id: i as u32, state: ShortcutState::Pressed }));
    }
    assert!(!emit_event(&mut channel, ShortcutEvent { id: 9999, state: ShortcutState::Pressed }));
    assert_eq!(channel.next_event().unwrap().id, 0);
}

#[test]
fn main_thread_event_forwards_triggered_shortcuts() {
    let event = ShortcutTriggeredEvent { id: 42, state: "Pressed".to_owned() };
    let forwarded = shortcut_main_thread_event("on-shortcut-triggered", event.clone()).unwrap();
    assert_eq!(forwarded.id, 42);
    assert_eq!(forwarded.state, "Pressed");
    let err = shortcut_main_thread_event("other", event).unwrap_err();
    assert_eq!(err.reason, "Unsupported ohos.global-shortcut main-thread event 'other'");
}
