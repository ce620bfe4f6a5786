use openharmony_ability::app_state::{DecorListeners, OpenHarmonyAppInner, BridgeSession, begin_render, release_bridge_session, AbilityInitContext, ContinuationClient, EventLoopSlot};
use openharmony_ability::geometry::{AvoidArea, Rect};

type Inner = OpenHarmonyAppInner<(), ()>;

fn rect(top: i32, left: i32, width: i32, height: i32) -> Rect {
    Rect { top, left, width, height }
}

#[test]
fn test_take_continuation_data_drains() {
    let mut app = Inner::new(0);
    app.store_continuation(true, r#"{"scrollOffset":120,"route":"/article/42"}"#);
    assert_eq!(
        app.take_continuation_data(),
        r#"{"scrollOffset":120,"route":"/article/42"}"#
    );
    assert_eq!(app.take_continuation_data(), "");
    assert!(app.is_continuation_restore());
}

#[test]
fn test_non_continuation_launch_clears_stale_payload() {
    let mut app = Inner::new(0);
    app.store_continuation(true, r#"{"stale":true}"#);
    app.store_continuation(false, r#"{}"#);
    assert!(!app.is_continuation_restore());
    assert_eq!(app.take_continuation_data(), "");
}

#[test]
fn test_is_continuation_restore_idempotent() {
    let mut app = Inner::new(0);
    app.store_continuation(true, r#"{"a":1}"#);
    assert!(app.is_continuation_restore());
    assert!(app.is_continuation_restore());
    assert!(app.is_continuation_restore());
    assert_eq!(app.take_continuation_data(), r#"{"a":1}"#);
}

#[test]
fn test_session_state_is_per_app_instance() {
    let mut app_a = Inner::new(0);
    let mut app_b = Inner::new(1);
    app_a.store_continuation(true, r#"{"app":"a"}"#);
    app_b.store_want_parameters(r#"{"app":"b"}"#);
    assert!(app_a.is_continuation_restore());
    assert!(!app_b.is_continuation_restore());
    assert_eq!(app_a.take_continuation_data(), r#"{"app":"a"}"#);
    assert_eq!(app_b.take_continuation_data(), "");
    assert_eq!(app_b.take_want_parameters(), r#"{"app":"b"}"#);
    assert_eq!(app_a.take_want_parameters(), "");
}

#[test]
fn render_owner_rejects_overlap_and_ignores_stale_surface_callbacks() {
    let mut inner = Inner::new(0);
    inner.claim_render_owner("owner-a").unwrap();
    assert!(inner.claim_render_owner("owner-b").is_err());
    assert!(inner.activate_surface("owner-b", None, Rect::default()).is_none());
    assert!(inner.activate_surface("owner-a", None, Rect::default()).is_some());
    assert_eq!(inner.release_render_owner("owner-b"), None);
    assert_eq!(inner.release_render_owner("owner-a"), Some(true));

    inner.claim_render_owner("owner-b").unwrap();
    assert!(inner.activate_surface("owner-b", None, Rect::default()).is_some());
    assert!(!inner.deactivate_surface("owner-a"));
    assert_eq!(inner.release_render_owner("owner-a"), None);
    assert!(inner.owns_render("owner-b"));
    assert!(inner.is_surface_active("owner-b"));
}

#[test]
fn save_then_load_round_trips() {
    let mut inner = Inner::new(0);
    assert_eq!(inner.load(), None);
    inner.save(vec![1, 2, 3]);
    assert_eq!(inner.load(), Some(vec![1, 2, 3]));
    assert_eq!(inner.load(), Some(vec![1, 2, 3]));
    inner.save(vec![4]);
    assert_eq!(inner.load(), Some(vec![4]));
}

#[test]
fn surface_recreation_keeps_the_same_render_owner() {
    let mut inner = Inner::new(0);
    inner.claim_render_owner("owner").unwrap();
    assert!(inner.activate_surface("owner", None, Rect::default()).is_some());
    assert!(inner.deactivate_surface("owner"));
    assert!(inner.owns_render("owner"));
    assert!(inner.activate_surface("owner", None, Rect::default()).is_some());
    assert_eq!(inner.release_render_owner("owner"), Some(true));
}

#[test]
fn releasing_a_component_clears_its_window_scoped_cache() {
    let mut inner = Inner::new(0);
    inner.claim_render_owner("owner").unwrap();
    inner.set_window_rect(0, rect(1, 2, 3, 4));
    // Keyboard avoid area (raw AvoidAreaType code 3).
    inner.set_avoid_area(3, AvoidArea::default());

    assert_eq!(inner.release_render_owner("owner"), Some(false));
    assert_eq!(inner.window_rect_for(0), Rect::default());
    assert!(inner.avoid_area(3).is_none());
}

#[test]
fn releasing_keeps_sub_window_rects() {
    let mut inner = Inner::new(0);
    inner.claim_render_owner("owner").unwrap();
    inner.set_window_rect(0, rect(1, 2, 3, 4));
    inner.set_window_rect(5, rect(5, 6, 7, 8));
    assert_eq!(inner.release_render_owner("owner"), Some(false));
    assert_eq!(inner.window_rect_for(5), rect(5, 6, 7, 8));
}

#[test]
fn decor_height_latches_only_plausible_surface_diffs() {
    let mut inner = Inner::new(0);
    inner.claim_render_owner("owner").unwrap();
    inner.set_window_rect(0, rect(0, 0, 2090, 1394));
    assert!(inner.activate_surface("owner", None, rect(0, 0, 2090, 1248)).is_some());
    assert_eq!(inner.decor_height(), 146);

    assert!(inner.update_surface_rect("owner", rect(0, 0, 2090, 570)).is_some());
    assert_eq!(inner.decor_height(), 146, "824px diff must be rejected");
    assert!(inner.update_surface_rect("owner", rect(0, 0, 2090, 1468)).is_some());
    assert_eq!(inner.decor_height(), 146, "negative diff must be rejected");

    assert!(inner.update_surface_rect("owner", rect(0, 0, 2090, 1394)).is_some());
    assert_eq!(inner.decor_height(), 0);

    inner.remove_window_rect(0);
    assert!(inner.update_surface_rect("owner", rect(0, 0, 2090, 1248)).is_some());
    assert_eq!(inner.decor_height(), 0);
}

#[test]
fn decor_height_latch_accepts_the_maximum_and_rejects_one_more() {
    let mut inner = Inner::new(0);
    inner.claim_render_owner("owner").unwrap();
    inner.set_window_rect(0, rect(0, 0, 100, 1000));
    assert_eq!(inner.activate_surface("owner", None, rect(0, 0, 100, 680)), Some(Some(320)));
    assert_eq!(inner.update_surface_rect("owner", rect(0, 0, 100, 679)), Some(None));
    assert_eq!(inner.decor_height(), 320);
    // Latching again from the same rects reports nothing.
    assert_eq!(inner.latch_decor_height(), None);
}

#[test]
fn decor_change_callbacks_fire_only_on_real_changes() {
    let mut inner = Inner::new(0);
    inner.claim_render_owner("owner").unwrap();
    inner.set_window_rect(0, rect(0, 0, 2090, 1394));

    // Listener 0 stays registered; listener 1 is one-shot.
    let mut listeners: DecorListeners<bool> = DecorListeners::new();
    assert_eq!(listeners.register(true), 0);
    assert_eq!(listeners.register(false), 1);
    let mut calls = vec![0usize, 0usize];
    let mut seen: Vec<i32> = Vec::new();

    let mut notify = |changed: Option<i32>, listeners: &mut DecorListeners<bool>, calls: &mut Vec<usize>, seen: &mut Vec<i32>| {
        if let Some(decor) = changed {
            let mut answers = Vec::new();
            for (id, keep) in listeners.listeners().iter() {
                calls[*id as usize] += 1;
                seen.push(decor);
                answers.push(*keep);
            }
            listeners.retain_answered(&answers);
        }
    };

    let r = inner.activate_surface("owner", None, rect(0, 0, 2090, 1248)).unwrap();
    notify(r, &mut listeners, &mut calls, &mut seen);
    assert_eq!(inner.decor_height(), 146);
    assert_eq!(calls, vec![1, 1]);

    let r = inner.update_surface_rect("owner", rect(0, 0, 2090, 1248)).unwrap();
    notify(r, &mut listeners, &mut calls, &mut seen);
    assert_eq!(calls, vec![1, 1]);

    let r = inner.update_surface_rect("owner", rect(0, 0, 2090, 570)).unwrap();
    notify(r, &mut listeners, &mut calls, &mut seen);
    assert_eq!(calls[0], 1);

    let r = inner.update_surface_rect("owner", rect(0, 0, 2090, 1394)).unwrap();
    notify(r, &mut listeners, &mut calls, &mut seen);
    assert_eq!(inner.decor_height(), 0);
    assert_eq!(calls, vec![2, 1]);
    assert_eq!(seen, vec![146, 146, 0]);
    assert_eq!(listeners.len(), 1, "one-shot listener must be removed");
}

#[test]
fn decor_listener_removal_by_id() {
    let mut listeners: DecorListeners<&str> = DecorListeners::new();
    let a = listeners.register("a");
    let b = listeners.register("b");
    listeners.remove(a);
    assert_eq!(listeners.len(), 1);
    assert_eq!(listeners.listeners()[0], (b, "b"));
    listeners.remove(42);
    assert_eq!(listeners.len(), 1);
}

#[test]
fn inner_rect_compensates_the_main_window_decoration() {
    let mut inner = Inner::new(0);
    inner.claim_render_owner("owner").unwrap();
    inner.set_window_rect(0, rect(10, 20, 2090, 1394));
    inner.set_window_rect(7, rect(5, 6, 300, 200));
    inner.activate_surface("owner", None, rect(0, 0, 2090, 1248)).unwrap();
    assert_eq!(inner.decor_height_for(0), 146);
    assert_eq!(inner.decor_height_for(7), 0);
    assert_eq!(inner.inner_rect_for(0), rect(10 + 146, 20, 2090, 1394 - 146));
    assert_eq!(inner.inner_rect_for(7), rect(5, 6, 300, 200));
}

#[test]
fn bridge_session_gates_render_and_release() {
    let mut session: BridgeSession<u32> = BridgeSession::new();
    let mut inner = Inner::new(0);
    let err = begin_render(&session, &mut inner, "owner", ()).unwrap_err();
    assert_eq!(
        err.reason,
        "A DefaultXComponent cannot render outside an active NativeAbility module session"
    );
    assert_eq!(
        session.begin("", 1).unwrap_err().reason,
        "Bridge session owner must not be empty"
    );
    session.begin("ability-1", 7).unwrap();
    assert_eq!(
        session.begin("ability-2", 8).unwrap_err().reason,
        "This native module already belongs to an active NativeAbility bridge session"
    );
    assert_eq!(*session.endpoints().unwrap(), 7);
    begin_render(&session, &mut inner, "owner", ()).unwrap();
    assert!(inner.owns_render("owner"));
    assert!(inner.xcomponent().is_some());

    let mut ctx = AbilityInitContext::default();
    ctx.module_name = Some("entry".to_string());
    inner.set_init_context(ctx);
    assert!(!release_bridge_session(&mut session, &mut inner, "ability-2"));
    assert_eq!(inner.init_context().module_name.as_deref(), Some("entry"));
    assert!(release_bridge_session(&mut session, &mut inner, "ability-1"));
    assert!(inner.init_context().module_name.is_none());
    assert_eq!(
        session.endpoints().unwrap_err().reason,
        "Bridge runtime is not ready. Call it during an active NativeAbility session."
    );
}

#[test]
fn synchronous_calls_need_an_active_session() {
    let mut session: BridgeSession<u32> = BridgeSession::new();
    assert_eq!(
        session.main_thread_endpoints().unwrap_err().reason,
        "Synchronous bridge is not ready. Call it during an active NativeAbility session."
    );
    session.begin("ability", 3).unwrap();
    assert_eq!(*session.main_thread_endpoints().unwrap(), 3);
    assert!(session.is_active());
    assert_eq!(session.release("other"), None);
    assert_eq!(session.release("ability"), Some(3));
    assert!(!session.is_active());
}

#[test]
fn continuation_client_is_sync() {
    fn assert_sync<T: Sync>() {}
    assert_sync::<ContinuationClient>();
}

#[test]
fn facade_delegates_to_app_state() {
    let mut app = Inner::new(0);
    let client = ContinuationClient::new();
    app.store_continuation(true, r#"{"probe":1}"#);
    assert!(client.is_continuation_restore(&app));
    assert_eq!(client.take_continuation_data(&mut app), r#"{"probe":1}"#);
    assert_eq!(client.take_continuation_data(&mut app), "");
    assert!(client.is_continuation_restore(&app));
}

#[test]
fn the_first_event_loop_handler_is_kept() {
    let mut slot: EventLoopSlot<&str> = EventLoopSlot::new();
    assert!(!slot.is_installed());
    assert_eq!(slot.installed(), None);
    assert!(slot.install("first"));
    assert!(slot.is_installed());
    assert!(!slot.install("second"));
    assert_eq!(slot.installed(), Some(&"first"));
}
