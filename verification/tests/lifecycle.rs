use openharmony_ability::geometry::Rect;
use openharmony_ability::lifecycle::{
    lifecycle_actions, stage_event_loop_event, window_id_or_primary, LifecycleAction,
    LifecycleCallback, LoopEvent, PluginLifecycleEvent, StageEventType,
};

#[test]
fn stage_event_codes_decode() {
    assert_eq!(StageEventType::from(1), StageEventType::Shown);
    assert_eq!(StageEventType::from(2), StageEventType::Active);
    assert_eq!(StageEventType::from(3), StageEventType::Inactive);
    assert_eq!(StageEventType::from(4), StageEventType::Hidden);
    assert_eq!(StageEventType::from(5), StageEventType::Resumed);
    assert_eq!(StageEventType::from(6), StageEventType::Paused);
    assert_eq!(StageEventType::from(0), StageEventType::Unknown);
}

#[test]
fn missing_window_ids_mean_the_primary_window() {
    assert_eq!(window_id_or_primary(None), 0);
    assert_eq!(window_id_or_primary(Some(4)), 4);
}

#[test]
fn focus_goes_to_its_own_window_but_app_events_only_count_for_the_primary() {
    assert!(matches!(stage_event_loop_event(3, 2), Some(LoopEvent::GainedFocus { window_id: 3 })));
    assert!(matches!(stage_event_loop_event(3, 3), Some(LoopEvent::LostFocus { window_id: 3 })));
    assert!(matches!(stage_event_loop_event(0, 1), Some(LoopEvent::Start)));
    assert!(stage_event_loop_event(3, 1).is_none());
    assert!(matches!(stage_event_loop_event(0, 6), Some(LoopEvent::Pause)));
    assert!(stage_event_loop_event(0, 42).is_none());
}

#[test]
fn destroying_a_spawned_instance_tears_it_down_without_ending_the_app() {
    let steps = lifecycle_actions(LifecycleCallback::AbilityDestroy { window_id: 5 });
    assert_eq!(steps.len(), 2);
    assert!(matches!(steps[0], LifecycleAction::NotifyPlugins(PluginLifecycleEvent::AbilityDestroyed { window_id: 5 })));
    assert!(matches!(steps[1], LifecycleAction::TeardownWindow { window_id: 5 }));

    let steps = lifecycle_actions(LifecycleCallback::AbilityDestroy { window_id: 0 });
    assert_eq!(steps.len(), 3);
    assert!(matches!(steps[2], LifecycleAction::Dispatch(LoopEvent::Destroy)));
}

#[test]
fn window_rect_changes_update_the_cache_before_dispatch() {
    let rect = Rect { top: 1, left: 2, width: 3, height: 4 };
    let steps = lifecycle_actions(LifecycleCallback::WindowRectChange { window_id: 2, reason: 5, rect });
    assert_eq!(steps.len(), 2);
    assert!(matches!(steps[0], LifecycleAction::SetWindowRect { window_id: 2, rect: r } if r == rect));
    match &steps[1] {
        LifecycleAction::Dispatch(LoopEvent::ContentRectChange(c)) => {
            assert_eq!(c.reason, 5);
            assert_eq!(c.window_id, 2);
            assert_eq!(c.rect, rect);
        }
        other => panic!("unexpected {other:?}"),
    }
}

#[test]
fn a_new_want_stores_parameters_and_only_the_primary_dispatches() {
    let steps = lifecycle_actions(LifecycleCallback::NewWant {
        window_id: 0,
        uri: "app://x".into(),
        parameters_json: "{}".into(),
        is_continuation: true,
    });
    assert_eq!(steps.len(), 3);
    assert!(matches!(&steps[0], LifecycleAction::StoreWantParameters { window_id: 0, json } if json == "{}"));
    assert!(matches!(&steps[1], LifecycleAction::StoreContinuation { is_continuation: true, .. }));
    assert!(matches!(&steps[2], LifecycleAction::Dispatch(LoopEvent::NewWant { uri }) if uri == "app://x"));

    let steps = lifecycle_actions(LifecycleCallback::NewWant {
        window_id: 4,
        uri: "app://x".into(),
        parameters_json: "{}".into(),
        is_continuation: false,
    });
    assert_eq!(steps.len(), 1);
}

#[test]
fn memory_and_configuration_reach_plugins_for_every_window() {
    let steps = lifecycle_actions(LifecycleCallback::MemoryLevel { window_id: 3, level: 2 });
    assert_eq!(steps.len(), 1);
    let steps = lifecycle_actions(LifecycleCallback::ConfigurationUpdated { window_id: 0 });
    assert_eq!(steps.len(), 3);
    assert!(matches!(steps[0], LifecycleAction::StoreConfiguration));
    assert!(matches!(steps[1], LifecycleAction::Dispatch(LoopEvent::ConfigChanged)));
    assert!(matches!(steps[2], LifecycleAction::NotifyPlugins(PluginLifecycleEvent::ConfigurationUpdated { window_id: 0 })));
}
