//! Routing of the ArkTS lifecycle callbacks of every UIAbility instance.
//!
//! Each callback carries the id of the window (UIAbility instance) it came
//! from; 0 is the primary instance. A callback is turned into an ordered list
//! of actions: state to store, the notification bridge plugins receive, the
//! teardown of a destroyed instance, and the event the app's event loop
//! receives. App-level events stay with the primary instance, and only the
//! primary instance's destroy ends the app.

use vstd::prelude::*;

use crate::geometry::{AvoidArea, ContentRect, Rect, Size};

verus! {

/// A window-stage event (`window.WindowStageEventType`).
#[derive(Debug, Clone, Copy, PartialEq, Eq, Structural)]
pub enum StageEventType {
    Shown,
    Active,
    Inactive,
    Hidden,
    Resumed,
    Paused,
    Unknown,
}

/// The stage event of a raw `WindowStageEventType` code.
pub open spec fn stage_event_of(value: i32) -> StageEventType {
    if value == 1 {
        StageEventType::Shown
    } else if value == 2 {
        StageEventType::Active
    } else if value == 3 {
        StageEventType::Inactive
    } else if value == 4 {
        StageEventType::Hidden
    } else if value == 5 {
        StageEventType::Resumed
    } else if value == 6 {
        StageEventType::Paused
    } else {
        StageEventType::Unknown
    }
}

impl From<i32> for StageEventType {
    fn from(value: i32) -> (r: StageEventType) {
        match value {
            1 => StageEventType::Shown,
            2 => StageEventType::Active,
            3 => StageEventType::Inactive,
            4 => StageEventType::Hidden,
            5 => StageEventType::Resumed,
            6 => StageEventType::Paused,
            _ => StageEventType::Unknown,
        }
    }
}

impl vstd::std_specs::convert::FromSpecImpl<i32> for StageEventType {
    open spec fn obeys_from_spec() -> bool {
        true
    }

    open spec fn from_spec(v: i32) -> StageEventType {
        stage_event_of(v)
    }
}

/// An event delivered to the app's event loop.
#[derive(Debug, Clone)]
pub enum LoopEvent {
    UserEvent,
    LowMemory,
    /// The configuration changed; the host attaches the decoded configuration.
    ConfigChanged,
    GainedFocus { window_id: i64 },
    LostFocus { window_id: i64 },
    Start,
    Stop,
    /// The app resumes and may load its saved state.
    Resume,
    Pause,
    WindowResize { window_id: i64, size: Size },
    ContentRectChange(ContentRect),
    AvoidAreaChange { area_type: i32, area: AvoidArea },
    WindowCreate,
    WindowDestroy { window_id: i64 },
    Create,
    Destroy,
    /// The app should save its state.
    SaveState,
    KeyboardEvent(i32),
    NewWant { uri: String },
}

/// A lifecycle notification delivered to the bridge plugins.
#[derive(Debug, Clone)]
pub enum PluginLifecycleEvent {
    MemoryLevel { window_id: i64, level: i32 },
    ConfigurationUpdated { window_id: i64 },
    WindowStageEvent { window_id: i64, event_type: i32 },
    WindowStageCreated { window_id: i64 },
    WindowStageDestroyed { window_id: i64 },
    AbilityCreated { window_id: i64, restored_state: String },
    AbilityDestroyed { window_id: i64 },
    /// The ArkTS UI context of the native module went away.
    UiContextDestroyed,
}

/// A lifecycle callback from ArkTS, its payload decoded.
#[derive(Debug, Clone)]
pub enum LifecycleCallback {
    MemoryLevel { window_id: i64, level: i32 },
    ConfigurationUpdated { window_id: i64 },
    WindowStageEvent { window_id: i64, event_type: i32 },
    WindowResize { window_id: i64, size: Size },
    WindowRectChange { window_id: i64, reason: i32, rect: Rect },
    AvoidAreaChange { window_id: i64, area_type: i32, area: AvoidArea },
    WindowStageCreate { window_id: i64 },
    WindowStageDestroy { window_id: i64 },
    AbilityCreate { window_id: i64, restored_state: String },
    AbilityDestroy { window_id: i64 },
    RestoreState { window_id: i64 },
    SaveState { window_id: i64 },
    KeyboardHeightChange { window_id: i64, event_type: i32 },
    NewWant { window_id: i64, uri: String, parameters_json: String, is_continuation: bool },
    CreateWithWant { window_id: i64, uri: String, parameters_json: String, is_continuation: bool },
}

/// One step of handling a lifecycle callback; the host performs the steps in
/// order.
#[derive(Debug, Clone)]
pub enum LifecycleAction {
    /// Cache the primary window's configuration.
    StoreConfiguration,
    StoreWantParameters { window_id: i64, json: String },
    StoreInitialWantUri { window_id: i64, uri: String },
    StoreContinuation { is_continuation: bool, parameters_json: String },
    SetWindowRect { window_id: i64, rect: Rect },
    SetAvoidArea { area_type: i32, area: AvoidArea },
    NotifyPlugins(PluginLifecycleEvent),
    /// Drop every per-window registry entry of a destroyed instance.
    TeardownWindow { window_id: i64 },
    Dispatch(LoopEvent),
}

/// The window id of a callback argument: a missing or non-numeric argument
/// (an outdated ArkTS caller) counts as the primary window.
pub fn window_id_or_primary(arg: Option<i64>) -> (r: i64)
    ensures
        r == (match arg {
            Some(id) => id,
            None => 0,
        }),
{
    match arg {
        Some(id) => id,
        None => 0,
    }
}

/// The loop event of a window-stage event: focus changes go to their own
/// window; the other stage events are app-level and only the primary
/// instance's count.
pub open spec fn stage_loop_event(window_id: i64, event_type: i32) -> Option<LoopEvent> {
    match stage_event_of(event_type) {
        StageEventType::Active => Some(LoopEvent::GainedFocus { window_id }),
        StageEventType::Inactive => Some(LoopEvent::LostFocus { window_id }),
        StageEventType::Shown => if window_id == 0 { Some(LoopEvent::Start) } else { None },
        StageEventType::Hidden => if window_id == 0 { Some(LoopEvent::Stop) } else { None },
        StageEventType::Resumed => if window_id == 0 { Some(LoopEvent::Resume) } else { None },
        StageEventType::Paused => if window_id == 0 { Some(LoopEvent::Pause) } else { None },
        StageEventType::Unknown => None,
    }
}

/// The loop event of a window-stage event.
pub fn stage_event_loop_event(window_id: i64, event_type: i32) -> (r: Option<LoopEvent>)
    ensures
        r == stage_loop_event(window_id, event_type),
{
    let primary = window_id == 0;
    match StageEventType::from(event_type) {
        StageEventType::Active => Some(LoopEvent::GainedFocus { window_id }),
        StageEventType::Inactive => Some(LoopEvent::LostFocus { window_id }),
        StageEventType::Shown => if primary { Some(LoopEvent::Start) } else { None },
        StageEventType::Hidden => if primary { Some(LoopEvent::Stop) } else { None },
        StageEventType::Resumed => if primary { Some(LoopEvent::Resume) } else { None },
        StageEventType::Paused => if primary { Some(LoopEvent::Pause) } else { None },
        StageEventType::Unknown => None,
    }
}

/// `[a]` when `cond`, else nothing.
pub open spec fn when(cond: bool, a: LifecycleAction) -> Seq<LifecycleAction> {
    if cond {
        seq![a]
    } else {
        Seq::empty()
    }
}

/// The steps for a lifecycle callback, in order.
pub open spec fn lifecycle_steps(cb: LifecycleCallback) -> Seq<LifecycleAction> {
    match cb {
        LifecycleCallback::MemoryLevel { window_id, level } => seq![
            LifecycleAction::NotifyPlugins(PluginLifecycleEvent::MemoryLevel { window_id, level }),
        ] + when(window_id == 0, LifecycleAction::Dispatch(LoopEvent::LowMemory)),
        LifecycleCallback::ConfigurationUpdated { window_id } => when(
            window_id == 0,
            LifecycleAction::StoreConfiguration,
        ) + when(window_id == 0, LifecycleAction::Dispatch(LoopEvent::ConfigChanged)) + seq![
            LifecycleAction::NotifyPlugins(PluginLifecycleEvent::ConfigurationUpdated { window_id }),
        ],
        LifecycleCallback::WindowStageEvent { window_id, event_type } => seq![
            LifecycleAction::NotifyPlugins(
                PluginLifecycleEvent::WindowStageEvent { window_id, event_type },
            ),
        ] + match stage_loop_event(window_id, event_type) {
            Some(e) => seq![LifecycleAction::Dispatch(e)],
            None => Seq::empty(),
        },
        LifecycleCallback::WindowResize { window_id, size } => seq![
            LifecycleAction::Dispatch(LoopEvent::WindowResize { window_id, size }),
        ],
        LifecycleCallback::WindowRectChange { window_id, reason, rect } => seq![
            LifecycleAction::SetWindowRect { window_id, rect },
            LifecycleAction::Dispatch(
                LoopEvent::ContentRectChange(ContentRect { reason, rect, window_id }),
            ),
        ],
        LifecycleCallback::AvoidAreaChange { window_id, area_type, area } => when(
            window_id == 0,
            LifecycleAction::SetAvoidArea { area_type, area },
        ) + when(window_id == 0, LifecycleAction::Dispatch(LoopEvent::AvoidAreaChange { area_type, area })),
        LifecycleCallback::WindowStageCreate { window_id } => seq![
            LifecycleAction::NotifyPlugins(PluginLifecycleEvent::WindowStageCreated { window_id }),
        ] + when(window_id == 0, LifecycleAction::Dispatch(LoopEvent::WindowCreate)),
        LifecycleCallback::WindowStageDestroy { window_id } => seq![
            LifecycleAction::NotifyPlugins(PluginLifecycleEvent::WindowStageDestroyed { window_id }),
            LifecycleAction::Dispatch(LoopEvent::WindowDestroy { window_id }),
        ],
        LifecycleCallback::AbilityCreate { window_id, restored_state } => seq![
            LifecycleAction::NotifyPlugins(
                PluginLifecycleEvent::AbilityCreated { window_id, restored_state },
            ),
        ] + when(window_id == 0, LifecycleAction::Dispatch(LoopEvent::Create)),
        LifecycleCallback::AbilityDestroy { window_id } => seq![
            LifecycleAction::NotifyPlugins(PluginLifecycleEvent::AbilityDestroyed { window_id }),
            LifecycleAction::TeardownWindow { window_id },
        ] + when(window_id == 0, LifecycleAction::Dispatch(LoopEvent::Destroy)),
        LifecycleCallback::RestoreState { window_id } => when(
            window_id == 0,
            LifecycleAction::Dispatch(LoopEvent::Resume),
        ),
        LifecycleCallback::SaveState { window_id } => when(
            window_id == 0,
            LifecycleAction::Dispatch(LoopEvent::SaveState),
        ),
        LifecycleCallback::KeyboardHeightChange { window_id, event_type } => when(
            window_id == 0,
            LifecycleAction::Dispatch(LoopEvent::KeyboardEvent(event_type)),
        ),
        LifecycleCallback::NewWant { window_id, uri, parameters_json, is_continuation } => seq![
            LifecycleAction::StoreWantParameters { window_id, json: parameters_json },
        ] + when(
            window_id == 0,
            LifecycleAction::StoreContinuation { is_continuation, parameters_json },
        ) + when(window_id == 0, LifecycleAction::Dispatch(LoopEvent::NewWant { uri })),
        LifecycleCallback::CreateWithWant { window_id, uri, parameters_json, is_continuation } => seq![
            LifecycleAction::StoreInitialWantUri { window_id, uri },
        ] + when(
            window_id == 0,
            LifecycleAction::StoreContinuation { is_continuation, parameters_json },
        ),
    }
}

fn push_when(steps: &mut Vec<LifecycleAction>, cond: bool, a: LifecycleAction)
    ensures
        final(steps)@ == old(steps)@ + when(cond, a),
{
    if cond {
        steps.push(a);
        assert(final(steps)@ =~= old(steps)@ + seq![a]);
    } else {
        assert(old(steps)@ + Seq::<LifecycleAction>::empty() =~= old(steps)@);
    }
}

/// The steps for a lifecycle callback, in order.
pub fn lifecycle_actions(cb: LifecycleCallback) -> (r: Vec<LifecycleAction>)
    ensures
        r@ == lifecycle_steps(cb),
{
    let ghost c = cb;
    let mut steps: Vec<LifecycleAction> = Vec::new();
    match cb {
        LifecycleCallback::MemoryLevel { window_id, level } => {
            steps.push(
                LifecycleAction::NotifyPlugins(PluginLifecycleEvent::MemoryLevel { window_id, level }),
            );
            push_when(&mut steps, window_id == 0, LifecycleAction::Dispatch(LoopEvent::LowMemory));
        },
        LifecycleCallback::ConfigurationUpdated { window_id } => {
            push_when(&mut steps, window_id == 0, LifecycleAction::StoreConfiguration);
            push_when(&mut steps, window_id == 0, LifecycleAction::Dispatch(LoopEvent::ConfigChanged));
            steps.push(
                LifecycleAction::NotifyPlugins(PluginLifecycleEvent::ConfigurationUpdated { window_id }),
            );
        },
        LifecycleCallback::WindowStageEvent { window_id, event_type } => {
            steps.push(
                LifecycleAction::NotifyPlugins(
                    PluginLifecycleEvent::WindowStageEvent { window_id, event_type },
                ),
            );
            match stage_event_loop_event(window_id, event_type) {
                Some(e) => steps.push(LifecycleAction::Dispatch(e)),
                None => {},
            }
        },
        LifecycleCallback::WindowResize { window_id, size } => {
            steps.push(LifecycleAction::Dispatch(LoopEvent::WindowResize { window_id, size }));
        },
        LifecycleCallback::WindowRectChange { window_id, reason, rect } => {
            steps.push(LifecycleAction::SetWindowRect { window_id, rect });
            steps.push(
                LifecycleAction::Dispatch(
                    LoopEvent::ContentRectChange(ContentRect { reason, rect, window_id }),
                ),
            );
        },
        LifecycleCallback::AvoidAreaChange { window_id, area_type, area } => {
            push_when(&mut steps, window_id == 0, LifecycleAction::SetAvoidArea { area_type, area });
            push_when(
                &mut steps,
                window_id == 0,
                LifecycleAction::Dispatch(LoopEvent::AvoidAreaChange { area_type, area }),
            );
        },
        LifecycleCallback::WindowStageCreate { window_id } => {
            steps.push(
                LifecycleAction::NotifyPlugins(PluginLifecycleEvent::WindowStageCreated { window_id }),
            );
            push_when(&mut steps, window_id == 0, LifecycleAction::Dispatch(LoopEvent::WindowCreate));
        },
        LifecycleCallback::WindowStageDestroy { window_id } => {
            steps.push(
                LifecycleAction::NotifyPlugins(PluginLifecycleEvent::WindowStageDestroyed { window_id }),
            );
            steps.push(LifecycleAction::Dispatch(LoopEvent::WindowDestroy { window_id }));
        },
        LifecycleCallback::AbilityCreate { window_id, restored_state } => {
            steps.push(
                LifecycleAction::NotifyPlugins(
                    PluginLifecycleEvent::AbilityCreated { window_id, restored_state },
                ),
            );
            push_when(&mut steps, window_id == 0, LifecycleAction::Dispatch(LoopEvent::Create));
        },
        LifecycleCallback::AbilityDestroy { window_id } => {
            steps.push(
                LifecycleAction::NotifyPlugins(PluginLifecycleEvent::AbilityDestroyed { window_id }),
            );
            steps.push(LifecycleAction::TeardownWindow { window_id });
            push_when(&mut steps, window_id == 0, LifecycleAction::Dispatch(LoopEvent::Destroy));
        },
        LifecycleCallback::RestoreState { window_id } => {
            push_when(&mut steps, window_id == 0, LifecycleAction::Dispatch(LoopEvent::Resume));
        },
        LifecycleCallback::SaveState { window_id } => {
            push_when(&mut steps, window_id == 0, LifecycleAction::Dispatch(LoopEvent::SaveState));
        },
        LifecycleCallback::KeyboardHeightChange { window_id, event_type } => {
            push_when(
                &mut steps,
                window_id == 0,
                LifecycleAction::Dispatch(LoopEvent::KeyboardEvent(event_type)),
            );
        },
        LifecycleCallback::NewWant { window_id, uri, parameters_json, is_continuation } => {
            let json = parameters_json.clone();
            steps.push(LifecycleAction::StoreWantParameters { window_id, json: parameters_json });
            push_when(
                &mut steps,
                window_id == 0,
                LifecycleAction::StoreContinuation { is_continuation, parameters_json: json },
            );
            push_when(&mut steps, window_id == 0, LifecycleAction::Dispatch(LoopEvent::NewWant { uri }));
        },
        LifecycleCallback::CreateWithWant { window_id, uri, parameters_json, is_continuation } => {
            steps.push(LifecycleAction::StoreInitialWantUri { window_id, uri });
            push_when(
                &mut steps,
                window_id == 0,
                LifecycleAction::StoreContinuation { is_continuation, parameters_json },
            );
        },
    }
    assert(steps@ =~= lifecycle_steps(c));
    steps
}

/// The window a callback came from.
pub open spec fn callback_window(cb: LifecycleCallback) -> i64 {
    match cb {
        LifecycleCallback::MemoryLevel { window_id, .. } => window_id,
        LifecycleCallback::ConfigurationUpdated { window_id } => window_id,
        LifecycleCallback::WindowStageEvent { window_id, .. } => window_id,
        LifecycleCallback::WindowResize { window_id, .. } => window_id,
        LifecycleCallback::WindowRectChange { window_id, .. } => window_id,
        LifecycleCallback::AvoidAreaChange { window_id, .. } => window_id,
        LifecycleCallback::WindowStageCreate { window_id } => window_id,
        LifecycleCallback::WindowStageDestroy { window_id } => window_id,
        LifecycleCallback::AbilityCreate { window_id, .. } => window_id,
        LifecycleCallback::AbilityDestroy { window_id } => window_id,
        LifecycleCallback::RestoreState { window_id } => window_id,
        LifecycleCallback::SaveState { window_id } => window_id,
        LifecycleCallback::KeyboardHeightChange { window_id, .. } => window_id,
        LifecycleCallback::NewWant { window_id, .. } => window_id,
        LifecycleCallback::CreateWithWant { window_id, .. } => window_id,
    }
}

/// The step ends the app.
pub open spec fn is_app_destroy(a: LifecycleAction) -> bool {
    a matches LifecycleAction::Dispatch(LoopEvent::Destroy)
}

/// The step stores a continuation.
pub open spec fn is_continuation_store(a: LifecycleAction) -> bool {
    a is StoreContinuation
}

/// Only the primary instance ends the app or touches the continuation
/// state: no callback from a spawned instance (window id other than 0)
/// dispatches `Destroy` or stores a continuation.
pub proof fn law_spawned_instances_never_end_the_app(cb: LifecycleCallback, i: int)
    requires
        callback_window(cb) != 0,
        0 <= i < lifecycle_steps(cb).len(),
    ensures
        !is_app_destroy(lifecycle_steps(cb)[i]),
        !is_continuation_store(lifecycle_steps(cb)[i]),
{
    let steps = lifecycle_steps(cb);
    match cb {
        LifecycleCallback::WindowStageEvent { window_id, event_type } => {
            if i == 1 {
                assert(stage_loop_event(window_id, event_type) is Some);
            }
        },
        _ => {},
    }
}

/// The steps for the destroy of the instance `window_id`.
pub open spec fn destroy_steps(window_id: i64) -> Seq<LifecycleAction> {
    lifecycle_steps(LifecycleCallback::AbilityDestroy { window_id })
}

/// A destroyed instance's plugins hear of the destroy before its per-window
/// state is torn down, and the primary instance's destroy then ends the app.
pub proof fn law_destroy_notifies_before_teardown(window_id: i64)
    ensures
        destroy_steps(window_id)[0] == LifecycleAction::NotifyPlugins(
            PluginLifecycleEvent::AbilityDestroyed { window_id },
        ),
        destroy_steps(window_id)[1] == (LifecycleAction::TeardownWindow { window_id }),
        window_id == 0 ==> destroy_steps(window_id)[2] == LifecycleAction::Dispatch(
            LoopEvent::Destroy,
        ),
        window_id != 0 ==> destroy_steps(window_id).len() == 2,
{
}

/// A window-stage event dispatches by its `WindowStageEventType` code
/// (1 shown, 2 active, 3 inactive, 4 hidden, 5 resumed, 6 paused): focus
/// changes reach their own window; showing and hiding start and stop the
/// app, resuming and pausing resume and pause it, those four on the primary
/// window only; any other code dispatches nothing. The plugins hear of the
/// event first.
pub proof fn law_stage_events_follow_their_codes(window_id: i64, code: i32)
    ensures
        code == 2 ==> stage_loop_event(window_id, code) == Some(LoopEvent::GainedFocus { window_id }),
        code == 3 ==> stage_loop_event(window_id, code) == Some(LoopEvent::LostFocus { window_id }),
        window_id == 0 && code == 1 ==> stage_loop_event(window_id, code) == Some(LoopEvent::Start),
        window_id == 0 && code == 4 ==> stage_loop_event(window_id, code) == Some(LoopEvent::Stop),
        window_id == 0 && code == 5 ==> stage_loop_event(window_id, code) == Some(LoopEvent::Resume),
        window_id == 0 && code == 6 ==> stage_loop_event(window_id, code) == Some(LoopEvent::Pause),
        window_id != 0 && code != 2 && code != 3 ==> stage_loop_event(window_id, code) is None,
        !(1 <= code <= 6) ==> stage_loop_event(window_id, code) is None,
        lifecycle_steps(LifecycleCallback::WindowStageEvent { window_id, event_type: code })[0]
            == LifecycleAction::NotifyPlugins(PluginLifecycleEvent::WindowStageEvent { window_id, event_type: code }),
        window_id == 0 && code == 4 ==> lifecycle_steps(
            LifecycleCallback::WindowStageEvent { window_id, event_type: code },
        ) == seq![
            LifecycleAction::NotifyPlugins(PluginLifecycleEvent::WindowStageEvent { window_id, event_type: code }),
            LifecycleAction::Dispatch(LoopEvent::Stop),
        ],
{
}

} // verus!
