//! Input classification: the device an axis event came from and the action
//! of a mouse event, decoded from the raw NDK codes.

use vstd::prelude::*;

verus! {

/// The kind of device an input event came from.
#[derive(Debug, Clone, Copy, PartialEq, Eq, Structural)]
pub enum InputSourceType {
    Unknown,
    Mouse,
    TouchScreen,
    Touchpad,
    Joystick,
    Keyboard,
}

/// The source type of a raw NDK source code; unlisted codes are `Unknown`.
pub open spec fn source_type_of(value: i32) -> InputSourceType {
    if value == 1 {
        InputSourceType::Mouse
    } else if value == 2 {
        InputSourceType::TouchScreen
    } else if value == 3 {
        InputSourceType::Touchpad
    } else if value == 4 {
        InputSourceType::Joystick
    } else if value == 5 {
        InputSourceType::Keyboard
    } else {
        InputSourceType::Unknown
    }
}

impl From<i32> for InputSourceType {
    fn from(value: i32) -> (r: InputSourceType) {
        match value {
            1 => InputSourceType::Mouse,
            2 => InputSourceType::TouchScreen,
            3 => InputSourceType::Touchpad,
            4 => InputSourceType::Joystick,
            5 => InputSourceType::Keyboard,
            _ => InputSourceType::Unknown,
        }
    }
}

impl vstd::std_specs::convert::FromSpecImpl<i32> for InputSourceType {
    open spec fn obeys_from_spec() -> bool {
        true
    }

    open spec fn from_spec(v: i32) -> InputSourceType {
        source_type_of(v)
    }
}

/// What a mouse event reports.
#[derive(Debug, Clone, Copy, PartialEq, Eq, Structural)]
pub enum MouseAction {
    NoAction,
    Press,
    Release,
    Move,
    HoverEnter,
    HoverLeave,
}

/// The action of a raw NDK mouse action code; unlisted codes are `NoAction`.
pub open spec fn mouse_action_of(value: u32) -> MouseAction {
    if value == 1 {
        MouseAction::Press
    } else if value == 2 {
        MouseAction::Release
    } else if value == 3 {
        MouseAction::Move
    } else {
        MouseAction::NoAction
    }
}

impl From<u32> for MouseAction {
    fn from(value: u32) -> (r: MouseAction) {
        match value {
            0 => MouseAction::NoAction,
            1 => MouseAction::Press,
            2 => MouseAction::Release,
            3 => MouseAction::Move,
            _ => MouseAction::NoAction,
        }
    }
}

impl vstd::std_specs::convert::FromSpecImpl<u32> for MouseAction {
    open spec fn obeys_from_spec() -> bool {
        true
    }

    open spec fn from_spec(v: u32) -> MouseAction {
        mouse_action_of(v)
    }
}

/// The action of a hover event: entering or leaving.
pub fn hover_action(is_hover: bool) -> (r: MouseAction)
    ensures
        r == (if is_hover {
            MouseAction::HoverEnter
        } else {
            MouseAction::HoverLeave
        }),
{
    if is_hover {
        MouseAction::HoverEnter
    } else {
        MouseAction::HoverLeave
    }
}

} // verus!
