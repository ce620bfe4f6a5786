//! Window geometry in physical pixels, as the window manager and the
//! XComponent surface report it.

use vstd::prelude::*;

verus! {

/// A rectangle in physical pixels.
#[derive(Clone, Copy, Debug, PartialEq, Eq, Structural)]
pub struct Rect {
    pub top: i32,
    pub left: i32,
    pub width: i32,
    pub height: i32,
}

impl Rect {
    /// The empty rectangle at the origin.
    pub open spec fn spec_zero() -> Rect {
        Rect { top: 0, left: 0, width: 0, height: 0 }
    }

    pub fn zero() -> (r: Rect)
        ensures
            r == Rect::spec_zero(),
    {
        Rect { top: 0, left: 0, width: 0, height: 0 }
    }
}

impl Default for Rect {
    fn default() -> (r: Rect)
        ensures
            r == Rect::spec_zero(),
    {
        Rect::zero()
    }
}

/// A window size in physical pixels.
#[derive(Clone, Copy, Debug, PartialEq, Eq, Structural)]
pub struct Size {
    pub width: i32,
    pub height: i32,
}

/// The screen areas a window should keep its content out of.
#[derive(Clone, Copy, Debug, PartialEq, Eq, Structural)]
pub struct AvoidArea {
    pub visible: bool,
    pub left_rect: Rect,
    pub top_rect: Rect,
    pub right_rect: Rect,
    pub bottom_rect: Rect,
}

impl AvoidArea {
    /// No area to avoid: invisible, every rect empty.
    pub open spec fn spec_none() -> AvoidArea {
        AvoidArea {
            visible: false,
            left_rect: Rect::spec_zero(),
            top_rect: Rect::spec_zero(),
            right_rect: Rect::spec_zero(),
            bottom_rect: Rect::spec_zero(),
        }
    }
}

impl Default for AvoidArea {
    fn default() -> (r: AvoidArea)
        ensures
            r == AvoidArea::spec_none(),
    {
        AvoidArea {
            visible: false,
            left_rect: Rect::zero(),
            top_rect: Rect::zero(),
            right_rect: Rect::zero(),
            bottom_rect: Rect::zero(),
        }
    }
}

/// Why the window manager reported a new window rect (the raw
/// `RectChangeReason` code), with the rect and the window it belongs to.
#[derive(Clone, Copy, Debug, PartialEq, Eq, Structural)]
pub struct ContentRect {
    pub reason: i32,
    pub rect: Rect,
    /// Window this rect change originated from (0 = main window, >0 = Float sub-window).
    pub window_id: i64,
}

} // verus!
