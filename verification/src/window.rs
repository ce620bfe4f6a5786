//! Sub-window creation: the parameters of a new OS window, the id it is
//! given up front, and the result of handing the request to ArkTS.

use vstd::prelude::*;

use crate::bridge::BridgeError;
use crate::registry::{next_window_id, ProcessRegistry, ProcessRegistryView};

verus! {

/// The attributes of a window to create.
#[derive(Clone, Debug)]
pub struct WindowCreateParams {
    /// Window label, used as the ArkTS sub-window name.
    pub name: String,
    /// OHOS window type (0 = App, 8 = Float, ...).
    pub window_type: i32,
    pub width: i32,
    pub height: i32,
    pub x: i32,
    pub y: i32,
    /// Whether the window shows its decorations (title bar, drag area, close button).
    pub decorations: bool,
    /// Whether the background is fully transparent (overrides the color).
    pub transparent: bool,
    /// Background color, 0xAARRGGBB.
    pub background_color: Option<u32>,
}

impl WindowCreateParams {
    /// The default window: unnamed App window of 800 x 600 at (100, 100),
    /// decorated, opaque, with no background color.
    pub open spec fn is_default(self) -> bool {
        &&& self.name@.len() == 0
        &&& self.window_type == 0
        &&& self.width == 800
        &&& self.height == 600
        &&& self.x == 100
        &&& self.y == 100
        &&& self.decorations
        &&& !self.transparent
        &&& self.background_color is None
    }
}

impl Default for WindowCreateParams {
    fn default() -> (r: WindowCreateParams)
        ensures
            r.is_default(),
    {
        WindowCreateParams {
            name: String::new(),
            window_type: 0,
            width: 800,
            height: 600,
            x: 100,
            y: 100,
            decorations: true,
            transparent: false,
            background_color: None,
        }
    }
}

/// What ArkTS receives to create the sub-window.
#[derive(Clone, Debug)]
pub struct SubWindowRequest {
    pub name: String,
    pub window_id: i64,
    pub width: i32,
    pub height: i32,
    pub x: i32,
    pub y: i32,
    pub decorations: bool,
    pub transparent: bool,
    pub background_color: Option<u32>,
}

/// Allocates the id of a new OS window and forms the request that creates
/// it; the id is taken whether or not the request can be delivered.
pub fn create_os_window(registry: &mut ProcessRegistry, params: WindowCreateParams) -> (r: SubWindowRequest)
    requires
        old(registry).wf(),
    ensures
        final(registry).wf(),
        r.window_id == old(registry)@.next_window_id,
        final(registry)@ == (ProcessRegistryView {
            next_window_id: if r.window_id == i64::MAX {
                i64::MIN
            } else {
                (r.window_id + 1) as i64
            },
            ..old(registry)@
        }),
        r.name == params.name,
        r.width == params.width && r.height == params.height,
        r.x == params.x && r.y == params.y,
        r.decorations == params.decorations,
        r.transparent == params.transparent,
        r.background_color == params.background_color,
{
    let window_id = next_window_id(registry);
    SubWindowRequest {
        name: params.name,
        window_id,
        width: params.width,
        height: params.height,
        x: params.x,
        y: params.y,
        decorations: params.decorations,
        transparent: params.transparent,
        background_color: params.background_color,
    }
}

/// How handing a sub-window request to ArkTS went.
#[derive(Clone, Debug)]
pub enum SubWindowDispatch {
    /// ArkTS never installed its sub-window function.
    NotInitialized,
    /// The call could not be queued; the status text.
    Failed(String),
    Dispatched,
}

/// The result of creating a window: its id once the request was dispatched.
pub fn sub_window_result(window_id: i64, dispatch: SubWindowDispatch) -> (r: Result<i64, BridgeError>)
    ensures
        dispatch is Dispatched ==> r == Ok::<i64, BridgeError>(window_id),
        dispatch is NotInitialized ==> (r matches Err(e) && e.reason@
            == "create_sub_window TSFN not initialized"@),
        dispatch matches SubWindowDispatch::Failed(status) ==> (r matches Err(e) && e.reason@
            == "TSFN call failed: "@ + status@),
{
    match dispatch {
        SubWindowDispatch::Dispatched => Ok(window_id),
        SubWindowDispatch::NotInitialized => Err(
            BridgeError::from_reason("create_sub_window TSFN not initialized"),
        ),
        SubWindowDispatch::Failed(status) => {
            let mut reason = String::from_str("TSFN call failed: ");
            reason.append(status.as_str());
            Err(BridgeError { reason })
        },
    }
}

} // verus!
