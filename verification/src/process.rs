//! The process plugin: app restart through app recovery.

use vstd::prelude::*;

use crate::bridge::{BridgeContextRequirement, BridgeNapiType, BridgePlugin};

verus! {

/// The process bridge plugin; it needs no ArkTS context.
pub struct ProcessBridgePlugin;

impl BridgePlugin for ProcessBridgePlugin {
    const ID: &'static str = "ohos.process";

    open spec fn spec_required_contexts() -> Seq<BridgeContextRequirement> {
        Seq::<BridgeContextRequirement>::empty()
    }

    fn required_contexts() -> (r: &'static [BridgeContextRequirement]) {
        let r: &'static [BridgeContextRequirement] = &[];
        r
    }
}

#[derive(Clone, Copy, Debug)]
pub struct RestartRequest {
}

impl BridgeNapiType for RestartRequest {
    const TYPE_NAME: &'static str = "ohos.process.RestartRequest";
}

#[derive(Clone, Copy, Debug)]
pub struct RestartResponse {
    pub code: i32,
}

impl BridgeNapiType for RestartResponse {
    const TYPE_NAME: &'static str = "ohos.process.RestartResponse";
}

/// The code of a restart answer (0 on success).
pub fn restart_code(response: RestartResponse) -> (r: i32)
    ensures
        r == response.code,
{
    response.code
}

} // verus!
