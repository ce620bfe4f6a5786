//! Fault injection for coverage testing: the rules sent to the built-in
//! fault-injection plugin.

use vstd::prelude::*;

use crate::bridge::BridgeNapiType;

verus! {

/// The id of the built-in fault-injection plugin.
pub const FAULT_INJECTION_PLUGIN_ID: &'static str = "ohos.fault-injection";

#[derive(Clone, Copy, Debug)]
pub struct FaultNoopRequest {
}

impl BridgeNapiType for FaultNoopRequest {
    const TYPE_NAME: &'static str = "ohos.fault-injection.NoopRequest";
}

/// What an injected fault does.
#[derive(Clone, Debug)]
pub struct FaultOutcomeWire {
    pub kind: String,
    pub code: Option<i32>,
    pub message: Option<String>,
    pub ms: Option<u32>,
}

/// A fault rule: which plugin call fails, how, and how often.
#[derive(Clone, Debug)]
pub struct FaultRuleWire {
    pub plugin_id: String,
    pub action: Option<String>,
    pub outcome: FaultOutcomeWire,
    pub hits: Option<i32>,
}

impl BridgeNapiType for FaultRuleWire {
    const TYPE_NAME: &'static str = "ohos.fault-injection.SetRuleRequest";
}

#[derive(Clone, Copy, Debug)]
pub struct FaultInjectionAck {
    pub accepted: bool,
}

impl BridgeNapiType for FaultInjectionAck {
    const TYPE_NAME: &'static str = "ohos.fault-injection.Ack";
}

} // verus!
