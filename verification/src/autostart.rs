//! Launch at login: the autostart plugin and the system autostart manager,
//! with the API level below which autostart reads as disabled.

use vstd::prelude::*;

use crate::bridge::{
    accepted_or, ensure_accepted, outcome, BridgeContextRequirement, BridgeError, BridgeNapiType,
    BridgePlugin,
};

verus! {

/// The autostart bridge plugin.
pub struct AutostartBridgePlugin;

impl BridgePlugin for AutostartBridgePlugin {
    const ID: &'static str = "ohos.autostart";

    open spec fn spec_required_contexts() -> Seq<BridgeContextRequirement> {
        seq![BridgeContextRequirement::Ability]
    }

    fn required_contexts() -> (r: &'static [BridgeContextRequirement]) {
        let r: &'static [BridgeContextRequirement] = &[BridgeContextRequirement::Ability];
        r
    }
}

/// First SDK API level with autostart; below it autostart reads as disabled.
pub const MIN_AUTOSTART_API_VERSION: i32 = 21;

#[derive(Clone, Copy, Debug)]
pub struct AutostartEnableRequest {
}

impl BridgeNapiType for AutostartEnableRequest {
    const TYPE_NAME: &'static str = "ohos.autostart.EnableRequest";
}

#[derive(Clone, Copy, Debug)]
pub struct AutostartDisableRequest {
}

impl BridgeNapiType for AutostartDisableRequest {
    const TYPE_NAME: &'static str = "ohos.autostart.DisableRequest";
}

#[derive(Clone, Copy, Debug)]
pub struct AutostartIsEnabledRequest {
}

impl BridgeNapiType for AutostartIsEnabledRequest {
    const TYPE_NAME: &'static str = "ohos.autostart.IsEnabledRequest";
}

#[derive(Clone, Copy, Debug)]
pub struct AutostartAcknowledgement {
    pub accepted: bool,
}

impl BridgeNapiType for AutostartAcknowledgement {
    const TYPE_NAME: &'static str = "ohos.autostart.Acknowledgement";
}

impl AutostartAcknowledgement {
    /// `Ok` when the plugin accepted the operation.
    pub fn ensure(self) -> (r: Result<(), BridgeError>)
        ensures
            outcome(r) == accepted_or(self.accepted, "Autostart plugin rejected the requested operation"@),
    {
        ensure_accepted(self.accepted, "Autostart plugin rejected the requested operation")
    }
}

#[derive(Clone, Copy, Debug)]
pub struct AutostartIsEnabledResponse {
    pub enabled: bool,
}

impl BridgeNapiType for AutostartIsEnabledResponse {
    const TYPE_NAME: &'static str = "ohos.autostart.IsEnabledResponse";
}

/// Whether the system must be asked; below the autostart API level the
/// answer is `false` without asking.
pub fn autostart_needs_query(sdk_api_version: i32) -> (r: bool)
    ensures
        r == (sdk_api_version >= MIN_AUTOSTART_API_VERSION),
{
    sdk_api_version >= MIN_AUTOSTART_API_VERSION
}

/// Whether autostart is enabled: `false` below the autostart API level,
/// else what the system answered.
pub fn is_enabled_result(sdk_api_version: i32, response: Option<Result<AutostartIsEnabledResponse, BridgeError>>) -> (r: Result<bool, BridgeError>)
    requires
        sdk_api_version >= MIN_AUTOSTART_API_VERSION ==> response is Some,
    ensures
        sdk_api_version < MIN_AUTOSTART_API_VERSION ==> r == Ok::<bool, BridgeError>(false),
        sdk_api_version >= MIN_AUTOSTART_API_VERSION ==> match response {
            Some(Ok(resp)) => r == Ok::<bool, BridgeError>(resp.enabled),
            Some(Err(e)) => r == Err::<bool, BridgeError>(e),
            None => false,
        },
{
    if !autostart_needs_query(sdk_api_version) {
        return Ok(false);
    }
    match response {
        Some(Ok(resp)) => Ok(resp.enabled),
        Some(Err(e)) => Err(e),
        None => Ok(false),
    }
}

/// An operation of the system autostart manager.
#[derive(Clone, Copy, Debug, PartialEq, Eq, Structural)]
pub enum AutostartOp {
    Enable,
    Disable,
    IsEnabled,
}

/// How a call through the ArkTS thread-safe function ended.
#[derive(Debug)]
pub enum TsfnOutcome<T> {
    /// The thread-safe function was never installed.
    NotInitialized,
    /// Dispatching the call failed with this status.
    CallFailed(String),
    /// No answer arrived in time.
    TimedOut,
    /// The answer channel was dropped before an answer.
    Dropped,
    /// The promise settled: its value, or its rejection message.
    Settled(Result<T, String>),
}

/// The name of an operation in the manager's messages.
pub open spec fn op_word(op: AutostartOp) -> Seq<char> {
    match op {
        AutostartOp::Enable => "enable"@,
        AutostartOp::Disable => "disable"@,
        AutostartOp::IsEnabled => "isEnabled"@,
    }
}

/// The name of an operation's ArkTS function.
pub open spec fn op_function(op: AutostartOp) -> Seq<char> {
    match op {
        AutostartOp::Enable => "autostartEnable"@,
        AutostartOp::Disable => "autostartDisable"@,
        AutostartOp::IsEnabled => "autostartIsEnabled"@,
    }
}

/// The reason a failed manager call reports.
pub open spec fn tsfn_failure_reason<T>(op: AutostartOp, o: TsfnOutcome<T>) -> Seq<char> {
    match o {
        TsfnOutcome::NotInitialized => "autostart "@ + op_word(op) + " TSFN not initialized"@,
        TsfnOutcome::CallFailed(status) => "call "@ + op_function(op) + " TSFN failed: "@ + status@,
        TsfnOutcome::TimedOut => "autostart "@ + op_word(op) + " timed out"@,
        TsfnOutcome::Dropped => "autostart "@ + op_word(op) + " receiver dropped"@,
        TsfnOutcome::Settled(Err(message)) => message@,
        TsfnOutcome::Settled(Ok(_)) => Seq::empty(),
    }
}

fn op_word_str(op: AutostartOp) -> (r: &'static str)
    ensures
        r@ == op_word(op),
{
    match op {
        AutostartOp::Enable => "enable",
        AutostartOp::Disable => "disable",
        AutostartOp::IsEnabled => "isEnabled",
    }
}

fn op_function_str(op: AutostartOp) -> (r: &'static str)
    ensures
        r@ == op_function(op),
{
    match op {
        AutostartOp::Enable => "autostartEnable",
        AutostartOp::Disable => "autostartDisable",
        AutostartOp::IsEnabled => "autostartIsEnabled",
    }
}

/// The system autostart manager, reached through ArkTS thread-safe functions.
pub struct AutostartManager;

impl AutostartManager {
/// The result of a system autostart manager call.
pub fn call_result<T>(&self, op: AutostartOp, o: TsfnOutcome<T>) -> (r: Result<T, BridgeError>)
    ensures
        o matches TsfnOutcome::Settled(Ok(v)) ==> r == Ok::<T, BridgeError>(v),
        !(o matches TsfnOutcome::Settled(Ok(_))) ==> (r matches Err(e) && e.reason@ == tsfn_failure_reason(op, o)),
{
    let ghost go = o;
    match o {
        TsfnOutcome::NotInitialized => {
            let mut reason = String::from_str("autostart ");
            reason.append(op_word_str(op));
            reason.append(" TSFN not initialized");
            Err(BridgeError { reason })
        },
        TsfnOutcome::CallFailed(status) => {
            let mut reason = String::from_str("call ");
            reason.append(op_function_str(op));
            reason.append(" TSFN failed: ");
            reason.append(status.as_str());
            Err(BridgeError { reason })
        },
        TsfnOutcome::TimedOut => {
            let mut reason = String::from_str("autostart ");
            reason.append(op_word_str(op));
            reason.append(" timed out");
            Err(BridgeError { reason })
        },
        TsfnOutcome::Dropped => {
            let mut reason = String::from_str("autostart ");
            reason.append(op_word_str(op));
            reason.append(" receiver dropped");
            Err(BridgeError { reason })
        },
        TsfnOutcome::Settled(Ok(v)) => Ok(v),
        TsfnOutcome::Settled(Err(message)) => Err(BridgeError { reason: message }),
    }
}
}

} // verus!
