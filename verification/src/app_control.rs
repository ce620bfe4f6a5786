//! The app-control plugin: terminate, restart, hide and show the ability,
//! set the color mode, and start another UIAbility instance.

use vstd::prelude::*;

use crate::text::{decimal_text, int_text};
use crate::bridge::{
    accepted_or, ensure_accepted, outcome, BridgeContextRequirement, BridgeError, BridgeNapiType,
    BridgePlugin,
};

verus! {

/// The app-control bridge plugin.
pub struct AppControlBridgePlugin;

impl BridgePlugin for AppControlBridgePlugin {
    const ID: &'static str = "ohos.app-control";

    open spec fn spec_required_contexts() -> Seq<BridgeContextRequirement> {
        seq![BridgeContextRequirement::Ability]
    }

    fn required_contexts() -> (r: &'static [BridgeContextRequirement]) {
        let r: &'static [BridgeContextRequirement] = &[BridgeContextRequirement::Ability];
        r
    }
}

/// First SDK API level that can restart the app.
pub const MIN_RESTART_API_VERSION: i32 = 12;

#[derive(Clone, Copy, Debug)]
pub struct TerminateRequest {
    pub code: i32,
}

impl BridgeNapiType for TerminateRequest {
    const TYPE_NAME: &'static str = "ohos.app_control.TerminateRequest";
}

#[derive(Clone, Copy, Debug)]
pub struct TerminateResponse {
    pub accepted: bool,
}

impl BridgeNapiType for TerminateResponse {
    const TYPE_NAME: &'static str = "ohos.app_control.TerminateResponse";
}

#[derive(Clone, Copy, Debug)]
pub struct RestartRequest {
}

impl BridgeNapiType for RestartRequest {
    const TYPE_NAME: &'static str = "ohos.app_control.RestartRequest";
}

#[derive(Clone, Copy, Debug)]
pub struct RestartResponse {
    pub accepted: bool,
}

impl BridgeNapiType for RestartResponse {
    const TYPE_NAME: &'static str = "ohos.app_control.RestartResponse";
}

#[derive(Clone, Copy, Debug)]
pub struct HideAbilityRequest {
}

impl BridgeNapiType for HideAbilityRequest {
    const TYPE_NAME: &'static str = "ohos.app_control.HideAbilityRequest";
}

#[derive(Clone, Copy, Debug)]
pub struct HideAbilityResponse {
    pub accepted: bool,
}

impl BridgeNapiType for HideAbilityResponse {
    const TYPE_NAME: &'static str = "ohos.app_control.HideAbilityResponse";
}

#[derive(Clone, Copy, Debug)]
pub struct ShowAbilityRequest {
}

impl BridgeNapiType for ShowAbilityRequest {
    const TYPE_NAME: &'static str = "ohos.app_control.ShowAbilityRequest";
}

#[derive(Clone, Copy, Debug)]
pub struct ShowAbilityResponse {
    pub accepted: bool,
}

impl BridgeNapiType for ShowAbilityResponse {
    const TYPE_NAME: &'static str = "ohos.app_control.ShowAbilityResponse";
}

#[derive(Clone, Copy, Debug)]
pub struct SetColorModeRequest {
    pub color_mode: i32,
}

impl BridgeNapiType for SetColorModeRequest {
    const TYPE_NAME: &'static str = "ohos.app_control.SetColorModeRequest";
}

#[derive(Clone, Copy, Debug)]
pub struct SetColorModeResponse {
    pub accepted: bool,
}

impl BridgeNapiType for SetColorModeResponse {
    const TYPE_NAME: &'static str = "ohos.app_control.SetColorModeResponse";
}

#[derive(Clone, Debug)]
pub struct StartUiAbilityRequest {
    pub window_id: i64,
    pub label: String,
    pub url: String,
    pub transparent: bool,
}

impl BridgeNapiType for StartUiAbilityRequest {
    const TYPE_NAME: &'static str = "ohos.app_control.StartUiAbilityRequest";
}

#[derive(Clone, Copy, Debug)]
pub struct StartUiAbilityResponse {
    pub accepted: bool,
}

impl BridgeNapiType for StartUiAbilityResponse {
    const TYPE_NAME: &'static str = "ohos.app_control.StartUiAbilityResponse";
}

impl TerminateResponse {
    /// `Ok` when the plugin accepted the operation.
    pub fn ensure(self) -> (r: Result<(), BridgeError>)
        ensures
            outcome(r) == accepted_or(self.accepted, "App-control plugin rejected termination"@),
    {
        ensure_accepted(self.accepted, "App-control plugin rejected termination")
    }
}

impl RestartResponse {
    /// `Ok` when the plugin accepted the operation.
    pub fn ensure(self) -> (r: Result<(), BridgeError>)
        ensures
            outcome(r) == accepted_or(self.accepted, "App-control plugin rejected restart"@),
    {
        ensure_accepted(self.accepted, "App-control plugin rejected restart")
    }
}

impl HideAbilityResponse {
    /// `Ok` when the plugin accepted the operation.
    pub fn ensure(self) -> (r: Result<(), BridgeError>)
        ensures
            outcome(r) == accepted_or(self.accepted, "App-control plugin rejected hide-ability"@),
    {
        ensure_accepted(self.accepted, "App-control plugin rejected hide-ability")
    }
}

impl ShowAbilityResponse {
    /// `Ok` when the plugin accepted the operation.
    pub fn ensure(self) -> (r: Result<(), BridgeError>)
        ensures
            outcome(r) == accepted_or(self.accepted, "App-control plugin rejected show-ability"@),
    {
        ensure_accepted(self.accepted, "App-control plugin rejected show-ability")
    }
}

impl SetColorModeResponse {
    /// `Ok` when the plugin accepted the operation.
    pub fn ensure(self) -> (r: Result<(), BridgeError>)
        ensures
            outcome(r) == accepted_or(self.accepted, "App-control plugin rejected color mode change"@),
    {
        ensure_accepted(self.accepted, "App-control plugin rejected color mode change")
    }
}

impl StartUiAbilityResponse {
    /// `Ok` when the plugin accepted the operation.
    pub fn ensure(self) -> (r: Result<(), BridgeError>)
        ensures
            outcome(r) == accepted_or(self.accepted, "App-control plugin rejected start-ui-ability"@),
    {
        ensure_accepted(self.accepted, "App-control plugin rejected start-ui-ability")
    }
}

/// The reason a restart is refused on a system below the restart API level.
pub open spec fn restart_unsupported_reason(sdk_api_version: i32) -> Seq<char> {
    "restart requires API level 12+ on OpenHarmony (current: "@ + int_text(sdk_api_version as int)
        + ")"@
}

/// Whether the system can restart the app.
pub fn check_restart(sdk_api_version: i32) -> (r: Result<(), BridgeError>)
    ensures
        r is Ok <==> sdk_api_version >= MIN_RESTART_API_VERSION,
        r matches Err(e) ==> e.reason@ == restart_unsupported_reason(sdk_api_version),
{
    if sdk_api_version < MIN_RESTART_API_VERSION {
        let mut reason = String::from_str("restart requires API level 12+ on OpenHarmony (current: ");
        let n = decimal_text(sdk_api_version as i64);
        reason.append(n.as_str());
        reason.append(")");
        return Err(BridgeError { reason });
    }
    Ok(())
}

/// Starts another UIAbility instance: its label is registered for the
/// instance's window id first, and the request to send is returned.
pub fn start_ui_ability_request(
    registry: &mut crate::registry::ProcessRegistry,
    window_id: i64,
    label: String,
    url: String,
    transparent: bool,
) -> (r: StartUiAbilityRequest)
    requires
        old(registry).wf(),
    ensures
        final(registry).wf(),
        final(registry)@ == (crate::registry::ProcessRegistryView {
            labels: old(registry)@.labels.insert(label@, window_id),
            ..old(registry)@
        }),
        r.window_id == window_id && r.label@ == label@ && r.url@ == url@ && r.transparent == transparent,
{
    crate::registry::register_window_label(registry, label.as_str(), window_id);
    StartUiAbilityRequest { window_id, label, url, transparent }
}

} // verus!
