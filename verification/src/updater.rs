//! The AppGallery updater: update check and install.

use vstd::prelude::*;

use crate::bridge::{
    accepted_or, ensure_accepted, outcome, BridgeContextRequirement, BridgeError, BridgeNapiType,
    BridgePlugin,
};

verus! {

/// The updater bridge plugin.
pub struct UpdaterBridgePlugin;

impl BridgePlugin for UpdaterBridgePlugin {
    const ID: &'static str = "ohos.updater";

    open spec fn spec_required_contexts() -> Seq<BridgeContextRequirement> {
        seq![BridgeContextRequirement::Ability]
    }

    fn required_contexts() -> (r: &'static [BridgeContextRequirement]) {
        let r: &'static [BridgeContextRequirement] = &[BridgeContextRequirement::Ability];
        r
    }
}

#[derive(Clone, Copy, Debug)]
pub struct UpdaterCheckRequest {
}

impl BridgeNapiType for UpdaterCheckRequest {
    const TYPE_NAME: &'static str = "ohos.updater.CheckRequest";
}

#[derive(Clone, Debug)]
pub struct UpdaterCheckResponse {
    pub update_available: bool,
    pub current_version: String,
    pub version: String,
    pub body: Option<String>,
    pub date: Option<String>,
}

impl BridgeNapiType for UpdaterCheckResponse {
    const TYPE_NAME: &'static str = "ohos.updater.CheckResponse";
}

#[derive(Clone, Copy, Debug)]
pub struct UpdaterDownloadAndInstallRequest {
}

impl BridgeNapiType for UpdaterDownloadAndInstallRequest {
    const TYPE_NAME: &'static str = "ohos.updater.DownloadAndInstallRequest";
}

#[derive(Clone, Copy, Debug)]
pub struct UpdaterDownloadAndInstallResponse {
    pub accepted: bool,
}

impl BridgeNapiType for UpdaterDownloadAndInstallResponse {
    const TYPE_NAME: &'static str = "ohos.updater.DownloadAndInstallResponse";
}

/// An available update.
#[derive(Clone, Debug)]
pub struct CheckResult {
    pub current_version: String,
    pub version: String,
    pub body: Option<String>,
    pub date: Option<String>,
}

/// The available update a check answer reports, or `None` when the app is
/// up to date.
pub fn check_result(response: UpdaterCheckResponse) -> (r: Option<CheckResult>)
    ensures
        r is Some <==> response.update_available,
        r matches Some(c) ==> c.current_version == response.current_version && c.version
            == response.version && c.body == response.body && c.date == response.date,
{
    if !response.update_available {
        return None;
    }
    Some(CheckResult {
        current_version: response.current_version,
        version: response.version,
        body: response.body,
        date: response.date,
    })
}

impl UpdaterDownloadAndInstallResponse {
    /// `Ok` when the plugin accepted the installation.
    pub fn ensure(self) -> (r: Result<(), BridgeError>)
        ensures
            outcome(r) == accepted_or(self.accepted, "updater downloadAndInstall rejected by plugin"@),
    {
        ensure_accepted(self.accepted, "updater downloadAndInstall rejected by plugin")
    }
}

/// The AppGallery updater facade.
pub struct Updater;

impl Updater {
    /// The available update a check answer reports.
    pub fn check(&self, response: UpdaterCheckResponse) -> (r: Option<CheckResult>)
        ensures
            r is Some <==> response.update_available,
            r matches Some(c) ==> c.current_version == response.current_version && c.version
                == response.version && c.body == response.body && c.date == response.date,
    {
        check_result(response)
    }

    /// The result of a download-and-install request.
    pub fn download_and_install(&self, response: UpdaterDownloadAndInstallResponse) -> (r: Result<(), BridgeError>)
        ensures
            outcome(r) == accepted_or(response.accepted, "updater downloadAndInstall rejected by plugin"@),
    {
        response.ensure()
    }
}

} // verus!
