//! The demo module's plugins: a login flow run from a worker, a main-thread
//! inspection, and raw typed calls.

use vstd::prelude::*;

use crate::bridge::{BridgeContextRequirement, BridgeNapiType, BridgePlugin};

verus! {

/// The demo login plugin.
pub struct DemoLoginPlugin;

impl BridgePlugin for DemoLoginPlugin {
    const ID: &'static str = "demo.login";

    open spec fn spec_required_contexts() -> Seq<BridgeContextRequirement> {
        Seq::<BridgeContextRequirement>::empty()
    }

    fn required_contexts() -> (r: &'static [BridgeContextRequirement]) {
        let r: &'static [BridgeContextRequirement] = &[];
        r
    }
}

#[derive(Clone, Debug)]
pub struct LoginRequest {
    pub provider: String,
    pub scopes: Vec<String>,
}

impl BridgeNapiType for LoginRequest {
    const TYPE_NAME: &'static str = "demo.login.LoginRequest";
}

#[derive(Clone, Debug)]
pub struct LoginResponse {
    pub user_id: String,
    pub display_name: String,
    pub access_token: String,
    pub expires_at_ms: i64,
}

impl BridgeNapiType for LoginResponse {
    const TYPE_NAME: &'static str = "demo.login.LoginResponse";
}

#[derive(Clone, Copy, Debug)]
pub struct LoginPublishResponse {
    pub published: bool,
}

impl BridgeNapiType for LoginPublishResponse {
    const TYPE_NAME: &'static str = "demo.login.LoginPublishResponse";
}

/// How many logins were committed on the main thread.
pub struct LoginCommits {
    count: u64,
}

impl LoginCommits {
    pub closed spec fn count(&self) -> u64 {
        self.count
    }

    pub fn new() -> (r: Self)
        ensures
            r.count() == 0,
    {
        LoginCommits { count: 0 }
    }

    /// Counts one more committed login (wrapping, as an atomic counter does).
    pub fn record_commit(&mut self)
        ensures
            final(self).count() == (if old(self).count() == u64::MAX { 0 } else { (old(self).count() + 1) as u64 }),
    {
        self.count = if self.count == u64::MAX { 0 } else { self.count + 1 };
    }
}

/// The number of logins committed on the main thread.
pub fn main_thread_login_commit_count(commits: &LoginCommits) -> (r: u64)
    ensures
        r == commits.count(),
{
    commits.count
}

/// The request of the demo login: the demo provider, asking for the
/// profile and email scopes.
pub fn demo_login_request() -> (r: LoginRequest)
    ensures
        r.provider@ == "demo"@,
        r.scopes@.len() == 2 && r.scopes@[0]@ == "profile"@ && r.scopes@[1]@ == "email"@,
{
    let mut scopes: Vec<String> = Vec::new();
    scopes.push(String::from_str("profile"));
    scopes.push(String::from_str("email"));
    LoginRequest { provider: String::from_str("demo"), scopes }
}

/// The demo main-thread plugin.
pub struct DemoMainThreadPlugin;

impl BridgePlugin for DemoMainThreadPlugin {
    const ID: &'static str = "demo.main-thread";

    open spec fn spec_required_contexts() -> Seq<BridgeContextRequirement> {
        seq![BridgeContextRequirement::UiContext]
    }

    fn required_contexts() -> (r: &'static [BridgeContextRequirement]) {
        let r: &'static [BridgeContextRequirement] = &[BridgeContextRequirement::UiContext];
        r
    }
}

#[derive(Clone, Copy, Debug)]
pub struct MainThreadInspectRequest {
    pub requested: bool,
}

impl BridgeNapiType for MainThreadInspectRequest {
    const TYPE_NAME: &'static str = "demo.main-thread.InspectRequest";
}

#[derive(Clone, Debug)]
pub struct MainThreadInspectResponse {
    pub session_id: String,
    pub ui_context_ready: bool,
    pub execution: String,
}

impl BridgeNapiType for MainThreadInspectResponse {
    const TYPE_NAME: &'static str = "demo.main-thread.InspectResponse";
}

/// `true` or `false`, as `Display` writes a `bool`.
pub open spec fn bool_text(b: bool) -> Seq<char> {
    if b {
        "true"@
    } else {
        "false"@
    }
}

/// The one-line summary of a main-thread inspection.
pub open spec fn inspect_summary_text(r: MainThreadInspectResponse) -> Seq<char> {
    "session="@ + r.session_id@ + ", uiContextReady="@ + bool_text(r.ui_context_ready) + ", execution="@
        + r.execution@
}

/// Summarizes a main-thread inspection.
pub fn inspect_summary(response: &MainThreadInspectResponse) -> (r: String)
    ensures
        r@ == inspect_summary_text(*response),
{
    let mut s = String::from_str("session=");
    s.append(response.session_id.as_str());
    s.append(", uiContextReady=");
    s.append(if response.ui_context_ready { "true" } else { "false" });
    s.append(", execution=");
    s.append(response.execution.as_str());
    s
}

/// The demo plugin of raw typed calls.
pub struct DemoTypedPlugin;

impl BridgePlugin for DemoTypedPlugin {
    const ID: &'static str = "demo.raw";

    open spec fn spec_required_contexts() -> Seq<BridgeContextRequirement> {
        Seq::<BridgeContextRequirement>::empty()
    }

    fn required_contexts() -> (r: &'static [BridgeContextRequirement]) {
        let r: &'static [BridgeContextRequirement] = &[];
        r
    }
}

#[derive(Clone, Debug)]
pub struct DemoProfile {
    pub user_id: String,
    pub visit_count: i32,
}

impl BridgeNapiType for DemoProfile {
    const TYPE_NAME: &'static str = "demo.Profile";
}

} // verus!
