//! The Huawei account plugin: login, silent login and logout.

use vstd::prelude::*;

use crate::bridge::{
    accepted_or, ensure_accepted, outcome, BridgeContextRequirement, BridgeError, BridgeNapiType,
    BridgePlugin,
};

verus! {

/// The account bridge plugin.
pub struct AccountBridgePlugin;

impl BridgePlugin for AccountBridgePlugin {
    const ID: &'static str = "ohos.account";

    open spec fn spec_required_contexts() -> Seq<BridgeContextRequirement> {
        seq![BridgeContextRequirement::Ability]
    }

    fn required_contexts() -> (r: &'static [BridgeContextRequirement]) {
        let r: &'static [BridgeContextRequirement] = &[BridgeContextRequirement::Ability];
        r
    }
}

/// How long an interactive login may take, in milliseconds.
pub const INTERACTIVE_LOGIN_TIMEOUT_MS: u32 = 300000;

#[derive(Clone, Copy, Debug)]
pub struct AccountLoginRequest {
}

impl BridgeNapiType for AccountLoginRequest {
    const TYPE_NAME: &'static str = "ohos.account.LoginRequest";
}

#[derive(Clone, Debug)]
pub struct AccountLoginResponse {
    pub uid: String,
    pub open_id: String,
    pub union_id: String,
    pub display_name: String,
    pub avatar_uri: String,
    pub authorization_code: String,
    pub access_token: Option<String>,
}

impl BridgeNapiType for AccountLoginResponse {
    const TYPE_NAME: &'static str = "ohos.account.LoginResponse";
}

#[derive(Clone, Copy, Debug)]
pub struct AccountLogoutRequest {
}

impl BridgeNapiType for AccountLogoutRequest {
    const TYPE_NAME: &'static str = "ohos.account.LogoutRequest";
}

#[derive(Clone, Copy, Debug)]
pub struct AccountLogoutResponse {
    pub accepted: bool,
}

impl BridgeNapiType for AccountLogoutResponse {
    const TYPE_NAME: &'static str = "ohos.account.LogoutResponse";
}

/// The signed-in account.
#[derive(Clone, Debug)]
pub struct AccountInfo {
    pub uid: String,
    pub open_id: String,
    pub union_id: String,
    pub display_name: String,
    pub avatar_uri: String,
    pub authorization_code: String,
    pub access_token: Option<String>,
}

impl From<AccountLoginResponse> for AccountInfo {
    fn from(response: AccountLoginResponse) -> (r: AccountInfo) {
        AccountInfo {
            uid: response.uid,
            open_id: response.open_id,
            union_id: response.union_id,
            display_name: response.display_name,
            avatar_uri: response.avatar_uri,
            authorization_code: response.authorization_code,
            access_token: response.access_token,
        }
    }
}

impl vstd::std_specs::convert::FromSpecImpl<AccountLoginResponse> for AccountInfo {
    open spec fn obeys_from_spec() -> bool {
        true
    }

    open spec fn from_spec(v: AccountLoginResponse) -> AccountInfo {
        AccountInfo {
            uid: v.uid,
            open_id: v.open_id,
            union_id: v.union_id,
            display_name: v.display_name,
            avatar_uri: v.avatar_uri,
            authorization_code: v.authorization_code,
            access_token: v.access_token,
        }
    }
}

impl AccountInfo {
    /// No account: every text empty, no access token.
    pub open spec fn is_empty(self) -> bool {
        &&& self.uid@.len() == 0
        &&& self.open_id@.len() == 0
        &&& self.union_id@.len() == 0
        &&& self.display_name@.len() == 0
        &&& self.avatar_uri@.len() == 0
        &&& self.authorization_code@.len() == 0
        &&& self.access_token is None
    }
}

impl Default for AccountInfo {
    fn default() -> (r: AccountInfo)
        ensures
            r.is_empty(),
    {
        AccountInfo {
            uid: String::new(),
            open_id: String::new(),
            union_id: String::new(),
            display_name: String::new(),
            avatar_uri: String::new(),
            authorization_code: String::new(),
            access_token: None,
        }
    }
}

impl AccountLogoutResponse {
    /// `Ok` when the plugin accepted the logout.
    pub fn ensure(self) -> (r: Result<(), BridgeError>)
        ensures
            outcome(r) == accepted_or(self.accepted, "account logout rejected by plugin"@),
    {
        ensure_accepted(self.accepted, "account logout rejected by plugin")
    }
}

/// The Huawei account facade.
pub struct HuaweiAccount;

impl HuaweiAccount {
    /// The account a login (interactive or silent) signed in.
    pub fn login_result(&self, response: AccountLoginResponse) -> (r: AccountInfo)
        ensures
            r.uid == response.uid,
            r.open_id == response.open_id,
            r.union_id == response.union_id,
            r.display_name == response.display_name,
            r.avatar_uri == response.avatar_uri,
            r.authorization_code == response.authorization_code,
            r.access_token == response.access_token,
    {
        AccountInfo::from(response)
    }

    /// The result of a logout.
    pub fn logout_result(&self, response: AccountLogoutResponse) -> (r: Result<(), BridgeError>)
        ensures
            outcome(r) == accepted_or(response.accepted, "account logout rejected by plugin"@),
    {
        response.ensure()
    }
}

} // verus!
