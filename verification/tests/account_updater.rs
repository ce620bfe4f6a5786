use openharmony_ability::account::{
    AccountBridgePlugin, AccountInfo, AccountLoginRequest, AccountLoginResponse,
    AccountLogoutRequest, AccountLogoutResponse, HuaweiAccount,
};
use openharmony_ability::bridge::{BridgeContextRequirement, BridgeNapiType, BridgePlugin};
use openharmony_ability::updater::{
    check_result, Updater, UpdaterBridgePlugin, UpdaterCheckRequest, UpdaterCheckResponse,
    UpdaterDownloadAndInstallRequest, UpdaterDownloadAndInstallResponse,
};

fn login_response() -> AccountLoginResponse {
    AccountLoginResponse {
        uid: "10001".into(),
        open_id: "OPENID_ABC".into(),
        union_id: "UNIONID_XYZ".into(),
        display_name: "Alice".into(),
        avatar_uri: "https://example.com/a.png".into(),
        authorization_code: "AUTHCODE123".into(),
        access_token: Some("ATOKEN".into()),
    }
}

#[test]
fn account_info_default_empty() {
    let info = AccountInfo::default();
    assert_eq!(info.uid, "");
    assert_eq!(info.authorization_code, "");
    assert_eq!(info.access_token, None);
}

#[test]
fn account_response_converts_to_account_info() {
    let info: AccountInfo = login_response().into();
    assert_eq!(info.uid, "10001");
    assert_eq!(info.open_id, "OPENID_ABC");
    assert_eq!(info.access_token, Some("ATOKEN".to_string()));
}

#[test]
fn login_result_keeps_every_field() {
    let info = HuaweiAccount.login_result(login_response());
    assert_eq!(info.union_id, "UNIONID_XYZ");
    assert_eq!(info.display_name, "Alice");
    assert_eq!(info.avatar_uri, "https://example.com/a.png");
    assert_eq!(info.authorization_code, "AUTHCODE123");
}

#[test]
fn logout_result_follows_the_acknowledgement() {
    assert!(HuaweiAccount.logout_result(AccountLogoutResponse { accepted: true }).is_ok());
    let err = HuaweiAccount
        .logout_result(AccountLogoutResponse { accepted: false })
        .unwrap_err();
    assert_eq!(err.reason, "account logout rejected by plugin");
}

#[test]
fn account_plugin_targets_ability_context() {
    assert_eq!(AccountBridgePlugin::ID, "ohos.account");
    assert_eq!(
        AccountBridgePlugin::required_contexts(),
        &[BridgeContextRequirement::Ability]
    );
}

#[test]
fn account_types_have_stable_named_napi_contracts() {
    assert_eq!(<AccountLoginRequest as BridgeNapiType>::TYPE_NAME, "ohos.account.LoginRequest");
    assert_eq!(<AccountLoginResponse as BridgeNapiType>::TYPE_NAME, "ohos.account.LoginResponse");
    assert_eq!(<AccountLogoutRequest as BridgeNapiType>::TYPE_NAME, "ohos.account.LogoutRequest");
    assert_eq!(<AccountLogoutResponse as BridgeNapiType>::TYPE_NAME, "ohos.account.LogoutResponse");
}

#[test]
fn updater_plugin_targets_ability_context() {
    assert_eq!(UpdaterBridgePlugin::ID, "ohos.updater");
    assert_eq!(
        UpdaterBridgePlugin::required_contexts(),
        &[BridgeContextRequirement::Ability]
    );
}

#[test]
fn updater_types_have_stable_named_napi_contracts() {
    assert_eq!(<UpdaterCheckRequest as BridgeNapiType>::TYPE_NAME, "ohos.updater.CheckRequest");
    assert_eq!(<UpdaterCheckResponse as BridgeNapiType>::TYPE_NAME, "ohos.updater.CheckResponse");
    assert_eq!(
        <UpdaterDownloadAndInstallRequest as BridgeNapiType>::TYPE_NAME,
        "ohos.updater.DownloadAndInstallRequest"
    );
    assert_eq!(
        <UpdaterDownloadAndInstallResponse as BridgeNapiType>::TYPE_NAME,
        "ohos.updater.DownloadAndInstallResponse"
    );
}

#[test]
fn check_reports_an_available_update_only() {
    let response = UpdaterCheckResponse {
        update_available: true,
        current_version: "1.0.0".into(),
        version: "2.0.0".into(),
        body: Some("Bug fixes".into()),
        date: Some("2025-01-15".into()),
    };
    let result = Updater.check(response.clone()).unwrap();
    assert_eq!(result.current_version, "1.0.0");
    assert_eq!(result.version, "2.0.0");
    assert_eq!(result.body, Some("Bug fixes".into()));
    assert_eq!(result.date, Some("2025-01-15".into()));
    let up_to_date = UpdaterCheckResponse { update_available: false, ..response };
    assert!(check_result(up_to_date).is_none());
}

#[test]
fn download_and_install_follows_the_acknowledgement() {
    assert!(Updater
        .download_and_install(UpdaterDownloadAndInstallResponse { accepted: true })
        .is_ok());
    assert_eq!(
        Updater
            .download_and_install(UpdaterDownloadAndInstallResponse { accepted: false })
            .unwrap_err()
            .reason,
        "updater downloadAndInstall rejected by plugin"
    );
}
