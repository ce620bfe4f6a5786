use openharmony_ability::version::{distribution_api_version, init, sdk_api_version, ApiVersions};

#[test]
fn test_version_calculation() {
    let encode = |major: i32, minor: i32, fix: i32| major * 10000 + minor * 100 + fix;
    assert_eq!(encode(5, 0, 0), 50000);
    assert_eq!(encode(5, 0, 1), 50001);
    assert_eq!(encode(5, 0, 2), 50002);
    assert_eq!(encode(5, 1, 0), 50100);
    assert_eq!(encode(6, 0, 0), 60000);
}

#[test]
fn test_version_comparison() {
    let v50001 = 50001;
    let v60000 = 60000;
    assert!(v60000 >= 50001);
    assert!(v50001 >= 50001);
    assert!(v50001 < 60000);
    let sdk_v14 = 14;
    let sdk_v12 = 12;
    assert!(sdk_v14 >= 14);
    assert!(sdk_v12 >= 12);
    assert!(sdk_v12 < 14);
}

#[test]
fn test_sdk_api_version_returns_value() {
    let versions = ApiVersions::new();
    let v = sdk_api_version(&versions);
    assert!(v >= 0);
}

#[test]
fn test_distribution_api_version_returns_value() {
    let versions = ApiVersions::new();
    let v = distribution_api_version(&versions);
    assert!(v >= 0);
}

#[test]
fn versions_read_zero_before_init() {
    let versions = ApiVersions::new();
    assert_eq!(sdk_api_version(&versions), 0);
    assert_eq!(distribution_api_version(&versions), 0);
}

#[test]
fn test_init_stores_values() {
    let mut versions = ApiVersions::new();
    init(&mut versions, 20, 60000);
    let sdk = sdk_api_version(&versions);
    let dist = distribution_api_version(&versions);
    assert!(sdk > 0, "sdk_api_version should be > 0 after init, got {sdk}");
    assert!(dist > 0, "distribution_api_version should be > 0 after init, got {dist}");
    assert_eq!(sdk, 20);
    assert_eq!(dist, 60000);
}

#[test]
fn test_init_is_idempotent() {
    let mut versions = ApiVersions::new();
    init(&mut versions, 14, 50001);
    let sdk_before = sdk_api_version(&versions);
    let dist_before = distribution_api_version(&versions);
    init(&mut versions, 99, 99999);
    assert_eq!(
        sdk_api_version(&versions),
        sdk_before,
        "OnceLock: sdk_api_version should not change on second init"
    );
    assert_eq!(
        distribution_api_version(&versions),
        dist_before,
        "OnceLock: distribution_api_version should not change on second init"
    );
}
