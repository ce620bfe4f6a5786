//! The API levels of the running system, recorded once at startup.
//!
//! The SDK API version (e.g. 14, 20) and the distribution OS API version
//! (`major * 10000 + minor * 100 + fix`, e.g. 50001 for HarmonyOS 5.0.1) are
//! written by the first `init` and never change afterwards; before that both
//! read as 0.

use vstd::prelude::*;

verus! {

/// The recorded API levels; each is written at most once.
pub struct ApiVersions {
    sdk: Option<i32>,
    distribution: Option<i32>,
}

impl View for ApiVersions {
    type V = (Option<i32>, Option<i32>);

    closed spec fn view(&self) -> (Option<i32>, Option<i32>) {
        (self.sdk, self.distribution)
    }
}

/// A recorded level, or 0 when none was recorded.
pub open spec fn level_or_zero(level: Option<i32>) -> i32 {
    match level {
        Some(v) => v,
        None => 0,
    }
}

impl ApiVersions {
    pub fn new() -> (r: Self)
        ensures
            r@ == (None::<i32>, None::<i32>),
    {
        ApiVersions { sdk: None, distribution: None }
    }
}

/// Records both API levels; a level that was already recorded keeps its
/// first value.
pub fn init(versions: &mut ApiVersions, sdk_version: i32, dist_version: i32)
    ensures
        final(versions)@.0 == (if old(versions)@.0 is Some {
            old(versions)@.0
        } else {
            Some(sdk_version)
        }),
        final(versions)@.1 == (if old(versions)@.1 is Some {
            old(versions)@.1
        } else {
            Some(dist_version)
        }),
{
    if versions.sdk.is_none() {
        versions.sdk = Some(sdk_version);
    }
    if versions.distribution.is_none() {
        versions.distribution = Some(dist_version);
    }
}

/// The SDK API version, or 0 before `init`.
pub fn sdk_api_version(versions: &ApiVersions) -> (r: i32)
    ensures
        r == level_or_zero(versions@.0),
{
    match versions.sdk {
        Some(v) => v,
        None => 0,
    }
}

/// The distribution OS API version, or 0 before `init`.
pub fn distribution_api_version(versions: &ApiVersions) -> (r: i32)
    ensures
        r == level_or_zero(versions@.1),
{
    match versions.distribution {
        Some(v) => v,
        None => 0,
    }
}

/// Only the first `init` counts: a second one leaves both levels as they were.
pub proof fn law_init_is_idempotent(
    before: (Option<i32>, Option<i32>),
    first: (i32, i32),
    second: (i32, i32),
)
    ensures
        ({
            let once = (
                if before.0 is Some { before.0 } else { Some(first.0) },
                if before.1 is Some { before.1 } else { Some(first.1) },
            );
            let twice = (
                if once.0 is Some { once.0 } else { Some(second.0) },
                if once.1 is Some { once.1 } else { Some(second.1) },
            );
            twice == once
        }),
{
}

} // verus!
