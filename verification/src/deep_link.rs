//! The deep-link plugin: the URI an app was opened with.

use vstd::prelude::*;

use crate::bridge::{BridgeContextRequirement, BridgeNapiType, BridgePlugin};

verus! {

/// The deep-link bridge plugin.
pub struct DeepLinkBridgePlugin;

impl BridgePlugin for DeepLinkBridgePlugin {
    const ID: &'static str = "ohos.deep-link";

    open spec fn spec_required_contexts() -> Seq<BridgeContextRequirement> {
        seq![BridgeContextRequirement::Ability]
    }

    fn required_contexts() -> (r: &'static [BridgeContextRequirement]) {
        let r: &'static [BridgeContextRequirement] = &[BridgeContextRequirement::Ability];
        r
    }
}

#[derive(Clone, Copy, Debug)]
pub struct DeepLinkGetUriRequest {
}

impl BridgeNapiType for DeepLinkGetUriRequest {
    const TYPE_NAME: &'static str = "ohos.deep-link.GetUriRequest";
}

#[derive(Clone, Debug)]
pub struct DeepLinkGetUriResponse {
    pub uri: Option<String>,
}

impl BridgeNapiType for DeepLinkGetUriResponse {
    const TYPE_NAME: &'static str = "ohos.deep-link.GetUriResponse";
}

/// A URI as the app sees it: an empty URI means there is none.
pub open spec fn normalized_uri(uri: Option<Seq<char>>) -> Option<Seq<char>> {
    match uri {
        Some(u) => if u.len() == 0 { None } else { Some(u) },
        None => None,
    }
}

pub open spec fn uri_view(uri: Option<String>) -> Option<Seq<char>> {
    match uri {
        Some(u) => Some(u@),
        None => None,
    }
}

/// Drops an empty URI.
pub fn normalize_uri(uri: Option<String>) -> (r: Option<String>)
    ensures
        uri_view(r) == normalized_uri(uri_view(uri)),
{
    match uri {
        Some(u) => {
            if u.as_str().is_empty() {
                None
            } else {
                Some(u)
            }
        },
        None => None,
    }
}

/// The URI of a deep-link answer.
pub fn response_uri(response: DeepLinkGetUriResponse) -> (r: Option<String>)
    ensures
        uri_view(r) == normalized_uri(uri_view(response.uri)),
{
    normalize_uri(response.uri)
}

} // verus!
