//! The permission plugin: what a permission request names, its validation,
//! and the pairing of the granted codes with the requested names.

use vstd::prelude::*;

use crate::bridge::{BridgeContextRequirement, BridgeError, BridgeNapiType, BridgePlugin};
use crate::text::{blank, copy_strings, decimal_text, int_text, is_blank, views_of};

verus! {

/// The permission bridge plugin.
pub struct PermissionBridgePlugin;

impl BridgePlugin for PermissionBridgePlugin {
    const ID: &'static str = "ohos.permission";

    open spec fn spec_required_contexts() -> Seq<BridgeContextRequirement> {
        seq![BridgeContextRequirement::Ability]
    }

    fn required_contexts() -> (r: &'static [BridgeContextRequirement]) {
        let r: &'static [BridgeContextRequirement] = &[BridgeContextRequirement::Ability];
        r
    }
}

/// One permission, or several in order.
#[derive(Clone, Debug)]
pub enum PermissionRequest {
    One(String),
    Many(Vec<String>),
}

/// The permission names a request carries, in order.
pub open spec fn requested(r: PermissionRequest) -> Seq<String> {
    match r {
        PermissionRequest::One(p) => seq![p],
        PermissionRequest::Many(ps) => ps@,
    }
}

impl PermissionRequest {
    /// The permission names, in the order requested.
    pub fn permissions(self) -> (r: Vec<String>)
        ensures
            r@ == requested(self),
    {
        match self {
            PermissionRequest::One(permission) => {
                let mut v = Vec::new();
                v.push(permission);
                v
            },
            PermissionRequest::Many(permissions) => permissions,
        }
    }
}

impl From<String> for PermissionRequest {
    fn from(permission: String) -> (r: PermissionRequest) {
        PermissionRequest::One(permission)
    }
}

impl vstd::std_specs::convert::FromSpecImpl<String> for PermissionRequest {
    open spec fn obeys_from_spec() -> bool {
        true
    }

    open spec fn from_spec(v: String) -> PermissionRequest {
        PermissionRequest::One(v)
    }
}

impl From<Vec<String>> for PermissionRequest {
    fn from(permissions: Vec<String>) -> (r: PermissionRequest) {
        PermissionRequest::Many(permissions)
    }
}

impl vstd::std_specs::convert::FromSpecImpl<Vec<String>> for PermissionRequest {
    open spec fn obeys_from_spec() -> bool {
        true
    }

    open spec fn from_spec(v: Vec<String>) -> PermissionRequest {
        PermissionRequest::Many(v)
    }
}

/// The code granted for one permission.
#[derive(Clone, Debug)]
pub struct PermissionRequestCode {
    pub permission: String,
    pub code: i32,
}

#[derive(Clone, Debug)]
pub struct PermissionRequestPayload {
    pub permissions: Vec<String>,
}

impl BridgeNapiType for PermissionRequestPayload {
    const TYPE_NAME: &'static str = "ohos.permission.PermissionRequest";
}

#[derive(Clone, Debug)]
pub struct PermissionResponsePayload {
    pub codes: Vec<i32>,
}

impl BridgeNapiType for PermissionResponsePayload {
    const TYPE_NAME: &'static str = "ohos.permission.PermissionResponse";
}

/// A request is valid when it names at least one permission and no name is
/// blank.
pub open spec fn valid_request(permissions: Seq<String>) -> bool {
    permissions.len() > 0 && forall|i: int| 0 <= i < permissions.len() ==> !is_blank(#[trigger] permissions[i]@)
}

/// Checks a permission request.
pub fn validate_request(permissions: &Vec<String>) -> (r: Result<(), BridgeError>)
    ensures
        r is Ok <==> valid_request(permissions@),
        r matches Err(e) ==> e.reason@
            == "Permission requests must contain one or more non-empty permission names"@,
{
    let mut ok = permissions.len() > 0;
    let mut i: usize = 0;
    while i < permissions.len()
        invariant
            i <= permissions@.len(),
            ok <==> (permissions@.len() > 0 && forall|j: int| 0 <= j < i ==> !is_blank(#[trigger] permissions@[j]@)),
        decreases permissions.len() - i,
    {
        if blank(permissions[i].as_str()) {
            ok = false;
        }
        i += 1;
    }
    if ok {
        Ok(())
    } else {
        Err(BridgeError::from_reason("Permission requests must contain one or more non-empty permission names"))
    }
}

/// The payload sent for a valid request.
pub fn request_payload(permissions: &Vec<String>) -> (r: Result<PermissionRequestPayload, BridgeError>)
    ensures
        r is Ok <==> valid_request(permissions@),
        r matches Ok(p) ==> views_of(p.permissions@) == views_of(permissions@),
{
    match validate_request(permissions) {
        Ok(()) => {
            let copy = copy_strings(permissions);
            Ok(PermissionRequestPayload { permissions: copy })
        },
        Err(e) => Err(e),
    }
}

/// The reason given when the plugin answers with the wrong number of codes.
pub open spec fn count_mismatch_reason(codes: int, requested: int) -> Seq<char> {
    "Permission plugin returned "@ + int_text(codes) + " results for "@ + int_text(requested)
        + " requested permissions"@
}

/// Pairs each requested permission with its granted code, in order; the
/// plugin must answer one code per permission.
pub fn pair_codes(permissions: Vec<String>, codes: Vec<i32>) -> (r: Result<Vec<PermissionRequestCode>, BridgeError>)
    requires
        codes@.len() <= i64::MAX,
        permissions@.len() <= i64::MAX,
    ensures
        codes@.len() != permissions@.len() ==> (r matches Err(e) && e.reason@ == count_mismatch_reason(
            codes@.len() as int,
            permissions@.len() as int,
        )),
        codes@.len() == permissions@.len() ==> (r matches Ok(pairs) && pairs@.len() == permissions@.len()
            && forall|i: int| 0 <= i < pairs@.len() ==> #[trigger] pairs@[i].permission == permissions@[i]
                && pairs@[i].code == codes@[i]),
{
    if codes.len() != permissions.len() {
        let mut reason = String::from_str("Permission plugin returned ");
        let a = decimal_text(codes.len() as i64);
        reason.append(a.as_str());
        reason.append(" results for ");
        let b = decimal_text(permissions.len() as i64);
        reason.append(b.as_str());
        reason.append(" requested permissions");
        assert(codes.len() as i64 as int == codes@.len());
        assert(permissions.len() as i64 as int == permissions@.len());
        assert(reason@ == count_mismatch_reason(codes@.len() as int, permissions@.len() as int));
        return Err(BridgeError { reason });
    }
    let mut pairs: Vec<PermissionRequestCode> = Vec::new();
    let mut rest = permissions;
    let ghost all = rest@;
    let mut i: usize = 0;
    while rest.len() > 0
        invariant
            i <= all.len(),
            all.len() == codes@.len(),
            rest@ == all.skip(i as int),
            pairs@.len() == i,
            forall|k: int| 0 <= k < i ==> #[trigger] pairs@[k].permission == all[k] && pairs@[k].code
                == codes@[k],
        decreases rest.len(),
    {
        let p = rest.remove(0);
        assert(p == all[i as int]);
        assert(rest@ =~= all.skip(i + 1));
        assert(i < codes.len());
        pairs.push(PermissionRequestCode { permission: p, code: codes[i] });
        i += 1;
    }
    assert(all.skip(i as int).len() == 0);
    assert(i == all.len());
    Ok(pairs)
}

} // verus!
