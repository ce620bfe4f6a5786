//! The typed ArkTS bridge contract shared by every plugin: the context a
//! plugin needs before it can serve a call, the stable type names carried
//! across the bridge, and the error every bridge operation reports.

use vstd::prelude::*;

use crate::keyed::text_eq;

verus! {

/// What a plugin needs from ArkTS before it can serve a call.
#[derive(Clone, Copy, Debug, PartialEq, Eq, Structural)]
pub enum BridgeContextRequirement {
    Ability,
    WindowStage,
    UiContext,
}

/// A value carried across the ArkTS bridge under a stable, named contract.
pub trait BridgeNapiType {
    const TYPE_NAME: &'static str;
}

/// A plugin registered with the bridge: its contract id and the ArkTS
/// contexts it requires.
pub trait BridgePlugin {
    const ID: &'static str;

    spec fn spec_required_contexts() -> Seq<BridgeContextRequirement>;

    fn required_contexts() -> (r: &'static [BridgeContextRequirement])
        ensures
            r@ == Self::spec_required_contexts(),
    ;
}

/// The error of a bridge operation: a human-readable reason.
#[derive(Clone, Debug)]
pub struct BridgeError {
    pub reason: String,
}

impl BridgeError {
    pub fn from_reason(reason: &str) -> (r: BridgeError)
        ensures
            r.reason@ == reason@,
    {
        BridgeError { reason: reason.to_owned() }
    }
}

/// The reason given for a main-thread event name that a plugin does not handle.
pub open spec fn unsupported_event_reason(plugin_id: Seq<char>, name: Seq<char>) -> Seq<char> {
    "Unsupported "@ + plugin_id + " main-thread event '"@ + name + "'"@
}

/// The error a plugin answers to a main-thread event it does not handle.
pub fn unsupported_event(plugin_id: &str, name: &str) -> (r: BridgeError)
    ensures
        r.reason@ == unsupported_event_reason(plugin_id@, name@),
{
    let mut reason = String::from_str("Unsupported ");
    reason.append(plugin_id);
    reason.append(" main-thread event '");
    reason.append(name);
    reason.append("'");
    BridgeError { reason }
}

/// `Ok(())` when the plugin accepted the operation, else the error with `reason`.
pub open spec fn accepted_or(accepted: bool, reason: Seq<char>) -> Result<(), Seq<char>> {
    if accepted {
        Ok(())
    } else {
        Err(reason)
    }
}

/// The view of a unit bridge result: the reason of its error.
pub open spec fn outcome(r: Result<(), BridgeError>) -> Result<(), Seq<char>> {
    match r {
        Ok(()) => Ok(()),
        Err(e) => Err(e.reason@),
    }
}

/// Maps an acknowledgement flag to the bridge result, rejecting with `reason`.
pub fn ensure_accepted(accepted: bool, reason: &str) -> (r: Result<(), BridgeError>)
    ensures
        outcome(r) == accepted_or(accepted, reason@),
{
    if accepted {
        Ok(())
    } else {
        Err(BridgeError::from_reason(reason))
    }
}

/// Whether a main-thread event carries the given name.
pub fn event_is(name: &str, expected: &str) -> (r: bool)
    ensures
        r == (name@ == expected@),
{
    text_eq(name, expected)
}

} // verus!
