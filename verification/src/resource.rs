//! The resource plugin: the native resource manager ArkTS hands over, held
//! for the current ability and dropped when the ability is created anew or
//! destroyed. `M` is the native resource manager handle.

use vstd::prelude::*;

use crate::bridge::{
    unsupported_event, unsupported_event_reason, BridgeContextRequirement, BridgeError,
    BridgeNapiType, BridgePlugin,
};
use crate::keyed::text_eq;
use crate::lifecycle::PluginLifecycleEvent;

verus! {

/// The main-thread event with which ArkTS hands over the resource manager.
pub const RESOURCE_MANAGER_READY_EVENT: &'static str = "resource-manager-ready";

/// The resource bridge plugin and the resource manager it holds.
pub struct ResourceBridgePlugin<M> {
    resource_manager: Option<M>,
}

impl<M> BridgePlugin for ResourceBridgePlugin<M> {
    const ID: &'static str = "ohos.resource";

    open spec fn spec_required_contexts() -> Seq<BridgeContextRequirement> {
        seq![BridgeContextRequirement::Ability]
    }

    fn required_contexts() -> (r: &'static [BridgeContextRequirement]) {
        let r: &'static [BridgeContextRequirement] = &[BridgeContextRequirement::Ability];
        r
    }
}

#[derive(Clone, Copy, Debug)]
pub struct ResourceManagerReadyResponse {
    pub accepted: bool,
}

impl BridgeNapiType for ResourceManagerReadyResponse {
    const TYPE_NAME: &'static str = "ohos.resource.ResourceManagerReadyResponse";
}

impl<M> ResourceBridgePlugin<M> {
    pub closed spec fn held(&self) -> Option<M> {
        self.resource_manager
    }

    /// A plugin that holds no resource manager yet.
    pub fn new() -> (r: Self)
        ensures
            r.held() is None,
    {
        ResourceBridgePlugin { resource_manager: None }
    }

    /// The resource manager of the current ability, if ArkTS handed it over.
    pub fn resource_manager(&self) -> (r: Option<&M>)
        ensures
            match self.held() {
                Some(m) => r == Some(&m),
                None => r is None,
            },
    {
        match &self.resource_manager {
            Some(m) => Some(m),
            None => None,
        }
    }

    /// Replaces the held resource manager.
    pub fn replace_resource_manager(&mut self, resource_manager: Option<M>)
        ensures
            final(self).held() == resource_manager,
    {
        self.resource_manager = resource_manager;
    }

    /// A new or destroyed ability invalidates the held resource manager.
    pub fn on_lifecycle(&mut self, event: &PluginLifecycleEvent)
        ensures
            (event is AbilityCreated || event is AbilityDestroyed) ==> final(self).held() is None,
            !(event is AbilityCreated || event is AbilityDestroyed) ==> final(self).held() == old(self).held(),
    {
        match event {
            PluginLifecycleEvent::AbilityCreated { .. } => self.replace_resource_manager(None),
            PluginLifecycleEvent::AbilityDestroyed { .. } => self.replace_resource_manager(None),
            _ => {},
        }
    }

    /// Answers a main-thread event: the ready event installs the handed-over
    /// resource manager; any other event is refused and changes nothing.
    pub fn on_main_thread_event(&mut self, name: &str, manager: M) -> (r: Result<ResourceManagerReadyResponse, BridgeError>)
        ensures
            name@ == RESOURCE_MANAGER_READY_EVENT@ ==> (r matches Ok(resp) && resp.accepted
                && final(self).held() == Some(manager)),
            name@ != RESOURCE_MANAGER_READY_EVENT@ ==> (r matches Err(e) && e.reason@
                == unsupported_event_reason("ohos.resource"@, name@) && final(self).held() == old(self).held()),
    {
        if text_eq(name, RESOURCE_MANAGER_READY_EVENT) {
            self.replace_resource_manager(Some(manager));
            Ok(ResourceManagerReadyResponse { accepted: true })
        } else {
            Err(unsupported_event(Self::ID, name))
        }
    }
}

} // verus!
