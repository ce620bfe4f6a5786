use openharmony_ability::bridge::{BridgeContextRequirement, BridgeNapiType, BridgePlugin};
use openharmony_ability::lifecycle::PluginLifecycleEvent;
use openharmony_ability::resource::{
    ResourceBridgePlugin, ResourceManagerReadyResponse, RESOURCE_MANAGER_READY_EVENT,
};

#[test]
fn resource_uses_stable_named_napi_contracts() {
    assert_eq!(
        <ResourceManagerReadyResponse as BridgeNapiType>::TYPE_NAME,
        "ohos.resource.ResourceManagerReadyResponse"
    );
    assert_eq!(RESOURCE_MANAGER_READY_EVENT, "resource-manager-ready");
    assert!(ResourceManagerReadyResponse { accepted: true }.accepted);
    assert_eq!(ResourceBridgePlugin::<u8>::ID, "ohos.resource");
    assert_eq!(ResourceBridgePlugin::<u8>::required_contexts(), &[BridgeContextRequirement::Ability]);
}

#[test]
fn resource_manager_is_unset_before_the_wrapper_pushes() {
    let plugin: ResourceBridgePlugin<u32> = ResourceBridgePlugin::new();
    assert!(plugin.resource_manager().is_none());
}

#[test]
fn the_ready_event_installs_the_manager_until_the_ability_changes() {
    let mut plugin: ResourceBridgePlugin<u32> = ResourceBridgePlugin::new();
    assert!(plugin.on_main_thread_event("resource-manager-ready", 7).unwrap().accepted);
    assert_eq!(plugin.resource_manager(), Some(&7));
    assert_eq!(
        plugin.on_main_thread_event("other", 8).unwrap_err().reason,
        "Unsupported ohos.resource main-thread event 'other'"
    );
    assert_eq!(plugin.resource_manager(), Some(&7));
    plugin.on_lifecycle(&PluginLifecycleEvent::WindowStageCreated { window_id: 0 });
    assert_eq!(plugin.resource_manager(), Some(&7));
    plugin.on_lifecycle(&PluginLifecycleEvent::AbilityDestroyed { window_id: 0 });
    assert!(plugin.resource_manager().is_none());
    plugin.replace_resource_manager(Some(9));
    plugin.on_lifecycle(&PluginLifecycleEvent::AbilityCreated { window_id: 0, restored_state: String::new() });
    assert!(plugin.resource_manager().is_none());
}
