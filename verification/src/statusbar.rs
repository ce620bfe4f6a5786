//! The status-bar plugin: the tray item (icon, quick operation, menu,
//! hover tips), its updates, and its clicks.

use vstd::prelude::*;

use crate::bridge::{
    accepted_or, ensure_accepted, outcome, unsupported_event, unsupported_event_reason,
    BridgeContextRequirement, BridgeError, BridgeNapiType, BridgePlugin,
};
use crate::keyed::text_eq;

verus! {

/// The status-bar bridge plugin.
pub struct StatusBarBridgePlugin;

impl BridgePlugin for StatusBarBridgePlugin {
    const ID: &'static str = "ohos.statusbar";

    open spec fn spec_required_contexts() -> Seq<BridgeContextRequirement> {
        seq![BridgeContextRequirement::Ability]
    }

    fn required_contexts() -> (r: &'static [BridgeContextRequirement]) {
        let r: &'static [BridgeContextRequirement] = &[BridgeContextRequirement::Ability];
        r
    }
}

/// The tray icon: RGBA bytes for the light and dark themes, and its size.
#[derive(Clone, Debug)]
pub struct StatusBarIcon {
    pub white: Option<Vec<u8>>,
    pub black: Option<Vec<u8>>,
    pub size: u32,
}

/// The quick-operation panel a tray click opens.
#[derive(Clone, Debug)]
pub struct QuickOperation {
    pub ability_name: String,
    pub title: String,
    pub height: u32,
    pub module_name: Option<String>,
    pub loading_status: Option<bool>,
}

impl QuickOperation {
    /// The default panel: the app's entry ability, titled "App", 200 high.
    pub open spec fn is_default(self) -> bool {
        &&& self.ability_name@ == "EntryAbility"@
        &&& self.title@ == "App"@
        &&& self.height == 200
        &&& self.module_name matches Some(m) && m@ == "entry"@
        &&& self.loading_status is None
    }
}

impl Default for QuickOperation {
    fn default() -> (r: QuickOperation)
        ensures
            r.is_default(),
    {
        QuickOperation {
            ability_name: String::from_str("EntryAbility"),
            title: String::from_str("App"),
            height: 200,
            module_name: Some(String::from_str("entry")),
            loading_status: None,
        }
    }
}

/// What a tray menu item does.
#[derive(Clone, Debug)]
pub struct StatusBarMenuAction {
    pub ability_name: String,
    pub module_name: Option<String>,
    pub menu_code: Option<String>,
    pub notify_only: Option<bool>,
}

/// A click on the tray item.
#[derive(Debug, Clone)]
pub enum StatusBarClickEvent {
    IconClick { click_type: String },
    MenuClick { menu_code: String },
}

#[derive(Clone, Debug)]
pub struct StatusBarAddRequest {
    pub white_icon: Option<Vec<u8>>,
    pub black_icon: Option<Vec<u8>>,
    pub icon_size: u32,
    pub ability_name: String,
    pub title: String,
    pub height: u32,
    pub module_name: Option<String>,
    pub loading_status: Option<bool>,
    pub menu_json: Option<String>,
    pub hover_tips: Option<String>,
}

impl BridgeNapiType for StatusBarAddRequest {
    const TYPE_NAME: &'static str = "ohos.statusbar.AddRequest";
}

#[derive(Clone, Copy, Debug)]
pub struct StatusBarRemoveRequest {
}

impl BridgeNapiType for StatusBarRemoveRequest {
    const TYPE_NAME: &'static str = "ohos.statusbar.RemoveRequest";
}

#[derive(Clone, Debug)]
pub struct StatusBarUpdateIconRequest {
    pub white_icon: Option<Vec<u8>>,
    pub black_icon: Option<Vec<u8>>,
    pub icon_size: u32,
}

impl BridgeNapiType for StatusBarUpdateIconRequest {
    const TYPE_NAME: &'static str = "ohos.statusbar.UpdateIconRequest";
}

#[derive(Clone, Debug)]
pub struct StatusBarUpdateMenuRequest {
    pub menu_json: String,
}

impl BridgeNapiType for StatusBarUpdateMenuRequest {
    const TYPE_NAME: &'static str = "ohos.statusbar.UpdateMenuRequest";
}

#[derive(Clone, Debug)]
pub struct StatusBarUpdateTipsRequest {
    pub tips: String,
}

impl BridgeNapiType for StatusBarUpdateTipsRequest {
    const TYPE_NAME: &'static str = "ohos.statusbar.UpdateTipsRequest";
}

#[derive(Clone, Debug)]
pub struct StatusBarPredefinedRequest {
    pub action: String,
}

impl BridgeNapiType for StatusBarPredefinedRequest {
    const TYPE_NAME: &'static str = "ohos.statusbar.PredefinedRequest";
}

#[derive(Clone, Copy, Debug)]
pub struct StatusBarAcknowledgement {
    pub accepted: bool,
}

impl BridgeNapiType for StatusBarAcknowledgement {
    const TYPE_NAME: &'static str = "ohos.statusbar.Acknowledgement";
}

impl StatusBarAcknowledgement {
    /// `Ok` when the plugin accepted the operation.
    pub fn ensure(self) -> (r: Result<(), BridgeError>)
        ensures
            outcome(r) == accepted_or(self.accepted, "StatusBar plugin rejected the requested operation"@),
    {
        ensure_accepted(self.accepted, "StatusBar plugin rejected the requested operation")
    }
}

#[derive(Clone, Debug)]
pub struct StatusBarIconClickEvent {
    pub click_type: String,
}

impl BridgeNapiType for StatusBarIconClickEvent {
    const TYPE_NAME: &'static str = "ohos.statusbar.IconClickEvent";
}

#[derive(Clone, Debug)]
pub struct StatusBarMenuClickEvent {
    pub menu_code: String,
}

impl BridgeNapiType for StatusBarMenuClickEvent {
    const TYPE_NAME: &'static str = "ohos.statusbar.MenuClickEvent";
}

impl From<StatusBarIcon> for StatusBarUpdateIconRequest {
    fn from(icon: StatusBarIcon) -> (r: StatusBarUpdateIconRequest) {
        StatusBarUpdateIconRequest { white_icon: icon.white, black_icon: icon.black, icon_size: icon.size }
    }
}

impl vstd::std_specs::convert::FromSpecImpl<StatusBarIcon> for StatusBarUpdateIconRequest {
    open spec fn obeys_from_spec() -> bool {
        true
    }

    open spec fn from_spec(v: StatusBarIcon) -> StatusBarUpdateIconRequest {
        StatusBarUpdateIconRequest { white_icon: v.white, black_icon: v.black, icon_size: v.size }
    }
}

/// The request that adds the tray item: its icon, its quick-operation panel,
/// its menu (already encoded as JSON) and its hover tips.
pub fn add_request(icon: StatusBarIcon, quick_operation: QuickOperation, menu_json: Option<String>, hover_tips: Option<String>) -> (r: StatusBarAddRequest)
    ensures
        r == (StatusBarAddRequest {
            white_icon: icon.white,
            black_icon: icon.black,
            icon_size: icon.size,
            ability_name: quick_operation.ability_name,
            title: quick_operation.title,
            height: quick_operation.height,
            module_name: quick_operation.module_name,
            loading_status: quick_operation.loading_status,
            menu_json: menu_json,
            hover_tips: hover_tips,
        }),
{
    StatusBarAddRequest {
        white_icon: icon.white,
        black_icon: icon.black,
        icon_size: icon.size,
        ability_name: quick_operation.ability_name,
        title: quick_operation.title,
        height: quick_operation.height,
        module_name: quick_operation.module_name,
        loading_status: quick_operation.loading_status,
        menu_json,
        hover_tips,
    }
}

/// The kind of a status-bar main-thread event.
#[derive(Debug, Clone, Copy, PartialEq, Eq, Structural)]
pub enum StatusBarEventKind {
    IconClick,
    MenuClick,
}

/// Answers the name of a main-thread event of the status-bar plugin: icon
/// and menu clicks are forwarded; any other event is refused.
pub fn statusbar_event_kind(name: &str) -> (r: Result<StatusBarEventKind, BridgeError>)
    ensures
        name@ == "icon-click"@ ==> r == Ok::<StatusBarEventKind, BridgeError>(StatusBarEventKind::IconClick),
        name@ != "icon-click"@ && name@ == "menu-click"@ ==> r == Ok::<StatusBarEventKind, BridgeError>(
            StatusBarEventKind::MenuClick,
        ),
        name@ != "icon-click"@ && name@ != "menu-click"@ ==> (r matches Err(e) && e.reason@
            == unsupported_event_reason("ohos.statusbar"@, name@)),
{
    if text_eq(name, "icon-click") {
        Ok(StatusBarEventKind::IconClick)
    } else if text_eq(name, "menu-click") {
        Ok(StatusBarEventKind::MenuClick)
    } else {
        Err(unsupported_event(StatusBarBridgePlugin::ID, name))
    }
}

/// The click forwarded for an icon-click event.
pub fn icon_click(event: StatusBarIconClickEvent) -> (r: StatusBarClickEvent)
    ensures
        r == (StatusBarClickEvent::IconClick { click_type: event.click_type }),
{
    StatusBarClickEvent::IconClick { click_type: event.click_type }
}

/// The click forwarded for a menu-click event.
pub fn menu_click(event: StatusBarMenuClickEvent) -> (r: StatusBarClickEvent)
    ensures
        r == (StatusBarClickEvent::MenuClick { menu_code: event.menu_code }),
{
    StatusBarClickEvent::MenuClick { menu_code: event.menu_code }
}

} // verus!
