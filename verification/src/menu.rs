//! The menu plugin: the per-window menubar, its visibility, and menu
//! clicks.

use vstd::prelude::*;

use crate::bridge::{
    accepted_or, ensure_accepted, outcome, unsupported_event, unsupported_event_reason,
    BridgeContextRequirement, BridgeError, BridgeNapiType, BridgePlugin,
};
use crate::keyed::{text_eq, TextMap};

verus! {

/// The menu bridge plugin; it needs a UI context.
pub struct MenuBridgePlugin;

impl BridgePlugin for MenuBridgePlugin {
    const ID: &'static str = "ohos.menu";

    open spec fn spec_required_contexts() -> Seq<BridgeContextRequirement> {
        seq![BridgeContextRequirement::UiContext]
    }

    fn required_contexts() -> (r: &'static [BridgeContextRequirement]) {
        let r: &'static [BridgeContextRequirement] = &[BridgeContextRequirement::UiContext];
        r
    }
}

/// What the About item shows.
#[derive(Clone, Debug)]
pub struct AboutMetadataData {
    pub name: Option<String>,
    pub version: Option<String>,
    pub short_version: Option<String>,
    pub authors: Option<Vec<String>>,
    pub comments: Option<String>,
    pub copyright: Option<String>,
    pub license: Option<String>,
    pub website: Option<String>,
}

/// A menu item, with its submenu.
#[derive(Debug)]
pub struct MenuItemData {
    pub id: String,
    pub item_type: String,
    pub text: Option<String>,
    pub enabled: Option<bool>,
    pub accelerator: Option<String>,
    pub predefined_type: Option<String>,
    pub checked: Option<bool>,
    pub icon: Option<String>,
    pub native_icon: Option<String>,
    pub submenu_items: Option<Vec<MenuItemData>>,
    pub about_metadata: Option<AboutMetadataData>,
}

#[derive(Clone, Debug)]
pub struct MenuSetMenubarRequest {
    pub json_data: String,
    pub window_id: String,
}

impl BridgeNapiType for MenuSetMenubarRequest {
    const TYPE_NAME: &'static str = "ohos.menu.SetMenubarRequest";
}

#[derive(Clone, Debug)]
pub struct MenuSetVisibleRequest {
    pub visible: bool,
    pub window_id: String,
}

impl BridgeNapiType for MenuSetVisibleRequest {
    const TYPE_NAME: &'static str = "ohos.menu.SetVisibleRequest";
}

#[derive(Clone, Debug)]
pub struct MenuPredefinedRequest {
    pub action: String,
    pub window_id: Option<String>,
}

impl BridgeNapiType for MenuPredefinedRequest {
    const TYPE_NAME: &'static str = "ohos.menu.PredefinedRequest";
}

#[derive(Clone, Copy, Debug)]
pub struct MenuAcknowledgement {
    pub accepted: bool,
}

impl BridgeNapiType for MenuAcknowledgement {
    const TYPE_NAME: &'static str = "ohos.menu.Acknowledgement";
}

impl MenuAcknowledgement {
    /// `Ok` when the plugin accepted the operation.
    pub fn ensure(self) -> (r: Result<(), BridgeError>)
        ensures
            outcome(r) == accepted_or(self.accepted, "Menu plugin rejected the requested operation"@),
    {
        ensure_accepted(self.accepted, "Menu plugin rejected the requested operation")
    }
}

#[derive(Clone, Debug)]
pub struct MenuClickEvent {
    pub menu_id: String,
    pub window_id: Option<String>,
}

impl BridgeNapiType for MenuClickEvent {
    const TYPE_NAME: &'static str = "ohos.menu.MenuClickEvent";
}

/// A flag cached per window; a window without an entry reads as `true`.
pub open spec fn flag_or_true(m: Map<Seq<char>, bool>, window_id: Seq<char>) -> bool {
    if m.contains_key(window_id) {
        m[window_id]
    } else {
        true
    }
}

/// A menubar JSON with content: anything but the empty list `[]`.
pub open spec fn has_menu_content(json: Seq<char>) -> bool {
    json != "[]"@
}

/// What the menu plugin remembers per window: the menubar visibility set
/// last, and whether the last menubar set had content.
pub struct MenuState {
    visible: TextMap<bool>,
    has_content: TextMap<bool>,
}

impl MenuState {
    pub closed spec fn visible_map(&self) -> Map<Seq<char>, bool> {
        self.visible@
    }

    pub closed spec fn content_map(&self) -> Map<Seq<char>, bool> {
        self.has_content@
    }

    pub closed spec fn wf(&self) -> bool {
        self.visible.wf() && self.has_content.wf()
    }

    pub fn new() -> (r: Self)
        ensures
            r.wf(),
            r.visible_map() == Map::<Seq<char>, bool>::empty(),
            r.content_map() == Map::<Seq<char>, bool>::empty(),
    {
        MenuState { visible: TextMap::new(), has_content: TextMap::new() }
    }

    /// Records a menubar the plugin answered: once accepted, the window's
    /// menubar has content unless the JSON is `[]`; a refusal changes nothing.
    pub fn menubar_set(&mut self, request: &MenuSetMenubarRequest, ack: MenuAcknowledgement) -> (r: Result<(), BridgeError>)
        requires
            old(self).wf(),
        ensures
            final(self).wf(),
            outcome(r) == accepted_or(ack.accepted, "Menu plugin rejected the requested operation"@),
            final(self).visible_map() == old(self).visible_map(),
            ack.accepted ==> final(self).content_map() == old(self).content_map().insert(
                request.window_id@,
                has_menu_content(request.json_data@),
            ),
            !ack.accepted ==> final(self).content_map() == old(self).content_map(),
    {
        match ack.ensure() {
            Ok(()) => {
                let has_content = !text_eq(request.json_data.as_str(), "[]");
                let _ = self.has_content.insert(request.window_id.clone(), has_content);
                Ok(())
            },
            Err(e) => Err(e),
        }
    }

    /// Records a menubar visibility the plugin answered.
    pub fn menubar_visibility_set(&mut self, request: &MenuSetVisibleRequest, ack: MenuAcknowledgement) -> (r: Result<(), BridgeError>)
        requires
            old(self).wf(),
        ensures
            final(self).wf(),
            outcome(r) == accepted_or(ack.accepted, "Menu plugin rejected the requested operation"@),
            final(self).content_map() == old(self).content_map(),
            ack.accepted ==> final(self).visible_map() == old(self).visible_map().insert(
                request.window_id@,
                request.visible,
            ),
            !ack.accepted ==> final(self).visible_map() == old(self).visible_map(),
    {
        match ack.ensure() {
            Ok(()) => {
                let _ = self.visible.insert(request.window_id.clone(), request.visible);
                Ok(())
            },
            Err(e) => Err(e),
        }
    }

    /// Whether a window's menubar shows: visible and with content, each
    /// assumed until set otherwise.
    pub fn is_menubar_visible(&self, window_id: &str) -> (r: bool)
        requires
            self.wf(),
        ensures
            r == (flag_or_true(self.visible_map(), window_id@) && flag_or_true(
                self.content_map(),
                window_id@,
            )),
    {
        let visible = match self.visible.get(window_id) {
            Some(v) => *v,
            None => true,
        };
        let has_content = match self.has_content.get(window_id) {
            Some(v) => *v,
            None => true,
        };
        visible && has_content
    }
}

/// The menubar request for a JSON menu and a window.
pub fn set_menu_json(json_data: String, window_id: String) -> (r: MenuSetMenubarRequest)
    ensures
        r.json_data == json_data && r.window_id == window_id,
{
    MenuSetMenubarRequest { json_data, window_id }
}

/// Answers a main-thread event of the menu plugin: a click yields the menu
/// id to forward; any other event is refused.
pub fn menu_main_thread_event(name: &str, click: MenuClickEvent) -> (r: Result<String, BridgeError>)
    ensures
        name@ == "menu-click"@ ==> r == Ok::<String, BridgeError>(click.menu_id),
        name@ != "menu-click"@ ==> (r matches Err(e) && e.reason@ == unsupported_event_reason("ohos.menu"@, name@)),
{
    if text_eq(name, "menu-click") {
        Ok(click.menu_id)
    } else {
        Err(unsupported_event(MenuBridgePlugin::ID, name))
    }
}

/// A window whose menubar was last set to `[]` does not show it, whatever
/// its visibility flag says.
pub proof fn law_empty_menubar_is_hidden(visible: Map<Seq<char>, bool>, content: Map<Seq<char>, bool>, window_id: Seq<char>)
    ensures
        !(flag_or_true(visible, window_id) && flag_or_true(content.insert(window_id, has_menu_content("[]"@)), window_id)),
{
}

} // verus!
