//! Which ArkWeb controller (process-native tag) is attached to each webview,
//! and the JavaScript proxies declared for webviews. A removal or a late
//! callback that names a tag no longer current changes nothing, so a stale
//! controller cannot clear its replacement.

use vstd::prelude::*;

use crate::bridge::BridgeError;
use crate::keyed::{text_eq, TextMap};
use crate::text::{blank, is_blank};

verus! {

/// The attached controller tags, by webview id.
pub struct ControllerState {
    native_tags: TextMap<String>,
}

pub open spec fn tag_views(m: Map<Seq<char>, String>) -> Map<Seq<char>, Seq<char>> {
    m.map_values(|t: String| t@)
}

/// The tag currently attached to a webview.
pub open spec fn current_tag(tags: Map<Seq<char>, Seq<char>>, webview_id: Seq<char>) -> Option<Seq<char>> {
    if tags.contains_key(webview_id) {
        Some(tags[webview_id])
    } else {
        None
    }
}

impl ControllerState {
    pub closed spec fn view(&self) -> Map<Seq<char>, Seq<char>> {
        tag_views(self.native_tags@)
    }

    pub closed spec fn wf(&self) -> bool {
        self.native_tags.wf()
    }

    pub fn new() -> (r: Self)
        ensures
            r.wf(),
            r@ == Map::<Seq<char>, Seq<char>>::empty(),
    {
        let r = ControllerState { native_tags: TextMap::new() };
        assert(r@ =~= Map::<Seq<char>, Seq<char>>::empty());
        r
    }

    /// Records the tag attached to a webview, replacing any earlier one.
    pub fn attach(&mut self, webview_id: &str, native_tag: &str)
        requires
            old(self).wf(),
        ensures
            final(self).wf(),
            final(self)@ == old(self)@.insert(webview_id@, native_tag@),
    {
        let _ = self.native_tags.insert(webview_id.to_owned(), native_tag.to_owned());
        assert(self@ =~= old(self)@.insert(webview_id@, native_tag@));
    }

    /// Forgets a webview's tag, but only when `native_tag` is the current
    /// one; returns whether it was.
    pub fn remove(&mut self, webview_id: &str, native_tag: &str) -> (r: bool)
        requires
            old(self).wf(),
        ensures
            final(self).wf(),
            r == (current_tag(old(self)@, webview_id@) == Some(native_tag@)),
            r ==> final(self)@ == old(self)@.remove(webview_id@),
            !r ==> final(self)@ == old(self)@,
    {
        if !self.is_current(webview_id, native_tag) {
            return false;
        }
        let _ = self.native_tags.remove(webview_id);
        assert(self@ =~= old(self)@.remove(webview_id@));
        true
    }

    /// The tag attached to a webview.
    pub fn native_tag(&self, webview_id: &str) -> (r: Option<String>)
        requires
            self.wf(),
        ensures
            match r {
                Some(t) => current_tag(self@, webview_id@) == Some(t@),
                None => current_tag(self@, webview_id@) is None,
            },
    {
        match self.native_tags.get(webview_id) {
            Some(t) => Some(t.clone()),
            None => None,
        }
    }

    /// Whether `native_tag` is the tag attached to the webview.
    pub fn is_current(&self, webview_id: &str, native_tag: &str) -> (r: bool)
        requires
            self.wf(),
        ensures
            r == (current_tag(self@, webview_id@) == Some(native_tag@)),
    {
        match self.native_tags.get(webview_id) {
            Some(t) => text_eq(t.as_str(), native_tag),
            None => false,
        }
    }

    /// Forgets every attached tag.
    pub fn clear(&mut self)
        requires
            old(self).wf(),
        ensures
            final(self).wf(),
            final(self)@ == Map::<Seq<char>, Seq<char>>::empty(),
    {
        self.native_tags.clear();
        assert(self@ =~= Map::<Seq<char>, Seq<char>>::empty());
    }
}

/// The reason given for a webview without an attached controller.
pub open spec fn no_controller_reason(webview_id: Seq<char>) -> Seq<char> {
    "WebView '"@ + webview_id + "' has no attached ArkWeb controller"@
}

/// The ArkWeb tag attached to a webview, or the error that it has none.
pub fn native_tag_for(state: &ControllerState, webview_id: &str) -> (r: Result<String, BridgeError>)
    requires
        state.wf(),
    ensures
        match r {
            Ok(t) => current_tag(state@, webview_id@) == Some(t@),
            Err(e) => current_tag(state@, webview_id@) is None && e.reason@ == no_controller_reason(
                webview_id@,
            ),
        },
{
    match state.native_tag(webview_id) {
        Some(t) => Ok(t),
        None => {
            let mut reason = String::from_str("WebView '");
            reason.append(webview_id);
            reason.append("' has no attached ArkWeb controller");
            Err(BridgeError { reason })
        },
    }
}

/// A stale controller cannot clear its replacement: once `b` replaced `a`
/// on a webview, removing `a` keeps `b`, and removing `b` clears it.
pub proof fn law_stale_removal_keeps_replacement(tags: Map<Seq<char>, Seq<char>>, webview_id: Seq<char>, a: Seq<char>, b: Seq<char>)
    requires
        a != b,
    ensures
        current_tag(tags.insert(webview_id, a).insert(webview_id, b), webview_id) == Some(b),
        current_tag(tags.insert(webview_id, a).insert(webview_id, b), webview_id) != Some(a),
        current_tag(tags.insert(webview_id, b).remove(webview_id), webview_id) is None,
{
}

/// A JavaScript method exposed by a proxy object, with its callback `C`.
pub struct ProxyMethod<C> {
    pub name: String,
    pub callback: C,
}

/// A JavaScript object to register on a webview, with its methods.
pub struct ProxyDeclaration<C> {
    pub webview_id: String,
    pub object_name: String,
    pub methods: Vec<ProxyMethod<C>>,
}

/// Builds the declaration of a JavaScript proxy object for a webview.
pub struct WebviewJavascriptProxyBuilder<C> {
    webview_id: String,
    object_name: String,
    methods: Vec<ProxyMethod<C>>,
}

/// The method names of a list of proxy methods.
pub open spec fn method_names<C>(methods: Seq<ProxyMethod<C>>) -> Seq<Seq<char>> {
    methods.map_values(|m: ProxyMethod<C>| m.name@)
}

/// A declaration is valid when the webview id and the object name are
/// nonblank and it declares at least one method, none with a blank name.
pub open spec fn proxy_check(webview_id: Seq<char>, object_name: Seq<char>, names: Seq<Seq<char>>) -> Result<(), Seq<char>> {
    if is_blank(webview_id) {
        Err("WebView JavaScript proxy id must not be empty"@)
    } else if is_blank(object_name) {
        Err("WebView JavaScript proxy object name must not be empty"@)
    } else if names.len() == 0 || exists|i: int| 0 <= i < names.len() && is_blank(#[trigger] names[i]) {
        Err("WebView JavaScript proxy must declare one or more non-empty method names"@)
    } else {
        Ok(())
    }
}

impl<C> WebviewJavascriptProxyBuilder<C> {
    pub closed spec fn spec_webview_id(&self) -> Seq<char> {
        self.webview_id@
    }

    pub closed spec fn spec_object_name(&self) -> Seq<char> {
        self.object_name@
    }

    pub closed spec fn spec_methods(&self) -> Seq<ProxyMethod<C>> {
        self.methods@
    }

    /// A builder for the object `object_name` on the webview `webview_id`,
    /// with no methods yet.
    pub fn new(webview_id: String, object_name: String) -> (r: Self)
        ensures
            r.spec_webview_id() == webview_id@,
            r.spec_object_name() == object_name@,
            r.spec_methods() == Seq::<ProxyMethod<C>>::empty(),
    {
        WebviewJavascriptProxyBuilder { webview_id, object_name, methods: Vec::new() }
    }

    /// The webview the declaration is for.
    pub fn webview_id(&self) -> (r: &str)
        ensures
            r@ == self.spec_webview_id(),
    {
        self.webview_id.as_str()
    }

    /// Adds a method and its callback.
    pub fn add_method(self, method_name: String, callback: C) -> (r: Self)
        ensures
            r.spec_webview_id() == self.spec_webview_id(),
            r.spec_object_name() == self.spec_object_name(),
            r.spec_methods() == self.spec_methods().push(ProxyMethod { name: method_name, callback }),
    {
        let mut b = self;
        b.methods.push(ProxyMethod { name: method_name, callback });
        b
    }

    /// Checks the declaration and hands it over.
    pub fn into_declaration(self) -> (r: Result<ProxyDeclaration<C>, BridgeError>)
        ensures
            match proxy_check(self.spec_webview_id(), self.spec_object_name(), method_names(self.spec_methods())) {
                Ok(()) => (r matches Ok(d) && d.webview_id@ == self.spec_webview_id() && d.object_name@
                    == self.spec_object_name() && d.methods@ == self.spec_methods()),
                Err(reason) => (r matches Err(e) && e.reason@ == reason),
            },
    {
        if blank(self.webview_id.as_str()) {
            return Err(BridgeError::from_reason("WebView JavaScript proxy id must not be empty"));
        }
        if blank(self.object_name.as_str()) {
            return Err(BridgeError::from_reason("WebView JavaScript proxy object name must not be empty"));
        }
        let mut ok = self.methods.len() > 0;
        let mut i: usize = 0;
        let ghost names = method_names(self.methods@);
        while i < self.methods.len()
            invariant
                i <= self.methods@.len(),
                names == method_names(self.methods@),
                ok <==> (self.methods@.len() > 0 && forall|j: int| 0 <= j < i ==> !is_blank(#[trigger] names[j])),
            decreases self.methods.len() - i,
        {
            assert(names[i as int] == self.methods@[i as int].name@);
            if blank(self.methods[i].name.as_str()) {
                ok = false;
            }
            i += 1;
        }
        if !ok {
            return Err(BridgeError::from_reason("WebView JavaScript proxy must declare one or more non-empty method names"));
        }
        Ok(ProxyDeclaration { webview_id: self.webview_id, object_name: self.object_name, methods: self.methods })
    }
}

impl<C> WebviewJavascriptProxyBuilder<C> {
    /// Checks the declaration and records it for its webview. Returns the
    /// tag of the controller attached to that webview, on which the new
    /// declaration must be installed right away (`None` when no controller is
    /// attached: it is installed when one attaches).
    pub fn build(self, state: &mut ProxyState<C>) -> (r: Result<Option<String>, BridgeError>)
        requires
            old(state).wf(),
        ensures
            final(state).wf(),
            final(state).attached_tags() == old(state).attached_tags(),
            match proxy_check(self.spec_webview_id(), self.spec_object_name(), method_names(self.spec_methods())) {
                Ok(()) => ({
                    let recorded = final(state).declared()[self.spec_webview_id()];
                    &&& r is Ok
                    &&& final(state).declared() == old(state).declared().insert(self.spec_webview_id(), recorded)
                    &&& recorded.drop_last() == declared_for(old(state).declared(), self.spec_webview_id())
                    &&& recorded.len() > 0
                    &&& recorded.last().webview_id@ == self.spec_webview_id()
                    &&& recorded.last().object_name@ == self.spec_object_name()
                    &&& recorded.last().methods@ == self.spec_methods()
                    &&& (r matches Ok(Some(t)) ==> current_tag(old(state).attached_tags(), self.spec_webview_id()) == Some(t@))
                    &&& (r matches Ok(None) ==> current_tag(old(state).attached_tags(), self.spec_webview_id()) is None)
                }),
                Err(reason) => (r matches Err(e) && e.reason@ == reason && final(state).declared()
                    == old(state).declared()),
            },
    {
        match self.into_declaration() {
            Ok(declaration) => Ok(state.record(declaration)),
            Err(e) => Err(e),
        }
    }
}

/// The proxy declarations of every webview and the controller tag each
/// webview currently has, for installing proxies when a controller attaches.
pub struct ProxyState<C> {
    attached: TextMap<String>,
    declarations: TextMap<Vec<ProxyDeclaration<C>>>,
}

pub open spec fn declaration_views<C>(m: Map<Seq<char>, Vec<ProxyDeclaration<C>>>) -> Map<Seq<char>, Seq<ProxyDeclaration<C>>> {
    m.map_values(|v: Vec<ProxyDeclaration<C>>| v@)
}

/// The declarations recorded for a webview (none when it has no entry).
pub open spec fn declared_for<C>(m: Map<Seq<char>, Seq<ProxyDeclaration<C>>>, webview_id: Seq<char>) -> Seq<ProxyDeclaration<C>> {
    if m.contains_key(webview_id) {
        m[webview_id]
    } else {
        Seq::empty()
    }
}

impl<C> ProxyState<C> {
    pub closed spec fn attached_tags(&self) -> Map<Seq<char>, Seq<char>> {
        tag_views(self.attached@)
    }

    pub closed spec fn declared(&self) -> Map<Seq<char>, Seq<ProxyDeclaration<C>>> {
        declaration_views(self.declarations@)
    }

    pub closed spec fn wf(&self) -> bool {
        self.attached.wf() && self.declarations.wf()
    }

    pub fn new() -> (r: Self)
        ensures
            r.wf(),
            r.attached_tags() == Map::<Seq<char>, Seq<char>>::empty(),
            r.declared() == Map::<Seq<char>, Seq<ProxyDeclaration<C>>>::empty(),
    {
        let r = ProxyState { attached: TextMap::new(), declarations: TextMap::new() };
        assert(r.attached_tags() =~= Map::<Seq<char>, Seq<char>>::empty());
        assert(r.declared() =~= Map::<Seq<char>, Seq<ProxyDeclaration<C>>>::empty());
        r
    }

    /// Records a declaration for its webview (after the ones already
    /// recorded). Returns the tag of the controller attached to that webview,
    /// on which the new declaration must be installed right away.
    pub fn record(&mut self, declaration: ProxyDeclaration<C>) -> (r: Option<String>)
        requires
            old(self).wf(),
        ensures
            final(self).wf(),
            final(self).attached_tags() == old(self).attached_tags(),
            final(self).declared() == old(self).declared().insert(
                declaration.webview_id@,
                declared_for(old(self).declared(), declaration.webview_id@).push(declaration),
            ),
            match r {
                Some(t) => current_tag(old(self).attached_tags(), declaration.webview_id@) == Some(t@),
                None => current_tag(old(self).attached_tags(), declaration.webview_id@) is None,
            },
    {
        let ghost d = declaration;
        let tag = match self.attached.get(declaration.webview_id.as_str()) {
            Some(t) => Some(t.clone()),
            None => None,
        };
        let key = declaration.webview_id.clone();
        let mut list = match self.declarations.remove(key.as_str()) {
            Some(l) => l,
            None => Vec::new(),
        };
        list.push(declaration);
        let _ = self.declarations.insert(key, list);
        assert(self.declared() =~= old(self).declared().insert(
            d.webview_id@,
            declared_for(old(self).declared(), d.webview_id@).push(d),
        ));
        tag
    }

    /// Records that a controller attached. Returns whether the webview's
    /// declarations must be installed on it: not when the same tag was
    /// already attached.
    pub fn on_controller_attached(&mut self, webview_id: &str, native_tag: &str) -> (install: bool)
        requires
            old(self).wf(),
        ensures
            final(self).wf(),
            final(self).attached_tags() == old(self).attached_tags().insert(webview_id@, native_tag@),
            final(self).declared() == old(self).declared(),
            install == (current_tag(old(self).attached_tags(), webview_id@) != Some(native_tag@)),
    {
        let previous = self.attached.insert(webview_id.to_owned(), native_tag.to_owned());
        assert(self.attached_tags() =~= old(self).attached_tags().insert(webview_id@, native_tag@));
        match previous {
            Some(p) => !text_eq(p.as_str(), native_tag),
            None => true,
        }
    }

    /// Forgets a webview's controller, but only when `native_tag` is current.
    pub fn on_controller_removed(&mut self, webview_id: &str, native_tag: &str)
        requires
            old(self).wf(),
        ensures
            final(self).wf(),
            final(self).declared() == old(self).declared(),
            current_tag(old(self).attached_tags(), webview_id@) == Some(native_tag@) ==> final(self).attached_tags()
                == old(self).attached_tags().remove(webview_id@),
            current_tag(old(self).attached_tags(), webview_id@) != Some(native_tag@) ==> final(self).attached_tags()
                == old(self).attached_tags(),
    {
        let current = match self.attached.get(webview_id) {
            Some(t) => text_eq(t.as_str(), native_tag),
            None => false,
        };
        if current {
            let _ = self.attached.remove(webview_id);
            assert(self.attached_tags() =~= old(self).attached_tags().remove(webview_id@));
        }
    }

    /// Forgets every attached controller (declarations stay).
    pub fn clear_attached(&mut self)
        requires
            old(self).wf(),
        ensures
            final(self).wf(),
            final(self).declared() == old(self).declared(),
            final(self).attached_tags() == Map::<Seq<char>, Seq<char>>::empty(),
    {
        self.attached.clear();
        assert(self.attached_tags() =~= Map::<Seq<char>, Seq<char>>::empty());
    }

    /// The declarations recorded for a webview, in the order recorded.
    pub fn declarations_for(&self, webview_id: &str) -> (r: Option<&Vec<ProxyDeclaration<C>>>)
        requires
            self.wf(),
        ensures
            match r {
                Some(v) => self.declared().contains_key(webview_id@) && v@ == self.declared()[webview_id@],
                None => !self.declared().contains_key(webview_id@),
            },
    {
        self.declarations.get(webview_id)
    }
}

} // verus!
