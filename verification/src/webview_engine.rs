//! The webview plugin's state for one native module: attached controllers,
//! custom schemes and their handlers (`D`), JavaScript proxies (`C`), and the
//! handling of the engine-lifecycle and controller main-thread events.

use vstd::prelude::*;

use crate::bridge::BridgeError;
use crate::keyed::text_lt;
use crate::lifecycle::PluginLifecycleEvent;
use crate::text::is_blank;
use crate::webview::{
    controller_identity, engine_lifecycle_response, engine_scheme_pairs, expect_engine_phase,
    pair_views, phase_mismatch_reason, scheme_pairs, WebviewControllerEvent, WebviewEngineLifecycleEvent,
    WebviewEngineLifecycleResponse, WebviewEventKind, BEFORE_ENGINE_INIT_EVENT,
    ENGINE_INITIALIZED_EVENT, SEAL_ENGINE_SCHEMES_EVENT,
};
use crate::webview_controller::{current_tag, ControllerState, ProxyState};
use crate::nested::{entries_of, members};
use crate::webview_protocol::{pair_listed, ProtocolState};

verus! {

/// The engine-lifecycle phases, in the order the engine starts.
#[derive(Debug, Clone, Copy, PartialEq, Eq, Structural)]
pub enum EnginePhase {
    Seal,
    BeforeInit,
    Initialized,
}

/// The name of an engine-lifecycle phase.
pub open spec fn phase_name(p: EnginePhase) -> Seq<char> {
    match p {
        EnginePhase::Seal => SEAL_ENGINE_SCHEMES_EVENT@,
        EnginePhase::BeforeInit => BEFORE_ENGINE_INIT_EVENT@,
        EnginePhase::Initialized => ENGINE_INITIALIZED_EVENT@,
    }
}

/// The engine phase of a main-thread event, if it is an engine event.
pub fn engine_phase_of(kind: WebviewEventKind) -> (r: Option<EnginePhase>)
    ensures
        kind == WebviewEventKind::SealEngineSchemes ==> r == Some(EnginePhase::Seal),
        kind == WebviewEventKind::BeforeEngineInit ==> r == Some(EnginePhase::BeforeInit),
        kind == WebviewEventKind::EngineInitialized ==> r == Some(EnginePhase::Initialized),
        !(kind == WebviewEventKind::SealEngineSchemes || kind == WebviewEventKind::BeforeEngineInit || kind
            == WebviewEventKind::EngineInitialized) ==> r is None,
{
    match kind {
        WebviewEventKind::SealEngineSchemes => Some(EnginePhase::Seal),
        WebviewEventKind::BeforeEngineInit => Some(EnginePhase::BeforeInit),
        WebviewEventKind::EngineInitialized => Some(EnginePhase::Initialized),
        _ => None,
    }
}

fn phase_str(p: EnginePhase) -> (r: &'static str)
    ensures
        r@ == phase_name(p),
{
    match p {
        EnginePhase::Seal => SEAL_ENGINE_SCHEMES_EVENT,
        EnginePhase::BeforeInit => BEFORE_ENGINE_INIT_EVENT,
        EnginePhase::Initialized => ENGINE_INITIALIZED_EVENT,
    }
}

/// Every scheme this module declared is among the reported (scheme,
/// options) pairs, with the same options.
pub open spec fn declared_schemes_registered(schemes: Map<Seq<char>, u32>, reported: Seq<(Seq<char>, u32)>) -> bool {
    forall|k: Seq<char>| #[trigger] schemes.contains_key(k) ==> reported.contains((k, schemes[k]))
}

/// The pairs list exactly the declared schemes with their options.
pub open spec fn lists_schemes(pairs: Seq<(Seq<char>, u32)>, schemes: Map<Seq<char>, u32>) -> bool {
    &&& forall|i: int| 0 <= i < pairs.len() ==> #[trigger] schemes.contains_key(pairs[i].0) && schemes[pairs[i].0]
        == pairs[i].1
    &&& forall|k: Seq<char>| #[trigger] schemes.contains_key(k) ==> exists|i: int| 0 <= i < pairs.len() && #[trigger] pairs[i].0 == k
}

/// A scheme is listed among string pairs exactly when its text pair is among
/// their views.
proof fn lemma_registered_by_views(schemes: Map<Seq<char>, u32>, pairs: Seq<(String, u32)>)
    ensures
        (forall|k: Seq<char>| #[trigger] schemes.contains_key(k) ==> pair_listed(pairs, k, schemes[k]))
            <==> declared_schemes_registered(schemes, pair_views(pairs)),
{
    let views = pair_views(pairs);
    assert forall|k: Seq<char>, o: u32| pair_listed(pairs, k, o) <==> #[trigger] views.contains((k, o)) by {
        if pair_listed(pairs, k, o) {
            let i = choose|i: int| 0 <= i < pairs.len() && #[trigger] pairs[i].0@ == k && pairs[i].1 == o;
            assert(views[i] == (k, o));
        }
        if views.contains((k, o)) {
            let i = choose|i: int| 0 <= i < views.len() && views[i] == (k, o);
            assert(views[i] == (pairs[i].0@, pairs[i].1));
        }
    }
}

/// What to do for a newly attached controller: the schemes whose handlers
/// to install on it, and whether to install the webview's JavaScript proxies.
pub struct AttachPlan {
    pub webview_id: String,
    pub native_tag: String,
    pub schemes: Vec<String>,
    pub install_proxies: bool,
}

/// The webview plugin's state.
pub struct WebviewState<D, C> {
    pub controllers: ControllerState,
    pub protocols: ProtocolState<D>,
    pub proxies: ProxyState<C>,
}

impl<D, C> WebviewState<D, C> {
    pub open spec fn wf(&self) -> bool {
        self.controllers.wf() && self.protocols.wf() && self.proxies.wf()
    }

    pub fn new() -> (r: Self)
        ensures
            r.wf(),
            r.controllers@ == Map::<Seq<char>, Seq<char>>::empty(),
            !r.protocols.engine_initialized(),
    {
        WebviewState { controllers: ControllerState::new(), protocols: ProtocolState::new(), proxies: ProxyState::new() }
    }

    /// Handles an engine-lifecycle event: the event must report its own
    /// phase; sealing seals the schemes, the pre-init event checks them
    /// against the process registration and flushes them (the boolean says
    /// whether the platform registration must run now), and the initialized
    /// event marks the engine initialized. The answer lists the declared
    /// schemes.
    pub fn engine_event(&mut self, phase: EnginePhase, event: &WebviewEngineLifecycleEvent) -> (r: Result<
        (WebviewEngineLifecycleResponse, bool),
        BridgeError,
    >)
        requires
            old(self).wf(),
        ensures
            final(self).wf(),
            event.phase@ != phase_name(phase) ==> (r matches Err(e) && e.reason@ == phase_mismatch_reason(
                event.phase@,
                phase_name(phase),
            )) && final(self).protocols.engine_initialized() == old(self).protocols.engine_initialized(),
            event.phase@ == phase_name(phase) && phase == EnginePhase::Seal ==> r is Ok
                && final(self).protocols.sealed(),
            event.phase@ == phase_name(phase) && phase == EnginePhase::BeforeInit ==> (r is Ok <==> (
            declared_schemes_registered(old(self).protocols.schemes(), scheme_pairs(event.schemes@)) && (
            old(self).protocols.engine_initialized() || old(self).protocols.flushed()
                || old(self).protocols.sealed()))),
            event.phase@ == phase_name(phase) && phase == EnginePhase::Initialized ==> (r is Ok <==> declared_schemes_registered(
                old(self).protocols.schemes(),
                scheme_pairs(event.schemes@),
            )),
            r is Ok && phase == EnginePhase::Initialized ==> final(self).protocols.engine_initialized(),
            r matches Ok((_, run)) ==> (run <==> (phase == EnginePhase::BeforeInit && !old(self).protocols.flushed()
                && !old(self).protocols.engine_initialized())),
            r matches Ok((resp, _)) ==> resp.accepted && lists_schemes(scheme_pairs(resp.schemes@), final(self).protocols.schemes()),
            r matches Ok((resp, _)) ==> forall|i: int, j: int|
                0 <= i < j < resp.schemes@.len() ==> text_lt(
                    #[trigger] resp.schemes@[i].scheme@,
                    #[trigger] resp.schemes@[j].scheme@,
                ),
            final(self).protocols.schemes() == old(self).protocols.schemes(),
            final(self).controllers@ == old(self).controllers@,
    {
        match expect_engine_phase(event, phase_str(phase)) {
            Err(e) => return Err(e),
            Ok(()) => {},
        }
        let mut run = false;
        match phase {
            EnginePhase::Seal => {
                self.protocols.seal_before_engine_init();
            },
            EnginePhase::BeforeInit => {
                let pairs = engine_scheme_pairs(event);
                proof {
                    lemma_registered_by_views(self.protocols.schemes(), pairs@);
                }
                match self.protocols.ensure_schemes_registered(&pairs) {
                    Err(e) => return Err(e),
                    Ok(()) => {},
                }
                match self.protocols.flush_before_engine_init() {
                    Err(e) => return Err(e),
                    Ok(b) => {
                        run = b;
                    },
                }
            },
            EnginePhase::Initialized => {
                let pairs = engine_scheme_pairs(event);
                proof {
                    lemma_registered_by_views(self.protocols.schemes(), pairs@);
                }
                match self.protocols.mark_engine_initialized(&pairs) {
                    Err(e) => return Err(e),
                    Ok(()) => {},
                }
            },
        }
        let declared = self.protocols.declared_schemes();
        let response = engine_lifecycle_response(declared);
        proof {
            let listed = scheme_pairs(response.schemes@);
            assert forall|i: int| 0 <= i < listed.len() implies #[trigger] self.protocols.schemes().contains_key(
                listed[i].0,
            ) && self.protocols.schemes()[listed[i].0] == listed[i].1 by {
                assert(listed[i] == pair_views(declared@)[i]);
            }
            assert forall|k: Seq<char>| #[trigger] self.protocols.schemes().contains_key(k) implies exists|i: int|
                0 <= i < listed.len() && #[trigger] listed[i].0 == k by {
                let i = choose|i: int| 0 <= i < declared@.len() && #[trigger] declared@[i].0@ == k;
                assert(listed.len() == pair_views(declared@).len());
                assert(pair_views(declared@)[i] == (declared@[i].0@, declared@[i].1));
                assert(listed[i] == pair_views(declared@)[i]);
                assert(listed[i].0 == k);
            }
            assert forall|i: int, j: int| 0 <= i < j < response.schemes@.len() implies text_lt(
                #[trigger] response.schemes@[i].scheme@,
                #[trigger] response.schemes@[j].scheme@,
            ) by {
                assert(listed.len() == response.schemes@.len());
                assert(listed.len() == pair_views(declared@).len());
                assert(pair_views(declared@).len() == declared@.len());
                assert(listed[i] == pair_views(declared@)[i]);
                assert(listed[j] == pair_views(declared@)[j]);
                assert(listed[i].0 == response.schemes@[i].scheme@);
                assert(listed[j].0 == response.schemes@[j].scheme@);
                assert(pair_views(declared@)[i].0 == declared@[i].0@);
                assert(pair_views(declared@)[j].0 == declared@[j].0@);
                assert(text_lt(declared@[i].0@, declared@[j].0@));
            }
        }
        Ok((response, run))
    }

    /// Handles an attached controller: records its tag, reserves the
    /// installation of the webview's scheme handlers on it, and says whether
    /// the webview's JavaScript proxies must be installed on it.
    pub fn controller_attached(&mut self, event: WebviewControllerEvent) -> (r: Result<AttachPlan, BridgeError>)
        requires
            old(self).wf(),
        ensures
            final(self).wf(),
            is_blank(event.id@) ==> (r matches Err(e) && e.reason@
                == "WebView controller event id must not be empty"@) && final(self).controllers@
                == old(self).controllers@,
            !is_blank(event.id@) && is_blank(event.native_tag@) ==> (r matches Err(e) && e.reason@
                == "WebView controller event nativeTag must not be empty"@) && final(self).controllers@
                == old(self).controllers@,
            !is_blank(event.id@) && !is_blank(event.native_tag@) ==> final(self).controllers@
                == old(self).controllers@.insert(event.id@, event.native_tag@),
            is_blank(event.id@) || is_blank(event.native_tag@) ==> *final(self) == *old(self),
            r is Ok <==> (!is_blank(event.id@) && !is_blank(event.native_tag@) && !event.id@.contains('\0')
                && !event.native_tag@.contains('\0') && old(self).protocols.engine_initialized()),
            r is Err ==> final(self).protocols.attached() == old(self).protocols.attached()
                && final(self).protocols.installing() == old(self).protocols.installing()
                && final(self).protocols.installed() == old(self).protocols.installed()
                && final(self).proxies.attached_tags() == old(self).proxies.attached_tags(),
            r is Ok ==> final(self).protocols.attached() == old(self).protocols.attached().insert(
                event.id@,
                event.native_tag@,
            ),
            final(self).protocols.declared() == old(self).protocols.declared(),
            final(self).protocols.schemes() == old(self).protocols.schemes(),
            final(self).proxies.declared() == old(self).proxies.declared(),
            r matches Ok(plan) ==> forall|k: Seq<char>|
                #[trigger] entries_of(old(self).protocols.declared(), event.id@).contains_key(k) && !members(
                    old(self).protocols.installed(),
                    event.native_tag@,
                ).contains(k) && !members(old(self).protocols.installing(), event.native_tag@).contains(k)
                    ==> plan.schemes@.map_values(|s: String| s@).contains(k),
            r matches Ok(plan) ==> forall|i: int|
                #![trigger plan.schemes@[i]]
                0 <= i < plan.schemes@.len() ==> entries_of(final(self).protocols.declared(), event.id@).contains_key(
                    plan.schemes@[i]@,
                ) && members(final(self).protocols.installing(), event.native_tag@).contains(plan.schemes@[i]@),
            r matches Ok(plan) ==> plan.webview_id@ == event.id@ && plan.native_tag@ == event.native_tag@
                && final(self).proxies.attached_tags() == old(self).proxies.attached_tags().insert(
                event.id@,
                event.native_tag@,
            ) && plan.install_proxies == (current_tag(old(self).proxies.attached_tags(), event.id@)
                != Some(event.native_tag@)),
    {
        let (webview_id, native_tag) = match controller_identity(event) {
            Err(e) => return Err(e),
            Ok(pair) => pair,
        };
        self.controllers.attach(webview_id.as_str(), native_tag.as_str());
        let schemes = match self.protocols.on_controller_attached(webview_id.as_str(), native_tag.as_str()) {
            Err(e) => return Err(e),
            Ok(v) => v,
        };
        let install_proxies = self.proxies.on_controller_attached(webview_id.as_str(), native_tag.as_str());
        Ok(AttachPlan { webview_id, native_tag, schemes, install_proxies })
    }

    /// Handles a removed controller: each record forgets it only when it is
    /// still the webview's current controller.
    pub fn controller_removed(&mut self, event: WebviewControllerEvent) -> (r: Result<(), BridgeError>)
        requires
            old(self).wf(),
        ensures
            final(self).wf(),
            r is Ok <==> (!is_blank(event.id@) && !is_blank(event.native_tag@)),
            is_blank(event.id@) ==> (r matches Err(e) && e.reason@
                == "WebView controller event id must not be empty"@) && final(self).controllers@
                == old(self).controllers@,
            !is_blank(event.id@) && is_blank(event.native_tag@) ==> (r matches Err(e) && e.reason@
                == "WebView controller event nativeTag must not be empty"@) && final(self).controllers@
                == old(self).controllers@,
            r is Ok && current_tag(old(self).controllers@, event.id@) == Some(event.native_tag@) ==> final(self).controllers@
                == old(self).controllers@.remove(event.id@),
            current_tag(old(self).controllers@, event.id@) != Some(event.native_tag@) ==> final(self).controllers@
                == old(self).controllers@,
            r is Err ==> *final(self) == *old(self),
            r is Ok && current_tag(old(self).protocols.attached(), event.id@) == Some(event.native_tag@)
                ==> final(self).protocols.attached() == old(self).protocols.attached().remove(event.id@)
                && final(self).protocols.installing() == old(self).protocols.installing().remove(event.native_tag@)
                && final(self).protocols.installed() == old(self).protocols.installed().remove(event.native_tag@),
            current_tag(old(self).protocols.attached(), event.id@) != Some(event.native_tag@)
                ==> final(self).protocols.attached() == old(self).protocols.attached()
                && final(self).protocols.installing() == old(self).protocols.installing()
                && final(self).protocols.installed() == old(self).protocols.installed(),
            r is Ok && current_tag(old(self).proxies.attached_tags(), event.id@) == Some(event.native_tag@)
                ==> final(self).proxies.attached_tags() == old(self).proxies.attached_tags().remove(event.id@),
            current_tag(old(self).proxies.attached_tags(), event.id@) != Some(event.native_tag@)
                ==> final(self).proxies.attached_tags() == old(self).proxies.attached_tags(),
            final(self).protocols.declared() == old(self).protocols.declared(),
            final(self).protocols.schemes() == old(self).protocols.schemes(),
            final(self).proxies.declared() == old(self).proxies.declared(),
    {
        let (webview_id, native_tag) = match controller_identity(event) {
            Err(e) => return Err(e),
            Ok(pair) => pair,
        };
        self.protocols.on_controller_removed(webview_id.as_str(), native_tag.as_str());
        self.proxies.on_controller_removed(webview_id.as_str(), native_tag.as_str());
        let _ = self.controllers.remove(webview_id.as_str(), native_tag.as_str());
        Ok(())
    }

    /// Forgets every attached controller (declarations stay).
    pub fn clear_attached_webview_state(&mut self)
        requires
            old(self).wf(),
        ensures
            final(self).wf(),
            final(self).controllers@ == Map::<Seq<char>, Seq<char>>::empty(),
            final(self).protocols.attached() == Map::<Seq<char>, Seq<char>>::empty(),
            final(self).protocols.installing() == Map::<Seq<char>, Set<Seq<char>>>::empty(),
            final(self).protocols.installed() == Map::<Seq<char>, Set<Seq<char>>>::empty(),
            final(self).proxies.attached_tags() == Map::<Seq<char>, Seq<char>>::empty(),
            final(self).protocols.schemes() == old(self).protocols.schemes(),
            final(self).protocols.declared() == old(self).protocols.declared(),
            final(self).proxies.declared() == old(self).proxies.declared(),
    {
        self.controllers.clear();
        self.protocols.clear_attached();
        self.proxies.clear_attached();
    }

    /// A destroyed ability or UI context drops every attached controller.
    pub fn on_lifecycle(&mut self, event: &PluginLifecycleEvent)
        requires
            old(self).wf(),
        ensures
            final(self).wf(),
            event is AbilityDestroyed || event is UiContextDestroyed ==> final(self).controllers@ == Map::<
                Seq<char>,
                Seq<char>,
            >::empty() && final(self).protocols.attached() == Map::<Seq<char>, Seq<char>>::empty()
                && final(self).protocols.installing() == Map::<Seq<char>, Set<Seq<char>>>::empty()
                && final(self).protocols.installed() == Map::<Seq<char>, Set<Seq<char>>>::empty()
                && final(self).proxies.attached_tags() == Map::<Seq<char>, Seq<char>>::empty()
                && final(self).protocols.schemes() == old(self).protocols.schemes()
                && final(self).protocols.declared() == old(self).protocols.declared()
                && final(self).proxies.declared() == old(self).proxies.declared(),
            !(event is AbilityDestroyed || event is UiContextDestroyed) ==> *final(self) == *old(self),
    {
        if crate::webview::clears_attached_state(event) {
            self.clear_attached_webview_state();
        }
    }
}

} // verus!
