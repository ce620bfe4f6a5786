//! Per-app state of one native module: the single DefaultXComponent render
//! owner and its surface, the saved state blob, the per-window rect cache, the
//! latched main-window decoration height, the avoid areas, the init context
//! and the app's session slots (want parameters, initial want URI,
//! continuation).
//!
//! `W` is the native window handle and `X` the XComponent handle; the state
//! only stores and clears them.

use std::collections::HashMap;
use vstd::prelude::*;

use crate::bridge::BridgeError;
use crate::geometry::{AvoidArea, Rect};
use crate::keyed::text_eq;

verus! {

broadcast use vstd::std_specs::hash::group_hash_axioms;

/// Largest plausible title-bar height, in physical pixels; a larger window −
/// surface difference is a stale-rect reading.
pub const DECOR_HEIGHT_MAX: i32 = 320;

/// Context handed over by ArkTS when the native module initializes.
#[derive(Clone, Debug)]
pub struct AbilityInitContext {
    pub base_path: Option<String>,
    pub pref_path: Option<String>,
    pub preferred_locales: Option<String>,
    pub module_name: Option<String>,
    pub sdk_api_version: Option<i32>,
    pub distribution_api_version: Option<i32>,
}

impl AbilityInitContext {
    pub open spec fn is_empty(self) -> bool {
        &&& self.base_path is None
        &&& self.pref_path is None
        &&& self.preferred_locales is None
        &&& self.module_name is None
        &&& self.sdk_api_version is None
        &&& self.distribution_api_version is None
    }

    pub fn empty() -> (r: AbilityInitContext)
        ensures
            r.is_empty(),
    {
        AbilityInitContext {
            base_path: None,
            pref_path: None,
            preferred_locales: None,
            module_name: None,
            sdk_api_version: None,
            distribution_api_version: None,
        }
    }
}

impl Default for AbilityInitContext {
    fn default() -> (r: AbilityInitContext)
        ensures
            r.is_empty(),
    {
        AbilityInitContext::empty()
    }
}

/// The decoration height latched from the main-window rect and the surface
/// rect: an exact fit latches 0, a difference in `(0, DECOR_HEIGHT_MAX]`
/// latches that difference, and anything else (no main-window rect yet, a
/// negative or implausibly large difference) keeps the previous value.
pub open spec fn latched_decor(window_rects: Map<i64, Rect>, content: Rect, previous: i32) -> i32 {
    if !window_rects.contains_key(0) {
        previous
    } else {
        let diff = window_rects[0].height - content.height;
        if diff == 0 {
            0
        } else if 0 < diff <= DECOR_HEIGHT_MAX {
            diff as i32
        } else {
            previous
        }
    }
}

/// The main-window minus surface height difference fits in an `i32`.
pub open spec fn decor_diff_fits(window_rects: Map<i64, Rect>, content: Rect) -> bool {
    window_rects.contains_key(0) ==> i32::MIN <= window_rects[0].height - content.height
        <= i32::MAX
}

/// The rect cached for a window; a window without one reads as the empty rect.
pub open spec fn rect_or_zero(window_rects: Map<i64, Rect>, window_id: i64) -> Rect {
    if window_rects.contains_key(window_id) {
        window_rects[window_id]
    } else {
        Rect::spec_zero()
    }
}

/// What one native module's app state holds.
pub ghost struct AppStateView<W, X> {
    pub render_owner: Option<Seq<char>>,
    pub surface_active: bool,
    pub raw_window: Option<W>,
    pub xcomponent: Option<X>,
    pub saved: Option<Seq<u8>>,
    pub id: i64,
    pub rect: Rect,
    pub window_rects: Map<i64, Rect>,
    pub decor_height: i32,
    pub avoid_areas: Map<i32, AvoidArea>,
    pub want_parameters: Seq<char>,
    pub initial_want_uri: Seq<char>,
    pub continuation_restore: bool,
    pub continuation_data: Seq<char>,
}

/// One native module's app state.
pub struct OpenHarmonyAppInner<W, X> {
    render_owner: Option<String>,
    surface_active: bool,
    raw_window: Option<W>,
    xcomponent: Option<X>,
    state: Vec<u8>,
    save_state: bool,
    id: i64,
    rect: Rect,
    window_rects: HashMap<i64, Rect>,
    decor_height: i32,
    avoid_areas: HashMap<i32, AvoidArea>,
    init_context: AbilityInitContext,
    want_parameters: String,
    initial_want_uri: String,
    continuation_restore: bool,
    continuation_data: String,
}

impl<W, X> View for OpenHarmonyAppInner<W, X> {
    type V = AppStateView<W, X>;

    closed spec fn view(&self) -> AppStateView<W, X> {
        AppStateView {
            render_owner: match self.render_owner {
                Some(o) => Some(o@),
                None => None,
            },
            surface_active: self.surface_active,
            raw_window: self.raw_window,
            xcomponent: self.xcomponent,
            saved: if self.save_state {
                Some(self.state@)
            } else {
                None
            },
            id: self.id,
            rect: self.rect,
            window_rects: self.window_rects@,
            decor_height: self.decor_height,
            avoid_areas: self.avoid_areas@,
            want_parameters: self.want_parameters@,
            initial_want_uri: self.initial_want_uri@,
            continuation_restore: self.continuation_restore,
            continuation_data: self.continuation_data@,
        }
    }
}

/// The state after a stale call: nothing changed.
pub open spec fn unchanged<W, X>(before: AppStateView<W, X>, after: AppStateView<W, X>) -> bool {
    after == before
}

/// `owner` holds the render slot.
pub open spec fn owns<W, X>(s: AppStateView<W, X>, owner: Seq<char>) -> bool {
    s.render_owner == Some(owner)
}

/// The state after `owner` claims the render slot.
pub open spec fn claimed<W, X>(s: AppStateView<W, X>, owner: Seq<char>) -> AppStateView<W, X> {
    AppStateView { render_owner: Some(owner), surface_active: false, ..s }
}

/// The state after the owner's surface becomes active with `rect`.
pub open spec fn activated<W, X>(s: AppStateView<W, X>, raw_window: Option<W>, rect: Rect) -> AppStateView<W, X> {
    AppStateView {
        raw_window: raw_window,
        rect: rect,
        surface_active: true,
        decor_height: latched_decor(s.window_rects, rect, s.decor_height),
        ..s
    }
}

/// The state after the owner's active surface moves to `rect`.
pub open spec fn resized<W, X>(s: AppStateView<W, X>, rect: Rect) -> AppStateView<W, X> {
    AppStateView { rect: rect, decor_height: latched_decor(s.window_rects, rect, s.decor_height), ..s }
}

/// The state after the owner's surface is torn down (the owner stays).
pub open spec fn deactivated<W, X>(s: AppStateView<W, X>) -> AppStateView<W, X> {
    AppStateView { raw_window: None, rect: Rect::spec_zero(), surface_active: false, ..s }
}

/// The state after the owner's render is released.
pub open spec fn released<W, X>(s: AppStateView<W, X>) -> AppStateView<W, X> {
    AppStateView {
        render_owner: None,
        surface_active: false,
        raw_window: None,
        xcomponent: None,
        rect: Rect::spec_zero(),
        window_rects: s.window_rects.remove(0),
        avoid_areas: Map::empty(),
        ..s
    }
}

/// The state after the continuation signal is stored: a continuation
/// restore keeps its payload, a plain launch clears it.
pub open spec fn with_continuation<W, X>(s: AppStateView<W, X>, is_continuation: bool, json: Seq<char>) -> AppStateView<W, X> {
    AppStateView {
        continuation_restore: is_continuation,
        continuation_data: if is_continuation {
            json
        } else {
            Seq::empty()
        },
        ..s
    }
}

/// The state after the continuation payload is taken.
pub open spec fn continuation_taken<W, X>(s: AppStateView<W, X>) -> AppStateView<W, X> {
    AppStateView { continuation_data: Seq::empty(), ..s }
}

/// The new decoration height a latch reports: `Some` only on a real change.
pub open spec fn latch_report(previous: i32, latched: i32) -> Option<i32> {
    if latched != previous {
        Some(latched)
    } else {
        None
    }
}

impl<W, X> OpenHarmonyAppInner<W, X> {
    /// The latched decoration height never leaves `[0, DECOR_HEIGHT_MAX]`, and
    /// an active surface always has a render owner.
    pub closed spec fn wf(&self) -> bool {
        &&& 0 <= self.decor_height <= DECOR_HEIGHT_MAX
        &&& self.surface_active ==> self.render_owner is Some
    }

    pub closed spec fn spec_init_context(&self) -> AbilityInitContext {
        self.init_context
    }

    /// A fresh app state with the given instance id.
    pub fn new(id: i64) -> (r: Self)
        ensures
            r.wf(),
            r@.render_owner is None,
            !r@.surface_active,
            r@.raw_window is None,
            r@.xcomponent is None,
            r@.saved is None,
            r@.id == id,
            r@.rect == Rect::spec_zero(),
            r@.window_rects == Map::<i64, Rect>::empty(),
            r@.decor_height == 0,
            r@.avoid_areas == Map::<i32, AvoidArea>::empty(),
            r.spec_init_context().is_empty(),
            r@.want_parameters == Seq::<char>::empty(),
            r@.initial_want_uri == Seq::<char>::empty(),
            !r@.continuation_restore,
            r@.continuation_data == Seq::<char>::empty(),
    {
        let r = OpenHarmonyAppInner {
            render_owner: None,
            surface_active: false,
            raw_window: None,
            xcomponent: None,
            state: Vec::new(),
            save_state: false,
            id,
            rect: Rect::zero(),
            window_rects: HashMap::new(),
            decor_height: 0,
            avoid_areas: HashMap::new(),
            init_context: AbilityInitContext::empty(),
            want_parameters: String::new(),
            initial_want_uri: String::new(),
            continuation_restore: false,
            continuation_data: String::new(),
        };
        assert(r@.window_rects =~= Map::<i64, Rect>::empty());
        assert(r@.avoid_areas =~= Map::<i32, AvoidArea>::empty());
        r
    }

    pub fn id(&self) -> (r: i64)
        ensures
            r == self@.id,
    {
        self.id
    }

    /// The state saved by the last `save`, or `None` before the first one.
    /// Peek-only: loading does not consume it.
    pub fn load(&self) -> (r: Option<Vec<u8>>)
        ensures
            match r {
                Some(v) => self@.saved == Some(v@),
                None => self@.saved is None,
            },
    {
        if self.save_state {
            Some(self.state.clone())
        } else {
            None
        }
    }

    /// Saves the app state blob.
    pub fn save(&mut self, state: Vec<u8>)
        requires
            old(self).wf(),
        ensures
            final(self).wf(),
            final(self)@ == (AppStateView { saved: Some(state@), ..old(self)@ }),
    {
        self.state = state;
        self.save_state = true;
    }

    /// Claims the single render owner slot.
    pub fn claim_render_owner(&mut self, owner: &str) -> (r: Result<(), BridgeError>)
        requires
            old(self).wf(),
        ensures
            final(self).wf(),
            r is Ok <==> old(self)@.render_owner is None,
            r is Ok ==> final(self)@ == claimed(old(self)@, owner@),
            r matches Err(e) ==> final(self)@ == old(self)@ && e.reason@
                == "This native module already has an active DefaultXComponent render owner"@,
    {
        if self.render_owner.is_some() {
            return Err(
                BridgeError::from_reason(
                    "This native module already has an active DefaultXComponent render owner",
                ),
            );
        }
        self.render_owner = Some(owner.to_owned());
        self.surface_active = false;
        Ok(())
    }

    /// Whether `owner` is the current render owner.
    pub fn owns_render(&self, owner: &str) -> (r: bool)
        ensures
            r == (self@.render_owner == Some(owner@)),
    {
        match &self.render_owner {
            Some(current) => text_eq(current.as_str(), owner),
            None => false,
        }
    }

    /// Whether `owner` is the render owner and its surface is active.
    pub fn is_surface_active(&self, owner: &str) -> (r: bool)
        ensures
            r == (self@.render_owner == Some(owner@) && self@.surface_active),
    {
        self.owns_render(owner) && self.surface_active
    }

    /// Whether a surface rect can be latched against the cached main-window
    /// rect: their height difference fits in an `i32`.
    pub fn surface_rect_fits(&self, rect: Rect) -> (r: bool)
        ensures
            r == decor_diff_fits(self@.window_rects, rect),
    {
        match self.window_rects.get(&0) {
            Some(w) => {
                let diff = w.height as i64 - rect.height as i64;
                i32::MIN as i64 <= diff && diff <= i32::MAX as i64
            },
            None => true,
        }
    }

    /// Re-latches the decoration height from the cached main-window rect and
    /// the current surface rect; returns the new height when it changed.
    pub fn latch_decor_height(&mut self) -> (changed: Option<i32>)
        requires
            old(self).wf(),
            decor_diff_fits(old(self)@.window_rects, old(self)@.rect),
        ensures
            final(self).wf(),
            final(self)@ == (AppStateView {
                decor_height: latched_decor(old(self)@.window_rects, old(self)@.rect, old(self)@.decor_height),
                ..old(self)@
            }),
            changed == (if latched_decor(old(self)@.window_rects, old(self)@.rect, old(self)@.decor_height)
                != old(self)@.decor_height {
                Some(latched_decor(old(self)@.window_rects, old(self)@.rect, old(self)@.decor_height))
            } else {
                None
            }),
    {
        let window = match self.window_rects.get(&0) {
            Some(w) => *w,
            None => {
                return None;
            },
        };
        let diff = window.height - self.rect.height;
        let new_decor = if diff == 0 {
            0
        } else if diff > 0 && diff <= DECOR_HEIGHT_MAX {
            diff
        } else {
            return None;
        };
        if new_decor == self.decor_height {
            return None;
        }
        self.decor_height = new_decor;
        Some(new_decor)
    }

    /// Activates the owner's surface; a stale owner or an already active
    /// surface is ignored. On success the decoration height is re-latched and
    /// `Some(changed)` reports the latch.
    pub fn activate_surface(&mut self, owner: &str, raw_window: Option<W>, rect: Rect) -> (r: Option<
        Option<i32>,
    >)
        requires
            old(self).wf(),
            decor_diff_fits(old(self)@.window_rects, rect),
        ensures
            final(self).wf(),
            r is Some <==> (old(self)@.render_owner == Some(owner@) && !old(self)@.surface_active),
            r is None ==> final(self)@ == old(self)@,
            r is Some ==> final(self)@ == activated(old(self)@, raw_window, rect) && r->0
                == latch_report(old(self)@.decor_height, final(self)@.decor_height),
    {
        if !self.owns_render(owner) || self.surface_active {
            return None;
        }
        self.raw_window = raw_window;
        self.rect = rect;
        self.surface_active = true;
        Some(self.latch_decor_height())
    }

    /// Updates the owner's active surface rect and re-latches the decoration
    /// height; a stale owner or an inactive surface is ignored.
    pub fn update_surface_rect(&mut self, owner: &str, rect: Rect) -> (r: Option<Option<i32>>)
        requires
            old(self).wf(),
            decor_diff_fits(old(self)@.window_rects, rect),
        ensures
            final(self).wf(),
            r is Some <==> (old(self)@.render_owner == Some(owner@) && old(self)@.surface_active),
            r is None ==> final(self)@ == old(self)@,
            r is Some ==> final(self)@ == resized(old(self)@, rect) && r->0 == latch_report(
                old(self)@.decor_height,
                final(self)@.decor_height,
            ),
    {
        if !self.owns_render(owner) || !self.surface_active {
            return None;
        }
        self.rect = rect;
        Some(self.latch_decor_height())
    }

    /// Deactivates the owner's active surface, keeping the owner (the surface
    /// may be recreated); a stale owner or an inactive surface is ignored.
    pub fn deactivate_surface(&mut self, owner: &str) -> (r: bool)
        requires
            old(self).wf(),
        ensures
            final(self).wf(),
            r == (old(self)@.render_owner == Some(owner@) && old(self)@.surface_active),
            !r ==> final(self)@ == old(self)@,
            r ==> final(self)@ == deactivated(old(self)@),
    {
        if !self.owns_render(owner) || !self.surface_active {
            return false;
        }
        self.raw_window = None;
        self.rect = Rect::zero();
        self.surface_active = false;
        true
    }

    /// Releases the owner's render: clears the owner, the surface, the native
    /// handles, the main-window rect and the avoid areas. Returns whether the
    /// surface was active, or `None` for a stale owner (nothing changes), so a
    /// delayed cleanup of an old component cannot clear its replacement.
    pub fn release_render_owner(&mut self, owner: &str) -> (r: Option<bool>)
        requires
            old(self).wf(),
        ensures
            final(self).wf(),
            r is Some <==> owns(old(self)@, owner@),
            r is None ==> final(self)@ == old(self)@,
            r matches Some(was_active) ==> was_active == old(self)@.surface_active && final(self)@
                == released(old(self)@),
    {
        if !self.owns_render(owner) {
            return None;
        }
        let surface_was_active = self.surface_active;
        self.render_owner = None;
        self.surface_active = false;
        self.raw_window = None;
        self.xcomponent = None;
        self.rect = Rect::zero();
        let _ = self.window_rects.remove(&0);
        self.avoid_areas.clear();
        proof {
            assert(self@.avoid_areas =~= Map::<i32, AvoidArea>::empty());
        }
        Some(surface_was_active)
    }

    /// Installs the XComponent of the current render owner.
    pub fn set_xcomponent(&mut self, xcomponent: X)
        requires
            old(self).wf(),
        ensures
            final(self).wf(),
            final(self)@ == (AppStateView { xcomponent: Some(xcomponent), ..old(self)@ }),
    {
        self.xcomponent = Some(xcomponent);
    }

    /// The current surface (content) rect.
    pub fn content_rect(&self) -> (r: Rect)
        ensures
            r == self@.rect,
    {
        self.rect
    }

    pub fn native_window(&self) -> (r: &Option<W>)
        ensures
            *r == self@.raw_window,
    {
        &self.raw_window
    }

    pub fn xcomponent(&self) -> (r: &Option<X>)
        ensures
            *r == self@.xcomponent,
    {
        &self.xcomponent
    }

    /// The cached rect of a window; the empty rect before its first report.
    pub fn window_rect_for(&self, window_id: i64) -> (r: Rect)
        ensures
            r == rect_or_zero(self@.window_rects, window_id),
    {
        match self.window_rects.get(&window_id) {
            Some(rect) => *rect,
            None => Rect::zero(),
        }
    }

    /// Caches the rect of a window.
    pub fn set_window_rect(&mut self, window_id: i64, rect: Rect)
        requires
            old(self).wf(),
        ensures
            final(self).wf(),
            final(self)@ == (AppStateView {
                window_rects: old(self)@.window_rects.insert(window_id, rect),
                ..old(self)@
            }),
    {
        let _ = self.window_rects.insert(window_id, rect);
    }

    /// Drops the cached rect of a destroyed window.
    pub fn remove_window_rect(&mut self, window_id: i64)
        requires
            old(self).wf(),
        ensures
            final(self).wf(),
            final(self)@ == (AppStateView {
                window_rects: old(self)@.window_rects.remove(window_id),
                ..old(self)@
            }),
    {
        let _ = self.window_rects.remove(&window_id);
    }

    /// The cached avoid area of one area type (raw `AvoidAreaType` code).
    pub fn avoid_area(&self, area_type: i32) -> (r: Option<AvoidArea>)
        ensures
            r == (if self@.avoid_areas.contains_key(area_type) {
                Some(self@.avoid_areas[area_type])
            } else {
                None
            }),
    {
        match self.avoid_areas.get(&area_type) {
            Some(area) => Some(*area),
            None => None,
        }
    }

    /// Caches the avoid area of one area type.
    pub fn set_avoid_area(&mut self, area_type: i32, area: AvoidArea)
        requires
            old(self).wf(),
        ensures
            final(self).wf(),
            final(self)@ == (AppStateView {
                avoid_areas: old(self)@.avoid_areas.insert(area_type, area),
                ..old(self)@
            }),
    {
        let _ = self.avoid_areas.insert(area_type, area);
    }

    /// The latched main-window decoration height.
    pub fn decor_height(&self) -> (r: i32)
        requires
            self.wf(),
        ensures
            r == self@.decor_height,
            0 <= r <= DECOR_HEIGHT_MAX,
    {
        self.decor_height
    }

    /// Decoration height to compensate for a window: the latched height for
    /// the main window (0), none for a Float sub-window (its own title bar).
    pub fn decor_height_for(&self, window_id: i64) -> (r: i32)
        requires
            self.wf(),
        ensures
            r == (if window_id == 0 {
                self@.decor_height
            } else {
                0
            }),
    {
        if window_id == 0 {
            let d = self.decor_height;
            if d < 0 {
                0
            } else {
                d
            }
        } else {
            0
        }
    }

    /// The inner (content-area) rect of a window: window position plus
    /// content offset (plus the decoration on the main window), the window's
    /// width, and its height less the decoration, saturating at 0.
    pub fn inner_rect_for(&self, window_id: i64) -> (r: Rect)
        requires
            self.wf(),
            inner_rect_fits(self@, window_id),
        ensures
            r == inner_rect(self@, window_id),
            r.left == rect_or_zero(self@.window_rects, window_id).left + self@.rect.left,
            r.top == rect_or_zero(self@.window_rects, window_id).top + self@.rect.top + (if window_id == 0 {
                self@.decor_height as int
            } else {
                0
            }),
            r.width == rect_or_zero(self@.window_rects, window_id).width,
    {
        let window = self.window_rect_for(window_id);
        let content = self.rect;
        let decor = if window_id == 0 {
            self.decor_height
        } else {
            0
        };
        let h = window.height as u32;
        let d = decor as u32;
        let height: u32 = if h >= d {
            h - d
        } else {
            0
        };
        Rect {
            left: window.left + content.left,
            top: window.top + content.top + decor,
            width: window.width,
            height: height as i32,
        }
    }

    /// Whether the inner rect of a window can be formed without overflow.
    pub fn inner_rect_fits_for(&self, window_id: i64) -> (r: bool)
        requires
            self.wf(),
        ensures
            r == inner_rect_fits(self@, window_id),
    {
        let window = self.window_rect_for(window_id);
        let content = self.rect;
        let decor: i64 = if window_id == 0 {
            self.decor_height as i64
        } else {
            0
        };
        let left = window.left as i64 + content.left as i64;
        let top = window.top as i64 + content.top as i64;
        let top_decor = top + decor;
        i32::MIN as i64 <= left && left <= i32::MAX as i64 && i32::MIN as i64 <= top && top
            <= i32::MAX as i64 && i32::MIN as i64 <= top_decor && top_decor <= i32::MAX as i64
    }

    pub fn init_context(&self) -> (r: &AbilityInitContext)
        ensures
            *r == self.spec_init_context(),
    {
        &self.init_context
    }

    pub fn set_init_context(&mut self, context: AbilityInitContext)
        requires
            old(self).wf(),
        ensures
            final(self).wf(),
            final(self)@ == old(self)@,
            final(self).spec_init_context() == context,
    {
        self.init_context = context;
    }

    /// Stores the latest `want.parameters` JSON.
    pub fn store_want_parameters(&mut self, json: &str)
        requires
            old(self).wf(),
        ensures
            final(self).wf(),
            final(self)@ == (AppStateView { want_parameters: json@, ..old(self)@ }),
    {
        self.want_parameters = json.to_owned();
    }

    /// Takes the latest `want.parameters` JSON, leaving `""` behind.
    pub fn take_want_parameters(&mut self) -> (r: String)
        requires
            old(self).wf(),
        ensures
            final(self).wf(),
            r@ == old(self)@.want_parameters,
            final(self)@ == (AppStateView { want_parameters: Seq::empty(), ..old(self)@ }),
    {
        let mut taken = String::new();
        std::mem::swap(&mut taken, &mut self.want_parameters);
        taken
    }

    /// Stores the cold-start `want.uri`.
    pub fn store_initial_want_uri(&mut self, uri: &str)
        requires
            old(self).wf(),
        ensures
            final(self).wf(),
            final(self)@ == (AppStateView { initial_want_uri: uri@, ..old(self)@ }),
    {
        self.initial_want_uri = uri.to_owned();
    }

    /// Takes the cold-start `want.uri`, leaving `""` behind.
    pub fn take_initial_want_uri(&mut self) -> (r: String)
        requires
            old(self).wf(),
        ensures
            final(self).wf(),
            r@ == old(self)@.initial_want_uri,
            final(self)@ == (AppStateView { initial_want_uri: Seq::empty(), ..old(self)@ }),
    {
        let mut taken = String::new();
        std::mem::swap(&mut taken, &mut self.initial_want_uri);
        taken
    }

    /// Stores the continuation signal: a continuation restore keeps its payload
    /// verbatim; a plain launch clears both the flag and the payload.
    pub fn store_continuation(&mut self, is_continuation: bool, parameters_json: &str)
        requires
            old(self).wf(),
        ensures
            final(self).wf(),
            final(self)@ == with_continuation(old(self)@, is_continuation, parameters_json@),
    {
        self.continuation_restore = is_continuation;
        self.continuation_data = if is_continuation {
            parameters_json.to_owned()
        } else {
            String::new()
        };
    }

    /// Whether the current launch is a continuation restore (peek-only).
    pub fn is_continuation_restore(&self) -> (r: bool)
        ensures
            r == self@.continuation_restore,
    {
        self.continuation_restore
    }

    /// Takes the continuation payload, leaving `""` behind.
    pub fn take_continuation_data(&mut self) -> (r: String)
        requires
            old(self).wf(),
        ensures
            final(self).wf(),
            r@ == old(self)@.continuation_data,
            final(self)@ == continuation_taken(old(self)@),
    {
        let mut taken = String::new();
        std::mem::swap(&mut taken, &mut self.continuation_data);
        taken
    }
}

/// The sums that `inner_rect_for` forms fit in an `i32`.
pub open spec fn inner_rect_fits<W, X>(s: AppStateView<W, X>, window_id: i64) -> bool {
    let window = rect_or_zero(s.window_rects, window_id);
    let decor = if window_id == 0 {
        s.decor_height as int
    } else {
        0
    };
    &&& i32::MIN <= window.left + s.rect.left <= i32::MAX
    &&& i32::MIN <= window.top + s.rect.top + decor <= i32::MAX
    &&& i32::MIN <= window.top + s.rect.top <= i32::MAX
}

/// The inner rect of a window (see `OpenHarmonyAppInner::inner_rect_for`).
/// The height is `window.height − decor` taken on the 32-bit unsigned
/// reading of the window height, saturating at 0.
pub open spec fn inner_rect<W, X>(s: AppStateView<W, X>, window_id: i64) -> Rect {
    let window = rect_or_zero(s.window_rects, window_id);
    let decor: i32 = if window_id == 0 {
        s.decor_height
    } else {
        0
    };
    let h = window.height as u32;
    let d = decor as u32;
    Rect {
        left: (window.left + s.rect.left) as i32,
        top: (window.top + s.rect.top + decor) as i32,
        width: window.width,
        height: (if h >= d {
            (h - d) as u32
        } else {
            0u32
        }) as i32,
    }
}


/// The NativeAbility transport session a native module belongs to: the owner
/// token of the session and the endpoints (`S`) installed for it.
pub struct BridgeSession<S> {
    active: Option<(String, S)>,
}

impl<S> View for BridgeSession<S> {
    type V = Option<(Seq<char>, S)>;

    closed spec fn view(&self) -> Option<(Seq<char>, S)> {
        match self.active {
            Some((owner, endpoints)) => Some((owner@, endpoints)),
            None => None,
        }
    }
}

impl<S> BridgeSession<S> {
    pub fn new() -> (r: Self)
        ensures
            r@ is None,
    {
        BridgeSession { active: None }
    }

    pub fn is_active(&self) -> (r: bool)
        ensures
            r == self@ is Some,
    {
        self.active.is_some()
    }

    /// Installs the endpoints of a new session. The owner must be nonempty and
    /// no other session may be active.
    pub fn begin(&mut self, owner: &str, endpoints: S) -> (r: Result<(), BridgeError>)
        ensures
            r is Ok <==> (owner@.len() > 0 && old(self)@ is None),
            r is Ok ==> final(self)@ == Some((owner@, endpoints)),
            r is Err ==> final(self)@ == old(self)@,
            owner@.len() == 0 ==> (r matches Err(e) && e.reason@
                == "Bridge session owner must not be empty"@),
            owner@.len() > 0 && old(self)@ is Some ==> (r matches Err(e) && e.reason@
                == "This native module already belongs to an active NativeAbility bridge session"@),
    {
        if owner.is_empty() {
            return Err(BridgeError::from_reason("Bridge session owner must not be empty"));
        }
        if self.active.is_some() {
            return Err(
                BridgeError::from_reason(
                    "This native module already belongs to an active NativeAbility bridge session",
                ),
            );
        }
        self.active = Some((owner.to_owned(), endpoints));
        Ok(())
    }

    /// Releases the session of `owner`; a stale owner releases nothing, so a
    /// delayed teardown cannot clear the endpoints of a later session.
    pub fn release(&mut self, owner: &str) -> (r: Option<S>)
        ensures
            match old(self)@ {
                Some((active, endpoints)) => if active == owner@ {
                    r == Some(endpoints) && final(self)@ is None
                } else {
                    r is None && final(self)@ == old(self)@
                },
                None => r is None && final(self)@ is None,
            },
    {
        let matches = match &self.active {
            Some((active, _)) => text_eq(active.as_str(), owner),
            None => false,
        };
        if !matches {
            return None;
        }
        match self.active.take() {
            Some((_, endpoints)) => Some(endpoints),
            None => None,
        }
    }

    /// The endpoints of the active session.
    pub fn endpoints(&self) -> (r: Result<&S, BridgeError>)
        ensures
            match self@ {
                Some((_, endpoints)) => r == Ok::<&S, BridgeError>(&endpoints),
                None => r matches Err(e) && e.reason@
                    == "Bridge runtime is not ready. Call it during an active NativeAbility session."@,
            },
    {
        match &self.active {
            Some((_, endpoints)) => Ok(endpoints),
            None => Err(
                BridgeError::from_reason(
                    "Bridge runtime is not ready. Call it during an active NativeAbility session.",
                ),
            ),
        }
    }

    /// The endpoints of the active session, for a synchronous call made on
    /// the main thread.
    pub fn main_thread_endpoints(&self) -> (r: Result<&S, BridgeError>)
        ensures
            match self@ {
                Some((_, endpoints)) => r == Ok::<&S, BridgeError>(&endpoints),
                None => r matches Err(e) && e.reason@
                    == "Synchronous bridge is not ready. Call it during an active NativeAbility session."@,
            },
    {
        match &self.active {
            Some((_, endpoints)) => Ok(endpoints),
            None => Err(
                BridgeError::from_reason(
                    "Synchronous bridge is not ready. Call it during an active NativeAbility session.",
                ),
            ),
        }
    }
}

/// Starts the render of a DefaultXComponent: only inside an active bridge
/// session, and only when no other component owns the render.
pub fn begin_render<W, X, S>(
    session: &BridgeSession<S>,
    state: &mut OpenHarmonyAppInner<W, X>,
    owner: &str,
    xcomponent: X,
) -> (r: Result<(), BridgeError>)
    requires
        old(state).wf(),
    ensures
        final(state).wf(),
        r is Ok <==> (session@ is Some && old(state)@.render_owner is None),
        r is Ok ==> final(state)@ == (AppStateView {
            xcomponent: Some(xcomponent),
            ..claimed(old(state)@, owner@)
        }),
        r is Err ==> final(state)@ == old(state)@,
        session@ is None ==> (r matches Err(e) && e.reason@
            == "A DefaultXComponent cannot render outside an active NativeAbility module session"@),
{
    if !session.is_active() {
        return Err(
            BridgeError::from_reason(
                "A DefaultXComponent cannot render outside an active NativeAbility module session",
            ),
        );
    }
    match state.claim_render_owner(owner) {
        Ok(()) => {
            state.set_xcomponent(xcomponent);
            Ok(())
        },
        Err(e) => Err(e),
    }
}

/// Releases the bridge session of `owner`; when it was the active session,
/// the init context it brought is forgotten as well.
pub fn release_bridge_session<W, X, S>(
    session: &mut BridgeSession<S>,
    state: &mut OpenHarmonyAppInner<W, X>,
    owner: &str,
) -> (released: bool)
    requires
        old(state).wf(),
    ensures
        final(state).wf(),
        final(state)@ == old(state)@,
        released == (old(session)@ matches Some((active, _)) && active == owner@),
        released ==> final(session)@ is None && final(state).spec_init_context().is_empty(),
        !released ==> final(session)@ == old(session)@ && final(state).spec_init_context()
            == old(state).spec_init_context(),
{
    match session.release(owner) {
        Some(_) => {
            state.set_init_context(AbilityInitContext::empty());
            true
        },
        None => false,
    }
}

/// The decoration-change listeners of an app, each under the id it was
/// registered with. The listeners themselves are called by the host; a
/// listener that answers `false` is dropped.
pub struct DecorListeners<L> {
    entries: Vec<(u64, L)>,
    next_id: u64,
}

impl<L> DecorListeners<L> {
    pub closed spec fn entries(&self) -> Seq<(u64, L)> {
        self.entries@
    }

    pub closed spec fn next_id(&self) -> u64 {
        self.next_id
    }

    /// Every registered id is below the next id to hand out.
    pub closed spec fn wf(&self) -> bool {
        forall|i: int| 0 <= i < self.entries@.len() ==> #[trigger] self.entries@[i].0 < self.next_id
    }

    pub fn new() -> (r: Self)
        ensures
            r.wf(),
            r.entries() == Seq::<(u64, L)>::empty(),
            r.next_id() == 0,
    {
        DecorListeners { entries: Vec::new(), next_id: 0 }
    }

    pub fn len(&self) -> (r: usize)
        ensures
            r == self.entries().len(),
    {
        self.entries.len()
    }

    /// The listeners in registration order.
    pub fn listeners(&self) -> (r: &Vec<(u64, L)>)
        ensures
            r@ == self.entries(),
    {
        &self.entries
    }

    /// Whether another listener can be registered (ids are not exhausted).
    pub fn can_register(&self) -> (r: bool)
        ensures
            r == (self.next_id() < u64::MAX),
    {
        self.next_id < u64::MAX
    }

    /// Registers a listener and returns its id.
    pub fn register(&mut self, listener: L) -> (id: u64)
        requires
            old(self).wf(),
            old(self).next_id() < u64::MAX,
        ensures
            final(self).wf(),
            id == old(self).next_id(),
            final(self).next_id() == id + 1,
            final(self).entries() == old(self).entries().push((id, listener)),
    {
        let id = self.next_id;
        self.next_id = self.next_id + 1;
        self.entries.push((id, listener));
        id
    }

    /// Drops the listener registered under `id`, if any.
    pub fn remove(&mut self, id: u64)
        requires
            old(self).wf(),
        ensures
            final(self).wf(),
            final(self).next_id() == old(self).next_id(),
            final(self).entries() == old(self).entries().filter(|e: (u64, L)| e.0 != id),
    {
        let mut kept: Vec<(u64, L)> = Vec::new();
        let mut rest: Vec<(u64, L)> = Vec::new();
        std::mem::swap(&mut rest, &mut self.entries);
        let ghost start = rest@;
        let ghost pred = |e: (u64, L)| e.0 != id;
        let ghost mut consumed: int = 0;
        assert(start.take(0) =~= Seq::<(u64, L)>::empty());
        proof {
            reveal(Seq::filter);
        }
        while rest.len() > 0
            invariant
                0 <= consumed <= start.len(),
                rest@ == start.skip(consumed),
                kept@ == start.take(consumed).filter(pred),
                forall|i: int| 0 <= i < start.len() ==> #[trigger] start[i].0 < self.next_id,
                forall|i: int| 0 <= i < kept@.len() ==> #[trigger] kept@[i].0 < self.next_id,
                self.next_id == old(self).next_id,
                start == old(self).entries@,
                pred == (|e: (u64, L)| e.0 != id),
            decreases rest.len(),
        {
            let e = rest.remove(0);
            proof {
                assert(e == start[consumed]);
                assert(start.take(consumed + 1).drop_last() =~= start.take(consumed));
                assert(start.take(consumed + 1).last() == e);
                reveal(Seq::filter);
                assert(rest@ =~= start.skip(consumed + 1));
            }
            let ghost before = kept@;
            if e.0 != id {
                kept.push(e);
            }
            proof {
                reveal(Seq::filter);
                assert(pred(e) == (e.0 != id));
                assert(start.take(consumed + 1).filter(pred) == (if pred(e) {
                    start.take(consumed).filter(pred).push(e)
                } else {
                    start.take(consumed).filter(pred)
                }));
                consumed = consumed + 1;
            }
        }
        assert(start.take(consumed) =~= start);
        self.entries = kept;
    }

    /// Drops every listener whose answer to the latest change was `false`;
    /// `answers[i]` is the answer of the `i`-th listener.
    pub fn retain_answered(&mut self, answers: &Vec<bool>)
        requires
            old(self).wf(),
            answers@.len() == old(self).entries().len(),
        ensures
            final(self).wf(),
            final(self).next_id() == old(self).next_id(),
            final(self).entries() == kept_by_answers(old(self).entries(), answers@),
    {
        let mut kept: Vec<(u64, L)> = Vec::new();
        let mut rest: Vec<(u64, L)> = Vec::new();
        std::mem::swap(&mut rest, &mut self.entries);
        let ghost start = rest@;
        let mut i: usize = 0;
        let n = answers.len();
        assert(start.take(0) =~= Seq::<(u64, L)>::empty());
        while rest.len() > 0
            invariant
                0 <= i <= start.len(),
                n == start.len(),
                answers@.len() == start.len(),
                rest@ == start.skip(i as int),
                kept@ == kept_by_answers(start.take(i as int), answers@.take(i as int)),
                forall|k: int| 0 <= k < start.len() ==> #[trigger] start[k].0 < self.next_id,
                forall|k: int| 0 <= k < kept@.len() ==> #[trigger] kept@[k].0 < self.next_id,
                self.next_id == old(self).next_id,
                start == old(self).entries@,
            decreases rest.len(),
        {
            let e = rest.remove(0);
            proof {
                assert(e == start[i as int]);
                assert(start.take(i + 1).drop_last() =~= start.take(i as int));
                assert(answers@.take(i + 1).drop_last() =~= answers@.take(i as int));
                assert(rest@ =~= start.skip(i + 1));
            }
            assert(i < start.len()) by {
                assert(start.skip(i as int).len() > 0);
            }
            if answers[i] {
                kept.push(e);
            }
            i += 1;
        }
        assert(start.take(i as int) =~= start);
        assert(answers@.take(i as int) =~= answers@);
        self.entries = kept;
    }
}

/// The listeners whose answer is `true`, in order.
pub open spec fn kept_by_answers<L>(entries: Seq<(u64, L)>, answers: Seq<bool>) -> Seq<(u64, L)>
    decreases entries.len(),
{
    if entries.len() == 0 || answers.len() == 0 {
        Seq::empty()
    } else {
        let before = kept_by_answers(entries.drop_last(), answers.drop_last());
        if answers.last() {
            before.push(entries.last())
        } else {
            before
        }
    }
}


/// A render owner can tear its surface down and bring it back: after an
/// activation and a deactivation it still owns the render, its surface is
/// inactive again (so the next activation is accepted), and the window-rect
/// cache is untouched.
pub proof fn law_surface_recreation_keeps_owner<W, X>(
    s: AppStateView<W, X>,
    owner: Seq<char>,
    raw_window: Option<W>,
    rect: Rect,
)
    requires
        owns(s, owner),
        !s.surface_active,
    ensures
        owns(deactivated(activated(s, raw_window, rect)), owner),
        !deactivated(activated(s, raw_window, rect)).surface_active,
        deactivated(activated(s, raw_window, rect)).window_rects == s.window_rects,
{
}

/// Latching is idempotent: latching again from the same rects keeps the
/// height and reports no change, so listeners hear of each change once.
pub proof fn law_latch_idempotent(window_rects: Map<i64, Rect>, content: Rect, previous: i32)
    ensures
        latched_decor(window_rects, content, latched_decor(window_rects, content, previous))
            == latched_decor(window_rects, content, previous),
        latch_report(
            latched_decor(window_rects, content, previous),
            latched_decor(window_rects, content, latched_decor(window_rects, content, previous)),
        ) is None,
{
}

/// A latched decoration height stays within `[0, DECOR_HEIGHT_MAX]`.
pub proof fn law_latch_in_range(window_rects: Map<i64, Rect>, content: Rect, previous: i32)
    requires
        0 <= previous <= DECOR_HEIGHT_MAX,
    ensures
        0 <= latched_decor(window_rects, content, previous) <= DECOR_HEIGHT_MAX,
{
}

/// Releasing the render clears the main window's cached rect and keeps the
/// rect of every sub-window.
pub proof fn law_release_keeps_sub_window_rects<W, X>(s: AppStateView<W, X>, window_id: i64)
    ensures
        rect_or_zero(released(s).window_rects, 0) == Rect::spec_zero(),
        window_id != 0 ==> rect_or_zero(released(s).window_rects, window_id) == rect_or_zero(
            s.window_rects,
            window_id,
        ),
{
}

/// A saved state is what the next load returns.
pub proof fn law_load_returns_saved<W, X>(s: AppStateView<W, X>, data: Seq<u8>)
    ensures
        (AppStateView { saved: Some(data), ..s }).saved == Some(data),
{
}

/// The continuation payload is handed over once: after a continuation
/// restore stores it, a take returns it and leaves `""`, while the restore
/// flag survives the take; a plain launch clears both.
pub proof fn law_continuation_is_taken_once<W, X>(s: AppStateView<W, X>, payload: Seq<char>)
    ensures
        with_continuation(s, true, payload).continuation_data == payload,
        continuation_taken(with_continuation(s, true, payload)).continuation_restore,
        continuation_taken(with_continuation(s, true, payload)).continuation_data.len() == 0,
        !with_continuation(s, false, payload).continuation_restore,
        with_continuation(s, false, payload).continuation_data.len() == 0,
{
}

/// The inner rect sits at the window's position moved by the content
/// area's offset (and, on the main window, down by the decoration), keeps
/// the window's width, and is the window's height less the decoration when
/// the decoration fits in the window.
pub proof fn law_inner_rect_is_offset_window<W, X>(s: AppStateView<W, X>, window_id: i64)
    requires
        inner_rect_fits(s, window_id),
    ensures
        inner_rect(s, window_id).left == rect_or_zero(s.window_rects, window_id).left + s.rect.left,
        inner_rect(s, window_id).top == rect_or_zero(s.window_rects, window_id).top + s.rect.top + (if window_id
            == 0 {
            s.decor_height as int
        } else {
            0
        }),
        inner_rect(s, window_id).width == rect_or_zero(s.window_rects, window_id).width,
        window_id != 0 && rect_or_zero(s.window_rects, window_id).height >= 0 ==> inner_rect(s, window_id).height
            == rect_or_zero(s.window_rects, window_id).height,
        window_id == 0 && 0 <= s.decor_height <= rect_or_zero(s.window_rects, 0).height ==> inner_rect(
            s,
            0,
        ).height == rect_or_zero(s.window_rects, 0).height - s.decor_height,
{
}

/// The app's event-loop handler slot. Every UIAbility instance of one app
/// shares one event loop: the first handler installed is the one kept.
pub struct EventLoopSlot<H> {
    handler: Option<H>,
}

impl<H> EventLoopSlot<H> {
    pub closed spec fn handler(&self) -> Option<H> {
        self.handler
    }

    pub fn new() -> (r: Self)
        ensures
            r.handler() is None,
    {
        EventLoopSlot { handler: None }
    }

    /// Whether a handler is installed.
    pub fn is_installed(&self) -> (r: bool)
        ensures
            r == self.handler() is Some,
    {
        self.handler.is_some()
    }

    /// Installs `handler` when none is installed yet, and says whether it
    /// did; a later handler is refused and the first one stays.
    pub fn install(&mut self, handler: H) -> (r: bool)
        ensures
            r == old(self).handler() is None,
            r ==> final(self).handler() == Some(handler),
            !r ==> final(self).handler() == old(self).handler(),
    {
        if self.handler.is_some() {
            return false;
        }
        self.handler = Some(handler);
        true
    }

    /// The installed handler.
    pub fn installed(&self) -> (r: Option<&H>)
        ensures
            match self.handler() {
                Some(h) => r == Some(&h),
                None => r is None,
            },
    {
        match &self.handler {
            Some(h) => Some(h),
            None => None,
        }
    }
}

/// The app-continuation restore facade: it reads the restore signal and the
/// payload from the app's own session state.
#[derive(Clone, Copy, Debug)]
pub struct ContinuationClient;

impl ContinuationClient {
    pub fn new() -> (r: Self) {
        ContinuationClient
    }

    /// Whether the app's current launch is a continuation restore
    /// (peek-only).
    pub fn is_continuation_restore<W, X>(&self, app: &OpenHarmonyAppInner<W, X>) -> (r: bool)
        ensures
            r == app@.continuation_restore,
    {
        app.is_continuation_restore()
    }

    /// The app's continuation payload, drained: a second call returns `""`.
    pub fn take_continuation_data<W, X>(&self, app: &mut OpenHarmonyAppInner<W, X>) -> (r: String)
        requires
            old(app).wf(),
        ensures
            final(app).wf(),
            r@ == old(app)@.continuation_data,
            final(app)@ == continuation_taken(old(app)@),
    {
        app.take_continuation_data()
    }
}

} // verus!
