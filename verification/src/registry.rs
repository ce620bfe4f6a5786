//! Process-level launch state shared by every UIAbility instance of the
//! native module: per-window `want.parameters` and initial `want.uri`
//! storage, the window label registry, the app-continuation signal and
//! snapshot, and the queues of window close / status notifications that the
//! runtime event loop drains.

use std::collections::{HashMap, HashSet};
use vstd::prelude::*;

use crate::keyed::TextMap;

verus! {

broadcast use vstd::std_specs::hash::group_hash_axioms;

/// The text held in a per-window slot; an absent slot reads as empty.
pub open spec fn slot_text(m: Map<i64, Seq<char>>, window_id: i64) -> Seq<char> {
    if m.contains_key(window_id) {
        m[window_id]
    } else {
        Seq::empty()
    }
}

/// The window id registered for a label; an unknown label resolves to the
/// primary window (0).
pub open spec fn label_window_id(labels: Map<Seq<char>, i64>, label: Seq<char>) -> i64 {
    if labels.contains_key(label) {
        labels[label]
    } else {
        0
    }
}

/// The label registry with every entry that maps to `window_id` dropped.
pub open spec fn without_window(labels: Map<Seq<char>, i64>, window_id: i64) -> Map<
    Seq<char>,
    i64,
> {
    labels.restrict(labels.dom().filter(|l: Seq<char>| labels[l] != window_id))
}

/// What the registry holds.
pub ghost struct ProcessRegistryView {
    pub want_parameters: Map<i64, Seq<char>>,
    pub initial_want_uris: Map<i64, Seq<char>>,
    pub labels: Map<Seq<char>, i64>,
    pub continuation_restore: bool,
    pub continuation_data: Seq<char>,
    pub continue_snapshot: Seq<char>,
    pub pending_closes: Seq<i32>,
    pub pending_statuses: Seq<(i32, i32)>,
    pub pending_abilities: Set<i64>,
    pub last_stage_window_id: i64,
    pub next_window_id: i64,
}

/// Process-level launch and window-notification state.
pub struct ProcessRegistry {
    want_parameters: HashMap<i64, String>,
    initial_want_uris: HashMap<i64, String>,
    labels: TextMap<i64>,
    continuation_restore: bool,
    continuation_data: String,
    continue_snapshot: String,
    pending_closes: Vec<i32>,
    pending_statuses: Vec<(i32, i32)>,
    pending_abilities: HashSet<i64>,
    last_stage_window_id: i64,
    next_window_id: i64,
}

pub open spec fn string_map_view(m: Map<i64, String>) -> Map<i64, Seq<char>> {
    m.map_values(|s: String| s@)
}

impl View for ProcessRegistry {
    type V = ProcessRegistryView;

    closed spec fn view(&self) -> ProcessRegistryView {
        ProcessRegistryView {
            want_parameters: string_map_view(self.want_parameters@),
            initial_want_uris: string_map_view(self.initial_want_uris@),
            labels: self.labels@,
            continuation_restore: self.continuation_restore,
            continuation_data: self.continuation_data@,
            continue_snapshot: self.continue_snapshot@,
            pending_closes: self.pending_closes@,
            pending_statuses: self.pending_statuses@,
            pending_abilities: self.pending_abilities@,
            last_stage_window_id: self.last_stage_window_id,
            next_window_id: self.next_window_id,
        }
    }
}

impl ProcessRegistry {
    pub closed spec fn wf(&self) -> bool {
        &&& self.labels.wf()
        &&& self.pending_abilities@.finite()
    }

    pub fn new() -> (r: Self)
        ensures
            r.wf(),
            r@.want_parameters == Map::<i64, Seq<char>>::empty(),
            r@.initial_want_uris == Map::<i64, Seq<char>>::empty(),
            r@.labels == Map::<Seq<char>, i64>::empty(),
            !r@.continuation_restore,
            r@.continuation_data == Seq::<char>::empty(),
            r@.continue_snapshot == Seq::<char>::empty(),
            r@.pending_closes == Seq::<i32>::empty(),
            r@.pending_statuses == Seq::<(i32, i32)>::empty(),
            r@.pending_abilities == Set::<i64>::empty(),
            r@.last_stage_window_id == -1,
            r@.next_window_id == 1,
    {
        let r = ProcessRegistry {
            want_parameters: HashMap::new(),
            initial_want_uris: HashMap::new(),
            labels: TextMap::new(),
            continuation_restore: false,
            continuation_data: String::new(),
            continue_snapshot: String::new(),
            pending_closes: Vec::new(),
            pending_statuses: Vec::new(),
            pending_abilities: HashSet::new(),
            last_stage_window_id: -1,
            next_window_id: 1,
        };
        assert(r@.want_parameters =~= Map::<i64, Seq<char>>::empty());
        assert(r@.initial_want_uris =~= Map::<i64, Seq<char>>::empty());
        r
    }
}

fn take_slot(m: &mut HashMap<i64, String>, window_id: i64) -> (r: String)
    ensures
        r@ == slot_text(string_map_view(old(m)@), window_id),
        string_map_view(final(m)@) == string_map_view(old(m)@).remove(window_id),
{
    let removed = m.remove(&window_id);
    proof {
        assert(string_map_view(m@) =~= string_map_view(old(m)@).remove(window_id));
    }
    match removed {
        Some(s) => s,
        None => String::new(),
    }
}

fn store_slot(m: &mut HashMap<i64, String>, window_id: i64, text: &str)
    ensures
        string_map_view(final(m)@) == string_map_view(old(m)@).insert(window_id, text@),
{
    m.insert(window_id, text.to_owned());
    proof {
        assert(string_map_view(m@) =~= string_map_view(old(m)@).insert(window_id, text@));
    }
}

/// Stores the latest `want.parameters` JSON of one UIAbility instance.
pub fn store_want_parameters(registry: &mut ProcessRegistry, window_id: i64, json: &str)
    requires
        old(registry).wf(),
    ensures
        final(registry).wf(),
        final(registry)@ == (ProcessRegistryView {
            want_parameters: old(registry)@.want_parameters.insert(window_id, json@),
            ..old(registry)@
        }),
{
    store_slot(&mut registry.want_parameters, window_id, json);
}

/// Takes the `want.parameters` JSON stored for `window_id`, draining that entry:
/// a second take reads `""` until the next store.
pub fn take_want_parameters_for_window(registry: &mut ProcessRegistry, window_id: i64) -> (r:
    String)
    requires
        old(registry).wf(),
    ensures
        final(registry).wf(),
        r@ == slot_text(old(registry)@.want_parameters, window_id),
        final(registry)@ == (ProcessRegistryView {
            want_parameters: old(registry)@.want_parameters.remove(window_id),
            ..old(registry)@
        }),
{
    take_slot(&mut registry.want_parameters, window_id)
}

/// Primary-instance (window 0) variant of [`take_want_parameters_for_window`].
pub fn take_want_parameters(registry: &mut ProcessRegistry) -> (r: String)
    requires
        old(registry).wf(),
    ensures
        final(registry).wf(),
        r@ == slot_text(old(registry)@.want_parameters, 0),
        final(registry)@ == (ProcessRegistryView {
            want_parameters: old(registry)@.want_parameters.remove(0),
            ..old(registry)@
        }),
{
    take_want_parameters_for_window(registry, 0)
}

/// Stores the cold-start `want.uri` of one UIAbility instance.
pub fn store_initial_want_uri(registry: &mut ProcessRegistry, window_id: i64, uri: &str)
    requires
        old(registry).wf(),
    ensures
        final(registry).wf(),
        final(registry)@ == (ProcessRegistryView {
            initial_want_uris: old(registry)@.initial_want_uris.insert(window_id, uri@),
            ..old(registry)@
        }),
{
    store_slot(&mut registry.initial_want_uris, window_id, uri);
}

/// Takes the initial `want.uri` stored for `window_id`, draining that entry.
pub fn take_initial_want_uri_for_window(registry: &mut ProcessRegistry, window_id: i64) -> (r:
    String)
    requires
        old(registry).wf(),
    ensures
        final(registry).wf(),
        r@ == slot_text(old(registry)@.initial_want_uris, window_id),
        final(registry)@ == (ProcessRegistryView {
            initial_want_uris: old(registry)@.initial_want_uris.remove(window_id),
            ..old(registry)@
        }),
{
    take_slot(&mut registry.initial_want_uris, window_id)
}

/// Primary-instance (window 0) variant of [`take_initial_want_uri_for_window`].
pub fn take_initial_want_uri(registry: &mut ProcessRegistry) -> (r: String)
    requires
        old(registry).wf(),
    ensures
        final(registry).wf(),
        r@ == slot_text(old(registry)@.initial_want_uris, 0),
        final(registry)@ == (ProcessRegistryView {
            initial_want_uris: old(registry)@.initial_want_uris.remove(0),
            ..old(registry)@
        }),
{
    take_initial_want_uri_for_window(registry, 0)
}

/// Drops both want slots of a destroyed UIAbility instance, read or not.
pub fn remove_want_uri_storage(registry: &mut ProcessRegistry, window_id: i64)
    requires
        old(registry).wf(),
    ensures
        final(registry).wf(),
        final(registry)@ == (ProcessRegistryView {
            want_parameters: old(registry)@.want_parameters.remove(window_id),
            initial_want_uris: old(registry)@.initial_want_uris.remove(window_id),
            ..old(registry)@
        }),
{
    let _ = take_slot(&mut registry.want_parameters, window_id);
    let _ = take_slot(&mut registry.initial_want_uris, window_id);
}

/// Records (or overwrites) the window id owned by `label`.
pub fn register_window_label(registry: &mut ProcessRegistry, label: &str, window_id: i64)
    requires
        old(registry).wf(),
    ensures
        final(registry).wf(),
        final(registry)@ == (ProcessRegistryView {
            labels: old(registry)@.labels.insert(label@, window_id),
            ..old(registry)@
        }),
{
    let _ = registry.labels.insert(label.to_owned(), window_id);
}

/// Resolves the window id registered for `label`; an unknown label resolves to
/// the primary window (0).
pub fn window_id_for_label(registry: &ProcessRegistry, label: &str) -> (r: i64)
    requires
        registry.wf(),
    ensures
        r == label_window_id(registry@.labels, label@),
{
    match registry.labels.get(label) {
        Some(id) => *id,
        None => 0,
    }
}

/// Removes every label entry that maps to `window_id`.
pub fn unregister_window_label(registry: &mut ProcessRegistry, window_id: i64)
    requires
        old(registry).wf(),
    ensures
        final(registry).wf(),
        final(registry)@ == (ProcessRegistryView {
            labels: without_window(old(registry)@.labels, window_id),
            ..old(registry)@
        }),
{
    let mut labels: TextMap<i64> = TextMap::new();
    std::mem::swap(&mut labels, &mut registry.labels);
    let ghost start = labels@;
    let mut doomed: Vec<String> = Vec::new();
    let entries = labels.entries();
    let mut i: usize = 0;
    while i < entries.len()
        invariant
            labels.wf(),
            labels@ == start,
            entries@.map_values(|e: (String, i64)| e.0@) == labels.key_seq(),
            forall|j: int| 0 <= j < entries@.len() ==> #[trigger] start.contains_key(entries@[j].0@),
            forall|j: int| 0 <= j < entries@.len() ==> start[#[trigger] entries@[j].0@] == entries@[j].1,
            i <= entries@.len(),
            forall|j: int| 0 <= j < doomed@.len() ==> #[trigger] start.contains_key(doomed@[j]@)
                && start[doomed@[j]@] == window_id,
            forall|l: Seq<char>|
                #[trigger] start.contains_key(l) && start[l] == window_id && (exists|j: int|
                    0 <= j < i && entries@[j].0@ == l) ==> exists|j: int|
                    0 <= j < doomed@.len() && #[trigger] doomed@[j]@ == l,
        decreases entries@.len() - i,
    {
        let ghost d0 = doomed@;
        if entries[i].1 == window_id {
            let k = entries[i].0.clone();
            doomed.push(k);
            proof {
                let last = doomed@.len() - 1;
                assert(doomed@[last]@ == entries@[i as int].0@);
                assert(start.contains_key(entries@[i as int].0@));
                assert(start[entries@[i as int].0@] == entries@[i as int].1);
                assert(start.contains_key(doomed@[last]@) && start[doomed@[last]@] == window_id);
                assert forall|j: int| 0 <= j < doomed@.len() implies #[trigger] start.contains_key(
                    doomed@[j]@,
                ) && start[doomed@[j]@] == window_id by {
                    if j < d0.len() {
                        assert(doomed@[j] == d0[j]);
                        assert(start.contains_key(d0[j]@));
                    }
                }
            }
        }
        assert(forall|j: int| 0 <= j < doomed@.len() ==> #[trigger] start.contains_key(doomed@[j]@)
                && start[doomed@[j]@] == window_id);
        proof {
            assert forall|l: Seq<char>|
                #[trigger] start.contains_key(l) && start[l] == window_id && (exists|j: int|
                    0 <= j < i + 1 && entries@[j].0@ == l) implies exists|j: int|
                0 <= j < doomed@.len() && #[trigger] doomed@[j]@ == l by {
                let j0 = choose|j: int| 0 <= j < i + 1 && entries@[j].0@ == l;
                if j0 == i {
                    assert(start[entries@[j0].0@] == entries@[j0].1);
                    let k = doomed@.len() - 1;
                    assert(doomed@[k]@ == l);
                } else {
                    assert(exists|j: int| 0 <= j < i && entries@[j].0@ == l);
                    let p = choose|p: int| 0 <= p < d0.len() && #[trigger] d0[p]@ == l;
                    assert(doomed@[p] == d0[p]);
                    assert(doomed@[p]@ == l);
                }
            }
        }
        i += 1;
    }
    proof {
        labels.lemma_keys_ordered();
        assert forall|l: Seq<char>| #[trigger] start.contains_key(l) implies exists|j: int|
            0 <= j < entries@.len() && entries@[j].0@ == l by {
            assert(labels.key_seq().contains(l));
            let j = choose|j: int|
                0 <= j < labels.key_seq().len() && labels.key_seq()[j] == l;
            assert(entries@.map_values(|e: (String, i64)| e.0@)[j] == l);
        }
    }
    let mut d: usize = 0;
    while d < doomed.len()
        invariant
            labels.wf(),
            d <= doomed@.len(),
            forall|j: int| 0 <= j < doomed@.len() ==> #[trigger] start.contains_key(doomed@[j]@)
                && start[doomed@[j]@] == window_id,
            labels@ == start.remove_keys(
                Set::new(|l: Seq<char>| exists|j: int| 0 <= j < d && #[trigger] doomed@[j]@ == l),
            ),
        decreases doomed@.len() - d,
    {
        let _ = labels.remove(doomed[d].as_str());
        proof {
            assert(Set::new(|l: Seq<char>| exists|j: int| 0 <= j < d + 1 && #[trigger] doomed@[j]@ == l)
                =~= Set::new(|l: Seq<char>| exists|j: int| 0 <= j < d && #[trigger] doomed@[j]@ == l).insert(doomed@[d as int]@));
            assert(labels@ =~= start.remove_keys(
                Set::new(|l: Seq<char>| exists|j: int| 0 <= j < d + 1 && #[trigger] doomed@[j]@ == l),
            ));
        }
        d += 1;
    }
    proof {
        let dset = Set::new(
            |l: Seq<char>| exists|j: int| 0 <= j < doomed@.len() && #[trigger] doomed@[j]@ == l,
        );
        assert forall|l: Seq<char>|
            #[trigger] dset.contains(l) <==> (start.contains_key(l) && start[l] == window_id) by {
            if start.contains_key(l) && start[l] == window_id {
                let j = choose|j: int| 0 <= j < entries@.len() && entries@[j].0@ == l;
                assert(exists|j: int| 0 <= j < i && entries@[j].0@ == l);
            }
            if dset.contains(l) {
                let p = choose|p: int| 0 <= p < doomed@.len() && #[trigger] doomed@[p]@ == l;
                assert(start.contains_key(doomed@[p]@));
            }
        }
        assert(Set::new(|l: Seq<char>| exists|j: int| 0 <= j < d && #[trigger] doomed@[j]@ == l)
            =~= dset);
        assert(labels@ =~= without_window(start, window_id));
    }
    registry.labels = labels;
}

/// Stores the continuation signal of a launch: a continuation restore keeps
/// its payload verbatim; a plain launch clears both the flag and the payload.
pub fn store_continuation(registry: &mut ProcessRegistry, is_continuation: bool, parameters_json: &str)
    requires
        old(registry).wf(),
    ensures
        final(registry).wf(),
        final(registry)@ == (ProcessRegistryView {
            continuation_restore: is_continuation,
            continuation_data: if is_continuation { parameters_json@ } else { Seq::empty() },
            ..old(registry)@
        }),
{
    registry.continuation_restore = is_continuation;
    registry.continuation_data = if is_continuation {
        parameters_json.to_owned()
    } else {
        String::new()
    };
}

/// Whether the current launch is an app-continuation restore (peek-only).
pub fn is_continuation_restore(registry: &ProcessRegistry) -> (r: bool)
    ensures
        r == registry@.continuation_restore,
{
    registry.continuation_restore
}

/// Takes the continuation payload, leaving `""` behind.
pub fn take_continuation_data(registry: &mut ProcessRegistry) -> (r: String)
    requires
        old(registry).wf(),
    ensures
        final(registry).wf(),
        r@ == old(registry)@.continuation_data,
        final(registry)@ == (ProcessRegistryView {
            continuation_data: Seq::empty(),
            ..old(registry)@
        }),
{
    let mut taken = String::new();
    std::mem::swap(&mut taken, &mut registry.continuation_data);
    taken
}

/// Stores the source-side continuation snapshot (overwriting; `""` clears it).
pub fn store_continue_snapshot(registry: &mut ProcessRegistry, snapshot: &str)
    requires
        old(registry).wf(),
    ensures
        final(registry).wf(),
        final(registry)@ == (ProcessRegistryView {
            continue_snapshot: snapshot@,
            ..old(registry)@
        }),
{
    registry.continue_snapshot = snapshot.to_owned();
}

/// Reads the source-side continuation snapshot without consuming it.
pub fn peek_continue_snapshot(registry: &ProcessRegistry) -> (r: String)
    ensures
        r@ == registry@.continue_snapshot,
{
    registry.continue_snapshot.clone()
}

/// Queues a window close request reported by ArkTS.
pub fn notify_window_close(registry: &mut ProcessRegistry, window_id: i32)
    requires
        old(registry).wf(),
    ensures
        final(registry).wf(),
        final(registry)@ == (ProcessRegistryView {
            pending_closes: old(registry)@.pending_closes.push(window_id),
            ..old(registry)@
        }),
{
    registry.pending_closes.push(window_id);
}

/// Drains every queued window close request, oldest first.
pub fn drain_pending_window_closes(registry: &mut ProcessRegistry) -> (r: Vec<i32>)
    requires
        old(registry).wf(),
    ensures
        final(registry).wf(),
        r@ == old(registry)@.pending_closes,
        final(registry)@ == (ProcessRegistryView {
            pending_closes: Seq::empty(),
            ..old(registry)@
        }),
{
    let mut taken = Vec::new();
    std::mem::swap(&mut taken, &mut registry.pending_closes);
    taken
}

/// Queues a window status change (`window_id`, raw `WindowStatusType`).
pub fn notify_window_status(registry: &mut ProcessRegistry, window_id: i32, status: i32)
    requires
        old(registry).wf(),
    ensures
        final(registry).wf(),
        final(registry)@ == (ProcessRegistryView {
            pending_statuses: old(registry)@.pending_statuses.push((window_id, status)),
            ..old(registry)@
        }),
{
    registry.pending_statuses.push((window_id, status));
}

/// Drains every queued window status change, oldest first.
pub fn drain_pending_window_status(registry: &mut ProcessRegistry) -> (r: Vec<(i32, i32)>)
    requires
        old(registry).wf(),
    ensures
        final(registry).wf(),
        r@ == old(registry)@.pending_statuses,
        final(registry)@ == (ProcessRegistryView {
            pending_statuses: Seq::empty(),
            ..old(registry)@
        }),
{
    let mut taken = Vec::new();
    std::mem::swap(&mut taken, &mut registry.pending_statuses);
    taken
}


/// Opens the stage handshake of a UIAbility instance being spawned: its
/// window stage is not ready until the instance registers it.
pub fn register_pending_ui_ability(registry: &mut ProcessRegistry, window_id: i64)
    requires
        old(registry).wf(),
    ensures
        final(registry).wf(),
        final(registry)@ == (ProcessRegistryView {
            pending_abilities: old(registry)@.pending_abilities.insert(window_id),
            ..old(registry)@
        }),
{
    let _ = registry.pending_abilities.insert(window_id);
}

/// Whether the window stage of an instance is ready: an instance without an
/// open handshake (including an unknown id) counts as ready.
pub fn is_ui_ability_stage_ready(registry: &ProcessRegistry, window_id: i64) -> (r: bool)
    ensures
        r == !registry@.pending_abilities.contains(window_id),
{
    !registry.pending_abilities.contains(&window_id)
}

/// Records that the instance `window_id` registered its window stage: it
/// becomes the last registered instance and its handshake completes.
pub fn register_ui_ability_stage(registry: &mut ProcessRegistry, window_id: i64)
    requires
        old(registry).wf(),
    ensures
        final(registry).wf(),
        final(registry)@ == (ProcessRegistryView {
            last_stage_window_id: window_id,
            pending_abilities: old(registry)@.pending_abilities.remove(window_id),
            ..old(registry)@
        }),
{
    registry.last_stage_window_id = window_id;
    let _ = registry.pending_abilities.remove(&window_id);
}

/// The last instance that registered its window stage (-1 before any).
pub fn get_last_ui_ability_window_id(registry: &ProcessRegistry) -> (r: i64)
    ensures
        r == registry@.last_stage_window_id,
{
    registry.last_stage_window_id
}

/// Drops the handshake entry of a destroyed instance and returns how many
/// handshakes remain open.
pub fn unregister_pending_ui_ability(registry: &mut ProcessRegistry, window_id: i64) -> (remaining: usize)
    requires
        old(registry).wf(),
    ensures
        final(registry).wf(),
        final(registry)@ == (ProcessRegistryView {
            pending_abilities: old(registry)@.pending_abilities.remove(window_id),
            ..old(registry)@
        }),
        remaining == final(registry)@.pending_abilities.len(),
{
    let _ = registry.pending_abilities.remove(&window_id);
    registry.pending_abilities.len()
}

/// Hands out the next window id (ids start at 1; 0 is the primary instance).
/// The counter wraps around at the end of the `i64` range, as an atomic
/// counter does.
pub fn next_window_id(registry: &mut ProcessRegistry) -> (id: i64)
    requires
        old(registry).wf(),
    ensures
        final(registry).wf(),
        id == old(registry)@.next_window_id,
        final(registry)@ == (ProcessRegistryView {
            next_window_id: if id == i64::MAX {
                i64::MIN
            } else {
                (id + 1) as i64
            },
            ..old(registry)@
        }),
{
    let id = registry.next_window_id;
    registry.next_window_id = if id == i64::MAX {
        i64::MIN
    } else {
        id + 1
    };
    id
}

/// Tears down every per-window entry of a destroyed UIAbility instance: its
/// stage handshake, both want slots, its labels and its cached window rect.
/// Returns how many handshakes remain open.
pub fn unregister_ui_ability_state<W, X>(
    registry: &mut ProcessRegistry,
    app: &mut crate::app_state::OpenHarmonyAppInner<W, X>,
    window_id: i64,
) -> (remaining: usize)
    requires
        old(registry).wf(),
        old(app).wf(),
    ensures
        final(registry).wf(),
        final(app).wf(),
        final(registry)@ == (ProcessRegistryView {
            pending_abilities: old(registry)@.pending_abilities.remove(window_id),
            want_parameters: old(registry)@.want_parameters.remove(window_id),
            initial_want_uris: old(registry)@.initial_want_uris.remove(window_id),
            labels: without_window(old(registry)@.labels, window_id),
            ..old(registry)@
        }),
        final(app)@ == (crate::app_state::AppStateView {
            window_rects: old(app)@.window_rects.remove(window_id),
            ..old(app)@
        }),
        remaining == final(registry)@.pending_abilities.len(),
{
    let remaining = unregister_pending_ui_ability(registry, window_id);
    remove_want_uri_storage(registry, window_id);
    unregister_window_label(registry, window_id);
    app.remove_window_rect(window_id);
    remaining
}

/// After a teardown nothing of the instance is left: its want slots read
/// empty, its labels resolve to the primary instance, and its stage reads as
/// ready again.
pub proof fn law_teardown_leaves_nothing_behind(before: ProcessRegistryView, window_id: i64, label: Seq<char>)
    ensures
        ({
            let after = ProcessRegistryView {
                pending_abilities: before.pending_abilities.remove(window_id),
                want_parameters: before.want_parameters.remove(window_id),
                initial_want_uris: before.initial_want_uris.remove(window_id),
                labels: without_window(before.labels, window_id),
                ..before
            };
            &&& slot_text(after.want_parameters, window_id) == Seq::<char>::empty()
            &&& slot_text(after.initial_want_uris, window_id) == Seq::<char>::empty()
            &&& !after.pending_abilities.contains(window_id)
            &&& (before.labels.contains_key(label) && before.labels[label] == window_id)
                ==> label_window_id(after.labels, label) == 0
            &&& (before.labels.contains_key(label) && before.labels[label] != window_id)
                ==> label_window_id(after.labels, label) == before.labels[label]
        }),
{
}

/// A take returns what the last store wrote for that window and drains it;
/// stores and takes for other windows leave it alone.
pub proof fn law_take_returns_last_store(slots: Map<i64, Seq<char>>, window_id: i64, other: i64, text: Seq<char>)
    ensures
        slot_text(slots.insert(window_id, text), window_id) == text,
        slot_text(slots.insert(window_id, text).remove(window_id), window_id) == Seq::<char>::empty(),
        other != window_id ==> slot_text(slots.insert(other, text), window_id) == slot_text(slots, window_id),
        other != window_id ==> slot_text(slots.remove(other), window_id) == slot_text(slots, window_id),
{
}

/// A label resolves to the window it was last registered with; an unknown
/// label resolves to the primary instance.
pub proof fn law_label_resolves_to_last_registration(labels: Map<Seq<char>, i64>, label: Seq<char>, other: Seq<char>, window_id: i64)
    ensures
        label_window_id(labels.insert(label, window_id), label) == window_id,
        other != label ==> label_window_id(labels.insert(label, window_id), other) == label_window_id(labels, other),
        !labels.contains_key(other) ==> label_window_id(labels, other) == 0,
{
}

} // verus!
