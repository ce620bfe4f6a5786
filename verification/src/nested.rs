//! Two-level keyed collections: a set of texts per text key, and a map of
//! values per text key.

use vstd::prelude::*;

use crate::keyed::{TextMap, TextSet};

verus! {

/// The members of each group.
pub open spec fn group_views(m: Map<Seq<char>, TextSet>) -> Map<Seq<char>, Set<Seq<char>>> {
    m.map_values(|s: TextSet| s@)
}

/// The members of a group (none when it has no entry).
pub open spec fn members(m: Map<Seq<char>, Set<Seq<char>>>, group: Seq<char>) -> Set<Seq<char>> {
    if m.contains_key(group) {
        m[group]
    } else {
        Set::empty()
    }
}

/// A set of texts per group.
pub struct Groups {
    map: TextMap<TextSet>,
}

impl Groups {
    pub closed spec fn view(&self) -> Map<Seq<char>, Set<Seq<char>>> {
        group_views(self.map@)
    }

    pub closed spec fn wf(&self) -> bool {
        &&& self.map.wf()
        &&& forall|k: Seq<char>| #[trigger] self.map@.contains_key(k) ==> self.map@[k].wf()
    }

    pub fn new() -> (r: Self)
        ensures
            r.wf(),
            r@ == Map::<Seq<char>, Set<Seq<char>>>::empty(),
    {
        let r = Groups { map: TextMap::new() };
        assert(r@ =~= Map::<Seq<char>, Set<Seq<char>>>::empty());
        r
    }

    /// Whether `item` is in `group`.
    pub fn contains(&self, group: &str, item: &str) -> (r: bool)
        requires
            self.wf(),
        ensures
            r == members(self@, group@).contains(item@),
    {
        match self.map.get(group) {
            Some(set) => set.contains(item),
            None => false,
        }
    }

    /// Adds `item` to `group`; returns whether it was absent.
    pub fn insert(&mut self, group: &str, item: &str) -> (r: bool)
        requires
            old(self).wf(),
        ensures
            final(self).wf(),
            final(self)@ == old(self)@.insert(group@, members(old(self)@, group@).insert(item@)),
            r == !members(old(self)@, group@).contains(item@),
    {
        let mut set = match self.map.remove(group) {
            Some(s) => s,
            None => TextSet::new(),
        };
        let added = set.insert(item.to_owned());
        let _ = self.map.insert(group.to_owned(), set);
        assert(self@ =~= old(self)@.insert(group@, members(old(self)@, group@).insert(item@)));
        added
    }

    /// Removes `item` from `group`, dropping the group once it is empty.
    pub fn remove_item(&mut self, group: &str, item: &str)
        requires
            old(self).wf(),
        ensures
            final(self).wf(),
            members(old(self)@, group@).remove(item@) == Set::<Seq<char>>::empty() ==> final(self)@
                == old(self)@.remove(group@),
            members(old(self)@, group@).remove(item@) != Set::<Seq<char>>::empty() ==> final(self)@
                == old(self)@.insert(group@, members(old(self)@, group@).remove(item@)),
    {
        match self.map.remove(group) {
            Some(s) => {
                let mut set = s;
                let _ = set.remove(item);
                if set.is_empty() {
                    assert(self@ =~= old(self)@.remove(group@));
                } else {
                    let _ = self.map.insert(group.to_owned(), set);
                    assert(self@ =~= old(self)@.insert(group@, members(old(self)@, group@).remove(item@)));
                }
            },
            None => {
                assert(members(old(self)@, group@).remove(item@) =~= Set::<Seq<char>>::empty());
                assert(self@ =~= old(self)@.remove(group@));
            },
        }
    }

    /// Drops a whole group.
    pub fn remove_group(&mut self, group: &str)
        requires
            old(self).wf(),
        ensures
            final(self).wf(),
            final(self)@ == old(self)@.remove(group@),
    {
        let _ = self.map.remove(group);
        assert(self@ =~= old(self)@.remove(group@));
    }

    /// Drops every group.
    pub fn clear(&mut self)
        requires
            old(self).wf(),
        ensures
            final(self).wf(),
            final(self)@ == Map::<Seq<char>, Set<Seq<char>>>::empty(),
    {
        self.map.clear();
        assert(self@ =~= Map::<Seq<char>, Set<Seq<char>>>::empty());
    }
}

/// A map of values per group.
pub struct GroupedMap<V> {
    map: TextMap<TextMap<V>>,
}

pub open spec fn grouped_views<V>(m: Map<Seq<char>, TextMap<V>>) -> Map<Seq<char>, Map<Seq<char>, V>> {
    m.map_values(|inner: TextMap<V>| inner@)
}

/// The entries of a group (none when it has no entry).
pub open spec fn entries_of<V>(m: Map<Seq<char>, Map<Seq<char>, V>>, group: Seq<char>) -> Map<Seq<char>, V> {
    if m.contains_key(group) {
        m[group]
    } else {
        Map::empty()
    }
}

impl<V> GroupedMap<V> {
    pub closed spec fn view(&self) -> Map<Seq<char>, Map<Seq<char>, V>> {
        grouped_views(self.map@)
    }

    pub closed spec fn wf(&self) -> bool {
        &&& self.map.wf()
        &&& forall|k: Seq<char>| #[trigger] self.map@.contains_key(k) ==> self.map@[k].wf()
    }

    pub fn new() -> (r: Self)
        ensures
            r.wf(),
            r@ == Map::<Seq<char>, Map<Seq<char>, V>>::empty(),
    {
        let r = GroupedMap { map: TextMap::new() };
        assert(r@ =~= Map::<Seq<char>, Map<Seq<char>, V>>::empty());
        r
    }

    /// Adds `value` under `key` in `group` unless the key is already there;
    /// returns whether it was added.
    pub fn insert_new(&mut self, group: &str, key: &str, value: V) -> (r: bool)
        requires
            old(self).wf(),
        ensures
            final(self).wf(),
            r == !entries_of(old(self)@, group@).contains_key(key@),
            r ==> final(self)@ == old(self)@.insert(group@, entries_of(old(self)@, group@).insert(key@, value)),
            !r ==> final(self)@ == old(self)@,
    {
        let mut inner = match self.map.remove(group) {
            Some(m) => m,
            None => TextMap::new(),
        };
        let added = !inner.contains_key(key);
        if added {
            let _ = inner.insert(key.to_owned(), value);
        }
        let _ = self.map.insert(group.to_owned(), inner);
        proof {
            if added {
                assert(self@ =~= old(self)@.insert(group@, entries_of(old(self)@, group@).insert(key@, value)));
            } else {
                assert(self@ =~= old(self)@);
            }
        }
        added
    }

    /// The keys of a group, in ascending order.
    pub fn keys_of(&self, group: &str) -> (r: Vec<String>)
        requires
            self.wf(),
        ensures
            forall|k: Seq<char>| #[trigger] entries_of(self@, group@).contains_key(k)
                <==> r@.map_values(|s: String| s@).contains(k),
    {
        match self.map.get(group) {
            Some(inner) => inner.keys(),
            None => {
                let r: Vec<String> = Vec::new();
                assert forall|k: Seq<char>| #[trigger] entries_of(self@, group@).contains_key(k)
                    <==> r@.map_values(|s: String| s@).contains(k) by {
                    assert(r@.map_values(|s: String| s@).len() == 0);
                }
                r
            },
        }
    }

    /// The value under `key` in `group`.
    pub fn get(&self, group: &str, key: &str) -> (r: Option<&V>)
        requires
            self.wf(),
        ensures
            match r {
                Some(v) => entries_of(self@, group@).contains_key(key@) && *v == entries_of(self@, group@)[key@],
                None => !entries_of(self@, group@).contains_key(key@),
            },
    {
        match self.map.get(group) {
            Some(inner) => inner.get(key),
            None => None,
        }
    }
}

} // verus!
