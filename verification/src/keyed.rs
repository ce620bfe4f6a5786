use vstd::prelude::*;

use crate::text::chars_of;

verus! {

/// Code-point lexicographic order on texts; this is the order `String`'s
/// `Ord` gives, since UTF-8 preserves code-point order byte-wise.
pub open spec fn text_lt(a: Seq<char>, b: Seq<char>) -> bool
    decreases a.len(),
{
    if a.len() == 0 {
        b.len() > 0
    } else if b.len() == 0 {
        false
    } else if a[0] == b[0] {
        text_lt(a.drop_first(), b.drop_first())
    } else {
        (a[0] as u32) < (b[0] as u32)
    }
}

pub proof fn lemma_text_lt_irreflexive(a: Seq<char>)
    ensures
        !text_lt(a, a),
    decreases a.len(),
{
    if a.len() > 0 {
        lemma_text_lt_irreflexive(a.drop_first());
    }
}

pub proof fn lemma_text_lt_transitive(a: Seq<char>, b: Seq<char>, c: Seq<char>)
    requires
        text_lt(a, b),
        text_lt(b, c),
    ensures
        text_lt(a, c),
    decreases a.len(),
{
    if a.len() > 0 && b.len() > 0 && c.len() > 0 {
        if a[0] == b[0] && b[0] == c[0] {
            lemma_text_lt_transitive(a.drop_first(), b.drop_first(), c.drop_first());
        }
    }
}

pub proof fn lemma_text_lt_total(a: Seq<char>, b: Seq<char>)
    requires
        a != b,
    ensures
        text_lt(a, b) || text_lt(b, a),
    decreases a.len(),
{
    if a.len() > 0 && b.len() > 0 {
        if a[0] == b[0] {
            if a.drop_first() == b.drop_first() {
                assert(a =~= seq![a[0]] + a.drop_first());
                assert(b =~= seq![b[0]] + b.drop_first());
            }
            lemma_text_lt_total(a.drop_first(), b.drop_first());
        } else {
            let x = a[0] as u32;
            let y = b[0] as u32;
            assert(x != y) by {
                if x == y {
                    vstd::utf8::char_u32_cast(a[0], x);
                    vstd::utf8::char_u32_cast(b[0], y);
                }
            }
        }
    } else if a.len() == 0 && b.len() == 0 {
        assert(a =~= b);
    }
}

pub proof fn lemma_text_lt_asymmetric(a: Seq<char>, b: Seq<char>)
    requires
        text_lt(a, b),
    ensures
        !text_lt(b, a),
{
    if text_lt(b, a) {
        lemma_text_lt_transitive(a, b, a);
        lemma_text_lt_irreflexive(a);
    }
}

/// Outcome of comparing two texts.
#[derive(Clone, Copy, Debug, PartialEq, Eq, Structural)]
pub enum TextOrder {
    Less,
    Equal,
    Greater,
}

/// Compares two texts in code-point lexicographic order.
pub fn text_order(a: &str, b: &str) -> (r: TextOrder)
    ensures
        r == TextOrder::Equal <==> a@ == b@,
        r == TextOrder::Less <==> text_lt(a@, b@),
        r == TextOrder::Greater <==> text_lt(b@, a@),
{
    let x = chars_of(a);
    let y = chars_of(b);
    let mut i: usize = 0;
    assert(a@.skip(0) =~= a@);
    assert(b@.skip(0) =~= b@);
    while i < x.len() && i < y.len() && x[i] == y[i]
        invariant
            x@ == a@,
            y@ == b@,
            i <= x.len(),
            i <= y.len(),
            x@.take(i as int) == y@.take(i as int),
            text_lt(a@, b@) == text_lt(a@.skip(i as int), b@.skip(i as int)),
            text_lt(b@, a@) == text_lt(b@.skip(i as int), a@.skip(i as int)),
        decreases x.len() - i,
    {
        assert(a@.skip(i as int).drop_first() =~= a@.skip(i + 1));
        assert(b@.skip(i as int).drop_first() =~= b@.skip(i + 1));
        assert(x@.take(i + 1) =~= x@.take(i as int).push(x@[i as int]));
        assert(y@.take(i + 1) =~= y@.take(i as int).push(y@[i as int]));
        i += 1;
    }
    proof {
        lemma_text_lt_irreflexive(a@);
    }
    if i == x.len() && i == y.len() {
        assert(a@ =~= x@.take(i as int));
        assert(b@ =~= y@.take(i as int));
        TextOrder::Equal
    } else if i == x.len() {
        assert(a@.skip(i as int).len() == 0);
        assert(a@ != b@) by {
            if a@ == b@ {
                assert(a@.len() == b@.len());
            }
        }
        proof {
            lemma_text_lt_asymmetric(a@, b@);
        }
        TextOrder::Less
    } else if i == y.len() {
        assert(b@.skip(i as int).len() == 0);
        assert(a@ != b@) by {
            if a@ == b@ {
                assert(a@.len() == b@.len());
            }
        }
        proof {
            lemma_text_lt_asymmetric(b@, a@);
        }
        TextOrder::Greater
    } else {
        assert(a@ != b@) by {
            if a@ == b@ {
                assert(a@[i as int] == b@[i as int]);
            }
        }
        assert(a@.skip(i as int)[0] == x@[i as int]);
        assert(b@.skip(i as int)[0] == y@[i as int]);
        if (x[i] as u32) < (y[i] as u32) {
            proof {
                lemma_text_lt_asymmetric(a@, b@);
            }
            TextOrder::Less
        } else {
            proof {
                lemma_text_lt_total(a@, b@);
                lemma_text_lt_asymmetric(b@, a@);
            }
            TextOrder::Greater
        }
    }
}

/// Text equality.
pub fn text_eq(a: &str, b: &str) -> (r: bool)
    ensures
        r == (a@ == b@),
{
    let x = a.to_owned();
    let y = b.to_owned();
    x == y
}

/// A map from texts to values that keeps its entries ordered by key, as
/// `BTreeMap<String, V>` does.
pub struct TextMap<V> {
    entries: Vec<(String, V)>,
}

impl<V> TextMap<V> {
    pub closed spec fn key_at(self, i: int) -> Seq<char> {
        self.entries@[i].0@
    }

    pub closed spec fn wf(self) -> bool {
        forall|i: int, j: int|
            0 <= i < j < self.entries@.len() ==> text_lt(
                #[trigger] self.key_at(i),
                #[trigger] self.key_at(j),
            )
    }

    pub closed spec fn has_key(self, k: Seq<char>) -> bool {
        exists|i: int| 0 <= i < self.entries@.len() && #[trigger] self.key_at(i) == k
    }

    pub closed spec fn index_of(self, k: Seq<char>) -> int {
        choose|i: int| 0 <= i < self.entries@.len() && #[trigger] self.key_at(i) == k
    }

    /// What the map holds.
    pub closed spec fn view(self) -> Map<Seq<char>, V> {
        Map::new(|k: Seq<char>| self.has_key(k), |k: Seq<char>| self.entries@[self.index_of(k)].1)
    }

    /// The keys in ascending order.
    pub closed spec fn key_seq(self) -> Seq<Seq<char>> {
        self.entries@.map_values(|e: (String, V)| e.0@)
    }

    proof fn lemma_unique_index(self, i: int, k: Seq<char>)
        requires
            self.wf(),
            0 <= i < self.entries@.len(),
            self.key_at(i) == k,
        ensures
            self.has_key(k),
            self.index_of(k) == i,
            self.view().contains_key(k),
            self.view()[k] == self.entries@[i].1,
    {
        assert(self.has_key(k));
        let j = self.index_of(k);
        if j < i {
            assert(text_lt(self.key_at(j), self.key_at(i)));
            lemma_text_lt_irreflexive(k);
        } else if j > i {
            assert(text_lt(self.key_at(i), self.key_at(j)));
            lemma_text_lt_irreflexive(k);
        }
    }

    pub proof fn lemma_keys_ordered(self)
        requires
            self.wf(),
        ensures
            self.key_seq().len() == self.view().dom().len(),
            forall|i: int, j: int|
                0 <= i < j < self.key_seq().len() ==> text_lt(
                    #[trigger] self.key_seq()[i],
                    #[trigger] self.key_seq()[j],
                ),
            forall|k: Seq<char>| self.view().contains_key(k) <==> self.key_seq().contains(k),
    {
        assert forall|k: Seq<char>| self.view().contains_key(k) <==> self.key_seq().contains(
            k,
        ) by {
            if self.view().contains_key(k) {
                let i = self.index_of(k);
                assert(self.key_seq()[i] == k);
            }
            if self.key_seq().contains(k) {
                let i = choose|i: int| 0 <= i < self.key_seq().len() && self.key_seq()[i] == k;
                assert(self.key_at(i) == k);
            }
        }
        assert forall|i: int, j: int| 0 <= i < j < self.key_seq().len() implies text_lt(
            #[trigger] self.key_seq()[i],
            #[trigger] self.key_seq()[j],
        ) by {
            assert(self.key_seq()[i] == self.key_at(i));
            assert(self.key_seq()[j] == self.key_at(j));
        }
        assert(self.key_seq().no_duplicates()) by {
            assert forall|i: int, j: int|
                0 <= i < self.key_seq().len() && 0 <= j < self.key_seq().len() && i != j implies
                self.key_seq()[i] != self.key_seq()[j] by {
                assert(self.key_seq()[i] == self.key_at(i));
                assert(self.key_seq()[j] == self.key_at(j));
                if i < j {
                    assert(text_lt(self.key_at(i), self.key_at(j)));
                    if self.key_at(i) == self.key_at(j) {
                        lemma_text_lt_irreflexive(self.key_at(i));
                    }
                } else {
                    assert(text_lt(self.key_at(j), self.key_at(i)));
                    if self.key_at(i) == self.key_at(j) {
                        lemma_text_lt_irreflexive(self.key_at(i));
                    }
                }
            }
        }
        assert(self.view().dom() =~= self.key_seq().to_set());
        self.key_seq().unique_seq_to_set();
    }

    pub fn new() -> (m: Self)
        ensures
            m.wf(),
            m@ == Map::<Seq<char>, V>::empty(),
    {
        let m = TextMap { entries: Vec::new() };
        assert(m@ =~= Map::<Seq<char>, V>::empty());
        m
    }

    pub fn len(&self) -> (n: usize)
        requires
            self.wf(),
        ensures
            n == self@.dom().len(),
    {
        proof {
            self.lemma_keys_ordered();
        }
        self.entries.len()
    }

    /// Position of `key`, or where it would be inserted to keep the order.
    fn locate(&self, key: &str) -> (r: (usize, bool))
        requires
            self.wf(),
        ensures
            r.0 <= self.entries@.len(),
            r.1 ==> r.0 < self.entries@.len() && self.key_at(r.0 as int) == key@,
            !r.1 ==> !self.has_key(key@),
            forall|i: int| 0 <= i < r.0 ==> text_lt(#[trigger] self.key_at(i), key@),
            !r.1 ==> forall|i: int|
                r.0 <= i < self.entries@.len() ==> text_lt(key@, #[trigger] self.key_at(i)),
    {
        let mut i: usize = 0;
        while i < self.entries.len()
            invariant
                self.wf(),
                i <= self.entries@.len(),
                forall|j: int| 0 <= j < i ==> text_lt(#[trigger] self.key_at(j), key@),
            decreases self.entries.len() - i,
        {
            match text_order(self.entries[i].0.as_str(), key) {
                TextOrder::Less => {
                    i += 1;
                },
                TextOrder::Equal => {
                    return (i, true);
                },
                TextOrder::Greater => {
                    assert forall|j: int| i <= j < self.entries@.len() implies text_lt(
                        key@,
                        #[trigger] self.key_at(j),
                    ) by {
                        if j > i {
                            lemma_text_lt_transitive(key@, self.key_at(i as int), self.key_at(j));
                        }
                    }
                    assert(!self.has_key(key@)) by {
                        if self.has_key(key@) {
                            let j = choose|j: int|
                                0 <= j < self.entries@.len() && #[trigger] self.key_at(j)
                                    == key@;
                            lemma_text_lt_irreflexive(key@);
                        }
                    }
                    return (i, false);
                },
            }
        }
        assert(!self.has_key(key@)) by {
            if self.has_key(key@) {
                let j = choose|j: int|
                    0 <= j < self.entries@.len() && #[trigger] self.key_at(j) == key@;
                lemma_text_lt_irreflexive(key@);
            }
        }
        (i, false)
    }

    pub fn contains_key(&self, key: &str) -> (r: bool)
        requires
            self.wf(),
        ensures
            r == self@.contains_key(key@),
    {
        let (i, found) = self.locate(key);
        if found {
            proof {
                self.lemma_unique_index(i as int, key@);
            }
        }
        found
    }

    pub fn get(&self, key: &str) -> (r: Option<&V>)
        requires
            self.wf(),
        ensures
            r.is_some() == self@.contains_key(key@),
            r.is_some() ==> *r.unwrap() == self@[key@],
    {
        let (i, found) = self.locate(key);
        if found {
            proof {
                self.lemma_unique_index(i as int, key@);
            }
            Some(&self.entries[i].1)
        } else {
            None
        }
    }

    /// Inserts or replaces; returns the value that was replaced.
    pub fn insert(&mut self, key: String, value: V) -> (r: Option<V>)
        requires
            old(self).wf(),
        ensures
            final(self).wf(),
            final(self)@ == old(self)@.insert(key@, value),
            r.is_some() == old(self)@.contains_key(key@),
            r.is_some() ==> r.unwrap() == old(self)@[key@],
    {
        let ghost k = key@;
        let ghost v = value;
        let (i, found) = self.locate(key.as_str());
        let ghost before = *self;
        if found {
            proof {
                before.lemma_unique_index(i as int, k);
            }
            let old_entry = self.entries.remove(i);
            self.entries.insert(i, (key, value));
            proof {
                assert(self.entries@ =~= before.entries@.update(i as int, (key, v)));
                assert(forall|j: int|
                    0 <= j < self.entries@.len() && j != i ==> #[trigger] self.key_at(j)
                        == before.key_at(j));
                assert(self.key_at(i as int) == k);
                assert forall|a: int, b: int|
                    0 <= a < b < self.entries@.len() implies text_lt(
                    #[trigger] self.key_at(a),
                    #[trigger] self.key_at(b),
                ) by {
                    assert(before.key_at(a) == self.key_at(a) || a == i);
                    assert(before.key_at(b) == self.key_at(b) || b == i);
                    assert(before.key_at(i as int) == k);
                }
                assert forall|x: Seq<char>| #[trigger] self@.contains_key(x) == before@.insert(
                    k,
                    v,
                ).contains_key(x) by {
                    if self.has_key(x) {
                        let j = self.index_of(x);
                        if j != i {
                            assert(before.key_at(j) == x);
                        }
                    }
                    if before.has_key(x) {
                        let j = before.index_of(x);
                        if j != i {
                            assert(self.key_at(j) == x);
                        }
                    }
                }
                assert forall|x: Seq<char>| #[trigger] self@.contains_key(x) implies self@[x]
                    == before@.insert(k, v)[x] by {
                    let j = self.index_of(x);
                    self.lemma_unique_index(j, x);
                    if x != k {
                        assert(before.key_at(j) == x);
                        before.lemma_unique_index(j, x);
                    } else {
                        self.lemma_unique_index(i as int, x);
                    }
                }
                assert(self@ =~= before@.insert(k, v));
            }
            Some(old_entry.1)
        } else {
            self.entries.insert(i, (key, value));
            proof {
                assert(forall|j: int| 0 <= j < i ==> #[trigger] self.key_at(j) == before.key_at(j));
                assert(forall|j: int|
                    i < j < self.entries@.len() ==> #[trigger] self.key_at(j) == before.key_at(
                        j - 1,
                    ));
                assert(self.key_at(i as int) == k);
                assert forall|a: int, b: int|
                    0 <= a < b < self.entries@.len() implies text_lt(
                    #[trigger] self.key_at(a),
                    #[trigger] self.key_at(b),
                ) by {
                    if a < i && b > i {
                        assert(self.key_at(b) == before.key_at(b - 1));
                        lemma_text_lt_transitive(before.key_at(a), k, before.key_at(b - 1));
                    } else if a < i && b == i {
                    } else if a == i {
                        assert(self.key_at(b) == before.key_at(b - 1));
                    } else if a > i {
                        assert(self.key_at(a) == before.key_at(a - 1));
                        assert(self.key_at(b) == before.key_at(b - 1));
                    } else {
                        assert(self.key_at(a) == before.key_at(a));
                        assert(self.key_at(b) == before.key_at(b));
                    }
                }
                assert forall|x: Seq<char>| #[trigger] self@.contains_key(x) == before@.insert(
                    k,
                    v,
                ).contains_key(x) by {
                    if self.has_key(x) {
                        let j = self.index_of(x);
                        if j < i {
                            assert(before.key_at(j) == x);
                        } else if j > i {
                            assert(before.key_at(j - 1) == x);
                        }
                    }
                    if before.has_key(x) {
                        let j = before.index_of(x);
                        if j < i {
                            assert(self.key_at(j) == x);
                        } else {
                            assert(self.key_at(j + 1) == x);
                        }
                    }
                }
                assert forall|x: Seq<char>| #[trigger] self@.contains_key(x) implies self@[x]
                    == before@.insert(k, v)[x] by {
                    let j = self.index_of(x);
                    self.lemma_unique_index(j, x);
                    if j < i {
                        before.lemma_unique_index(j, x);
                    } else if j > i {
                        before.lemma_unique_index(j - 1, x);
                    }
                }
                assert(self@ =~= before@.insert(k, v));
            }
            None
        }
    }

    /// Removes `key`; returns the value it held.
    pub fn remove(&mut self, key: &str) -> (r: Option<V>)
        requires
            old(self).wf(),
        ensures
            final(self).wf(),
            final(self)@ == old(self)@.remove(key@),
            r.is_some() == old(self)@.contains_key(key@),
            r.is_some() ==> r.unwrap() == old(self)@[key@],
    {
        let (i, found) = self.locate(key);
        let ghost before = *self;
        let ghost k = key@;
        if !found {
            assert(self@ =~= before@.remove(k));
            return None;
        }
        proof {
            before.lemma_unique_index(i as int, k);
        }
        let removed = self.entries.remove(i);
        proof {
            assert(forall|j: int| 0 <= j < i ==> #[trigger] self.key_at(j) == before.key_at(j));
            assert(forall|j: int|
                i <= j < self.entries@.len() ==> #[trigger] self.key_at(j) == before.key_at(
                    j + 1,
                ));
            assert forall|a: int, b: int| 0 <= a < b < self.entries@.len() implies text_lt(
                #[trigger] self.key_at(a),
                #[trigger] self.key_at(b),
            ) by {
                if a < i && b >= i {
                    assert(self.key_at(b) == before.key_at(b + 1));
                } else if a >= i {
                    assert(self.key_at(a) == before.key_at(a + 1));
                    assert(self.key_at(b) == before.key_at(b + 1));
                } else {
                    assert(self.key_at(a) == before.key_at(a));
                    assert(self.key_at(b) == before.key_at(b));
                }
            }
            assert forall|x: Seq<char>| #[trigger] self@.contains_key(x) == before@.remove(
                k,
            ).contains_key(x) by {
                if self.has_key(x) {
                    let j = self.index_of(x);
                    if j < i {
                        assert(before.key_at(j) == x);
                        assert(text_lt(x, k));
                        if x == k {
                            lemma_text_lt_irreflexive(k);
                        }
                    } else {
                        assert(before.key_at(j + 1) == x);
                        assert(text_lt(k, x));
                        if x == k {
                            lemma_text_lt_irreflexive(k);
                        }
                    }
                }
                if before.has_key(x) && x != k {
                    let j = before.index_of(x);
                    if j < i {
                        assert(self.key_at(j) == x);
                    } else if j > i {
                        assert(self.key_at(j - 1) == x);
                    }
                }
            }
            assert forall|x: Seq<char>| #[trigger] self@.contains_key(x) implies self@[x]
                == before@.remove(k)[x] by {
                let j = self.index_of(x);
                self.lemma_unique_index(j, x);
                if j < i {
                    before.lemma_unique_index(j, x);
                } else {
                    before.lemma_unique_index(j + 1, x);
                }
            }
            assert(self@ =~= before@.remove(k));
        }
        Some(removed.1)
    }

    pub fn clear(&mut self)
        ensures
            final(self).wf(),
            final(self)@ == Map::<Seq<char>, V>::empty(),
    {
        self.entries.clear();
        assert(self@ =~= Map::<Seq<char>, V>::empty());
    }

    /// The entries in ascending key order.
    pub fn entries(&self) -> (r: &Vec<(String, V)>)
        ensures
            r@.map_values(|e: (String, V)| e.0@) == self.key_seq(),
            forall|i: int| 0 <= i < r@.len() ==> #[trigger] self@.contains_key(r@[i].0@),
            self.wf() ==> forall|i: int|
                0 <= i < r@.len() ==> self@[#[trigger] r@[i].0@] == r@[i].1,
    {
        proof {
            assert forall|i: int| 0 <= i < self.entries@.len() implies #[trigger] self@.contains_key(
                self.entries@[i].0@,
            ) by {
                assert(self.key_at(i) == self.entries@[i].0@);
            }
            if self.wf() {
                assert forall|i: int| 0 <= i < self.entries@.len() implies self@[
                    #[trigger] self.entries@[i].0@] == self.entries@[i].1 by {
                    self.lemma_unique_index(i, self.entries@[i].0@);
                }
            }
        }
        &self.entries
    }

    /// Whether the map is empty.
    pub fn is_empty(&self) -> (r: bool)
        requires
            self.wf(),
        ensures
            r == (self@ == Map::<Seq<char>, V>::empty()),
    {
        proof {
            self.lemma_keys_ordered();
        }
        let r = self.entries.len() == 0;
        if r {
            assert(self@ =~= Map::<Seq<char>, V>::empty());
        } else {
            assert(self.key_seq().contains(self.key_seq()[0]));
            assert(self@.contains_key(self.key_seq()[0]));
        }
        r
    }

    /// The keys, in ascending order.
    pub fn keys(&self) -> (r: Vec<String>)
        requires
            self.wf(),
        ensures
            r@.map_values(|s: String| s@) == self.key_seq(),
            forall|k: Seq<char>| self@.contains_key(k) <==> r@.map_values(|s: String| s@).contains(k),
    {
        proof {
            self.lemma_keys_ordered();
        }
        let mut out: Vec<String> = Vec::new();
        let mut i: usize = 0;
        while i < self.entries.len()
            invariant
                i <= self.entries@.len(),
                out@.len() == i,
                forall|k: int| 0 <= k < i ==> #[trigger] out@[k]@ == self.entries@[k].0@,
            decreases self.entries.len() - i,
        {
            let k = self.entries[i].0.clone();
            out.push(k);
            i += 1;
        }
        assert(out@.map_values(|s: String| s@) =~= self.key_seq());
        out
    }
}

/// A set of texts.
pub struct TextSet {
    map: TextMap<bool>,
}

impl TextSet {
    pub closed spec fn view(&self) -> Set<Seq<char>> {
        self.map@.dom()
    }

    pub closed spec fn wf(&self) -> bool {
        self.map.wf()
    }

    pub fn new() -> (r: Self)
        ensures
            r.wf(),
            r@ == Set::<Seq<char>>::empty(),
    {
        let r = TextSet { map: TextMap::new() };
        assert(r@ =~= Set::<Seq<char>>::empty());
        r
    }

    pub fn contains(&self, item: &str) -> (r: bool)
        requires
            self.wf(),
        ensures
            r == self@.contains(item@),
    {
        self.map.contains_key(item)
    }

    /// Adds an item; returns whether it was absent.
    pub fn insert(&mut self, item: String) -> (r: bool)
        requires
            old(self).wf(),
        ensures
            final(self).wf(),
            final(self)@ == old(self)@.insert(item@),
            r == !old(self)@.contains(item@),
    {
        let ghost k = item@;
        let prev = self.map.insert(item, true);
        assert(self@ =~= old(self)@.insert(k));
        prev.is_none()
    }

    /// Removes an item; returns whether it was present.
    pub fn remove(&mut self, item: &str) -> (r: bool)
        requires
            old(self).wf(),
        ensures
            final(self).wf(),
            final(self)@ == old(self)@.remove(item@),
            r == old(self)@.contains(item@),
    {
        let prev = self.map.remove(item);
        assert(self@ =~= old(self)@.remove(item@));
        prev.is_some()
    }

    pub fn is_empty(&self) -> (r: bool)
        requires
            self.wf(),
        ensures
            r == (self@ == Set::<Seq<char>>::empty()),
    {
        let r = self.map.is_empty();
        if r {
            assert(self@ =~= Set::<Seq<char>>::empty());
        } else {
            proof {
                if self@ == Set::<Seq<char>>::empty() {
                    assert(self.map@ =~= Map::<Seq<char>, bool>::empty());
                }
            }
        }
        r
    }
}

} // verus!
