//! A map kept as a list of entries with distinct keys.

use vstd::prelude::*;

verus! {

/// A key that can be told apart from other keys by what it stands for.
pub trait MapKey: DeepView + Sized {
    /// Whether both keys stand for the same thing.
    fn same_key(&self, other: &Self) -> (r: bool)
        ensures
            r == (self.deep_view() == other.deep_view()),
    ;
}

impl MapKey for String {
    fn same_key(&self, other: &Self) -> (r: bool) {
        *self == *other
    }
}

impl MapKey for i64 {
    fn same_key(&self, other: &Self) -> (r: bool) {
        *self == *other
    }
}

/// The map that a list of entries stands for: the last entry of a key counts.
pub open spec fn entries_map<K: DeepView, T: DeepView>(entries: Seq<(K, T)>) -> Map<K::V, T::V>
    decreases entries.len(),
{
    if entries.len() == 0 {
        Map::empty()
    } else {
        entries_map(entries.drop_last()).insert(
            entries.last().0.deep_view(),
            entries.last().1.deep_view(),
        )
    }
}

/// No two entries have the same key.
pub open spec fn keys_distinct<K: DeepView, T>(entries: Seq<(K, T)>) -> bool {
    forall|i: int, j: int|
        #![trigger entries[i], entries[j]]
        0 <= i < j < entries.len() ==> entries[i].0.deep_view() != entries[j].0.deep_view()
}

proof fn lemma_entry_at<K: DeepView, T: DeepView>(entries: Seq<(K, T)>, i: int)
    requires
        keys_distinct(entries),
        0 <= i < entries.len(),
    ensures
        entries_map(entries).contains_key(entries[i].0.deep_view()),
        entries_map(entries)[entries[i].0.deep_view()] == entries[i].1.deep_view(),
    decreases entries.len(),
{
    if i < entries.len() - 1 {
        let front = entries.drop_last();
        assert forall|a: int, b: int|
            #![trigger front[a], front[b]]
            0 <= a < b < front.len() implies front[a].0.deep_view() != front[b].0.deep_view() by {
            assert(front[a] == entries[a] && front[b] == entries[b]);
        }
        lemma_entry_at(front, i);
        assert(entries[i].0.deep_view() != entries.last().0.deep_view());
    }
}

proof fn lemma_key_has_entry<K: DeepView, T: DeepView>(entries: Seq<(K, T)>, key: K::V)
    ensures
        entries_map(entries).contains_key(key) ==> exists|i: int|
            0 <= i < entries.len() && #[trigger] entries[i].0.deep_view() == key,
    decreases entries.len(),
{
    if entries.len() > 0 && entries_map(entries).contains_key(key) {
        if entries.last().0.deep_view() == key {
            assert(entries[entries.len() - 1].0.deep_view() == key);
        } else {
            lemma_key_has_entry(entries.drop_last(), key);
            let i = choose|i: int|
                0 <= i < entries.drop_last().len() && #[trigger] entries.drop_last()[i].0.deep_view()
                    == key;
            assert(entries[i].0.deep_view() == key);
        }
    }
}

/// Distinct keys and the same entries in another order, or with one left out, as facts about the
/// map: every key of the map has exactly one entry, which holds its value.
proof fn lemma_map_is_entries<K: DeepView, T: DeepView>(entries: Seq<(K, T)>, m: Map<K::V, T::V>)
    requires
        keys_distinct(entries),
        forall|i: int|
            0 <= i < entries.len() ==> #[trigger] m.contains_key(entries[i].0.deep_view())
                && m[entries[i].0.deep_view()] == entries[i].1.deep_view(),
        forall|k: K::V| #[trigger]
            m.contains_key(k) ==> exists|i: int|
                0 <= i < entries.len() && #[trigger] entries[i].0.deep_view() == k,
    ensures
        entries_map(entries) == m,
{
    let e = entries_map(entries);
    assert forall|k: K::V| #[trigger] e.contains_key(k) <==> m.contains_key(k) by {
        lemma_key_has_entry(entries, k);
        if e.contains_key(k) {
            let i = choose|i: int|
                0 <= i < entries.len() && #[trigger] entries[i].0.deep_view() == k;
            assert(m.contains_key(entries[i].0.deep_view()));
        }
        if m.contains_key(k) {
            let i = choose|i: int|
                0 <= i < entries.len() && #[trigger] entries[i].0.deep_view() == k;
            lemma_entry_at(entries, i);
        }
    }
    assert forall|k: K::V| #[trigger] e.contains_key(k) implies e[k] == m[k] by {
        lemma_key_has_entry(entries, k);
        let i = choose|i: int| 0 <= i < entries.len() && #[trigger] entries[i].0.deep_view() == k;
        lemma_entry_at(entries, i);
        assert(m.contains_key(entries[i].0.deep_view()));
    }
    assert(e =~= m);
}

/// A map from `K` to `T`.
#[derive(Debug)]
pub struct KeyedMap<K: MapKey, T: DeepView> {
    entries: Vec<(K, T)>,
}

impl<K: MapKey, T: DeepView> View for KeyedMap<K, T> {
    type V = Map<K::V, T::V>;

    closed spec fn view(&self) -> Map<K::V, T::V> {
        entries_map(self.entries@)
    }
}

impl<K: MapKey, T: DeepView> KeyedMap<K, T> {
    #[verifier::type_invariant]
    closed spec fn distinct(self) -> bool {
        keys_distinct(self.entries@)
    }

    /// The empty map.
    pub fn new() -> (r: Self)
        ensures
            r@ == Map::<K::V, T::V>::empty(),
    {
        KeyedMap { entries: Vec::new() }
    }

    /// The keys, in the order in which the entries stand.
    pub closed spec fn keys(self) -> Seq<K::V> {
        Seq::new(self.entries@.len(), |i: int| self.entries@[i].0.deep_view())
    }

    /// How many entries there are. Every key has one.
    pub fn len(&self) -> (r: usize)
        ensures
            r == self.keys().len(),
            self.keys().no_duplicates(),
            self.keys().to_set() == self@.dom(),
    {
        proof {
            use_type_invariant(self);
            let keys = self.keys();
            assert forall|k: K::V| #[trigger] keys.to_set().contains(k) <==> self@.dom().contains(
                k,
            ) by {
                lemma_key_has_entry(self.entries@, k);
                if self@.contains_key(k) {
                    let i = choose|i: int|
                        0 <= i < self.entries@.len() && #[trigger] self.entries@[i].0.deep_view()
                            == k;
                    assert(keys[i] == k);
                }
                if keys.contains(k) {
                    let i = choose|i: int| 0 <= i < keys.len() && keys[i] == k;
                    lemma_entry_at(self.entries@, i);
                }
            }
            assert(keys.to_set() =~= self@.dom());
        }
        self.entries.len()
    }

    /// The entry at a place.
    pub fn entry(&self, i: usize) -> (r: &(K, T))
        requires
            i < self.keys().len(),
        ensures
            r.0.deep_view() == self.keys()[i as int],
            self@.contains_key(self.keys()[i as int]),
            r.1.deep_view() == self@[self.keys()[i as int]],
    {
        proof {
            use_type_invariant(self);
            lemma_entry_at(self.entries@, i as int);
        }
        &self.entries[i]
    }

    /// Where the entry of `key` stands.
    fn position(&self, key: &K) -> (r: Option<usize>)
        ensures
            r is Some == self@.contains_key(key.deep_view()),
            r matches Some(i) ==> {
                &&& i < self.entries.len()
                &&& self.entries@[i as int].0.deep_view() == key.deep_view()
                &&& self.entries@[i as int].1.deep_view() == self@[key.deep_view()]
            },
    {
        proof {
            use_type_invariant(self);
        }
        let mut i: usize = 0;
        while i < self.entries.len()
            invariant
                keys_distinct(self.entries@),
                i <= self.entries.len(),
                forall|j: int|
                    0 <= j < i ==> (#[trigger] self.entries@[j]).0.deep_view() != key.deep_view(),
            decreases self.entries.len() - i,
        {
            if self.entries[i].0.same_key(key) {
                proof {
                    lemma_entry_at(self.entries@, i as int);
                }
                return Some(i);
            }
            i = i + 1;
        }
        proof {
            lemma_key_has_entry(self.entries@, key.deep_view());
        }
        None
    }

    /// The value of `key`.
    pub fn get(&self, key: &K) -> (r: Option<&T>)
        ensures
            r is Some == self@.contains_key(key.deep_view()),
            r matches Some(value) ==> value.deep_view() == self@[key.deep_view()],
    {
        match self.position(key) {
            Some(i) => Some(&self.entries[i].1),
            None => None,
        }
    }

    /// Whether `key` has a value.
    pub fn contains_key(&self, key: &K) -> (r: bool)
        ensures
            r == self@.contains_key(key.deep_view()),
    {
        self.position(key).is_some()
    }

    /// Takes `key` and its value out.
    pub fn remove(&mut self, key: &K) -> (r: Option<T>)
        ensures
            final(self)@ == old(self)@.remove(key.deep_view()),
            r is Some == old(self)@.contains_key(key.deep_view()),
            r matches Some(value) ==> value.deep_view() == old(self)@[key.deep_view()],
    {
        proof {
            use_type_invariant(&*self);
        }
        let ghost before = self@;
        match self.position(key) {
            Some(i) => {
                let mut entries: Vec<(K, T)> = Vec::new();
                core::mem::swap(&mut entries, &mut self.entries);
                let ghost old_entries = entries@;
                let entry = entries.remove(i);
                proof {
                    lemma_removed(old_entries, i as int);
                }
                self.entries = entries;
                Some(entry.1)
            },
            None => {
                assert(before.remove(key.deep_view()) =~= before);
                None
            },
        }
    }

    /// Gives `key` the value `value`, in place of the one it had.
    pub fn insert(&mut self, key: K, value: T)
        ensures
            final(self)@ == old(self)@.insert(key.deep_view(), value.deep_view()),
    {
        let ghost before = self@;
        let _ = self.remove(&key);
        proof {
            use_type_invariant(&*self);
        }
        let mut entries: Vec<(K, T)> = Vec::new();
        core::mem::swap(&mut entries, &mut self.entries);
        let ghost old_entries = entries@;
        entries.push((key, value));
        proof {
            assert(entries@.drop_last() =~= old_entries);
            assert forall|a: int, b: int|
                #![trigger entries@[a], entries@[b]]
                0 <= a < b < entries@.len() implies entries@[a].0.deep_view()
                != entries@[b].0.deep_view() by {
                lemma_entry_at(old_entries, a);
                if b < old_entries.len() {
                    assert(entries@[a] == old_entries[a] && entries@[b] == old_entries[b]);
                } else {
                    assert(entries@[a] == old_entries[a]);
                }
            }
            assert(before.remove(key.deep_view()).insert(key.deep_view(), value.deep_view())
                =~= before.insert(key.deep_view(), value.deep_view()));
        }
        self.entries = entries;
    }
}

proof fn lemma_removed<K: DeepView, T: DeepView>(entries: Seq<(K, T)>, i: int)
    requires
        keys_distinct(entries),
        0 <= i < entries.len(),
    ensures
        keys_distinct(entries.remove(i)),
        entries_map(entries.remove(i)) == entries_map(entries).remove(entries[i].0.deep_view()),
{
    let rest = entries.remove(i);
    let m = entries_map(entries).remove(entries[i].0.deep_view());
    assert forall|a: int, b: int|
        #![trigger rest[a], rest[b]]
        0 <= a < b < rest.len() implies rest[a].0.deep_view() != rest[b].0.deep_view() by {
        let x = if a < i { a } else { a + 1 };
        let y = if b < i { b } else { b + 1 };
        assert(rest[a] == entries[x] && rest[b] == entries[y]);
    }
    assert forall|a: int| 0 <= a < rest.len() implies #[trigger] m.contains_key(
        rest[a].0.deep_view(),
    ) && m[rest[a].0.deep_view()] == rest[a].1.deep_view() by {
        let x = if a < i { a } else { a + 1 };
        assert(rest[a] == entries[x]);
        lemma_entry_at(entries, x);
        assert(entries[x].0.deep_view() != entries[i].0.deep_view());
    }
    assert forall|k: K::V| #[trigger] m.contains_key(k) implies exists|a: int|
        0 <= a < rest.len() && #[trigger] rest[a].0.deep_view() == k by {
        lemma_key_has_entry(entries, k);
        let x = choose|x: int| 0 <= x < entries.len() && #[trigger] entries[x].0.deep_view() == k;
        let a = if x < i { x } else { x - 1 };
        assert(rest[a].0.deep_view() == k);
    }
    lemma_map_is_entries(rest, m);
}

} // verus!
