//! Maps from text keys to settings, kept in dictionary order of their keys.
//!
//! Keeping the entries sorted gives every map exactly one representation, so two maps that hold
//! the same entries are equal field by field, whatever the order in which they were filled.

use vstd::prelude::*;
use crate::paths::{is_absolute, AbsPathBuf};
use crate::text::{
    lemma_text_less_irreflexive, lemma_text_less_total, lemma_text_less_transitive, same_text,
    text_less, text_precedes,
};

verus! {

/// The map that a sequence of entries stands for; of two entries with one key the later counts.
pub open spec fn map_of<T>(entries: Seq<(Seq<char>, T)>) -> Map<Seq<char>, T>
    decreases entries.len(),
{
    if entries.len() == 0 {
        Map::empty()
    } else {
        map_of(entries.drop_last()).insert(entries.last().0, entries.last().1)
    }
}

/// Whether the keys of `entries` strictly increase in dictionary order.
pub open spec fn keys_increase<T>(entries: Seq<(Seq<char>, T)>) -> bool {
    forall|i: int, j: int|
        0 <= i < j < entries.len() ==> text_less(#[trigger] entries[i].0, #[trigger] entries[j].0)
}

/// A key is in the map of `entries` exactly when one of the entries has it.
pub proof fn lemma_map_of_keys<T>(entries: Seq<(Seq<char>, T)>, key: Seq<char>)
    ensures
        map_of(entries).contains_key(key) <==> exists|i: int|
            0 <= i < entries.len() && (#[trigger] entries[i]).0 == key,
    decreases entries.len(),
{
    if entries.len() > 0 {
        let front = entries.drop_last();
        lemma_map_of_keys(front, key);
        if map_of(entries).contains_key(key) {
            if entries.last().0 == key {
                assert(entries[entries.len() - 1].0 == key);
            } else {
                let i = choose|i: int| 0 <= i < front.len() && (#[trigger] front[i]).0 == key;
                assert(entries[i].0 == key);
            }
        }
        if exists|i: int| 0 <= i < entries.len() && (#[trigger] entries[i]).0 == key {
            let i = choose|i: int| 0 <= i < entries.len() && (#[trigger] entries[i]).0 == key;
            if i < entries.len() - 1 {
                assert(front[i].0 == key);
            }
        }
    }
}

/// The keys of all entries but the last increase where the keys of all entries do.
proof fn lemma_front_increases<T>(entries: Seq<(Seq<char>, T)>)
    requires
        keys_increase(entries),
        entries.len() > 0,
    ensures
        keys_increase(entries.drop_last()),
{
    let front = entries.drop_last();
    assert forall|a: int, b: int| 0 <= a < b < front.len() implies text_less(
        #[trigger] front[a].0,
        #[trigger] front[b].0,
    ) by {
        assert(text_less(entries[a].0, entries[b].0));
    }
}

/// Where the keys increase, the map of `entries` sends each entry's key to that entry's value.
pub proof fn lemma_map_of_entry<T>(entries: Seq<(Seq<char>, T)>, i: int)
    requires
        keys_increase(entries),
        0 <= i < entries.len(),
    ensures
        map_of(entries).contains_key(entries[i].0),
        map_of(entries)[entries[i].0] == entries[i].1,
    decreases entries.len(),
{
    if i < entries.len() - 1 {
        let front = entries.drop_last();
        lemma_front_increases(entries);
        lemma_map_of_entry(front, i);
        assert(text_less(entries[i].0, entries[entries.len() - 1].0));
        lemma_text_less_irreflexive(entries[i].0);
    }
}

/// Where the keys increase, the front of `entries` stands for the map without the last key.
proof fn lemma_map_of_front<T>(entries: Seq<(Seq<char>, T)>)
    requires
        keys_increase(entries),
        entries.len() > 0,
    ensures
        keys_increase(entries.drop_last()),
        map_of(entries.drop_last()) == map_of(entries).remove(entries.last().0),
{
    let front = entries.drop_last();
    let key = entries.last().0;
    lemma_front_increases(entries);
    lemma_map_of_keys(front, key);
    if map_of(front).contains_key(key) {
        let i = choose|i: int| 0 <= i < front.len() && (#[trigger] front[i]).0 == key;
        assert(text_less(entries[i].0, entries[entries.len() - 1].0));
        lemma_text_less_irreflexive(key);
    }
    assert(map_of(front) =~= map_of(entries).remove(key));
}

/// Where the keys increase, no two entries share a key: the map of `entries` has as many keys
/// as there are entries.
pub proof fn lemma_map_of_len<T>(entries: Seq<(Seq<char>, T)>)
    requires
        keys_increase(entries),
    ensures
        map_of(entries).dom().finite(),
        map_of(entries).len() == entries.len(),
    decreases entries.len(),
{
    if entries.len() > 0 {
        lemma_map_of_front(entries);
        lemma_map_of_len(entries.drop_last());
    }
}

/// A map has one sequence of entries with increasing keys, and no other: two maps that hold
/// the same are kept the same.
pub proof fn lemma_entries_are_determined<T>(
    one: Seq<(Seq<char>, T)>,
    other: Seq<(Seq<char>, T)>,
)
    requires
        keys_increase(one),
        keys_increase(other),
        map_of(one) == map_of(other),
    ensures
        one == other,
    decreases one.len(),
{
    lemma_map_of_len(one);
    lemma_map_of_len(other);
    if one.len() == 0 {
        assert(one =~= other);
    } else {
        let last = one.len() - 1;
        let key = one[last].0;
        lemma_map_of_entry(one, last);
        lemma_map_of_entry(other, last);
        lemma_map_of_keys(other, key);
        lemma_map_of_keys(one, other[last].0);
        let j = choose|j: int| 0 <= j < other.len() && (#[trigger] other[j]).0 == key;
        let i = choose|i: int| 0 <= i < one.len() && (#[trigger] one[i]).0 == other[last].0;
        if j < last {
            assert(text_less(other[j].0, other[last].0));
            lemma_text_less_irreflexive(key);
            if i < last {
                assert(text_less(one[i].0, one[last].0));
                lemma_text_less_transitive(key, other[last].0, key);
            }
        }
        assert(other[last].0 == key);
        lemma_map_of_front(one);
        lemma_map_of_front(other);
        lemma_entries_are_determined(one.drop_last(), other.drop_last());
        assert(one =~= one.drop_last().push(one[last]));
        assert(other =~= other.drop_last().push(other[last]));
    }
}

/// Putting an entry with a new key at its place in the order adds it to the map.
pub proof fn lemma_map_of_insert<T>(entries: Seq<(Seq<char>, T)>, at: int, entry: (Seq<char>, T))
    requires
        0 <= at <= entries.len(),
        keys_increase(entries),
        keys_increase(entries.insert(at, entry)),
    ensures
        map_of(entries.insert(at, entry)) == map_of(entries).insert(entry.0, entry.1),
{
    let grown = entries.insert(at, entry);
    let expected = map_of(entries).insert(entry.0, entry.1);
    assert forall|key: Seq<char>| #[trigger]
        map_of(grown).contains_key(key) implies expected.contains_key(key) && expected[key]
        == map_of(grown)[key] by {
        lemma_map_of_keys(grown, key);
        let i = choose|i: int| 0 <= i < grown.len() && (#[trigger] grown[i]).0 == key;
        lemma_map_of_entry(grown, i);
        lemma_text_less_irreflexive(key);
        if i < at {
            assert(grown[i] == entries[i]);
            lemma_map_of_entry(entries, i);
            assert(text_less(grown[i].0, grown[at].0));
        } else if i > at {
            assert(grown[i] == entries[i - 1]);
            lemma_map_of_entry(entries, i - 1);
            assert(text_less(grown[at].0, grown[i].0));
        }
    }
    assert forall|key: Seq<char>| #[trigger]
        expected.contains_key(key) implies map_of(grown).contains_key(key) by {
        if key == entry.0 {
            assert(grown[at].0 == key);
        } else {
            lemma_map_of_keys(entries, key);
            let i = choose|i: int| 0 <= i < entries.len() && (#[trigger] entries[i]).0 == key;
            if i < at {
                assert(grown[i].0 == key);
            } else {
                assert(grown[i + 1].0 == key);
            }
        }
        lemma_map_of_keys(grown, key);
    }
    assert(map_of(grown) =~= expected);
}

/// Putting a new value in the place of an entry's value changes the map at that key alone.
pub proof fn lemma_map_of_update<T>(entries: Seq<(Seq<char>, T)>, at: int, entry: (Seq<char>, T))
    requires
        0 <= at < entries.len(),
        keys_increase(entries),
        entries[at].0 == entry.0,
    ensures
        keys_increase(entries.update(at, entry)),
        map_of(entries.update(at, entry)) == map_of(entries).insert(entry.0, entry.1),
{
    let changed = entries.update(at, entry);
    let expected = map_of(entries).insert(entry.0, entry.1);
    assert(keys_increase(changed)) by {
        assert forall|a: int, b: int| 0 <= a < b < changed.len() implies text_less(
            #[trigger] changed[a].0,
            #[trigger] changed[b].0,
        ) by {
            assert(text_less(entries[a].0, entries[b].0));
        }
    }
    assert forall|key: Seq<char>| #[trigger]
        map_of(changed).contains_key(key) implies expected.contains_key(key) && expected[key]
        == map_of(changed)[key] by {
        lemma_map_of_keys(changed, key);
        let i = choose|i: int| 0 <= i < changed.len() && (#[trigger] changed[i]).0 == key;
        lemma_map_of_entry(changed, i);
        if i != at {
            assert(changed[i] == entries[i]);
            lemma_map_of_entry(entries, i);
            if i < at {
                assert(text_less(entries[i].0, entries[at].0));
            } else {
                assert(text_less(entries[at].0, entries[i].0));
            }
            lemma_text_less_irreflexive(key);
        }
    }
    assert forall|key: Seq<char>| #[trigger]
        expected.contains_key(key) implies map_of(changed).contains_key(key) by {
        if key == entry.0 {
            assert(changed[at].0 == key);
        } else {
            lemma_map_of_keys(entries, key);
            let i = choose|i: int| 0 <= i < entries.len() && (#[trigger] entries[i]).0 == key;
            assert(changed[i].0 == key);
        }
        lemma_map_of_keys(changed, key);
    }
    assert(map_of(changed) =~= expected);
}

/// A map from text keys to values, with at most one value for a key.
#[derive(Debug, PartialEq, Eq)]
pub struct StringMap<V> {
    entries: Vec<(String, V)>,
}

impl<V> StringMap<V> {
    #[verifier::type_invariant]
    spec fn sorted(self) -> bool {
        forall|i: int, j: int|
            0 <= i < j < self.entries@.len() ==> text_less(
                (#[trigger] self.entries@[i]).0@,
                (#[trigger] self.entries@[j]).0@,
            )
    }
}

impl<V: View> View for StringMap<V> {
    type V = Map<Seq<char>, V::V>;

    open spec fn view(&self) -> Map<Seq<char>, V::V> {
        map_of(self.entries())
    }
}

impl<V: View> StringMap<V> {
    /// The entries in the order in which they are kept, each key and value by its view.
    pub closed spec fn entries(&self) -> Seq<(Seq<char>, V::V)> {
        Seq::new(self.entries@.len(), |i: int| (self.entries@[i].0@, self.entries@[i].1@))
    }

    /// A map without entries.
    pub fn new() -> (map: Self)
        ensures
            map@ == Map::<Seq<char>, V::V>::empty(),
            map.entries().len() == 0,
    {
        StringMap { entries: Vec::new() }
    }

    /// The number of entries.
    pub fn len(&self) -> (count: usize)
        ensures
            count == self@.len(),
            count == self.entries().len(),
            keys_increase(self.entries()),
    {
        proof {
            use_type_invariant(self);
            lemma_map_of_len(self.entries());
        }
        self.entries.len()
    }

    /// Whether the map has no entry.
    pub fn is_empty(&self) -> (empty: bool)
        ensures
            empty == (self.entries().len() == 0),
            empty == (self@ == Map::<Seq<char>, V::V>::empty()),
    {
        proof {
            use_type_invariant(self);
            if self.entries().len() > 0 {
                lemma_map_of_entry(self.entries(), 0);
            }
        }
        self.entries.len() == 0
    }

    /// The key of the entry at `index`, counting in dictionary order.
    pub fn key_at(&self, index: usize) -> (key: &str)
        requires
            index < self.entries().len(),
        ensures
            key@ == self.entries()[index as int].0,
    {
        self.entries[index].0.as_str()
    }

    /// The value of the entry at `index`, counting in dictionary order of the keys.
    pub fn value_at(&self, index: usize) -> (value: &V)
        requires
            index < self.entries().len(),
        ensures
            value@ == self.entries()[index as int].1,
    {
        &self.entries[index].1
    }

    /// The value kept for `key`, if there is one.
    pub fn get(&self, key: &str) -> (found: Option<&V>)
        ensures
            match found {
                Some(value) => self@.contains_key(key@) && self@[key@] == value@,
                None => !self@.contains_key(key@),
            },
    {
        proof {
            use_type_invariant(self);
        }
        let mut i: usize = 0;
        while i < self.entries.len()
            invariant
                i <= self.entries@.len(),
                keys_increase(self.entries()),
                forall|j: int| 0 <= j < i ==> (#[trigger] self.entries()[j]).0 != key@,
            decreases self.entries@.len() - i,
        {
            if same_text(self.entries[i].0.as_str(), key) {
                proof {
                    lemma_map_of_entry(self.entries(), i as int);
                }
                return Some(&self.entries[i].1);
            }
            i += 1;
        }
        proof {
            lemma_map_of_keys(self.entries(), key@);
        }
        None
    }

    /// Whether the map keeps a value for `key`.
    pub fn contains_key(&self, key: &str) -> (found: bool)
        ensures
            found == self@.contains_key(key@),
    {
        self.get(key).is_some()
    }

    /// Keeps `value` for `key`, and hands back the value that was kept for it before.
    pub fn insert(&mut self, key: String, value: V) -> (previous: Option<V>)
        ensures
            final(self)@ == old(self)@.insert(key@, value@),
            match previous {
                Some(before) => old(self)@.contains_key(key@) && old(self)@[key@] == before@,
                None => !old(self)@.contains_key(key@),
            },
    {
        proof {
            use_type_invariant(&*self);
        }
        let ghost before = self.entries();
        let mut entries: Vec<(String, V)> = Vec::new();
        std::mem::swap(&mut entries, &mut self.entries);
        assert(Seq::new(entries@.len(), |i: int| (entries@[i].0@, entries@[i].1@)) =~= before);
        let mut at: usize = 0;
        while at < entries.len() && text_precedes(entries[at].0.as_str(), key.as_str())
            invariant
                at <= entries@.len(),
                forall|j: int| 0 <= j < at ==> text_less((#[trigger] entries@[j]).0@, key@),
            decreases entries@.len() - at,
        {
            at += 1;
        }
        let previous = if at < entries.len() && same_text(entries[at].0.as_str(), key.as_str()) {
            let replaced = entries.remove(at);
            proof {
                lemma_map_of_entry(before, at as int);
                lemma_map_of_update(before, at as int, (key@, value@));
            }
            entries.insert(at, (key, value));
            assert(Seq::new(entries@.len(), |i: int| (entries@[i].0@, entries@[i].1@))
                =~= before.update(at as int, (key@, value@)));
            Some(replaced.1)
        } else {
            proof {
                let grown = before.insert(at as int, (key@, value@));
                assert forall|a: int, b: int| 0 <= a < b < grown.len() implies text_less(
                    #[trigger] grown[a].0,
                    #[trigger] grown[b].0,
                ) by {
                    if at < before.len() {
                        lemma_text_less_total(before[at as int].0, key@);
                    }
                    if b < at {
                        assert(text_less(before[a].0, before[b].0));
                    } else if b == at {
                        assert(text_less(entries@[a].0@, key@));
                    } else if a == at {
                        if b - 1 > at {
                            assert(text_less(before[at as int].0, before[b - 1].0));
                            lemma_text_less_transitive(key@, before[at as int].0, before[b - 1].0);
                        }
                    } else if a < at {
                        assert(text_less(before[a].0, before[b - 1].0));
                    } else {
                        assert(text_less(before[a - 1].0, before[b - 1].0));
                    }
                }
                lemma_map_of_insert(before, at as int, (key@, value@));
                lemma_map_of_keys(before, key@);
                if map_of(before).contains_key(key@) {
                    let i = choose|i: int|
                        0 <= i < before.len() && (#[trigger] before[i]).0 == key@;
                    lemma_text_less_irreflexive(key@);
                    if i < at {
                        assert(text_less(entries@[i].0@, key@));
                    } else if i > at {
                        assert(text_less(before[at as int].0, before[i].0));
                        lemma_text_less_total(before[at as int].0, key@);
                        lemma_text_less_transitive(key@, before[at as int].0, key@);
                    }
                }
            }
            entries.insert(at, (key, value));
            assert(Seq::new(entries@.len(), |i: int| (entries@[i].0@, entries@[i].1@))
                =~= before.insert(at as int, (key@, value@)));
            None
        };
        proof {
            let now = Seq::new(entries@.len(), |i: int| (entries@[i].0@, entries@[i].1@));
            assert(keys_increase(now));
            assert forall|i: int, j: int| 0 <= i < j < entries@.len() implies text_less(
                (#[trigger] entries@[i]).0@,
                (#[trigger] entries@[j]).0@,
            ) by {
                assert(text_less(now[i].0, now[j].0));
            }
        }
        self.entries = entries;
        previous
    }
}

/// A map from absolute paths to values, with at most one value for a path.
#[derive(Debug, PartialEq, Eq)]
pub struct PathMap<V> {
    by_path: StringMap<V>,
}

impl<V> PathMap<V> {
    #[verifier::type_invariant]
    spec fn rooted(self) -> bool {
        forall|i: int|
            0 <= i < self.by_path.entries@.len() ==> is_absolute(
                (#[trigger] self.by_path.entries@[i]).0@,
            )
    }
}

impl<V: View> View for PathMap<V> {
    type V = Map<Seq<char>, V::V>;

    open spec fn view(&self) -> Map<Seq<char>, V::V> {
        map_of(self.entries())
    }
}

impl<V: View> PathMap<V> {
    /// The entries in the order in which they are kept, each path and value by its view.
    pub closed spec fn entries(&self) -> Seq<(Seq<char>, V::V)> {
        self.by_path.entries()
    }

    /// A map without entries.
    pub fn new() -> (map: Self)
        ensures
            map@ == Map::<Seq<char>, V::V>::empty(),
            map.entries().len() == 0,
    {
        PathMap { by_path: StringMap::new() }
    }

    /// The number of entries.
    pub fn len(&self) -> (count: usize)
        ensures
            count == self@.len(),
            count == self.entries().len(),
            keys_increase(self.entries()),
            forall|i: int|
                0 <= i < self.entries().len() ==> is_absolute(#[trigger] self.entries()[i].0),
    {
        proof {
            use_type_invariant(self);
            assert forall|i: int| 0 <= i < self.entries().len() implies is_absolute(
                #[trigger] self.entries()[i].0,
            ) by {
                assert(is_absolute(self.by_path.entries@[i].0@));
            }
        }
        self.by_path.len()
    }

    /// Whether the map has no entry.
    pub fn is_empty(&self) -> (empty: bool)
        ensures
            empty == (self.entries().len() == 0),
            empty == (self@ == Map::<Seq<char>, V::V>::empty()),
    {
        self.by_path.is_empty()
    }

    /// The path of the entry at `index`, counting in dictionary order.
    pub fn key_at(&self, index: usize) -> (key: &str)
        requires
            index < self.entries().len(),
        ensures
            key@ == self.entries()[index as int].0,
            is_absolute(key@),
    {
        proof {
            use_type_invariant(self);
            assert(is_absolute(self.by_path.entries@[index as int].0@));
        }
        self.by_path.key_at(index)
    }

    /// The value of the entry at `index`, counting in dictionary order of the paths.
    pub fn value_at(&self, index: usize) -> (value: &V)
        requires
            index < self.entries().len(),
        ensures
            value@ == self.entries()[index as int].1,
    {
        self.by_path.value_at(index)
    }

    /// The same map, with its paths as plain texts.
    pub fn as_string_map(&self) -> (map: &StringMap<V>)
        ensures
            map.entries() == self.entries(),
            map@ == self@,
            forall|i: int|
                0 <= i < map.entries().len() ==> is_absolute(#[trigger] map.entries()[i].0),
    {
        proof {
            use_type_invariant(self);
            assert forall|i: int| 0 <= i < self.entries().len() implies is_absolute(
                #[trigger] self.entries()[i].0,
            ) by {
                assert(is_absolute(self.by_path.entries@[i].0@));
            }
        }
        &self.by_path
    }

    /// The value kept for `path`, if there is one.
    pub fn get(&self, path: &AbsPathBuf) -> (found: Option<&V>)
        ensures
            match found {
                Some(value) => self@.contains_key(path@) && self@[path@] == value@,
                None => !self@.contains_key(path@),
            },
    {
        self.by_path.get(path.as_str())
    }

    /// Whether the map keeps a value for `path`.
    pub fn contains_key(&self, path: &AbsPathBuf) -> (found: bool)
        ensures
            found == self@.contains_key(path@),
    {
        self.by_path.contains_key(path.as_str())
    }

    /// Keeps `value` for `path`, and hands back the value that was kept for it before.
    pub fn insert(&mut self, path: AbsPathBuf, value: V) -> (previous: Option<V>)
        ensures
            final(self)@ == old(self)@.insert(path@, value@),
            match previous {
                Some(before) => old(self)@.contains_key(path@) && old(self)@[path@] == before@,
                None => !old(self)@.contains_key(path@),
            },
    {
        proof {
            use_type_invariant(&*self);
        }
        let ghost before = self.entries();
        let mut by_path: StringMap<V> = StringMap::new();
        std::mem::swap(&mut by_path, &mut self.by_path);
        let previous = by_path.insert(path.into_string(), value);
        proof {
            use_type_invariant(&by_path);
            let now = by_path.entries();
            assert(keys_increase(now)) by {
                assert forall|a: int, b: int| 0 <= a < b < now.len() implies text_less(
                    #[trigger] now[a].0,
                    #[trigger] now[b].0,
                ) by {
                    assert(text_less(by_path.entries@[a].0@, by_path.entries@[b].0@));
                }
            }
            assert forall|i: int| 0 <= i < by_path.entries@.len() implies is_absolute(
                (#[trigger] by_path.entries@[i]).0@,
            ) by {
                let key = now[i].0;
                lemma_map_of_entry(now, i);
                if key != path@ {
                    lemma_map_of_keys(before, key);
                    let j = choose|j: int| 0 <= j < before.len() && (#[trigger] before[j]).0 == key;
                    assert(is_absolute(old(self).by_path.entries@[j].0@));
                }
            }
        }
        self.by_path = by_path;
        previous
    }
}

} // verus!
