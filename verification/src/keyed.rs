//! A map over keys that are told apart by what they view as.

use crate::bytes::{bytes_eq, text_eq};
use vstd::prelude::*;

verus! {

/// A key that can be told apart from another by what it views as.
pub trait KeyEq: View + Sized {
    /// Whether two keys view as the same.
    fn key_eq(&self, other: &Self) -> (same: bool)
        ensures
            same == (self@ == other@),
    ;
}

impl KeyEq for String {
    fn key_eq(&self, other: &Self) -> (same: bool) {
        text_eq(self.as_str(), other.as_str())
    }
}

impl KeyEq for (String, Vec<u8>) {
    fn key_eq(&self, other: &Self) -> (same: bool) {
        text_eq(self.0.as_str(), other.0.as_str()) && bytes_eq(
            self.1.as_slice(),
            other.1.as_slice(),
        )
    }
}

/// The map that a list of entries stands for: of two values under one key the
/// later one counts.
pub open spec fn entries_map<K: View, V>(entries: Seq<(K, V)>) -> Map<K::V, V>
    decreases entries.len(),
{
    if entries.len() == 0 {
        Map::empty()
    } else {
        entries_map(entries.drop_last()).insert(entries.last().0@, entries.last().1)
    }
}

/// No two entries have the same key.
pub open spec fn distinct_keys<K: View, V>(entries: Seq<(K, V)>) -> bool {
    forall|i: int, j: int|
        0 <= i < j < entries.len() ==> (#[trigger] entries[i]).0@ != (#[trigger] entries[j]).0@
}

/// A key is in the map exactly where an entry carries it, and with distinct
/// keys each entry is what the map holds.
pub proof fn lemma_entries_map<K: View, V>(entries: Seq<(K, V)>)
    ensures
        forall|key: K::V| #[trigger]
            entries_map(entries).contains_key(key) <==> exists|i: int|
                0 <= i < entries.len() && (#[trigger] entries[i]).0@ == key,
        distinct_keys(entries) ==> forall|i: int|
            0 <= i < entries.len() ==> entries_map(entries)[(#[trigger] entries[i]).0@]
                == entries[i].1,
    decreases entries.len(),
{
    if entries.len() > 0 {
        let rest = entries.drop_last();
        lemma_entries_map(rest);
        assert forall|key: K::V| #[trigger]
            entries_map(entries).contains_key(key) <==> exists|i: int|
                0 <= i < entries.len() && (#[trigger] entries[i]).0@ == key by {
            if entries_map(entries).contains_key(key) {
                if key == entries.last().0@ {
                    assert(entries[entries.len() - 1].0@ == key);
                } else {
                    assert(entries_map(rest).contains_key(key));
                    let i = choose|i: int| 0 <= i < rest.len() && (#[trigger] rest[i]).0@ == key;
                    assert(entries[i].0@ == key);
                }
            }
            if exists|i: int| 0 <= i < entries.len() && (#[trigger] entries[i]).0@ == key {
                let i = choose|i: int|
                    0 <= i < entries.len() && (#[trigger] entries[i]).0@ == key;
                if i < rest.len() {
                    assert(rest[i].0@ == key);
                    assert(entries_map(rest).contains_key(key));
                }
            }
        }
        if distinct_keys(entries) {
            assert(distinct_keys(rest)) by {
                assert forall|i: int, j: int| 0 <= i < j < rest.len() implies (
                #[trigger] rest[i]).0@ != (#[trigger] rest[j]).0@ by {
                    assert(entries[i].0@ != entries[j].0@);
                }
            }
            assert forall|i: int| 0 <= i < entries.len() implies entries_map(entries)[(
            #[trigger] entries[i]).0@] == entries[i].1 by {
                if i < rest.len() {
                    assert(rest[i].0@ != entries[entries.len() - 1].0@);
                    assert(entries_map(rest)[rest[i].0@] == rest[i].1);
                }
            }
        }
    }
}

/// Values under keys, at most one under each.
#[derive(Debug)]
pub struct KeyedMap<K: KeyEq, V> {
    entries: Vec<(K, V)>,
}

/// Values under labels.
pub type LabelMap<V> = KeyedMap<String, V>;

impl<K: KeyEq, V> View for KeyedMap<K, V> {
    type V = Map<K::V, V>;

    closed spec fn view(&self) -> Map<K::V, V> {
        entries_map(self.entries@)
    }
}

impl<K: KeyEq, V> KeyedMap<K, V> {
    #[verifier::type_invariant]
    spec fn distinct(&self) -> bool {
        distinct_keys(self.entries@)
    }

    /// A map without entries.
    pub fn new() -> (map: Self)
        ensures
            map@ == Map::<K::V, V>::empty(),
    {
        KeyedMap { entries: Vec::new() }
    }

    /// Where the entry of a key stands, or how many entries there are.
    fn position(&self, key: &K) -> (at: usize)
        ensures
            at <= self.entries@.len(),
            at < self.entries@.len() ==> self.entries@[at as int].0@ == key@,
            self@.contains_key(key@) <==> at < self.entries@.len(),
            at < self.entries@.len() ==> self@[key@] == self.entries@[at as int].1,
    {
        proof {
            use_type_invariant(self);
            lemma_entries_map(self.entries@);
        }
        let mut i: usize = 0;
        while i < self.entries.len()
            invariant
                i <= self.entries.len(),
                forall|j: int| 0 <= j < i ==> (#[trigger] self.entries@[j]).0@ != key@,
                self@ == entries_map(self.entries@),
                forall|k: K::V| #[trigger]
                    entries_map(self.entries@).contains_key(k) <==> exists|j: int|
                        0 <= j < self.entries@.len() && (#[trigger] self.entries@[j]).0@ == k,
                forall|j: int|
                    0 <= j < self.entries@.len() ==> entries_map(self.entries@)[(
                    #[trigger] self.entries@[j]).0@] == self.entries@[j].1,
            decreases self.entries.len() - i,
        {
            if self.entries[i].0.key_eq(key) {
                assert(self.entries@[i as int].0@ == key@);
                return i;
            }
            i = i + 1;
        }
        i
    }

    /// The value under a key.
    pub fn get(&self, key: &K) -> (value: Option<&V>)
        ensures
            value is Some <==> self@.contains_key(key@),
            value matches Some(v) ==> *v == self@[key@],
    {
        let at: usize = self.position(key);
        if at < self.entries.len() {
            Some(&self.entries[at].1)
        } else {
            None
        }
    }

    /// Puts a value under a key, in place of the one that stood there.
    pub fn insert(&mut self, key: K, value: V)
        ensures
            final(self)@ == old(self)@.insert(key@, value),
    {
        let at: usize = self.position(&key);
        let mut entries: Vec<(K, V)> = Vec::new();
        proof {
            use_type_invariant(&*self);
        }
        let ghost before = self.entries@;
        std::mem::swap(&mut entries, &mut self.entries);
        if at < entries.len() {
            entries.set(at, (key, value));
        } else {
            entries.push((key, value));
        }
        proof {
            lemma_entries_map(before);
            assert forall|i: int, j: int| 0 <= i < j < entries@.len() implies (
            #[trigger] entries@[i]).0@ != (#[trigger] entries@[j]).0@ by {
                assert(entries@[i].0@ == before[i].0@);
                if j < before.len() {
                    assert(before[i].0@ != before[j].0@);
                    assert(entries@[j].0@ == before[j].0@);
                }
            }
            lemma_entries_map(entries@);
            assert(entries@[at as int] == (key, value));
            let target = entries_map(before).insert(key@, value);
            assert forall|k: K::V|
                entries_map(entries@).contains_key(k) == target.contains_key(k) by {
                if target.contains_key(k) {
                    if k == key@ {
                        assert(entries@[at as int].0@ == k);
                    } else {
                        let i = choose|i: int|
                            0 <= i < before.len() && (#[trigger] before[i]).0@ == k;
                        assert(entries@[i].0@ == k);
                    }
                }
                if entries_map(entries@).contains_key(k) {
                    let i = choose|i: int|
                        0 <= i < entries@.len() && (#[trigger] entries@[i]).0@ == k;
                    if i != at {
                        assert(before[i].0@ == k);
                    }
                }
            }
            assert forall|k: K::V| target.contains_key(k) implies entries_map(entries@)[k]
                == target[k] by {
                assert(entries_map(entries@).contains_key(k));
                let i = choose|i: int|
                    0 <= i < entries@.len() && (#[trigger] entries@[i]).0@ == k;
                if i != at {
                    assert(before[i] == entries@[i]);
                }
            }
            assert(entries_map(entries@) =~= target);
        }
        self.entries = entries;
    }

    /// The entries, one for each key, in no particular order.
    pub fn entries(&self) -> (entries: &Vec<(K, V)>)
        ensures
            entries_map(entries@) == self@,
            distinct_keys(entries@),
    {
        proof {
            use_type_invariant(self);
        }
        &self.entries
    }
}

/// The value under a label.
pub fn label_get<'a, V>(map: &'a LabelMap<V>, label: &str) -> (value: Option<&'a V>)
    ensures
        value is Some <==> map@.contains_key(label@),
        value matches Some(v) ==> *v == map@[label@],
{
    map.get(&label.to_owned())
}

/// A map with the same labels and values.
pub fn label_copy<V: Copy>(map: &LabelMap<V>) -> (copy: LabelMap<V>)
    ensures
        copy@ == map@,
{
    let entries: &Vec<(String, V)> = map.entries();
    let mut copy: LabelMap<V> = KeyedMap::new();
    let mut i: usize = 0;
    while i < entries.len()
        invariant
            i <= entries.len(),
            copy@ == entries_map(entries@.take(i as int)),
        decreases entries.len() - i,
    {
        copy.insert(entries[i].0.clone(), entries[i].1);
        i = i + 1;
        assert(entries@.take(i as int).drop_last() =~= entries@.take(i - 1));
    }
    assert(entries@.take(i as int) =~= entries@);
    copy
}

} // verus!
