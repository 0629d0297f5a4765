//! A map keyed by text, kept as a list of distinct keys with their values.

use vstd::prelude::*;
use crate::text::text_eq;

verus! {

/// The keys of a list of entries, in order.
pub open spec fn key_seq<V>(es: Seq<(String, V)>) -> Seq<Seq<char>> {
    es.map_values(|e: (String, V)| e.0@)
}

/// The position of the entry for `k`.
pub closed spec fn slot_of<V>(es: Seq<(String, V)>, k: Seq<char>) -> int {
    choose|i: int| 0 <= i < es.len() && es[i].0@ == k
}

/// The map that a list of entries with distinct keys stands for.
pub closed spec fn map_of<V>(es: Seq<(String, V)>) -> Map<Seq<char>, V> {
    Map::new(|k: Seq<char>| key_seq(es).contains(k), |k: Seq<char>| es[slot_of(es, k)].1)
}

/// The map holds each entry's value under its key.
pub proof fn lemma_map_of_at<V>(es: Seq<(String, V)>, i: int)
    requires
        key_seq(es).no_duplicates(),
        0 <= i < es.len(),
    ensures
        map_of(es).contains_key(es[i].0@),
        map_of(es)[es[i].0@] == es[i].1,
{
    let k = es[i].0@;
    assert(key_seq(es)[i] == k);
    let j = slot_of(es, k);
    assert(key_seq(es)[j] == k);
}

/// Adding an entry with a new key adds that key to the map.
pub proof fn lemma_map_of_push<V>(es: Seq<(String, V)>, key: String, v: V)
    requires
        key_seq(es).no_duplicates(),
        !key_seq(es).contains(key@),
    ensures
        key_seq(es.push((key, v))) == key_seq(es).push(key@),
        key_seq(es.push((key, v))).no_duplicates(),
        map_of(es.push((key, v))) == map_of(es).insert(key@, v),
{
    let es2 = es.push((key, v));
    assert(key_seq(es2) =~= key_seq(es).push(key@));
    assert forall|k: Seq<char>| #[trigger] key_seq(es2).contains(k) <==> (key_seq(es).contains(k)
        || k == key@) by {
        if key_seq(es2).contains(k) {
            let w = choose|w: int| 0 <= w < key_seq(es2).len() && key_seq(es2)[w] == k;
            if w < es.len() {
                assert(key_seq(es)[w] == k);
            }
        }
        if key_seq(es).contains(k) {
            let w = choose|w: int| 0 <= w < key_seq(es).len() && key_seq(es)[w] == k;
            assert(key_seq(es2)[w] == k);
        }
        if k == key@ {
            assert(key_seq(es2)[es.len() as int] == k);
        }
    }
    assert forall|k: Seq<char>| #[trigger] map_of(es2).contains_key(k) implies map_of(es2)[k]
        == map_of(es).insert(key@, v)[k] by {
        let w = choose|w: int| 0 <= w < key_seq(es2).len() && key_seq(es2)[w] == k;
        assert(es2[w].0@ == k);
        let j = slot_of(es2, k);
        assert(key_seq(es2)[j] == k);
        if k == key@ {
            assert(key_seq(es2)[es.len() as int] == k);
        } else {
            assert(key_seq(es)[j] == k);
            lemma_map_of_at(es, j);
        }
    }
    assert(map_of(es2) =~= map_of(es).insert(key@, v));
}

/// Replacing the value of an entry, under the same key, updates the map there.
pub proof fn lemma_map_of_update<V>(es: Seq<(String, V)>, i: int, key: String, v: V)
    requires
        key_seq(es).no_duplicates(),
        0 <= i < es.len(),
        es[i].0@ == key@,
    ensures
        key_seq(es.update(i, (key, v))) == key_seq(es),
        map_of(es.update(i, (key, v))) == map_of(es).insert(key@, v),
{
    let es2 = es.update(i, (key, v));
    assert(key_seq(es2) =~= key_seq(es));
    assert(key_seq(es)[i] == key@);
    assert forall|k: Seq<char>| #[trigger] map_of(es2).contains_key(k) implies map_of(es2)[k]
        == map_of(es).insert(key@, v)[k] by {
        let w = choose|w: int| 0 <= w < key_seq(es2).len() && key_seq(es2)[w] == k;
        assert(es2[w].0@ == k);
        let j = slot_of(es2, k);
        assert(key_seq(es2)[j] == k);
        if k == key@ {
            assert(key_seq(es)[i] == k);
        } else {
            assert(key_seq(es)[j] == k);
            lemma_map_of_at(es, j);
        }
    }
    assert(map_of(es2) =~= map_of(es).insert(key@, v));
}

/// Removing an entry removes its key from the map.
pub proof fn lemma_map_of_remove<V>(es: Seq<(String, V)>, i: int)
    requires
        key_seq(es).no_duplicates(),
        0 <= i < es.len(),
    ensures
        key_seq(es.remove(i)) == key_seq(es).remove(i),
        key_seq(es.remove(i)).no_duplicates(),
        map_of(es.remove(i)) == map_of(es).remove(es[i].0@),
{
    let es2 = es.remove(i);
    let key = es[i].0@;
    assert(key_seq(es2) =~= key_seq(es).remove(i));
    assert forall|a: int, b: int|
        0 <= a < key_seq(es2).len() && 0 <= b < key_seq(es2).len() && a != b implies key_seq(
        es2,
    )[a] != key_seq(es2)[b] by {
        let a1 = if a < i {
            a
        } else {
            a + 1
        };
        let b1 = if b < i {
            b
        } else {
            b + 1
        };
        assert(key_seq(es2)[a] == key_seq(es)[a1]);
        assert(key_seq(es2)[b] == key_seq(es)[b1]);
    }
    assert forall|k: Seq<char>| #[trigger] map_of(es2).contains_key(k) <==> map_of(es).remove(
        key,
    ).contains_key(k) by {
        if key_seq(es2).contains(k) {
            let j = choose|j: int| 0 <= j < key_seq(es2).len() && key_seq(es2)[j] == k;
            let j1 = if j < i {
                j
            } else {
                j + 1
            };
            assert(key_seq(es)[j1] == k);
            assert(key_seq(es)[i] == key);
        }
        if map_of(es).remove(key).contains_key(k) {
            let j = choose|j: int| 0 <= j < key_seq(es).len() && key_seq(es)[j] == k;
            assert(j != i);
            let j2 = if j < i {
                j
            } else {
                j - 1
            };
            assert(key_seq(es2)[j2] == k);
        }
    }
    assert forall|k: Seq<char>| #[trigger] map_of(es2).contains_key(k) implies map_of(es2)[k]
        == map_of(es)[k] by {
        let w = choose|w: int| 0 <= w < key_seq(es2).len() && key_seq(es2)[w] == k;
        assert(es2[w].0@ == k);
        let j = slot_of(es2, k);
        assert(key_seq(es2)[j] == k);
        let j1 = if j < i {
            j
        } else {
            j + 1
        };
        assert(es2[j] == es[j1]);
        lemma_map_of_at(es, j1);
        lemma_map_of_at(es2, j);
    }
    assert(map_of(es2) =~= map_of(es).remove(key));
}

/// The position of `key` in `entries`.
fn find_slot<V>(entries: &Vec<(String, V)>, key: &str) -> (found: Option<usize>)
    ensures
        match found {
            Some(i) => i < entries.len() && entries@[i as int].0@ == key@,
            None => !key_seq(entries@).contains(key@),
        },
{
    let mut i: usize = 0;
    while i < entries.len()
        invariant
            i <= entries.len(),
            forall|j: int| 0 <= j < i ==> entries@[j].0@ != key@,
        decreases entries.len() - i,
    {
        if text_eq(entries[i].0.as_str(), key) {
            return Some(i);
        }
        i = i + 1;
    }
    proof {
        if key_seq(entries@).contains(key@) {
            let j = choose|j: int| 0 <= j < key_seq(entries@).len() && key_seq(entries@)[j] == key@;
            assert(entries@[j].0@ == key@);
        }
    }
    None
}

/// A map from text keys to values. Each key occurs once; the entries keep
/// the order in which their keys were first inserted.
#[derive(Debug)]
pub struct TextMap<V> {
    entries: Vec<(String, V)>,
}

impl<V> View for TextMap<V> {
    type V = Map<Seq<char>, V>;

    closed spec fn view(&self) -> Map<Seq<char>, V> {
        map_of(self.entries@)
    }
}

impl<V> TextMap<V> {
    /// No key occurs twice.
    #[verifier::type_invariant]
    spec fn distinct_keys(self) -> bool {
        key_seq(self.entries@).no_duplicates()
    }

    /// The keys, in the order of their entries.
    pub closed spec fn key_order(self) -> Seq<Seq<char>> {
        key_seq(self.entries@)
    }

    /// An empty map.
    pub fn new() -> (m: Self)
        ensures
            m@ == Map::<Seq<char>, V>::empty(),
            m.key_order() == Seq::<Seq<char>>::empty(),
    {
        let m = TextMap { entries: Vec::new() };
        proof {
            assert(key_seq(m.entries@) =~= Seq::<Seq<char>>::empty());
            assert(m@ =~= Map::<Seq<char>, V>::empty());
        }
        m
    }

    /// The number of keys.
    pub fn len(&self) -> (n: usize)
        ensures
            n == self@.len(),
            n == self.key_order().len(),
    {
        proof {
            use_type_invariant(self);
            let ks = key_seq(self.entries@);
            ks.unique_seq_to_set();
            assert(self@.dom() =~= ks.to_set());
        }
        self.entries.len()
    }

    /// Whether the map has no keys.
    pub fn is_empty(&self) -> (b: bool)
        ensures
            b == (self@.len() == 0),
            b == (self@ == Map::<Seq<char>, V>::empty()),
    {
        let n = self.len();
        proof {
            if n == 0 {
                assert(self@ =~= Map::<Seq<char>, V>::empty());
            } else {
                assert(self.key_order().len() > 0);
                assert(self@.contains_key(self.key_order()[0]));
            }
        }
        n == 0
    }

    /// Whether `key` has a value.
    pub fn contains_key(&self, key: &str) -> (b: bool)
        ensures
            b == self@.contains_key(key@),
    {
        let found = find_slot(&self.entries, key);
        proof {
            if let Some(i) = found {
                assert(key_seq(self.entries@)[i as int] == key@);
            }
        }
        found.is_some()
    }

    /// The value of `key`, if it has one.
    pub fn get(&self, key: &str) -> (found: Option<&V>)
        ensures
            match found {
                Some(v) => self@.contains_key(key@) && *v == self@[key@],
                None => !self@.contains_key(key@),
            },
    {
        proof {
            use_type_invariant(self);
        }
        match find_slot(&self.entries, key) {
            Some(i) => {
                proof {
                    lemma_map_of_at(self.entries@, i as int);
                }
                Some(&self.entries[i].1)
            },
            None => None,
        }
    }

    /// Sets `key` to `value`, and gives back the value it replaced. A new key
    /// goes after the others; a key already present keeps its place.
    pub fn insert(&mut self, key: String, value: V) -> (replaced: Option<V>)
        ensures
            final(self)@ == old(self)@.insert(key@, value),
            match replaced {
                Some(v) => old(self)@.contains_key(key@) && v == old(self)@[key@],
                None => !old(self)@.contains_key(key@),
            },
            old(self)@.contains_key(key@) ==> final(self).key_order() == old(self).key_order(),
            !old(self)@.contains_key(key@) ==> final(self).key_order() == old(
                self,
            ).key_order().push(key@),
    {
        proof {
            use_type_invariant(&*self);
        }
        let ghost es = self.entries@;
        let mut entries: Vec<(String, V)> = Vec::new();
        std::mem::swap(&mut entries, &mut self.entries);
        match find_slot(&entries, key.as_str()) {
            Some(i) => {
                let old_entry = entries.remove(i);
                entries.insert(i, (key, value));
                proof {
                    assert(entries@ =~= es.update(i as int, (key, value)));
                    lemma_map_of_update(es, i as int, key, value);
                    lemma_map_of_at(es, i as int);
                }
                self.entries = entries;
                Some(old_entry.1)
            },
            None => {
                entries.push((key, value));
                proof {
                    lemma_map_of_push(es, key, value);
                }
                self.entries = entries;
                None
            },
        }
    }

    /// Removes `key`, and gives back its value. The other keys keep their order.
    pub fn remove(&mut self, key: &str) -> (removed: Option<V>)
        ensures
            final(self)@ == old(self)@.remove(key@),
            match removed {
                Some(v) => old(self)@.contains_key(key@) && v == old(self)@[key@],
                None => !old(self)@.contains_key(key@),
            },
    {
        proof {
            use_type_invariant(&*self);
        }
        let ghost es = self.entries@;
        let mut entries: Vec<(String, V)> = Vec::new();
        std::mem::swap(&mut entries, &mut self.entries);
        match find_slot(&entries, key) {
            Some(i) => {
                let old_entry = entries.remove(i);
                proof {
                    lemma_map_of_remove(es, i as int);
                    lemma_map_of_at(es, i as int);
                }
                self.entries = entries;
                Some(old_entry.1)
            },
            None => {
                proof {
                    assert(old(self)@.remove(key@) =~= old(self)@);
                }
                self.entries = entries;
                None
            },
        }
    }

    /// The entries, in key order.
    pub fn entries(&self) -> (es: &Vec<(String, V)>)
        ensures
            key_seq(es@) == self.key_order(),
            key_seq(es@).no_duplicates(),
            forall|i: int| 0 <= i < es@.len() ==> #[trigger] self@[es@[i].0@] == es@[i].1,
            forall|k: Seq<char>| #[trigger] self@.contains_key(k) <==> key_seq(es@).contains(k),
    {
        proof {
            use_type_invariant(self);
            assert forall|i: int| 0 <= i < self.entries@.len() implies #[trigger] self@[self.entries@[i].0@]
                == self.entries@[i].1 by {
                lemma_map_of_at(self.entries@, i);
            }
        }
        &self.entries
    }

    /// The values, in key order.
    pub fn values(&self) -> (vs: Vec<&V>)
        ensures
            vs@.len() == self.key_order().len(),
            vs@.len() == self@.len(),
            self.key_order().no_duplicates(),
            forall|k: Seq<char>| #[trigger] self@.contains_key(k) <==> self.key_order().contains(k),
            forall|i: int| 0 <= i < vs@.len() ==> *vs@[i] == self@[self.key_order()[i]],
    {
        proof {
            use_type_invariant(self);
            let ks = key_seq(self.entries@);
            ks.unique_seq_to_set();
            assert(self@.dom() =~= ks.to_set());
        }
        let es = self.entries();
        let mut vs: Vec<&V> = Vec::new();
        let mut i: usize = 0;
        while i < es.len()
            invariant
                i <= es.len(),
                vs@.len() == i,
                key_seq(es@) == self.key_order(),
                forall|i: int| 0 <= i < es@.len() ==> #[trigger] self@[es@[i].0@] == es@[i].1,
                forall|j: int| 0 <= j < i ==> *vs@[j] == self@[self.key_order()[j]],
            decreases es.len() - i,
        {
            vs.push(&es[i].1);
            proof {
                assert(key_seq(es@)[i as int] == es@[i as int].0@);
            }
            i = i + 1;
        }
        vs
    }
}

impl TextMap<String> {
    /// Sets every key of `other` to its value there, over what this map holds.
    pub fn overlay(&mut self, other: &TextMap<String>)
        ensures
            final(self)@ == old(self)@.union_prefer_right(other@),
    {
        let es = other.entries();
        let ghost start = self@;
        let mut i: usize = 0;
        while i < es.len()
            invariant
                i <= es.len(),
                key_seq(es@).no_duplicates(),
                forall|j: int| 0 <= j < es@.len() ==> #[trigger] other@[es@[j].0@] == es@[j].1,
                forall|k: Seq<char>| #[trigger] other@.contains_key(k) <==> key_seq(es@).contains(k),
                self@ == start.union_prefer_right(other@.restrict(key_seq(es@).take(i as int).to_set())),
            decreases es.len() - i,
        {
            let k = es[i].0.clone();
            let v = es[i].1.clone();
            self.insert(k, v);
            proof {
                let ks = key_seq(es@);
                assert(ks[i as int] == es@[i as int].0@);
                assert(ks.take(i + 1) =~= ks.take(i as int).push(ks[i as int]));
                ks.take(i as int).lemma_push_to_set_commute(ks[i as int]);
                assert(self@ =~= start.union_prefer_right(other@.restrict(ks.take(i + 1).to_set())));
            }
            i = i + 1;
        }
        proof {
            let ks = key_seq(es@);
            assert(ks.take(es@.len() as int) =~= ks);
            assert(other@.restrict(ks.to_set()) =~= other@);
        }
    }
}

} // verus!
