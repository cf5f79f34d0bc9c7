//! Finite maps kept as lists of entries with distinct keys.

use vstd::prelude::*;
use vstd::std_specs::cmp::{PartialEqSpec, PartialEqSpecImpl};

verus! {

/// A key of an [`AssocMap`]: a value with a mathematical model, a test that
/// tells whether two keys have the same model, and a way to make a second
/// key with the model of the first.
pub trait Key: Sized {
    type Model;

    spec fn model(&self) -> Self::Model;

    fn same(&self, other: &Self) -> (res: bool)
        ensures
            res == (self.model() == other.model()),
    ;

    fn replica(&self) -> (res: Self)
        ensures
            res.model() == self.model(),
    ;
}

impl Key for String {
    type Model = Seq<char>;

    open spec fn model(&self) -> Seq<char> {
        self@
    }

    fn same(&self, other: &Self) -> (res: bool) {
        *self == *other
    }

    fn replica(&self) -> (res: Self) {
        self.clone()
    }
}

impl Key for (String, i32) {
    type Model = (Seq<char>, int);

    open spec fn model(&self) -> (Seq<char>, int) {
        (self.0@, self.1 as int)
    }

    fn same(&self, other: &Self) -> (res: bool) {
        self.1 == other.1 && self.0 == other.0
    }

    fn replica(&self) -> (res: Self) {
        (self.0.clone(), self.1)
    }
}

/// Whether some entry of `entries` has the key model `k`.
pub open spec fn has_key<K: Key, V>(entries: Seq<(K, V)>, k: K::Model) -> bool {
    exists|i: int| 0 <= i < entries.len() && (#[trigger] entries[i]).0.model() == k
}

/// The position of an entry of `entries` with the key model `k`, if there is one.
pub open spec fn index_of<K: Key, V>(entries: Seq<(K, V)>, k: K::Model) -> int {
    choose|i: int| 0 <= i < entries.len() && (#[trigger] entries[i]).0.model() == k
}

/// No two entries of `entries` have the same key model.
pub open spec fn distinct_keys<K: Key, V>(entries: Seq<(K, V)>) -> bool {
    forall|i: int, j: int|
        0 <= i < j < entries.len() ==> (#[trigger] entries[i]).0.model() != (
        #[trigger] entries[j]).0.model()
}

/// The map that a sequence of entries stands for.
pub open spec fn entries_map<K: Key, V>(entries: Seq<(K, V)>) -> Map<K::Model, V> {
    Map::new(|k: K::Model| has_key(entries, k), |k: K::Model| entries[index_of(entries, k)].1)
}

/// An entry of a sequence with distinct keys is what the map holds under its key.
pub proof fn lemma_entry_in_map<K: Key, V>(entries: Seq<(K, V)>, i: int)
    requires
        distinct_keys(entries),
        0 <= i < entries.len(),
    ensures
        entries_map(entries).contains_key(entries[i].0.model()),
        entries_map(entries)[entries[i].0.model()] == entries[i].1,
{
    let k = entries[i].0.model();
    assert(has_key(entries, k));
    let j = index_of(entries, k);
    assert(0 <= j < entries.len() && entries[j].0.model() == k);
    if j != i {
        if j < i {
            assert(entries[j].0.model() != entries[i].0.model());
        } else {
            assert(entries[i].0.model() != entries[j].0.model());
        }
    }
}

/// Adding an entry under a key that is not there inserts it into the map.
pub proof fn lemma_push_inserts<K: Key, V>(entries: Seq<(K, V)>, key: K, value: V)
    requires
        distinct_keys(entries),
        !has_key(entries, key.model()),
    ensures
        distinct_keys(entries.push((key, value))),
        entries_map(entries.push((key, value))) == entries_map(entries).insert(
            key.model(),
            value,
        ),
{
    let after = entries.push((key, value));
    let last = entries.len() as int;
    assert forall|i: int, j: int| 0 <= i < j < after.len() implies (#[trigger] after[i]).0.model()
        != (#[trigger] after[j]).0.model() by {
        if j < last {
            assert(after[i] == entries[i] && after[j] == entries[j]);
        } else {
            assert(after[i] == entries[i]);
        }
    }
    assert(after[last] == (key, value));
    lemma_entry_in_map(after, last);
    assert forall|k: K::Model| #[trigger]
        entries_map(after).contains_key(k) == entries_map(entries).insert(
            key.model(),
            value,
        ).contains_key(k) by {
        if has_key(entries, k) {
            let i = index_of(entries, k);
            assert(after[i] == entries[i]);
        }
        if has_key(after, k) && k != key.model() {
            let i = index_of(after, k);
            assert(i < last);
            assert(after[i] == entries[i]);
        }
    }
    assert forall|k: K::Model| #[trigger]
        entries_map(after).contains_key(k) implies entries_map(after)[k] == entries_map(
        entries,
    ).insert(key.model(), value)[k] by {
        if k != key.model() {
            let i = index_of(entries, k);
            assert(after[i] == entries[i]);
            lemma_entry_in_map(entries, i);
            lemma_entry_in_map(after, i);
        }
    }
    assert(entries_map(after) =~= entries_map(entries).insert(key.model(), value));
}

/// Replacing the entry at `i` by one with the same key model replaces its
/// value in the map.
pub proof fn lemma_update_inserts<K: Key, V>(entries: Seq<(K, V)>, i: int, key: K, value: V)
    requires
        distinct_keys(entries),
        0 <= i < entries.len(),
        entries[i].0.model() == key.model(),
    ensures
        distinct_keys(entries.update(i, (key, value))),
        entries_map(entries.update(i, (key, value))) == entries_map(entries).insert(
            key.model(),
            value,
        ),
{
    let after = entries.update(i, (key, value));
    assert forall|a: int, b: int| 0 <= a < b < after.len() implies (#[trigger] after[a]).0.model()
        != (#[trigger] after[b]).0.model() by {
        assert(after[a].0.model() == entries[a].0.model());
        assert(after[b].0.model() == entries[b].0.model());
    }
    lemma_entry_in_map(after, i);
    assert forall|k: K::Model| #[trigger]
        entries_map(after).contains_key(k) == entries_map(entries).insert(
            key.model(),
            value,
        ).contains_key(k) by {
        if has_key(entries, k) {
            let j = index_of(entries, k);
            assert(after[j].0.model() == entries[j].0.model());
        }
        if has_key(after, k) {
            let j = index_of(after, k);
            assert(after[j].0.model() == entries[j].0.model());
        }
    }
    assert forall|k: K::Model| #[trigger]
        entries_map(after).contains_key(k) implies entries_map(after)[k] == entries_map(
        entries,
    ).insert(key.model(), value)[k] by {
        if k != key.model() {
            let j = index_of(entries, k);
            assert(j != i);
            assert(after[j] == entries[j]);
            lemma_entry_in_map(entries, j);
            lemma_entry_in_map(after, j);
        }
    }
    assert(entries_map(after) =~= entries_map(entries).insert(key.model(), value));
}

/// Taking the entry at `i` out removes its key from the map.
pub proof fn lemma_remove_removes<K: Key, V>(entries: Seq<(K, V)>, i: int)
    requires
        distinct_keys(entries),
        0 <= i < entries.len(),
    ensures
        distinct_keys(entries.remove(i)),
        entries_map(entries.remove(i)) == entries_map(entries).remove(entries[i].0.model()),
{
    let after = entries.remove(i);
    let gone = entries[i].0.model();
    assert forall|a: int, b: int| 0 <= a < b < after.len() implies (#[trigger] after[a]).0.model()
        != (#[trigger] after[b]).0.model() by {
        let a0 = if a < i { a } else { a + 1 };
        let b0 = if b < i { b } else { b + 1 };
        assert(after[a] == entries[a0] && after[b] == entries[b0]);
    }
    assert forall|k: K::Model| #[trigger]
        entries_map(after).contains_key(k) == entries_map(entries).remove(gone).contains_key(
            k,
        ) by {
        if has_key(entries, k) && k != gone {
            let j = index_of(entries, k);
            let j1 = if j < i { j } else { j - 1 };
            assert(after[j1] == entries[j]);
        }
        if has_key(after, k) {
            let j = index_of(after, k);
            let j0 = if j < i { j } else { j + 1 };
            assert(after[j] == entries[j0]);
            if k == gone {
                if j0 < i {
                    assert(entries[j0].0.model() != entries[i].0.model());
                } else {
                    assert(entries[i].0.model() != entries[j0].0.model());
                }
            }
        }
    }
    assert forall|k: K::Model| #[trigger]
        entries_map(after).contains_key(k) implies entries_map(after)[k] == entries_map(
        entries,
    ).remove(gone)[k] by {
        let j = index_of(after, k);
        let j0 = if j < i { j } else { j + 1 };
        assert(after[j] == entries[j0]);
        lemma_entry_in_map(after, j);
        lemma_entry_in_map(entries, j0);
    }
    assert(entries_map(after) =~= entries_map(entries).remove(gone));
}

/// A sequence of entries with distinct keys stands for a finite map with as
/// many keys as there are entries.
pub proof fn lemma_map_size<K: Key, V>(entries: Seq<(K, V)>)
    requires
        distinct_keys(entries),
    ensures
        entries_map(entries).dom().finite(),
        entries_map(entries).dom().len() == entries.len(),
    decreases entries.len(),
{
    if entries.len() == 0 {
        assert(entries_map(entries).dom() =~= Set::<K::Model>::empty());
    } else {
        let rest = entries.drop_last();
        let last = entries.last();
        assert forall|i: int, j: int| 0 <= i < j < rest.len() implies (#[trigger] rest[i]).0.model()
            != (#[trigger] rest[j]).0.model() by {
            assert(rest[i] == entries[i] && rest[j] == entries[j]);
        }
        assert(!has_key(rest, last.0.model())) by {
            if has_key(rest, last.0.model()) {
                let i = index_of(rest, last.0.model());
                assert(rest[i] == entries[i]);
                assert(entries[i].0.model() != entries[entries.len() - 1].0.model());
            }
        }
        lemma_map_size(rest);
        lemma_push_inserts(rest, last.0, last.1);
        assert(rest.push((last.0, last.1)) =~= entries);
        assert(entries_map(entries).dom() =~= entries_map(rest).dom().insert(last.0.model()));
    }
}

/// A finite map from keys to values, kept as a list of entries in which no
/// key occurs twice.
#[derive(Debug)]
pub struct AssocMap<K: Key, V> {
    entries: Vec<(K, V)>,
}

impl<K: Key, V> View for AssocMap<K, V> {
    type V = Map<K::Model, V>;

    closed spec fn view(&self) -> Map<K::Model, V> {
        entries_map(self.entries@)
    }
}

impl<K: Key, V> AssocMap<K, V> {
    #[verifier::type_invariant]
    spec fn keys_occur_once(self) -> bool {
        distinct_keys(self.entries@)
    }

    /// The empty map.
    pub fn new() -> (res: Self)
        ensures
            res@ == Map::<K::Model, V>::empty(),
    {
        let res = AssocMap { entries: Vec::new() };
        assert(res@ =~= Map::<K::Model, V>::empty());
        res
    }

    /// The number of keys of the map.
    pub fn len(&self) -> (res: usize)
        ensures
            self@.dom().finite(),
            res == self@.dom().len(),
    {
        proof {
            use_type_invariant(self);
            lemma_map_size(self.entries@);
        }
        self.entries.len()
    }

    /// Whether the map has no key.
    pub fn is_empty(&self) -> (res: bool)
        ensures
            res == (self@ == Map::<K::Model, V>::empty()),
    {
        proof {
            use_type_invariant(self);
            if self.entries@.len() > 0 {
                lemma_entry_in_map(self.entries@, 0);
            } else {
                assert(self@ =~= Map::<K::Model, V>::empty());
            }
        }
        self.entries.len() == 0
    }

    /// The entries of the map, each key once with its value, in no order
    /// that a caller may count on.
    pub fn entries(&self) -> (res: &Vec<(K, V)>)
        ensures
            distinct_keys(res@),
            entries_map(res@) == self@,
    {
        proof {
            use_type_invariant(self);
        }
        &self.entries
    }

    /// The position of the entry under `key`, or the number of entries where
    /// there is none.
    fn position(&self, key: &K) -> (i: usize)
        ensures
            i <= self.entries@.len(),
            i < self.entries@.len() ==> self.entries@[i as int].0.model() == key.model(),
            i == self.entries@.len() ==> !has_key(self.entries@, key.model()),
    {
        let mut i: usize = 0;
        while i < self.entries.len()
            invariant
                i <= self.entries@.len(),
                forall|j: int|
                    0 <= j < i ==> (#[trigger] self.entries@[j]).0.model() != key.model(),
            decreases self.entries@.len() - i,
        {
            if self.entries[i].0.same(key) {
                return i;
            }
            i += 1;
        }
        i
    }

    /// The value under `key`, if the map has one.
    pub fn get(&self, key: &K) -> (res: Option<&V>)
        ensures
            res is Some == self@.contains_key(key.model()),
            res is Some ==> *res->0 == self@[key.model()],
    {
        proof {
            use_type_invariant(self);
        }
        let i = self.position(key);
        if i < self.entries.len() {
            proof {
                lemma_entry_in_map(self.entries@, i as int);
            }
            Some(&self.entries[i].1)
        } else {
            None
        }
    }

    /// Whether the map has a value under `key`.
    pub fn contains_key(&self, key: &K) -> (res: bool)
        ensures
            res == self@.contains_key(key.model()),
    {
        proof {
            use_type_invariant(self);
        }
        let i = self.position(key);
        proof {
            if i < self.entries@.len() {
                lemma_entry_in_map(self.entries@, i as int);
            }
        }
        i < self.entries.len()
    }

    /// Puts `value` under `key`, in place of the value that was there, if any.
    pub fn insert(&mut self, key: K, value: V)
        ensures
            final(self)@ == old(self)@.insert(key.model(), value),
    {
        proof {
            use_type_invariant(&*self);
        }
        let i = self.position(&key);
        let mut entries: Vec<(K, V)> = Vec::new();
        core::mem::swap(&mut self.entries, &mut entries);
        if i < entries.len() {
            proof {
                lemma_update_inserts(entries@, i as int, key, value);
            }
            entries.set(i, (key, value));
        } else {
            proof {
                lemma_push_inserts(entries@, key, value);
            }
            entries.push((key, value));
        }
        self.entries = entries;
    }

    /// Takes the value under `key` out of the map and returns it, if there is one.
    pub fn remove(&mut self, key: &K) -> (res: Option<V>)
        ensures
            final(self)@ == old(self)@.remove(key.model()),
            res is Some == old(self)@.contains_key(key.model()),
            res is Some ==> res->0 == old(self)@[key.model()],
    {
        proof {
            use_type_invariant(&*self);
        }
        let i = self.position(key);
        if i < self.entries.len() {
            proof {
                lemma_entry_in_map(self.entries@, i as int);
                lemma_remove_removes(self.entries@, i as int);
            }
            let mut entries: Vec<(K, V)> = Vec::new();
            core::mem::swap(&mut self.entries, &mut entries);
            let (_, value) = entries.remove(i);
            self.entries = entries;
            Some(value)
        } else {
            assert(old(self)@.remove(key.model()) =~= old(self)@);
            None
        }
    }
}

impl<K: Key, V: Clone> Clone for AssocMap<K, V> {
    /// A map with the same keys, each with a clone of its value.
    fn clone(&self) -> (res: Self)
        ensures
            res@.dom() == self@.dom(),
            forall|k: K::Model| #[trigger] self@.contains_key(k) ==> cloned::<V>(self@[k], res@[k]),
    {
        proof {
            use_type_invariant(self);
        }
        let mut entries: Vec<(K, V)> = Vec::new();
        let mut i: usize = 0;
        while i < self.entries.len()
            invariant
                i <= self.entries@.len(),
                entries@.len() == i,
                forall|j: int|
                    0 <= j < i ==> (#[trigger] entries@[j]).0.model()
                        == self.entries@[j].0.model(),
                forall|j: int|
                    0 <= j < i ==> cloned::<V>(self.entries@[j].1, (#[trigger] entries@[j]).1),
            decreases self.entries@.len() - i,
        {
            entries.push((self.entries[i].0.replica(), self.entries[i].1.clone()));
            i += 1;
        }
        proof {
            let before = self.entries@;
            let after = entries@;
            assert forall|a: int, b: int| 0 <= a < b < after.len() implies (
            #[trigger] after[a]).0.model() != (#[trigger] after[b]).0.model() by {
                assert(before[a].0.model() != before[b].0.model());
            }
            assert forall|k: K::Model| has_key(before, k) == has_key(after, k) by {
                if has_key(before, k) {
                    let j = index_of(before, k);
                    assert(after[j].0.model() == k);
                }
                if has_key(after, k) {
                    let j = index_of(after, k);
                    assert(before[j].0.model() == k);
                }
            }
            assert(entries_map(after).dom() =~= entries_map(before).dom());
            assert forall|k: K::Model| #[trigger]
                entries_map(before).contains_key(k) implies cloned::<V>(
                entries_map(before)[k],
                entries_map(after)[k],
            ) by {
                let j = index_of(before, k);
                assert(after[j].0.model() == k);
                lemma_entry_in_map(before, j);
                lemma_entry_in_map(after, j);
            }
        }
        AssocMap { entries }
    }
}

impl<K: Key, V> AssocMap<K, V> {
    /// Whether every key of this map is a key of `other`.
    fn keys_within(&self, other: &Self) -> (res: bool)
        ensures
            res == self@.dom().subset_of(other@.dom()),
    {
        proof {
            use_type_invariant(self);
        }
        let mut i: usize = 0;
        while i < self.entries.len()
            invariant
                i <= self.entries@.len(),
                distinct_keys(self.entries@),
                forall|j: int|
                    0 <= j < i ==> other@.contains_key((#[trigger] self.entries@[j]).0.model()),
            decreases self.entries@.len() - i,
        {
            if !other.contains_key(&self.entries[i].0) {
                proof {
                    lemma_entry_in_map(self.entries@, i as int);
                }
                return false;
            }
            i += 1;
        }
        proof {
            assert forall|k: K::Model| self@.dom().contains(k) implies other@.dom().contains(k) by {
                let j = index_of(self.entries@, k);
                assert(self.entries@[j].0.model() == k);
            }
        }
        true
    }
}

impl<K: Key, V: PartialEq> AssocMap<K, V> {
    /// Whether each value of this map is equal to the value that `other`
    /// holds under the same key, where it holds one.
    fn values_match(&self, other: &Self) -> (res: bool)
        ensures
            V::obeys_eq_spec() ==> res == (forall|k: K::Model|
                self@.contains_key(k) && other@.contains_key(k) ==> (#[trigger] self@[k]).eq_spec(
                    &other@[k],
                )),
    {
        proof {
            use_type_invariant(self);
        }
        let mut i: usize = 0;
        while i < self.entries.len()
            invariant
                i <= self.entries@.len(),
                distinct_keys(self.entries@),
                V::obeys_eq_spec() ==> forall|j: int|
                    0 <= j < i && other@.contains_key((#[trigger] self.entries@[j]).0.model())
                        ==> self.entries@[j].1.eq_spec(&other@[self.entries@[j].0.model()]),
            decreases self.entries@.len() - i,
        {
            if let Some(value) = other.get(&self.entries[i].0) {
                if !(self.entries[i].1 == *value) {
                    proof {
                        let k = self.entries@[i as int].0.model();
                        lemma_entry_in_map(self.entries@, i as int);
                        if V::obeys_eq_spec() {
                            assert(!self@[k].eq_spec(&other@[k]));
                        }
                    }
                    return false;
                }
            }
            i += 1;
        }
        proof {
            if V::obeys_eq_spec() {
                assert forall|k: K::Model|
                    self@.contains_key(k) && other@.contains_key(k) implies (
                    #[trigger] self@[k]).eq_spec(&other@[k]) by {
                    let j = index_of(self.entries@, k);
                    assert(self.entries@[j].0.model() == k);
                    lemma_entry_in_map(self.entries@, j);
                }
            }
        }
        true
    }
}

impl<K: Key, V: PartialEq> PartialEq for AssocMap<K, V> {
    /// Two maps are equal when they have the same keys and hold equal values
    /// under each of them.
    fn eq(&self, other: &Self) -> (res: bool) {
        let same_keys = self.keys_within(other) && other.keys_within(self);
        proof {
            if same_keys {
                assert(self@.dom() =~= other@.dom());
            }
        }
        same_keys && self.values_match(other)
    }
}

impl<K: Key, V: PartialEq> PartialEqSpecImpl for AssocMap<K, V> {
    open spec fn obeys_eq_spec() -> bool {
        V::obeys_eq_spec()
    }

    open spec fn eq_spec(&self, other: &Self) -> bool {
        &&& self@.dom() == other@.dom()
        &&& forall|k: K::Model|
            self@.contains_key(k) && other@.contains_key(k) ==> (#[trigger] self@[k]).eq_spec(
                &other@[k],
            )
    }
}

} // verus!
