//! An ordered map from text keys to values, kept as a key-sorted vector.

use vstd::prelude::*;

use crate::text::{lemma_text_lt_order, str_eq, str_less, text_lt};

verus! {

/// Keys in strictly increasing byte order, hence unique.
pub open spec fn keys_sorted<V>(entries: Seq<(Seq<char>, V)>) -> bool {
    forall|i: int, j: int| 0 <= i < j < entries.len() ==> text_lt(#[trigger] entries[i].0, #[trigger] entries[j].0)
}

#[derive(Debug, PartialEq, Eq)]
pub struct TextMap<V> {
    entries: Vec<(String, V)>,
}

impl<V> TextMap<V> {
    /// Entries in increasing key order.
    pub closed spec fn view_entries(&self) -> Seq<(Seq<char>, V)> {
        self.entries@.map_values(|e: (String, V)| (e.0@, e.1))
    }

    #[verifier::type_invariant]
    closed spec fn wf(self) -> bool {
        keys_sorted(self.view_entries())
    }

    pub open spec fn spec_len(&self) -> nat {
        self.view_entries().len()
    }

    pub open spec fn has_key(&self, key: Seq<char>) -> bool {
        exists|i: int| 0 <= i < self.view_entries().len() && #[trigger] self.view_entries()[i].0 == key
    }

    pub fn new() -> (r: Self)
        ensures
            r.view_entries().len() == 0,
    {
        let r = TextMap { entries: Vec::new() };
        assert(r.view_entries() =~= Seq::<(Seq<char>, V)>::empty());
        r
    }

    pub fn len(&self) -> (r: usize)
        ensures
            r == self.view_entries().len(),
    {
        self.entries.len()
    }

    pub fn is_empty(&self) -> (r: bool)
        ensures
            r == (self.view_entries().len() == 0),
    {
        self.entries.len() == 0
    }

    /// The key and value at position `index` of the key order.
    pub fn entry_at(&self, index: usize) -> (r: (&str, &V))
        requires
            index < self.view_entries().len(),
        ensures
            r.0@ == self.view_entries()[index as int].0,
            *r.1 == self.view_entries()[index as int].1,
    {
        let e = &self.entries[index];
        (e.0.as_str(), &e.1)
    }

    /// Position of the first entry whose key is not below `key`.
    fn lower_bound(&self, key: &str) -> (r: usize)
        ensures
            r <= self.view_entries().len(),
            forall|j: int| 0 <= j < r ==> text_lt(#[trigger] self.view_entries()[j].0, key@),
            r < self.view_entries().len() ==> !text_lt(self.view_entries()[r as int].0, key@),
    {
        let mut i: usize = 0;
        while i < self.entries.len()
            invariant
                i <= self.entries@.len(),
                forall|j: int| 0 <= j < i ==> text_lt(#[trigger] self.view_entries()[j].0, key@),
            decreases self.entries.len() - i,
        {
            if !str_less(self.entries[i].0.as_str(), key) {
                return i;
            }
            i = i + 1;
        }
        i
    }

    /// The value stored under `key`, if any.
    pub fn get(&self, key: &str) -> (r: Option<&V>)
        ensures
            r is Some <==> self.has_key(key@),
            r matches Some(v) ==> exists|i: int| 0 <= i < self.view_entries().len()
                && #[trigger] self.view_entries()[i] == (key@, *v),
    {
        proof {
            use_type_invariant(self);
        }
        let i = self.lower_bound(key);
        if i < self.entries.len() && str_eq(self.entries[i].0.as_str(), key) {
            assert(self.view_entries()[i as int] == (key@, self.entries@[i as int].1));
            Some(&self.entries[i].1)
        } else {
            proof {
                if self.has_key(key@) {
                    let k = choose|k: int| 0 <= k < self.view_entries().len() && #[trigger] self.view_entries()[k].0 == key@;
                    lemma_text_lt_order(key@, key@, key@);
                    if k >= i {
                        if k > i {
                            lemma_text_lt_order(self.view_entries()[i as int].0, key@, key@);
                        }
                    }
                }
            }
            None
        }
    }

    pub fn contains_key(&self, key: &str) -> (r: bool)
        ensures
            r == self.has_key(key@),
    {
        self.get(key).is_some()
    }

    /// Stores `value` under `key`, replacing and returning any previous value.
    pub fn insert(&mut self, key: String, value: V) -> (r: Option<V>)
        ensures
            final(self).has_key(key@),
            forall|k: Seq<char>| k != key@ ==> (#[trigger] final(self).has_key(k) <==> old(self).has_key(k)),
            r is Some <==> old(self).has_key(key@),
            final(self).view_entries().len() == old(self).view_entries().len() + (if r is Some { 0int } else { 1int }),
            exists|i: int| 0 <= i < final(self).view_entries().len()
                && #[trigger] final(self).view_entries()[i] == (key@, value),
    {
        proof {
            use_type_invariant(&*self);
        }
        let i = self.lower_bound(key.as_str());
        let ghost before = self.view_entries();
        if i < self.entries.len() && str_eq(self.entries[i].0.as_str(), key.as_str()) {
            let ghost kv = key@;
            let mut entries = Vec::new();
            std::mem::swap(&mut entries, &mut self.entries);
            let old_entry = entries.remove(i);
            entries.insert(i, (key, value));
            proof {
                assert(entries@.map_values(|e: (String, V)| (e.0@, e.1)) =~= before.update(i as int, (kv, value)));
            }
            self.entries = entries;
            proof {
                let after = self.view_entries();
                assert(after =~= before.update(i as int, (kv, value)));
                assert forall|k: Seq<char>| k != kv implies (#[trigger] self.has_key(k) <==> before.contains_pair_key(k)) by {
                    if self.has_key(k) {
                        let j = choose|j: int| 0 <= j < after.len() && #[trigger] after[j].0 == k;
                        assert(before[j].0 == k);
                    }
                    if before.contains_pair_key(k) {
                        let j = choose|j: int| 0 <= j < before.len() && #[trigger] before[j].0 == k;
                        assert(after[j].0 == k);
                    }
                }
                assert(after[i as int] == (kv, value));
                assert(self.view_entries()[i as int].0 == kv);
                assert(self.has_key(kv));
            }
            Some(old_entry.1)
        } else {
            let ghost kv = key@;
            proof {
                if old(self).has_key(kv) {
                    let k = choose|k: int| 0 <= k < before.len() && #[trigger] before[k].0 == kv;
                    lemma_text_lt_order(kv, kv, kv);
                    if k > i {
                        lemma_text_lt_order(before[i as int].0, kv, kv);
                    }
                }
            }
            let mut entries = Vec::new();
            std::mem::swap(&mut entries, &mut self.entries);
            entries.insert(i, (key, value));
            proof {
                let after = entries@.map_values(|e: (String, V)| (e.0@, e.1));
                assert(after =~= before.insert(i as int, (kv, value)));
                assert forall|a: int, b: int| 0 <= a < b < after.len() implies text_lt(#[trigger] after[a].0, #[trigger] after[b].0) by {
                    if i < before.len() {
                        lemma_text_lt_order(kv, before[i as int].0, kv);
                    }
                    if a < i && b == i {
                    } else if a == i && b > i {
                        lemma_text_lt_order(kv, before[i as int].0, before[b - 1].0);
                        if b - 1 > i {
                            assert(text_lt(before[i as int].0, before[b - 1].0));
                        }
                    } else if a < i && b > i {
                        assert(text_lt(before[a].0, kv));
                        lemma_text_lt_order(before[a].0, kv, before[b - 1].0);
                        lemma_text_lt_order(kv, before[i as int].0, before[b - 1].0);
                        if b - 1 > i {
                            assert(text_lt(before[i as int].0, before[b - 1].0));
                        }
                    }
                }
            }
            self.entries = entries;
            proof {
                let after = self.view_entries();
                assert(after =~= before.insert(i as int, (kv, value)));
                assert forall|a: int, b: int| 0 <= a < b < after.len() implies text_lt(#[trigger] after[a].0, #[trigger] after[b].0) by {
                    if i < before.len() {
                        lemma_text_lt_order(kv, before[i as int].0, kv);
                    }
                    if a < i && b == i {
                    } else if a == i && b > i {
                        lemma_text_lt_order(kv, before[i as int].0, before[b - 1].0);
                        if b - 1 > i {
                            assert(text_lt(before[i as int].0, before[b - 1].0));
                        }
                    } else if a < i && b > i {
                        assert(text_lt(before[a].0, kv));
                        lemma_text_lt_order(before[a].0, kv, before[b - 1].0);
                        lemma_text_lt_order(kv, before[i as int].0, before[b - 1].0);
                        if b - 1 > i {
                            assert(text_lt(before[i as int].0, before[b - 1].0));
                        }
                    }
                }
                assert forall|k: Seq<char>| k != kv implies (#[trigger] self.has_key(k) <==> before.contains_pair_key(k)) by {
                    if self.has_key(k) {
                        let j = choose|j: int| 0 <= j < after.len() && #[trigger] after[j].0 == k;
                        if j < i {
                            assert(before[j].0 == k);
                        } else {
                            assert(before[j - 1].0 == k);
                        }
                    }
                    if before.contains_pair_key(k) {
                        let j = choose|j: int| 0 <= j < before.len() && #[trigger] before[j].0 == k;
                        if j < i {
                            assert(after[j].0 == k);
                        } else {
                            assert(after[j + 1].0 == k);
                        }
                    }
                }
                assert(after[i as int] == (kv, value));
                assert(self.view_entries()[i as int].0 == kv);
                assert(self.has_key(kv));
            }
            None
        }
    }

    /// Removes the entry stored under `key`, returning its value.
    pub fn remove(&mut self, key: &str) -> (r: Option<V>)
        ensures
            !final(self).has_key(key@),
            forall|k: Seq<char>| k != key@ ==> (#[trigger] final(self).has_key(k) <==> old(self).has_key(k)),
            r is Some <==> old(self).has_key(key@),
            final(self).view_entries().len() == old(self).view_entries().len() - (if r is Some { 1int } else { 0int }),
    {
        proof {
            use_type_invariant(&*self);
        }
        let i = self.lower_bound(key);
        let ghost before = self.view_entries();
        proof {
            lemma_text_lt_order(key@, key@, key@);
        }
        if i < self.entries.len() && str_eq(self.entries[i].0.as_str(), key) {
            let mut entries = Vec::new();
            std::mem::swap(&mut entries, &mut self.entries);
            let removed = entries.remove(i);
            proof {
                let after = entries@.map_values(|e: (String, V)| (e.0@, e.1));
                assert(after =~= before.remove(i as int));
                assert forall|a: int, b: int| 0 <= a < b < after.len() implies text_lt(#[trigger] after[a].0, #[trigger] after[b].0) by {
                    let a0 = if a < i { a } else { a + 1 };
                    let b0 = if b < i { b } else { b + 1 };
                    assert(before[a0].0 == after[a].0);
                    assert(before[b0].0 == after[b].0);
                }
            }
            self.entries = entries;
            proof {
                let after = self.view_entries();
                assert(after =~= before.remove(i as int));
                assert forall|a: int, b: int| 0 <= a < b < after.len() implies text_lt(#[trigger] after[a].0, #[trigger] after[b].0) by {
                    let a0 = if a < i { a } else { a + 1 };
                    let b0 = if b < i { b } else { b + 1 };
                    assert(before[a0].0 == after[a].0);
                    assert(before[b0].0 == after[b].0);
                }
                assert forall|k: Seq<char>| k != key@ implies (#[trigger] self.has_key(k) <==> before.contains_pair_key(k)) by {
                    if self.has_key(k) {
                        let j = choose|j: int| 0 <= j < after.len() && #[trigger] after[j].0 == k;
                        if j < i {
                            assert(before[j].0 == k);
                        } else {
                            assert(before[j + 1].0 == k);
                        }
                    }
                    if before.contains_pair_key(k) {
                        let j = choose|j: int| 0 <= j < before.len() && #[trigger] before[j].0 == k;
                        if j < i {
                            assert(after[j].0 == k);
                        } else if j > i {
                            assert(after[j - 1].0 == k);
                        }
                    }
                }
                if self.has_key(key@) {
                    let j = choose|j: int| 0 <= j < after.len() && #[trigger] after[j].0 == key@;
                    if j < i {
                        assert(text_lt(before[j].0, before[i as int].0));
                    } else {
                        assert(text_lt(before[i as int].0, before[j + 1].0));
                    }
                }
            }
            Some(removed.1)
        } else {
            proof {
                if before.contains_pair_key(key@) {
                    let k = choose|k: int| 0 <= k < before.len() && #[trigger] before[k].0 == key@;
                    if k > i {
                        lemma_text_lt_order(before[i as int].0, key@, key@);
                    }
                }
            }
            None
        }
    }
}

impl<V: Clone> Clone for TextMap<V> {
    fn clone(&self) -> (r: Self)
        ensures
            r.view_entries().len() == self.view_entries().len(),
            forall|i: int| 0 <= i < r.view_entries().len() ==> (#[trigger] r.view_entries()[i]).0 == self.view_entries()[i].0,
    {
        proof {
            use_type_invariant(self);
        }
        let mut entries: Vec<(String, V)> = Vec::new();
        let mut i: usize = 0;
        while i < self.entries.len()
            invariant
                i <= self.entries@.len(),
                entries@.len() == i,
                keys_sorted(self.view_entries()),
                forall|j: int| 0 <= j < i ==> (#[trigger] entries@[j]).0@ == self.entries@[j].0@,
            decreases self.entries.len() - i,
        {
            let key = self.entries[i].0.clone();
            let value = self.entries[i].1.clone();
            entries.push((key, value));
            i = i + 1;
        }
        proof {
            let v = entries@.map_values(|e: (String, V)| (e.0@, e.1));
            assert forall|a: int, b: int| 0 <= a < b < v.len() implies text_lt(#[trigger] v[a].0, #[trigger] v[b].0) by {
                assert(v[a].0 == self.view_entries()[a].0);
                assert(v[b].0 == self.view_entries()[b].0);
            }
        }
        let r = TextMap { entries };
        r
    }
}

/// Whether some entry of the sequence carries `key`.
pub open spec fn contains_pair_key_spec<V>(entries: Seq<(Seq<char>, V)>, key: Seq<char>) -> bool {
    exists|i: int| 0 <= i < entries.len() && #[trigger] entries[i].0 == key
}

pub trait EntriesKeyLookup<V> {
    spec fn contains_pair_key(self, key: Seq<char>) -> bool;
}

impl<V> EntriesKeyLookup<V> for Seq<(Seq<char>, V)> {
    open spec fn contains_pair_key(self, key: Seq<char>) -> bool {
        contains_pair_key_spec(self, key)
    }
}

} // verus!
