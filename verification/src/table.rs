//! A small keyed table: the typed storage slots that a contract keeps under
//! one family of keys (for instance every `TrancheSet(id)` entry).
//!
//! The table is a list of `(key, value)` pairs whose keys are pairwise
//! distinct (by their views); its view is the finite map from key views to
//! values.
use vstd::prelude::*;

verus! {

/// A key that can be compared with another key of the same type.
pub trait TableKey: View + Sized {
    fn same_key(&self, other: &Self) -> (r: bool)
        ensures
            r == (self@ == other@),
    ;
}

impl TableKey for String {
    fn same_key(&self, other: &Self) -> (r: bool) {
        *self == *other
    }
}

impl<A: TableKey, B: TableKey> TableKey for (A, B) {
    fn same_key(&self, other: &Self) -> (r: bool) {
        let a = self.0.same_key(&other.0);
        let b = self.1.same_key(&other.1);
        a && b
    }
}

/// A finite map held as a list of entries with distinct keys.
pub struct Table<K: TableKey, V> {
    entries: Vec<(K, V)>,
}

/// Whether `key` occurs at some position of `entries`.
pub open spec fn has_key_at<K: View, V>(entries: Seq<(K, V)>, key: K::V) -> bool {
    exists|i: int| 0 <= i < entries.len() && (#[trigger] entries[i]).0@ == key
}

/// The position of `key` in `entries` (meaningful when `has_key_at` holds).
pub open spec fn key_index<K: View, V>(entries: Seq<(K, V)>, key: K::V) -> int {
    choose|i: int| 0 <= i < entries.len() && (#[trigger] entries[i]).0@ == key
}

/// No two entries share a key.
pub open spec fn distinct_keys<K: View, V>(entries: Seq<(K, V)>) -> bool {
    forall|i: int, j: int|
        0 <= i < entries.len() && 0 <= j < entries.len() && i != j ==> (#[trigger] entries[i]).0@
            != (#[trigger] entries[j]).0@
}

/// The map that a list of entries with distinct keys stands for.
pub open spec fn entries_map<K: View, V>(entries: Seq<(K, V)>) -> Map<K::V, V> {
    Map::new(|k: K::V| has_key_at(entries, k), |k: K::V| entries[key_index(entries, k)].1)
}

proof fn lemma_index_unique<K: View, V>(entries: Seq<(K, V)>, i: int)
    requires
        distinct_keys(entries),
        0 <= i < entries.len(),
    ensures
        has_key_at(entries, entries[i].0@),
        key_index(entries, entries[i].0@) == i,
        entries_map(entries).contains_key(entries[i].0@),
        entries_map(entries)[entries[i].0@] == entries[i].1,
{
    let k = entries[i].0@;
    assert(has_key_at(entries, k));
    let j = key_index(entries, k);
    assert(entries[j].0@ == k);
}

impl<K: TableKey, V> View for Table<K, V> {
    type V = Map<K::V, V>;

    closed spec fn view(&self) -> Map<K::V, V> {
        entries_map(self.entries@)
    }
}

impl<K: TableKey, V> Table<K, V> {
    #[verifier::type_invariant]
    closed spec fn keys_distinct(&self) -> bool {
        distinct_keys(self.entries@)
    }

    /// An empty table.
    pub fn new() -> (t: Self)
        ensures
            t@ == Map::<K::V, V>::empty(),
    {
        let t = Table { entries: Vec::new() };
        assert(t@ =~= Map::<K::V, V>::empty());
        t
    }

    fn find(&self, key: &K) -> (r: Option<usize>)
        ensures
            match r {
                Some(i) => i < self.entries@.len() && self.entries@[i as int].0@ == key@,
                None => !has_key_at(self.entries@, key@),
            },
    {
        let mut i: usize = 0;
        while i < self.entries.len()
            invariant
                i <= self.entries@.len(),
                forall|j: int| 0 <= j < i ==> (#[trigger] self.entries@[j]).0@ != key@,
            decreases self.entries@.len() - i,
        {
            if self.entries[i].0.same_key(key) {
                return Some(i);
            }
            i = i + 1;
        }
        None
    }

    /// Whether `key` has an entry.
    pub fn contains_key(&self, key: &K) -> (r: bool)
        ensures
            r == self@.contains_key(key@),
    {
        match self.find(key) {
            Some(i) => {
                proof {
                    assert(has_key_at(self.entries@, key@));
                }
                true
            },
            None => false,
        }
    }

    /// The value stored under `key`, if any.
    pub fn get(&self, key: &K) -> (r: Option<&V>)
        ensures
            match r {
                Some(v) => self@.contains_key(key@) && *v == self@[key@],
                None => !self@.contains_key(key@),
            },
    {
        proof {
            use_type_invariant(self);
        }
        match self.find(key) {
            Some(i) => {
                proof {
                    lemma_index_unique(self.entries@, i as int);
                }
                Some(&self.entries[i].1)
            },
            None => None,
        }
    }

    /// Stores `value` under `key`, replacing any earlier value.
    pub fn insert(&mut self, key: K, value: V)
        ensures
            final(self)@ == old(self)@.insert(key@, value),
    {
        proof {
            use_type_invariant(&*self);
        }
        let ghost old_entries = self.entries@;
        let ghost k = key@;
        match self.find(&key) {
            Some(i) => {
                let mut entries: Vec<(K, V)> = Vec::new();
                std::mem::swap(&mut entries, &mut self.entries);
                entries.set(i, (key, value));
                proof {
                    let new_entries = entries@;
                    assert(new_entries == old_entries.update(i as int, (key, value)));
                    assert forall|a: int, b: int|
                        0 <= a < new_entries.len() && 0 <= b < new_entries.len() && a != b
                            implies (#[trigger] new_entries[a]).0@ != (#[trigger] new_entries[b]).0@ by {
                        assert(old_entries[a].0@ != old_entries[b].0@);
                    }
                    assert(distinct_keys(new_entries));
                    lemma_index_unique(new_entries, i as int);
                    assert forall|q: K::V| #[trigger]
                        entries_map(old_entries).insert(k, value).contains_key(q)
                            == entries_map(new_entries).contains_key(q) by {
                        if q == k {
                            lemma_index_unique(old_entries, i as int);
                        } else {
                            if has_key_at(old_entries, q) {
                                let j = key_index(old_entries, q);
                                assert(new_entries[j].0@ == q);
                            }
                            if has_key_at(new_entries, q) {
                                let j = key_index(new_entries, q);
                                assert(old_entries[j].0@ == q);
                            }
                        }
                    }
                    assert forall|q: K::V| entries_map(new_entries).contains_key(q)
                        implies #[trigger] entries_map(new_entries)[q]
                            == entries_map(old_entries).insert(k, value)[q] by {
                        if q != k {
                            let j = key_index(new_entries, q);
                            assert(old_entries[j].0@ == q);
                            lemma_index_unique(old_entries, j);
                            lemma_index_unique(new_entries, j);
                        }
                    }
                    assert(entries_map(new_entries) =~= entries_map(old_entries).insert(k, value));
                }
                self.entries = entries;
            },
            None => {
                let mut entries: Vec<(K, V)> = Vec::new();
                std::mem::swap(&mut entries, &mut self.entries);
                entries.push((key, value));
                proof {
                    let new_entries = entries@;
                    let n = old_entries.len() as int;
                    assert(new_entries == old_entries.push((key, value)));
                    assert forall|a: int, b: int|
                        0 <= a < new_entries.len() && 0 <= b < new_entries.len() && a != b
                            implies (#[trigger] new_entries[a]).0@ != (#[trigger] new_entries[b]).0@ by {
                        if a < n && b < n {
                            assert(old_entries[a].0@ != old_entries[b].0@);
                        } else if a == n {
                            assert(new_entries[b] == old_entries[b]);
                        } else {
                            assert(new_entries[a] == old_entries[a]);
                        }
                    }
                    assert(distinct_keys(new_entries));
                    lemma_index_unique(new_entries, n);
                    assert forall|q: K::V| #[trigger]
                        entries_map(old_entries).insert(k, value).contains_key(q)
                            == entries_map(new_entries).contains_key(q) by {
                        if q != k {
                            if has_key_at(old_entries, q) {
                                let j = key_index(old_entries, q);
                                assert(new_entries[j] == old_entries[j]);
                            }
                            if has_key_at(new_entries, q) {
                                let j = key_index(new_entries, q);
                                assert(j != n);
                                assert(old_entries[j] == new_entries[j]);
                            }
                        }
                    }
                    assert forall|q: K::V| entries_map(new_entries).contains_key(q)
                        implies #[trigger] entries_map(new_entries)[q]
                            == entries_map(old_entries).insert(k, value)[q] by {
                        if q != k {
                            let j = key_index(new_entries, q);
                            assert(j != n);
                            assert(old_entries[j] == new_entries[j]);
                            lemma_index_unique(old_entries, j);
                            lemma_index_unique(new_entries, j);
                        }
                    }
                    assert(entries_map(new_entries) =~= entries_map(old_entries).insert(k, value));
                }
                self.entries = entries;
            },
        }
    }

    /// Drops the entry under `key`, if there is one.
    pub fn remove(&mut self, key: &K)
        ensures
            final(self)@ == old(self)@.remove(key@),
    {
        proof {
            use_type_invariant(&*self);
        }
        let ghost old_entries = self.entries@;
        let ghost k = key@;
        match self.find(key) {
            Some(i) => {
                let mut entries: Vec<(K, V)> = Vec::new();
                std::mem::swap(&mut entries, &mut self.entries);
                let _ = entries.remove(i);
                proof {
                    let new_entries = entries@;
                    let ii = i as int;
                    assert(new_entries == old_entries.remove(ii));
                    assert forall|a: int, b: int|
                        0 <= a < new_entries.len() && 0 <= b < new_entries.len() && a != b
                            implies (#[trigger] new_entries[a]).0@ != (#[trigger] new_entries[b]).0@ by {
                        let oa = if a < ii { a } else { a + 1 };
                        let ob = if b < ii { b } else { b + 1 };
                        assert(new_entries[a] == old_entries[oa]);
                        assert(new_entries[b] == old_entries[ob]);
                        assert(old_entries[oa].0@ != old_entries[ob].0@);
                    }
                    assert(distinct_keys(new_entries));
                    assert forall|q: K::V| #[trigger]
                        entries_map(old_entries).remove(k).contains_key(q)
                            == entries_map(new_entries).contains_key(q) by {
                        if has_key_at(new_entries, q) {
                            let j = key_index(new_entries, q);
                            let oj = if j < ii { j } else { j + 1 };
                            assert(new_entries[j] == old_entries[oj]);
                            assert(old_entries[oj].0@ == q);
                            lemma_index_unique(old_entries, ii);
                            assert(q != k);
                        }
                        if q != k && has_key_at(old_entries, q) {
                            let j = key_index(old_entries, q);
                            assert(j != ii);
                            let nj = if j < ii { j } else { j - 1 };
                            assert(new_entries[nj] == old_entries[j]);
                        }
                    }
                    assert forall|q: K::V| entries_map(new_entries).contains_key(q)
                        implies #[trigger] entries_map(new_entries)[q]
                            == entries_map(old_entries).remove(k)[q] by {
                        let j = key_index(new_entries, q);
                        let oj = if j < ii { j } else { j + 1 };
                        assert(new_entries[j] == old_entries[oj]);
                        lemma_index_unique(old_entries, oj);
                        lemma_index_unique(new_entries, j);
                    }
                    assert(entries_map(new_entries) =~= entries_map(old_entries).remove(k));
                }
                self.entries = entries;
            },
            None => {
                proof {
                    assert(entries_map(old_entries) =~= entries_map(old_entries).remove(k));
                }
            },
        }
    }
}

} // verus!
