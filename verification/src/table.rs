//! A small keyed store: an association list with distinct keys, viewed as a
//! finite `Map` from key views to values.  Every contract keeps its records
//! (batches, listings, projects, proposals, ...) in one of these.

use vstd::prelude::*;

verus! {

/// Keys that can be compared for equality of their views.
pub trait TableKey: View + Sized {
    fn same_key(&self, other: &Self) -> (r: bool)
        ensures
            r == (self@ == other@),
    ;
}

impl TableKey for String {
    fn same_key(&self, other: &Self) -> (r: bool) {
        *self == *other
    }
}

impl TableKey for (String, u32) {
    fn same_key(&self, other: &Self) -> (r: bool) {
        self.0 == other.0 && self.1 == other.1
    }
}

impl TableKey for (String, String) {
    fn same_key(&self, other: &Self) -> (r: bool) {
        self.0 == other.0 && self.1 == other.1
    }
}

/// One record of a table.
pub struct Entry<K, V> {
    pub key: K,
    pub val: V,
}

/// An association list whose keys are pairwise distinct.
#[verifier::reject_recursive_types(K)]
pub struct Table<K, V> {
    entries: Vec<Entry<K, V>>,
}

impl<K: TableKey, V> Table<K, V> {
    /// The keys of the entries, in storage order.
    pub closed spec fn key_seq(&self) -> Seq<K::V> {
        self.entries@.map_values(|e: Entry<K, V>| e.key@)
    }

    /// No key occurs twice.
    pub closed spec fn wf(&self) -> bool {
        forall|i: int, j: int|
            0 <= i < self.entries@.len() && 0 <= j < self.entries@.len() && i != j
                ==> #[trigger] self.entries@[i].key@ != #[trigger] self.entries@[j].key@
    }

    pub closed spec fn has_at(&self, k: K::V, i: int) -> bool {
        0 <= i < self.entries@.len() && self.entries@[i].key@ == k
    }

    /// The stored map: each key maps to the value stored beside it.
    pub closed spec fn view(&self) -> Map<K::V, V> {
        Map::new(
            |k: K::V| exists|i: int| self.has_at(k, i),
            |k: K::V| self.entries@[choose|i: int| self.has_at(k, i)].val,
        )
    }

    /// Number of stored records.
    pub closed spec fn size(&self) -> nat {
        self.entries@.len()
    }

    /// The values in storage order.
    pub closed spec fn values(&self) -> Seq<V> {
        self.entries@.map_values(|e: Entry<K, V>| e.val)
    }

    proof fn lemma_index(&self, i: int)
        requires
            self.wf(),
            0 <= i < self.entries@.len(),
        ensures
            self.view().dom().contains(self.entries@[i].key@),
            self.view()[self.entries@[i].key@] == self.entries@[i].val,
    {
        let k = self.entries@[i].key@;
        assert(self.has_at(k, i));
        let j = choose|j: int| self.has_at(k, j);
        assert(self.has_at(k, j));
        assert(i == j);
    }

    proof fn lemma_finite(&self)
        ensures
            self.view().dom().finite(),
            self.view().dom().len() <= self.entries@.len(),
        decreases self.entries@.len(),
    {
        let ks = self.entries@.map_values(|e: Entry<K, V>| e.key@);
        let s = ks.to_set();
        assert(self.view().dom() =~= s) by {
            assert forall|k: K::V| self.view().dom().contains(k) implies s.contains(k) by {
                let i = choose|i: int| self.has_at(k, i);
                assert(ks[i] == k);
            }
            assert forall|k: K::V| s.contains(k) implies self.view().dom().contains(k) by {
                let i = choose|i: int| 0 <= i < ks.len() && ks[i] == k;
                assert(self.has_at(k, i));
            }
        }
        ks.lemma_cardinality_of_set();
    }

    /// The empty table.
    pub fn new() -> (t: Self)
        ensures
            t.wf(),
            t@ == Map::<K::V, V>::empty(),
            t.size() == 0,
    {
        let t = Table { entries: Vec::new() };
        assert(t@ =~= Map::<K::V, V>::empty());
        t
    }

    /// Number of stored records.
    pub fn len(&self) -> (n: usize)
        requires
            self.wf(),
        ensures
            n == self.size(),
            n == self@.dom().len(),
    {
        proof {
            self.lemma_finite();
            self.lemma_len_eq();
        }
        self.entries.len()
    }

    proof fn lemma_len_eq(&self)
        requires
            self.wf(),
        ensures
            self.view().dom().len() == self.entries@.len(),
        decreases self.entries@.len(),
    {
        let ks = self.entries@.map_values(|e: Entry<K, V>| e.key@);
        assert(ks.no_duplicates()) by {
            assert forall|i: int, j: int| 0 <= i < ks.len() && 0 <= j < ks.len() && i != j
                implies ks[i] != ks[j] by {
                assert(ks[i] == self.entries@[i].key@);
                assert(ks[j] == self.entries@[j].key@);
            }
        }
        let s = ks.to_set();
        assert(self.view().dom() =~= s) by {
            assert forall|k: K::V| self.view().dom().contains(k) implies s.contains(k) by {
                let i = choose|i: int| self.has_at(k, i);
                assert(ks[i] == k);
            }
            assert forall|k: K::V| s.contains(k) implies self.view().dom().contains(k) by {
                let i = choose|i: int| 0 <= i < ks.len() && ks[i] == k;
                assert(self.has_at(k, i));
            }
        }
        ks.unique_seq_to_set();
    }

    /// Position of `k`, if stored.
    fn find(&self, k: &K) -> (r: Option<usize>)
        requires
            self.wf(),
        ensures
            match r {
                Some(i) => i < self.entries@.len() && self.entries@[i as int].key@ == k@
                    && self@.dom().contains(k@) && self@[k@] == self.entries@[i as int].val,
                None => !self@.dom().contains(k@),
            },
    {
        let mut i: usize = 0;
        while i < self.entries.len()
            invariant
                self.wf(),
                i <= self.entries@.len(),
                forall|j: int| 0 <= j < i ==> self.entries@[j].key@ != k@,
            decreases self.entries@.len() - i,
        {
            if self.entries[i].key.same_key(k) {
                proof {
                    self.lemma_index(i as int);
                }
                return Some(i);
            }
            i = i + 1;
        }
        proof {
            if self@.dom().contains(k@) {
                let j = choose|j: int| self.has_at(k@, j);
                assert(self.entries@[j].key@ != k@);
            }
        }
        None
    }

    /// Whether `k` is stored.
    pub fn contains(&self, k: &K) -> (b: bool)
        requires
            self.wf(),
        ensures
            b == self@.dom().contains(k@),
    {
        self.find(k).is_some()
    }

    /// The value stored under `k`, if any.
    pub fn get(&self, k: &K) -> (r: Option<&V>)
        requires
            self.wf(),
        ensures
            match r {
                Some(v) => self@.dom().contains(k@) && *v == self@[k@],
                None => !self@.dom().contains(k@),
            },
    {
        match self.find(k) {
            Some(i) => Some(&self.entries[i].val),
            None => None,
        }
    }

    /// Store `v` under `k`, replacing any earlier value.  A new key goes last.
    pub fn insert(&mut self, k: K, v: V)
        requires
            old(self).wf(),
        ensures
            final(self).wf(),
            final(self)@ == old(self)@.insert(k@, v),
            old(self)@.dom().contains(k@) ==> final(self).size() == old(self).size(),
            !old(self)@.dom().contains(k@) ==> final(self).size() == old(self).size() + 1,
    {
        let ghost kv = k@;
        let ghost old_t = *self;
        match self.find(&k) {
            Some(i) => {
                self.entries.set(i, Entry { key: k, val: v });
                proof {
                    assert(self.wf()) by {
                        assert forall|a: int, b: int|
                            0 <= a < self.entries@.len() && 0 <= b < self.entries@.len() && a != b
                            implies #[trigger] self.entries@[a].key@ != #[trigger] self.entries@[b].key@ by {
                            if a != i && b != i {
                                assert(old_t.entries@[a] == self.entries@[a]);
                                assert(old_t.entries@[b] == self.entries@[b]);
                            } else if a == i {
                                assert(old_t.entries@[b] == self.entries@[b]);
                            } else {
                                assert(old_t.entries@[a] == self.entries@[a]);
                            }
                        }
                    }
                    self.lemma_view_after_set(old_t, i as int);
                }
            },
            None => {
                self.entries.push(Entry { key: k, val: v });
                proof {
                    let n = old_t.entries@.len() as int;
                    assert(self.wf()) by {
                        assert forall|a: int, b: int|
                            0 <= a < self.entries@.len() && 0 <= b < self.entries@.len() && a != b
                            implies #[trigger] self.entries@[a].key@ != #[trigger] self.entries@[b].key@ by {
                            if a < n && b < n {
                                assert(old_t.entries@[a] == self.entries@[a]);
                                assert(old_t.entries@[b] == self.entries@[b]);
                            } else if a == n {
                                assert(old_t.entries@[b] == self.entries@[b]);
                                assert(old_t.has_at(old_t.entries@[b].key@, b));
                            } else {
                                assert(old_t.entries@[a] == self.entries@[a]);
                                assert(old_t.has_at(old_t.entries@[a].key@, a));
                            }
                        }
                    }
                    self.lemma_view_after_push(old_t);
                }
            },
        }
    }

    proof fn lemma_view_after_set(&self, old_t: Self, i: int)
        requires
            old_t.wf(),
            self.wf(),
            0 <= i < old_t.entries@.len(),
            self.entries@ == old_t.entries@.update(i, self.entries@[i]),
            self.entries@[i].key@ == old_t.entries@[i].key@,
        ensures
            self@ == old_t@.insert(self.entries@[i].key@, self.entries@[i].val),
    {
        let k = self.entries@[i].key@;
        let m = old_t@.insert(k, self.entries@[i].val);
        assert forall|x: K::V| self@.dom().contains(x) <==> m.dom().contains(x) by {
            if self@.dom().contains(x) {
                let j = choose|j: int| self.has_at(x, j);
                if j != i {
                    assert(old_t.has_at(x, j));
                }
            }
            if m.dom().contains(x) && x != k {
                let j = choose|j: int| old_t.has_at(x, j);
                assert(self.has_at(x, j));
            }
            if x == k {
                assert(self.has_at(x, i));
            }
        }
        assert forall|x: K::V| #[trigger] self@.dom().contains(x) implies self@[x] == m[x] by {
            let j = choose|j: int| self.has_at(x, j);
            self.lemma_index(j);
            if j != i {
                old_t.lemma_index(j);
            }
        }
        assert(self@ =~= m);
    }

    proof fn lemma_view_after_push(&self, old_t: Self)
        requires
            old_t.wf(),
            self.wf(),
            self.entries@ == old_t.entries@.push(self.entries@.last()),
            !old_t@.dom().contains(self.entries@.last().key@),
        ensures
            self@ == old_t@.insert(self.entries@.last().key@, self.entries@.last().val),
    {
        let n = old_t.entries@.len() as int;
        let k = self.entries@[n].key@;
        let m = old_t@.insert(k, self.entries@[n].val);
        assert forall|x: K::V| self@.dom().contains(x) <==> m.dom().contains(x) by {
            if self@.dom().contains(x) {
                let j = choose|j: int| self.has_at(x, j);
                if j != n {
                    assert(old_t.has_at(x, j));
                }
            }
            if m.dom().contains(x) && x != k {
                let j = choose|j: int| old_t.has_at(x, j);
                assert(self.has_at(x, j));
            }
            if x == k {
                assert(self.has_at(x, n));
            }
        }
        assert forall|x: K::V| #[trigger] self@.dom().contains(x) implies self@[x] == m[x] by {
            let j = choose|j: int| self.has_at(x, j);
            self.lemma_index(j);
            if j != n {
                old_t.lemma_index(j);
            }
        }
        assert(self@ =~= m);
    }

    /// Remove the record stored under `k`, giving back its value.
    pub fn remove(&mut self, k: &K) -> (r: Option<V>)
        requires
            old(self).wf(),
        ensures
            final(self).wf(),
            final(self)@ == old(self)@.remove(k@),
            match r {
                Some(v) => old(self)@.dom().contains(k@) && v == old(self)@[k@]
                    && final(self).size() + 1 == old(self).size(),
                None => !old(self)@.dom().contains(k@) && final(self)@ == old(self)@
                    && final(self).size() == old(self).size(),
            },
    {
        let ghost old_t = *self;
        match self.find(k) {
            Some(i) => {
                let e = self.entries.remove(i);
                proof {
                    let n = old_t.entries@.len() as int;
                    assert forall|a: int| 0 <= a < self.entries@.len() implies
                        #[trigger] self.entries@[a] == old_t.entries@[if a < i { a } else { a + 1 }] by {}
                    assert(self.wf()) by {
                        assert forall|a: int, b: int|
                            0 <= a < self.entries@.len() && 0 <= b < self.entries@.len() && a != b
                            implies #[trigger] self.entries@[a].key@ != #[trigger] self.entries@[b].key@ by {
                            let a2 = if a < i { a } else { a + 1 };
                            let b2 = if b < i { b } else { b + 1 };
                            assert(self.entries@[a] == old_t.entries@[a2]);
                            assert(self.entries@[b] == old_t.entries@[b2]);
                        }
                    }
                    let m = old_t@.remove(k@);
                    assert forall|x: K::V| self@.dom().contains(x) <==> m.dom().contains(x) by {
                        if self@.dom().contains(x) {
                            let j = choose|j: int| self.has_at(x, j);
                            let j2 = if j < i { j } else { j + 1 };
                            assert(self.entries@[j] == old_t.entries@[j2]);
                            assert(old_t.has_at(x, j2));
                            assert(j2 != i);
                        }
                        if m.dom().contains(x) {
                            let j = choose|j: int| old_t.has_at(x, j);
                            assert(j != i);
                            let j1 = if j < i { j } else { j - 1 };
                            assert(self.entries@[j1] == old_t.entries@[j]);
                            assert(self.has_at(x, j1));
                        }
                    }
                    assert forall|x: K::V| #[trigger] self@.dom().contains(x) implies self@[x] == m[x] by {
                        let j = choose|j: int| self.has_at(x, j);
                        self.lemma_index(j);
                        let j2 = if j < i { j } else { j + 1 };
                        assert(self.entries@[j] == old_t.entries@[j2]);
                        old_t.lemma_index(j2);
                    }
                    assert(self@ =~= m);
                }
                Some(e.val)
            },
            None => {
                proof {
                    assert(old_t@.remove(k@) =~= old_t@);
                }
                None
            },
        }
    }
}

} // verus!
