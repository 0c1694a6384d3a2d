//! The index of serial-number ranges issued by the credit contract.
//!
//! Ranges are inclusive `[start, end]`.  The live index keeps them sorted by
//! start and pairwise disjoint, so a candidate range is checked against its
//! neighbour by binary search.  Ranges recorded by earlier versions of the
//! contract sit in a legacy list until an admin migrates them into the index.

use vstd::prelude::*;

verus! {

/// An inclusive range of serial numbers.
#[derive(Debug, Clone)]
pub struct SerialRange {
    pub start: u64,
    pub end: u64,
}

/// The ranges `[start, end]` and `r` share at least one serial number.
pub open spec fn meets(start: u64, end: u64, r: SerialRange) -> bool {
    start <= r.end && end >= r.start
}

/// No range of `s` shares a serial number with `[start, end]`.
pub open spec fn clear_of(s: Seq<SerialRange>, start: u64, end: u64) -> bool {
    forall|i: int| 0 <= i < s.len() ==> !meets(start, end, #[trigger] s[i])
}

/// `clear_of` depends only on which ranges occur.
pub proof fn lemma_clear_of_set(s: Seq<SerialRange>, start: u64, end: u64)
    ensures
        clear_of(s, start, end) == (forall|r: SerialRange| #[trigger] s.to_set().contains(r) ==> !meets(start, end, r)),
{
    if clear_of(s, start, end) {
        assert forall|r: SerialRange| #[trigger] s.to_set().contains(r) implies !meets(start, end, r) by {
            let k = choose|k: int| 0 <= k < s.len() && s[k] == r;
        }
    }
    if forall|r: SerialRange| #[trigger] s.to_set().contains(r) ==> !meets(start, end, r) {
        assert forall|i: int| 0 <= i < s.len() implies !meets(start, end, #[trigger] s[i]) by {
            assert(s.to_set().contains(s[i]));
        }
    }
}

/// Every range is non-empty, and the ranges are strictly increasing and disjoint.
pub open spec fn sorted_disjoint(s: Seq<SerialRange>) -> bool {
    &&& forall|i: int| 0 <= i < s.len() ==> (#[trigger] s[i]).start <= s[i].end
    &&& forall|i: int, j: int| 0 <= i < j < s.len() ==> (#[trigger] s[i]).end < (#[trigger] s[j]).start
}

/// Every range is non-empty and no two ranges share a serial number.
pub open spec fn pairwise_disjoint(s: Seq<SerialRange>) -> bool {
    &&& forall|i: int| 0 <= i < s.len() ==> (#[trigger] s[i]).start <= s[i].end
    &&& forall|i: int, j: int|
        0 <= i < s.len() && 0 <= j < s.len() && i != j ==> !meets(
            (#[trigger] s[i]).start,
            s[i].end,
            #[trigger] s[j],
        )
}

/// The issued ranges: the live index and the legacy list.
pub struct SerialIndex {
    nodes: Vec<SerialRange>,
    legacy: Vec<SerialRange>,
}

impl SerialIndex {
    /// Ranges in the live index, by increasing start.
    pub closed spec fn nodes(&self) -> Seq<SerialRange> {
        self.nodes@
    }

    /// Ranges still awaiting migration.
    pub closed spec fn legacy(&self) -> Seq<SerialRange> {
        self.legacy@
    }

    /// All issued ranges.
    pub open spec fn all(&self) -> Seq<SerialRange> {
        self.nodes() + self.legacy()
    }

    /// The live index is sorted and disjoint, and no issued range meets another.
    pub open spec fn wf(&self) -> bool {
        &&& sorted_disjoint(self.nodes())
        &&& pairwise_disjoint(self.all())
    }

    /// An empty index.
    pub fn new() -> (r: Self)
        ensures
            r.wf(),
            r.nodes() == Seq::<SerialRange>::empty(),
            r.legacy() == Seq::<SerialRange>::empty(),
    {
        let r = SerialIndex { nodes: Vec::new(), legacy: Vec::new() };
        assert(r.all() =~= Seq::<SerialRange>::empty());
        r
    }

    /// An index that still holds ranges issued by an earlier contract version.
    pub fn with_legacy(legacy: Vec<SerialRange>) -> (r: Self)
        requires
            pairwise_disjoint(legacy@),
        ensures
            r.wf(),
            r.nodes() == Seq::<SerialRange>::empty(),
            r.legacy() == legacy@,
    {
        let r = SerialIndex { nodes: Vec::new(), legacy };
        assert(r.all() =~= legacy@);
        r
    }

    /// Position of the first live range that ends at or after `start`.
    fn lower_bound(&self, start: u64) -> (p: usize)
        requires
            sorted_disjoint(self.nodes()),
        ensures
            p <= self.nodes().len(),
            forall|i: int| 0 <= i < p ==> (#[trigger] self.nodes()[i]).end < start,
            forall|i: int| p <= i < self.nodes().len() ==> (#[trigger] self.nodes()[i]).end >= start,
    {
        let mut lo: usize = 0;
        let mut hi: usize = self.nodes.len();
        while lo < hi
            invariant
                sorted_disjoint(self.nodes()),
                lo <= hi <= self.nodes@.len(),
                forall|i: int| 0 <= i < lo ==> (#[trigger] self.nodes@[i]).end < start,
                forall|i: int| hi <= i < self.nodes@.len() ==> (#[trigger] self.nodes@[i]).end >= start,
            decreases hi - lo,
        {
            let mid = lo + (hi - lo) / 2;
            if self.nodes[mid].end < start {
                assert forall|i: int| 0 <= i < mid + 1 implies (#[trigger] self.nodes@[i]).end < start by {
                    if i < mid {
                        assert(self.nodes@[i].end < self.nodes@[mid as int].start);
                    }
                }
                lo = mid + 1;
            } else {
                assert forall|i: int| mid <= i < self.nodes@.len() implies (#[trigger] self.nodes@[i]).end >= start by {
                    if i > mid {
                        assert(self.nodes@[mid as int].end < self.nodes@[i].start);
                    }
                }
                hi = mid;
            }
        }
        lo
    }

    /// Whether `[start, end]` is clear of every range in the live index,
    /// decided from the one neighbour found by binary search.
    pub fn is_free(&self, start: u64, end: u64) -> (b: bool)
        requires
            self.wf(),
        ensures
            b == clear_of(self.nodes(), start, end),
    {
        let p = self.lower_bound(start);
        if p < self.nodes.len() && self.nodes[p].start <= end {
            assert(meets(start, end, self.nodes@[p as int]));
            false
        } else {
            assert forall|i: int| 0 <= i < self.nodes@.len() implies !meets(start, end, #[trigger] self.nodes@[i]) by {
                if i > p {
                    assert(self.nodes@[p as int].end < self.nodes@[i].start);
                }
            }
            true
        }
    }

    /// Whether `[start, end]` is clear of every legacy range.
    pub fn legacy_is_free(&self, start: u64, end: u64) -> (b: bool)
        ensures
            b == clear_of(self.legacy(), start, end),
    {
        let mut i: usize = 0;
        while i < self.legacy.len()
            invariant
                i <= self.legacy@.len(),
                forall|j: int| 0 <= j < i ==> !meets(start, end, #[trigger] self.legacy@[j]),
            decreases self.legacy@.len() - i,
        {
            if start <= self.legacy[i].end && end >= self.legacy[i].start {
                return false;
            }
            i = i + 1;
        }
        true
    }

    pub proof fn lemma_clear_all(&self, start: u64, end: u64)
        ensures
            clear_of(self.all(), start, end) == (clear_of(self.nodes(), start, end) && clear_of(
                self.legacy(),
                start,
                end,
            )),
    {
        let a = self.all();
        let n = self.nodes().len();
        if clear_of(a, start, end) {
            assert forall|i: int| 0 <= i < n implies !meets(start, end, #[trigger] self.nodes()[i]) by {
                assert(a[i] == self.nodes()[i]);
            }
            assert forall|i: int| 0 <= i < self.legacy().len() implies !meets(start, end, #[trigger] self.legacy()[i]) by {
                assert(a[n + i] == self.legacy()[i]);
            }
        }
        if clear_of(self.nodes(), start, end) && clear_of(self.legacy(), start, end) {
            assert forall|i: int| 0 <= i < a.len() implies !meets(start, end, #[trigger] a[i]) by {
                if i < n {
                    assert(a[i] == self.nodes()[i]);
                } else {
                    assert(a[i] == self.legacy()[i - n]);
                }
            }
        }
    }

    /// Add `[start, end]`, which meets no issued range, to the live index.
    pub fn insert(&mut self, start: u64, end: u64)
        requires
            old(self).wf(),
            start <= end,
            clear_of(old(self).all(), start, end),
        ensures
            final(self).wf(),
            final(self).legacy() == old(self).legacy(),
            final(self).nodes().len() == old(self).nodes().len() + 1,
            forall|r: SerialRange| #[trigger] final(self).nodes().contains(r) <==> (old(self).nodes().contains(r)
                || r == (SerialRange { start, end })),
    {
        proof {
            self.lemma_clear_all(start, end);
        }
        let ghost old_s = *self;
        let p = self.lower_bound(start);
        let r = SerialRange { start, end };
        self.nodes.insert(p, r);
        proof {
            let o = old_s.nodes@;
            let s = self.nodes@;
            assert(s =~= o.insert(p as int, r));
            assert forall|i: int| 0 <= i < s.len() implies s[i] == (if i < p { o[i] } else if i == p { r } else { o[i - 1] }) by {}
            assert(sorted_disjoint(s)) by {
                assert forall|i: int, j: int| 0 <= i < j < s.len() implies (#[trigger] s[i]).end < (#[trigger] s[j]).start by {
                    if i < p && j == p {
                    } else if i == p && j > p {
                        assert(!meets(start, end, o[j - 1]));
                        assert(o[j - 1].end >= start);
                    } else if i < p && j > p {
                        assert(o[i].end < o[j - 1].start);
                    } else if i > p {
                        assert(o[i - 1].end < o[j - 1].start);
                    } else {
                        assert(o[i].end < o[j].start);
                    }
                }
            }
            let a = self.all();
            let oa = old_s.all();
            let n = s.len();
            assert(pairwise_disjoint(a)) by {
                assert forall|i: int| 0 <= i < a.len() implies (#[trigger] a[i]).start <= a[i].end by {
                    if i < n {
                        if i < p { assert(a[i] == oa[i]); } else if i > p { assert(a[i] == oa[i - 1]); }
                    } else {
                        assert(a[i] == oa[i - 1]);
                    }
                }
                assert forall|i: int, j: int| 0 <= i < a.len() && 0 <= j < a.len() && i != j
                    implies !meets((#[trigger] a[i]).start, a[i].end, #[trigger] a[j]) by {
                    let i2 = if i < p { i } else { i - 1 };
                    let j2 = if j < p { j } else { j - 1 };
                    if i == p {
                        assert(a[j] == oa[j2]);
                        assert(!meets(start, end, oa[j2]));
                    } else if j == p {
                        assert(a[i] == oa[i2]);
                        assert(!meets(start, end, oa[i2]));
                    } else {
                        assert(a[i] == oa[i2]);
                        assert(a[j] == oa[j2]);
                    }
                }
            }
            assert forall|x: SerialRange| #[trigger] s.contains(x) <==> (o.contains(x) || x == r) by {
                if s.contains(x) {
                    let k = choose|k: int| 0 <= k < s.len() && s[k] == x;
                    if k < p { assert(o[k] == x); } else if k > p { assert(o[k - 1] == x); }
                }
                if o.contains(x) {
                    let k = choose|k: int| 0 <= k < o.len() && o[k] == x;
                    if k < p { assert(s[k] == x); } else { assert(s[k + 1] == x); }
                }
                if x == r {
                    assert(s[p as int] == x);
                }
            }
        }
    }

    /// Move up to `limit` legacy ranges, oldest first, into the live index;
    /// returns how many were moved.
    pub fn migrate(&mut self, limit: u32) -> (moved: u32)
        requires
            old(self).wf(),
        ensures
            final(self).wf(),
            moved == (if old(self).legacy().len() < limit { old(self).legacy().len() } else { limit as nat }),
            final(self).legacy() == old(self).legacy().skip(moved as int),
            final(self).nodes().len() == old(self).nodes().len() + moved,
            forall|r: SerialRange| #[trigger] final(self).nodes().contains(r) <==> (old(self).nodes().contains(r)
                || old(self).legacy().take(moved as int).contains(r)),
    {
        let ghost old_s = *self;
        let mut moved: u32 = 0;
        while moved < limit && self.legacy.len() > 0
            invariant
                self.wf(),
                moved <= limit,
                moved <= old_s.legacy().len(),
                self.legacy() == old_s.legacy().skip(moved as int),
                self.nodes().len() == old_s.nodes().len() + moved,
                forall|r: SerialRange| #[trigger] self.nodes().contains(r) <==> (old_s.nodes().contains(r)
                    || old_s.legacy().take(moved as int).contains(r)),
            decreases limit - moved,
        {
            let ghost before = *self;
            let r = self.legacy.remove(0);
            proof {
                let a = before.all();
                let n = before.nodes().len();
                assert(a[n as int] == r);
                assert forall|i: int| 0 <= i < n implies !meets(r.start, r.end, #[trigger] before.nodes()[i]) by {
                    assert(a[i] == before.nodes()[i]);
                }
                assert forall|i: int| 0 <= i < self.legacy@.len() implies !meets(r.start, r.end, #[trigger] self.legacy@[i]) by {
                    assert(self.legacy@[i] == before.legacy()[i + 1]);
                    assert(a[n + 1 + i] == before.legacy()[i + 1]);
                }
                assert(self.all() =~= before.nodes() + self.legacy@);
                assert forall|i: int, j: int| 0 <= i < self.all().len() && 0 <= j < self.all().len() && i != j
                    implies !meets((#[trigger] self.all()[i]).start, self.all()[i].end, #[trigger] self.all()[j]) by {
                    let i2 = if i < n { i } else { i + 1 };
                    let j2 = if j < n { j } else { j + 1 };
                    assert(self.all()[i] == a[i2]);
                    assert(self.all()[j] == a[j2]);
                }
                assert forall|i: int| 0 <= i < self.all().len() implies (#[trigger] self.all()[i]).start <= self.all()[i].end by {
                    let i2 = if i < n { i } else { i + 1 };
                    assert(self.all()[i] == a[i2]);
                }
                assert(clear_of(self.all(), r.start, r.end)) by {
                    assert forall|i: int| 0 <= i < self.all().len() implies !meets(r.start, r.end, #[trigger] self.all()[i]) by {
                        let i2 = if i < n { i } else { i + 1 };
                        assert(self.all()[i] == a[i2]);
                        assert(i2 != n);
                        assert(!meets(a[n as int].start, a[n as int].end, a[i2]));
                    }
                }
                assert(self.legacy@ =~= old_s.legacy().skip(moved as int + 1));
                assert(r == old_s.legacy()[moved as int]);
                assert(old_s.legacy().take(moved as int + 1) =~= old_s.legacy().take(moved as int).push(r));
            }
            self.insert(r.start, r.end);
            moved = moved + 1;
            proof {
                assert forall|x: SerialRange| #[trigger] self.nodes().contains(x) <==> (old_s.nodes().contains(x)
                    || old_s.legacy().take(moved as int).contains(x)) by {
                    let t = old_s.legacy().take(moved as int - 1);
                    assert(old_s.legacy().take(moved as int) =~= t.push(r));
                    if t.push(r).contains(x) && x != r {
                        let k = choose|k: int| 0 <= k < t.push(r).len() && t.push(r)[k] == x;
                        assert(t[k] == x);
                    }
                    if t.contains(x) {
                        let k = choose|k: int| 0 <= k < t.len() && t[k] == x;
                        assert(t.push(r)[k] == x);
                    }
                    if x == r {
                        assert(t.push(r)[t.len() as int] == x);
                    }
                }
            }
        }
        moved
    }

    /// Number of ranges in the live index.
    pub fn len(&self) -> (n: usize)
        ensures
            n == self.nodes().len(),
    {
        self.nodes.len()
    }

    /// Number of ranges still awaiting migration.
    pub fn legacy_len(&self) -> (n: usize)
        ensures
            n == self.legacy().len(),
    {
        self.legacy.len()
    }
}

} // verus!
