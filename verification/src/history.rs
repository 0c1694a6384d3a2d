//! The bounded list of upgrade records kept by the credit and registry
//! contracts: appends that drop the oldest records beyond a cap, and paging.

use vstd::prelude::*;
use crate::common::UpgradeRecord;

verus! {

/// Default maximum number of upgrade history entries retained.
pub const DEFAULT_MAX_HISTORY_ENTRIES: u32 = 50;
/// Minimum allowed value for the history cap.
pub const MIN_HISTORY_ENTRIES: u32 = 10;
/// Maximum allowed value for the history cap.
pub const MAX_HISTORY_ENTRIES_LIMIT: u32 = 200;
/// Largest page of history handed out at once.
pub const MAX_HISTORY_PAGE: u32 = 50;

/// Emitted when old upgrade history entries are pruned to stay within bounds.
#[derive(Debug, Clone)]
pub struct HistoryPrunedEvent {
    pub entries_pruned: u32,
    pub remaining: u32,
    pub pruned_at: u64,
}

/// The cap in force: the configured one, else the default.
pub open spec fn history_cap(configured: Option<u32>) -> nat {
    match configured {
        Some(n) => n as nat,
        None => DEFAULT_MAX_HISTORY_ENTRIES as nat,
    }
}

/// A requested cap, clamped to `[MIN_HISTORY_ENTRIES, MAX_HISTORY_ENTRIES_LIMIT]`.
pub open spec fn clamp_cap(n: u32) -> u32 {
    if n < MIN_HISTORY_ENTRIES {
        MIN_HISTORY_ENTRIES
    } else if n > MAX_HISTORY_ENTRIES_LIMIT {
        MAX_HISTORY_ENTRIES_LIMIT
    } else {
        n
    }
}

/// The newest `max` records of `s` (all of them when there are no more).
pub open spec fn keep_last<T>(s: Seq<T>, max: nat) -> Seq<T> {
    if s.len() > max {
        s.subrange(s.len() - max, s.len() as int)
    } else {
        s
    }
}

/// The event that pruning `len` records down to `max` at `now` emits.
pub open spec fn prune_event(len: nat, max: nat, now: u64) -> Option<HistoryPrunedEvent> {
    if len > max {
        Some(HistoryPrunedEvent { entries_pruned: (len - max) as u32, remaining: max as u32, pruned_at: now })
    } else {
        None
    }
}

/// The page of `s` that starts at `offset` and holds at most
/// `min(limit, MAX_HISTORY_PAGE)` records; `None` when that size is zero.
pub open spec fn history_page<T>(s: Seq<T>, offset: u32, limit: u32) -> Option<Seq<T>> {
    let eff = if limit > MAX_HISTORY_PAGE { MAX_HISTORY_PAGE } else { limit };
    if eff == 0 {
        None
    } else if offset >= s.len() {
        Some(Seq::empty())
    } else {
        let end = if offset + eff < s.len() { offset + eff } else { s.len() as int };
        Some(s.subrange(offset as int, end))
    }
}

/// Clamp a requested cap into the allowed range.
pub fn clamp_history_cap(n: u32) -> (r: u32)
    ensures
        r == clamp_cap(n),
        MIN_HISTORY_ENTRIES <= r <= MAX_HISTORY_ENTRIES_LIMIT,
{
    if n < MIN_HISTORY_ENTRIES {
        MIN_HISTORY_ENTRIES
    } else if n > MAX_HISTORY_ENTRIES_LIMIT {
        MAX_HISTORY_ENTRIES_LIMIT
    } else {
        n
    }
}

/// Drop the oldest records until at most `max` remain.
pub fn prune_to(records: &mut Vec<UpgradeRecord>, max: u32, now: u64) -> (ev: Option<HistoryPrunedEvent>)
    requires
        old(records)@.len() <= u32::MAX,
    ensures
        final(records)@ == keep_last(old(records)@, max as nat),
        ev == prune_event(old(records)@.len(), max as nat, now),
{
    let len = records.len();
    if len <= max as usize {
        return None;
    }
    let ghost orig = records@;
    let excess = (len - max as usize) as u32;
    while records.len() > max as usize
        invariant
            orig.len() > max,
            records@.len() >= max,
            records@.len() <= orig.len(),
            records@ == orig.subrange(orig.len() - records@.len(), orig.len() as int),
        decreases records@.len(),
    {
        records.remove(0);
        assert(records@ =~= orig.subrange(orig.len() - records@.len(), orig.len() as int));
    }
    let remaining = records.len() as u32;
    Some(HistoryPrunedEvent { entries_pruned: excess, remaining, pruned_at: now })
}

/// Append `rec`, then drop the oldest records beyond `max`.
pub fn append_bounded(records: &mut Vec<UpgradeRecord>, rec: UpgradeRecord, max: u32, now: u64)
    -> (ev: Option<HistoryPrunedEvent>)
    requires
        old(records)@.len() < u32::MAX,
    ensures
        final(records)@ == keep_last(old(records)@.push(rec), max as nat),
        ev == prune_event(old(records)@.len() + 1, max as nat, now),
{
    records.push(rec);
    prune_to(records, max, now)
}

/// A copy of the newest record, if any.
pub fn latest_record(records: &Vec<UpgradeRecord>) -> (r: Option<UpgradeRecord>)
    ensures
        r == (if records@.len() == 0 { None } else { Some(records@.last()) }),
{
    if records.len() == 0 {
        None
    } else {
        Some(records[records.len() - 1].duplicate())
    }
}

/// A copy of one page of the records.
pub fn page_of(records: &Vec<UpgradeRecord>, offset: u32, limit: u32) -> (r: Option<Vec<UpgradeRecord>>)
    requires
        records@.len() <= u32::MAX,
    ensures
        match history_page(records@, offset, limit) {
            Some(p) => r is Some && r->0@ == p,
            None => r is None,
        },
{
    let eff = if limit > MAX_HISTORY_PAGE { MAX_HISTORY_PAGE } else { limit };
    if eff == 0 {
        return None;
    }
    let len = records.len();
    let mut out: Vec<UpgradeRecord> = Vec::new();
    if offset as usize >= len {
        return Some(out);
    }
    let end: usize = if len - (offset as usize) > eff as usize { (offset as usize) + (eff as usize) } else { len };
    let mut i: usize = offset as usize;
    while i < end
        invariant
            offset <= i <= end <= len,
            len == records@.len(),
            out@ == records@.subrange(offset as int, i as int),
        decreases end - i,
    {
        out.push(records[i].duplicate());
        i = i + 1;
        assert(out@ =~= records@.subrange(offset as int, i as int));
    }
    Some(out)
}

} // verus!
