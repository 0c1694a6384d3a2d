//! Pieces shared by several contracts: ledger-time arithmetic, text bounds,
//! the emergency pause window, and the record kept for each upgrade.

use vstd::prelude::*;

verus! {

/// An account or contract address, carried as its textual (strkey) form.
pub type Address = String;

/// Length of a Julian year in seconds, the unit the contracts use to turn a
/// ledger timestamp into a calendar year.
pub const SECONDS_PER_YEAR: u64 = 31_557_600;

/// Longest emergency pause that an admin may set, in seconds (72 hours).
pub const MAX_PAUSE_SECONDS: u64 = 259_200;

/// Calendar year of a ledger timestamp: whole Julian years since 1970.
pub open spec fn ledger_year(now: u64) -> int {
    1970 + (now / SECONDS_PER_YEAR) as int
}

/// The calendar year of ledger time `now`.
pub fn current_year(now: u64) -> (y: u64)
    ensures
        y == ledger_year(now),
{
    1970 + now / SECONDS_PER_YEAR
}

/// Number of bytes of the UTF-8 encoding of a text.
pub open spec fn byte_len(s: Seq<char>) -> nat {
    vstd::utf8::encode_utf8(s).len()
}

/// A text that is non-empty and at most `max` bytes long.
pub open spec fn text_within(s: Seq<char>, max: nat) -> bool {
    0 < byte_len(s) <= max
}

/// Whether `s` is non-empty and at most `max` bytes long.
pub fn is_text_within(s: &String, max: usize) -> (b: bool)
    ensures
        b == text_within(s@, max as nat),
{
    let n = s.as_str().as_bytes().len();
    0 < n && n <= max
}

/// `a + b`, or `u64::MAX` when that does not fit.
pub open spec fn sat_add(a: u64, b: u64) -> u64 {
    if a + b > u64::MAX { u64::MAX } else { (a + b) as u64 }
}

/// A pause may end only strictly after `now` and at most 72 hours later.
pub open spec fn valid_pause_window(now: u64, until: u64) -> bool {
    now < until && until <= sat_add(now, MAX_PAUSE_SECONDS)
}

/// Whether a requested pause end is acceptable at ledger time `now`.
pub fn is_valid_pause_window(now: u64, until: u64) -> (b: bool)
    ensures
        b == valid_pause_window(now, until),
{
    !(until <= now || until > now.saturating_add(MAX_PAUSE_SECONDS))
}

/// A pause that is switched on and has not yet run out blocks operations.
pub open spec fn pause_blocks(paused: bool, until: u64, now: u64) -> bool {
    paused && until > now
}

/// One executed upgrade of a contract's code.
#[derive(Debug, Clone)]
pub struct UpgradeRecord {
    pub from_version: u32,
    pub to_version: u32,
    pub timestamp: u64,
    pub upgraded_by: Address,
    pub wasm_hash: [u8; 32],
}

impl UpgradeRecord {
    /// A field-by-field copy.
    pub fn duplicate(&self) -> (r: Self)
        ensures
            r == *self,
    {
        UpgradeRecord {
            from_version: self.from_version,
            to_version: self.to_version,
            timestamp: self.timestamp,
            upgraded_by: self.upgraded_by.clone(),
            wasm_hash: self.wasm_hash,
        }
    }
}

/// Whether two 32-byte hashes are equal.
pub fn same_hash(a: &[u8; 32], b: &[u8; 32]) -> (r: bool)
    ensures
        r == (a@ == b@),
{
    let mut i: usize = 0;
    while i < 32
        invariant
            i <= 32,
            a@.len() == 32,
            b@.len() == 32,
            forall|j: int| 0 <= j < i ==> a@[j] == b@[j],
        decreases 32 - i,
    {
        if a[i] != b[i] {
            return false;
        }
        i = i + 1;
    }
    assert(a@ =~= b@);
    true
}

/// Whether the address `a` occurs in `list`.
pub fn contains_address(list: &Vec<Address>, a: &Address) -> (r: bool)
    ensures
        r == exists|i: int| 0 <= i < list@.len() && (#[trigger] list@[i])@ == a@,
{
    let mut i: usize = 0;
    while i < list.len()
        invariant
            i <= list@.len(),
            forall|j: int| 0 <= j < i ==> (#[trigger] list@[j])@ != a@,
        decreases list@.len() - i,
    {
        if list[i] == *a {
            return true;
        }
        i = i + 1;
    }
    false
}

/// A copy of a list of texts.
pub fn copy_texts(v: &Vec<String>) -> (r: Vec<String>)
    ensures
        r@ == v@,
{
    let mut r: Vec<String> = Vec::new();
    let mut i: usize = 0;
    while i < v.len()
        invariant
            i <= v@.len(),
            r@ == v@.subrange(0, i as int),
        decreases v@.len() - i,
    {
        r.push(v[i].clone());
        i = i + 1;
        assert(r@ =~= v@.subrange(0, i as int));
    }
    assert(v@.subrange(0, v@.len() as int) =~= v@);
    r
}

} // verus!
