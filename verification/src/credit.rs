//! The credit contract: minting of credit batches with globally unique serial
//! ranges, transfer of batch ownership, permanent retirement with
//! certificates, role-based access, an emergency pause, and upgrade history.
//!
//! Each operation takes the current ledger time `now` and either succeeds,
//! giving the new state, or fails with an error and leaves the state as it
//! was (a failed contract call is rolled back).

use vstd::prelude::*;
use crate::common::{
    current_year, is_text_within, is_valid_pause_window, ledger_year, pause_blocks, text_within,
    valid_pause_window, Address,
};
use crate::history::{
    append_bounded, clamp_cap, clamp_history_cap, history_cap, history_page, keep_last,
    latest_record, page_of, prune_event, prune_to,
};
use crate::serial_index::{clear_of, lemma_clear_of_set, meets, pairwise_disjoint, SerialIndex};
use crate::table::Table;

pub use crate::common::UpgradeRecord;
pub use crate::history::{
    HistoryPrunedEvent, DEFAULT_MAX_HISTORY_ENTRIES, MAX_HISTORY_ENTRIES_LIMIT, MIN_HISTORY_ENTRIES,
};
pub use crate::serial_index::SerialRange;

verus! {

/// Largest amount of credits a single batch may hold.
pub const MAX_BATCH_SIZE: i128 = 1_000_000_000;
/// Maximum number of credit batches a single project can host.
pub const MAX_BATCHES_PER_PROJECT: u32 = 10_000;
/// Credits whose vintage is more than this many years old are expired.
pub const MAX_VINTAGE_AGE_YEARS: u32 = 30;
/// Earliest vintage year accepted unless an admin configures another.
pub const DEFAULT_MIN_VINTAGE_YEAR: u32 = 1990;
/// `0` means: the latest accepted vintage is the year after the current one.
pub const DEFAULT_MAX_VINTAGE_YEAR: u32 = 0;
/// Version number of a freshly initialised contract.
pub const CURRENT_VERSION: u32 = 1;

/// Errors of the credit contract.
#[derive(Copy, Clone, Debug, Eq, PartialEq, PartialOrd, Ord)]
pub enum CarbonError {
    ProjectNotFound,
    ProjectNotVerified,
    ProjectSuspended,
    InsufficientCredits,
    AlreadyRetired,
    SerialNumberConflict,
    UnauthorizedVerifier,
    UnauthorizedOracle,
    InvalidVintageYear,
    ListingNotFound,
    InsufficientLiquidity,
    PriceNotSet,
    MonitoringDataStale,
    DoubleCountingDetected,
    RetirementIrreversible,
    ZeroAmountNotAllowed,
    ProjectAlreadyExists,
    InvalidSerialRange,
    BatchTooLarge,
    AlreadyInitialized,
    Arithmetic,
    UnauthorizedUpgrade,
    /// Total issued credits would exceed the oracle-verified tonnes.
    IssuanceExceedsVerified,
    InvalidZkProofFormat,
    ZkProofVerificationFailed,
    PageSizeTooLarge,
    StorageLimitExceeded,
    InvalidPauseWindow,
    EmergencyPaused,
    Unauthorized,
    /// A mutating function was entered while the re-entrancy lock was held.
    ReentrancyDetected,
}

/// The numeric code of each error, as callers see it.
pub open spec fn error_code(e: CarbonError) -> u32 {
    match e {
        CarbonError::ProjectNotFound => 1,
        CarbonError::ProjectNotVerified => 2,
        CarbonError::ProjectSuspended => 3,
        CarbonError::InsufficientCredits => 4,
        CarbonError::AlreadyRetired => 5,
        CarbonError::SerialNumberConflict => 6,
        CarbonError::UnauthorizedVerifier => 7,
        CarbonError::UnauthorizedOracle => 8,
        CarbonError::InvalidVintageYear => 9,
        CarbonError::ListingNotFound => 10,
        CarbonError::InsufficientLiquidity => 11,
        CarbonError::PriceNotSet => 12,
        CarbonError::MonitoringDataStale => 13,
        CarbonError::DoubleCountingDetected => 14,
        CarbonError::RetirementIrreversible => 15,
        CarbonError::ZeroAmountNotAllowed => 16,
        CarbonError::ProjectAlreadyExists => 17,
        CarbonError::InvalidSerialRange => 18,
        CarbonError::BatchTooLarge => 19,
        CarbonError::AlreadyInitialized => 20,
        CarbonError::Arithmetic => 21,
        CarbonError::UnauthorizedUpgrade => 22,
        CarbonError::IssuanceExceedsVerified => 23,
        CarbonError::InvalidZkProofFormat => 24,
        CarbonError::ZkProofVerificationFailed => 25,
        CarbonError::PageSizeTooLarge => 26,
        CarbonError::StorageLimitExceeded => 27,
        CarbonError::InvalidPauseWindow => 28,
        CarbonError::EmergencyPaused => 29,
        CarbonError::Unauthorized => 30,
        CarbonError::ReentrancyDetected => 31,
    }
}

impl CarbonError {
    /// The numeric code under which the error is reported to callers.
    pub fn code(&self) -> (c: u32)
        ensures
            c == error_code(*self),
    {
        match self {
            CarbonError::ProjectNotFound => 1,
            CarbonError::ProjectNotVerified => 2,
            CarbonError::ProjectSuspended => 3,
            CarbonError::InsufficientCredits => 4,
            CarbonError::AlreadyRetired => 5,
            CarbonError::SerialNumberConflict => 6,
            CarbonError::UnauthorizedVerifier => 7,
            CarbonError::UnauthorizedOracle => 8,
            CarbonError::InvalidVintageYear => 9,
            CarbonError::ListingNotFound => 10,
            CarbonError::InsufficientLiquidity => 11,
            CarbonError::PriceNotSet => 12,
            CarbonError::MonitoringDataStale => 13,
            CarbonError::DoubleCountingDetected => 14,
            CarbonError::RetirementIrreversible => 15,
            CarbonError::ZeroAmountNotAllowed => 16,
            CarbonError::ProjectAlreadyExists => 17,
            CarbonError::InvalidSerialRange => 18,
            CarbonError::BatchTooLarge => 19,
            CarbonError::AlreadyInitialized => 20,
            CarbonError::Arithmetic => 21,
            CarbonError::UnauthorizedUpgrade => 22,
            CarbonError::IssuanceExceedsVerified => 23,
            CarbonError::InvalidZkProofFormat => 24,
            CarbonError::ZkProofVerificationFailed => 25,
            CarbonError::PageSizeTooLarge => 26,
            CarbonError::StorageLimitExceeded => 27,
            CarbonError::InvalidPauseWindow => 28,
            CarbonError::EmergencyPaused => 29,
            CarbonError::Unauthorized => 30,
            CarbonError::ReentrancyDetected => 31,
        }
    }
}

/// Access roles.
#[derive(Copy, Clone, Debug, Eq, PartialEq, Structural)]
pub enum Role {
    Admin,
    Verifier,
    Oracle,
    MarketplaceAdmin,
}

/// Lifecycle of a credit batch.
#[derive(Copy, Clone, Debug, Eq, PartialEq, Structural)]
pub enum CreditStatus {
    Active,
    PartiallyRetired,
    FullyRetired,
    Suspended,
}

/// A single credit record of the earliest contract layout.
#[derive(Debug, Clone)]
pub struct CarbonCredit {
    pub project_id: u32,
    pub serial_number: String,
    pub vintage_year: u32,
    pub serial_start: u64,
    pub serial_end: u64,
    pub timestamp: u64,
    pub amount: i128,
    pub owner: Address,
    pub retired: bool,
    pub created_at: u64,
}

/// Emitted when credits are retired.
#[derive(Debug, Clone)]
pub struct CreditRetiredEvent {
    pub retirement_id: String,
    pub batch_id: String,
    pub project_id: String,
    pub amount: i128,
    pub retired_by: Address,
    pub beneficiary: String,
    pub timestamp: u64,
    /// Content identifier of the pinned retirement certificate.
    pub certificate_cid: String,
}

/// Emitted when a batch is minted.
#[derive(Debug, Clone)]
pub struct CreditMintedEvent {
    pub batch_id: String,
    pub project_id: String,
    pub amount: i128,
    pub retired_by: Address,
    pub beneficiary: String,
    pub timestamp: u64,
    pub retirement_id: String,
}

/// A batch of credits with a contiguous serial range.
#[derive(Debug, Clone)]
pub struct CreditBatch {
    pub batch_id: String,
    pub project_id: String,
    pub vintage_year: u32,
    pub amount: i128,
    pub serial_start: u64,
    pub serial_end: u64,
    pub issued_at: u64,
    pub status: CreditStatus,
    pub metadata_cid: String,
    pub owner: Address,
}

impl CreditBatch {
    /// A field-by-field copy.
    pub fn duplicate(&self) -> (r: Self)
        ensures
            r == *self,
    {
        CreditBatch {
            batch_id: self.batch_id.clone(),
            project_id: self.project_id.clone(),
            vintage_year: self.vintage_year,
            amount: self.amount,
            serial_start: self.serial_start,
            serial_end: self.serial_end,
            issued_at: self.issued_at,
            status: self.status,
            metadata_cid: self.metadata_cid.clone(),
            owner: self.owner.clone(),
        }
    }
}

/// A batch together with whether its vintage has expired.
#[derive(Debug, Clone)]
pub struct CreditBatchWithExpiry {
    pub batch: CreditBatch,
    pub is_expired: bool,
}

/// The permanent record of a retirement.
#[derive(Debug, Clone)]
pub struct RetirementCertificate {
    pub retirement_id: String,
    pub credit_batch_id: String,
    pub project_id: String,
    pub amount: i128,
    pub retired_by: Address,
    pub beneficiary: String,
    pub retirement_reason: String,
    pub vintage_year: u32,
    pub serial_numbers: Vec<u64>,
    pub retired_at: u64,
    pub tx_hash: String,
    pub certificate_cid: String,
}

/// A retirement certificate with its serial numbers as a sequence.
pub struct CertificateView {
    pub retirement_id: String,
    pub credit_batch_id: String,
    pub project_id: String,
    pub amount: i128,
    pub retired_by: Address,
    pub beneficiary: String,
    pub retirement_reason: String,
    pub vintage_year: u32,
    pub serial_numbers: Seq<u64>,
    pub retired_at: u64,
    pub tx_hash: String,
    pub certificate_cid: String,
}

impl View for RetirementCertificate {
    type V = CertificateView;

    open spec fn view(&self) -> CertificateView {
        CertificateView {
            retirement_id: self.retirement_id,
            credit_batch_id: self.credit_batch_id,
            project_id: self.project_id,
            amount: self.amount,
            retired_by: self.retired_by,
            beneficiary: self.beneficiary,
            retirement_reason: self.retirement_reason,
            vintage_year: self.vintage_year,
            serial_numbers: self.serial_numbers@,
            retired_at: self.retired_at,
            tx_hash: self.tx_hash,
            certificate_cid: self.certificate_cid,
        }
    }
}

impl RetirementCertificate {
    /// A field-by-field copy.
    pub fn duplicate(&self) -> (r: Self)
        ensures
            r@ == self@,
    {
        let mut serials: Vec<u64> = Vec::new();
        let mut i: usize = 0;
        while i < self.serial_numbers.len()
            invariant
                i <= self.serial_numbers@.len(),
                serials@ == self.serial_numbers@.subrange(0, i as int),
            decreases self.serial_numbers@.len() - i,
        {
            serials.push(self.serial_numbers[i]);
            i = i + 1;
            assert(serials@ =~= self.serial_numbers@.subrange(0, i as int));
        }
        assert(self.serial_numbers@.subrange(0, self.serial_numbers@.len() as int) =~= self.serial_numbers@);
        RetirementCertificate {
            retirement_id: self.retirement_id.clone(),
            credit_batch_id: self.credit_batch_id.clone(),
            project_id: self.project_id.clone(),
            amount: self.amount,
            retired_by: self.retired_by.clone(),
            beneficiary: self.beneficiary.clone(),
            retirement_reason: self.retirement_reason.clone(),
            vintage_year: self.vintage_year,
            serial_numbers: serials,
            retired_at: self.retired_at,
            tx_hash: self.tx_hash.clone(),
            certificate_cid: self.certificate_cid.clone(),
        }
    }
}

/// Project details as the registry reports them.
#[derive(Debug, Clone)]
pub struct ProjectInfo {
    pub id: u32,
    pub name: String,
    pub methodology_score: u32,
}

/// A zero-knowledge attestation of an upgrade, as the contract's clients
/// exchange it.
#[derive(Debug, Clone, PartialEq, Eq)]
pub struct ZkProof {
    pub commitment: Vec<u8>,
    pub salt: Vec<u8>,
    pub proof: Vec<u8>,
    pub to_version: u32,
    pub timestamp: u64,
    pub upgraded_by: Address,
    pub wasm_hash: [u8; 32],
}

/// A read-only view of a batch with whether its vintage has expired.
#[derive(Debug, Clone)]
pub struct CreditBatchView {
    pub batch_id: String,
    pub project_id: String,
    pub vintage_year: u32,
    pub amount: i128,
    pub serial_start: u64,
    pub serial_end: u64,
    pub issued_at: u64,
    pub status: CreditStatus,
    pub metadata_cid: String,
    pub owner: Address,
    /// True when the vintage is out of bounds or more than 30 years old.
    pub is_expired: bool,
}

/// The abstract state of the credit contract.
#[verifier::ext_equal]
pub struct CreditState {
    pub roles: Map<Seq<char>, Role>,
    pub registry_contract: Option<Address>,
    pub version: u32,
    pub history: Seq<UpgradeRecord>,
    pub max_history: Option<u32>,
    pub paused: bool,
    pub pause_until: u64,
    pub vintage_min: u32,
    pub vintage_max: u32,
    pub oracle_contract: Option<Address>,
    pub verified_periods: Map<Seq<char>, Seq<String>>,
    pub batches: Map<Seq<char>, CreditBatch>,
    pub retirements: Map<Seq<char>, CertificateView>,
    pub retired: Map<Seq<char>, i128>,
    pub project_batches: Map<Seq<char>, Seq<String>>,
    pub batch_counts: Map<Seq<char>, u32>,
    pub serial_index: Set<SerialRange>,
    pub serial_legacy: Seq<SerialRange>,
    pub locked: bool,
}

/// The credit contract's storage.
pub struct CarbonCreditContract {
    roles: Table<String, Role>,
    registry_contract: Option<Address>,
    version: u32,
    history: Vec<UpgradeRecord>,
    max_history: Option<u32>,
    paused: bool,
    pause_until: u64,
    vintage_min: u32,
    vintage_max: u32,
    oracle_contract: Option<Address>,
    verified_periods: Table<String, Vec<String>>,
    batches: Table<String, CreditBatch>,
    retirements: Table<String, RetirementCertificate>,
    retired: Table<String, i128>,
    project_batches: Table<String, Vec<String>>,
    batch_counts: Table<String, u32>,
    serials: SerialIndex,
    locked: bool,
}

// ── Spec helpers ─────────────────────────────────────────────────────────────

/// `caller` holds exactly role `r`.
pub open spec fn holds_role(s: CreditState, caller: Seq<char>, r: Role) -> bool {
    s.roles.dom().contains(caller) && s.roles[caller] == r
}

/// A pause that is on and not yet over blocks operations at `now`.
pub open spec fn is_paused(s: CreditState, now: u64) -> bool {
    pause_blocks(s.paused, s.pause_until, now)
}

/// The state after an expired pause has been switched off.
pub open spec fn clear_expired_pause(s: CreditState, now: u64) -> CreditState {
    if s.paused && s.pause_until <= now {
        CreditState { paused: false, pause_until: 0, ..s }
    } else {
        s
    }
}

/// Latest accepted vintage year at `now`.
pub open spec fn max_vintage(s: CreditState, now: u64) -> int {
    if s.vintage_max == 0 { ledger_year(now) + 1 } else { s.vintage_max as int }
}

/// Whether `y` lies within the accepted vintage bounds at `now`.
pub open spec fn vintage_ok(s: CreditState, y: u32, now: u64) -> bool {
    s.vintage_min <= y && y <= max_vintage(s, now)
}

/// A batch is expired when its vintage is out of bounds or more than
/// `MAX_VINTAGE_AGE_YEARS` years old.
pub open spec fn batch_expired(s: CreditState, b: CreditBatch, now: u64) -> bool {
    !vintage_ok(s, b.vintage_year, now) || ledger_year(now) - b.vintage_year > MAX_VINTAGE_AGE_YEARS
}

/// Credits already retired from batch `k`.
pub open spec fn retired_of(s: CreditState, k: Seq<char>) -> i128 {
    if s.retired.dom().contains(k) { s.retired[k] } else { 0 }
}

/// Credits of `b` still available.
pub open spec fn active_of(s: CreditState, b: CreditBatch) -> i128 {
    if b.status == CreditStatus::FullyRetired {
        0
    } else {
        let d = b.amount - retired_of(s, b.batch_id@);
        if i128::MIN <= d <= i128::MAX { d as i128 } else { 0 }
    }
}

/// Batches minted so far for a project.
pub open spec fn count_of(m: Map<Seq<char>, u32>, k: Seq<char>) -> u32 {
    if m.dom().contains(k) { m[k] } else { 0 }
}

/// The list stored under `k`, or the empty list.
pub open spec fn list_of(m: Map<Seq<char>, Seq<String>>, k: Seq<char>) -> Seq<String> {
    if m.dom().contains(k) { m[k] } else { Seq::empty() }
}

/// No issued range (live or legacy) shares a serial number with `[start, end]`.
pub open spec fn serials_clear(s: CreditState, start: u64, end: u64) -> bool {
    &&& forall|r: SerialRange| #[trigger] s.serial_index.contains(r) ==> !meets(start, end, r)
    &&& clear_of(s.serial_legacy, start, end)
}

impl View for CarbonCreditContract {
    type V = CreditState;

    closed spec fn view(&self) -> CreditState {
        CreditState {
            roles: self.roles@,
            registry_contract: self.registry_contract,
            version: self.version,
            history: self.history@,
            max_history: self.max_history,
            paused: self.paused,
            pause_until: self.pause_until,
            vintage_min: self.vintage_min,
            vintage_max: self.vintage_max,
            oracle_contract: self.oracle_contract,
            verified_periods: self.verified_periods@.map_values(|v: Vec<String>| v@),
            batches: self.batches@,
            retirements: self.retirements@.map_values(|c: RetirementCertificate| c@),
            retired: self.retired@,
            project_batches: self.project_batches@.map_values(|v: Vec<String>| v@),
            batch_counts: self.batch_counts@,
            serial_index: self.serials.nodes().to_set(),
            serial_legacy: self.serials.legacy(),
            locked: self.locked,
        }
    }
}

impl CarbonCreditContract {
    /// Storage is consistent: keyed records are unique, the serial index is
    /// sorted and disjoint, and the upgrade history is within its cap.
    pub closed spec fn wf(&self) -> bool {
        &&& self.roles.wf()
        &&& self.verified_periods.wf()
        &&& self.batches.wf()
        &&& forall|k: Seq<char>| #[trigger] self.batches@.dom().contains(k) ==> self.batches@[k].batch_id@ == k
        &&& self.retirements.wf()
        &&& self.retired.wf()
        &&& self.project_batches.wf()
        &&& self.batch_counts.wf()
        &&& self.serials.wf()
        &&& self.history@.len() <= history_cap(self.max_history)
        &&& match self.max_history {
            Some(n) => MIN_HISTORY_ENTRIES <= n <= MAX_HISTORY_ENTRIES_LIMIT,
            None => true,
        }
    }

    /// What well-formed storage guarantees: every batch is stored under its
    /// own id, the issued serial ranges (live and legacy) are non-empty and
    /// pairwise disjoint, and the upgrade history stays within a cap of 10 to
    /// 200 records.
    pub proof fn lemma_wf_facts(&self)
        requires
            self.wf(),
        ensures
            forall|k: Seq<char>| #[trigger] self@.batches.dom().contains(k) ==> self@.batches[k].batch_id@ == k,
            forall|r: SerialRange| #[trigger] self@.serial_index.contains(r) ==> r.start <= r.end,
            forall|r1: SerialRange, r2: SerialRange|
                #[trigger] self@.serial_index.contains(r1) && #[trigger] self@.serial_index.contains(r2) && r1 != r2
                    ==> !meets(r1.start, r1.end, r2),
            forall|r: SerialRange| #[trigger] self@.serial_index.contains(r)
                ==> clear_of(self@.serial_legacy, r.start, r.end),
            pairwise_disjoint(self@.serial_legacy),
            self@.history.len() <= history_cap(self@.max_history),
            self@.max_history matches Some(n) ==> MIN_HISTORY_ENTRIES <= n <= MAX_HISTORY_ENTRIES_LIMIT,
    {
        let nodes = self.serials.nodes();
        let legacy = self.serials.legacy();
        let all = self.serials.all();
        assert forall|r: SerialRange| #[trigger] self@.serial_index.contains(r) implies r.start <= r.end by {
            let i = choose|i: int| 0 <= i < nodes.len() && nodes[i] == r;
            assert(all[i] == nodes[i]);
        }
        assert forall|r1: SerialRange, r2: SerialRange|
            #[trigger] self@.serial_index.contains(r1) && #[trigger] self@.serial_index.contains(r2) && r1 != r2
            implies !meets(r1.start, r1.end, r2) by {
            let i = choose|i: int| 0 <= i < nodes.len() && nodes[i] == r1;
            let j = choose|j: int| 0 <= j < nodes.len() && nodes[j] == r2;
            assert(all[i] == nodes[i] && all[j] == nodes[j]);
        }
        assert forall|r: SerialRange| #[trigger] self@.serial_index.contains(r)
            implies clear_of(self@.serial_legacy, r.start, r.end) by {
            let i = choose|i: int| 0 <= i < nodes.len() && nodes[i] == r;
            assert(all[i] == nodes[i]);
            assert forall|k: int| 0 <= k < legacy.len() implies !meets(r.start, r.end, #[trigger] legacy[k]) by {
                assert(all[nodes.len() + k] == legacy[k]);
            }
        }
        assert forall|i: int| 0 <= i < legacy.len() implies (#[trigger] legacy[i]).start <= legacy[i].end by {
            assert(all[nodes.len() + i] == legacy[i]);
        }
        assert forall|i: int, j: int| 0 <= i < legacy.len() && 0 <= j < legacy.len() && i != j
            implies !meets((#[trigger] legacy[i]).start, legacy[i].end, #[trigger] legacy[j]) by {
            assert(all[nodes.len() + i] == legacy[i] && all[nodes.len() + j] == legacy[j]);
        }
    }

    /// The storage of a contract that has never been initialised.
    pub fn new() -> (c: Self)
        ensures
            c.wf(),
            c@ == (CreditState {
                roles: Map::empty(),
                registry_contract: None,
                version: CURRENT_VERSION,
                history: Seq::empty(),
                max_history: None,
                paused: false,
                pause_until: 0,
                vintage_min: DEFAULT_MIN_VINTAGE_YEAR,
                vintage_max: DEFAULT_MAX_VINTAGE_YEAR,
                oracle_contract: None,
                verified_periods: Map::empty(),
                batches: Map::empty(),
                retirements: Map::empty(),
                retired: Map::empty(),
                project_batches: Map::empty(),
                batch_counts: Map::empty(),
                serial_index: Set::empty(),
                serial_legacy: Seq::empty(),
                locked: false,
            }),
    {
        let c = CarbonCreditContract {
            roles: Table::new(),
            registry_contract: None,
            version: CURRENT_VERSION,
            history: Vec::new(),
            max_history: None,
            paused: false,
            pause_until: 0,
            vintage_min: DEFAULT_MIN_VINTAGE_YEAR,
            vintage_max: DEFAULT_MAX_VINTAGE_YEAR,
            oracle_contract: None,
            verified_periods: Table::new(),
            batches: Table::new(),
            retirements: Table::new(),
            retired: Table::new(),
            project_batches: Table::new(),
            batch_counts: Table::new(),
            serials: SerialIndex::new(),
            locked: false,
        };
        proof {
            assert(c.serials.nodes().to_set() =~= Set::<SerialRange>::empty());
            assert(c.retirements@.map_values(|x: RetirementCertificate| x@) =~= Map::<Seq<char>, CertificateView>::empty());
        }
        c
    }

    /// Fresh storage that still carries serial ranges issued under the
    /// earlier storage layout, awaiting `migrate_serial_index`.
    pub fn with_legacy_serials(legacy: Vec<SerialRange>) -> (c: Self)
        requires
            pairwise_disjoint(legacy@),
        ensures
            c.wf(),
            c@ == (CreditState {
                roles: Map::empty(),
                registry_contract: None,
                version: CURRENT_VERSION,
                history: Seq::empty(),
                max_history: None,
                paused: false,
                pause_until: 0,
                vintage_min: DEFAULT_MIN_VINTAGE_YEAR,
                vintage_max: DEFAULT_MAX_VINTAGE_YEAR,
                oracle_contract: None,
                verified_periods: Map::empty(),
                batches: Map::empty(),
                retirements: Map::empty(),
                retired: Map::empty(),
                project_batches: Map::empty(),
                batch_counts: Map::empty(),
                serial_index: Set::empty(),
                serial_legacy: legacy@,
                locked: false,
            }),
    {
        let mut c = Self::new();
        c.serials = SerialIndex::with_legacy(legacy);
        proof {
            assert(c.serials.nodes().to_set() =~= Set::<SerialRange>::empty());
        }
        c
    }

    // ── Initialisation and roles ─────────────────────────────────────────────

    /// The state after `initialize`.
    pub open spec fn initialize_result(s: CreditState, admin: Address, registry_contract: Address)
        -> Result<CreditState, CarbonError> {
        if s.roles.dom().contains(admin@) {
            Err(CarbonError::AlreadyInitialized)
        } else {
            Ok(CreditState {
                roles: s.roles.insert(admin@, Role::Admin),
                registry_contract: Some(registry_contract),
                version: CURRENT_VERSION,
                paused: false,
                pause_until: 0,
                ..s
            })
        }
    }

    /// Make `admin` the first admin and record the registry contract.
    /// Refused when `admin` already holds a role.
    pub fn initialize(&mut self, admin: Address, registry_contract: Address) -> (r: Result<(), CarbonError>)
        requires
            old(self).wf(),
        ensures
            final(self).wf(),
            match r {
                Ok(_) => Self::initialize_result(old(self)@, admin, registry_contract) == Ok::<CreditState, CarbonError>(final(self)@),
                Err(e) => Self::initialize_result(old(self)@, admin, registry_contract) == Err::<CreditState, CarbonError>(e)
                    && final(self)@ == old(self)@,
            },
    {
        if self.roles.contains(&admin) {
            return Err(CarbonError::AlreadyInitialized);
        }
        let ghost s0 = self@;
        self.roles.insert(admin, Role::Admin);
        self.registry_contract = Some(registry_contract);
        self.version = CURRENT_VERSION;
        self.paused = false;
        self.pause_until = 0;
        proof {
            assert(self@ =~= (CreditState {
                roles: s0.roles.insert(admin@, Role::Admin),
                registry_contract: Some(registry_contract),
                version: CURRENT_VERSION,
                paused: false,
                pause_until: 0,
                ..s0
            }));
        }
        Ok(())
    }

    /// Whether `target` holds exactly `role`.
    pub fn has_role(&self, target: &Address, role: Role) -> (b: bool)
        requires
            self.wf(),
        ensures
            b == holds_role(self@, target@, role),
    {
        match self.roles.get(target) {
            Some(stored) => *stored == role,
            None => false,
        }
    }

    /// The role held by `target`, if any.
    pub fn get_role(&self, target: &Address) -> (r: Option<Role>)
        requires
            self.wf(),
        ensures
            r == (if self@.roles.dom().contains(target@) { Some(self@.roles[target@]) } else { None::<Role> }),
    {
        match self.roles.get(target) {
            Some(stored) => Some(*stored),
            None => None,
        }
    }

    /// Succeeds when `caller` is an admin or holds `required`.
    fn require_role(&self, caller: &Address, required: Role) -> (r: Result<(), CarbonError>)
        requires
            self.wf(),
        ensures
            r is Ok <==> (holds_role(self@, caller@, Role::Admin) || holds_role(self@, caller@, required)),
            r is Err ==> r == Err::<(), CarbonError>(CarbonError::UnauthorizedVerifier),
    {
        if self.has_role(caller, Role::Admin) || self.has_role(caller, required) {
            return Ok(());
        }
        Err(CarbonError::UnauthorizedVerifier)
    }

    /// Succeeds when `caller` is an admin.
    fn require_admin(&self, caller: &Address) -> (r: Result<(), CarbonError>)
        requires
            self.wf(),
        ensures
            r is Ok <==> holds_role(self@, caller@, Role::Admin),
            r is Err ==> r == Err::<(), CarbonError>(CarbonError::UnauthorizedVerifier),
    {
        match self.roles.get(caller) {
            Some(Role::Admin) => Ok(()),
            _ => Err(CarbonError::UnauthorizedVerifier),
        }
    }

    /// The state after `grant_role`.
    pub open spec fn grant_role_result(s: CreditState, admin: Address, target: Address, role: Role)
        -> Result<CreditState, CarbonError> {
        if !holds_role(s, admin@, Role::Admin) {
            Err(CarbonError::UnauthorizedVerifier)
        } else {
            Ok(CreditState { roles: s.roles.insert(target@, role), ..s })
        }
    }

    /// Admin: give `target` the role `role`, replacing any role it held.
    pub fn grant_role(&mut self, admin: &Address, target: Address, role: Role) -> (r: Result<(), CarbonError>)
        requires
            old(self).wf(),
        ensures
            final(self).wf(),
            match r {
                Ok(_) => Self::grant_role_result(old(self)@, *admin, target, role) == Ok::<CreditState, CarbonError>(final(self)@),
                Err(e) => Self::grant_role_result(old(self)@, *admin, target, role) == Err::<CreditState, CarbonError>(e)
                    && final(self)@ == old(self)@,
            },
    {
        self.require_admin(admin)?;
        let ghost s0 = self@;
        self.roles.insert(target, role);
        proof {
            assert(self@ =~= (CreditState { roles: s0.roles.insert(target@, role), ..s0 }));
        }
        Ok(())
    }

    /// The state after `revoke_role`.
    pub open spec fn revoke_role_result(s: CreditState, admin: Address, target: Address)
        -> Result<CreditState, CarbonError> {
        if !holds_role(s, admin@, Role::Admin) {
            Err(CarbonError::UnauthorizedVerifier)
        } else {
            Ok(CreditState { roles: s.roles.remove(target@), ..s })
        }
    }

    /// Admin: take away whatever role `target` holds.
    pub fn revoke_role(&mut self, admin: &Address, target: &Address) -> (r: Result<(), CarbonError>)
        requires
            old(self).wf(),
        ensures
            final(self).wf(),
            match r {
                Ok(_) => Self::revoke_role_result(old(self)@, *admin, *target) == Ok::<CreditState, CarbonError>(final(self)@),
                Err(e) => Self::revoke_role_result(old(self)@, *admin, *target) == Err::<CreditState, CarbonError>(e)
                    && final(self)@ == old(self)@,
            },
    {
        self.require_admin(admin)?;
        let ghost s0 = self@;
        let _ = self.roles.remove(target);
        proof {
            assert(self@ =~= (CreditState { roles: s0.roles.remove(target@), ..s0 }));
        }
        Ok(())
    }
}


impl CarbonCreditContract {
    // ── Pause, vintage and expiry helpers ────────────────────────────────────

    /// Fails with `EmergencyPaused` while a pause is in force; otherwise
    /// switches off a pause that has run out.
    fn require_not_paused(&mut self, now: u64) -> (r: Result<(), CarbonError>)
        requires
            old(self).wf(),
        ensures
            final(self).wf(),
            r is Err <==> is_paused(old(self)@, now),
            r is Err ==> r == Err::<(), CarbonError>(CarbonError::EmergencyPaused) && final(self)@ == old(self)@,
            r is Ok ==> final(self)@ == clear_expired_pause(old(self)@, now),
    {
        if self.paused && self.pause_until > now {
            return Err(CarbonError::EmergencyPaused);
        }
        if self.paused && self.pause_until <= now {
            self.paused = false;
            self.pause_until = 0;
        }
        Ok(())
    }

    /// Whether a pause blocks operations at `now`.
    fn blocked_by_pause(&self, now: u64) -> (b: bool)
        ensures
            b == is_paused(self@, now),
    {
        self.paused && self.pause_until > now
    }

    /// Earliest accepted vintage year.
    fn min_vintage_year(&self) -> (y: u32)
        ensures
            y == self@.vintage_min,
    {
        self.vintage_min
    }

    /// Latest accepted vintage year at `now`.
    fn max_vintage_year(&self, now: u64) -> (y: u64)
        ensures
            y == max_vintage(self@, now),
    {
        if self.vintage_max == 0 {
            current_year(now) + 1
        } else {
            self.vintage_max as u64
        }
    }

    /// Fails with `InvalidVintageYear` when `vintage_year` is out of bounds.
    fn validate_vintage_year(&self, vintage_year: u32, now: u64) -> (r: Result<(), CarbonError>)
        ensures
            r is Ok <==> vintage_ok(self@, vintage_year, now),
            r is Err ==> r == Err::<(), CarbonError>(CarbonError::InvalidVintageYear),
    {
        let min_year = self.min_vintage_year();
        let max_year = self.max_vintage_year(now);
        if vintage_year < min_year || vintage_year as u64 > max_year {
            return Err(CarbonError::InvalidVintageYear);
        }
        Ok(())
    }

    /// Whether the batch's vintage is out of bounds or more than 30 years old.
    fn is_batch_expired(&self, batch: &CreditBatch, now: u64) -> (b: bool)
        ensures
            b == batch_expired(self@, *batch, now),
    {
        let year = current_year(now);
        if batch.vintage_year < self.min_vintage_year() || batch.vintage_year as u64 > self.max_vintage_year(now) {
            return true;
        }
        year.saturating_sub(batch.vintage_year as u64) > MAX_VINTAGE_AGE_YEARS as u64
    }

    /// Credits of `batch` that are neither retired nor otherwise spent.
    fn active_amount(&self, batch: &CreditBatch) -> (a: i128)
        requires
            self.wf(),
        ensures
            a == active_of(self@, *batch),
    {
        if batch.status == CreditStatus::FullyRetired {
            return 0;
        }
        let retired: i128 = match self.retired.get(&batch.batch_id) {
            Some(v) => *v,
            None => 0,
        };
        match batch.amount.checked_sub(retired) {
            Some(d) => d,
            None => 0,
        }
    }
}

impl CarbonCreditContract {
    // ── Minting ──────────────────────────────────────────────────────────────

    /// The first check that minting fails, if any.
    pub open spec fn mint_error(
        s: CreditState,
        admin: Address,
        project_id: String,
        amount: i128,
        vintage_year: u32,
        batch_id: String,
        serial_start: u64,
        serial_end: u64,
        metadata_cid: String,
        now: u64,
    ) -> Option<CarbonError> {
        if !holds_role(s, admin@, Role::Admin) {
            Some(CarbonError::UnauthorizedVerifier)
        } else if is_paused(s, now) {
            Some(CarbonError::EmergencyPaused)
        } else if !text_within(project_id@, 64) || !text_within(batch_id@, 64) || !text_within(metadata_cid@, 128) {
            Some(CarbonError::ProjectNotFound)
        } else if amount <= 0 {
            Some(CarbonError::ZeroAmountNotAllowed)
        } else if amount > MAX_BATCH_SIZE {
            Some(CarbonError::BatchTooLarge)
        } else if serial_start == 0 || serial_end <= serial_start {
            Some(CarbonError::InvalidSerialRange)
        } else if !vintage_ok(s, vintage_year, now) {
            Some(CarbonError::InvalidVintageYear)
        } else if s.batches.dom().contains(batch_id@) {
            Some(CarbonError::SerialNumberConflict)
        } else if count_of(s.batch_counts, project_id@) >= MAX_BATCHES_PER_PROJECT {
            Some(CarbonError::StorageLimitExceeded)
        } else if !serials_clear(s, serial_start, serial_end) {
            Some(CarbonError::DoubleCountingDetected)
        } else {
            None
        }
    }

    /// The state after `mint_credits`.
    pub open spec fn mint_result(
        s: CreditState,
        admin: Address,
        project_id: String,
        amount: i128,
        vintage_year: u32,
        batch_id: String,
        serial_start: u64,
        serial_end: u64,
        metadata_cid: String,
        initial_owner: Address,
        now: u64,
    ) -> Result<CreditState, CarbonError> {
        match Self::mint_error(s, admin, project_id, amount, vintage_year, batch_id, serial_start, serial_end, metadata_cid, now) {
            Some(e) => Err(e),
            None => {
                let s1 = clear_expired_pause(s, now);
                let batch = CreditBatch {
                    batch_id,
                    project_id,
                    vintage_year,
                    amount,
                    serial_start,
                    serial_end,
                    issued_at: now,
                    status: CreditStatus::Active,
                    metadata_cid,
                    owner: initial_owner,
                };
                Ok(CreditState {
                    batches: s1.batches.insert(batch_id@, batch),
                    project_batches: s1.project_batches.insert(
                        project_id@,
                        list_of(s1.project_batches, project_id@).push(batch_id),
                    ),
                    batch_counts: s1.batch_counts.insert(project_id@, (count_of(s1.batch_counts, project_id@) + 1) as u32),
                    serial_index: s1.serial_index.insert(SerialRange { start: serial_start, end: serial_end }),
                    ..s1
                })
            },
        }
    }

    /// Admin: mint a new batch of `amount` credits with serial numbers
    /// `[serial_start, serial_end]`, owned by `initial_owner`.  The serial
    /// range must meet no range issued before.
    pub fn mint_credits(
        &mut self,
        admin: &Address,
        project_id: String,
        amount: i128,
        vintage_year: u32,
        batch_id: String,
        serial_start: u64,
        serial_end: u64,
        metadata_cid: String,
        initial_owner: Address,
        now: u64,
    ) -> (r: Result<(), CarbonError>)
        requires
            old(self).wf(),
        ensures
            final(self).wf(),
            match r {
                Ok(_) => Self::mint_result(old(self)@, *admin, project_id, amount, vintage_year, batch_id, serial_start,
                    serial_end, metadata_cid, initial_owner, now) == Ok::<CreditState, CarbonError>(final(self)@),
                Err(e) => Self::mint_result(old(self)@, *admin, project_id, amount, vintage_year, batch_id, serial_start,
                    serial_end, metadata_cid, initial_owner, now) == Err::<CreditState, CarbonError>(e)
                    && final(self)@ == old(self)@,
            },
    {
        self.require_role(admin, Role::Admin)?;
        if self.blocked_by_pause(now) {
            return Err(CarbonError::EmergencyPaused);
        }
        if !is_text_within(&project_id, 64) {
            return Err(CarbonError::ProjectNotFound);
        }
        if !is_text_within(&batch_id, 64) {
            return Err(CarbonError::ProjectNotFound);
        }
        if !is_text_within(&metadata_cid, 128) {
            return Err(CarbonError::ProjectNotFound);
        }
        if amount <= 0 {
            return Err(CarbonError::ZeroAmountNotAllowed);
        }
        if amount > MAX_BATCH_SIZE {
            return Err(CarbonError::BatchTooLarge);
        }
        if serial_start == 0 || serial_end <= serial_start {
            return Err(CarbonError::InvalidSerialRange);
        }
        self.validate_vintage_year(vintage_year, now)?;
        if self.batches.contains(&batch_id) {
            return Err(CarbonError::SerialNumberConflict);
        }
        let batch_count: u32 = match self.batch_counts.get(&project_id) {
            Some(c) => *c,
            None => 0,
        };
        if batch_count >= MAX_BATCHES_PER_PROJECT {
            return Err(CarbonError::StorageLimitExceeded);
        }
        proof {
            lemma_clear_of_set(self.serials.nodes(), serial_start, serial_end);
        }
        if !self.verify_serial_range_internal(serial_start, serial_end) {
            return Err(CarbonError::DoubleCountingDetected);
        }

        let _ = self.require_not_paused(now);
        let ghost s1 = self@;
        let ghost nodes0 = self.serials.nodes();
        proof {
            lemma_clear_of_set(self.serials.nodes(), serial_start, serial_end);
            self.serials.lemma_clear_all(serial_start, serial_end);
        }
        self.serials.insert(serial_start, serial_end);
        let ghost nodes1 = self.serials.nodes();
        proof {
            let rr = SerialRange { start: serial_start, end: serial_end };
            assert(nodes1.to_set() =~= nodes0.to_set().insert(rr)) by {
                assert forall|x: SerialRange| #[trigger] nodes1.to_set().contains(x)
                    <==> nodes0.to_set().insert(rr).contains(x) by {
                    assert(nodes1.contains(x) == (nodes0.contains(x) || x == rr));
                }
            }
        }
        let batch = CreditBatch {
            batch_id: batch_id.clone(),
            project_id: project_id.clone(),
            vintage_year,
            amount,
            serial_start,
            serial_end,
            issued_at: now,
            status: CreditStatus::Active,
            metadata_cid,
            owner: initial_owner,
        };
        self.batches.insert(batch_id.clone(), batch);
        let mut list = match self.project_batches.remove(&project_id) {
            Some(v) => v,
            None => Vec::new(),
        };
        list.push(batch_id);
        self.project_batches.insert(project_id.clone(), list);
        self.batch_counts.insert(project_id, batch_count + 1);
        proof {
            assert(self.serials.nodes() == nodes1);
            assert(self@.project_batches =~= s1.project_batches.insert(
                project_id@,
                list_of(s1.project_batches, project_id@).push(batch_id),
            ));
        }
        Ok(())
    }

    /// Whether `[start, end]` meets no issued serial range.
    fn verify_serial_range_internal(&self, start: u64, end: u64) -> (b: bool)
        requires
            self.wf(),
        ensures
            b == serials_clear(self@, start, end),
    {
        proof {
            lemma_clear_of_set(self.serials.nodes(), start, end);
            self.serials.lemma_clear_all(start, end);
            assert(self@.serial_index == self.serials.nodes().to_set());
            assert(self@.serial_legacy == self.serials.legacy());
        }
        self.serials.is_free(start, end) && self.serials.legacy_is_free(start, end)
    }

    /// Whether `[serial_start, serial_end]` meets no issued serial range.
    pub fn verify_serial_range(&self, serial_start: u64, serial_end: u64) -> (b: bool)
        requires
            self.wf(),
        ensures
            b == serials_clear(self@, serial_start, serial_end),
    {
        self.verify_serial_range_internal(serial_start, serial_end)
    }
}

/// The serial numbers retired by a retirement: `amount` consecutive numbers
/// from `first`.
pub open spec fn retired_serials(first: int, amount: i128) -> Seq<u64> {
    Seq::new(amount as nat, |i: int| (first + i) as u64)
}

impl CarbonCreditContract {
    // ── Re-entrancy guard ────────────────────────────────────────────────────

    /// Take the re-entrancy lock; fails when it is already held.
    fn acquire_lock(&mut self) -> (r: Result<(), CarbonError>)
        ensures
            r is Err <==> old(self).locked,
            r is Err ==> r == Err::<(), CarbonError>(CarbonError::ReentrancyDetected) && *final(self) == *old(self),
            r is Ok ==> *final(self) == (CarbonCreditContract { locked: true, ..*old(self) }),
    {
        if self.locked {
            return Err(CarbonError::ReentrancyDetected);
        }
        self.locked = true;
        Ok(())
    }

    /// Release the re-entrancy lock.
    fn release_lock(&mut self)
        ensures
            *final(self) == (CarbonCreditContract { locked: false, ..*old(self) }),
    {
        self.locked = false;
    }

    /// A copy of the batch stored under `batch_id`.
    fn load_batch(&self, batch_id: &String) -> (r: Result<CreditBatch, CarbonError>)
        requires
            self.wf(),
        ensures
            match r {
                Ok(b) => self@.batches.dom().contains(batch_id@) && b == self@.batches[batch_id@],
                Err(e) => !self@.batches.dom().contains(batch_id@) && e == CarbonError::ProjectNotFound,
            },
    {
        match self.batches.get(batch_id) {
            Some(b) => Ok(b.duplicate()),
            None => Err(CarbonError::ProjectNotFound),
        }
    }

    // ── Retirement ───────────────────────────────────────────────────────────

    /// The first check that retiring fails, if any.
    pub open spec fn retire_error(s: CreditState, batch_id: String, amount: i128, retire_id: String, now: u64)
        -> Option<CarbonError> {
        if is_paused(s, now) {
            Some(CarbonError::EmergencyPaused)
        } else if s.locked {
            Some(CarbonError::ReentrancyDetected)
        } else if amount <= 0 {
            Some(CarbonError::ZeroAmountNotAllowed)
        } else if s.retirements.dom().contains(retire_id@) {
            Some(CarbonError::SerialNumberConflict)
        } else if !s.batches.dom().contains(batch_id@) {
            Some(CarbonError::ProjectNotFound)
        } else {
            let b = s.batches[batch_id@];
            let already = retired_of(s, batch_id@);
            if b.status == CreditStatus::FullyRetired {
                Some(CarbonError::AlreadyRetired)
            } else if b.status == CreditStatus::Suspended {
                Some(CarbonError::ProjectSuspended)
            } else if batch_expired(s, b, now) {
                Some(CarbonError::InvalidVintageYear)
            } else if amount > active_of(s, b) {
                Some(CarbonError::InsufficientCredits)
            } else if already < 0 || b.serial_start + already + amount - 1 >= u64::MAX
                || already + amount > i128::MAX || b.amount - (already + amount) < i128::MIN {
                Some(CarbonError::Arithmetic)
            } else {
                None
            }
        }
    }

    /// The state after `retire_credits`, and the certificate issued.
    pub open spec fn retire_result(
        s: CreditState,
        holder: Address,
        batch_id: String,
        amount: i128,
        reason: String,
        beneficiary: String,
        retire_id: String,
        tx_hash: String,
        cert_cid: String,
        now: u64,
    ) -> Result<(CreditState, CertificateView), CarbonError> {
        match Self::retire_error(s, batch_id, amount, retire_id, now) {
            Some(e) => Err(e),
            None => {
                let s1 = clear_expired_pause(s, now);
                let b = s.batches[batch_id@];
                let already = retired_of(s, batch_id@);
                let new_retired = (already + amount) as i128;
                let status = if b.amount - new_retired == 0 {
                    CreditStatus::FullyRetired
                } else {
                    CreditStatus::PartiallyRetired
                };
                let cert = CertificateView {
                    retirement_id: retire_id,
                    credit_batch_id: batch_id,
                    project_id: b.project_id,
                    amount,
                    retired_by: holder,
                    beneficiary,
                    retirement_reason: reason,
                    vintage_year: b.vintage_year,
                    serial_numbers: retired_serials(b.serial_start + already, amount),
                    retired_at: now,
                    tx_hash,
                    certificate_cid: cert_cid,
                };
                Ok((CreditState {
                    retired: s1.retired.insert(batch_id@, new_retired),
                    batches: s1.batches.insert(batch_id@, CreditBatch { status, ..b }),
                    retirements: s1.retirements.insert(retire_id@, cert),
                    ..s1
                }, cert))
            },
        }
    }

    /// Permanently retire `amount` credits of a batch and issue a
    /// certificate listing the retired serial numbers.  Retirements are
    /// identified by `retire_id`, which must be fresh.
    pub fn retire_credits(
        &mut self,
        holder: &Address,
        batch_id: &String,
        amount: i128,
        reason: String,
        beneficiary: String,
        retire_id: String,
        tx_hash: String,
        cert_cid: String,
        now: u64,
    ) -> (r: Result<RetirementCertificate, CarbonError>)
        requires
            old(self).wf(),
        ensures
            final(self).wf(),
            match r {
                Ok(c) => Self::retire_result(old(self)@, *holder, *batch_id, amount, reason, beneficiary, retire_id,
                    tx_hash, cert_cid, now) == Ok::<(CreditState, CertificateView), CarbonError>((final(self)@, c@)),
                Err(e) => Self::retire_result(old(self)@, *holder, *batch_id, amount, reason, beneficiary, retire_id,
                    tx_hash, cert_cid, now) == Err::<(CreditState, CertificateView), CarbonError>(e)
                    && final(self)@ == old(self)@,
            },
    {
        if self.blocked_by_pause(now) {
            return Err(CarbonError::EmergencyPaused);
        }
        let ghost s0 = self@;
        self.acquire_lock()?;
        if amount <= 0 {
            self.release_lock();
            return Err(CarbonError::ZeroAmountNotAllowed);
        }
        if self.retirements.contains(&retire_id) {
            self.release_lock();
            return Err(CarbonError::SerialNumberConflict);
        }
        let batch = match self.load_batch(batch_id) {
            Ok(b) => b,
            Err(e) => {
                self.release_lock();
                return Err(e);
            },
        };
        if batch.status == CreditStatus::FullyRetired {
            self.release_lock();
            return Err(CarbonError::AlreadyRetired);
        }
        if batch.status == CreditStatus::Suspended {
            self.release_lock();
            return Err(CarbonError::ProjectSuspended);
        }
        if self.is_batch_expired(&batch, now) {
            self.release_lock();
            return Err(CarbonError::InvalidVintageYear);
        }
        let active_amount = self.active_amount(&batch);
        if amount > active_amount {
            self.release_lock();
            return Err(CarbonError::InsufficientCredits);
        }
        let already_retired: i128 = match self.retired.get(batch_id) {
            Some(v) => *v,
            None => 0,
        };
        if already_retired < 0 || already_retired > u64::MAX as i128 {
            self.release_lock();
            return Err(CarbonError::Arithmetic);
        }
        let already_retired_u64 = already_retired as u64;
        let retire_serial_start = match batch.serial_start.checked_add(already_retired_u64) {
            Some(v) => v,
            None => {
                self.release_lock();
                return Err(CarbonError::Arithmetic);
            },
        };
        if amount > u64::MAX as i128 {
            self.release_lock();
            return Err(CarbonError::Arithmetic);
        }
        let amount_u64 = amount as u64;
        let retire_serial_end = match retire_serial_start.checked_add(amount_u64 - 1) {
            Some(v) => v,
            None => {
                self.release_lock();
                return Err(CarbonError::Arithmetic);
            },
        };
        if retire_serial_end == u64::MAX {
            self.release_lock();
            return Err(CarbonError::Arithmetic);
        }
        let new_retired = match already_retired.checked_add(amount) {
            Some(v) => v,
            None => {
                self.release_lock();
                return Err(CarbonError::Arithmetic);
            },
        };
        let new_active = match batch.amount.checked_sub(new_retired) {
            Some(v) => v,
            None => {
                self.release_lock();
                return Err(CarbonError::Arithmetic);
            },
        };

        let mut serial_numbers: Vec<u64> = Vec::new();
        let mut k: u64 = 0;
        while k < amount_u64
            invariant
                k <= amount_u64,
                retire_serial_start as int + amount_u64 - 1 == retire_serial_end,
                retire_serial_end < u64::MAX,
                serial_numbers@ == Seq::new(k as nat, |i: int| (retire_serial_start + i) as u64),
            decreases amount_u64 - k,
        {
            serial_numbers.push(retire_serial_start + k);
            k = k + 1;
            assert(serial_numbers@ =~= Seq::new(k as nat, |i: int| (retire_serial_start + i) as u64));
        }

        self.release_lock();
        let _ = self.require_not_paused(now);
        let ghost s1 = self@;
        self.retired.insert(batch_id.clone(), new_retired);
        let status = if new_active == 0 { CreditStatus::FullyRetired } else { CreditStatus::PartiallyRetired };
        let project_id = batch.project_id.clone();
        let vintage_year = batch.vintage_year;
        let updated = CreditBatch { status, ..batch };
        self.batches.insert(batch_id.clone(), updated);
        let cert = RetirementCertificate {
            retirement_id: retire_id.clone(),
            credit_batch_id: batch_id.clone(),
            project_id,
            amount,
            retired_by: holder.clone(),
            beneficiary,
            retirement_reason: reason,
            vintage_year,
            serial_numbers,
            retired_at: now,
            tx_hash,
            certificate_cid: cert_cid,
        };
        let out = cert.duplicate();
        self.retirements.insert(retire_id, cert);
        proof {
            assert(out@.serial_numbers =~= retired_serials(batch.serial_start + already_retired, amount));
            assert(self@.retirements =~= s1.retirements.insert(out@.retirement_id@, out@));
        }
        Ok(out)
    }

    // ── Transfer ─────────────────────────────────────────────────────────────

    /// The first check that a transfer fails, if any.
    pub open spec fn transfer_error(s: CreditState, from: Address, batch_id: String, amount: i128, now: u64)
        -> Option<CarbonError> {
        if is_paused(s, now) {
            Some(CarbonError::EmergencyPaused)
        } else if s.locked {
            Some(CarbonError::ReentrancyDetected)
        } else if amount <= 0 {
            Some(CarbonError::ZeroAmountNotAllowed)
        } else if !s.batches.dom().contains(batch_id@) {
            Some(CarbonError::ProjectNotFound)
        } else {
            let b = s.batches[batch_id@];
            if b.owner@ != from@ {
                Some(CarbonError::UnauthorizedVerifier)
            } else if b.status == CreditStatus::FullyRetired {
                Some(CarbonError::AlreadyRetired)
            } else if b.status == CreditStatus::Suspended {
                Some(CarbonError::ProjectSuspended)
            } else if batch_expired(s, b, now) {
                Some(CarbonError::InvalidVintageYear)
            } else if amount > active_of(s, b) {
                Some(CarbonError::InsufficientCredits)
            } else {
                None
            }
        }
    }

    /// The state after `transfer_credits`: the whole batch changes owner.
    pub open spec fn transfer_result(s: CreditState, from: Address, to: Address, batch_id: String, amount: i128, now: u64)
        -> Result<CreditState, CarbonError> {
        match Self::transfer_error(s, from, batch_id, amount, now) {
            Some(e) => Err(e),
            None => {
                let s1 = clear_expired_pause(s, now);
                let b = s.batches[batch_id@];
                Ok(CreditState { batches: s1.batches.insert(batch_id@, CreditBatch { owner: to, ..b }), ..s1 })
            },
        }
    }

    /// The owner of a batch hands it to `to`.  `amount` must be positive and
    /// within the batch's active credits.
    pub fn transfer_credits(&mut self, from: &Address, to: Address, batch_id: &String, amount: i128, now: u64)
        -> (r: Result<(), CarbonError>)
        requires
            old(self).wf(),
        ensures
            final(self).wf(),
            match r {
                Ok(_) => Self::transfer_result(old(self)@, *from, to, *batch_id, amount, now)
                    == Ok::<CreditState, CarbonError>(final(self)@),
                Err(e) => Self::transfer_result(old(self)@, *from, to, *batch_id, amount, now)
                    == Err::<CreditState, CarbonError>(e) && final(self)@ == old(self)@,
            },
    {
        if self.blocked_by_pause(now) {
            return Err(CarbonError::EmergencyPaused);
        }
        self.acquire_lock()?;
        if amount <= 0 {
            self.release_lock();
            return Err(CarbonError::ZeroAmountNotAllowed);
        }
        let batch = match self.load_batch(batch_id) {
            Ok(b) => b,
            Err(e) => {
                self.release_lock();
                return Err(e);
            },
        };
        if batch.owner != *from {
            self.release_lock();
            return Err(CarbonError::UnauthorizedVerifier);
        }
        if batch.status == CreditStatus::FullyRetired {
            self.release_lock();
            return Err(CarbonError::AlreadyRetired);
        }
        if batch.status == CreditStatus::Suspended {
            self.release_lock();
            return Err(CarbonError::ProjectSuspended);
        }
        if self.is_batch_expired(&batch, now) {
            self.release_lock();
            return Err(CarbonError::InvalidVintageYear);
        }
        let active = self.active_amount(&batch);
        if amount > active {
            self.release_lock();
            return Err(CarbonError::InsufficientCredits);
        }
        self.release_lock();
        let _ = self.require_not_paused(now);
        let updated = CreditBatch { owner: to, ..batch };
        self.batches.insert(batch_id.clone(), updated);
        Ok(())
    }
}

/// The batches stored under the ids of `ids`, in list order, skipping ids
/// that name no batch.
pub open spec fn batches_listed(s: CreditState, ids: Seq<String>) -> Seq<CreditBatch>
    decreases ids.len(),
{
    if ids.len() == 0 {
        Seq::empty()
    } else {
        let prev = batches_listed(s, ids.drop_last());
        let k = ids.last()@;
        if s.batches.dom().contains(k) { prev.push(s.batches[k]) } else { prev }
    }
}

/// The read-only view of batch `b` at `now`.
pub open spec fn batch_view_of(s: CreditState, b: CreditBatch, now: u64) -> CreditBatchView {
    CreditBatchView {
        batch_id: b.batch_id,
        project_id: b.project_id,
        vintage_year: b.vintage_year,
        amount: b.amount,
        serial_start: b.serial_start,
        serial_end: b.serial_end,
        issued_at: b.issued_at,
        status: b.status,
        metadata_cid: b.metadata_cid,
        owner: b.owner,
        is_expired: batch_expired(s, b, now),
    }
}

/// Admin check followed by the pause check, as every guarded admin setter does.
pub open spec fn admin_gate(s: CreditState, admin: Address, now: u64) -> Option<CarbonError> {
    if !holds_role(s, admin@, Role::Admin) {
        Some(CarbonError::UnauthorizedVerifier)
    } else if is_paused(s, now) {
        Some(CarbonError::EmergencyPaused)
    } else {
        None
    }
}

impl CarbonCreditContract {
    // ── Queries ──────────────────────────────────────────────────────────────

    /// The batch stored under `batch_id`.
    pub fn get_credit_batch(&self, batch_id: &String) -> (r: Result<CreditBatch, CarbonError>)
        requires
            self.wf(),
        ensures
            match r {
                Ok(b) => self@.batches.dom().contains(batch_id@) && b == self@.batches[batch_id@],
                Err(e) => !self@.batches.dom().contains(batch_id@) && e == CarbonError::ProjectNotFound,
            },
    {
        self.load_batch(batch_id)
    }

    /// The batch stored under `batch_id`, with whether it has expired at `now`.
    pub fn get_credit_batch_view(&self, batch_id: &String, now: u64) -> (r: Result<CreditBatchView, CarbonError>)
        requires
            self.wf(),
        ensures
            match r {
                Ok(v) => self@.batches.dom().contains(batch_id@)
                    && v == batch_view_of(self@, self@.batches[batch_id@], now),
                Err(e) => !self@.batches.dom().contains(batch_id@) && e == CarbonError::ProjectNotFound,
            },
    {
        let batch = self.load_batch(batch_id)?;
        let expired = self.is_batch_expired(&batch, now);
        Ok(CreditBatchView {
            batch_id: batch.batch_id,
            project_id: batch.project_id,
            vintage_year: batch.vintage_year,
            amount: batch.amount,
            serial_start: batch.serial_start,
            serial_end: batch.serial_end,
            issued_at: batch.issued_at,
            status: batch.status,
            metadata_cid: batch.metadata_cid,
            owner: batch.owner,
            is_expired: expired,
        })
    }

    /// The certificate of retirement `retirement_id`.
    pub fn get_retirement_certificate(&self, retirement_id: &String) -> (r: Result<RetirementCertificate, CarbonError>)
        requires
            self.wf(),
        ensures
            match r {
                Ok(c) => self@.retirements.dom().contains(retirement_id@) && c@ == self@.retirements[retirement_id@],
                Err(e) => !self@.retirements.dom().contains(retirement_id@) && e == CarbonError::ProjectNotFound,
            },
    {
        match self.retirements.get(retirement_id) {
            Some(c) => Ok(c.duplicate()),
            None => Err(CarbonError::ProjectNotFound),
        }
    }

    /// The outcome of asking to undo a retirement: always an error.
    pub open spec fn undo_retire_error(s: CreditState, admin: Address, retire_id: String, now: u64) -> CarbonError {
        match admin_gate(s, admin, now) {
            Some(e) => e,
            None => if s.retirements.dom().contains(retire_id@) {
                CarbonError::RetirementIrreversible
            } else {
                CarbonError::ProjectNotFound
            },
        }
    }

    /// Retirement is permanent: this entry point only reports why it cannot
    /// be undone, and changes nothing.
    pub fn undo_retire(&mut self, admin: &Address, retire_id: &String, now: u64) -> (r: Result<(), CarbonError>)
        requires
            old(self).wf(),
        ensures
            final(self).wf(),
            final(self)@ == old(self)@,
            r == Err::<(), CarbonError>(Self::undo_retire_error(old(self)@, *admin, *retire_id, now)),
    {
        self.require_admin(admin)?;
        if self.blocked_by_pause(now) {
            return Err(CarbonError::EmergencyPaused);
        }
        if self.retirements.contains(retire_id) {
            return Err(CarbonError::RetirementIrreversible);
        }
        Err(CarbonError::ProjectNotFound)
    }

    /// The batches minted for `project_id`, in minting order.
    pub fn get_project_credits(&self, project_id: &String) -> (r: Vec<CreditBatch>)
        requires
            self.wf(),
        ensures
            r@ == batches_listed(self@, list_of(self@.project_batches, project_id@)),
    {
        let mut out: Vec<CreditBatch> = Vec::new();
        match self.project_batches.get(project_id) {
            None => {
                proof {
                    assert(list_of(self@.project_batches, project_id@) =~= Seq::<String>::empty());
                }
                out
            },
            Some(ids) => {
                let mut i: usize = 0;
                while i < ids.len()
                    invariant
                        self.wf(),
                        i <= ids@.len(),
                        out@ == batches_listed(self@, ids@.take(i as int)),
                    decreases ids@.len() - i,
                {
                    match self.batches.get(&ids[i]) {
                        Some(b) => out.push(b.duplicate()),
                        None => {},
                    }
                    proof {
                        assert(ids@.take(i + 1).drop_last() =~= ids@.take(i as int));
                    }
                    i = i + 1;
                }
                proof {
                    assert(ids@.take(ids@.len() as int) =~= ids@);
                }
                out
            },
        }
    }

    /// The oracle contract, once set.
    pub fn get_oracle_contract(&self) -> (r: Option<Address>)
        ensures
            r == self@.oracle_contract,
    {
        self.oracle_contract.clone()
    }

    /// The contract's version number.
    pub fn get_version(&self) -> (v: u32)
        ensures
            v == self@.version,
    {
        self.version
    }

    /// The most recent upgrade record, if any upgrade happened.
    pub fn get_upgrade_history(&self) -> (r: Option<UpgradeRecord>)
        ensures
            r == (if self@.history.len() == 0 { None } else { Some(self@.history.last()) }),
    {
        latest_record(&self.history)
    }

    /// A page of the upgrade history, oldest first: `limit` is capped at 50
    /// and a zero limit is refused.
    pub fn get_upgrade_history_page(&self, offset: u32, limit: u32) -> (r: Result<Vec<UpgradeRecord>, CarbonError>)
        requires
            self.wf(),
        ensures
            match history_page(self@.history, offset, limit) {
                Some(p) => r is Ok && r->Ok_0@ == p,
                None => r == Err::<Vec<UpgradeRecord>, CarbonError>(CarbonError::PageSizeTooLarge),
            },
    {
        match page_of(&self.history, offset, limit) {
            Some(p) => Ok(p),
            None => Err(CarbonError::PageSizeTooLarge),
        }
    }

    /// Number of ranges in the live serial index (saturating at `u32::MAX`).
    pub fn serial_index_size(&self) -> (n: u32)
        requires
            self.wf(),
        ensures
            n == (if self@.serial_index.len() > u32::MAX { u32::MAX as nat } else { self@.serial_index.len() }),
    {
        proof {
            self.lemma_index_len();
        }
        let n = self.serials.len();
        if n > u32::MAX as usize { u32::MAX } else { n as u32 }
    }

    /// Number of legacy ranges still awaiting migration (saturating at `u32::MAX`).
    pub fn serial_index_pending_migration(&self) -> (n: u32)
        ensures
            n == (if self@.serial_legacy.len() > u32::MAX { u32::MAX as nat } else { self@.serial_legacy.len() }),
    {
        let n = self.serials.legacy_len();
        if n > u32::MAX as usize { u32::MAX } else { n as u32 }
    }

    proof fn lemma_index_len(&self)
        requires
            self.wf(),
        ensures
            self@.serial_index.len() == self.serials.nodes().len(),
            self@.serial_index.finite(),
    {
        let s = self.serials.nodes();
        assert(s.no_duplicates()) by {
            assert forall|i: int, j: int| 0 <= i < s.len() && 0 <= j < s.len() && i != j implies s[i] != s[j] by {
                if i < j {
                    assert(s[i].end < s[j].start);
                } else {
                    assert(s[j].end < s[i].start);
                }
            }
        }
        s.unique_seq_to_set();
    }
}

impl CarbonCreditContract {
    // ── Admin settings ───────────────────────────────────────────────────────

    /// The state after `set_oracle_contract`.
    pub open spec fn set_oracle_result(s: CreditState, admin: Address, oracle: Address, now: u64)
        -> Result<CreditState, CarbonError> {
        match admin_gate(s, admin, now) {
            Some(e) => Err(e),
            None => Ok(CreditState { oracle_contract: Some(oracle), ..clear_expired_pause(s, now) }),
        }
    }

    /// Admin: record the oracle contract.
    pub fn set_oracle_contract(&mut self, admin: &Address, oracle: Address, now: u64) -> (r: Result<(), CarbonError>)
        requires
            old(self).wf(),
        ensures
            final(self).wf(),
            match r {
                Ok(_) => Self::set_oracle_result(old(self)@, *admin, oracle, now) == Ok::<CreditState, CarbonError>(final(self)@),
                Err(e) => Self::set_oracle_result(old(self)@, *admin, oracle, now) == Err::<CreditState, CarbonError>(e)
                    && final(self)@ == old(self)@,
            },
    {
        self.require_role(admin, Role::Admin)?;
        self.require_not_paused(now)?;
        self.oracle_contract = Some(oracle);
        Ok(())
    }

    /// The state after `set_verified_periods`.
    pub open spec fn set_periods_result(s: CreditState, admin: Address, project_id: String, periods: Seq<String>, now: u64)
        -> Result<CreditState, CarbonError> {
        match admin_gate(s, admin, now) {
            Some(e) => Err(e),
            None => {
                let s1 = clear_expired_pause(s, now);
                Ok(CreditState { verified_periods: s1.verified_periods.insert(project_id@, periods), ..s1 })
            },
        }
    }

    /// Admin: record the monitoring periods verified for a project.
    pub fn set_verified_periods(&mut self, admin: &Address, project_id: String, periods: Vec<String>, now: u64)
        -> (r: Result<(), CarbonError>)
        requires
            old(self).wf(),
        ensures
            final(self).wf(),
            match r {
                Ok(_) => Self::set_periods_result(old(self)@, *admin, project_id, periods@, now)
                    == Ok::<CreditState, CarbonError>(final(self)@),
                Err(e) => Self::set_periods_result(old(self)@, *admin, project_id, periods@, now)
                    == Err::<CreditState, CarbonError>(e) && final(self)@ == old(self)@,
            },
    {
        self.require_role(admin, Role::Admin)?;
        self.require_not_paused(now)?;
        let ghost s1 = self@;
        let ghost pv = periods@;
        self.verified_periods.insert(project_id, periods);
        proof {
            assert(self@.verified_periods =~= s1.verified_periods.insert(project_id@, pv));
        }
        Ok(())
    }

    /// The state after `pause_operations`.
    pub open spec fn pause_result(s: CreditState, admin: Address, until: u64, now: u64) -> Result<CreditState, CarbonError> {
        if !holds_role(s, admin@, Role::Admin) {
            Err(CarbonError::UnauthorizedVerifier)
        } else if !valid_pause_window(now, until) {
            Err(CarbonError::InvalidPauseWindow)
        } else {
            Ok(CreditState { paused: true, pause_until: until, ..s })
        }
    }

    /// Admin: pause guarded operations until `until`, at most 72 hours ahead.
    pub fn pause_operations(&mut self, admin: &Address, until: u64, now: u64) -> (r: Result<(), CarbonError>)
        requires
            old(self).wf(),
        ensures
            final(self).wf(),
            match r {
                Ok(_) => Self::pause_result(old(self)@, *admin, until, now) == Ok::<CreditState, CarbonError>(final(self)@),
                Err(e) => Self::pause_result(old(self)@, *admin, until, now) == Err::<CreditState, CarbonError>(e)
                    && final(self)@ == old(self)@,
            },
    {
        self.require_role(admin, Role::Admin)?;
        if !is_valid_pause_window(now, until) {
            return Err(CarbonError::InvalidPauseWindow);
        }
        self.paused = true;
        self.pause_until = until;
        Ok(())
    }

    /// The state after `unpause_operations`.
    pub open spec fn unpause_result(s: CreditState, admin: Address) -> Result<CreditState, CarbonError> {
        if !holds_role(s, admin@, Role::Admin) {
            Err(CarbonError::UnauthorizedVerifier)
        } else {
            Ok(CreditState { paused: false, pause_until: 0, ..s })
        }
    }

    /// Admin: lift the pause.
    pub fn unpause_operations(&mut self, admin: &Address) -> (r: Result<(), CarbonError>)
        requires
            old(self).wf(),
        ensures
            final(self).wf(),
            match r {
                Ok(_) => Self::unpause_result(old(self)@, *admin) == Ok::<CreditState, CarbonError>(final(self)@),
                Err(e) => Self::unpause_result(old(self)@, *admin) == Err::<CreditState, CarbonError>(e)
                    && final(self)@ == old(self)@,
            },
    {
        self.require_role(admin, Role::Admin)?;
        self.paused = false;
        self.pause_until = 0;
        Ok(())
    }

    /// The state after `set_vintage_year_bounds`.
    pub open spec fn vintage_bounds_result(s: CreditState, admin: Address, min_year: u32, max_year: u32, now: u64)
        -> Result<CreditState, CarbonError> {
        match admin_gate(s, admin, now) {
            Some(e) => Err(e),
            None => if min_year > max_year {
                Err(CarbonError::InvalidVintageYear)
            } else {
                Ok(CreditState { vintage_min: min_year, vintage_max: max_year, ..clear_expired_pause(s, now) })
            },
        }
    }

    /// Admin: set the accepted vintage years; a maximum of `0` means "the
    /// year after the current one".
    pub fn set_vintage_year_bounds(&mut self, admin: &Address, min_year: u32, max_year: u32, now: u64)
        -> (r: Result<(), CarbonError>)
        requires
            old(self).wf(),
        ensures
            final(self).wf(),
            match r {
                Ok(_) => Self::vintage_bounds_result(old(self)@, *admin, min_year, max_year, now)
                    == Ok::<CreditState, CarbonError>(final(self)@),
                Err(e) => Self::vintage_bounds_result(old(self)@, *admin, min_year, max_year, now)
                    == Err::<CreditState, CarbonError>(e) && final(self)@ == old(self)@,
            },
    {
        self.require_role(admin, Role::Admin)?;
        if self.blocked_by_pause(now) {
            return Err(CarbonError::EmergencyPaused);
        }
        if min_year > max_year {
            return Err(CarbonError::InvalidVintageYear);
        }
        let _ = self.require_not_paused(now);
        self.vintage_min = min_year;
        self.vintage_max = max_year;
        Ok(())
    }
}

impl CarbonCreditContract {
    // ── Upgrades and history ─────────────────────────────────────────────────

    /// The state after `upgrade_contract`, with the pruning event if the
    /// history overflowed its cap.
    pub open spec fn upgrade_result(s: CreditState, admin: Address, wasm_hash: [u8; 32], now: u64)
        -> Result<(CreditState, Option<HistoryPrunedEvent>), CarbonError> {
        match admin_gate(s, admin, now) {
            Some(e) => Err(e),
            None => {
                let rec = UpgradeRecord {
                    from_version: s.version,
                    to_version: (s.version + 1) as u32,
                    timestamp: now,
                    upgraded_by: admin,
                    wasm_hash,
                };
                let cap = history_cap(s.max_history);
                Ok((CreditState {
                    version: (s.version + 1) as u32,
                    history: keep_last(s.history.push(rec), cap),
                    ..clear_expired_pause(s, now)
                }, prune_event(s.history.len() + 1, cap, now)))
            },
        }
    }

    /// Admin: record an upgrade to the code with hash `wasm_hash`: the
    /// version goes up by one and the upgrade is appended to the history,
    /// dropping the oldest records beyond the cap.
    pub fn upgrade_contract(&mut self, admin: &Address, wasm_hash: [u8; 32], now: u64)
        -> (r: Result<Option<HistoryPrunedEvent>, CarbonError>)
        requires
            old(self).wf(),
            old(self)@.version < u32::MAX,
        ensures
            final(self).wf(),
            match r {
                Ok(ev) => Self::upgrade_result(old(self)@, *admin, wasm_hash, now)
                    == Ok::<(CreditState, Option<HistoryPrunedEvent>), CarbonError>((final(self)@, ev)),
                Err(e) => Self::upgrade_result(old(self)@, *admin, wasm_hash, now)
                    == Err::<(CreditState, Option<HistoryPrunedEvent>), CarbonError>(e) && final(self)@ == old(self)@,
            },
    {
        self.require_role(admin, Role::Admin)?;
        self.require_not_paused(now)?;
        let current = self.version;
        let next = current + 1;
        self.version = next;
        let rec = UpgradeRecord {
            from_version: current,
            to_version: next,
            timestamp: now,
            upgraded_by: admin.clone(),
            wasm_hash,
        };
        let max: u32 = match self.max_history {
            Some(n) => n,
            None => DEFAULT_MAX_HISTORY_ENTRIES,
        };
        let ev = append_bounded(&mut self.history, rec, max, now);
        Ok(ev)
    }

    /// The state after `set_max_history_entries`, with the pruning event if
    /// the history had to shrink.
    pub open spec fn max_history_result(s: CreditState, admin: Address, n: u32, now: u64)
        -> Result<(CreditState, Option<HistoryPrunedEvent>), CarbonError> {
        match admin_gate(s, admin, now) {
            Some(e) => Err(e),
            None => {
                let cap = clamp_cap(n);
                Ok((CreditState {
                    max_history: Some(cap),
                    history: keep_last(s.history, cap as nat),
                    ..clear_expired_pause(s, now)
                }, prune_event(s.history.len(), cap as nat, now)))
            },
        }
    }

    /// Admin: set how many upgrade records are kept (clamped to
    /// `[MIN_HISTORY_ENTRIES, MAX_HISTORY_ENTRIES_LIMIT]`), pruning at once.
    pub fn set_max_history_entries(&mut self, admin: &Address, n: u32, now: u64)
        -> (r: Result<Option<HistoryPrunedEvent>, CarbonError>)
        requires
            old(self).wf(),
        ensures
            final(self).wf(),
            match r {
                Ok(ev) => Self::max_history_result(old(self)@, *admin, n, now)
                    == Ok::<(CreditState, Option<HistoryPrunedEvent>), CarbonError>((final(self)@, ev)),
                Err(e) => Self::max_history_result(old(self)@, *admin, n, now)
                    == Err::<(CreditState, Option<HistoryPrunedEvent>), CarbonError>(e) && final(self)@ == old(self)@,
            },
    {
        self.require_role(admin, Role::Admin)?;
        self.require_not_paused(now)?;
        let cap = clamp_history_cap(n);
        self.max_history = Some(cap);
        let ev = prune_to(&mut self.history, cap, now);
        Ok(ev)
    }

    /// The state after `migrate_serial_index`, with how many ranges moved.
    pub open spec fn migrate_result(s: CreditState, admin: Address, limit: u32, now: u64)
        -> Result<(CreditState, u32), CarbonError> {
        match admin_gate(s, admin, now) {
            Some(e) => Err(e),
            None => if limit == 0 {
                Err(CarbonError::ZeroAmountNotAllowed)
            } else {
                let moved: nat = if s.serial_legacy.len() < limit { s.serial_legacy.len() } else { limit as nat };
                Ok((CreditState {
                    serial_index: s.serial_index + s.serial_legacy.take(moved as int).to_set(),
                    serial_legacy: s.serial_legacy.skip(moved as int),
                    ..clear_expired_pause(s, now)
                }, moved as u32))
            },
        }
    }

    /// Admin: move up to `limit` legacy serial ranges into the live index,
    /// returning how many moved.  Call again until it returns `0`.
    pub fn migrate_serial_index(&mut self, admin: &Address, limit: u32, now: u64) -> (r: Result<u32, CarbonError>)
        requires
            old(self).wf(),
        ensures
            final(self).wf(),
            match r {
                Ok(m) => Self::migrate_result(old(self)@, *admin, limit, now)
                    == Ok::<(CreditState, u32), CarbonError>((final(self)@, m)),
                Err(e) => Self::migrate_result(old(self)@, *admin, limit, now)
                    == Err::<(CreditState, u32), CarbonError>(e) && final(self)@ == old(self)@,
            },
    {
        self.require_role(admin, Role::Admin)?;
        if self.blocked_by_pause(now) {
            return Err(CarbonError::EmergencyPaused);
        }
        if limit == 0 {
            return Err(CarbonError::ZeroAmountNotAllowed);
        }
        let _ = self.require_not_paused(now);
        let ghost n0 = self.serials.nodes();
        let ghost l0 = self.serials.legacy();
        let moved = self.serials.migrate(limit);
        proof {
            let n1 = self.serials.nodes();
            assert(n1.to_set() =~= n0.to_set() + l0.take(moved as int).to_set()) by {
                assert forall|x: SerialRange| #[trigger] n1.to_set().contains(x)
                    <==> (n0.to_set() + l0.take(moved as int).to_set()).contains(x) by {
                    assert(n1.contains(x) == (n0.contains(x) || l0.take(moved as int).contains(x)));
                }
            }
        }
        Ok(moved)
    }
}

impl CarbonCreditContract {
    /// Overwrite the stored record of a batch as it is, leaving every index
    /// untouched and checking nothing: a raw storage write, as maintenance
    /// tooling and tests perform it.
    pub fn store_batch(&mut self, batch: CreditBatch)
        requires
            old(self).wf(),
        ensures
            final(self).wf(),
            final(self)@ == (CreditState { batches: old(self)@.batches.insert(batch.batch_id@, batch), ..old(self)@ }),
    {
        let key = batch.batch_id.clone();
        self.batches.insert(key, batch);
    }
}
} // verus!
