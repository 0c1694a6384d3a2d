//! The registry contract: project registration and review, per-project
//! issuance and retirement totals, the global list of issued serial ranges
//! (no two of which overlap), verifier management, upgrade history, and
//! multi-signature upgrade proposals.
//!
//! Deploying new code and emitting events are left to the caller: an
//! upgrade entry point reports what to deploy once its checks have passed.

use vstd::prelude::*;
use crate::common::{contains_address, copy_texts, current_year, is_text_within, ledger_year, text_within, Address, UpgradeRecord};
use crate::history::{
    append_bounded, clamp_cap, clamp_history_cap, history_cap, history_page, keep_last, latest_record, page_of,
    prune_event, prune_to, HistoryPrunedEvent, DEFAULT_MAX_HISTORY_ENTRIES, MAX_HISTORY_ENTRIES_LIMIT,
    MIN_HISTORY_ENTRIES,
};
use crate::serial_index::{clear_of, meets, pairwise_disjoint};
use crate::table::Table;

pub use crate::serial_index::SerialRange;

verus! {

/// Version number of a freshly initialised contract.
pub const CURRENT_VERSION: u32 = 1;
/// Maximum number of projects a single admin can register.
pub const MAX_PROJECTS_PER_ADMIN: u32 = 1_000;
/// Lowest methodology score a project may be registered with.
pub const MIN_METHODOLOGY_SCORE: u32 = 70;
/// Earliest vintage year a project may be registered with.
pub const MIN_PROJECT_VINTAGE: u32 = 1990;
/// Ledgers after which an upgrade proposal expires (about 72 hours).
pub const PROPOSAL_TTL_LEDGERS: u32 = 518_400;

/// Errors of the registry contract.
#[derive(Copy, Clone, Debug, Eq, PartialEq, PartialOrd, Ord)]
pub enum CarbonError {
    ProjectNotFound,
    ProjectNotVerified,
    ProjectSuspended,
    InsufficientCredits,
    AlreadyRetired,
    SerialNumberConflict,
    UnauthorizedVerifier,
    UnauthorizedOracle,
    InvalidVintageYear,
    ListingNotFound,
    InsufficientLiquidity,
    PriceNotSet,
    MonitoringDataStale,
    DoubleCountingDetected,
    RetirementIrreversible,
    ZeroAmountNotAllowed,
    ProjectAlreadyExists,
    InvalidSerialRange,
    AlreadyInitialized,
    MethodologyScoreLow,
    UnauthorizedUpgrade,
    PageSizeTooLarge,
    Arithmetic,
    ProposalNotFound,
    ProposalExpired,
    DuplicateApproval,
    ThresholdNotMet,
    StorageLimitExceeded,
    DuplicateSerial,
}

/// The numeric code of each error, as callers see it.
pub open spec fn error_code(e: CarbonError) -> u32 {
    match e {
        CarbonError::ProjectNotFound => 1,
        CarbonError::ProjectNotVerified => 2,
        CarbonError::ProjectSuspended => 3,
        CarbonError::InsufficientCredits => 4,
        CarbonError::AlreadyRetired => 5,
        CarbonError::SerialNumberConflict => 6,
        CarbonError::UnauthorizedVerifier => 7,
        CarbonError::UnauthorizedOracle => 8,
        CarbonError::InvalidVintageYear => 9,
        CarbonError::ListingNotFound => 10,
        CarbonError::InsufficientLiquidity => 11,
        CarbonError::PriceNotSet => 12,
        CarbonError::MonitoringDataStale => 13,
        CarbonError::DoubleCountingDetected => 14,
        CarbonError::RetirementIrreversible => 15,
        CarbonError::ZeroAmountNotAllowed => 16,
        CarbonError::ProjectAlreadyExists => 17,
        CarbonError::InvalidSerialRange => 18,
        CarbonError::AlreadyInitialized => 19,
        CarbonError::MethodologyScoreLow => 20,
        CarbonError::UnauthorizedUpgrade => 21,
        CarbonError::PageSizeTooLarge => 22,
        CarbonError::Arithmetic => 23,
        CarbonError::ProposalNotFound => 24,
        CarbonError::ProposalExpired => 25,
        CarbonError::DuplicateApproval => 26,
        CarbonError::ThresholdNotMet => 27,
        CarbonError::StorageLimitExceeded => 28,
        CarbonError::DuplicateSerial => 29,
    }
}

impl CarbonError {
    /// The numeric code under which the error is reported to callers.
    pub fn code(&self) -> (c: u32)
        ensures
            c == error_code(*self),
    {
        match self {
            CarbonError::ProjectNotFound => 1,
            CarbonError::ProjectNotVerified => 2,
            CarbonError::ProjectSuspended => 3,
            CarbonError::InsufficientCredits => 4,
            CarbonError::AlreadyRetired => 5,
            CarbonError::SerialNumberConflict => 6,
            CarbonError::UnauthorizedVerifier => 7,
            CarbonError::UnauthorizedOracle => 8,
            CarbonError::InvalidVintageYear => 9,
            CarbonError::ListingNotFound => 10,
            CarbonError::InsufficientLiquidity => 11,
            CarbonError::PriceNotSet => 12,
            CarbonError::MonitoringDataStale => 13,
            CarbonError::DoubleCountingDetected => 14,
            CarbonError::RetirementIrreversible => 15,
            CarbonError::ZeroAmountNotAllowed => 16,
            CarbonError::ProjectAlreadyExists => 17,
            CarbonError::InvalidSerialRange => 18,
            CarbonError::AlreadyInitialized => 19,
            CarbonError::MethodologyScoreLow => 20,
            CarbonError::UnauthorizedUpgrade => 21,
            CarbonError::PageSizeTooLarge => 22,
            CarbonError::Arithmetic => 23,
            CarbonError::ProposalNotFound => 24,
            CarbonError::ProposalExpired => 25,
            CarbonError::DuplicateApproval => 26,
            CarbonError::ThresholdNotMet => 27,
            CarbonError::StorageLimitExceeded => 28,
            CarbonError::DuplicateSerial => 29,
        }
    }
}

/// Review state of a project.
#[derive(Copy, Clone, Debug, Eq, PartialEq, Structural)]
pub enum ProjectStatus {
    Pending,
    Verified,
    Rejected,
    Suspended,
    Completed,
}

/// A registered carbon project.
#[derive(Debug, Clone)]
pub struct CarbonProject {
    pub project_id: String,
    pub name: String,
    pub methodology: String,
    pub country: String,
    pub project_type: String,
    pub verifier_address: Address,
    pub metadata_cid: String,
    pub metadata_hash: [u8; 32],
    pub total_credits_issued: i128,
    pub total_credits_retired: i128,
    pub methodology_score: u32,
    pub status: ProjectStatus,
    pub vintage_year: u32,
    pub created_at: u64,
}

impl CarbonProject {
    /// A field-by-field copy.
    pub fn duplicate(&self) -> (r: Self)
        ensures
            r == *self,
    {
        CarbonProject {
            project_id: self.project_id.clone(),
            name: self.name.clone(),
            methodology: self.methodology.clone(),
            country: self.country.clone(),
            project_type: self.project_type.clone(),
            verifier_address: self.verifier_address.clone(),
            metadata_cid: self.metadata_cid.clone(),
            metadata_hash: self.metadata_hash,
            total_credits_issued: self.total_credits_issued,
            total_credits_retired: self.total_credits_retired,
            methodology_score: self.methodology_score,
            status: self.status,
            vintage_year: self.vintage_year,
            created_at: self.created_at,
        }
    }
}

/// Who may approve upgrades, and how many approvals execute one.
#[derive(Debug, Clone)]
pub struct MultiSigConfig {
    pub signers: Vec<Address>,
    pub threshold: u32,
}

/// The signers as a sequence.
pub struct MultiSigView {
    pub signers: Seq<Address>,
    pub threshold: u32,
}

impl View for MultiSigConfig {
    type V = MultiSigView;

    open spec fn view(&self) -> MultiSigView {
        MultiSigView { signers: self.signers@, threshold: self.threshold }
    }
}

/// A pending upgrade proposal waiting for approvals.
#[derive(Debug, Clone)]
pub struct UpgradeProposal {
    pub proposal_id: u32,
    pub wasm_hash: [u8; 32],
    /// Ledger sequence number after which this proposal expires.
    pub expiry_ledger: u32,
    pub approvals: Vec<Address>,
    pub executed: bool,
}

/// A proposal with its approvals as a sequence.
pub struct ProposalView {
    pub proposal_id: u32,
    pub wasm_hash: [u8; 32],
    pub expiry_ledger: u32,
    pub approvals: Seq<Address>,
    pub executed: bool,
}

impl View for UpgradeProposal {
    type V = ProposalView;

    open spec fn view(&self) -> ProposalView {
        ProposalView {
            proposal_id: self.proposal_id,
            wasm_hash: self.wasm_hash,
            expiry_ledger: self.expiry_ledger,
            approvals: self.approvals@,
            executed: self.executed,
        }
    }
}

impl UpgradeProposal {
    /// A field-by-field copy.
    pub fn duplicate(&self) -> (r: Self)
        ensures
            r@ == self@,
    {
        UpgradeProposal {
            proposal_id: self.proposal_id,
            wasm_hash: self.wasm_hash,
            expiry_ledger: self.expiry_ledger,
            approvals: copy_texts(&self.approvals),
            executed: self.executed,
        }
    }
}

/// The abstract state of the registry.
#[verifier::ext_equal]
pub struct RegistryState {
    pub admin: Option<Address>,
    pub oracle: Option<Address>,
    pub verifiers: Seq<Address>,
    pub version: u32,
    pub history: Seq<UpgradeRecord>,
    pub max_history: Option<u32>,
    pub multisig: Option<MultiSigView>,
    pub pending: Option<ProposalView>,
    pub proposal_counter: u32,
    pub projects: Map<Seq<char>, CarbonProject>,
    pub project_counts: Map<Seq<char>, u32>,
    pub serial_ranges: Seq<SerialRange>,
    pub credit_contract: Option<Address>,
}

/// The registry contract's storage.
pub struct CarbonRegistryContract {
    admin: Option<Address>,
    oracle: Option<Address>,
    verifiers: Vec<Address>,
    version: u32,
    history: Vec<UpgradeRecord>,
    max_history: Option<u32>,
    multisig: Option<MultiSigConfig>,
    pending: Option<UpgradeProposal>,
    proposal_counter: u32,
    projects: Table<String, CarbonProject>,
    project_counts: Table<String, u32>,
    serial_ranges: Vec<SerialRange>,
    credit_contract: Option<Address>,
}

// ── Spec helpers ─────────────────────────────────────────────────────────────

/// `caller` is the stored admin.
pub open spec fn is_admin(s: RegistryState, caller: Address) -> bool {
    s.admin is Some && s.admin->0@ == caller@
}

/// `caller` is the stored oracle.
pub open spec fn is_oracle(s: RegistryState, caller: Address) -> bool {
    s.oracle is Some && s.oracle->0@ == caller@
}

/// `a` occurs in the list `l` (compared by address text).
pub open spec fn listed(l: Seq<Address>, a: Address) -> bool {
    exists|i: int| 0 <= i < l.len() && (#[trigger] l[i])@ == a@
}

/// `caller` is a signer of the multi-signature configuration.
pub open spec fn is_signer(s: RegistryState, caller: Address) -> bool {
    s.multisig is Some && listed(s.multisig->0.signers, caller)
}

/// Projects registered so far by `admin`.
pub open spec fn count_of(m: Map<Seq<char>, u32>, k: Seq<char>) -> u32 {
    if m.dom().contains(k) { m[k] } else { 0 }
}

impl View for CarbonRegistryContract {
    type V = RegistryState;

    closed spec fn view(&self) -> RegistryState {
        RegistryState {
            admin: self.admin,
            oracle: self.oracle,
            verifiers: self.verifiers@,
            version: self.version,
            history: self.history@,
            max_history: self.max_history,
            multisig: match self.multisig {
                Some(c) => Some(c@),
                None => None,
            },
            pending: match self.pending {
                Some(p) => Some(p@),
                None => None,
            },
            proposal_counter: self.proposal_counter,
            projects: self.projects@,
            project_counts: self.project_counts@,
            serial_ranges: self.serial_ranges@,
            credit_contract: self.credit_contract,
        }
    }
}

impl CarbonRegistryContract {
    /// Storage is consistent: keyed records are unique, the upgrade list is
    /// within its cap, and no two issued serial ranges overlap.
    pub closed spec fn wf(&self) -> bool {
        &&& self.projects.wf()
        &&& self.project_counts.wf()
        &&& self@.history.len() <= history_cap(self.max_history)
        &&& match self.max_history {
            Some(n) => MIN_HISTORY_ENTRIES <= n <= MAX_HISTORY_ENTRIES_LIMIT,
            None => true,
        }
        &&& pairwise_disjoint(self.serial_ranges@)
    }

    /// What well-formed storage guarantees: the registered serial ranges are
    /// non-empty and pairwise disjoint, and the upgrade history stays within
    /// a cap of 10 to 200 records.
    pub proof fn lemma_wf_facts(&self)
        requires
            self.wf(),
        ensures
            pairwise_disjoint(self@.serial_ranges),
            self@.history.len() <= history_cap(self@.max_history),
            self@.max_history matches Some(n) ==> MIN_HISTORY_ENTRIES <= n <= MAX_HISTORY_ENTRIES_LIMIT,
    {
    }

    /// The storage of a registry that has never been initialised.
    pub fn new() -> (c: Self)
        ensures
            c.wf(),
            c@.admin is None,
            c@.oracle is None,
            c@.verifiers == Seq::<Address>::empty(),
            c@.version == CURRENT_VERSION,
            c@.history == Seq::<UpgradeRecord>::empty(),
            c@.max_history is None,
            c@.multisig is None,
            c@.pending is None,
            c@.proposal_counter == 0,
            c@.projects == Map::<Seq<char>, CarbonProject>::empty(),
            c@.project_counts == Map::<Seq<char>, u32>::empty(),
            c@.serial_ranges == Seq::<SerialRange>::empty(),
            c@.credit_contract is None,
    {
        let c = CarbonRegistryContract {
            admin: None,
            oracle: None,
            verifiers: Vec::new(),
            version: CURRENT_VERSION,
            history: Vec::new(),
            max_history: None,
            multisig: None,
            pending: None,
            proposal_counter: 0,
            projects: Table::new(),
            project_counts: Table::new(),
            serial_ranges: Vec::new(),
            credit_contract: None,
        };
        proof {
        }
        c
    }

    // ── Guards ───────────────────────────────────────────────────────────────

    /// Succeeds when `caller` is the stored admin.
    fn require_admin(&self, caller: &Address) -> (r: Result<(), CarbonError>)
        ensures
            r is Ok <==> is_admin(self@, *caller),
            r is Err ==> r == Err::<(), CarbonError>(CarbonError::UnauthorizedVerifier),
    {
        match &self.admin {
            Some(a) => if *a == *caller {
                Ok(())
            } else {
                Err(CarbonError::UnauthorizedVerifier)
            },
            None => Err(CarbonError::UnauthorizedVerifier),
        }
    }

    /// Succeeds when `caller` is a registered verifier.
    fn require_verifier(&self, caller: &Address) -> (r: Result<(), CarbonError>)
        ensures
            r is Ok <==> listed(self@.verifiers, *caller),
            r is Err ==> r == Err::<(), CarbonError>(CarbonError::UnauthorizedVerifier),
    {
        if contains_address(&self.verifiers, caller) {
            Ok(())
        } else {
            Err(CarbonError::UnauthorizedVerifier)
        }
    }

    /// Succeeds when `caller` is the stored oracle.
    fn require_oracle(&self, caller: &Address) -> (r: Result<(), CarbonError>)
        ensures
            r is Ok <==> is_oracle(self@, *caller),
            r is Err ==> r == Err::<(), CarbonError>(CarbonError::UnauthorizedOracle),
    {
        match &self.oracle {
            Some(o) => if *o == *caller {
                Ok(())
            } else {
                Err(CarbonError::UnauthorizedOracle)
            },
            None => Err(CarbonError::UnauthorizedOracle),
        }
    }

    /// Succeeds when `caller` is a multi-signature signer.
    fn require_multisig_signer(&self, caller: &Address) -> (r: Result<(), CarbonError>)
        ensures
            r is Ok <==> is_signer(self@, *caller),
            r is Err ==> r == Err::<(), CarbonError>(CarbonError::UnauthorizedUpgrade),
    {
        match &self.multisig {
            Some(c) => if contains_address(&c.signers, caller) {
                Ok(())
            } else {
                Err(CarbonError::UnauthorizedUpgrade)
            },
            None => Err(CarbonError::UnauthorizedUpgrade),
        }
    }

    /// A copy of the project stored under `project_id`.
    fn load_project(&self, project_id: &String) -> (r: Result<CarbonProject, CarbonError>)
        requires
            self.wf(),
        ensures
            match r {
                Ok(p) => self@.projects.dom().contains(project_id@) && p == self@.projects[project_id@],
                Err(e) => !self@.projects.dom().contains(project_id@) && e == CarbonError::ProjectNotFound,
            },
    {
        match self.projects.get(project_id) {
            Some(p) => Ok(p.duplicate()),
            None => Err(CarbonError::ProjectNotFound),
        }
    }
}


/// Appending a range that meets none of a disjoint list keeps it disjoint.
proof fn lemma_push_disjoint(s: Seq<SerialRange>, r: SerialRange)
    requires
        pairwise_disjoint(s),
        r.start <= r.end,
        clear_of(s, r.start, r.end),
    ensures
        pairwise_disjoint(s.push(r)),
{
    let t = s.push(r);
    assert forall|i: int, j: int| 0 <= i < t.len() && 0 <= j < t.len() && i != j
        implies !meets((#[trigger] t[i]).start, t[i].end, #[trigger] t[j]) by {
        if i == s.len() {
            assert(!meets(r.start, r.end, s[j]));
        } else if j == s.len() {
            assert(!meets(r.start, r.end, s[i]));
        } else {
            assert(t[i] == s[i] && t[j] == s[j]);
        }
    }
    assert forall|i: int| 0 <= i < t.len() implies (#[trigger] t[i]).start <= t[i].end by {
        if i < s.len() {
            assert(t[i] == s[i]);
        }
    }
}

/// Position of the first occurrence of `a` in `l` (compared by text).
pub open spec fn first_index(l: Seq<Address>, a: Address) -> int {
    choose|i: int| 0 <= i < l.len() && l[i]@ == a@ && forall|j: int| 0 <= j < i ==> (#[trigger] l[j])@ != a@
}

impl CarbonRegistryContract {
    // ── Initialisation ───────────────────────────────────────────────────────

    /// The state after `initialize`.
    pub open spec fn initialize_result(s: RegistryState, admin: Address, oracle: Address, verifiers: Seq<Address>)
        -> Result<RegistryState, CarbonError> {
        if s.admin is Some {
            Err(CarbonError::AlreadyInitialized)
        } else {
            Ok(RegistryState {
                admin: Some(admin),
                oracle: Some(oracle),
                verifiers,
                version: CURRENT_VERSION,
                serial_ranges: Seq::empty(),
                ..s
            })
        }
    }

    /// Record the admin, the oracle and the initial verifiers.  Refused once
    /// an admin is set.
    pub fn initialize(&mut self, admin: Address, oracle: Address, verifiers: Vec<Address>) -> (r: Result<(), CarbonError>)
        requires
            old(self).wf(),
        ensures
            final(self).wf(),
            match r {
                Ok(_) => Self::initialize_result(old(self)@, admin, oracle, verifiers@)
                    == Ok::<RegistryState, CarbonError>(final(self)@),
                Err(e) => Self::initialize_result(old(self)@, admin, oracle, verifiers@)
                    == Err::<RegistryState, CarbonError>(e) && final(self)@ == old(self)@,
            },
    {
        if self.admin.is_some() {
            return Err(CarbonError::AlreadyInitialized);
        }
        self.admin = Some(admin);
        self.oracle = Some(oracle);
        self.verifiers = verifiers;
        self.version = CURRENT_VERSION;
        self.serial_ranges = Vec::new();
        proof {
            assert(self@.serial_ranges =~= Seq::<SerialRange>::empty());
        }
        Ok(())
    }

    // ── Upgrades and history ─────────────────────────────────────────────────

    /// The state after `upgrade_contract`, with the pruning event if the
    /// history overflowed its cap.
    pub open spec fn upgrade_result(s: RegistryState, admin: Address, wasm_hash: [u8; 32], now: u64)
        -> Result<(RegistryState, Option<HistoryPrunedEvent>), CarbonError> {
        if !is_admin(s, admin) {
            Err(CarbonError::UnauthorizedVerifier)
        } else {
            let rec = UpgradeRecord {
                from_version: s.version,
                to_version: (s.version + 1) as u32,
                timestamp: now,
                upgraded_by: admin,
                wasm_hash,
            };
            let cap = history_cap(s.max_history);
            let h = s.history;
            Ok((RegistryState {
                version: (s.version + 1) as u32,
                history: keep_last(h.push(rec), cap),
                ..s
            }, prune_event(h.len() + 1, cap, now)))
        }
    }

    /// Admin: record an upgrade to the code with hash `wasm_hash`: the
    /// version goes up by one and the upgrade is appended to the history,
    /// dropping the oldest records beyond the cap.
    pub fn upgrade_contract(&mut self, admin: &Address, wasm_hash: [u8; 32], now: u64)
        -> (r: Result<Option<HistoryPrunedEvent>, CarbonError>)
        requires
            old(self).wf(),
            old(self)@.version < u32::MAX,
        ensures
            final(self).wf(),
            match r {
                Ok(ev) => Self::upgrade_result(old(self)@, *admin, wasm_hash, now)
                    == Ok::<(RegistryState, Option<HistoryPrunedEvent>), CarbonError>((final(self)@, ev)),
                Err(e) => Self::upgrade_result(old(self)@, *admin, wasm_hash, now)
                    == Err::<(RegistryState, Option<HistoryPrunedEvent>), CarbonError>(e) && final(self)@ == old(self)@,
            },
    {
        self.require_admin(admin)?;
        let current = self.version;
        let next = current + 1;
        let rec = UpgradeRecord {
            from_version: current,
            to_version: next,
            timestamp: now,
            upgraded_by: admin.clone(),
            wasm_hash,
        };
        let max: u32 = match self.max_history {
            Some(n) => n,
            None => DEFAULT_MAX_HISTORY_ENTRIES,
        };
        let ev = append_bounded(&mut self.history, rec, max, now);
        self.version = next;
        Ok(ev)
    }

    /// The contract's version number.
    pub fn get_version(&self) -> (v: u32)
        ensures
            v == self@.version,
    {
        self.version
    }

    /// The most recent upgrade record, if any upgrade happened.
    pub fn get_upgrade_history(&self) -> (r: Option<UpgradeRecord>)
        ensures
            r == (if self@.history.len() == 0 { None } else { Some(self@.history.last()) }),
    {
        latest_record(&self.history)
    }

    /// A page of the upgrade history, oldest first: `limit` is capped at 50
    /// and a zero limit is refused.
    pub fn get_upgrade_history_page(&self, offset: u32, limit: u32) -> (r: Result<Vec<UpgradeRecord>, CarbonError>)
        requires
            self.wf(),
        ensures
            match history_page(self@.history, offset, limit) {
                Some(p) => r is Ok && r->Ok_0@ == p,
                None => r == Err::<Vec<UpgradeRecord>, CarbonError>(CarbonError::PageSizeTooLarge),
            },
    {
        if limit == 0 {
            return Err(CarbonError::PageSizeTooLarge);
        }
        match page_of(&self.history, offset, limit) {
            Some(p) => Ok(p),
            None => Err(CarbonError::PageSizeTooLarge),
        }
    }

    /// The state after `set_max_history_entries`, with the pruning event if
    /// the history had to shrink.
    pub open spec fn max_history_result(s: RegistryState, admin: Address, n: u32, now: u64)
        -> Result<(RegistryState, Option<HistoryPrunedEvent>), CarbonError> {
        if !is_admin(s, admin) {
            Err(CarbonError::UnauthorizedVerifier)
        } else {
            let cap = clamp_cap(n);
            let h = s.history;
            Ok((RegistryState {
                max_history: Some(cap),
                history: keep_last(h, cap as nat),
                ..s
            }, prune_event(h.len(), cap as nat, now)))
        }
    }

    /// Admin: set how many upgrade records are kept (clamped to
    /// `[MIN_HISTORY_ENTRIES, MAX_HISTORY_ENTRIES_LIMIT]`), pruning at once.
    pub fn set_max_history_entries(&mut self, admin: &Address, n: u32, now: u64)
        -> (r: Result<Option<HistoryPrunedEvent>, CarbonError>)
        requires
            old(self).wf(),
        ensures
            final(self).wf(),
            match r {
                Ok(ev) => Self::max_history_result(old(self)@, *admin, n, now)
                    == Ok::<(RegistryState, Option<HistoryPrunedEvent>), CarbonError>((final(self)@, ev)),
                Err(e) => Self::max_history_result(old(self)@, *admin, n, now)
                    == Err::<(RegistryState, Option<HistoryPrunedEvent>), CarbonError>(e) && final(self)@ == old(self)@,
            },
    {
        self.require_admin(admin)?;
        let cap = clamp_history_cap(n);
        self.max_history = Some(cap);
        let ev = prune_to(&mut self.history, cap, now);
        Ok(ev)
    }
}

impl CarbonRegistryContract {
    // ── Multi-signature upgrades ─────────────────────────────────────────────

    /// The state after `initialize_multisig`.
    pub open spec fn multisig_result(s: RegistryState, admin: Address, signers: Seq<Address>, threshold: u32)
        -> Result<RegistryState, CarbonError> {
        if !is_admin(s, admin) {
            Err(CarbonError::UnauthorizedVerifier)
        } else if threshold == 0 || threshold > signers.len() {
            Err(CarbonError::UnauthorizedUpgrade)
        } else {
            Ok(RegistryState { multisig: Some(MultiSigView { signers, threshold }), ..s })
        }
    }

    /// Admin: require `threshold` approvals out of `signers` for upgrades;
    /// the threshold must be between 1 and the number of signers.
    pub fn initialize_multisig(&mut self, admin: &Address, signers: Vec<Address>, threshold: u32)
        -> (r: Result<(), CarbonError>)
        requires
            old(self).wf(),
        ensures
            final(self).wf(),
            match r {
                Ok(_) => Self::multisig_result(old(self)@, *admin, signers@, threshold)
                    == Ok::<RegistryState, CarbonError>(final(self)@),
                Err(e) => Self::multisig_result(old(self)@, *admin, signers@, threshold)
                    == Err::<RegistryState, CarbonError>(e) && final(self)@ == old(self)@,
            },
    {
        self.require_admin(admin)?;
        if threshold == 0 || threshold as usize > signers.len() {
            return Err(CarbonError::UnauthorizedUpgrade);
        }
        self.multisig = Some(MultiSigConfig { signers, threshold });
        Ok(())
    }

    /// The state after `propose_upgrade` at ledger `sequence`, with the new
    /// proposal's id.  A new proposal replaces any pending one.
    pub open spec fn propose_result(s: RegistryState, proposer: Address, wasm_hash: [u8; 32], sequence: u32)
        -> Result<(RegistryState, u32), CarbonError> {
        if !is_signer(s, proposer) {
            Err(CarbonError::UnauthorizedUpgrade)
        } else {
            let id = (s.proposal_counter + 1) as u32;
            let expiry = if sequence + PROPOSAL_TTL_LEDGERS > u32::MAX { u32::MAX } else {
                (sequence + PROPOSAL_TTL_LEDGERS) as u32
            };
            Ok((RegistryState {
                proposal_counter: id,
                pending: Some(ProposalView {
                    proposal_id: id,
                    wasm_hash,
                    expiry_ledger: expiry,
                    approvals: seq![proposer],
                    executed: false,
                }),
                ..s
            }, id))
        }
    }

    /// A signer proposes an upgrade to `wasm_hash`; the proposal counts the
    /// proposer's approval and expires 518 400 ledgers after `sequence`.
    pub fn propose_upgrade(&mut self, proposer: &Address, wasm_hash: [u8; 32], sequence: u32)
        -> (r: Result<u32, CarbonError>)
        requires
            old(self).wf(),
            is_signer(old(self)@, *proposer) ==> old(self)@.proposal_counter < u32::MAX,
        ensures
            final(self).wf(),
            match r {
                Ok(id) => Self::propose_result(old(self)@, *proposer, wasm_hash, sequence)
                    == Ok::<(RegistryState, u32), CarbonError>((final(self)@, id)),
                Err(e) => Self::propose_result(old(self)@, *proposer, wasm_hash, sequence)
                    == Err::<(RegistryState, u32), CarbonError>(e) && final(self)@ == old(self)@,
            },
    {
        self.require_multisig_signer(proposer)?;
        let id = self.proposal_counter + 1;
        self.proposal_counter = id;
        let expiry = sequence.saturating_add(PROPOSAL_TTL_LEDGERS);
        let mut approvals: Vec<Address> = Vec::new();
        approvals.push(proposer.clone());
        proof {
            assert(approvals@ =~= seq![*proposer]);
        }
        self.pending = Some(UpgradeProposal { proposal_id: id, wasm_hash, expiry_ledger: expiry, approvals, executed: false });
        Ok(id)
    }

    /// The first check that an approval fails, if any.
    pub open spec fn approve_error(s: RegistryState, approver: Address, proposal_id: u32, sequence: u32)
        -> Option<CarbonError> {
        if !is_signer(s, approver) {
            Some(CarbonError::UnauthorizedUpgrade)
        } else if s.pending is None {
            Some(CarbonError::ProposalNotFound)
        } else {
            let p = s.pending->0;
            if p.proposal_id != proposal_id || p.executed {
                Some(CarbonError::ProposalNotFound)
            } else if sequence > p.expiry_ledger {
                Some(CarbonError::ProposalExpired)
            } else if listed(p.approvals, approver) {
                Some(CarbonError::DuplicateApproval)
            } else {
                None
            }
        }
    }

    /// The approval reaches the threshold, so the upgrade executes.
    pub open spec fn approval_executes(s: RegistryState) -> bool {
        s.pending->0.approvals.len() + 1 >= s.multisig->0.threshold
    }

    /// The state after `approve_upgrade`, and whether the upgrade executed.
    /// An executed upgrade bumps the version and appends its record to the
    /// upgrade history, dropping the oldest records beyond the cap.
    pub open spec fn approve_result(s: RegistryState, approver: Address, proposal_id: u32, sequence: u32, now: u64)
        -> Result<(RegistryState, bool), CarbonError> {
        match Self::approve_error(s, approver, proposal_id, sequence) {
            Some(e) => Err(e),
            None => {
                let p = s.pending->0;
                let approvals = p.approvals.push(approver);
                if Self::approval_executes(s) {
                    Ok((RegistryState {
                        pending: Some(ProposalView { approvals, executed: true, ..p }),
                        version: (s.version + 1) as u32,
                        history: keep_last(s.history.push(UpgradeRecord {
                            from_version: s.version,
                            to_version: (s.version + 1) as u32,
                            timestamp: now,
                            upgraded_by: approver,
                            wasm_hash: p.wasm_hash,
                        }), history_cap(s.max_history)),
                        ..s
                    }, true))
                } else {
                    Ok((RegistryState { pending: Some(ProposalView { approvals, ..p }), ..s }, false))
                }
            },
        }
    }

    /// A signer approves the pending proposal `proposal_id` at ledger
    /// `sequence`.  When approvals reach the threshold the upgrade executes
    /// and `true` is returned: the caller then deploys the proposal's code.
    pub fn approve_upgrade(&mut self, approver: &Address, proposal_id: u32, sequence: u32, now: u64)
        -> (r: Result<bool, CarbonError>)
        requires
            old(self).wf(),
            Self::approve_error(old(self)@, *approver, proposal_id, sequence) is None
                && Self::approval_executes(old(self)@) ==> old(self)@.version < u32::MAX,
        ensures
            final(self).wf(),
            match r {
                Ok(x) => Self::approve_result(old(self)@, *approver, proposal_id, sequence, now)
                    == Ok::<(RegistryState, bool), CarbonError>((final(self)@, x)),
                Err(e) => Self::approve_result(old(self)@, *approver, proposal_id, sequence, now)
                    == Err::<(RegistryState, bool), CarbonError>(e) && final(self)@ == old(self)@,
            },
    {
        self.require_multisig_signer(approver)?;
        let threshold = match &self.multisig {
            Some(c) => c.threshold,
            None => return Err(CarbonError::UnauthorizedUpgrade),
        };
        let ghost s0 = self@;
        let mut proposal = match &self.pending {
            Some(p) => p.duplicate(),
            None => return Err(CarbonError::ProposalNotFound),
        };
        if proposal.proposal_id != proposal_id || proposal.executed {
            return Err(CarbonError::ProposalNotFound);
        }
        if sequence > proposal.expiry_ledger {
            return Err(CarbonError::ProposalExpired);
        }
        if contains_address(&proposal.approvals, approver) {
            return Err(CarbonError::DuplicateApproval);
        }
        proposal.approvals.push(approver.clone());
        let executes = proposal.approvals.len() >= threshold as usize;
        if executes {
            proposal.executed = true;
            let current = self.version;
            let hash = proposal.wasm_hash;
            self.pending = Some(proposal);
            self.version = current + 1;
            let max: u32 = match self.max_history {
                Some(n) => n,
                None => DEFAULT_MAX_HISTORY_ENTRIES,
            };
            let rec = UpgradeRecord {
                from_version: current,
                to_version: current + 1,
                timestamp: now,
                upgraded_by: approver.clone(),
                wasm_hash: hash,
            };
            let _ = append_bounded(&mut self.history, rec, max, now);
        } else {
            self.pending = Some(proposal);
        }
        Ok(executes)
    }

    /// The state after `cancel_upgrade`.
    pub open spec fn cancel_result(s: RegistryState, canceller: Address, proposal_id: u32) -> Result<RegistryState, CarbonError> {
        if !is_signer(s, canceller) {
            Err(CarbonError::UnauthorizedUpgrade)
        } else if s.pending is None || s.pending->0.proposal_id != proposal_id {
            Err(CarbonError::ProposalNotFound)
        } else {
            Ok(RegistryState { pending: None, ..s })
        }
    }

    /// A signer withdraws the pending proposal `proposal_id`.
    pub fn cancel_upgrade(&mut self, canceller: &Address, proposal_id: u32) -> (r: Result<(), CarbonError>)
        requires
            old(self).wf(),
        ensures
            final(self).wf(),
            match r {
                Ok(_) => Self::cancel_result(old(self)@, *canceller, proposal_id) == Ok::<RegistryState, CarbonError>(final(self)@),
                Err(e) => Self::cancel_result(old(self)@, *canceller, proposal_id) == Err::<RegistryState, CarbonError>(e)
                    && final(self)@ == old(self)@,
            },
    {
        self.require_multisig_signer(canceller)?;
        let matches = match &self.pending {
            Some(p) => p.proposal_id == proposal_id,
            None => false,
        };
        if !matches {
            return Err(CarbonError::ProposalNotFound);
        }
        self.pending = None;
        Ok(())
    }

    /// How many upgrade proposals were ever made (the id of the latest one).
    pub fn get_proposal_count(&self) -> (n: u32)
        ensures
            n == self@.proposal_counter,
    {
        self.proposal_counter
    }

    /// The pending (or last executed) proposal, if any.
    pub fn get_pending_upgrade(&self) -> (r: Option<UpgradeProposal>)
        ensures
            match r {
                Some(p) => self@.pending == Some(p@),
                None => self@.pending is None,
            },
    {
        match &self.pending {
            Some(p) => Some(p.duplicate()),
            None => None,
        }
    }
}

impl CarbonRegistryContract {
    // ── Projects ─────────────────────────────────────────────────────────────

    /// The first check that registering a project fails, if any.
    pub open spec fn register_error(
        s: RegistryState,
        admin: Address,
        project_id: String,
        name: String,
        metadata_cid: String,
        methodology: String,
        country: String,
        project_type: String,
        vintage_year: u32,
        methodology_score: u32,
        now: u64,
    ) -> Option<CarbonError> {
        if !is_admin(s, admin) {
            Some(CarbonError::UnauthorizedVerifier)
        } else if !text_within(project_id@, 64) || !text_within(name@, 128) || !text_within(metadata_cid@, 128)
            || !text_within(methodology@, 64) || !text_within(country@, 64) || !text_within(project_type@, 64) {
            Some(CarbonError::ProjectNotFound)
        } else if vintage_year < MIN_PROJECT_VINTAGE || vintage_year > ledger_year(now) + 1 {
            Some(CarbonError::InvalidVintageYear)
        } else if methodology_score < MIN_METHODOLOGY_SCORE {
            Some(CarbonError::MethodologyScoreLow)
        } else if s.projects.dom().contains(project_id@) {
            Some(CarbonError::ProjectAlreadyExists)
        } else if count_of(s.project_counts, admin@) >= MAX_PROJECTS_PER_ADMIN {
            Some(CarbonError::StorageLimitExceeded)
        } else {
            None
        }
    }

    /// The state after `register_project`.
    pub open spec fn register_result(
        s: RegistryState,
        admin: Address,
        project_id: String,
        name: String,
        metadata_cid: String,
        verifier_address: Address,
        methodology: String,
        country: String,
        project_type: String,
        vintage_year: u32,
        methodology_score: u32,
        metadata_hash: [u8; 32],
        now: u64,
    ) -> Result<RegistryState, CarbonError> {
        match Self::register_error(s, admin, project_id, name, metadata_cid, methodology, country, project_type,
            vintage_year, methodology_score, now) {
            Some(e) => Err(e),
            None => {
                let p = CarbonProject {
                    project_id,
                    name,
                    methodology,
                    country,
                    project_type,
                    verifier_address,
                    metadata_cid,
                    metadata_hash,
                    total_credits_issued: 0,
                    total_credits_retired: 0,
                    methodology_score,
                    status: ProjectStatus::Pending,
                    vintage_year,
                    created_at: now,
                };
                Ok(RegistryState {
                    projects: s.projects.insert(project_id@, p),
                    project_counts: s.project_counts.insert(admin@, (count_of(s.project_counts, admin@) + 1) as u32),
                    ..s
                })
            },
        }
    }

    /// Admin: register a new project, pending review.  Texts must be
    /// non-empty and within their length limits, the vintage between 1990
    /// and next year, the methodology score at least 70, and the admin under
    /// its cap of 1000 projects.
    pub fn register_project(
        &mut self,
        admin: &Address,
        project_id: String,
        name: String,
        metadata_cid: String,
        verifier_address: Address,
        methodology: String,
        country: String,
        project_type: String,
        vintage_year: u32,
        methodology_score: u32,
        metadata_hash: [u8; 32],
        now: u64,
    ) -> (r: Result<(), CarbonError>)
        requires
            old(self).wf(),
        ensures
            final(self).wf(),
            match r {
                Ok(_) => Self::register_result(old(self)@, *admin, project_id, name, metadata_cid, verifier_address,
                    methodology, country, project_type, vintage_year, methodology_score, metadata_hash, now)
                    == Ok::<RegistryState, CarbonError>(final(self)@),
                Err(e) => Self::register_result(old(self)@, *admin, project_id, name, metadata_cid, verifier_address,
                    methodology, country, project_type, vintage_year, methodology_score, metadata_hash, now)
                    == Err::<RegistryState, CarbonError>(e) && final(self)@ == old(self)@,
            },
    {
        self.require_admin(admin)?;
        if !is_text_within(&project_id, 64) || !is_text_within(&name, 128) || !is_text_within(&metadata_cid, 128)
            || !is_text_within(&methodology, 64) || !is_text_within(&country, 64) || !is_text_within(&project_type, 64) {
            return Err(CarbonError::ProjectNotFound);
        }
        let year = current_year(now);
        if vintage_year < MIN_PROJECT_VINTAGE || vintage_year as u64 > year + 1 {
            return Err(CarbonError::InvalidVintageYear);
        }
        if methodology_score < MIN_METHODOLOGY_SCORE {
            return Err(CarbonError::MethodologyScoreLow);
        }
        if self.projects.contains(&project_id) {
            return Err(CarbonError::ProjectAlreadyExists);
        }
        let count: u32 = match self.project_counts.get(admin) {
            Some(c) => *c,
            None => 0,
        };
        if count >= MAX_PROJECTS_PER_ADMIN {
            return Err(CarbonError::StorageLimitExceeded);
        }
        let project = CarbonProject {
            project_id: project_id.clone(),
            name,
            methodology,
            country,
            project_type,
            verifier_address,
            metadata_cid,
            metadata_hash,
            total_credits_issued: 0,
            total_credits_retired: 0,
            methodology_score,
            status: ProjectStatus::Pending,
            vintage_year,
            created_at: now,
        };
        self.projects.insert(project_id, project);
        self.project_counts.insert(admin.clone(), count + 1);
        Ok(())
    }

    /// The state with project `project_id` in status `status`.
    pub open spec fn with_status(s: RegistryState, project_id: String, status: ProjectStatus) -> RegistryState {
        RegistryState {
            projects: s.projects.insert(project_id@, CarbonProject { status, ..s.projects[project_id@] }),
            ..s
        }
    }

    /// Set the status of a stored project.
    fn set_status(&mut self, project_id: &String, status: ProjectStatus) -> (r: Result<(), CarbonError>)
        requires
            old(self).wf(),
        ensures
            final(self).wf(),
            match r {
                Ok(_) => old(self)@.projects.dom().contains(project_id@)
                    && final(self)@ == Self::with_status(old(self)@, *project_id, status),
                Err(e) => !old(self)@.projects.dom().contains(project_id@) && e == CarbonError::ProjectNotFound
                    && final(self)@ == old(self)@,
            },
    {
        let project = self.load_project(project_id)?;
        let updated = CarbonProject { status, ..project };
        self.projects.insert(project_id.clone(), updated);
        Ok(())
    }

    /// The state after a verifier reviews a project.
    pub open spec fn review_result(s: RegistryState, verifier: Address, project_id: String, status: ProjectStatus)
        -> Result<RegistryState, CarbonError> {
        if !listed(s.verifiers, verifier) {
            Err(CarbonError::UnauthorizedVerifier)
        } else if !s.projects.dom().contains(project_id@) {
            Err(CarbonError::ProjectNotFound)
        } else {
            Ok(Self::with_status(s, project_id, status))
        }
    }

    /// A verifier approves a project.
    pub fn verify_project(&mut self, verifier: &Address, project_id: &String) -> (r: Result<(), CarbonError>)
        requires
            old(self).wf(),
        ensures
            final(self).wf(),
            match r {
                Ok(_) => Self::review_result(old(self)@, *verifier, *project_id, ProjectStatus::Verified)
                    == Ok::<RegistryState, CarbonError>(final(self)@),
                Err(e) => Self::review_result(old(self)@, *verifier, *project_id, ProjectStatus::Verified)
                    == Err::<RegistryState, CarbonError>(e) && final(self)@ == old(self)@,
            },
    {
        self.require_verifier(verifier)?;
        self.set_status(project_id, ProjectStatus::Verified)
    }

    /// A verifier rejects a project; `reason` goes to the event.
    pub fn reject_project(&mut self, verifier: &Address, project_id: &String, reason: &String) -> (r: Result<(), CarbonError>)
        requires
            old(self).wf(),
        ensures
            final(self).wf(),
            match r {
                Ok(_) => Self::review_result(old(self)@, *verifier, *project_id, ProjectStatus::Rejected)
                    == Ok::<RegistryState, CarbonError>(final(self)@),
                Err(e) => Self::review_result(old(self)@, *verifier, *project_id, ProjectStatus::Rejected)
                    == Err::<RegistryState, CarbonError>(e) && final(self)@ == old(self)@,
            },
    {
        let _ = reason;
        self.require_verifier(verifier)?;
        self.set_status(project_id, ProjectStatus::Rejected)
    }

    /// The state after the oracle sets a project's status.
    pub open spec fn oracle_status_result(s: RegistryState, oracle: Address, project_id: String, status: ProjectStatus)
        -> Result<RegistryState, CarbonError> {
        if !is_oracle(s, oracle) {
            Err(CarbonError::UnauthorizedOracle)
        } else if !s.projects.dom().contains(project_id@) {
            Err(CarbonError::ProjectNotFound)
        } else {
            Ok(Self::with_status(s, project_id, status))
        }
    }

    /// The oracle sets a project's status.
    pub fn update_project_status(&mut self, oracle: &Address, project_id: &String, status: ProjectStatus)
        -> (r: Result<(), CarbonError>)
        requires
            old(self).wf(),
        ensures
            final(self).wf(),
            match r {
                Ok(_) => Self::oracle_status_result(old(self)@, *oracle, *project_id, status)
                    == Ok::<RegistryState, CarbonError>(final(self)@),
                Err(e) => Self::oracle_status_result(old(self)@, *oracle, *project_id, status)
                    == Err::<RegistryState, CarbonError>(e) && final(self)@ == old(self)@,
            },
    {
        self.require_oracle(oracle)?;
        self.set_status(project_id, status)
    }

    /// The state after the admin suspends a project.
    pub open spec fn suspend_result(s: RegistryState, admin: Address, project_id: String) -> Result<RegistryState, CarbonError> {
        if !is_admin(s, admin) {
            Err(CarbonError::UnauthorizedVerifier)
        } else if !s.projects.dom().contains(project_id@) {
            Err(CarbonError::ProjectNotFound)
        } else {
            Ok(Self::with_status(s, project_id, ProjectStatus::Suspended))
        }
    }

    /// Admin: suspend a project; `reason` goes to the event.
    pub fn suspend_project(&mut self, admin: &Address, project_id: &String, reason: &String) -> (r: Result<(), CarbonError>)
        requires
            old(self).wf(),
        ensures
            final(self).wf(),
            match r {
                Ok(_) => Self::suspend_result(old(self)@, *admin, *project_id) == Ok::<RegistryState, CarbonError>(final(self)@),
                Err(e) => Self::suspend_result(old(self)@, *admin, *project_id) == Err::<RegistryState, CarbonError>(e)
                    && final(self)@ == old(self)@,
            },
    {
        let _ = reason;
        self.require_admin(admin)?;
        self.set_status(project_id, ProjectStatus::Suspended)
    }

    /// The state after the oracle contract (`caller`) suspends a project for
    /// stale monitoring data, and whether the status changed.
    pub open spec fn oracle_suspend_result(s: RegistryState, caller: Address, project_id: String)
        -> Result<(RegistryState, bool), CarbonError> {
        if !is_oracle(s, caller) {
            Err(CarbonError::UnauthorizedOracle)
        } else if !s.projects.dom().contains(project_id@) {
            Err(CarbonError::ProjectNotFound)
        } else if s.projects[project_id@].status == ProjectStatus::Suspended {
            Ok((s, false))
        } else {
            Ok((Self::with_status(s, project_id, ProjectStatus::Suspended), true))
        }
    }

    /// The oracle contract suspends a project whose monitoring data went
    /// stale.  Idempotent: an already suspended project is left as it is, and
    /// `false` is returned (no event is due).
    pub fn oracle_suspend_project(&mut self, caller: &Address, project_id: &String, reason: &String)
        -> (r: Result<bool, CarbonError>)
        requires
            old(self).wf(),
        ensures
            final(self).wf(),
            match r {
                Ok(changed) => Self::oracle_suspend_result(old(self)@, *caller, *project_id)
                    == Ok::<(RegistryState, bool), CarbonError>((final(self)@, changed)),
                Err(e) => Self::oracle_suspend_result(old(self)@, *caller, *project_id)
                    == Err::<(RegistryState, bool), CarbonError>(e) && final(self)@ == old(self)@,
            },
    {
        let _ = reason;
        self.require_oracle(caller)?;
        let project = self.load_project(project_id)?;
        if project.status == ProjectStatus::Suspended {
            return Ok(false);
        }
        self.set_status(project_id, ProjectStatus::Suspended)?;
        Ok(true)
    }

    /// The project stored under `project_id`.
    pub fn get_project(&self, project_id: &String) -> (r: Result<CarbonProject, CarbonError>)
        requires
            self.wf(),
        ensures
            match r {
                Ok(p) => self@.projects.dom().contains(project_id@) && p == self@.projects[project_id@],
                Err(e) => !self@.projects.dom().contains(project_id@) && e == CarbonError::ProjectNotFound,
            },
    {
        self.load_project(project_id)
    }

    /// Whether `hash` equals the metadata hash recorded at registration;
    /// `false` for an unknown project.
    pub fn verify_metadata_integrity(&self, project_id: &String, hash: &[u8; 32]) -> (b: bool)
        requires
            self.wf(),
        ensures
            b == (self@.projects.dom().contains(project_id@) && self@.projects[project_id@].metadata_hash@ == hash@),
    {
        match self.projects.get(project_id) {
            Some(p) => crate::common::same_hash(&p.metadata_hash, hash),
            None => false,
        }
    }

    // ── Issuance and retirement totals ───────────────────────────────────────

    /// The state after `increment_issued`.
    pub open spec fn increment_result(s: RegistryState, oracle: Address, project_id: String, amount: i128)
        -> Result<RegistryState, CarbonError> {
        if !is_oracle(s, oracle) {
            Err(CarbonError::UnauthorizedOracle)
        } else if !s.projects.dom().contains(project_id@) {
            Err(CarbonError::ProjectNotFound)
        } else {
            let p = s.projects[project_id@];
            let issued = p.total_credits_issued + amount;
            if issued > i128::MAX || issued < i128::MIN {
                Err(CarbonError::InvalidSerialRange)
            } else {
                Ok(RegistryState {
                    projects: s.projects.insert(project_id@, CarbonProject { total_credits_issued: issued as i128, ..p }),
                    ..s
                })
            }
        }
    }

    /// The oracle adds `amount` to a project's issued total.
    pub fn increment_issued(&mut self, oracle: &Address, project_id: &String, amount: i128) -> (r: Result<(), CarbonError>)
        requires
            old(self).wf(),
        ensures
            final(self).wf(),
            match r {
                Ok(_) => Self::increment_result(old(self)@, *oracle, *project_id, amount)
                    == Ok::<RegistryState, CarbonError>(final(self)@),
                Err(e) => Self::increment_result(old(self)@, *oracle, *project_id, amount)
                    == Err::<RegistryState, CarbonError>(e) && final(self)@ == old(self)@,
            },
    {
        self.require_oracle(oracle)?;
        let project = self.load_project(project_id)?;
        let issued = match project.total_credits_issued.checked_add(amount) {
            Some(v) => v,
            None => return Err(CarbonError::InvalidSerialRange),
        };
        let updated = CarbonProject { total_credits_issued: issued, ..project };
        self.projects.insert(project_id.clone(), updated);
        Ok(())
    }

    /// The state after the registry's `retire_credits`.
    pub open spec fn retire_result(s: RegistryState, admin: Address, project_id: String, amount: i128)
        -> Result<RegistryState, CarbonError> {
        if !is_admin(s, admin) {
            Err(CarbonError::UnauthorizedVerifier)
        } else if amount <= 0 {
            Err(CarbonError::ZeroAmountNotAllowed)
        } else if !s.projects.dom().contains(project_id@) {
            Err(CarbonError::ProjectNotFound)
        } else {
            let p = s.projects[project_id@];
            if p.total_credits_retired + amount > p.total_credits_issued {
                Err(CarbonError::InsufficientCredits)
            } else {
                Ok(RegistryState {
                    projects: s.projects.insert(
                        project_id@,
                        CarbonProject { total_credits_retired: (p.total_credits_retired + amount) as i128, ..p },
                    ),
                    ..s
                })
            }
        }
    }

    /// Admin: count `amount` more credits of a project as retired; the
    /// retired total may not pass the issued total.
    pub fn retire_credits(&mut self, admin: &Address, project_id: &String, amount: i128) -> (r: Result<(), CarbonError>)
        requires
            old(self).wf(),
            is_admin(old(self)@, *admin) && amount > 0 && old(self)@.projects.dom().contains(project_id@)
                ==> old(self)@.projects[project_id@].total_credits_retired + amount <= i128::MAX,
        ensures
            final(self).wf(),
            match r {
                Ok(_) => Self::retire_result(old(self)@, *admin, *project_id, amount)
                    == Ok::<RegistryState, CarbonError>(final(self)@),
                Err(e) => Self::retire_result(old(self)@, *admin, *project_id, amount)
                    == Err::<RegistryState, CarbonError>(e) && final(self)@ == old(self)@,
            },
    {
        self.require_admin(admin)?;
        if amount <= 0 {
            return Err(CarbonError::ZeroAmountNotAllowed);
        }
        let project = self.load_project(project_id)?;
        let retired = project.total_credits_retired + amount;
        if retired > project.total_credits_issued {
            return Err(CarbonError::InsufficientCredits);
        }
        let updated = CarbonProject { total_credits_retired: retired, ..project };
        self.projects.insert(project_id.clone(), updated);
        Ok(())
    }
}

impl CarbonRegistryContract {
    // ── Serial ranges ────────────────────────────────────────────────────────

    /// Append `[start, end]` unless it meets a registered range.
    fn check_and_register_serial_range(&mut self, start: u64, end: u64) -> (r: Result<(), CarbonError>)
        requires
            old(self).wf(),
            start <= end,
        ensures
            final(self).wf(),
            match r {
                Ok(_) => clear_of(old(self)@.serial_ranges, start, end) && final(self)@ == (RegistryState {
                    serial_ranges: old(self)@.serial_ranges.push(SerialRange { start, end }),
                    ..old(self)@
                }),
                Err(e) => !clear_of(old(self)@.serial_ranges, start, end) && e == CarbonError::DuplicateSerial
                    && final(self)@ == old(self)@,
            },
    {
        let ghost s0 = self@;
        let mut i: usize = 0;
        while i < self.serial_ranges.len()
            invariant
                self.wf(),
                self@ == s0,
                i <= self.serial_ranges@.len(),
                forall|j: int| 0 <= j < i ==> !meets(start, end, #[trigger] self.serial_ranges@[j]),
            decreases self.serial_ranges@.len() - i,
        {
            let no_overlap = end < self.serial_ranges[i].start || start > self.serial_ranges[i].end;
            if !no_overlap {
                return Err(CarbonError::DuplicateSerial);
            }
            i = i + 1;
        }
        proof {
            lemma_push_disjoint(self.serial_ranges@, SerialRange { start, end });
        }
        self.serial_ranges.push(SerialRange { start, end });
        Ok(())
    }

    /// The state after registering `[start, end]` once the caller passed its
    /// check.
    pub open spec fn serial_result(s: RegistryState, start: u64, end: u64) -> Result<RegistryState, CarbonError> {
        if start > end {
            Err(CarbonError::InvalidSerialRange)
        } else if !clear_of(s.serial_ranges, start, end) {
            Err(CarbonError::DuplicateSerial)
        } else {
            Ok(RegistryState { serial_ranges: s.serial_ranges.push(SerialRange { start, end }), ..s })
        }
    }

    /// Admin: register the serial range `[serial_start, serial_end]`,
    /// refused when it overlaps any registered range.
    pub fn register_serial_range(&mut self, admin: &Address, serial_start: u64, serial_end: u64)
        -> (r: Result<(), CarbonError>)
        requires
            old(self).wf(),
        ensures
            final(self).wf(),
            match r {
                Ok(_) => is_admin(old(self)@, *admin) && Self::serial_result(old(self)@, serial_start, serial_end)
                    == Ok::<RegistryState, CarbonError>(final(self)@),
                Err(e) => final(self)@ == old(self)@ && if is_admin(old(self)@, *admin) {
                    Self::serial_result(old(self)@, serial_start, serial_end) == Err::<RegistryState, CarbonError>(e)
                } else {
                    e == CarbonError::UnauthorizedVerifier
                },
            },
    {
        self.require_admin(admin)?;
        if serial_start > serial_end {
            return Err(CarbonError::InvalidSerialRange);
        }
        self.check_and_register_serial_range(serial_start, serial_end)
    }

    /// All registered serial ranges, in registration order.
    pub fn get_issued_serial_ranges(&self) -> (r: Vec<SerialRange>)
        ensures
            r@ == self@.serial_ranges,
    {
        let mut out: Vec<SerialRange> = Vec::new();
        let mut i: usize = 0;
        while i < self.serial_ranges.len()
            invariant
                i <= self.serial_ranges@.len(),
                out@ == self.serial_ranges@.subrange(0, i as int),
            decreases self.serial_ranges@.len() - i,
        {
            out.push(SerialRange { start: self.serial_ranges[i].start, end: self.serial_ranges[i].end });
            i = i + 1;
            proof {
                assert(out@ =~= self.serial_ranges@.subrange(0, i as int));
            }
        }
        proof {
            assert(self.serial_ranges@.subrange(0, self.serial_ranges@.len() as int) =~= self.serial_ranges@);
        }
        out
    }

    /// The state after `set_credit_contract`.
    pub open spec fn set_credit_contract_result(s: RegistryState, admin: Address, credit_contract: Address)
        -> Result<RegistryState, CarbonError> {
        if !is_admin(s, admin) {
            Err(CarbonError::UnauthorizedVerifier)
        } else {
            Ok(RegistryState { credit_contract: Some(credit_contract), ..s })
        }
    }

    /// Admin: name the credit contract that may register serial ranges.
    pub fn set_credit_contract(&mut self, admin: &Address, credit_contract: Address) -> (r: Result<(), CarbonError>)
        requires
            old(self).wf(),
        ensures
            final(self).wf(),
            match r {
                Ok(_) => Self::set_credit_contract_result(old(self)@, *admin, credit_contract)
                    == Ok::<RegistryState, CarbonError>(final(self)@),
                Err(e) => Self::set_credit_contract_result(old(self)@, *admin, credit_contract)
                    == Err::<RegistryState, CarbonError>(e) && final(self)@ == old(self)@,
            },
    {
        self.require_admin(admin)?;
        self.credit_contract = Some(credit_contract);
        Ok(())
    }

    /// The credit contract registers the serial range of a batch it mints;
    /// refused for any other caller and when the range overlaps one already
    /// registered.
    pub fn register_serial_range_by_credit_contract(&mut self, credit_contract: &Address, serial_start: u64,
        serial_end: u64) -> (r: Result<(), CarbonError>)
        requires
            old(self).wf(),
        ensures
            final(self).wf(),
            match r {
                Ok(_) => old(self)@.credit_contract == Some(*credit_contract)
                    || (old(self)@.credit_contract is Some && old(self)@.credit_contract->0@ == credit_contract@),
                Err(_) => final(self)@ == old(self)@,
            },
            match r {
                Ok(_) => Self::serial_result(old(self)@, serial_start, serial_end) == Ok::<RegistryState, CarbonError>(final(self)@),
                Err(e) => if old(self)@.credit_contract is Some && old(self)@.credit_contract->0@ == credit_contract@ {
                    Self::serial_result(old(self)@, serial_start, serial_end) == Err::<RegistryState, CarbonError>(e)
                } else {
                    e == CarbonError::UnauthorizedVerifier
                },
            },
    {
        match &self.credit_contract {
            Some(c) => if *c != *credit_contract {
                return Err(CarbonError::UnauthorizedVerifier);
            },
            None => return Err(CarbonError::UnauthorizedVerifier),
        }
        if serial_start > serial_end {
            return Err(CarbonError::InvalidSerialRange);
        }
        self.check_and_register_serial_range(serial_start, serial_end)
    }

    // ── Verifiers ────────────────────────────────────────────────────────────

    /// The state after `add_verifier`.
    pub open spec fn add_verifier_result(s: RegistryState, admin: Address, verifier: Address) -> Result<RegistryState, CarbonError> {
        if !is_admin(s, admin) {
            Err(CarbonError::UnauthorizedVerifier)
        } else if listed(s.verifiers, verifier) {
            Ok(s)
        } else {
            Ok(RegistryState { verifiers: s.verifiers.push(verifier), ..s })
        }
    }

    /// Admin: add a verifier unless already present.
    pub fn add_verifier(&mut self, admin: &Address, verifier: Address) -> (r: Result<(), CarbonError>)
        requires
            old(self).wf(),
        ensures
            final(self).wf(),
            match r {
                Ok(_) => Self::add_verifier_result(old(self)@, *admin, verifier) == Ok::<RegistryState, CarbonError>(final(self)@),
                Err(e) => Self::add_verifier_result(old(self)@, *admin, verifier) == Err::<RegistryState, CarbonError>(e)
                    && final(self)@ == old(self)@,
            },
    {
        self.require_admin(admin)?;
        if !contains_address(&self.verifiers, &verifier) {
            self.verifiers.push(verifier);
        }
        Ok(())
    }

    /// The state after `remove_verifier`.
    pub open spec fn remove_verifier_result(s: RegistryState, admin: Address, verifier: Address)
        -> Result<RegistryState, CarbonError> {
        if !is_admin(s, admin) {
            Err(CarbonError::UnauthorizedVerifier)
        } else if listed(s.verifiers, verifier) {
            Ok(RegistryState { verifiers: s.verifiers.remove(first_index(s.verifiers, verifier)), ..s })
        } else {
            Ok(s)
        }
    }

    /// Admin: remove the first occurrence of a verifier, if present.
    pub fn remove_verifier(&mut self, admin: &Address, verifier: &Address) -> (r: Result<(), CarbonError>)
        requires
            old(self).wf(),
        ensures
            final(self).wf(),
            match r {
                Ok(_) => Self::remove_verifier_result(old(self)@, *admin, *verifier) == Ok::<RegistryState, CarbonError>(final(self)@),
                Err(e) => Self::remove_verifier_result(old(self)@, *admin, *verifier) == Err::<RegistryState, CarbonError>(e)
                    && final(self)@ == old(self)@,
            },
    {
        self.require_admin(admin)?;
        let ghost v0 = self.verifiers@;
        let ghost s0 = self@;
        let mut i: usize = 0;
        while i < self.verifiers.len()
            invariant
                self.wf(),
                self@ == s0,
                old(self)@ == s0,
                is_admin(s0, *admin),
                s0.verifiers == v0,
                self.verifiers@ == v0,
                i <= v0.len(),
                forall|j: int| 0 <= j < i ==> (#[trigger] v0[j])@ != verifier@,
            decreases v0.len() - i,
        {
            if self.verifiers[i] == *verifier {
                proof {
                    assert(v0[i as int]@ == verifier@);
                    assert(exists|x: int| 0 <= x < v0.len() && v0[x]@ == verifier@
                        && forall|j: int| 0 <= j < x ==> (#[trigger] v0[j])@ != verifier@);
                    let k = first_index(v0, *verifier);
                    assert(0 <= k < v0.len() && v0[k]@ == verifier@
                        && forall|j: int| 0 <= j < k ==> (#[trigger] v0[j])@ != verifier@);
                    if k < i {
                        assert(v0[k]@ != verifier@);
                    } else if k > i {
                        assert(v0[i as int]@ != verifier@);
                    }
                    assert(k == i as int);
                    assert(listed(v0, *verifier));
                }
                let _ = self.verifiers.remove(i);
                proof {
                    assert(self@ =~= (RegistryState { verifiers: v0.remove(i as int), ..s0 }));
                }
                return Ok(());
            }
            i = i + 1;
        }
        proof {
            assert(!listed(v0, *verifier));
        }
        Ok(())
    }

    /// The verifiers, in the order they were added.
    pub fn get_verifiers(&self) -> (r: Vec<Address>)
        ensures
            r@ == self@.verifiers,
    {
        copy_texts(&self.verifiers)
    }
}

/// Registering a range keeps the list disjoint.
pub proof fn lemma_push_keeps_disjoint(s: Seq<SerialRange>, start: u64, end: u64)
    requires
        pairwise_disjoint(s),
        start <= end,
        clear_of(s, start, end),
    ensures
        pairwise_disjoint(s.push(SerialRange { start, end })),
{
    lemma_push_disjoint(s, SerialRange { start, end });
}
} // verus!
