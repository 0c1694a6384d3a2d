//! The oracle contract: signed monitoring reports, benchmark prices set
//! directly or through a 24-hour timelock, project flags, freshness checks
//! for monitoring data and prices, and a liveness switch that asks the
//! registry to suspend projects whose monitoring went stale.
//!
//! Every signed entry point consumes the oracle's nonce.  The caller checks
//! the ed25519 signature over the call's payload with the key that
//! `authorize_signed` hands out before it invokes the entry point; cross-
//! contract calls and events are likewise left to the caller.

use vstd::prelude::*;
use crate::common::{Address, UpgradeRecord};
use crate::table::Table;

verus! {

/// Earliest valid vintage year for carbon credits.
pub const VINTAGE_YEAR_MIN: u32 = 1990;
/// Years after which a vintage counts as expired.
pub const MAX_VINTAGE_AGE_YEARS: u32 = 30;
/// Default liveness window of monitoring data (365 days).
pub const MONITORING_FRESHNESS_SECS: u64 = 31_536_000;
/// Default staleness window of a benchmark price (24 hours).
pub const PRICE_STALENESS_SECS: u64 = 86_400;
/// Delay before a proposed price may take effect (24 hours).
pub const TIMELOCK_DELAY: u64 = 86_400;
/// The same delay under the name the propose/execute flow uses.
pub const PRICE_TIMELOCK_DELAY_SECS: u64 = 86_400;
/// Version number of a freshly initialised contract.
pub const CURRENT_VERSION: u32 = 1;
/// Seconds in a day.
pub const SECONDS_PER_DAY: u64 = 86_400;

/// Errors of the oracle contract.
#[derive(Copy, Clone, Debug, Eq, PartialEq, PartialOrd, Ord)]
pub enum CarbonError {
    ProjectNotFound,
    ProjectNotVerified,
    ProjectSuspended,
    InsufficientCredits,
    AlreadyRetired,
    SerialNumberConflict,
    UnauthorizedVerifier,
    UnauthorizedOracle,
    InvalidNonce,
    InvalidSignature,
    InvalidVintageYear,
    ListingNotFound,
    InsufficientLiquidity,
    PriceNotSet,
    MonitoringDataStale,
    DoubleCountingDetected,
    RetirementIrreversible,
    ZeroAmountNotAllowed,
    ProjectAlreadyExists,
    InvalidSerialRange,
    AlreadyInitialized,
    Arithmetic,
    UnauthorizedUpgrade,
    /// A proposed price update exists but its timelock has not yet elapsed.
    TimelockNotReady,
    /// No pending price update exists for the methodology and vintage.
    NoPendingUpdate,
    /// The timelock of the pending price proposal has not yet expired.
    TimelockNotExpired,
    /// No pending price proposal exists for the methodology and vintage.
    NoPendingProposal,
}

/// The numeric code of each error, as callers see it.
pub open spec fn error_code(e: CarbonError) -> u32 {
    match e {
        CarbonError::ProjectNotFound => 1,
        CarbonError::ProjectNotVerified => 2,
        CarbonError::ProjectSuspended => 3,
        CarbonError::InsufficientCredits => 4,
        CarbonError::AlreadyRetired => 5,
        CarbonError::SerialNumberConflict => 6,
        CarbonError::UnauthorizedVerifier => 7,
        CarbonError::UnauthorizedOracle => 8,
        CarbonError::InvalidNonce => 22,
        CarbonError::InvalidSignature => 23,
        CarbonError::InvalidVintageYear => 9,
        CarbonError::ListingNotFound => 10,
        CarbonError::InsufficientLiquidity => 11,
        CarbonError::PriceNotSet => 12,
        CarbonError::MonitoringDataStale => 13,
        CarbonError::DoubleCountingDetected => 14,
        CarbonError::RetirementIrreversible => 15,
        CarbonError::ZeroAmountNotAllowed => 16,
        CarbonError::ProjectAlreadyExists => 17,
        CarbonError::InvalidSerialRange => 18,
        CarbonError::AlreadyInitialized => 19,
        CarbonError::Arithmetic => 20,
        CarbonError::UnauthorizedUpgrade => 21,
        CarbonError::TimelockNotReady => 24,
        CarbonError::NoPendingUpdate => 25,
        CarbonError::TimelockNotExpired => 26,
        CarbonError::NoPendingProposal => 27,
    }
}

impl CarbonError {
    /// The numeric code under which the error is reported to callers.
    pub fn code(&self) -> (c: u32)
        ensures
            c == error_code(*self),
    {
        match self {
            CarbonError::ProjectNotFound => 1,
            CarbonError::ProjectNotVerified => 2,
            CarbonError::ProjectSuspended => 3,
            CarbonError::InsufficientCredits => 4,
            CarbonError::AlreadyRetired => 5,
            CarbonError::SerialNumberConflict => 6,
            CarbonError::UnauthorizedVerifier => 7,
            CarbonError::UnauthorizedOracle => 8,
            CarbonError::InvalidNonce => 22,
            CarbonError::InvalidSignature => 23,
            CarbonError::InvalidVintageYear => 9,
            CarbonError::ListingNotFound => 10,
            CarbonError::InsufficientLiquidity => 11,
            CarbonError::PriceNotSet => 12,
            CarbonError::MonitoringDataStale => 13,
            CarbonError::DoubleCountingDetected => 14,
            CarbonError::RetirementIrreversible => 15,
            CarbonError::ZeroAmountNotAllowed => 16,
            CarbonError::ProjectAlreadyExists => 17,
            CarbonError::InvalidSerialRange => 18,
            CarbonError::AlreadyInitialized => 19,
            CarbonError::Arithmetic => 20,
            CarbonError::UnauthorizedUpgrade => 21,
            CarbonError::TimelockNotReady => 24,
            CarbonError::NoPendingUpdate => 25,
            CarbonError::TimelockNotExpired => 26,
            CarbonError::NoPendingProposal => 27,
        }
    }
}

/// One verified monitoring report of a project for a period.
#[derive(Debug, Clone)]
pub struct MonitoringData {
    pub project_id: String,
    pub period: String,
    pub tonnes_verified: i128,
    pub methodology_score: u32,
    pub satellite_cid: String,
    pub submitted_by: Address,
    pub submitted_at: u64,
}

impl MonitoringData {
    /// A field-by-field copy.
    pub fn duplicate(&self) -> (r: Self)
        ensures
            r == *self,
    {
        MonitoringData {
            project_id: self.project_id.clone(),
            period: self.period.clone(),
            tonnes_verified: self.tonnes_verified,
            methodology_score: self.methodology_score,
            satellite_cid: self.satellite_cid.clone(),
            submitted_by: self.submitted_by.clone(),
            submitted_at: self.submitted_at,
        }
    }
}

/// A price proposed through `propose_price_update`, executable from
/// `execute_after` on.
#[derive(Debug, Clone)]
pub struct ProposedPriceUpdate {
    /// The proposed price (USDC stroops per tonne of CO2e).
    pub price_usdc: i128,
    /// Time from which the proposal may be executed.
    pub execute_after: u64,
    /// The oracle that proposed it.
    pub proposed_by: Address,
    /// The nonce the proposal consumed.
    pub nonce: u64,
}

/// A price proposed through `propose_price`, executable 24 hours after
/// `proposed_at`.
#[derive(Debug, Clone)]
pub struct PendingPriceProposal {
    pub methodology: String,
    pub vintage_year: u32,
    pub price_usdc: i128,
    pub proposed_by: Address,
    pub proposed_at: u64,
}

/// What the pending-price slot of a methodology and vintage holds: one of
/// the two kinds of proposal, whichever flow wrote it last.
#[derive(Debug, Clone)]
pub enum PendingPrice {
    Proposal(PendingPriceProposal),
    Update(ProposedPriceUpdate),
}

/// The abstract state of the oracle.
#[verifier::ext_equal]
pub struct OracleState {
    pub admin: Option<Address>,
    pub oracle: Option<Address>,
    pub oracle_pub_key: Option<[u8; 32]>,
    pub nonce: u64,
    pub version: u32,
    pub last_upgrade: Option<UpgradeRecord>,
    pub registry: Option<Address>,
    pub liveness_sla: Option<u64>,
    pub price_staleness: Option<u64>,
    pub monitoring: Map<(Seq<char>, Seq<char>), MonitoringData>,
    pub latest_monitoring: Map<Seq<char>, u64>,
    pub prices: Map<(Seq<char>, u32), i128>,
    pub price_updated_at: Map<(Seq<char>, u32), u64>,
    pub pending: Map<(Seq<char>, u32), PendingPrice>,
    /// The reason each flagged project was flagged for.
    pub flagged: Map<Seq<char>, Seq<char>>,
}

/// The oracle contract's storage.
pub struct CarbonOracleContract {
    admin: Option<Address>,
    oracle: Option<Address>,
    oracle_pub_key: Option<[u8; 32]>,
    nonce: u64,
    version: u32,
    last_upgrade: Option<UpgradeRecord>,
    registry: Option<Address>,
    liveness_sla: Option<u64>,
    price_staleness: Option<u64>,
    monitoring: Table<(String, String), MonitoringData>,
    latest_monitoring: Table<String, u64>,
    prices: Table<(String, u32), i128>,
    price_updated_at: Table<(String, u32), u64>,
    pending: Table<(String, u32), PendingPrice>,
    flagged: Table<String, String>,
}

// ── Calendar ─────────────────────────────────────────────────────────────────

/// Gregorian leap year.
pub open spec fn is_leap(year: int) -> bool {
    (year % 4 == 0 && year % 100 != 0) || year % 400 == 0
}

/// Days in a Gregorian year.
pub open spec fn days_in_year(year: int) -> int {
    if is_leap(year) { 366 } else { 365 }
}

/// The year in which day `days` (counted from January 1 of `year`) falls.
pub open spec fn year_after_days(days: int, year: int) -> int
    decreases days,
{
    if days < days_in_year(year) || days < 0 {
        year
    } else {
        year_after_days(days - days_in_year(year), year + 1)
    }
}

/// The calendar year of ledger time `now`.
pub open spec fn civil_year(now: u64) -> int {
    year_after_days((now / SECONDS_PER_DAY) as int, 1970)
}

/// The calendar year of ledger time `now`, walking the years from 1970.
pub fn get_current_year(now: u64) -> (y: u64)
    ensures
        y == civil_year(now),
        1970 <= y <= 1970 + now / SECONDS_PER_DAY,
{
    let mut days: u64 = now / SECONDS_PER_DAY;
    let mut year: u64 = 1970;
    assert(year_after_days(days as int, year as int) == civil_year(now));
    loop
        invariant
            1970 <= year <= 1970 + now / SECONDS_PER_DAY - days,
            days <= now / SECONDS_PER_DAY,
            year_after_days(days as int, year as int) == civil_year(now),
        decreases days,
    {
        let leap = (year % 4 == 0 && year % 100 != 0) || year % 400 == 0;
        let len: u64 = if leap { 366 } else { 365 };
        if days < len {
            return year;
        }
        days = days - len;
        year = year + 1;
    }
}

/// A vintage that prices may be set for in year `year`: from 1990 up to
/// next year, and not more than 30 years old.
pub open spec fn price_vintage_ok(vintage_year: u32, year: int) -> bool {
    VINTAGE_YEAR_MIN <= vintage_year && vintage_year <= year + 1 && vintage_year + MAX_VINTAGE_AGE_YEARS >= year
}

// ── Spec helpers ─────────────────────────────────────────────────────────────

/// `caller` is the stored admin.
pub open spec fn is_admin(s: OracleState, caller: Address) -> bool {
    s.admin is Some && s.admin->0@ == caller@
}

/// `caller` is the stored oracle.
pub open spec fn is_oracle(s: OracleState, caller: Address) -> bool {
    s.oracle is Some && s.oracle->0@ == caller@
}

/// The first check of a signed call that fails, if any: the caller must be
/// the oracle, the nonce the stored one, and a public key on record.
pub open spec fn signed_error(s: OracleState, caller: Address, nonce: u64) -> Option<CarbonError> {
    if !is_oracle(s, caller) {
        Some(CarbonError::UnauthorizedOracle)
    } else if nonce != s.nonce {
        Some(CarbonError::InvalidNonce)
    } else if s.oracle_pub_key is None {
        Some(CarbonError::UnauthorizedOracle)
    } else {
        None
    }
}

/// Liveness window in force.
pub open spec fn sla_of(s: OracleState) -> u64 {
    match s.liveness_sla {
        Some(x) => x,
        None => MONITORING_FRESHNESS_SECS,
    }
}

/// Price staleness window in force.
pub open spec fn staleness_of(s: OracleState) -> u64 {
    match s.price_staleness {
        Some(x) => x,
        None => PRICE_STALENESS_SECS,
    }
}

/// `now - t`, or `0` when `t` is later.
pub open spec fn elapsed(now: u64, t: u64) -> int {
    if t > now { 0 } else { now - t }
}

/// The project's latest monitoring report lies within the liveness window.
pub open spec fn monitoring_current(s: OracleState, project_id: Seq<char>, now: u64) -> bool {
    s.latest_monitoring.dom().contains(project_id) && elapsed(now, s.latest_monitoring[project_id]) <= sla_of(s)
}

/// The benchmark price was set within the staleness window.
pub open spec fn price_current(s: OracleState, methodology: Seq<char>, vintage_year: u32, now: u64) -> bool {
    s.price_updated_at.dom().contains((methodology, vintage_year))
        && elapsed(now, s.price_updated_at[(methodology, vintage_year)]) <= staleness_of(s)
}

impl View for CarbonOracleContract {
    type V = OracleState;

    closed spec fn view(&self) -> OracleState {
        OracleState {
            admin: self.admin,
            oracle: self.oracle,
            oracle_pub_key: self.oracle_pub_key,
            nonce: self.nonce,
            version: self.version,
            last_upgrade: self.last_upgrade,
            registry: self.registry,
            liveness_sla: self.liveness_sla,
            price_staleness: self.price_staleness,
            monitoring: self.monitoring@,
            latest_monitoring: self.latest_monitoring@,
            prices: self.prices@,
            price_updated_at: self.price_updated_at@,
            pending: self.pending@,
            flagged: self.flagged@.map_values(|r: String| r@),
        }
    }
}

impl CarbonOracleContract {
    /// Storage is consistent: keyed records are unique.
    pub closed spec fn wf(&self) -> bool {
        &&& self.monitoring.wf()
        &&& self.latest_monitoring.wf()
        &&& self.prices.wf()
        &&& self.price_updated_at.wf()
        &&& self.pending.wf()
        &&& self.flagged.wf()
    }

    /// The storage of an oracle that has never been initialised.
    pub fn new() -> (c: Self)
        ensures
            c.wf(),
            c@.admin is None,
            c@.oracle is None,
            c@.oracle_pub_key is None,
            c@.nonce == 0,
            c@.version == CURRENT_VERSION,
            c@.last_upgrade is None,
            c@.registry is None,
            c@.liveness_sla is None,
            c@.price_staleness is None,
            c@.monitoring == Map::<(Seq<char>, Seq<char>), MonitoringData>::empty(),
            c@.latest_monitoring == Map::<Seq<char>, u64>::empty(),
            c@.prices == Map::<(Seq<char>, u32), i128>::empty(),
            c@.price_updated_at == Map::<(Seq<char>, u32), u64>::empty(),
            c@.pending == Map::<(Seq<char>, u32), PendingPrice>::empty(),
            c@.flagged == Map::<Seq<char>, Seq<char>>::empty(),
    {
        let c = CarbonOracleContract {
            admin: None,
            oracle: None,
            oracle_pub_key: None,
            nonce: 0,
            version: CURRENT_VERSION,
            last_upgrade: None,
            registry: None,
            liveness_sla: None,
            price_staleness: None,
            monitoring: Table::new(),
            latest_monitoring: Table::new(),
            prices: Table::new(),
            price_updated_at: Table::new(),
            pending: Table::new(),
            flagged: Table::new(),
        };
        proof {
            assert(c@.flagged =~= Map::<Seq<char>, Seq<char>>::empty());
        }
        c
    }

    // ── Guards ───────────────────────────────────────────────────────────────

    /// Succeeds when `caller` is the stored admin.
    fn require_admin(&self, caller: &Address) -> (r: Result<(), CarbonError>)
        ensures
            r is Ok <==> is_admin(self@, *caller),
            r is Err ==> r == Err::<(), CarbonError>(CarbonError::UnauthorizedVerifier),
    {
        match &self.admin {
            Some(a) => if *a == *caller {
                Ok(())
            } else {
                Err(CarbonError::UnauthorizedVerifier)
            },
            None => Err(CarbonError::UnauthorizedVerifier),
        }
    }

    /// Succeeds when `caller` is the stored oracle.
    fn require_oracle(&self, caller: &Address) -> (r: Result<(), CarbonError>)
        ensures
            r is Ok <==> is_oracle(self@, *caller),
            r is Err ==> r == Err::<(), CarbonError>(CarbonError::UnauthorizedOracle),
    {
        match &self.oracle {
            Some(o) => if *o == *caller {
                Ok(())
            } else {
                Err(CarbonError::UnauthorizedOracle)
            },
            None => Err(CarbonError::UnauthorizedOracle),
        }
    }

    /// The checks that precede the signature check of a signed call: on
    /// success, the public key the signature must verify against.
    pub fn authorize_signed(&self, caller: &Address, nonce: u64) -> (r: Result<[u8; 32], CarbonError>)
        ensures
            match r {
                Ok(k) => signed_error(self@, *caller, nonce) is None && self@.oracle_pub_key == Some(k),
                Err(e) => signed_error(self@, *caller, nonce) == Some(e),
            },
    {
        self.require_oracle(caller)?;
        if nonce != self.nonce {
            return Err(CarbonError::InvalidNonce);
        }
        match self.oracle_pub_key {
            Some(k) => Ok(k),
            None => Err(CarbonError::UnauthorizedOracle),
        }
    }
}


/// `a + b` clamped to the range of `i128`.
pub open spec fn sat_add_i128(a: i128, b: i128) -> i128 {
    if a + b > i128::MAX { i128::MAX } else if a + b < i128::MIN { i128::MIN } else { (a + b) as i128 }
}

/// Saturating sum of the tonnes reported for `project_id` in the periods
/// of `periods`; periods without a report count nothing.
pub open spec fn tonnes_total(s: OracleState, project_id: Seq<char>, periods: Seq<String>) -> i128
    decreases periods.len(),
{
    if periods.len() == 0 {
        0
    } else {
        let prev = tonnes_total(s, project_id, periods.drop_last());
        let k = (project_id, periods.last()@);
        if s.monitoring.dom().contains(k) { sat_add_i128(prev, s.monitoring[k].tonnes_verified) } else { prev }
    }
}

impl PendingPriceProposal {
    /// A field-by-field copy.
    pub fn duplicate(&self) -> (r: Self)
        ensures
            r == *self,
    {
        PendingPriceProposal {
            methodology: self.methodology.clone(),
            vintage_year: self.vintage_year,
            price_usdc: self.price_usdc,
            proposed_by: self.proposed_by.clone(),
            proposed_at: self.proposed_at,
        }
    }
}

impl ProposedPriceUpdate {
    /// A field-by-field copy.
    pub fn duplicate(&self) -> (r: Self)
        ensures
            r == *self,
    {
        ProposedPriceUpdate {
            price_usdc: self.price_usdc,
            execute_after: self.execute_after,
            proposed_by: self.proposed_by.clone(),
            nonce: self.nonce,
        }
    }
}

impl CarbonOracleContract {
    // ── Administration ───────────────────────────────────────────────────────

    /// The state after `initialize`.
    pub open spec fn initialize_result(s: OracleState, admin: Address, oracle: Address, pub_key: [u8; 32], registry: Address)
        -> Result<OracleState, CarbonError> {
        if s.admin is Some {
            Err(CarbonError::AlreadyInitialized)
        } else {
            Ok(OracleState {
                admin: Some(admin),
                oracle: Some(oracle),
                oracle_pub_key: Some(pub_key),
                nonce: 0,
                version: CURRENT_VERSION,
                registry: Some(registry),
                liveness_sla: Some(MONITORING_FRESHNESS_SECS),
                ..s
            })
        }
    }

    /// Record the admin, the oracle and its public key, and the registry.
    /// Refused once an admin is set.
    pub fn initialize(&mut self, admin: Address, oracle: Address, pub_key: [u8; 32], registry: Address)
        -> (r: Result<(), CarbonError>)
        requires
            old(self).wf(),
        ensures
            final(self).wf(),
            match r {
                Ok(_) => Self::initialize_result(old(self)@, admin, oracle, pub_key, registry)
                    == Ok::<OracleState, CarbonError>(final(self)@),
                Err(e) => Self::initialize_result(old(self)@, admin, oracle, pub_key, registry)
                    == Err::<OracleState, CarbonError>(e) && final(self)@ == old(self)@,
            },
    {
        if self.admin.is_some() {
            return Err(CarbonError::AlreadyInitialized);
        }
        self.admin = Some(admin);
        self.oracle = Some(oracle);
        self.oracle_pub_key = Some(pub_key);
        self.nonce = 0;
        self.version = CURRENT_VERSION;
        self.registry = Some(registry);
        self.liveness_sla = Some(MONITORING_FRESHNESS_SECS);
        Ok(())
    }

    /// The state after `upgrade_contract`.
    pub open spec fn upgrade_result(s: OracleState, admin: Address, wasm_hash: [u8; 32], now: u64)
        -> Result<OracleState, CarbonError> {
        if !is_admin(s, admin) {
            Err(CarbonError::UnauthorizedVerifier)
        } else {
            Ok(OracleState {
                version: (s.version + 1) as u32,
                last_upgrade: Some(UpgradeRecord {
                    from_version: s.version,
                    to_version: (s.version + 1) as u32,
                    timestamp: now,
                    upgraded_by: admin,
                    wasm_hash,
                }),
                ..s
            })
        }
    }

    /// Admin: record an upgrade to the code with hash `wasm_hash`.
    pub fn upgrade_contract(&mut self, admin: &Address, wasm_hash: [u8; 32], now: u64) -> (r: Result<(), CarbonError>)
        requires
            old(self).wf(),
            old(self)@.version < u32::MAX,
        ensures
            final(self).wf(),
            match r {
                Ok(_) => Self::upgrade_result(old(self)@, *admin, wasm_hash, now) == Ok::<OracleState, CarbonError>(final(self)@),
                Err(e) => Self::upgrade_result(old(self)@, *admin, wasm_hash, now) == Err::<OracleState, CarbonError>(e)
                    && final(self)@ == old(self)@,
            },
    {
        self.require_admin(admin)?;
        let current = self.version;
        self.version = current + 1;
        self.last_upgrade = Some(UpgradeRecord {
            from_version: current,
            to_version: current + 1,
            timestamp: now,
            upgraded_by: admin.clone(),
            wasm_hash,
        });
        Ok(())
    }

    /// The contract's version number.
    pub fn get_version(&self) -> (v: u32)
        ensures
            v == self@.version,
    {
        self.version
    }

    /// The last upgrade, if any.
    pub fn get_upgrade_history(&self) -> (r: Option<UpgradeRecord>)
        ensures
            r == self@.last_upgrade,
    {
        match &self.last_upgrade {
            Some(rec) => Some(rec.duplicate()),
            None => None,
        }
    }

    /// The state after `rotate_oracle`.
    pub open spec fn rotate_result(s: OracleState, admin: Address, new_oracle: Address, new_pub_key: [u8; 32])
        -> Result<OracleState, CarbonError> {
        if !is_admin(s, admin) {
            Err(CarbonError::UnauthorizedVerifier)
        } else {
            Ok(OracleState { oracle: Some(new_oracle), oracle_pub_key: Some(new_pub_key), nonce: 0, ..s })
        }
    }

    /// Admin: hand the oracle role to a new address and key; the nonce
    /// starts again at zero.
    pub fn rotate_oracle(&mut self, admin: &Address, new_oracle: Address, new_pub_key: [u8; 32])
        -> (r: Result<(), CarbonError>)
        requires
            old(self).wf(),
        ensures
            final(self).wf(),
            match r {
                Ok(_) => Self::rotate_result(old(self)@, *admin, new_oracle, new_pub_key)
                    == Ok::<OracleState, CarbonError>(final(self)@),
                Err(e) => Self::rotate_result(old(self)@, *admin, new_oracle, new_pub_key)
                    == Err::<OracleState, CarbonError>(e) && final(self)@ == old(self)@,
            },
    {
        self.require_admin(admin)?;
        self.oracle = Some(new_oracle);
        self.oracle_pub_key = Some(new_pub_key);
        self.nonce = 0;
        Ok(())
    }

    /// The state after `set_liveness_sla`.
    pub open spec fn set_sla_result(s: OracleState, admin: Address, seconds: u64) -> Result<OracleState, CarbonError> {
        if !is_admin(s, admin) {
            Err(CarbonError::UnauthorizedVerifier)
        } else {
            Ok(OracleState { liveness_sla: Some(seconds), ..s })
        }
    }

    /// Admin: set the liveness window of monitoring data.
    pub fn set_liveness_sla(&mut self, admin: &Address, seconds: u64) -> (r: Result<(), CarbonError>)
        requires
            old(self).wf(),
        ensures
            final(self).wf(),
            match r {
                Ok(_) => Self::set_sla_result(old(self)@, *admin, seconds) == Ok::<OracleState, CarbonError>(final(self)@),
                Err(e) => Self::set_sla_result(old(self)@, *admin, seconds) == Err::<OracleState, CarbonError>(e)
                    && final(self)@ == old(self)@,
            },
    {
        self.require_admin(admin)?;
        self.liveness_sla = Some(seconds);
        Ok(())
    }

    /// The state after `set_price_staleness_window`.
    pub open spec fn set_staleness_result(s: OracleState, admin: Address, seconds: u64) -> Result<OracleState, CarbonError> {
        if !is_admin(s, admin) {
            Err(CarbonError::UnauthorizedVerifier)
        } else {
            Ok(OracleState { price_staleness: Some(seconds), ..s })
        }
    }

    /// Admin: set the staleness window of benchmark prices.
    pub fn set_price_staleness_window(&mut self, admin: &Address, seconds: u64) -> (r: Result<(), CarbonError>)
        requires
            old(self).wf(),
        ensures
            final(self).wf(),
            match r {
                Ok(_) => Self::set_staleness_result(old(self)@, *admin, seconds) == Ok::<OracleState, CarbonError>(final(self)@),
                Err(e) => Self::set_staleness_result(old(self)@, *admin, seconds) == Err::<OracleState, CarbonError>(e)
                    && final(self)@ == old(self)@,
            },
    {
        self.require_admin(admin)?;
        self.price_staleness = Some(seconds);
        Ok(())
    }

    // ── Signed reports ───────────────────────────────────────────────────────

    /// Consume the nonce of a signed call whose checks passed.
    fn consume_nonce(&mut self, caller: &Address, nonce: u64) -> (r: Result<(), CarbonError>)
        requires
            old(self).wf(),
            signed_error(old(self)@, *caller, nonce) is None ==> old(self)@.nonce < u64::MAX,
        ensures
            final(self).wf(),
            match r {
                Ok(_) => signed_error(old(self)@, *caller, nonce) is None
                    && final(self)@ == (OracleState { nonce: (old(self)@.nonce + 1) as u64, ..old(self)@ }),
                Err(e) => signed_error(old(self)@, *caller, nonce) == Some(e) && final(self)@ == old(self)@,
            },
    {
        self.authorize_signed(caller, nonce)?;
        self.nonce = nonce + 1;
        Ok(())
    }

    /// The state after `submit_monitoring_data`.
    pub open spec fn submit_result(
        s: OracleState,
        caller: Address,
        project_id: String,
        period: String,
        tonnes_verified: i128,
        methodology_score: u32,
        satellite_cid: String,
        nonce: u64,
        now: u64,
    ) -> Result<OracleState, CarbonError> {
        match signed_error(s, caller, nonce) {
            Some(e) => Err(e),
            None => if tonnes_verified <= 0 {
                Err(CarbonError::ZeroAmountNotAllowed)
            } else {
                let data = MonitoringData {
                    project_id,
                    period,
                    tonnes_verified,
                    methodology_score,
                    satellite_cid,
                    submitted_by: caller,
                    submitted_at: now,
                };
                Ok(OracleState {
                    nonce: (s.nonce + 1) as u64,
                    monitoring: s.monitoring.insert((project_id@, period@), data),
                    latest_monitoring: s.latest_monitoring.insert(project_id@, now),
                    ..s
                })
            },
        }
    }

    /// The oracle reports verified tonnes of a project for a period (the
    /// signature over the report has been checked by the caller).
    pub fn submit_monitoring_data(
        &mut self,
        caller: &Address,
        project_id: String,
        period: String,
        tonnes_verified: i128,
        methodology_score: u32,
        satellite_cid: String,
        nonce: u64,
        now: u64,
    ) -> (r: Result<(), CarbonError>)
        requires
            old(self).wf(),
            signed_error(old(self)@, *caller, nonce) is None ==> old(self)@.nonce < u64::MAX,
        ensures
            final(self).wf(),
            match r {
                Ok(_) => Self::submit_result(old(self)@, *caller, project_id, period, tonnes_verified, methodology_score,
                    satellite_cid, nonce, now) == Ok::<OracleState, CarbonError>(final(self)@),
                Err(e) => Self::submit_result(old(self)@, *caller, project_id, period, tonnes_verified, methodology_score,
                    satellite_cid, nonce, now) == Err::<OracleState, CarbonError>(e) && final(self)@ == old(self)@,
            },
    {
        self.authorize_signed(caller, nonce)?;
        if tonnes_verified <= 0 {
            return Err(CarbonError::ZeroAmountNotAllowed);
        }
        self.consume_nonce(caller, nonce)?;
        let data = MonitoringData {
            project_id: project_id.clone(),
            period: period.clone(),
            tonnes_verified,
            methodology_score,
            satellite_cid,
            submitted_by: caller.clone(),
            submitted_at: now,
        };
        self.monitoring.insert((project_id.clone(), period), data);
        self.latest_monitoring.insert(project_id, now);
        Ok(())
    }

    /// The first check of a signed price that fails, if any.
    pub open spec fn price_error(s: OracleState, caller: Address, vintage_year: u32, price_usdc: i128, nonce: u64, now: u64)
        -> Option<CarbonError> {
        match signed_error(s, caller, nonce) {
            Some(e) => Some(e),
            None => if price_usdc <= 0 {
                Some(CarbonError::ZeroAmountNotAllowed)
            } else if !price_vintage_ok(vintage_year, civil_year(now)) {
                Some(CarbonError::InvalidVintageYear)
            } else {
                None
            },
        }
    }

    /// The checks of a signed price after the signature.
    fn check_price(&self, caller: &Address, vintage_year: u32, price_usdc: i128, nonce: u64, now: u64)
        -> (r: Result<(), CarbonError>)
        ensures
            match r {
                Ok(_) => Self::price_error(self@, *caller, vintage_year, price_usdc, nonce, now) is None,
                Err(e) => Self::price_error(self@, *caller, vintage_year, price_usdc, nonce, now) == Some(e),
            },
    {
        self.authorize_signed(caller, nonce)?;
        if price_usdc <= 0 {
            return Err(CarbonError::ZeroAmountNotAllowed);
        }
        validate_vintage_year(vintage_year, now)?;
        validate_batch_not_expired(vintage_year, now)
    }

    /// The state after `propose_price`.
    pub open spec fn propose_result(s: OracleState, caller: Address, methodology: String, vintage_year: u32, price_usdc: i128,
        nonce: u64, now: u64) -> Result<OracleState, CarbonError> {
        match Self::price_error(s, caller, vintage_year, price_usdc, nonce, now) {
            Some(e) => Err(e),
            None => Ok(OracleState {
                nonce: (s.nonce + 1) as u64,
                pending: s.pending.insert((methodology@, vintage_year), PendingPrice::Proposal(PendingPriceProposal {
                    methodology,
                    vintage_year,
                    price_usdc,
                    proposed_by: caller,
                    proposed_at: now,
                })),
                ..s
            }),
        }
    }

    /// The oracle proposes a benchmark price that `execute_price` may apply
    /// 24 hours later; a new proposal replaces a pending one.
    pub fn propose_price(&mut self, caller: &Address, methodology: String, vintage_year: u32, price_usdc: i128, nonce: u64,
        now: u64) -> (r: Result<(), CarbonError>)
        requires
            old(self).wf(),
            signed_error(old(self)@, *caller, nonce) is None ==> old(self)@.nonce < u64::MAX,
        ensures
            final(self).wf(),
            match r {
                Ok(_) => Self::propose_result(old(self)@, *caller, methodology, vintage_year, price_usdc, nonce, now)
                    == Ok::<OracleState, CarbonError>(final(self)@),
                Err(e) => Self::propose_result(old(self)@, *caller, methodology, vintage_year, price_usdc, nonce, now)
                    == Err::<OracleState, CarbonError>(e) && final(self)@ == old(self)@,
            },
    {
        self.check_price(caller, vintage_year, price_usdc, nonce, now)?;
        self.consume_nonce(caller, nonce)?;
        let proposal = PendingPriceProposal {
            methodology: methodology.clone(),
            vintage_year,
            price_usdc,
            proposed_by: caller.clone(),
            proposed_at: now,
        };
        self.pending.insert((methodology, vintage_year), PendingPrice::Proposal(proposal));
        Ok(())
    }

    /// The state after `propose_price_update`, with the time from which it
    /// may be executed.
    pub open spec fn propose_update_result(s: OracleState, caller: Address, methodology: String, vintage_year: u32,
        price_usdc: i128, nonce: u64, now: u64) -> Result<(OracleState, u64), CarbonError> {
        match Self::price_error(s, caller, vintage_year, price_usdc, nonce, now) {
            Some(e) => Err(e),
            None => {
                let after = (now + TIMELOCK_DELAY) as u64;
                Ok((OracleState {
                    nonce: (s.nonce + 1) as u64,
                    pending: s.pending.insert((methodology@, vintage_year), PendingPrice::Update(ProposedPriceUpdate {
                        price_usdc,
                        execute_after: after,
                        proposed_by: caller,
                        nonce,
                    })),
                    ..s
                }, after))
            },
        }
    }

    /// The oracle proposes a benchmark price that `execute_price_update` may
    /// apply from 24 hours on; returns that time.
    pub fn propose_price_update(&mut self, caller: &Address, methodology: String, vintage_year: u32, price_usdc: i128,
        nonce: u64, now: u64) -> (r: Result<u64, CarbonError>)
        requires
            old(self).wf(),
            signed_error(old(self)@, *caller, nonce) is None ==> old(self)@.nonce < u64::MAX,
            Self::price_error(old(self)@, *caller, vintage_year, price_usdc, nonce, now) is None
                ==> now + TIMELOCK_DELAY <= u64::MAX,
        ensures
            final(self).wf(),
            match r {
                Ok(t) => Self::propose_update_result(old(self)@, *caller, methodology, vintage_year, price_usdc, nonce, now)
                    == Ok::<(OracleState, u64), CarbonError>((final(self)@, t)),
                Err(e) => Self::propose_update_result(old(self)@, *caller, methodology, vintage_year, price_usdc, nonce, now)
                    == Err::<(OracleState, u64), CarbonError>(e) && final(self)@ == old(self)@,
            },
    {
        self.check_price(caller, vintage_year, price_usdc, nonce, now)?;
        self.consume_nonce(caller, nonce)?;
        let after = now + TIMELOCK_DELAY;
        let update = ProposedPriceUpdate { price_usdc, execute_after: after, proposed_by: caller.clone(), nonce };
        self.pending.insert((methodology, vintage_year), PendingPrice::Update(update));
        Ok(after)
    }

    /// The state after `update_credit_price`.
    pub open spec fn update_price_result(s: OracleState, caller: Address, methodology: String, vintage_year: u32,
        price_usdc: i128, nonce: u64, now: u64) -> Result<OracleState, CarbonError> {
        match Self::price_error(s, caller, vintage_year, price_usdc, nonce, now) {
            Some(e) => Err(e),
            None => Ok(OracleState {
                nonce: (s.nonce + 1) as u64,
                prices: s.prices.insert((methodology@, vintage_year), price_usdc),
                price_updated_at: s.price_updated_at.insert((methodology@, vintage_year), now),
                ..s
            }),
        }
    }

    /// The oracle sets a benchmark price at once, without a timelock.
    pub fn update_credit_price(&mut self, caller: &Address, methodology: String, vintage_year: u32, price_usdc: i128,
        nonce: u64, now: u64) -> (r: Result<(), CarbonError>)
        requires
            old(self).wf(),
            signed_error(old(self)@, *caller, nonce) is None ==> old(self)@.nonce < u64::MAX,
        ensures
            final(self).wf(),
            match r {
                Ok(_) => Self::update_price_result(old(self)@, *caller, methodology, vintage_year, price_usdc, nonce, now)
                    == Ok::<OracleState, CarbonError>(final(self)@),
                Err(e) => Self::update_price_result(old(self)@, *caller, methodology, vintage_year, price_usdc, nonce, now)
                    == Err::<OracleState, CarbonError>(e) && final(self)@ == old(self)@,
            },
    {
        self.check_price(caller, vintage_year, price_usdc, nonce, now)?;
        self.consume_nonce(caller, nonce)?;
        self.prices.insert((methodology.clone(), vintage_year), price_usdc);
        self.price_updated_at.insert((methodology, vintage_year), now);
        Ok(())
    }

    /// The state after `flag_project`.
    pub open spec fn flag_result(s: OracleState, caller: Address, project_id: String, reason: String, nonce: u64)
        -> Result<OracleState, CarbonError> {
        match signed_error(s, caller, nonce) {
            Some(e) => Err(e),
            None => Ok(OracleState {
                nonce: (s.nonce + 1) as u64,
                flagged: s.flagged.insert(project_id@, reason@),
                ..s
            }),
        }
    }

    /// The oracle flags a project with a reason.
    pub fn flag_project(&mut self, caller: &Address, project_id: String, reason: String, nonce: u64)
        -> (r: Result<(), CarbonError>)
        requires
            old(self).wf(),
            signed_error(old(self)@, *caller, nonce) is None ==> old(self)@.nonce < u64::MAX,
        ensures
            final(self).wf(),
            match r {
                Ok(_) => Self::flag_result(old(self)@, *caller, project_id, reason, nonce) == Ok::<OracleState, CarbonError>(final(self)@),
                Err(e) => Self::flag_result(old(self)@, *caller, project_id, reason, nonce) == Err::<OracleState, CarbonError>(e)
                    && final(self)@ == old(self)@,
            },
    {
        self.consume_nonce(caller, nonce)?;
        let ghost s1 = self@;
        let ghost rv = reason@;
        self.flagged.insert(project_id.clone(), reason);
        proof {
            assert(self@.flagged =~= s1.flagged.insert(project_id@, rv));
        }
        Ok(())
    }
}

/// Fails with `InvalidVintageYear` unless `vintage_year` lies between 1990
/// and next year.
fn validate_vintage_year(vintage_year: u32, now: u64) -> (r: Result<(), CarbonError>)
    ensures
        r is Ok <==> (VINTAGE_YEAR_MIN <= vintage_year && vintage_year <= civil_year(now) + 1),
        r is Err ==> r == Err::<(), CarbonError>(CarbonError::InvalidVintageYear),
{
    let year = get_current_year(now);
    if vintage_year < VINTAGE_YEAR_MIN || vintage_year as u64 > year + 1 {
        return Err(CarbonError::InvalidVintageYear);
    }
    Ok(())
}

/// Fails with `InvalidVintageYear` when `vintage_year` is more than 30 years
/// before the current year.
fn validate_batch_not_expired(vintage_year: u32, now: u64) -> (r: Result<(), CarbonError>)
    ensures
        r is Ok <==> vintage_year + MAX_VINTAGE_AGE_YEARS >= civil_year(now),
        r is Err ==> r == Err::<(), CarbonError>(CarbonError::InvalidVintageYear),
{
    let year = get_current_year(now);
    if (vintage_year as u64) + (MAX_VINTAGE_AGE_YEARS as u64) < year {
        return Err(CarbonError::InvalidVintageYear);
    }
    Ok(())
}

/// The project has a stale (or no) monitoring report at `now`.
pub open spec fn monitoring_stale(s: OracleState, project_id: Seq<char>, now: u64) -> bool {
    !monitoring_current(s, project_id, now)
}

impl CarbonOracleContract {
    // ── Timelocked prices ────────────────────────────────────────────────────

    /// The state after `execute_price`.
    pub open spec fn execute_price_result(s: OracleState, caller: Address, methodology: String, vintage_year: u32, now: u64)
        -> Result<OracleState, CarbonError> {
        let k = (methodology@, vintage_year);
        if !is_oracle(s, caller) {
            Err(CarbonError::UnauthorizedOracle)
        } else if !s.pending.dom().contains(k) {
            Err(CarbonError::NoPendingProposal)
        } else {
            let p = s.pending[k]->Proposal_0;
            if elapsed(now, p.proposed_at) < PRICE_TIMELOCK_DELAY_SECS {
                Err(CarbonError::TimelockNotExpired)
            } else {
                Ok(OracleState {
                    prices: s.prices.insert(k, p.price_usdc),
                    price_updated_at: s.price_updated_at.insert(k, now),
                    pending: s.pending.remove(k),
                    ..s
                })
            }
        }
    }

    /// The oracle applies a price proposed by `propose_price` once 24 hours
    /// have passed.
    pub fn execute_price(&mut self, caller: &Address, methodology: &String, vintage_year: u32, now: u64)
        -> (r: Result<(), CarbonError>)
        requires
            old(self).wf(),
            is_oracle(old(self)@, *caller) && old(self)@.pending.dom().contains((methodology@, vintage_year))
                ==> old(self)@.pending[(methodology@, vintage_year)] is Proposal,
        ensures
            final(self).wf(),
            match r {
                Ok(_) => Self::execute_price_result(old(self)@, *caller, *methodology, vintage_year, now)
                    == Ok::<OracleState, CarbonError>(final(self)@),
                Err(e) => Self::execute_price_result(old(self)@, *caller, *methodology, vintage_year, now)
                    == Err::<OracleState, CarbonError>(e) && final(self)@ == old(self)@,
            },
    {
        self.require_oracle(caller)?;
        let key = (methodology.clone(), vintage_year);
        let (price, proposed_at) = match self.pending.get(&key) {
            Some(PendingPrice::Proposal(p)) => (p.price_usdc, p.proposed_at),
            Some(PendingPrice::Update(_)) => return Err(CarbonError::NoPendingProposal),
            None => return Err(CarbonError::NoPendingProposal),
        };
        if now.saturating_sub(proposed_at) < PRICE_TIMELOCK_DELAY_SECS {
            return Err(CarbonError::TimelockNotExpired);
        }
        self.prices.insert((methodology.clone(), vintage_year), price);
        self.price_updated_at.insert((methodology.clone(), vintage_year), now);
        let _ = self.pending.remove(&key);
        Ok(())
    }

    /// The state after `execute_price_update`.
    pub open spec fn execute_update_result(s: OracleState, caller: Address, methodology: String, vintage_year: u32, now: u64)
        -> Result<OracleState, CarbonError> {
        let k = (methodology@, vintage_year);
        if !is_oracle(s, caller) {
            Err(CarbonError::UnauthorizedOracle)
        } else if !s.pending.dom().contains(k) {
            Err(CarbonError::NoPendingUpdate)
        } else {
            let p = s.pending[k]->Update_0;
            if now < p.execute_after {
                Err(CarbonError::TimelockNotReady)
            } else {
                Ok(OracleState {
                    prices: s.prices.insert(k, p.price_usdc),
                    price_updated_at: s.price_updated_at.insert(k, now),
                    pending: s.pending.remove(k),
                    ..s
                })
            }
        }
    }

    /// The oracle applies a price proposed by `propose_price_update` once its
    /// `execute_after` time has come.
    pub fn execute_price_update(&mut self, caller: &Address, methodology: &String, vintage_year: u32, now: u64)
        -> (r: Result<(), CarbonError>)
        requires
            old(self).wf(),
            is_oracle(old(self)@, *caller) && old(self)@.pending.dom().contains((methodology@, vintage_year))
                ==> old(self)@.pending[(methodology@, vintage_year)] is Update,
        ensures
            final(self).wf(),
            match r {
                Ok(_) => Self::execute_update_result(old(self)@, *caller, *methodology, vintage_year, now)
                    == Ok::<OracleState, CarbonError>(final(self)@),
                Err(e) => Self::execute_update_result(old(self)@, *caller, *methodology, vintage_year, now)
                    == Err::<OracleState, CarbonError>(e) && final(self)@ == old(self)@,
            },
    {
        self.require_oracle(caller)?;
        let key = (methodology.clone(), vintage_year);
        let (price, after) = match self.pending.get(&key) {
            Some(PendingPrice::Update(p)) => (p.price_usdc, p.execute_after),
            Some(PendingPrice::Proposal(_)) => return Err(CarbonError::NoPendingUpdate),
            None => return Err(CarbonError::NoPendingUpdate),
        };
        if now < after {
            return Err(CarbonError::TimelockNotReady);
        }
        self.prices.insert((methodology.clone(), vintage_year), price);
        self.price_updated_at.insert((methodology.clone(), vintage_year), now);
        let _ = self.pending.remove(&key);
        Ok(())
    }

    /// The state after an admin cancels the pending price of a methodology
    /// and vintage (either kind), failing with `missing` when there is none.
    pub open spec fn cancel_result(s: OracleState, admin: Address, methodology: String, vintage_year: u32,
        missing: CarbonError) -> Result<OracleState, CarbonError> {
        let k = (methodology@, vintage_year);
        if !is_admin(s, admin) {
            Err(CarbonError::UnauthorizedVerifier)
        } else if !s.pending.dom().contains(k) {
            Err(missing)
        } else {
            Ok(OracleState { pending: s.pending.remove(k), ..s })
        }
    }

    fn cancel_pending(&mut self, admin: &Address, methodology: &String, vintage_year: u32, missing: CarbonError)
        -> (r: Result<(), CarbonError>)
        requires
            old(self).wf(),
        ensures
            final(self).wf(),
            match r {
                Ok(_) => Self::cancel_result(old(self)@, *admin, *methodology, vintage_year, missing)
                    == Ok::<OracleState, CarbonError>(final(self)@),
                Err(e) => Self::cancel_result(old(self)@, *admin, *methodology, vintage_year, missing)
                    == Err::<OracleState, CarbonError>(e) && final(self)@ == old(self)@,
            },
    {
        self.require_admin(admin)?;
        let key = (methodology.clone(), vintage_year);
        if !self.pending.contains(&key) {
            return Err(missing);
        }
        let _ = self.pending.remove(&key);
        Ok(())
    }

    /// Admin: withdraw a pending price (emergency brake of the
    /// `propose_price` flow).
    pub fn cancel_price(&mut self, admin: &Address, methodology: &String, vintage_year: u32) -> (r: Result<(), CarbonError>)
        requires
            old(self).wf(),
        ensures
            final(self).wf(),
            match r {
                Ok(_) => Self::cancel_result(old(self)@, *admin, *methodology, vintage_year, CarbonError::NoPendingProposal)
                    == Ok::<OracleState, CarbonError>(final(self)@),
                Err(e) => Self::cancel_result(old(self)@, *admin, *methodology, vintage_year, CarbonError::NoPendingProposal)
                    == Err::<OracleState, CarbonError>(e) && final(self)@ == old(self)@,
            },
    {
        self.cancel_pending(admin, methodology, vintage_year, CarbonError::NoPendingProposal)
    }

    /// Admin: withdraw a pending price (emergency brake of the
    /// `propose_price_update` flow).
    pub fn cancel_proposed_update(&mut self, admin: &Address, methodology: &String, vintage_year: u32)
        -> (r: Result<(), CarbonError>)
        requires
            old(self).wf(),
        ensures
            final(self).wf(),
            match r {
                Ok(_) => Self::cancel_result(old(self)@, *admin, *methodology, vintage_year, CarbonError::NoPendingUpdate)
                    == Ok::<OracleState, CarbonError>(final(self)@),
                Err(e) => Self::cancel_result(old(self)@, *admin, *methodology, vintage_year, CarbonError::NoPendingUpdate)
                    == Err::<OracleState, CarbonError>(e) && final(self)@ == old(self)@,
            },
    {
        self.cancel_pending(admin, methodology, vintage_year, CarbonError::NoPendingUpdate)
    }

    /// What the pending-price slot of a methodology and vintage holds, of
    /// either kind.
    pub fn get_pending_price(&self, methodology: &String, vintage_year: u32) -> (r: Option<PendingPrice>)
        requires
            self.wf(),
        ensures
            r == (if self@.pending.dom().contains((methodology@, vintage_year)) {
                Some(self@.pending[(methodology@, vintage_year)])
            } else {
                None::<PendingPrice>
            }),
    {
        match self.pending.get(&(methodology.clone(), vintage_year)) {
            Some(PendingPrice::Proposal(p)) => Some(PendingPrice::Proposal(p.duplicate())),
            Some(PendingPrice::Update(u)) => Some(PendingPrice::Update(u.duplicate())),
            None => None,
        }
    }

    /// The pending price of the `propose_price_update` flow, if any.
    pub fn get_pending_price_update(&self, methodology: &String, vintage_year: u32) -> (r: Option<ProposedPriceUpdate>)
        requires
            self.wf(),
            self@.pending.dom().contains((methodology@, vintage_year)) ==> self@.pending[(methodology@, vintage_year)] is Update,
        ensures
            r == (if self@.pending.dom().contains((methodology@, vintage_year)) {
                Some(self@.pending[(methodology@, vintage_year)]->Update_0)
            } else {
                None::<ProposedPriceUpdate>
            }),
    {
        match self.pending.get(&(methodology.clone(), vintage_year)) {
            Some(PendingPrice::Update(p)) => Some(p.duplicate()),
            _ => None,
        }
    }

    /// The pending price of the `propose_price` flow, if any.
    pub fn get_pending_proposal(&self, methodology: &String, vintage_year: u32) -> (r: Option<PendingPriceProposal>)
        requires
            self.wf(),
            self@.pending.dom().contains((methodology@, vintage_year)) ==> self@.pending[(methodology@, vintage_year)] is Proposal,
        ensures
            r == (if self@.pending.dom().contains((methodology@, vintage_year)) {
                Some(self@.pending[(methodology@, vintage_year)]->Proposal_0)
            } else {
                None::<PendingPriceProposal>
            }),
    {
        match self.pending.get(&(methodology.clone(), vintage_year)) {
            Some(PendingPrice::Proposal(p)) => Some(p.duplicate()),
            _ => None,
        }
    }

    // ── Queries ──────────────────────────────────────────────────────────────

    /// The report of a project for a period.
    pub fn get_monitoring_data(&self, project_id: &String, period: &String) -> (r: Result<MonitoringData, CarbonError>)
        requires
            self.wf(),
        ensures
            match r {
                Ok(d) => self@.monitoring.dom().contains((project_id@, period@))
                    && d == self@.monitoring[(project_id@, period@)],
                Err(e) => !self@.monitoring.dom().contains((project_id@, period@)) && e == CarbonError::ProjectNotFound,
            },
    {
        match self.monitoring.get(&(project_id.clone(), period.clone())) {
            Some(d) => Ok(d.duplicate()),
            None => Err(CarbonError::ProjectNotFound),
        }
    }

    /// The benchmark price of a methodology and vintage.
    pub fn get_benchmark_price(&self, methodology: &String, vintage_year: u32) -> (r: Result<i128, CarbonError>)
        requires
            self.wf(),
        ensures
            match r {
                Ok(p) => self@.prices.dom().contains((methodology@, vintage_year))
                    && p == self@.prices[(methodology@, vintage_year)],
                Err(e) => !self@.prices.dom().contains((methodology@, vintage_year)) && e == CarbonError::PriceNotSet,
            },
    {
        match self.prices.get(&(methodology.clone(), vintage_year)) {
            Some(p) => Ok(*p),
            None => Err(CarbonError::PriceNotSet),
        }
    }

    /// The reason a project was flagged for, if it was flagged.
    pub fn get_flag_reason(&self, project_id: &String) -> (r: Option<String>)
        requires
            self.wf(),
        ensures
            match r {
                Some(reason) => self@.flagged.dom().contains(project_id@) && reason@ == self@.flagged[project_id@],
                None => !self@.flagged.dom().contains(project_id@),
            },
    {
        match self.flagged.get(project_id) {
            Some(reason) => Some(reason.clone()),
            None => None,
        }
    }

    /// Whether the project's latest report lies within the liveness window.
    pub fn is_monitoring_current(&self, project_id: &String, now: u64) -> (b: bool)
        requires
            self.wf(),
        ensures
            b == monitoring_current(self@, project_id@, now),
    {
        let sla = match self.liveness_sla {
            Some(x) => x,
            None => MONITORING_FRESHNESS_SECS,
        };
        match self.latest_monitoring.get(project_id) {
            Some(ts) => now.saturating_sub(*ts) <= sla,
            None => false,
        }
    }

    /// Whether the benchmark price was set within the staleness window.
    pub fn is_price_current(&self, methodology: &String, vintage_year: u32, now: u64) -> (b: bool)
        requires
            self.wf(),
        ensures
            b == price_current(self@, methodology@, vintage_year, now),
    {
        let window = match self.price_staleness {
            Some(x) => x,
            None => PRICE_STALENESS_SECS,
        };
        match self.price_updated_at.get(&(methodology.clone(), vintage_year)) {
            Some(ts) => now.saturating_sub(*ts) <= window,
            None => false,
        }
    }

    /// The state after `check_liveness`, and the registry to ask for the
    /// project's suspension when the project was flagged just now.
    pub open spec fn check_liveness_result(s: OracleState, project_id: String, now: u64)
        -> Result<(OracleState, Option<Address>), CarbonError> {
        if !monitoring_stale(s, project_id@, now) || s.flagged.dom().contains(project_id@) {
            Ok((s, None))
        } else if s.registry is None {
            Err(CarbonError::ProjectNotFound)
        } else {
            Ok((OracleState { flagged: s.flagged.insert(project_id@, "liveness_sla_breach"@), ..s }, s.registry))
        }
    }

    /// Permissionless dead-man's switch: a project whose monitoring data is
    /// stale and that is not flagged yet is flagged for a liveness breach,
    /// and the registry to ask for its suspension is returned.
    pub fn check_liveness(&mut self, project_id: &String, now: u64) -> (r: Result<Option<Address>, CarbonError>)
        requires
            old(self).wf(),
        ensures
            final(self).wf(),
            match r {
                Ok(a) => Self::check_liveness_result(old(self)@, *project_id, now)
                    == Ok::<(OracleState, Option<Address>), CarbonError>((final(self)@, a)),
                Err(e) => Self::check_liveness_result(old(self)@, *project_id, now)
                    == Err::<(OracleState, Option<Address>), CarbonError>(e) && final(self)@ == old(self)@,
            },
    {
        if self.is_monitoring_current(project_id, now) {
            return Ok(None);
        }
        if self.flagged.contains(project_id) {
            return Ok(None);
        }
        let registry = match &self.registry {
            Some(a) => a.clone(),
            None => return Err(CarbonError::ProjectNotFound),
        };
        let ghost s1 = self@;
        let reason = "liveness_sla_breach".to_owned();
        let ghost rv = reason@;
        self.flagged.insert(project_id.clone(), reason);
        proof {
            assert(self@.flagged =~= s1.flagged.insert(project_id@, rv));
        }
        Ok(Some(registry))
    }

    /// Saturating sum of the tonnes reported for a project over `periods`.
    pub fn get_total_verified_tonnes(&self, project_id: &String, periods: &Vec<String>) -> (t: i128)
        requires
            self.wf(),
        ensures
            t == tonnes_total(self@, project_id@, periods@),
    {
        let mut total: i128 = 0;
        let mut i: usize = 0;
        while i < periods.len()
            invariant
                self.wf(),
                i <= periods@.len(),
                total == tonnes_total(self@, project_id@, periods@.take(i as int)),
            decreases periods@.len() - i,
        {
            match self.monitoring.get(&(project_id.clone(), periods[i].clone())) {
                Some(d) => {
                    total = match total.checked_add(d.tonnes_verified) {
                        Some(x) => x,
                        None => if d.tonnes_verified > 0 { i128::MAX } else { i128::MIN },
                    };
                },
                None => {},
            }
            proof {
                assert(periods@.take(i + 1).drop_last() =~= periods@.take(i as int));
            }
            i = i + 1;
        }
        proof {
            assert(periods@.take(periods@.len() as int) =~= periods@);
        }
        total
    }
}
} // verus!
