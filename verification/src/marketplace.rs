//! The marketplace contract: fixed-price listings of credit batches, single
//! and bulk purchases with a governance-set protocol fee, an append-only fee
//! ledger with an accumulator that is swept to the treasury, listing expiry
//! and clean-up, and paged queries.
//!
//! Token transfers, the credit transfer to the buyer, oracle price queries
//! and events are carried out by the caller: a purchase hands back the
//! settlements to pay out once every check has passed, and takes the
//! oracle's verdict on price freshness as an argument.

use vstd::prelude::*;
use crate::common::{is_valid_pause_window, ledger_year, pause_blocks, sat_add, valid_pause_window, Address, UpgradeRecord};
use crate::decimal::{decimal, decimal_text, lemma_decimal_injective};
use crate::table::Table;

verus! {

/// Listings handed out per page at most.
pub const MAX_PAGE_SIZE: u32 = 50;
/// A listing expires 90 days after it is created.
pub const LISTING_TTL_SECONDS: u64 = 7_776_000;
/// Most listings one bulk purchase may touch.
pub const MAX_BULK_PURCHASE: usize = 10;
/// Fee numerator in force until governance sets another rate.
pub const DEFAULT_FEE_NUMERATOR: i128 = 1;
/// Fee denominator in force until governance sets another rate.
pub const DEFAULT_FEE_DENOM: i128 = 100;
/// Accumulated fees at which a purchase sweeps the accumulator.
pub const DEFAULT_SWEEP_THRESHOLD: i128 = 1_000_000_000;
/// How long an oracle price stays fresh unless an admin sets another window.
pub const DEFAULT_PRICE_FRESHNESS_SECONDS: u64 = 86_400;
/// Earliest vintage year accepted unless an admin configures another.
pub const DEFAULT_MIN_VINTAGE_YEAR: u32 = 1990;
/// `0` means: the latest accepted vintage is the current year.
pub const DEFAULT_MAX_VINTAGE_YEAR: u32 = 0;
/// Version number of a freshly initialised contract.
pub const CURRENT_VERSION: u32 = 1;

/// Errors of the marketplace contract.
#[derive(Copy, Clone, Debug, Eq, PartialEq, PartialOrd, Ord)]
pub enum CarbonError {
    ProjectNotFound,
    ProjectNotVerified,
    ProjectSuspended,
    InsufficientCredits,
    AlreadyRetired,
    SerialNumberConflict,
    UnauthorizedVerifier,
    UnauthorizedOracle,
    InvalidVintageYear,
    ListingNotFound,
    InsufficientLiquidity,
    PriceNotSet,
    MonitoringDataStale,
    DoubleCountingDetected,
    RetirementIrreversible,
    ZeroAmountNotAllowed,
    ProjectAlreadyExists,
    InvalidSerialRange,
    AlreadyInitialized,
    Arithmetic,
    UnauthorizedUpgrade,
    /// Oracle price data is stale: the circuit breaker halts purchases.
    CircuitBreakerTripped,
    /// The caller's expected available amount no longer matches the listing.
    StaleExpectedAmount,
    /// Page size exceeds the maximum allowed limit.
    PageSizeTooLarge,
    FeeConfigInvalid,
    InvalidPauseWindow,
    EmergencyPaused,
    ReentrancyDetected,
    ListingExpired,
}

/// The numeric code of each error, as callers see it.
pub open spec fn error_code(e: CarbonError) -> u32 {
    match e {
        CarbonError::ProjectNotFound => 1,
        CarbonError::ProjectNotVerified => 2,
        CarbonError::ProjectSuspended => 3,
        CarbonError::InsufficientCredits => 4,
        CarbonError::AlreadyRetired => 5,
        CarbonError::SerialNumberConflict => 6,
        CarbonError::UnauthorizedVerifier => 7,
        CarbonError::UnauthorizedOracle => 8,
        CarbonError::InvalidVintageYear => 9,
        CarbonError::ListingNotFound => 10,
        CarbonError::InsufficientLiquidity => 11,
        CarbonError::PriceNotSet => 12,
        CarbonError::MonitoringDataStale => 13,
        CarbonError::DoubleCountingDetected => 14,
        CarbonError::RetirementIrreversible => 15,
        CarbonError::ZeroAmountNotAllowed => 16,
        CarbonError::ProjectAlreadyExists => 17,
        CarbonError::InvalidSerialRange => 18,
        CarbonError::AlreadyInitialized => 19,
        CarbonError::Arithmetic => 20,
        CarbonError::UnauthorizedUpgrade => 21,
        CarbonError::CircuitBreakerTripped => 22,
        CarbonError::StaleExpectedAmount => 23,
        CarbonError::PageSizeTooLarge => 24,
        CarbonError::FeeConfigInvalid => 25,
        CarbonError::InvalidPauseWindow => 26,
        CarbonError::EmergencyPaused => 27,
        CarbonError::ReentrancyDetected => 28,
        CarbonError::ListingExpired => 29,
    }
}

impl CarbonError {
    /// The numeric code under which the error is reported to callers.
    pub fn code(&self) -> (c: u32)
        ensures
            c == error_code(*self),
    {
        match self {
            CarbonError::ProjectNotFound => 1,
            CarbonError::ProjectNotVerified => 2,
            CarbonError::ProjectSuspended => 3,
            CarbonError::InsufficientCredits => 4,
            CarbonError::AlreadyRetired => 5,
            CarbonError::SerialNumberConflict => 6,
            CarbonError::UnauthorizedVerifier => 7,
            CarbonError::UnauthorizedOracle => 8,
            CarbonError::InvalidVintageYear => 9,
            CarbonError::ListingNotFound => 10,
            CarbonError::InsufficientLiquidity => 11,
            CarbonError::PriceNotSet => 12,
            CarbonError::MonitoringDataStale => 13,
            CarbonError::DoubleCountingDetected => 14,
            CarbonError::RetirementIrreversible => 15,
            CarbonError::ZeroAmountNotAllowed => 16,
            CarbonError::ProjectAlreadyExists => 17,
            CarbonError::InvalidSerialRange => 18,
            CarbonError::AlreadyInitialized => 19,
            CarbonError::Arithmetic => 20,
            CarbonError::UnauthorizedUpgrade => 21,
            CarbonError::CircuitBreakerTripped => 22,
            CarbonError::StaleExpectedAmount => 23,
            CarbonError::PageSizeTooLarge => 24,
            CarbonError::FeeConfigInvalid => 25,
            CarbonError::InvalidPauseWindow => 26,
            CarbonError::EmergencyPaused => 27,
            CarbonError::ReentrancyDetected => 28,
            CarbonError::ListingExpired => 29,
        }
    }
}

/// Governance-controlled fee: `numerator / denom` of the total cost.
#[derive(Debug, Clone)]
pub struct FeeConfig {
    pub numerator: i128,
    pub denom: i128,
    pub updated_at: u64,
    pub updated_by: Address,
}

/// The immutable record of one collected fee.
#[derive(Debug, Clone)]
pub struct FeeRecord {
    pub fee_id: String,
    pub listing_id: String,
    pub buyer: Address,
    pub seller: Address,
    pub total_cost: i128,
    pub fee_amount: i128,
    pub recorded_at: u64,
}

/// A fee record with its id as text.
pub struct FeeRecordView {
    pub fee_id: Seq<char>,
    pub listing_id: String,
    pub buyer: Address,
    pub seller: Address,
    pub total_cost: i128,
    pub fee_amount: i128,
    pub recorded_at: u64,
}

impl View for FeeRecord {
    type V = FeeRecordView;

    open spec fn view(&self) -> FeeRecordView {
        FeeRecordView {
            fee_id: self.fee_id@,
            listing_id: self.listing_id,
            buyer: self.buyer,
            seller: self.seller,
            total_cost: self.total_cost,
            fee_amount: self.fee_amount,
            recorded_at: self.recorded_at,
        }
    }
}

/// The id of the fee filed `i`-th (counting from zero) in the fee ledger:
/// `fee-` and the decimal digits of `i`.
pub open spec fn fee_id(i: nat) -> Seq<char> {
    "fee-"@ + decimal(i)
}

/// Fees filed at different positions have different ids.
pub proof fn lemma_fee_id_injective(i: nat, j: nat)
    requires
        fee_id(i) == fee_id(j),
    ensures
        i == j,
{
    let p = "fee-"@;
    assert(fee_id(i).skip(p.len() as int) =~= decimal(i));
    assert(fee_id(j).skip(p.len() as int) =~= decimal(j));
    lemma_decimal_injective(i, j);
}

/// The id of the fee filed `i`-th in the fee ledger.
fn fee_id_text(i: usize) -> (r: String)
    ensures
        r@ == fee_id(i as nat),
{
    let mut r = "fee-".to_owned();
    let digits = decimal_text(i);
    r.append(digits.as_str());
    r
}

impl FeeRecord {
    /// A field-by-field copy.
    pub fn duplicate(&self) -> (r: Self)
        ensures
            r == *self,
    {
        FeeRecord {
            fee_id: self.fee_id.clone(),
            listing_id: self.listing_id.clone(),
            buyer: self.buyer.clone(),
            seller: self.seller.clone(),
            total_cost: self.total_cost,
            fee_amount: self.fee_amount,
            recorded_at: self.recorded_at,
        }
    }
}

/// Emitted when the fee accumulator is swept.
#[derive(Debug, Clone)]
pub struct FeeSweptEvent {
    pub swept_by: Address,
    pub amount: i128,
    pub swept_at: u64,
}

/// Emitted when stale oracle data trips the circuit breaker.
#[derive(Debug, Clone)]
pub struct CircuitBreakerEvent {
    pub methodology: String,
    pub vintage_year: u32,
    pub price_age_secs: u64,
    pub threshold_secs: u64,
    pub tripped_at: u64,
}

/// Emitted when a listing is created.
#[derive(Debug, Clone)]
pub struct ListingCreatedEvent {
    pub listing_id: String,
    pub seller: Address,
    pub batch_id: String,
    pub amount: i128,
    pub price_per_credit: i128,
    pub timestamp: u64,
}

/// Emitted for each completed purchase.
#[derive(Debug, Clone)]
pub struct PurchaseCompletedEvent {
    pub listing_id: String,
    pub buyer: Address,
    pub seller: Address,
    pub amount: i128,
    pub total_cost: i128,
    pub timestamp: u64,
}

/// Lifecycle of a listing.
#[derive(Copy, Clone, Debug, Eq, PartialEq, Structural)]
pub enum ListingStatus {
    Active,
    Sold,
    PartiallyFilled,
    Delisted,
}

/// Credits of one batch offered at a fixed price per credit.
#[derive(Debug, Clone)]
pub struct MarketListing {
    pub listing_id: String,
    pub seller: Address,
    pub batch_id: String,
    pub project_id: String,
    pub amount_available: i128,
    pub price_per_credit: i128,
    pub vintage_year: u32,
    pub methodology: String,
    pub country: String,
    pub created_at: u64,
    pub status: ListingStatus,
    pub expires_at: u64,
}

impl MarketListing {
    /// A field-by-field copy.
    pub fn duplicate(&self) -> (r: Self)
        ensures
            r == *self,
    {
        MarketListing {
            listing_id: self.listing_id.clone(),
            seller: self.seller.clone(),
            batch_id: self.batch_id.clone(),
            project_id: self.project_id.clone(),
            amount_available: self.amount_available,
            price_per_credit: self.price_per_credit,
            vintage_year: self.vintage_year,
            methodology: self.methodology.clone(),
            country: self.country.clone(),
            created_at: self.created_at,
            status: self.status,
            expires_at: self.expires_at,
        }
    }
}

/// A page of listings.
#[derive(Debug, Clone)]
pub struct ListingsPage {
    /// The listings of this page.
    pub items: Vec<MarketListing>,
    /// Number of listings that match the query, over all pages.
    pub total: u32,
    /// Position of the first item of this page among the matches.
    pub offset: u32,
}

/// What one purchased listing pays out: `seller_proceeds` to the seller and
/// `protocol_fee` to the treasury, both from the buyer, and `amount` credits
/// of `batch_id` from the seller to the buyer.
#[derive(Debug, Clone)]
pub struct Settlement {
    pub listing_id: String,
    pub seller: Address,
    pub batch_id: String,
    pub amount: i128,
    pub total_cost: i128,
    pub protocol_fee: i128,
    pub seller_proceeds: i128,
}

/// The payouts of a purchase, and the amount swept from the fee accumulator
/// if the purchase brought it to the sweep threshold.
#[derive(Debug, Clone)]
pub struct PurchaseReceipt {
    pub settlements: Vec<Settlement>,
    pub swept: Option<i128>,
}

/// The payouts of a purchase as a sequence.
pub struct ReceiptView {
    pub settlements: Seq<Settlement>,
    pub swept: Option<i128>,
}

impl View for PurchaseReceipt {
    type V = ReceiptView;

    open spec fn view(&self) -> ReceiptView {
        ReceiptView { settlements: self.settlements@, swept: self.swept }
    }
}

/// The abstract state of the marketplace.
#[verifier::ext_equal]
pub struct MarketState {
    pub admin: Option<Address>,
    pub usdc_token: Option<Address>,
    pub credit_contract: Option<Address>,
    pub treasury: Option<Address>,
    pub all_listings: Seq<String>,
    pub listings: Map<Seq<char>, MarketListing>,
    pub suspended: Set<Seq<char>>,
    pub version: u32,
    pub last_upgrade: Option<UpgradeRecord>,
    pub fee_config: Option<FeeConfig>,
    pub paused: bool,
    pub pause_until: u64,
    pub vintage_min: u32,
    pub vintage_max: u32,
    pub locked: bool,
    pub circuit_breaker: bool,
    pub circuit_breaker_tripped_at: u64,
    pub fee_ledger: Seq<Seq<char>>,
    pub fee_records: Map<Seq<char>, FeeRecordView>,
    pub fee_accumulator: i128,
    pub sweep_threshold: Option<i128>,
    pub total_fees_swept: i128,
    pub oracle_contract: Option<Address>,
    pub price_freshness_window: Option<u64>,
}

/// The marketplace contract's storage.
pub struct CarbonMarketplaceContract {
    admin: Option<Address>,
    usdc_token: Option<Address>,
    credit_contract: Option<Address>,
    treasury: Option<Address>,
    all_listings: Vec<String>,
    listings: Table<String, MarketListing>,
    suspended: Table<String, bool>,
    version: u32,
    last_upgrade: Option<UpgradeRecord>,
    fee_config: Option<FeeConfig>,
    paused: bool,
    pause_until: u64,
    vintage_min: u32,
    vintage_max: u32,
    locked: bool,
    circuit_breaker: bool,
    circuit_breaker_tripped_at: u64,
    fee_ledger: Vec<String>,
    fee_records: Table<String, FeeRecord>,
    fee_accumulator: i128,
    sweep_threshold: Option<i128>,
    total_fees_swept: i128,
    oracle_contract: Option<Address>,
    price_freshness_window: Option<u64>,
}

// ── Spec helpers ─────────────────────────────────────────────────────────────

/// `caller` is the stored admin.
pub open spec fn is_admin(s: MarketState, caller: Address) -> bool {
    s.admin is Some && s.admin->0@ == caller@
}

/// A pause that is on and not yet over blocks operations at `now`.
pub open spec fn is_paused(s: MarketState, now: u64) -> bool {
    pause_blocks(s.paused, s.pause_until, now)
}

/// The state after an expired pause has been switched off.
pub open spec fn clear_expired_pause(s: MarketState, now: u64) -> MarketState {
    if s.paused && s.pause_until <= now {
        MarketState { paused: false, pause_until: 0, ..s }
    } else {
        s
    }
}

/// Latest accepted vintage year at `now`.
pub open spec fn max_vintage(s: MarketState, now: u64) -> int {
    if s.vintage_max == 0 { ledger_year(now) } else { s.vintage_max as int }
}

/// Whether `y` lies within the accepted vintage bounds at `now`.
pub open spec fn vintage_ok(s: MarketState, y: u32, now: u64) -> bool {
    s.vintage_min <= y && y <= max_vintage(s, now)
}

/// Whether listings of `project_id` are blocked.
pub open spec fn project_suspended(s: MarketState, project_id: Seq<char>) -> bool {
    s.suspended.contains(project_id)
}

/// Fee numerator in force.
pub open spec fn fee_numerator(s: MarketState) -> i128 {
    match s.fee_config {
        Some(c) => c.numerator,
        None => DEFAULT_FEE_NUMERATOR,
    }
}

/// Fee denominator in force.
pub open spec fn fee_denom(s: MarketState) -> i128 {
    match s.fee_config {
        Some(c) => c.denom,
        None => DEFAULT_FEE_DENOM,
    }
}

/// A fee rate that governance may set: a positive denominator and a
/// numerator between zero and a tenth of it.
pub open spec fn fee_rate_ok(numerator: i128, denom: i128) -> bool {
    denom > 0 && numerator >= 0 && numerator <= denom / 10
}

/// Sweep threshold in force.
pub open spec fn sweep_threshold_of(s: MarketState) -> i128 {
    match s.sweep_threshold {
        Some(t) => t,
        None => DEFAULT_SWEEP_THRESHOLD,
    }
}

/// A listing that can still be bought from at `now`.
pub open spec fn listing_live(l: MarketListing, now: u64) -> bool {
    (l.status == ListingStatus::Active || l.status == ListingStatus::PartiallyFilled) && now <= l.expires_at
}

/// A stored listing is filed under its own id, has a positive price and a
/// non-negative amount, and its status matches the amount: `Sold` exactly
/// when nothing is left of a listing that was not withdrawn.
pub open spec fn listing_ok(l: MarketListing, k: Seq<char>) -> bool {
    &&& l.listing_id@ == k
    &&& l.price_per_credit > 0
    &&& l.amount_available >= 0
    &&& (l.status == ListingStatus::Sold ==> l.amount_available == 0)
    &&& (l.status == ListingStatus::Active || l.status == ListingStatus::PartiallyFilled ==> l.amount_available > 0)
}

impl View for CarbonMarketplaceContract {
    type V = MarketState;

    closed spec fn view(&self) -> MarketState {
        MarketState {
            admin: self.admin,
            usdc_token: self.usdc_token,
            credit_contract: self.credit_contract,
            treasury: self.treasury,
            all_listings: self.all_listings@,
            listings: self.listings@,
            suspended: self.suspended@.dom().filter(|k: Seq<char>| self.suspended@[k]),
            version: self.version,
            last_upgrade: self.last_upgrade,
            fee_config: self.fee_config,
            paused: self.paused,
            pause_until: self.pause_until,
            vintage_min: self.vintage_min,
            vintage_max: self.vintage_max,
            locked: self.locked,
            circuit_breaker: self.circuit_breaker,
            circuit_breaker_tripped_at: self.circuit_breaker_tripped_at,
            fee_ledger: self.fee_ledger@.map_values(|id: String| id@),
            fee_records: self.fee_records@.map_values(|r: FeeRecord| r@),
            fee_accumulator: self.fee_accumulator,
            sweep_threshold: self.sweep_threshold,
            total_fees_swept: self.total_fees_swept,
            oracle_contract: self.oracle_contract,
            price_freshness_window: self.price_freshness_window,
        }
    }
}

impl CarbonMarketplaceContract {
    /// Storage is consistent: keyed records are unique, the fee rate in force
    /// is one governance may set, and the listing index fits its `u32` length.
    pub closed spec fn wf(&self) -> bool {
        &&& self.listings.wf()
        &&& self.suspended.wf()
        &&& self.fee_records.wf()
        &&& fee_rate_ok(fee_numerator(self@), fee_denom(self@))
        &&& self.all_listings@.len() <= u32::MAX
        &&& forall|k: Seq<char>| #[trigger] self.listings@.dom().contains(k) ==> listing_ok(self.listings@[k], k)
    }

    /// What well-formed storage guarantees: every stored listing is filed
    /// under its own id with a positive price, a non-negative amount and a
    /// status that matches it; the fee rate in force is at most 10%; and the
    /// listing index fits its `u32` length.
    pub proof fn lemma_wf_facts(&self)
        requires
            self.wf(),
        ensures
            forall|k: Seq<char>| #[trigger] self@.listings.dom().contains(k) ==> listing_ok(self@.listings[k], k),
            fee_rate_ok(fee_numerator(self@), fee_denom(self@)),
            self@.all_listings.len() <= u32::MAX,
    {
    }

    /// The storage of a marketplace that has never been initialised.
    pub fn new() -> (c: Self)
        ensures
            c.wf(),
            c@ == (MarketState {
                admin: None,
                usdc_token: None,
                credit_contract: None,
                treasury: None,
                all_listings: Seq::empty(),
                listings: Map::empty(),
                suspended: Set::empty(),
                version: CURRENT_VERSION,
                last_upgrade: None,
                fee_config: None,
                paused: false,
                pause_until: 0,
                vintage_min: DEFAULT_MIN_VINTAGE_YEAR,
                vintage_max: DEFAULT_MAX_VINTAGE_YEAR,
                locked: false,
                circuit_breaker: false,
                circuit_breaker_tripped_at: 0,
                fee_ledger: Seq::empty(),
                fee_records: Map::empty(),
                fee_accumulator: 0,
                sweep_threshold: None,
                total_fees_swept: 0,
                oracle_contract: None,
                price_freshness_window: None,
            }),
    {
        let c = CarbonMarketplaceContract {
            admin: None,
            usdc_token: None,
            credit_contract: None,
            treasury: None,
            all_listings: Vec::new(),
            listings: Table::new(),
            suspended: Table::new(),
            version: CURRENT_VERSION,
            last_upgrade: None,
            fee_config: None,
            paused: false,
            pause_until: 0,
            vintage_min: DEFAULT_MIN_VINTAGE_YEAR,
            vintage_max: DEFAULT_MAX_VINTAGE_YEAR,
            locked: false,
            circuit_breaker: false,
            circuit_breaker_tripped_at: 0,
            fee_ledger: Vec::new(),
            fee_records: Table::new(),
            fee_accumulator: 0,
            sweep_threshold: None,
            total_fees_swept: 0,
            oracle_contract: None,
            price_freshness_window: None,
        };
        proof {
            assert(c@.suspended =~= Set::<Seq<char>>::empty());
            assert(c@.fee_ledger =~= Seq::<Seq<char>>::empty());
            assert(c@.fee_records =~= Map::<Seq<char>, FeeRecordView>::empty());
        }
        c
    }

    // ── Guards ───────────────────────────────────────────────────────────────

    /// Succeeds when `caller` is the stored admin.
    fn require_admin(&self, caller: &Address) -> (r: Result<(), CarbonError>)
        ensures
            r is Ok <==> is_admin(self@, *caller),
            r is Err ==> r == Err::<(), CarbonError>(CarbonError::UnauthorizedVerifier),
    {
        match &self.admin {
            Some(a) => if *a == *caller {
                Ok(())
            } else {
                Err(CarbonError::UnauthorizedVerifier)
            },
            None => Err(CarbonError::UnauthorizedVerifier),
        }
    }

    /// Whether a pause blocks operations at `now`.
    fn blocked_by_pause(&self, now: u64) -> (b: bool)
        ensures
            b == is_paused(self@, now),
    {
        self.paused && self.pause_until > now
    }

    /// Fails with `EmergencyPaused` while a pause is in force; otherwise
    /// switches off a pause that has run out.
    fn require_not_paused(&mut self, now: u64) -> (r: Result<(), CarbonError>)
        requires
            old(self).wf(),
        ensures
            final(self).wf(),
            r is Err <==> is_paused(old(self)@, now),
            r is Err ==> r == Err::<(), CarbonError>(CarbonError::EmergencyPaused) && final(self)@ == old(self)@,
            r is Ok ==> final(self)@ == clear_expired_pause(old(self)@, now),
    {
        if self.paused && self.pause_until > now {
            return Err(CarbonError::EmergencyPaused);
        }
        if self.paused && self.pause_until <= now {
            self.paused = false;
            self.pause_until = 0;
        }
        Ok(())
    }

    /// Latest accepted vintage year at `now`.
    fn max_vintage_year(&self, now: u64) -> (y: u64)
        ensures
            y == max_vintage(self@, now),
    {
        if self.vintage_max == 0 {
            crate::common::current_year(now)
        } else {
            self.vintage_max as u64
        }
    }

    /// Fails with `InvalidVintageYear` when `vintage_year` is out of bounds.
    fn validate_vintage_year(&self, vintage_year: u32, now: u64) -> (r: Result<(), CarbonError>)
        ensures
            r is Ok <==> vintage_ok(self@, vintage_year, now),
            r is Err ==> r == Err::<(), CarbonError>(CarbonError::InvalidVintageYear),
    {
        if vintage_year < self.vintage_min || vintage_year as u64 > self.max_vintage_year(now) {
            return Err(CarbonError::InvalidVintageYear);
        }
        Ok(())
    }

    /// Whether a vintage is out of bounds or more than 30 years old.
    #[allow(dead_code)]
    fn is_vintage_expired(&self, vintage_year: u32, now: u64) -> (b: bool)
        ensures
            b == (!vintage_ok(self@, vintage_year, now) || ledger_year(now) - vintage_year > 30),
    {
        if self.validate_vintage_year(vintage_year, now).is_err() {
            return true;
        }
        crate::common::current_year(now).saturating_sub(vintage_year as u64) > 30
    }

    /// Whether `project_id` is suspended.
    fn is_suspended(&self, project_id: &String) -> (b: bool)
        requires
            self.wf(),
        ensures
            b == project_suspended(self@, project_id@),
    {
        match self.suspended.get(project_id) {
            Some(v) => *v,
            None => false,
        }
    }

    /// Fee numerator and denominator in force.
    fn fee_rate(&self) -> (r: (i128, i128))
        ensures
            r == (fee_numerator(self@), fee_denom(self@)),
    {
        match &self.fee_config {
            Some(c) => (c.numerator, c.denom),
            None => (DEFAULT_FEE_NUMERATOR, DEFAULT_FEE_DENOM),
        }
    }

    /// A copy of the listing stored under `listing_id`.
    fn load_listing(&self, listing_id: &String) -> (r: Result<MarketListing, CarbonError>)
        requires
            self.wf(),
        ensures
            match r {
                Ok(l) => self@.listings.dom().contains(listing_id@) && l == self@.listings[listing_id@],
                Err(e) => !self@.listings.dom().contains(listing_id@) && e == CarbonError::ListingNotFound,
            },
    {
        match self.listings.get(listing_id) {
            Some(l) => Ok(l.duplicate()),
            None => Err(CarbonError::ListingNotFound),
        }
    }
}


/// Admin check followed by the pause check, as the guarded admin setters do.
pub open spec fn admin_gate(s: MarketState, admin: Address, now: u64) -> Option<CarbonError> {
    if !is_admin(s, admin) {
        Some(CarbonError::UnauthorizedVerifier)
    } else if is_paused(s, now) {
        Some(CarbonError::EmergencyPaused)
    } else {
        None
    }
}

/// Pause check followed by the admin check, as `update_treasury` and
/// `suspend_project` do.
pub open spec fn pause_then_admin(s: MarketState, admin: Address, now: u64) -> Option<CarbonError> {
    if is_paused(s, now) {
        Some(CarbonError::EmergencyPaused)
    } else if !is_admin(s, admin) {
        Some(CarbonError::UnauthorizedVerifier)
    } else {
        None
    }
}

impl CarbonMarketplaceContract {
    // ── Initialisation and administration ────────────────────────────────────

    /// The state after `initialize`.
    pub open spec fn initialize_result(s: MarketState, admin: Address, usdc_token: Address, credit_contract: Address,
        treasury: Address) -> Result<MarketState, CarbonError> {
        if s.admin is Some {
            Err(CarbonError::AlreadyInitialized)
        } else {
            Ok(MarketState {
                admin: Some(admin),
                usdc_token: Some(usdc_token),
                credit_contract: Some(credit_contract),
                treasury: Some(treasury),
                all_listings: Seq::empty(),
                version: CURRENT_VERSION,
                paused: false,
                pause_until: 0,
                circuit_breaker: false,
                circuit_breaker_tripped_at: 0,
                ..s
            })
        }
    }

    /// Record the admin, the USDC token, the credit contract and the treasury.
    /// Refused once an admin is set.
    pub fn initialize(&mut self, admin: Address, usdc_token: Address, credit_contract: Address, treasury: Address)
        -> (r: Result<(), CarbonError>)
        requires
            old(self).wf(),
        ensures
            final(self).wf(),
            match r {
                Ok(_) => Self::initialize_result(old(self)@, admin, usdc_token, credit_contract, treasury)
                    == Ok::<MarketState, CarbonError>(final(self)@),
                Err(e) => Self::initialize_result(old(self)@, admin, usdc_token, credit_contract, treasury)
                    == Err::<MarketState, CarbonError>(e) && final(self)@ == old(self)@,
            },
    {
        if self.admin.is_some() {
            return Err(CarbonError::AlreadyInitialized);
        }
        self.admin = Some(admin);
        self.usdc_token = Some(usdc_token);
        self.credit_contract = Some(credit_contract);
        self.treasury = Some(treasury);
        self.all_listings = Vec::new();
        self.version = CURRENT_VERSION;
        self.paused = false;
        self.pause_until = 0;
        self.circuit_breaker = false;
        self.circuit_breaker_tripped_at = 0;
        Ok(())
    }

    /// The state after `upgrade_contract`.
    pub open spec fn upgrade_result(s: MarketState, admin: Address, wasm_hash: [u8; 32], now: u64)
        -> Result<MarketState, CarbonError> {
        match admin_gate(s, admin, now) {
            Some(e) => Err(e),
            None => Ok(MarketState {
                version: (s.version + 1) as u32,
                last_upgrade: Some(UpgradeRecord {
                    from_version: s.version,
                    to_version: (s.version + 1) as u32,
                    timestamp: now,
                    upgraded_by: admin,
                    wasm_hash,
                }),
                ..clear_expired_pause(s, now)
            }),
        }
    }

    /// Admin: record an upgrade to the code with hash `wasm_hash`; the
    /// version goes up by one and the upgrade becomes the last one recorded.
    pub fn upgrade_contract(&mut self, admin: &Address, wasm_hash: [u8; 32], now: u64) -> (r: Result<(), CarbonError>)
        requires
            old(self).wf(),
            old(self)@.version < u32::MAX,
        ensures
            final(self).wf(),
            match r {
                Ok(_) => Self::upgrade_result(old(self)@, *admin, wasm_hash, now) == Ok::<MarketState, CarbonError>(final(self)@),
                Err(e) => Self::upgrade_result(old(self)@, *admin, wasm_hash, now) == Err::<MarketState, CarbonError>(e)
                    && final(self)@ == old(self)@,
            },
    {
        self.require_admin(admin)?;
        self.require_not_paused(now)?;
        let current = self.version;
        self.version = current + 1;
        self.last_upgrade = Some(UpgradeRecord {
            from_version: current,
            to_version: current + 1,
            timestamp: now,
            upgraded_by: admin.clone(),
            wasm_hash,
        });
        Ok(())
    }

    /// The contract's version number.
    pub fn get_version(&self) -> (v: u32)
        ensures
            v == self@.version,
    {
        self.version
    }

    /// The last upgrade, if any.
    pub fn get_upgrade_history(&self) -> (r: Option<UpgradeRecord>)
        ensures
            r == self@.last_upgrade,
    {
        match &self.last_upgrade {
            Some(rec) => Some(rec.duplicate()),
            None => None,
        }
    }

    /// The state after `set_fee_rate`.
    pub open spec fn set_fee_rate_result(s: MarketState, admin: Address, numerator: i128, denom: i128, now: u64)
        -> Result<MarketState, CarbonError> {
        match admin_gate(s, admin, now) {
            Some(e) => Err(e),
            None => if !fee_rate_ok(numerator, denom) {
                Err(CarbonError::FeeConfigInvalid)
            } else {
                Ok(MarketState {
                    fee_config: Some(FeeConfig { numerator, denom, updated_at: now, updated_by: admin }),
                    ..clear_expired_pause(s, now)
                })
            },
        }
    }

    /// Admin: set the protocol fee to `numerator / denom` of the total cost.
    /// The denominator must be positive and the rate at most 10%.
    pub fn set_fee_rate(&mut self, admin: &Address, numerator: i128, denom: i128, now: u64) -> (r: Result<(), CarbonError>)
        requires
            old(self).wf(),
        ensures
            final(self).wf(),
            match r {
                Ok(_) => Self::set_fee_rate_result(old(self)@, *admin, numerator, denom, now)
                    == Ok::<MarketState, CarbonError>(final(self)@),
                Err(e) => Self::set_fee_rate_result(old(self)@, *admin, numerator, denom, now)
                    == Err::<MarketState, CarbonError>(e) && final(self)@ == old(self)@,
            },
    {
        self.require_admin(admin)?;
        if self.blocked_by_pause(now) {
            return Err(CarbonError::EmergencyPaused);
        }
        if denom <= 0 || numerator < 0 || numerator > denom / 10 {
            return Err(CarbonError::FeeConfigInvalid);
        }
        let _ = self.require_not_paused(now);
        self.fee_config = Some(FeeConfig { numerator, denom, updated_at: now, updated_by: admin.clone() });
        Ok(())
    }

    /// The fee configuration in force; until governance sets one, 1/100
    /// attributed to the contract itself (`contract_address`).
    pub fn get_fee_config(&self, contract_address: &Address) -> (c: FeeConfig)
        ensures
            c == (match self@.fee_config {
                Some(f) => f,
                None => FeeConfig {
                    numerator: DEFAULT_FEE_NUMERATOR,
                    denom: DEFAULT_FEE_DENOM,
                    updated_at: 0,
                    updated_by: *contract_address,
                },
            }),
    {
        match &self.fee_config {
            Some(f) => FeeConfig {
                numerator: f.numerator,
                denom: f.denom,
                updated_at: f.updated_at,
                updated_by: f.updated_by.clone(),
            },
            None => FeeConfig {
                numerator: DEFAULT_FEE_NUMERATOR,
                denom: DEFAULT_FEE_DENOM,
                updated_at: 0,
                updated_by: contract_address.clone(),
            },
        }
    }

    /// The state after `update_treasury`.
    pub open spec fn update_treasury_result(s: MarketState, admin: Address, new_treasury: Address, now: u64)
        -> Result<MarketState, CarbonError> {
        match pause_then_admin(s, admin, now) {
            Some(e) => Err(e),
            None => Ok(MarketState { treasury: Some(new_treasury), ..clear_expired_pause(s, now) }),
        }
    }

    /// Admin: move the treasury.
    pub fn update_treasury(&mut self, admin: &Address, new_treasury: Address, now: u64) -> (r: Result<(), CarbonError>)
        requires
            old(self).wf(),
            is_paused(old(self)@, now) || old(self)@.admin is Some,
        ensures
            final(self).wf(),
            match r {
                Ok(_) => Self::update_treasury_result(old(self)@, *admin, new_treasury, now)
                    == Ok::<MarketState, CarbonError>(final(self)@),
                Err(e) => Self::update_treasury_result(old(self)@, *admin, new_treasury, now)
                    == Err::<MarketState, CarbonError>(e) && final(self)@ == old(self)@,
            },
    {
        if self.blocked_by_pause(now) {
            return Err(CarbonError::EmergencyPaused);
        }
        self.require_admin(admin)?;
        let _ = self.require_not_paused(now);
        self.treasury = Some(new_treasury);
        Ok(())
    }

    /// The state after `suspend_project`.
    pub open spec fn suspend_result(s: MarketState, admin: Address, project_id: String, now: u64)
        -> Result<MarketState, CarbonError> {
        match pause_then_admin(s, admin, now) {
            Some(e) => Err(e),
            None => {
                let s1 = clear_expired_pause(s, now);
                Ok(MarketState { suspended: s1.suspended.insert(project_id@), ..s1 })
            },
        }
    }

    /// Admin: block listing and buying credits of `project_id`.
    pub fn suspend_project(&mut self, admin: &Address, project_id: String, now: u64) -> (r: Result<(), CarbonError>)
        requires
            old(self).wf(),
            is_paused(old(self)@, now) || old(self)@.admin is Some,
        ensures
            final(self).wf(),
            match r {
                Ok(_) => Self::suspend_result(old(self)@, *admin, project_id, now) == Ok::<MarketState, CarbonError>(final(self)@),
                Err(e) => Self::suspend_result(old(self)@, *admin, project_id, now) == Err::<MarketState, CarbonError>(e)
                    && final(self)@ == old(self)@,
            },
    {
        if self.blocked_by_pause(now) {
            return Err(CarbonError::EmergencyPaused);
        }
        self.require_admin(admin)?;
        let _ = self.require_not_paused(now);
        let ghost s1 = self@;
        let ghost t0 = self.suspended@;
        self.suspended.insert(project_id.clone(), true);
        proof {
            assert(self@.suspended =~= s1.suspended.insert(project_id@));
        }
        Ok(())
    }

    /// The state after `set_oracle_contract`.
    pub open spec fn set_oracle_result(s: MarketState, admin: Address, oracle: Address) -> Result<MarketState, CarbonError> {
        if !is_admin(s, admin) {
            Err(CarbonError::UnauthorizedVerifier)
        } else {
            Ok(MarketState { oracle_contract: Some(oracle), ..s })
        }
    }

    /// Admin: record the oracle whose benchmark prices gate purchases.
    pub fn set_oracle_contract(&mut self, admin: &Address, oracle: Address) -> (r: Result<(), CarbonError>)
        requires
            old(self).wf(),
        ensures
            final(self).wf(),
            match r {
                Ok(_) => Self::set_oracle_result(old(self)@, *admin, oracle) == Ok::<MarketState, CarbonError>(final(self)@),
                Err(e) => Self::set_oracle_result(old(self)@, *admin, oracle) == Err::<MarketState, CarbonError>(e)
                    && final(self)@ == old(self)@,
            },
    {
        self.require_admin(admin)?;
        self.oracle_contract = Some(oracle);
        Ok(())
    }

    /// The state after `set_price_freshness_window`.
    pub open spec fn set_freshness_result(s: MarketState, admin: Address, seconds: u64) -> Result<MarketState, CarbonError> {
        if !is_admin(s, admin) {
            Err(CarbonError::UnauthorizedVerifier)
        } else {
            Ok(MarketState { price_freshness_window: Some(seconds), ..s })
        }
    }

    /// Admin: set how long an oracle price counts as fresh.
    pub fn set_price_freshness_window(&mut self, admin: &Address, seconds: u64) -> (r: Result<(), CarbonError>)
        requires
            old(self).wf(),
        ensures
            final(self).wf(),
            match r {
                Ok(_) => Self::set_freshness_result(old(self)@, *admin, seconds) == Ok::<MarketState, CarbonError>(final(self)@),
                Err(e) => Self::set_freshness_result(old(self)@, *admin, seconds) == Err::<MarketState, CarbonError>(e)
                    && final(self)@ == old(self)@,
            },
    {
        self.require_admin(admin)?;
        self.price_freshness_window = Some(seconds);
        Ok(())
    }

    /// How long an oracle price counts as fresh (24 hours unless set).
    pub fn get_price_freshness_window(&self) -> (w: u64)
        ensures
            w == (match self@.price_freshness_window {
                Some(x) => x,
                None => DEFAULT_PRICE_FRESHNESS_SECONDS,
            }),
    {
        match self.price_freshness_window {
            Some(x) => x,
            None => DEFAULT_PRICE_FRESHNESS_SECONDS,
        }
    }

    /// The state after `pause_operations`.
    pub open spec fn pause_result(s: MarketState, admin: Address, until: u64, now: u64) -> Result<MarketState, CarbonError> {
        if !is_admin(s, admin) {
            Err(CarbonError::UnauthorizedVerifier)
        } else if !valid_pause_window(now, until) {
            Err(CarbonError::InvalidPauseWindow)
        } else {
            Ok(MarketState { paused: true, pause_until: until, ..s })
        }
    }

    /// Admin: pause guarded operations until `until`, at most 72 hours ahead.
    pub fn pause_operations(&mut self, admin: &Address, until: u64, now: u64) -> (r: Result<(), CarbonError>)
        requires
            old(self).wf(),
        ensures
            final(self).wf(),
            match r {
                Ok(_) => Self::pause_result(old(self)@, *admin, until, now) == Ok::<MarketState, CarbonError>(final(self)@),
                Err(e) => Self::pause_result(old(self)@, *admin, until, now) == Err::<MarketState, CarbonError>(e)
                    && final(self)@ == old(self)@,
            },
    {
        self.require_admin(admin)?;
        if !is_valid_pause_window(now, until) {
            return Err(CarbonError::InvalidPauseWindow);
        }
        self.paused = true;
        self.pause_until = until;
        Ok(())
    }

    /// The state after `unpause_operations`.
    pub open spec fn unpause_result(s: MarketState, admin: Address) -> Result<MarketState, CarbonError> {
        if !is_admin(s, admin) {
            Err(CarbonError::UnauthorizedVerifier)
        } else {
            Ok(MarketState { paused: false, pause_until: 0, ..s })
        }
    }

    /// Admin: lift the pause.
    pub fn unpause_operations(&mut self, admin: &Address) -> (r: Result<(), CarbonError>)
        requires
            old(self).wf(),
        ensures
            final(self).wf(),
            match r {
                Ok(_) => Self::unpause_result(old(self)@, *admin) == Ok::<MarketState, CarbonError>(final(self)@),
                Err(e) => Self::unpause_result(old(self)@, *admin) == Err::<MarketState, CarbonError>(e)
                    && final(self)@ == old(self)@,
            },
    {
        self.require_admin(admin)?;
        self.paused = false;
        self.pause_until = 0;
        Ok(())
    }

    /// The state after `set_vintage_year_bounds`.
    pub open spec fn vintage_bounds_result(s: MarketState, admin: Address, min_year: u32, max_year: u32, now: u64)
        -> Result<MarketState, CarbonError> {
        match admin_gate(s, admin, now) {
            Some(e) => Err(e),
            None => if min_year > max_year {
                Err(CarbonError::InvalidVintageYear)
            } else {
                Ok(MarketState { vintage_min: min_year, vintage_max: max_year, ..clear_expired_pause(s, now) })
            },
        }
    }

    /// Admin: set the accepted vintage years; a maximum of `0` means "the
    /// current year".
    pub fn set_vintage_year_bounds(&mut self, admin: &Address, min_year: u32, max_year: u32, now: u64)
        -> (r: Result<(), CarbonError>)
        requires
            old(self).wf(),
        ensures
            final(self).wf(),
            match r {
                Ok(_) => Self::vintage_bounds_result(old(self)@, *admin, min_year, max_year, now)
                    == Ok::<MarketState, CarbonError>(final(self)@),
                Err(e) => Self::vintage_bounds_result(old(self)@, *admin, min_year, max_year, now)
                    == Err::<MarketState, CarbonError>(e) && final(self)@ == old(self)@,
            },
    {
        self.require_admin(admin)?;
        if self.blocked_by_pause(now) {
            return Err(CarbonError::EmergencyPaused);
        }
        if min_year > max_year {
            return Err(CarbonError::InvalidVintageYear);
        }
        let _ = self.require_not_paused(now);
        self.vintage_min = min_year;
        self.vintage_max = max_year;
        Ok(())
    }

    /// The state after `set_sweep_threshold`.
    pub open spec fn sweep_threshold_result(s: MarketState, admin: Address, threshold: i128, now: u64)
        -> Result<MarketState, CarbonError> {
        match admin_gate(s, admin, now) {
            Some(e) => Err(e),
            None => if threshold <= 0 {
                Err(CarbonError::ZeroAmountNotAllowed)
            } else {
                Ok(MarketState { sweep_threshold: Some(threshold), ..clear_expired_pause(s, now) })
            },
        }
    }

    /// Admin: set the accumulated fee total at which purchases sweep.
    pub fn set_sweep_threshold(&mut self, admin: &Address, threshold: i128, now: u64) -> (r: Result<(), CarbonError>)
        requires
            old(self).wf(),
        ensures
            final(self).wf(),
            match r {
                Ok(_) => Self::sweep_threshold_result(old(self)@, *admin, threshold, now)
                    == Ok::<MarketState, CarbonError>(final(self)@),
                Err(e) => Self::sweep_threshold_result(old(self)@, *admin, threshold, now)
                    == Err::<MarketState, CarbonError>(e) && final(self)@ == old(self)@,
            },
    {
        self.require_admin(admin)?;
        if self.blocked_by_pause(now) {
            return Err(CarbonError::EmergencyPaused);
        }
        if threshold <= 0 {
            return Err(CarbonError::ZeroAmountNotAllowed);
        }
        let _ = self.require_not_paused(now);
        self.sweep_threshold = Some(threshold);
        Ok(())
    }

    /// The state after `sweep_fees`, with the amount swept.
    pub open spec fn sweep_result(s: MarketState, now: u64) -> Result<(MarketState, i128), CarbonError> {
        if is_paused(s, now) {
            Err(CarbonError::EmergencyPaused)
        } else if s.fee_accumulator == 0 {
            Ok((clear_expired_pause(s, now), 0))
        } else if s.total_fees_swept + s.fee_accumulator > i128::MAX || s.total_fees_swept + s.fee_accumulator < i128::MIN {
            Err(CarbonError::Arithmetic)
        } else {
            Ok((MarketState {
                fee_accumulator: 0,
                total_fees_swept: (s.total_fees_swept + s.fee_accumulator) as i128,
                ..clear_expired_pause(s, now)
            }, s.fee_accumulator))
        }
    }

    /// Move the whole fee accumulator into the swept total (the fees were
    /// paid to the treasury at purchase time), returning the amount moved.
    pub fn sweep_fees(&mut self, now: u64) -> (r: Result<i128, CarbonError>)
        requires
            old(self).wf(),
        ensures
            final(self).wf(),
            match r {
                Ok(a) => Self::sweep_result(old(self)@, now) == Ok::<(MarketState, i128), CarbonError>((final(self)@, a)),
                Err(e) => Self::sweep_result(old(self)@, now) == Err::<(MarketState, i128), CarbonError>(e)
                    && final(self)@ == old(self)@,
            },
    {
        if self.blocked_by_pause(now) {
            return Err(CarbonError::EmergencyPaused);
        }
        let acc = self.fee_accumulator;
        if acc == 0 {
            let _ = self.require_not_paused(now);
            return Ok(0);
        }
        let new_swept = match self.total_fees_swept.checked_add(acc) {
            Some(v) => v,
            None => return Err(CarbonError::Arithmetic),
        };
        let _ = self.require_not_paused(now);
        self.fee_accumulator = 0;
        self.total_fees_swept = new_swept;
        Ok(acc)
    }

    /// The running balance of fees not yet swept.
    pub fn get_fee_accumulator(&self) -> (a: i128)
        ensures
            a == self@.fee_accumulator,
    {
        self.fee_accumulator
    }

    /// Total fees swept since deployment.
    pub fn get_total_fees_swept(&self) -> (a: i128)
        ensures
            a == self@.total_fees_swept,
    {
        self.total_fees_swept
    }

    /// The auto-sweep threshold in force.
    pub fn get_sweep_threshold(&self) -> (t: i128)
        ensures
            t == sweep_threshold_of(self@),
    {
        match self.sweep_threshold {
            Some(t) => t,
            None => DEFAULT_SWEEP_THRESHOLD,
        }
    }
}

/// The listing after `amount` credits were bought from it.
pub open spec fn after_sale(l: MarketListing, amount: i128) -> MarketListing {
    let left = (l.amount_available - amount) as i128;
    MarketListing {
        amount_available: left,
        status: if left == 0 { ListingStatus::Sold } else { ListingStatus::PartiallyFilled },
        ..l
    }
}

/// Total price of `amount` credits of `l`.
pub open spec fn total_cost_of(l: MarketListing, amount: i128) -> int {
    l.price_per_credit * amount
}

/// Protocol fee on a total cost at the rate in force.
pub open spec fn fee_on(s: MarketState, total: int) -> int {
    total * fee_numerator(s) / (fee_denom(s) as int)
}

/// The fee accumulator and swept total after `fees` more were collected:
/// reaching the threshold sweeps the whole accumulator.
pub open spec fn accrue(s: MarketState, fees: int) -> (i128, i128, Option<i128>) {
    let acc = s.fee_accumulator + fees;
    if acc >= sweep_threshold_of(s) {
        (0, (s.total_fees_swept + acc) as i128, Some(acc as i128))
    } else {
        (acc as i128, s.total_fees_swept, None)
    }
}

/// Collecting `fees` more overflows the accumulator or the swept total.
pub open spec fn accrue_overflows(s: MarketState, fees: int) -> bool {
    let acc = s.fee_accumulator + fees;
    acc > i128::MAX || acc < i128::MIN || (acc >= sweep_threshold_of(s) && (s.total_fees_swept + acc > i128::MAX
        || s.total_fees_swept + acc < i128::MIN))
}

impl CarbonMarketplaceContract {
    // ── Listings ─────────────────────────────────────────────────────────────

    /// The state after `list_credits`.
    pub open spec fn list_result(
        s: MarketState,
        seller: Address,
        listing_id: String,
        batch_id: String,
        project_id: String,
        amount: i128,
        price_per_credit: i128,
        vintage_year: u32,
        methodology: String,
        country: String,
        now: u64,
    ) -> Result<MarketState, CarbonError> {
        if is_paused(s, now) {
            Err(CarbonError::EmergencyPaused)
        } else if amount <= 0 || price_per_credit <= 0 {
            Err(CarbonError::ZeroAmountNotAllowed)
        } else if !vintage_ok(s, vintage_year, now) {
            Err(CarbonError::InvalidVintageYear)
        } else if project_suspended(s, project_id@) {
            Err(CarbonError::ProjectSuspended)
        } else {
            let s1 = clear_expired_pause(s, now);
            let l = MarketListing {
                listing_id,
                seller,
                batch_id,
                project_id,
                amount_available: amount,
                price_per_credit,
                vintage_year,
                methodology,
                country,
                created_at: now,
                status: ListingStatus::Active,
                expires_at: sat_add(now, LISTING_TTL_SECONDS),
            };
            Ok(MarketState {
                listings: s1.listings.insert(listing_id@, l),
                all_listings: s1.all_listings.push(listing_id),
                ..s1
            })
        }
    }

    /// Offer `amount` credits of a batch at `price_per_credit` (USDC stroops).
    /// The listing expires 90 days after `now`.
    pub fn list_credits(
        &mut self,
        seller: Address,
        listing_id: String,
        batch_id: String,
        project_id: String,
        amount: i128,
        price_per_credit: i128,
        vintage_year: u32,
        methodology: String,
        country: String,
        now: u64,
    ) -> (r: Result<(), CarbonError>)
        requires
            old(self).wf(),
            old(self)@.all_listings.len() < u32::MAX,
        ensures
            final(self).wf(),
            match r {
                Ok(_) => Self::list_result(old(self)@, seller, listing_id, batch_id, project_id, amount, price_per_credit,
                    vintage_year, methodology, country, now) == Ok::<MarketState, CarbonError>(final(self)@),
                Err(e) => Self::list_result(old(self)@, seller, listing_id, batch_id, project_id, amount, price_per_credit,
                    vintage_year, methodology, country, now) == Err::<MarketState, CarbonError>(e)
                    && final(self)@ == old(self)@,
            },
    {
        if self.blocked_by_pause(now) {
            return Err(CarbonError::EmergencyPaused);
        }
        if amount <= 0 || price_per_credit <= 0 {
            return Err(CarbonError::ZeroAmountNotAllowed);
        }
        self.validate_vintage_year(vintage_year, now)?;
        if self.is_suspended(&project_id) {
            return Err(CarbonError::ProjectSuspended);
        }
        let _ = self.require_not_paused(now);
        let ghost s1 = self@;
        let listing = MarketListing {
            listing_id: listing_id.clone(),
            seller,
            batch_id,
            project_id,
            amount_available: amount,
            price_per_credit,
            vintage_year,
            methodology,
            country,
            created_at: now,
            status: ListingStatus::Active,
            expires_at: now.saturating_add(LISTING_TTL_SECONDS),
        };
        self.listings.insert(listing_id.clone(), listing);
        self.all_listings.push(listing_id);
        proof {
            assert(self@.all_listings =~= s1.all_listings.push(listing_id));
        }
        Ok(())
    }

    /// The state after `delist_credits`.
    pub open spec fn delist_result(s: MarketState, seller: Address, listing_id: String, now: u64)
        -> Result<MarketState, CarbonError> {
        if is_paused(s, now) {
            Err(CarbonError::EmergencyPaused)
        } else if !s.listings.dom().contains(listing_id@) {
            Err(CarbonError::ListingNotFound)
        } else if s.listings[listing_id@].seller@ != seller@ {
            Err(CarbonError::UnauthorizedVerifier)
        } else {
            let s1 = clear_expired_pause(s, now);
            let l = s.listings[listing_id@];
            Ok(MarketState {
                listings: s1.listings.insert(listing_id@, MarketListing { status: ListingStatus::Delisted, ..l }),
                ..s1
            })
        }
    }

    /// The seller withdraws a listing.
    pub fn delist_credits(&mut self, seller: &Address, listing_id: &String, now: u64) -> (r: Result<(), CarbonError>)
        requires
            old(self).wf(),
        ensures
            final(self).wf(),
            match r {
                Ok(_) => Self::delist_result(old(self)@, *seller, *listing_id, now) == Ok::<MarketState, CarbonError>(final(self)@),
                Err(e) => Self::delist_result(old(self)@, *seller, *listing_id, now) == Err::<MarketState, CarbonError>(e)
                    && final(self)@ == old(self)@,
            },
    {
        if self.blocked_by_pause(now) {
            return Err(CarbonError::EmergencyPaused);
        }
        let listing = self.load_listing(listing_id)?;
        if listing.seller != *seller {
            return Err(CarbonError::UnauthorizedVerifier);
        }
        let _ = self.require_not_paused(now);
        let updated = MarketListing { status: ListingStatus::Delisted, ..listing };
        self.listings.insert(listing_id.clone(), updated);
        Ok(())
    }

    /// How many listings were ever created (each id counted once per
    /// creation).
    pub fn get_listing_count(&self) -> (n: usize)
        ensures
            n == self@.all_listings.len(),
    {
        self.all_listings.len()
    }

    /// The listing stored under `listing_id`.
    pub fn get_listing(&self, listing_id: &String) -> (r: Result<MarketListing, CarbonError>)
        requires
            self.wf(),
        ensures
            match r {
                Ok(l) => self@.listings.dom().contains(listing_id@) && l == self@.listings[listing_id@],
                Err(e) => !self@.listings.dom().contains(listing_id@) && e == CarbonError::ListingNotFound,
            },
    {
        self.load_listing(listing_id)
    }

    // ── Purchase ─────────────────────────────────────────────────────────────

    /// The first check that a purchase fails, if any.  `price_current` is
    /// the oracle's verdict on the listing's benchmark price; it counts only
    /// when an oracle is configured.
    pub open spec fn purchase_error(s: MarketState, listing_id: String, amount: i128, price_current: bool, now: u64)
        -> Option<CarbonError> {
        if is_paused(s, now) {
            Some(CarbonError::EmergencyPaused)
        } else if s.locked {
            Some(CarbonError::ReentrancyDetected)
        } else if amount <= 0 {
            Some(CarbonError::ZeroAmountNotAllowed)
        } else if s.circuit_breaker {
            Some(CarbonError::CircuitBreakerTripped)
        } else if !s.listings.dom().contains(listing_id@) {
            Some(CarbonError::ListingNotFound)
        } else {
            let l = s.listings[listing_id@];
            let total = total_cost_of(l, amount);
            if s.oracle_contract is Some && !price_current {
                Some(CarbonError::MonitoringDataStale)
            } else if l.status == ListingStatus::Delisted || l.status == ListingStatus::Sold {
                Some(CarbonError::ListingNotFound)
            } else if now > l.expires_at {
                Some(CarbonError::ListingExpired)
            } else if project_suspended(s, l.project_id@) {
                Some(CarbonError::ProjectSuspended)
            } else if amount > l.amount_available {
                Some(CarbonError::InsufficientLiquidity)
            } else if total > i128::MAX || total * fee_numerator(s) > i128::MAX
                || accrue_overflows(s, fee_on(s, total)) {
                Some(CarbonError::Arithmetic)
            } else {
                None
            }
        }
    }

    /// The fee record a purchase files, under the next id of the ledger.
    pub open spec fn purchase_fee_record(s: MarketState, buyer: Address, listing_id: String, amount: i128, now: u64)
        -> FeeRecordView {
        let l = s.listings[listing_id@];
        let total = total_cost_of(l, amount);
        FeeRecordView {
            fee_id: fee_id(s.fee_ledger.len()),
            listing_id,
            buyer,
            seller: l.seller,
            total_cost: total as i128,
            fee_amount: fee_on(s, total) as i128,
            recorded_at: now,
        }
    }

    /// The state after `purchase_credits`, and what it pays out.
    pub open spec fn purchase_result(s: MarketState, buyer: Address, listing_id: String, amount: i128, price_current: bool,
        now: u64) -> Result<(MarketState, ReceiptView), CarbonError> {
        match Self::purchase_error(s, listing_id, amount, price_current, now) {
            Some(e) => Err(e),
            None => {
                let s1 = clear_expired_pause(s, now);
                let l = s.listings[listing_id@];
                let total = total_cost_of(l, amount);
                let fee = fee_on(s, total);
                let (acc, swept_total, swept) = accrue(s, fee);
                let id = fee_id(s.fee_ledger.len());
                let settlement = Settlement {
                    listing_id: l.listing_id,
                    seller: l.seller,
                    batch_id: l.batch_id,
                    amount,
                    total_cost: total as i128,
                    protocol_fee: fee as i128,
                    seller_proceeds: (total - fee) as i128,
                };
                Ok((MarketState {
                    listings: s1.listings.insert(listing_id@, after_sale(l, amount)),
                    fee_records: s1.fee_records.insert(id, Self::purchase_fee_record(s, buyer, listing_id, amount, now)),
                    fee_ledger: s1.fee_ledger.push(id),
                    fee_accumulator: acc,
                    total_fees_swept: swept_total,
                    ..s1
                }, ReceiptView { settlements: seq![settlement], swept }))
            },
        }
    }

    /// Price, fee and seller proceeds of `amount` credits at `price`, or
    /// `None` when the price or the fee overflows.
    fn price_line(&self, price: i128, amount: i128) -> (r: Option<(i128, i128, i128)>)
        requires
            self.wf(),
            price > 0,
            amount > 0,
        ensures
            match r {
                Some((total, fee, proceeds)) => {
                    &&& total == price * amount
                    &&& total * fee_numerator(self@) <= i128::MAX
                    &&& fee == fee_on(self@, total as int)
                    &&& 0 <= fee <= total
                    &&& proceeds == total - fee
                },
                None => price * amount > i128::MAX || price * amount * fee_numerator(self@) > i128::MAX,
            },
    {
        let (num, denom) = self.fee_rate();
        let total = match price.checked_mul(amount) {
            Some(t) => t,
            None => return None,
        };
        assert(total > 0) by (nonlinear_arith)
            requires total == price * amount, price > 0, amount > 0;
        let scaled = match total.checked_mul(num) {
            Some(x) => x,
            None => return None,
        };
        assert(0 <= scaled <= total * (denom / 10)) by (nonlinear_arith)
            requires scaled == total * num, total > 0, 0 <= num <= denom / 10;
        assert(total * (denom / 10) <= total * denom / 10) by (nonlinear_arith)
            requires total > 0, denom > 0;
        let fee = ((scaled as u128) / (denom as u128)) as i128;
        assert(fee <= total) by (nonlinear_arith)
            requires fee == scaled / denom, 0 <= scaled <= total * denom / 10, denom > 0, total > 0;
        Some((total, fee, total - fee))
    }

    /// The fee accumulator and swept total after collecting `fees`, with the
    /// amount swept; `None` on overflow.
    fn accrue_fees(&self, fees: i128) -> (r: Option<(i128, i128, Option<i128>)>)
        ensures
            match r {
                Some(t) => !accrue_overflows(self@, fees as int) && t == accrue(self@, fees as int),
                None => accrue_overflows(self@, fees as int),
            },
    {
        let acc = match self.fee_accumulator.checked_add(fees) {
            Some(a) => a,
            None => return None,
        };
        let threshold = match self.sweep_threshold {
            Some(t) => t,
            None => DEFAULT_SWEEP_THRESHOLD,
        };
        if acc >= threshold {
            match self.total_fees_swept.checked_add(acc) {
                Some(t) => Some((0, t, Some(acc))),
                None => None,
            }
        } else {
            Some((acc, self.total_fees_swept, None))
        }
    }

    /// Buy `amount` credits from a listing.  `price_current` is the oracle's
    /// answer on whether the listing's benchmark price is current; it is
    /// consulted only when an oracle is configured.  On success the listing
    /// shrinks, the fee is filed and accrued (sweeping at the threshold), and
    /// the receipt says what to pay out.
    pub fn purchase_credits(&mut self, buyer: &Address, listing_id: &String, amount: i128, price_current: bool, now: u64)
        -> (r: Result<PurchaseReceipt, CarbonError>)
        requires
            old(self).wf(),
        ensures
            final(self).wf(),
            match r {
                Ok(rc) => Self::purchase_result(old(self)@, *buyer, *listing_id, amount, price_current, now)
                    == Ok::<(MarketState, ReceiptView), CarbonError>((final(self)@, rc@)),
                Err(e) => Self::purchase_result(old(self)@, *buyer, *listing_id, amount, price_current, now)
                    == Err::<(MarketState, ReceiptView), CarbonError>(e) && final(self)@ == old(self)@,
            },
    {
        if self.blocked_by_pause(now) {
            return Err(CarbonError::EmergencyPaused);
        }
        if self.locked {
            return Err(CarbonError::ReentrancyDetected);
        }
        if amount <= 0 {
            return Err(CarbonError::ZeroAmountNotAllowed);
        }
        if self.circuit_breaker {
            return Err(CarbonError::CircuitBreakerTripped);
        }
        let listing = self.load_listing(listing_id)?;
        proof {
            assert(listing_ok(listing, listing_id@));
        }
        if self.oracle_contract.is_some() && !price_current {
            return Err(CarbonError::MonitoringDataStale);
        }
        if listing.status == ListingStatus::Delisted || listing.status == ListingStatus::Sold {
            return Err(CarbonError::ListingNotFound);
        }
        if now > listing.expires_at {
            return Err(CarbonError::ListingExpired);
        }
        if self.is_suspended(&listing.project_id) {
            return Err(CarbonError::ProjectSuspended);
        }
        if amount > listing.amount_available {
            return Err(CarbonError::InsufficientLiquidity);
        }
        let (total, fee, proceeds) = match self.price_line(listing.price_per_credit, amount) {
            Some(t) => t,
            None => return Err(CarbonError::Arithmetic),
        };
        let (acc, swept_total, swept) = match self.accrue_fees(fee) {
            Some(t) => t,
            None => return Err(CarbonError::Arithmetic),
        };
        let ghost s0 = self@;
        let _ = self.require_not_paused(now);
        let ghost s1 = self@;
        let left = listing.amount_available - amount;
        let status = if left == 0 { ListingStatus::Sold } else { ListingStatus::PartiallyFilled };
        let seller = listing.seller.clone();
        let settlement = Settlement {
            listing_id: listing.listing_id.clone(),
            seller: listing.seller.clone(),
            batch_id: listing.batch_id.clone(),
            amount,
            total_cost: total,
            protocol_fee: fee,
            seller_proceeds: proceeds,
        };
        let updated = MarketListing { amount_available: left, status, ..listing };
        self.listings.insert(listing_id.clone(), updated);
        let id = fee_id_text(self.fee_ledger.len());
        let record = FeeRecord {
            fee_id: id.clone(),
            listing_id: listing_id.clone(),
            buyer: buyer.clone(),
            seller,
            total_cost: total,
            fee_amount: fee,
            recorded_at: now,
        };
        let ghost rv = record@;
        let ghost idv = id@;
        let ghost recs0 = self.fee_records@;
        let ghost ledger0 = self.fee_ledger@;
        self.fee_records.insert(id.clone(), record);
        self.fee_ledger.push(id);
        self.fee_accumulator = acc;
        self.total_fees_swept = swept_total;
        let mut settlements: Vec<Settlement> = Vec::new();
        settlements.push(settlement);
        proof {
            assert(self.fee_ledger@.map_values(|x: String| x@) =~= ledger0.map_values(|x: String| x@).push(idv));
            assert(self.fee_records@.map_values(|r: FeeRecord| r@)
                =~= recs0.map_values(|r: FeeRecord| r@).insert(idv, rv));
            assert(rv == Self::purchase_fee_record(s0, *buyer, *listing_id, amount, now));
            assert(settlements@ =~= seq![settlement]);
        }
        Ok(PurchaseReceipt { settlements, swept })
    }
}

// ── Bulk purchase model ──────────────────────────────────────────────────────

/// The check of item `i` of a bulk purchase that fails, if any.  All items
/// must share the vintage of the first.
pub open spec fn bulk_item_error(s: MarketState, ids: Seq<String>, amounts: Seq<i128>, price_current: Seq<bool>,
    now: u64, i: int) -> Option<CarbonError> {
    let amount = amounts[i];
    if amount <= 0 {
        Some(CarbonError::ZeroAmountNotAllowed)
    } else if !s.listings.dom().contains(ids[i]@) {
        Some(CarbonError::ListingNotFound)
    } else {
        let l = s.listings[ids[i]@];
        if l.status == ListingStatus::Delisted || l.status == ListingStatus::Sold {
            Some(CarbonError::ListingNotFound)
        } else if now > l.expires_at {
            Some(CarbonError::ListingExpired)
        } else if project_suspended(s, l.project_id@) {
            Some(CarbonError::ProjectSuspended)
        } else if !vintage_ok(s, l.vintage_year, now) {
            Some(CarbonError::InvalidVintageYear)
        } else if i > 0 && l.vintage_year != s.listings[ids[0]@].vintage_year {
            Some(CarbonError::InvalidVintageYear)
        } else if s.oracle_contract is Some && !price_current[i] {
            Some(CarbonError::CircuitBreakerTripped)
        } else if amount > l.amount_available {
            Some(CarbonError::InsufficientLiquidity)
        } else {
            None
        }
    }
}

/// The first failing item check from item `i` on, if any.
pub open spec fn bulk_first_error(s: MarketState, ids: Seq<String>, amounts: Seq<i128>, price_current: Seq<bool>,
    now: u64, i: nat) -> Option<CarbonError>
    decreases ids.len() - i,
{
    if i >= ids.len() {
        None
    } else {
        match bulk_item_error(s, ids, amounts, price_current, now, i as int) {
            Some(e) => Some(e),
            None => bulk_first_error(s, ids, amounts, price_current, now, i + 1),
        }
    }
}

/// Total cost of item `i`.
pub open spec fn bulk_total(s: MarketState, ids: Seq<String>, amounts: Seq<i128>, i: int) -> int {
    total_cost_of(s.listings[ids[i]@], amounts[i])
}

/// The fees of the first `n` items.
pub open spec fn bulk_fees(s: MarketState, ids: Seq<String>, amounts: Seq<i128>, n: nat) -> int
    decreases n,
{
    if n == 0 {
        0
    } else {
        bulk_fees(s, ids, amounts, (n - 1) as nat) + fee_on(s, bulk_total(s, ids, amounts, n - 1))
    }
}

/// Item `i`'s price or fee overflows.
pub open spec fn bulk_line_overflows(s: MarketState, ids: Seq<String>, amounts: Seq<i128>, i: int) -> bool {
    bulk_total(s, ids, amounts, i) > i128::MAX || bulk_total(s, ids, amounts, i) * fee_numerator(s) > i128::MAX
}

/// The listings after the first `n` items were bought: each item is taken
/// from the listing as it stood before the purchase.
pub open spec fn bulk_listings(m: Map<Seq<char>, MarketListing>, s: MarketState, ids: Seq<String>, amounts: Seq<i128>,
    n: nat) -> Map<Seq<char>, MarketListing>
    decreases n,
{
    if n == 0 {
        m
    } else {
        bulk_listings(m, s, ids, amounts, (n - 1) as nat).insert(
            ids[n - 1]@,
            after_sale(s.listings[ids[n - 1]@], amounts[n - 1]),
        )
    }
}

/// What item `i` pays out.
pub open spec fn bulk_settlement(s: MarketState, ids: Seq<String>, amounts: Seq<i128>, i: int) -> Settlement {
    let l = s.listings[ids[i]@];
    let total = bulk_total(s, ids, amounts, i);
    let fee = fee_on(s, total);
    Settlement {
        listing_id: l.listing_id,
        seller: l.seller,
        batch_id: l.batch_id,
        amount: amounts[i],
        total_cost: total as i128,
        protocol_fee: fee as i128,
        seller_proceeds: (total - fee) as i128,
    }
}

/// The fee record filed for item `i` of a bulk purchase, under the `i`-th
/// new id of the ledger.
pub open spec fn bulk_fee_record(s: MarketState, buyer: Address, ids: Seq<String>, amounts: Seq<i128>, now: u64, i: int)
    -> FeeRecordView {
    let st = bulk_settlement(s, ids, amounts, i);
    FeeRecordView {
        fee_id: fee_id((s.fee_ledger.len() + i) as nat),
        listing_id: st.listing_id,
        buyer,
        seller: st.seller,
        total_cost: st.total_cost,
        fee_amount: st.protocol_fee,
        recorded_at: now,
    }
}

/// The fee records after those of the first `n` items of a bulk purchase
/// were filed.
pub open spec fn bulk_records(m: Map<Seq<char>, FeeRecordView>, s: MarketState, buyer: Address, ids: Seq<String>,
    amounts: Seq<i128>, now: u64, n: nat) -> Map<Seq<char>, FeeRecordView>
    decreases n,
{
    if n == 0 {
        m
    } else {
        bulk_records(m, s, buyer, ids, amounts, now, (n - 1) as nat).insert(
            fee_id((s.fee_ledger.len() + n - 1) as nat),
            bulk_fee_record(s, buyer, ids, amounts, now, n - 1),
        )
    }
}

impl CarbonMarketplaceContract {
    /// The first check that a bulk purchase fails, if any.
    pub open spec fn bulk_error(s: MarketState, ids: Seq<String>, amounts: Seq<i128>, price_current: Seq<bool>, now: u64)
        -> Option<CarbonError> {
        if is_paused(s, now) {
            Some(CarbonError::EmergencyPaused)
        } else if s.locked {
            Some(CarbonError::ReentrancyDetected)
        } else if s.circuit_breaker {
            Some(CarbonError::CircuitBreakerTripped)
        } else if ids.len() != amounts.len() || ids.len() > MAX_BULK_PURCHASE {
            Some(CarbonError::InvalidSerialRange)
        } else {
            match bulk_first_error(s, ids, amounts, price_current, now, 0) {
                Some(e) => Some(e),
                None => if (exists|i: int| 0 <= i < ids.len() && #[trigger] bulk_line_overflows(s, ids, amounts, i))
                    || bulk_fees(s, ids, amounts, ids.len()) > i128::MAX
                    || accrue_overflows(s, bulk_fees(s, ids, amounts, ids.len())) {
                    Some(CarbonError::Arithmetic)
                } else {
                    None
                },
            }
        }
    }

    /// The state after `bulk_purchase`, and what it pays out.
    pub open spec fn bulk_result(s: MarketState, buyer: Address, ids: Seq<String>, amounts: Seq<i128>,
        price_current: Seq<bool>, now: u64) -> Result<(MarketState, ReceiptView), CarbonError> {
        match Self::bulk_error(s, ids, amounts, price_current, now) {
            Some(e) => Err(e),
            None => {
                let n = ids.len();
                let s1 = clear_expired_pause(s, now);
                let fees = bulk_fees(s, ids, amounts, n);
                let (acc, swept_total, swept) = accrue(s, fees);
                Ok((MarketState {
                    listings: bulk_listings(s1.listings, s, ids, amounts, n),
                    fee_records: bulk_records(s1.fee_records, s, buyer, ids, amounts, now, n),
                    fee_ledger: s1.fee_ledger + Seq::new(n, |i: int| fee_id((s.fee_ledger.len() + i) as nat)),
                    fee_accumulator: acc,
                    total_fees_swept: swept_total,
                    ..s1
                }, ReceiptView {
                    settlements: Seq::new(n, |i: int| bulk_settlement(s, ids, amounts, i)),
                    swept,
                }))
            },
        }
    }
}

proof fn lemma_first_error_skip(s: MarketState, ids: Seq<String>, amounts: Seq<i128>, pc: Seq<bool>, now: u64, i: nat)
    requires
        i <= ids.len(),
        forall|j: int| 0 <= j < i ==> #[trigger] bulk_item_error(s, ids, amounts, pc, now, j) is None,
    ensures
        bulk_first_error(s, ids, amounts, pc, now, 0) == bulk_first_error(s, ids, amounts, pc, now, i),
    decreases i,
{
    if i > 0 {
        lemma_first_error_skip(s, ids, amounts, pc, now, (i - 1) as nat);
        assert(bulk_item_error(s, ids, amounts, pc, now, i - 1) is None);
    }
}

proof fn lemma_fees_monotone(s: MarketState, ids: Seq<String>, amounts: Seq<i128>, i: nat, n: nat)
    requires
        i <= n <= ids.len(),
        forall|j: int| 0 <= j < n ==> fee_on(s, #[trigger] bulk_total(s, ids, amounts, j)) >= 0,
    ensures
        bulk_fees(s, ids, amounts, i) <= bulk_fees(s, ids, amounts, n),
    decreases n - i,
{
    if i < n {
        lemma_fees_monotone(s, ids, amounts, i, (n - 1) as nat);
        assert(fee_on(s, bulk_total(s, ids, amounts, n - 1)) >= 0);
    }
}

proof fn lemma_fee_nonneg(s: MarketState, total: int)
    requires
        total >= 0,
        fee_rate_ok(fee_numerator(s), fee_denom(s)),
    ensures
        fee_on(s, total) >= 0,
{
    let num = fee_numerator(s) as int;
    let den = fee_denom(s) as int;
    assert(total * num >= 0) by (nonlinear_arith)
        requires total >= 0, num >= 0;
    assert((total * num) / den >= 0) by (nonlinear_arith)
        requires total * num >= 0, den > 0;
}

impl CarbonMarketplaceContract {
    /// Phase one of a bulk purchase: check every item in order, giving back
    /// copies of the listings bought from.
    fn bulk_validate(&self, listing_ids: &Vec<String>, amounts: &Vec<i128>, price_current: &Vec<bool>, now: u64)
        -> (r: Result<Vec<MarketListing>, CarbonError>)
        requires
            self.wf(),
            listing_ids@.len() == amounts@.len(),
            listing_ids@.len() == price_current@.len(),
        ensures
            match r {
                Ok(v) => {
                    &&& bulk_first_error(self@, listing_ids@, amounts@, price_current@, now, 0) is None
                    &&& v@.len() == listing_ids@.len()
                    &&& forall|j: int| 0 <= j < v@.len() ==> #[trigger] bulk_item_error(self@, listing_ids@, amounts@,
                        price_current@, now, j) is None
                    &&& forall|j: int| 0 <= j < v@.len() ==> self@.listings.dom().contains(#[trigger] listing_ids@[j]@)
                    &&& forall|j: int| 0 <= j < v@.len() ==> #[trigger] v@[j] == self@.listings[listing_ids@[j]@]
                },
                Err(e) => bulk_first_error(self@, listing_ids@, amounts@, price_current@, now, 0) == Some(e),
            },
    {
        let ghost s0 = self@;
        let ghost ids = listing_ids@;
        let ghost am = amounts@;
        let ghost pc = price_current@;
        let n = listing_ids.len();
        let mut validated: Vec<MarketListing> = Vec::new();
        let mut first_vintage: u32 = 0;
        let mut i: usize = 0;
        while i < n
            invariant
                self.wf(),
                self@ == s0,
                n == ids.len(),
                n == am.len(),
                n == pc.len(),
                ids == listing_ids@,
                am == amounts@,
                pc == price_current@,
                i <= n,
                validated@.len() == i,
                forall|j: int| 0 <= j < i ==> #[trigger] bulk_item_error(s0, ids, am, pc, now, j) is None,
                forall|j: int| 0 <= j < i ==> s0.listings.dom().contains(#[trigger] ids[j]@),
                forall|j: int| 0 <= j < i ==> #[trigger] validated@[j] == s0.listings[ids[j]@],
                i > 0 ==> first_vintage == s0.listings[ids[0]@].vintage_year,
            decreases n - i,
        {
            proof {
                lemma_first_error_skip(s0, ids, am, pc, now, i as nat);
            }
            let e = self.bulk_item_check(listing_ids, amounts, price_current, i, first_vintage, now);
            match e {
                Err(err) => return Err(err),
                Ok(listing) => {
                    if i == 0 {
                        first_vintage = listing.vintage_year;
                    }
                    validated.push(listing);
                },
            }
            i = i + 1;
        }
        proof {
            lemma_first_error_skip(s0, ids, am, pc, now, n as nat);
        }
        Ok(validated)
    }

    /// The checks of item `i` of a bulk purchase, given the vintage of item 0.
    fn bulk_item_check(&self, listing_ids: &Vec<String>, amounts: &Vec<i128>, price_current: &Vec<bool>, i: usize,
        first_vintage: u32, now: u64) -> (r: Result<MarketListing, CarbonError>)
        requires
            self.wf(),
            listing_ids@.len() == amounts@.len(),
            listing_ids@.len() == price_current@.len(),
            i < listing_ids@.len(),
            i > 0 ==> self@.listings.dom().contains(listing_ids@[0]@)
                && first_vintage == self@.listings[listing_ids@[0]@].vintage_year,
        ensures
            match r {
                Ok(l) => bulk_item_error(self@, listing_ids@, amounts@, price_current@, now, i as int) is None
                    && self@.listings.dom().contains(listing_ids@[i as int]@) && l == self@.listings[listing_ids@[i as int]@],
                Err(e) => bulk_item_error(self@, listing_ids@, amounts@, price_current@, now, i as int) == Some(e),
            },
    {
        let amount = amounts[i];
        if amount <= 0 {
            return Err(CarbonError::ZeroAmountNotAllowed);
        }
        let listing = self.load_listing(&listing_ids[i])?;
        if listing.status == ListingStatus::Delisted || listing.status == ListingStatus::Sold {
            return Err(CarbonError::ListingNotFound);
        }
        if now > listing.expires_at {
            return Err(CarbonError::ListingExpired);
        }
        if self.is_suspended(&listing.project_id) {
            return Err(CarbonError::ProjectSuspended);
        }
        self.validate_vintage_year(listing.vintage_year, now)?;
        if i > 0 && listing.vintage_year != first_vintage {
            return Err(CarbonError::InvalidVintageYear);
        }
        if self.oracle_contract.is_some() && !price_current[i] {
            return Err(CarbonError::CircuitBreakerTripped);
        }
        if amount > listing.amount_available {
            return Err(CarbonError::InsufficientLiquidity);
        }
        Ok(listing)
    }

    /// Phase two of a bulk purchase: price every item and add up the fees;
    /// `None` when a price, a fee or the sum overflows.
    fn bulk_price(&self, listing_ids: &Vec<String>, amounts: &Vec<i128>, price_current: &Vec<bool>,
        validated: &Vec<MarketListing>, now: u64) -> (r: Option<(Vec<Settlement>, i128)>)
        requires
            self.wf(),
            listing_ids@.len() == amounts@.len(),
            validated@.len() == listing_ids@.len(),
            forall|j: int| 0 <= j < validated@.len() ==> #[trigger] bulk_item_error(self@, listing_ids@, amounts@,
                price_current@, now, j) is None,
            forall|j: int| 0 <= j < validated@.len() ==> self@.listings.dom().contains(#[trigger] listing_ids@[j]@),
            forall|j: int| 0 <= j < validated@.len() ==> #[trigger] validated@[j] == self@.listings[listing_ids@[j]@],
        ensures
            match r {
                Some((v, total)) => {
                    &&& v@ == Seq::new(listing_ids@.len(), |x: int| bulk_settlement(self@, listing_ids@, amounts@, x))
                    &&& forall|k: int| 0 <= k < listing_ids@.len() ==> !#[trigger] bulk_line_overflows(self@, listing_ids@,
                        amounts@, k)
                    &&& total == bulk_fees(self@, listing_ids@, amounts@, listing_ids@.len())
                },
                None => (exists|k: int| 0 <= k < listing_ids@.len() && #[trigger] bulk_line_overflows(self@, listing_ids@,
                    amounts@, k)) || bulk_fees(self@, listing_ids@, amounts@, listing_ids@.len()) > i128::MAX,
            },
    {
        let ghost s0 = self@;
        let ghost ids = listing_ids@;
        let ghost am = amounts@;
        let ghost pc = price_current@;
        let n = listing_ids.len();
        proof {
            self.lemma_wf_fee();
            assert forall|j: int| 0 <= j < n implies fee_on(s0, #[trigger] bulk_total(s0, ids, am, j)) >= 0 by {
                assert(bulk_item_error(s0, ids, am, pc, now, j) is None);
                assert(listing_ok(s0.listings[ids[j]@], ids[j]@));
                let l = s0.listings[ids[j]@];
                assert(l.price_per_credit * am[j] >= 0) by (nonlinear_arith)
                    requires l.price_per_credit > 0, am[j] > 0;
                lemma_fee_nonneg(s0, bulk_total(s0, ids, am, j));
            }
        }
        let mut settlements: Vec<Settlement> = Vec::new();
        let mut fee_sum: i128 = 0;
        let mut j: usize = 0;
        while j < n
            invariant
                self.wf(),
                self@ == s0,
                n == ids.len(),
                n == am.len(),
                ids == listing_ids@,
                am == amounts@,
                pc == price_current@,
                j <= n,
                validated@.len() == n,
                forall|k: int| 0 <= k < n ==> #[trigger] bulk_item_error(s0, ids, am, pc, now, k) is None,
                forall|k: int| 0 <= k < n ==> s0.listings.dom().contains(#[trigger] ids[k]@),
                forall|k: int| 0 <= k < n ==> #[trigger] validated@[k] == s0.listings[ids[k]@],
                forall|k: int| 0 <= k < n ==> fee_on(s0, #[trigger] bulk_total(s0, ids, am, k)) >= 0,
                settlements@.len() == j,
                forall|k: int| 0 <= k < j ==> #[trigger] settlements@[k] == bulk_settlement(s0, ids, am, k),
                forall|k: int| 0 <= k < j ==> !#[trigger] bulk_line_overflows(s0, ids, am, k),
                fee_sum == bulk_fees(s0, ids, am, j as nat),
            decreases n - j,
        {
            let amount = amounts[j];
            proof {
                assert(bulk_item_error(s0, ids, am, pc, now, j as int) is None);
                assert(listing_ok(s0.listings[ids[j as int]@], ids[j as int]@));
            }
            let line = self.price_line(validated[j].price_per_credit, amount);
            let (total, fee, proceeds) = match line {
                Some(t) => t,
                None => {
                    proof {
                        assert(bulk_line_overflows(s0, ids, am, j as int));
                    }
                    return None;
                },
            };
            fee_sum = match fee_sum.checked_add(fee) {
                Some(x) => x,
                None => {
                    proof {
                        lemma_fees_monotone(s0, ids, am, (j + 1) as nat, n as nat);
                    }
                    return None;
                },
            };
            settlements.push(Settlement {
                listing_id: validated[j].listing_id.clone(),
                seller: validated[j].seller.clone(),
                batch_id: validated[j].batch_id.clone(),
                amount,
                total_cost: total,
                protocol_fee: fee,
                seller_proceeds: proceeds,
            });
            j = j + 1;
        }
        proof {
            assert(settlements@ =~= Seq::new(n as nat, |x: int| bulk_settlement(s0, ids, am, x)));
        }
        Some((settlements, fee_sum))
    }

    proof fn lemma_wf_fee(&self)
        requires
            self.wf(),
        ensures
            fee_rate_ok(fee_numerator(self@), fee_denom(self@)),
    {
    }

    /// Buy from up to ten listings of one vintage at once.  Every item is
    /// checked before anything changes; a stale oracle price for any item
    /// fails the whole purchase.  `price_current[i]` is the oracle's answer
    /// for item `i`, consulted only when an oracle is configured.  The
    /// receipt lists what to pay out for each item, in order.
    pub fn bulk_purchase(
        &mut self,
        buyer: &Address,
        listing_ids: &Vec<String>,
        amounts: &Vec<i128>,
        price_current: &Vec<bool>,
        now: u64,
    ) -> (r: Result<PurchaseReceipt, CarbonError>)
        requires
            old(self).wf(),
            price_current@.len() == listing_ids@.len(),
        ensures
            final(self).wf(),
            match r {
                Ok(rc) => Self::bulk_result(old(self)@, *buyer, listing_ids@, amounts@, price_current@, now)
                    == Ok::<(MarketState, ReceiptView), CarbonError>((final(self)@, rc@)),
                Err(e) => Self::bulk_result(old(self)@, *buyer, listing_ids@, amounts@, price_current@, now)
                    == Err::<(MarketState, ReceiptView), CarbonError>(e) && final(self)@ == old(self)@,
            },
    {
        if self.blocked_by_pause(now) {
            return Err(CarbonError::EmergencyPaused);
        }
        if self.locked {
            return Err(CarbonError::ReentrancyDetected);
        }
        if self.circuit_breaker {
            return Err(CarbonError::CircuitBreakerTripped);
        }
        let n = listing_ids.len();
        if n != amounts.len() || n > MAX_BULK_PURCHASE {
            return Err(CarbonError::InvalidSerialRange);
        }
        let ghost s0 = self@;
        let ghost ids = listing_ids@;
        let ghost am = amounts@;
        let ghost pc = price_current@;
        proof {
            self.lemma_wf_fee();
        }

        let validated = match self.bulk_validate(listing_ids, amounts, price_current, now) {
            Ok(v) => v,
            Err(e) => return Err(e),
        };
        let (settlements, fee_sum) = match self.bulk_price(listing_ids, amounts, price_current, &validated, now) {
            Some(t) => t,
            None => return Err(CarbonError::Arithmetic),
        };
        let (acc, swept_total, swept) = match self.accrue_fees(fee_sum) {
            Some(t) => t,
            None => return Err(CarbonError::Arithmetic),
        };

        // Commit.
        let _ = self.require_not_paused(now);
        let ghost s1 = self@;
        let mut k: usize = 0;
        while k < n
            invariant
                self.wf(),
                n == ids.len(),
                n == am.len(),
                ids == listing_ids@,
                am == amounts@,
                k <= n,
                validated@.len() == n,
                s1 == clear_expired_pause(s0, now),
                forall|x: int| 0 <= x < n ==> #[trigger] bulk_item_error(s0, ids, am, pc, now, x) is None,
                forall|x: int| 0 <= x < n ==> s0.listings.dom().contains(#[trigger] ids[x]@),
                forall|x: int| 0 <= x < n ==> #[trigger] validated@[x] == s0.listings[ids[x]@],
                forall|x: Seq<char>| #[trigger] s0.listings.dom().contains(x) ==> listing_ok(s0.listings[x], x),
                settlements@ == Seq::new(n as nat, |x: int| bulk_settlement(s0, ids, am, x)),
                self@ == (MarketState {
                    listings: bulk_listings(s1.listings, s0, ids, am, k as nat),
                    fee_ledger: s1.fee_ledger + Seq::new(k as nat, |x: int| fee_id((s0.fee_ledger.len() + x) as nat)),
                    fee_records: bulk_records(s1.fee_records, s0, *buyer, ids, am, now, k as nat),
                    ..s1
                }),
            decreases n - k,
        {
            let amount = amounts[k];
            proof {
                assert(bulk_item_error(s0, ids, am, pc, now, k as int) is None);
                assert(listing_ok(s0.listings[ids[k as int]@], ids[k as int]@));
                assert(self@.fee_ledger.len() == self.fee_ledger@.len());
                assert(s1.fee_ledger.len() == s0.fee_ledger.len());
                assert(self.fee_ledger@.len() == s0.fee_ledger.len() + k);
            }
            let l = validated[k].duplicate();
            let left = l.amount_available - amount;
            let status = if left == 0 { ListingStatus::Sold } else { ListingStatus::PartiallyFilled };
            let key = l.listing_id.clone();
            let updated = MarketListing { amount_available: left, status, ..l };
            self.listings.insert(key, updated);
            let id = fee_id_text(self.fee_ledger.len());
            let record = FeeRecord {
                fee_id: id.clone(),
                listing_id: settlements[k].listing_id.clone(),
                buyer: buyer.clone(),
                seller: settlements[k].seller.clone(),
                total_cost: settlements[k].total_cost,
                fee_amount: settlements[k].protocol_fee,
                recorded_at: now,
            };
            let ghost rv = record@;
            let ghost idv = id@;
            let ghost recs0 = self.fee_records@;
            let ghost ledger0 = self.fee_ledger@;
            self.fee_records.insert(id.clone(), record);
            self.fee_ledger.push(id);
            proof {
                assert(idv == fee_id((s0.fee_ledger.len() + k) as nat));
                assert(rv == bulk_fee_record(s0, *buyer, ids, am, now, k as int));
                assert(self.fee_ledger@.map_values(|x: String| x@) =~= ledger0.map_values(|x: String| x@).push(idv));
                assert(self.fee_records@.map_values(|r: FeeRecord| r@)
                    =~= recs0.map_values(|r: FeeRecord| r@).insert(idv, rv));
                assert(self@.fee_ledger =~= s1.fee_ledger + Seq::new((k + 1) as nat,
                    |x: int| fee_id((s0.fee_ledger.len() + x) as nat)));
            }
            k = k + 1;
        }
        self.fee_accumulator = acc;
        self.total_fees_swept = swept_total;
        Ok(PurchaseReceipt { settlements, swept })
    }
}

// ── Queries ──────────────────────────────────────────────────────────────────

/// The stored listings named by `ids` that satisfy `p`, in the order of `ids`.
pub open spec fn listings_matching(s: MarketState, ids: Seq<String>, p: spec_fn(MarketListing) -> bool)
    -> Seq<MarketListing>
    decreases ids.len(),
{
    if ids.len() == 0 {
        Seq::empty()
    } else {
        let prev = listings_matching(s, ids.drop_last(), p);
        let k = ids.last()@;
        if s.listings.dom().contains(k) && p(s.listings[k]) { prev.push(s.listings[k]) } else { prev }
    }
}

/// The stored fee records named by `ids`, in the order of `ids`.
pub open spec fn records_listed(s: MarketState, ids: Seq<Seq<char>>) -> Seq<FeeRecordView>
    decreases ids.len(),
{
    if ids.len() == 0 {
        Seq::empty()
    } else {
        let prev = records_listed(s, ids.drop_last());
        let k = ids.last();
        if s.fee_records.dom().contains(k) { prev.push(s.fee_records[k]) } else { prev }
    }
}

/// Items `offset ..` of `m`, at most `limit` of them.
pub open spec fn page_of<T>(m: Seq<T>, offset: u32, limit: u32) -> Seq<T> {
    if offset >= m.len() {
        Seq::empty()
    } else if offset + limit < m.len() {
        m.subrange(offset as int, offset + limit)
    } else {
        m.subrange(offset as int, m.len() as int)
    }
}

/// A page of listings as a sequence.
pub struct ListingsPageView {
    pub items: Seq<MarketListing>,
    pub total: u32,
    pub offset: u32,
}

impl View for ListingsPage {
    type V = ListingsPageView;

    open spec fn view(&self) -> ListingsPageView {
        ListingsPageView { items: self.items@, total: self.total, offset: self.offset }
    }
}

/// Which listings a query keeps.
enum ListingFilter {
    Live(u64),
    Project(String),
    Vintage(u32),
}

spec fn filter_pred(f: ListingFilter) -> spec_fn(MarketListing) -> bool {
    match f {
        ListingFilter::Live(now) => |l: MarketListing| listing_live(l, now),
        ListingFilter::Project(p) => |l: MarketListing| l.project_id@ == p@,
        ListingFilter::Vintage(y) => |l: MarketListing| l.vintage_year == y,
    }
}

fn filter_matches(f: &ListingFilter, l: &MarketListing) -> (b: bool)
    ensures
        b == filter_pred(*f)(*l),
{
    match f {
        ListingFilter::Live(now) => (l.status == ListingStatus::Active || l.status == ListingStatus::PartiallyFilled)
            && *now <= l.expires_at,
        ListingFilter::Project(p) => l.project_id == *p,
        ListingFilter::Vintage(y) => l.vintage_year == *y,
    }
}

proof fn lemma_matching_len(s: MarketState, ids: Seq<String>, p: spec_fn(MarketListing) -> bool)
    ensures
        listings_matching(s, ids, p).len() <= ids.len(),
    decreases ids.len(),
{
    if ids.len() > 0 {
        lemma_matching_len(s, ids.drop_last(), p);
    }
}

/// Sweep of `ids` that drops expired listings: the listings left, the ids
/// kept (those whose listing is still stored and live), and how many
/// listings were removed.
pub open spec fn cleanup_scan(m: Map<Seq<char>, MarketListing>, ids: Seq<String>, now: u64)
    -> (Map<Seq<char>, MarketListing>, Seq<String>, nat)
    decreases ids.len(),
{
    if ids.len() == 0 {
        (m, Seq::empty(), 0)
    } else {
        let (m1, kept, c) = cleanup_scan(m, ids.drop_last(), now);
        let id = ids.last();
        if m1.dom().contains(id@) {
            if now > m1[id@].expires_at {
                (m1.remove(id@), kept, c + 1)
            } else {
                (m1, kept.push(id), c)
            }
        } else {
            (m1, kept, c)
        }
    }
}

impl CarbonMarketplaceContract {
    fn filter_listings(&self, f: &ListingFilter) -> (r: Vec<MarketListing>)
        requires
            self.wf(),
        ensures
            r@ == listings_matching(self@, self@.all_listings, filter_pred(*f)),
    {
        let mut out: Vec<MarketListing> = Vec::new();
        let mut i: usize = 0;
        let n = self.all_listings.len();
        while i < n
            invariant
                self.wf(),
                n == self@.all_listings.len(),
                i <= n,
                out@ == listings_matching(self@, self@.all_listings.take(i as int), filter_pred(*f)),
            decreases n - i,
        {
            match self.listings.get(&self.all_listings[i]) {
                Some(l) => {
                    if filter_matches(f, l) {
                        out.push(l.duplicate());
                    }
                },
                None => {},
            }
            proof {
                assert(self@.all_listings.take(i + 1).drop_last() =~= self@.all_listings.take(i as int));
            }
            i = i + 1;
        }
        proof {
            assert(self@.all_listings.take(n as int) =~= self@.all_listings);
        }
        out
    }

    /// Listings that can still be bought from at `now`, in listing order.
    pub fn get_active_listings(&self, now: u64) -> (r: Vec<MarketListing>)
        requires
            self.wf(),
        ensures
            r@ == listings_matching(self@, self@.all_listings, |l: MarketListing| listing_live(l, now)),
    {
        let f = ListingFilter::Live(now);
        let r = self.filter_listings(&f);
        proof {
            assert(filter_pred(f) =~= (|l: MarketListing| listing_live(l, now)));
        }
        r
    }

    /// All listings of a project, in listing order.
    pub fn get_listings_by_project(&self, project_id: String) -> (r: Vec<MarketListing>)
        requires
            self.wf(),
        ensures
            r@ == listings_matching(self@, self@.all_listings, |l: MarketListing| l.project_id@ == project_id@),
    {
        let ghost p = project_id;
        let f = ListingFilter::Project(project_id);
        let r = self.filter_listings(&f);
        proof {
            assert(filter_pred(f) =~= (|l: MarketListing| l.project_id@ == p@));
        }
        r
    }

    /// All listings of a vintage, in listing order.
    pub fn get_listings_by_vintage(&self, vintage_year: u32) -> (r: Vec<MarketListing>)
        requires
            self.wf(),
        ensures
            r@ == listings_matching(self@, self@.all_listings, |l: MarketListing| l.vintage_year == vintage_year),
    {
        let f = ListingFilter::Vintage(vintage_year);
        let r = self.filter_listings(&f);
        proof {
            assert(filter_pred(f) =~= (|l: MarketListing| l.vintage_year == vintage_year));
        }
        r
    }

    fn page_from(matching: Vec<MarketListing>, offset: u32, limit: u32) -> (r: ListingsPage)
        requires
            matching@.len() <= u32::MAX,
        ensures
            r@ == (ListingsPageView { items: page_of(matching@, offset, limit), total: matching@.len() as u32, offset }),
    {
        let total = matching.len();
        let mut items: Vec<MarketListing> = Vec::new();
        if (offset as usize) < total {
            let end: usize = if total - (offset as usize) > limit as usize { offset as usize + limit as usize } else { total };
            let mut i: usize = offset as usize;
            while i < end
                invariant
                    offset <= i <= end <= total,
                    total == matching@.len(),
                    end == (if offset + limit < total { offset + limit } else { total as int }),
                    items@ == matching@.subrange(offset as int, i as int),
                decreases end - i,
            {
                items.push(matching[i].duplicate());
                i = i + 1;
                proof {
                    assert(items@ =~= matching@.subrange(offset as int, i as int));
                }
            }
        } else {
            proof {
                assert(items@ =~= Seq::<MarketListing>::empty());
            }
        }
        ListingsPage { items, total: total as u32, offset }
    }

    /// Live listings at `now`, `limit` (at most 50) from position `offset`,
    /// with the number of live listings in all.
    pub fn get_listings_page(&self, offset: u32, limit: u32, now: u64) -> (r: Result<ListingsPage, CarbonError>)
        requires
            self.wf(),
        ensures
            limit > MAX_PAGE_SIZE ==> r == Err::<ListingsPage, CarbonError>(CarbonError::PageSizeTooLarge),
            limit <= MAX_PAGE_SIZE ==> r is Ok && {
                let m = listings_matching(self@, self@.all_listings, |l: MarketListing| listing_live(l, now));
                r->Ok_0@ == (ListingsPageView { items: page_of(m, offset, limit), total: m.len() as u32, offset })
            },
    {
        if limit > MAX_PAGE_SIZE {
            return Err(CarbonError::PageSizeTooLarge);
        }
        let matching = self.get_active_listings(now);
        proof {
            lemma_matching_len(self@, self@.all_listings, |l: MarketListing| listing_live(l, now));
        }
        Ok(Self::page_from(matching, offset, limit))
    }

    /// Listings of one vintage, `limit` (at most 50) from position `offset`,
    /// with the number of such listings in all.
    pub fn get_listings_by_vintage_page(&self, vintage_year: u32, offset: u32, limit: u32)
        -> (r: Result<ListingsPage, CarbonError>)
        requires
            self.wf(),
        ensures
            limit > MAX_PAGE_SIZE ==> r == Err::<ListingsPage, CarbonError>(CarbonError::PageSizeTooLarge),
            limit <= MAX_PAGE_SIZE ==> r is Ok && {
                let m = listings_matching(self@, self@.all_listings, |l: MarketListing| l.vintage_year == vintage_year);
                r->Ok_0@ == (ListingsPageView { items: page_of(m, offset, limit), total: m.len() as u32, offset })
            },
    {
        if limit > MAX_PAGE_SIZE {
            return Err(CarbonError::PageSizeTooLarge);
        }
        let matching = self.get_listings_by_vintage(vintage_year);
        proof {
            lemma_matching_len(self@, self@.all_listings, |l: MarketListing| l.vintage_year == vintage_year);
        }
        Ok(Self::page_from(matching, offset, limit))
    }

    /// The fee record filed under `fee_id`, if any.
    pub fn get_fee_record(&self, fee_id: &String) -> (r: Option<FeeRecord>)
        requires
            self.wf(),
        ensures
            match r {
                Some(rec) => self@.fee_records.dom().contains(fee_id@) && rec@ == self@.fee_records[fee_id@],
                None => !self@.fee_records.dom().contains(fee_id@),
            },
    {
        match self.fee_records.get(fee_id) {
            Some(rec) => Some(rec.duplicate()),
            None => None,
        }
    }

    /// The ids of all fee records in the order they were filed (append-only).
    pub fn get_fee_ledger(&self) -> (r: Vec<String>)
        ensures
            r@.map_values(|id: String| id@) == self@.fee_ledger,
    {
        let r = crate::common::copy_texts(&self.fee_ledger);
        proof {
            assert(r@.map_values(|id: String| id@) =~= self@.fee_ledger);
        }
        r
    }

    /// The fee records named by the ledger, in ledger order.
    pub fn get_fee_history(&self) -> (r: Vec<FeeRecord>)
        requires
            self.wf(),
        ensures
            r@.map_values(|rec: FeeRecord| rec@) == records_listed(self@, self@.fee_ledger),
    {
        let mut out: Vec<FeeRecord> = Vec::new();
        let mut i: usize = 0;
        let n = self.fee_ledger.len();
        while i < n
            invariant
                self.wf(),
                n == self@.fee_ledger.len(),
                i <= n,
                out@.map_values(|rec: FeeRecord| rec@) == records_listed(self@, self@.fee_ledger.take(i as int)),
            decreases n - i,
        {
            let ghost before = out@;
            match self.fee_records.get(&self.fee_ledger[i]) {
                Some(rec) => out.push(rec.duplicate()),
                None => {},
            }
            proof {
                assert(self@.fee_ledger.take(i + 1).drop_last() =~= self@.fee_ledger.take(i as int));
                assert(self@.fee_ledger.take(i + 1).last() == self.fee_ledger@[i as int]@);
                assert(out@.map_values(|rec: FeeRecord| rec@) =~= records_listed(self@, self@.fee_ledger.take(i + 1)));
            }
            i = i + 1;
        }
        proof {
            assert(self@.fee_ledger.take(n as int) =~= self@.fee_ledger);
        }
        out
    }

    // ── Clean-up ─────────────────────────────────────────────────────────────

    /// The state after `cleanup_expired_listings`, with the number removed.
    pub open spec fn cleanup_result(s: MarketState, admin: Address, now: u64) -> Result<(MarketState, u32), CarbonError> {
        match admin_gate(s, admin, now) {
            Some(e) => Err(e),
            None => {
                let s1 = clear_expired_pause(s, now);
                let (m, kept, c) = cleanup_scan(s1.listings, s.all_listings, now);
                Ok((MarketState {
                    listings: m,
                    all_listings: if c > 0 { kept } else { s.all_listings },
                    ..s1
                }, c as u32))
            },
        }
    }

    /// Admin: delete listings that have expired at `now` and drop them from
    /// the index, returning how many were deleted.
    pub fn cleanup_expired_listings(&mut self, admin: &Address, now: u64) -> (r: Result<u32, CarbonError>)
        requires
            old(self).wf(),
        ensures
            final(self).wf(),
            match r {
                Ok(c) => Self::cleanup_result(old(self)@, *admin, now) == Ok::<(MarketState, u32), CarbonError>((final(self)@, c)),
                Err(e) => Self::cleanup_result(old(self)@, *admin, now) == Err::<(MarketState, u32), CarbonError>(e)
                    && final(self)@ == old(self)@,
            },
    {
        self.require_admin(admin)?;
        self.require_not_paused(now)?;
        let ghost s1 = self@;
        let n = self.all_listings.len();
        let mut kept: Vec<String> = Vec::new();
        let mut removed: u32 = 0;
        let mut i: usize = 0;
        while i < n
            invariant
                self.wf(),
                n == s1.all_listings.len(),
                n <= u32::MAX,
                i <= n,
                removed <= i,
                kept@.len() <= i,
                self@ == (MarketState { listings: self@.listings, ..s1 }),
                (self@.listings, kept@, removed as nat) == cleanup_scan(s1.listings, s1.all_listings.take(i as int), now),
            decreases n - i,
        {
            let id = self.all_listings[i].clone();
            proof {
                assert(s1.all_listings.take(i + 1).drop_last() =~= s1.all_listings.take(i as int));
                assert(s1.all_listings.take(i + 1).last() == id);
            }
            match self.listings.get(&id) {
                Some(l) => {
                    if now > l.expires_at {
                        let _ = self.listings.remove(&id);
                        removed = removed + 1;
                    } else {
                        kept.push(id);
                    }
                },
                None => {},
            }
            i = i + 1;
        }
        proof {
            assert(s1.all_listings.take(n as int) =~= s1.all_listings);
        }
        if removed > 0 {
            self.all_listings = kept;
        }
        Ok(removed)
    }
}
} // verus!
