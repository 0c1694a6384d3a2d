//! Properties that every operation of the marketplace keeps.
//!
//! `market_step` names the state transition of each operation.  Over it the
//! lemmas state that stored listings stay consistent, that a listing's
//! available amount only shrinks (unless it is listed afresh under the same
//! id), that fees are neither lost nor created between the accumulator and
//! the swept total, that the fee ledger only grows under distinct ids, that a
//! fee record once filed never changes so the fee history keeps every fee in
//! order, that a bulk purchase covers one vintage, and that the protocol fee
//! never exceeds a tenth of the price.

use vstd::prelude::*;
use crate::common::Address;
use crate::marketplace::{
    accrue, bulk_fee_record, bulk_fees, bulk_item_error, bulk_records, fee_id, is_paused, lemma_fee_id_injective,
    records_listed, FeeRecordView, ReceiptView, Settlement, bulk_line_overflows, bulk_total, bulk_listings, cleanup_scan, fee_denom, fee_numerator, fee_on, fee_rate_ok,
    listing_ok, total_cost_of, after_sale, CarbonError, CarbonMarketplaceContract, ListingStatus, MarketListing,
    MarketState,
};

verus! {

/// One call of a state-changing entry point of the marketplace.
pub enum MarketOp {
    Initialize { admin: Address, usdc_token: Address, credit_contract: Address, treasury: Address },
    Upgrade { admin: Address, wasm_hash: [u8; 32] },
    SetFeeRate { admin: Address, numerator: i128, denom: i128 },
    UpdateTreasury { admin: Address, new_treasury: Address },
    SuspendProject { admin: Address, project_id: String },
    SetOracle { admin: Address, oracle: Address },
    SetFreshnessWindow { admin: Address, seconds: u64 },
    List {
        seller: Address,
        listing_id: String,
        batch_id: String,
        project_id: String,
        amount: i128,
        price_per_credit: i128,
        vintage_year: u32,
        methodology: String,
        country: String,
    },
    Delist { seller: Address, listing_id: String },
    Pause { admin: Address, until: u64 },
    Unpause { admin: Address },
    SetVintageBounds { admin: Address, min_year: u32, max_year: u32 },
    Purchase { buyer: Address, listing_id: String, amount: i128, price_current: bool },
    BulkPurchase { buyer: Address, listing_ids: Seq<String>, amounts: Seq<i128>, price_current: Seq<bool> },
    SetSweepThreshold { admin: Address, threshold: i128 },
    SweepFees,
    Cleanup { admin: Address },
}

/// The state an operation leaves behind at ledger time `now`, or its error.
pub open spec fn market_step(s: MarketState, op: MarketOp, now: u64) -> Result<MarketState, CarbonError> {
    match op {
        MarketOp::Initialize { admin, usdc_token, credit_contract, treasury } =>
            CarbonMarketplaceContract::initialize_result(s, admin, usdc_token, credit_contract, treasury),
        MarketOp::Upgrade { admin, wasm_hash } => CarbonMarketplaceContract::upgrade_result(s, admin, wasm_hash, now),
        MarketOp::SetFeeRate { admin, numerator, denom } =>
            CarbonMarketplaceContract::set_fee_rate_result(s, admin, numerator, denom, now),
        MarketOp::UpdateTreasury { admin, new_treasury } =>
            CarbonMarketplaceContract::update_treasury_result(s, admin, new_treasury, now),
        MarketOp::SuspendProject { admin, project_id } =>
            CarbonMarketplaceContract::suspend_result(s, admin, project_id, now),
        MarketOp::SetOracle { admin, oracle } => CarbonMarketplaceContract::set_oracle_result(s, admin, oracle),
        MarketOp::SetFreshnessWindow { admin, seconds } =>
            CarbonMarketplaceContract::set_freshness_result(s, admin, seconds),
        MarketOp::List {
            seller,
            listing_id,
            batch_id,
            project_id,
            amount,
            price_per_credit,
            vintage_year,
            methodology,
            country,
        } => CarbonMarketplaceContract::list_result(
            s,
            seller,
            listing_id,
            batch_id,
            project_id,
            amount,
            price_per_credit,
            vintage_year,
            methodology,
            country,
            now,
        ),
        MarketOp::Delist { seller, listing_id } => CarbonMarketplaceContract::delist_result(s, seller, listing_id, now),
        MarketOp::Pause { admin, until } => CarbonMarketplaceContract::pause_result(s, admin, until, now),
        MarketOp::Unpause { admin } => CarbonMarketplaceContract::unpause_result(s, admin),
        MarketOp::SetVintageBounds { admin, min_year, max_year } =>
            CarbonMarketplaceContract::vintage_bounds_result(s, admin, min_year, max_year, now),
        MarketOp::Purchase { buyer, listing_id, amount, price_current } =>
            match CarbonMarketplaceContract::purchase_result(s, buyer, listing_id, amount, price_current, now) {
                Ok(p) => Ok(p.0),
                Err(e) => Err(e),
            },
        MarketOp::BulkPurchase { buyer, listing_ids, amounts, price_current } =>
            match CarbonMarketplaceContract::bulk_result(s, buyer, listing_ids, amounts, price_current, now) {
                Ok(p) => Ok(p.0),
                Err(e) => Err(e),
            },
        MarketOp::SetSweepThreshold { admin, threshold } =>
            CarbonMarketplaceContract::sweep_threshold_result(s, admin, threshold, now),
        MarketOp::SweepFees => match CarbonMarketplaceContract::sweep_result(s, now) {
            Ok(p) => Ok(p.0),
            Err(e) => Err(e),
        },
        MarketOp::Cleanup { admin } => match CarbonMarketplaceContract::cleanup_result(s, admin, now) {
            Ok(p) => Ok(p.0),
            Err(e) => Err(e),
        },
    }
}

/// Protocol fees an operation collects.
pub open spec fn step_fees(s: MarketState, op: MarketOp) -> int {
    match op {
        MarketOp::Purchase { listing_id, amount, .. } => fee_on(s, total_cost_of(s.listings[listing_id@], amount)),
        MarketOp::BulkPurchase { listing_ids, amounts, .. } => bulk_fees(s, listing_ids, amounts, listing_ids.len()),
        _ => 0,
    }
}

/// The fee books are consistent: the `i`-th id of the ledger is
/// `fee_id(i)` and names a record filed under it, and every record is named
/// by the ledger.
pub open spec fn fee_books_ok(s: MarketState) -> bool {
    &&& forall|i: int| 0 <= i < s.fee_ledger.len() ==> {
        &&& #[trigger] s.fee_ledger[i] == fee_id(i as nat)
        &&& s.fee_records.dom().contains(s.fee_ledger[i])
        &&& s.fee_records[s.fee_ledger[i]].fee_id == s.fee_ledger[i]
    }
    &&& forall|k: Seq<char>| #[trigger] s.fee_records.dom().contains(k)
        ==> exists|i: int| 0 <= i < s.fee_ledger.len() && #[trigger] s.fee_ledger[i] == k
}

/// Every stored listing is consistent, the fee rate in force is one that
/// governance may set, and the fee books are consistent.
pub open spec fn market_ok(s: MarketState) -> bool {
    &&& forall|k: Seq<char>| #[trigger] s.listings.dom().contains(k) ==> listing_ok(s.listings[k], k)
    &&& fee_rate_ok(fee_numerator(s), fee_denom(s))
    &&& fee_books_ok(s)
}

/// No record is filed under an id the ledger has not reached yet.
proof fn lemma_fee_id_fresh(s: MarketState, j: nat)
    requires
        fee_books_ok(s),
        j >= s.fee_ledger.len(),
    ensures
        !s.fee_records.dom().contains(fee_id(j)),
{
    if s.fee_records.dom().contains(fee_id(j)) {
        let i = choose|i: int| 0 <= i < s.fee_ledger.len() && #[trigger] s.fee_ledger[i] == fee_id(j);
        assert(s.fee_ledger[i] == fee_id(i as nat));
        lemma_fee_id_injective(i as nat, j);
    }
}

/// The records after the first `m` items of a bulk purchase: the earlier
/// records unchanged, and item `i`'s record under the `i`-th new id.
proof fn lemma_bulk_records(s: MarketState, buyer: Address, ids: Seq<String>, amounts: Seq<i128>, now: u64, m: nat)
    requires
        fee_books_ok(s),
    ensures
        forall|k: Seq<char>| #[trigger] bulk_records(s.fee_records, s, buyer, ids, amounts, now, m).dom().contains(k)
            <==> (s.fee_records.dom().contains(k)
            || exists|i: int| 0 <= i < m && k == #[trigger] fee_id((s.fee_ledger.len() + i) as nat)),
        forall|k: Seq<char>| #[trigger] s.fee_records.dom().contains(k)
            ==> bulk_records(s.fee_records, s, buyer, ids, amounts, now, m)[k] == s.fee_records[k],
        forall|i: int| 0 <= i < m ==> bulk_records(s.fee_records, s, buyer, ids, amounts, now, m)[
            #[trigger] fee_id((s.fee_ledger.len() + i) as nat)] == bulk_fee_record(s, buyer, ids, amounts, now, i),
    decreases m,
{
    if m > 0 {
        let m1 = (m - 1) as nat;
        lemma_bulk_records(s, buyer, ids, amounts, now, m1);
        let len = s.fee_ledger.len();
        let new_id = fee_id((len + m1) as nat);
        lemma_fee_id_fresh(s, (len + m1) as nat);
        let r1 = bulk_records(s.fee_records, s, buyer, ids, amounts, now, m1);
        let r = bulk_records(s.fee_records, s, buyer, ids, amounts, now, m);
        assert(r == r1.insert(new_id, bulk_fee_record(s, buyer, ids, amounts, now, m1 as int)));
        assert forall|i: int| 0 <= i < m1 implies #[trigger] fee_id((len + i) as nat) != new_id by {
            if fee_id((len + i) as nat) == new_id {
                lemma_fee_id_injective((len + i) as nat, (len + m1) as nat);
            }
        }
        assert forall|k: Seq<char>| #[trigger] r.dom().contains(k) <==> (s.fee_records.dom().contains(k)
            || exists|i: int| 0 <= i < m && k == #[trigger] fee_id((len + i) as nat)) by {
            if k == new_id {
                assert(0 <= m1 < m && k == fee_id((len + m1) as nat));
            } else if exists|i: int| 0 <= i < m && k == #[trigger] fee_id((len + i) as nat) {
                let i = choose|i: int| 0 <= i < m && k == #[trigger] fee_id((len + i) as nat);
                assert(i != m1);
                assert(0 <= i < m1 && k == fee_id((len + i) as nat));
            }
        }
        assert forall|i: int| 0 <= i < m implies r[#[trigger] fee_id((len + i) as nat)]
            == bulk_fee_record(s, buyer, ids, amounts, now, i) by {
            if i < m1 {
                assert(fee_id((len + i) as nat) != new_id);
            }
        }
    }
}

/// The fee books after one more record is filed under the next id.
proof fn lemma_books_push(s: MarketState, t: MarketState, rec: FeeRecordView)
    requires
        fee_books_ok(s),
        rec.fee_id == fee_id(s.fee_ledger.len()),
        t.fee_ledger == s.fee_ledger.push(fee_id(s.fee_ledger.len())),
        t.fee_records == s.fee_records.insert(fee_id(s.fee_ledger.len()), rec),
    ensures
        fee_books_ok(t),
{
    let len = s.fee_ledger.len();
    lemma_fee_id_fresh(s, len);
    assert forall|i: int| 0 <= i < t.fee_ledger.len() implies {
        &&& #[trigger] t.fee_ledger[i] == fee_id(i as nat)
        &&& t.fee_records.dom().contains(t.fee_ledger[i])
        &&& t.fee_records[t.fee_ledger[i]].fee_id == t.fee_ledger[i]
    } by {
        if i < len {
            assert(t.fee_ledger[i] == s.fee_ledger[i]);
            assert(s.fee_ledger[i] != fee_id(len));
        }
    }
    assert forall|k: Seq<char>| #[trigger] t.fee_records.dom().contains(k)
        implies exists|i: int| 0 <= i < t.fee_ledger.len() && #[trigger] t.fee_ledger[i] == k by {
        if k == fee_id(len) {
            assert(t.fee_ledger[len as int] == k);
        } else {
            let i = choose|i: int| 0 <= i < s.fee_ledger.len() && #[trigger] s.fee_ledger[i] == k;
            assert(t.fee_ledger[i] == k);
        }
    }
}

/// Fee books left as they were stay consistent.
proof fn lemma_books_same(s: MarketState, t: MarketState)
    requires
        fee_books_ok(s),
        t.fee_ledger == s.fee_ledger,
        t.fee_records == s.fee_records,
    ensures
        fee_books_ok(t),
{
}

/// The fee books after a bulk purchase of `n` items.
proof fn lemma_books_bulk(s: MarketState, t: MarketState, buyer: Address, ids: Seq<String>, amounts: Seq<i128>,
    now: u64, n: nat)
    requires
        fee_books_ok(s),
        t.fee_ledger == s.fee_ledger + Seq::new(n, |i: int| fee_id((s.fee_ledger.len() + i) as nat)),
        t.fee_records == bulk_records(s.fee_records, s, buyer, ids, amounts, now, n),
    ensures
        fee_books_ok(t),
{
    let len = s.fee_ledger.len();
    lemma_bulk_records(s, buyer, ids, amounts, now, n);
    assert forall|i: int| 0 <= i < t.fee_ledger.len() implies {
        &&& #[trigger] t.fee_ledger[i] == fee_id(i as nat)
        &&& t.fee_records.dom().contains(t.fee_ledger[i])
        &&& t.fee_records[t.fee_ledger[i]].fee_id == t.fee_ledger[i]
    } by {
        if i < len {
            assert(t.fee_ledger[i] == s.fee_ledger[i]);
            assert(s.fee_ledger[i] == fee_id(i as nat));
            assert(s.fee_records.dom().contains(s.fee_ledger[i]));
        } else {
            let j = i - len;
            assert(t.fee_ledger[i] == fee_id((len + j) as nat));
            assert(0 <= j < n && t.fee_ledger[i] == fee_id((len + j) as nat));
        }
    }
    assert forall|k: Seq<char>| #[trigger] t.fee_records.dom().contains(k)
        implies exists|i: int| 0 <= i < t.fee_ledger.len() && #[trigger] t.fee_ledger[i] == k by {
        if s.fee_records.dom().contains(k) {
            let i = choose|i: int| 0 <= i < s.fee_ledger.len() && #[trigger] s.fee_ledger[i] == k;
            assert(t.fee_ledger[i] == k);
        } else {
            let j = choose|j: int| 0 <= j < n && k == #[trigger] fee_id((len + j) as nat);
            assert(t.fee_ledger[len + j] == k);
        }
    }
}

/// The listings after a bulk purchase are consistent.
proof fn lemma_bulk_listings_ok(s: MarketState, ids: Seq<String>, amounts: Seq<i128>, pc: Seq<bool>, now: u64, n: nat)
    requires
        market_ok(s),
        n <= ids.len(),
        forall|j: int| 0 <= j < n ==> #[trigger] bulk_item_error(s, ids, amounts, pc, now, j) is None,
    ensures
        forall|k: Seq<char>| #[trigger] bulk_listings(s.listings, s, ids, amounts, n).dom().contains(k)
            ==> listing_ok(bulk_listings(s.listings, s, ids, amounts, n)[k], k),
        forall|k: Seq<char>| #[trigger] bulk_listings(s.listings, s, ids, amounts, n).dom().contains(k)
            ==> s.listings.dom().contains(k)
            && bulk_listings(s.listings, s, ids, amounts, n)[k].amount_available <= s.listings[k].amount_available,
    decreases n,
{
    if n > 0 {
        lemma_bulk_listings_ok(s, ids, amounts, pc, now, (n - 1) as nat);
        assert(bulk_item_error(s, ids, amounts, pc, now, n - 1) is None);
        assert(listing_ok(s.listings[ids[n - 1]@], ids[n - 1]@));
    }
}

/// Clean-up only removes listings.
proof fn lemma_cleanup_scan(m: Map<Seq<char>, MarketListing>, ids: Seq<String>, now: u64)
    ensures
        forall|k: Seq<char>| #[trigger] cleanup_scan(m, ids, now).0.dom().contains(k)
            ==> m.dom().contains(k) && cleanup_scan(m, ids, now).0[k] == m[k],
    decreases ids.len(),
{
    if ids.len() > 0 {
        lemma_cleanup_scan(m, ids.drop_last(), now);
        let r = cleanup_scan(m, ids.drop_last(), now);
        assert forall|k: Seq<char>| #[trigger] cleanup_scan(m, ids, now).0.dom().contains(k)
            implies m.dom().contains(k) && cleanup_scan(m, ids, now).0[k] == m[k] by {
            assert(r.0.dom().contains(k));
        }
    }
}

/// A marketplace with no listings and no fee configuration is consistent.
pub proof fn lemma_empty_market_ok(s: MarketState)
    requires
        s.listings == Map::<Seq<char>, MarketListing>::empty(),
        s.fee_config is None,
        s.fee_ledger == Seq::<Seq<char>>::empty(),
        s.fee_records == Map::<Seq<char>, FeeRecordView>::empty(),
    ensures
        market_ok(s),
{
}

/// Every operation keeps the marketplace consistent: listings keep a
/// positive price, a non-negative amount and a status that matches it, the
/// fee rate stays within 10%, and each fee is filed once under its own id.
pub proof fn lemma_step_keeps_market_ok(s: MarketState, op: MarketOp, now: u64)
    requires
        market_ok(s),
        market_step(s, op, now) is Ok,
    ensures
        market_ok(market_step(s, op, now)->Ok_0),
{
    let s2 = market_step(s, op, now)->Ok_0;
    match op {
        MarketOp::BulkPurchase { .. } => {
            lemma_bulk_step_ok(s, op, now);
        },
        MarketOp::Purchase { buyer, listing_id, amount, .. } => {
            assert(listing_ok(s.listings[listing_id@], listing_id@));
            lemma_books_push(s, s2, CarbonMarketplaceContract::purchase_fee_record(s, buyer, listing_id, amount, now));
        },
        MarketOp::Cleanup { .. } => {
            let s1 = if s.paused && s.pause_until <= now { MarketState { paused: false, pause_until: 0, ..s } } else { s };
            lemma_cleanup_scan(s1.listings, s.all_listings, now);
            lemma_books_same(s, s2);
        },
        MarketOp::Delist { listing_id, .. } => {
            assert(listing_ok(s.listings[listing_id@], listing_id@));
            lemma_books_same(s, s2);
        },
        _ => {
            lemma_books_same(s, s2);
        },
    }
}

/// A bulk-purchase step keeps the marketplace consistent.
proof fn lemma_bulk_step_ok(s: MarketState, op: MarketOp, now: u64)
    requires
        op is BulkPurchase,
        market_ok(s),
        market_step(s, op, now) is Ok,
    ensures
        market_ok(market_step(s, op, now)->Ok_0),
{
    match op {
        MarketOp::BulkPurchase { buyer, listing_ids, amounts, price_current } => {
            lemma_bulk_keeps_market_ok(s, buyer, listing_ids, amounts, price_current, now);
        },
        _ => {},
    }
}

/// A bulk purchase keeps the marketplace consistent.
proof fn lemma_bulk_keeps_market_ok(s: MarketState, buyer: Address, ids: Seq<String>, amounts: Seq<i128>,
    pc: Seq<bool>, now: u64)
    requires
        market_ok(s),
        CarbonMarketplaceContract::bulk_result(s, buyer, ids, amounts, pc, now) is Ok,
    ensures
        market_ok(CarbonMarketplaceContract::bulk_result(s, buyer, ids, amounts, pc, now)->Ok_0.0),
{
    let s2 = CarbonMarketplaceContract::bulk_result(s, buyer, ids, amounts, pc, now)->Ok_0.0;
    lemma_bulk_first_none(s, ids, amounts, pc, now, 0);
    lemma_bulk_listings_ok(s, ids, amounts, pc, now, ids.len());
    assert(s2.fee_ledger =~= s.fee_ledger + Seq::new(ids.len(), |i: int| fee_id((s.fee_ledger.len() + i) as nat)));
    lemma_books_bulk(s, s2, buyer, ids, amounts, now, ids.len());
}

proof fn lemma_bulk_first_none(s: MarketState, ids: Seq<String>, amounts: Seq<i128>, pc: Seq<bool>, now: u64, i: nat)
    requires
        i <= ids.len(),
        crate::marketplace::bulk_first_error(s, ids, amounts, pc, now, i) is None,
    ensures
        forall|j: int| i <= j < ids.len() ==> #[trigger] bulk_item_error(s, ids, amounts, pc, now, j) is None,
    decreases ids.len() - i,
{
    if i < ids.len() {
        lemma_bulk_first_none(s, ids, amounts, pc, now, i + 1);
    }
}

/// Fees are neither lost nor created: the accumulator plus the swept total
/// grows by exactly the fees an operation collects.
pub proof fn lemma_step_conserves_fees(s: MarketState, op: MarketOp, now: u64)
    requires
        market_step(s, op, now) is Ok,
    ensures
        market_step(s, op, now)->Ok_0.fee_accumulator + market_step(s, op, now)->Ok_0.total_fees_swept
            == s.fee_accumulator + s.total_fees_swept + step_fees(s, op),
{
}

/// The fee ledger only grows: what was filed stays filed, in order.
pub proof fn lemma_step_extends_fee_ledger(s: MarketState, op: MarketOp, now: u64)
    requires
        market_step(s, op, now) is Ok,
    ensures
        s.fee_ledger.len() <= market_step(s, op, now)->Ok_0.fee_ledger.len(),
        market_step(s, op, now)->Ok_0.fee_ledger.subrange(0, s.fee_ledger.len() as int) == s.fee_ledger,
{
    let s2 = market_step(s, op, now)->Ok_0;
    assert(s2.fee_ledger.subrange(0, s.fee_ledger.len() as int) =~= s.fee_ledger);
}

/// A listing's available amount never grows, and a sold or withdrawn
/// listing never comes back to sale, except when a listing is created
/// afresh under the same id or clean-up deletes it.
pub proof fn lemma_step_never_restocks(s: MarketState, op: MarketOp, now: u64, k: Seq<char>)
    requires
        market_ok(s),
        market_step(s, op, now) is Ok,
        s.listings.dom().contains(k),
        market_step(s, op, now)->Ok_0.listings.dom().contains(k),
        !(op matches MarketOp::List { listing_id, .. } && listing_id@ == k),
    ensures
        market_step(s, op, now)->Ok_0.listings[k].amount_available <= s.listings[k].amount_available,
        s.listings[k].status == ListingStatus::Sold || s.listings[k].status == ListingStatus::Delisted
            ==> market_step(s, op, now)->Ok_0.listings[k].status == ListingStatus::Sold
            || market_step(s, op, now)->Ok_0.listings[k].status == ListingStatus::Delisted,
{
    match op {
        MarketOp::BulkPurchase { listing_ids, amounts, price_current, .. } => {
            lemma_bulk_first_none(s, listing_ids, amounts, price_current, now, 0);
            lemma_bulk_listings_ok(s, listing_ids, amounts, price_current, now, listing_ids.len());
            if s.listings[k].status == ListingStatus::Sold || s.listings[k].status == ListingStatus::Delisted {
                lemma_bulk_keeps_closed(s, listing_ids, amounts, price_current, now, listing_ids.len(), k);
            }
        },
        MarketOp::Cleanup { .. } => {
            let s1 = if s.paused && s.pause_until <= now { MarketState { paused: false, pause_until: 0, ..s } } else { s };
            lemma_cleanup_scan(s1.listings, s.all_listings, now);
        },
        _ => {},
    }
}

proof fn lemma_bulk_keeps_closed(s: MarketState, ids: Seq<String>, amounts: Seq<i128>, pc: Seq<bool>, now: u64, n: nat,
    k: Seq<char>)
    requires
        n <= ids.len(),
        forall|j: int| 0 <= j < n ==> #[trigger] bulk_item_error(s, ids, amounts, pc, now, j) is None,
        s.listings.dom().contains(k),
        s.listings[k].status == ListingStatus::Sold || s.listings[k].status == ListingStatus::Delisted,
    ensures
        bulk_listings(s.listings, s, ids, amounts, n)[k] == s.listings[k],
    decreases n,
{
    if n > 0 {
        lemma_bulk_keeps_closed(s, ids, amounts, pc, now, (n - 1) as nat, k);
        assert(bulk_item_error(s, ids, amounts, pc, now, n - 1) is None);
    }
}

/// The protocol fee on a non-negative total at a rate governance may set is
/// at most a tenth of the total, and the seller keeps the rest.
pub proof fn lemma_fee_at_most_tenth(s: MarketState, total: int)
    requires
        fee_rate_ok(fee_numerator(s), fee_denom(s)),
        total >= 0,
    ensures
        0 <= fee_on(s, total),
        10 * fee_on(s, total) <= total,
{
    let num = fee_numerator(s) as int;
    let den = fee_denom(s) as int;
    assert(0 <= total * num) by (nonlinear_arith)
        requires total >= 0, num >= 0;
    assert(10 * num <= den) by (nonlinear_arith)
        requires 0 <= num <= den / 10, den > 0;
    assert(10 * (total * num) <= total * den) by (nonlinear_arith)
        requires 10 * num <= den, total >= 0;
    assert(10 * ((total * num) / den) <= total) by (nonlinear_arith)
        requires 10 * (total * num) <= total * den, den > 0, total * num >= 0;
    assert((total * num) / den >= 0) by (nonlinear_arith)
        requires total * num >= 0, den > 0;
}

/// While the marketplace is paused, no credits are listed or bought.
pub proof fn lemma_pause_stops_trading(s: MarketState, op: MarketOp, now: u64)
    requires
        is_paused(s, now),
        op is List || op is Purchase || op is BulkPurchase,
    ensures
        market_step(s, op, now) is Err,
{
}

/// The fee records an operation files, in filing order.
pub open spec fn new_fee_records(s: MarketState, op: MarketOp, now: u64) -> Seq<FeeRecordView> {
    match op {
        MarketOp::Purchase { buyer, listing_id, amount, .. } =>
            seq![CarbonMarketplaceContract::purchase_fee_record(s, buyer, listing_id, amount, now)],
        MarketOp::BulkPurchase { buyer, listing_ids, amounts, .. } =>
            Seq::new(listing_ids.len(), |i: int| bulk_fee_record(s, buyer, listing_ids, amounts, now, i)),
        _ => Seq::empty(),
    }
}

/// The ids in the fee ledger are pairwise distinct.
pub proof fn lemma_fee_ids_distinct(s: MarketState)
    requires
        fee_books_ok(s),
    ensures
        forall|i: int, j: int| 0 <= i < s.fee_ledger.len() && 0 <= j < s.fee_ledger.len() && i != j
            ==> #[trigger] s.fee_ledger[i] != #[trigger] s.fee_ledger[j],
{
    assert forall|i: int, j: int| 0 <= i < s.fee_ledger.len() && 0 <= j < s.fee_ledger.len() && i != j
        implies #[trigger] s.fee_ledger[i] != #[trigger] s.fee_ledger[j] by {
        if s.fee_ledger[i] == s.fee_ledger[j] {
            lemma_fee_id_injective(i as nat, j as nat);
        }
    }
}

/// A fee record, once filed, is never changed or removed.
pub proof fn lemma_step_keeps_fee_records(s: MarketState, op: MarketOp, now: u64, k: Seq<char>)
    requires
        market_ok(s),
        market_step(s, op, now) is Ok,
        s.fee_records.dom().contains(k),
    ensures
        market_step(s, op, now)->Ok_0.fee_records.dom().contains(k),
        market_step(s, op, now)->Ok_0.fee_records[k] == s.fee_records[k],
{
    match op {
        MarketOp::Purchase { .. } => {
            lemma_fee_id_fresh(s, s.fee_ledger.len());
        },
        MarketOp::BulkPurchase { buyer, listing_ids, amounts, .. } => {
            lemma_bulk_records(s, buyer, listing_ids, amounts, now, listing_ids.len());
        },
        _ => {},
    }
}

/// The records named by `ids` read the same in two states that agree on
/// them, one for each id.
proof fn lemma_records_listed_same(s: MarketState, t: MarketState, ids: Seq<Seq<char>>)
    requires
        forall|i: int| 0 <= i < ids.len() ==> s.fee_records.dom().contains(#[trigger] ids[i])
            && t.fee_records.dom().contains(ids[i]) && t.fee_records[ids[i]] == s.fee_records[ids[i]],
    ensures
        records_listed(t, ids) == records_listed(s, ids),
        records_listed(s, ids).len() == ids.len(),
    decreases ids.len(),
{
    if ids.len() > 0 {
        lemma_records_listed_same(s, t, ids.drop_last());
        assert(ids.last() == ids[ids.len() - 1]);
    }
}

/// Listing further ids, each with a record, appends their records in order.
proof fn lemma_records_listed_append(t: MarketState, ids: Seq<Seq<char>>, extra: Seq<Seq<char>>)
    requires
        forall|i: int| 0 <= i < extra.len() ==> t.fee_records.dom().contains(#[trigger] extra[i]),
    ensures
        records_listed(t, ids + extra)
            == records_listed(t, ids) + Seq::new(extra.len(), |i: int| t.fee_records[extra[i]]),
    decreases extra.len(),
{
    if extra.len() == 0 {
        assert(ids + extra =~= ids);
        assert(records_listed(t, ids) + Seq::new(0, |i: int| t.fee_records[extra[i]]) =~= records_listed(t, ids));
    } else {
        let e1 = extra.drop_last();
        lemma_records_listed_append(t, ids, e1);
        assert((ids + extra).drop_last() =~= ids + e1);
        assert((ids + extra).last() == extra[extra.len() - 1]);
        assert(records_listed(t, ids) + Seq::new(extra.len(), |i: int| t.fee_records[extra[i]])
            =~= (records_listed(t, ids) + Seq::new(e1.len(), |i: int| t.fee_records[e1[i]])).push(
            t.fee_records[extra[extra.len() - 1]]));
    }
}

/// The fee history holds one record for each id of the ledger.
pub proof fn lemma_fee_history_complete(s: MarketState)
    requires
        fee_books_ok(s),
    ensures
        records_listed(s, s.fee_ledger).len() == s.fee_ledger.len(),
        forall|i: int| 0 <= i < s.fee_ledger.len() ==> #[trigger] records_listed(s, s.fee_ledger)[i]
            == s.fee_records[fee_id(i as nat)],
{
    let e = Seq::<Seq<char>>::empty();
    assert forall|i: int| 0 <= i < s.fee_ledger.len() implies s.fee_records.dom().contains(#[trigger] s.fee_ledger[i]) by {
        assert(s.fee_ledger[i] == fee_id(i as nat));
    }
    lemma_records_listed_append(s, e, s.fee_ledger);
    assert(e + s.fee_ledger =~= s.fee_ledger);
    assert forall|i: int| 0 <= i < s.fee_ledger.len() implies #[trigger] records_listed(s, s.fee_ledger)[i]
        == s.fee_records[fee_id(i as nat)] by {
        assert(s.fee_ledger[i] == fee_id(i as nat));
    }
}

/// Every fee ever collected stays in the fee history, unchanged and in
/// order: an operation appends exactly the records it files.
pub proof fn lemma_step_appends_fee_history(s: MarketState, op: MarketOp, now: u64)
    requires
        market_ok(s),
        market_step(s, op, now) is Ok,
    ensures
        records_listed(market_step(s, op, now)->Ok_0, market_step(s, op, now)->Ok_0.fee_ledger)
            == records_listed(s, s.fee_ledger) + new_fee_records(s, op, now),
{
    let s2 = market_step(s, op, now)->Ok_0;
    let len = s.fee_ledger.len();
    assert forall|i: int| 0 <= i < len implies s.fee_records.dom().contains(#[trigger] s.fee_ledger[i]) by {
        assert(s.fee_ledger[i] == fee_id(i as nat));
    }
    assert forall|i: int| 0 <= i < len implies s2.fee_records.dom().contains(#[trigger] s.fee_ledger[i])
        && s2.fee_records[s.fee_ledger[i]] == s.fee_records[s.fee_ledger[i]] by {
        assert(s.fee_ledger[i] == fee_id(i as nat));
        lemma_step_keeps_fee_records(s, op, now, s.fee_ledger[i]);
    }
    lemma_records_listed_same(s, s2, s.fee_ledger);
    match op {
        MarketOp::Purchase { buyer, listing_id, amount, .. } => {
            let extra = seq![fee_id(len)];
            assert(s2.fee_ledger =~= s.fee_ledger + extra);
            lemma_records_listed_append(s2, s.fee_ledger, extra);
            assert(Seq::new(1, |i: int| s2.fee_records[extra[i]]) =~= new_fee_records(s, op, now));
        },
        MarketOp::BulkPurchase { buyer, listing_ids, amounts, .. } => {
            let n = listing_ids.len();
            let extra = Seq::new(n, |i: int| fee_id((len + i) as nat));
            assert(s2.fee_ledger =~= s.fee_ledger + extra);
            lemma_bulk_records(s, buyer, listing_ids, amounts, now, n);
            assert forall|i: int| 0 <= i < n implies s2.fee_records.dom().contains(#[trigger] extra[i]) by {
                assert(extra[i] == fee_id((len + i) as nat));
            }
            lemma_records_listed_append(s2, s.fee_ledger, extra);
            assert forall|i: int| 0 <= i < n implies s2.fee_records[#[trigger] extra[i]]
                == bulk_fee_record(s, buyer, listing_ids, amounts, now, i) by {
                assert(extra[i] == fee_id((len + i) as nat));
            }
            assert(Seq::new(n, |i: int| s2.fee_records[extra[i]]) =~= new_fee_records(s, op, now));
        },
        _ => {
            assert(s2.fee_ledger == s.fee_ledger);
            assert(records_listed(s, s.fee_ledger) + new_fee_records(s, op, now) =~= records_listed(s, s.fee_ledger));
        },
    }
}

/// A successful bulk purchase buys credits of a single vintage.
pub proof fn lemma_bulk_single_vintage(s: MarketState, buyer: Address, ids: Seq<String>, amounts: Seq<i128>,
    pc: Seq<bool>, now: u64)
    requires
        CarbonMarketplaceContract::bulk_result(s, buyer, ids, amounts, pc, now) is Ok,
    ensures
        forall|i: int| 0 <= i < ids.len() ==> #[trigger] s.listings[ids[i]@].vintage_year
            == s.listings[ids[0]@].vintage_year,
{
    lemma_bulk_first_none(s, ids, amounts, pc, now, 0);
    assert forall|i: int| 0 <= i < ids.len() implies #[trigger] s.listings[ids[i]@].vintage_year
        == s.listings[ids[0]@].vintage_year by {
        assert(bulk_item_error(s, ids, amounts, pc, now, i) is None);
    }
}

/// The state after the calls `ops` in order, each at its own ledger time;
/// a call that fails leaves the state as it was.
pub open spec fn market_run(s: MarketState, ops: Seq<(MarketOp, u64)>) -> MarketState
    decreases ops.len(),
{
    if ops.len() == 0 {
        s
    } else {
        let t = market_run(s, ops.drop_last());
        match market_step(t, ops.last().0, ops.last().1) {
            Ok(t2) => t2,
            Err(_) => t,
        }
    }
}

/// The fee records the calls `ops` file, in filing order.
pub open spec fn run_fee_records(s: MarketState, ops: Seq<(MarketOp, u64)>) -> Seq<FeeRecordView>
    decreases ops.len(),
{
    if ops.len() == 0 {
        Seq::empty()
    } else {
        let t = market_run(s, ops.drop_last());
        let prev = run_fee_records(s, ops.drop_last());
        if market_step(t, ops.last().0, ops.last().1) is Ok {
            prev + new_fee_records(t, ops.last().0, ops.last().1)
        } else {
            prev
        }
    }
}

/// Over any run of calls, the fee history keeps every fee ever collected,
/// unchanged and in the order collected, one per ledger id, and the ids stay
/// distinct.  From a marketplace with no fees yet, the history is exactly
/// the records the run filed.
pub proof fn lemma_run_fee_history(s: MarketState, ops: Seq<(MarketOp, u64)>)
    requires
        market_ok(s),
    ensures
        market_ok(market_run(s, ops)),
        records_listed(market_run(s, ops), market_run(s, ops).fee_ledger)
            == records_listed(s, s.fee_ledger) + run_fee_records(s, ops),
        market_run(s, ops).fee_ledger.len() == s.fee_ledger.len() + run_fee_records(s, ops).len(),
        forall|i: int, j: int| 0 <= i < market_run(s, ops).fee_ledger.len() && 0 <= j < market_run(s, ops).fee_ledger.len()
            && i != j ==> #[trigger] market_run(s, ops).fee_ledger[i] != #[trigger] market_run(s, ops).fee_ledger[j],
    decreases ops.len(),
{
    lemma_fee_history_complete(s);
    if ops.len() > 0 {
        let prefix = ops.drop_last();
        lemma_run_fee_history(s, prefix);
        let t = market_run(s, prefix);
        let (op, now) = ops.last();
        if market_step(t, op, now) is Ok {
            let t2 = market_step(t, op, now)->Ok_0;
            lemma_step_keeps_market_ok(t, op, now);
            lemma_step_appends_fee_history(t, op, now);
            lemma_fee_history_complete(t);
            lemma_fee_history_complete(t2);
            assert(records_listed(s, s.fee_ledger) + run_fee_records(s, ops)
                =~= records_listed(s, s.fee_ledger) + run_fee_records(s, prefix) + new_fee_records(t, op, now));
        }
    }
    lemma_fee_ids_distinct(market_run(s, ops));
}

/// How a settlement splits a sale of `amount` credits at `price` each: the
/// total cost is `price * amount`; the protocol fee is that total times the
/// fee rate in force, rounded down, so at most a tenth of it; and the
/// seller receives the total cost minus the fee.
pub open spec fn settlement_splits(st: Settlement, s: MarketState, price: i128, amount: i128) -> bool {
    &&& st.amount == amount
    &&& st.total_cost == price * amount
    &&& 0 <= st.protocol_fee
    &&& 10 * st.protocol_fee <= st.total_cost
    &&& st.protocol_fee * fee_denom(s) <= st.total_cost * fee_numerator(s)
    &&& st.total_cost * fee_numerator(s) < (st.protocol_fee + 1) * fee_denom(s)
    &&& st.seller_proceeds + st.protocol_fee == st.total_cost
}

/// The fee on a positive total that fits, at a rate governance may set.
proof fn lemma_fee_bounds(s: MarketState, total: int)
    requires
        fee_rate_ok(fee_numerator(s), fee_denom(s)),
        0 < total <= i128::MAX,
    ensures
        0 <= fee_on(s, total),
        10 * fee_on(s, total) <= total,
        fee_on(s, total) * fee_denom(s) <= total * fee_numerator(s),
        total * fee_numerator(s) < (fee_on(s, total) + 1) * fee_denom(s),
{
    lemma_fee_at_most_tenth(s, total);
    let num = fee_numerator(s) as int;
    let den = fee_denom(s) as int;
    let f = (total * num) / den;
    assert(f * den <= total * num && total * num < (f + 1) * den) by (nonlinear_arith)
        requires f == (total * num) / den, den > 0;
}

/// A single purchase settles as the listing's price says: the seller is
/// paid the total cost minus the protocol fee, the listing shrinks by the
/// amount bought, and the fee record filed under the next ledger id names
/// the buyer, the seller and the same total and fee.
pub proof fn lemma_purchase_settlement(s: MarketState, buyer: Address, listing_id: String, amount: i128,
    price_current: bool, now: u64)
    requires
        market_ok(s),
        CarbonMarketplaceContract::purchase_result(s, buyer, listing_id, amount, price_current, now) is Ok,
    ensures
        ({
            let (s2, r) = CarbonMarketplaceContract::purchase_result(s, buyer, listing_id, amount, price_current,
                now)->Ok_0;
            let l = s.listings[listing_id@];
            let st = r.settlements[0];
            let rec = s2.fee_records[fee_id(s.fee_ledger.len())];
            &&& s.listings.dom().contains(listing_id@)
            &&& r.settlements.len() == 1
            &&& settlement_splits(st, s, l.price_per_credit, amount)
            &&& st.seller == l.seller && st.batch_id == l.batch_id && st.listing_id == l.listing_id
            &&& s2.listings[listing_id@].amount_available == l.amount_available - amount
            &&& s2.fee_records.dom().contains(fee_id(s.fee_ledger.len()))
            &&& rec.buyer == buyer && rec.seller == l.seller && rec.listing_id == listing_id
            &&& rec.total_cost == st.total_cost && rec.fee_amount == st.protocol_fee && rec.recorded_at == now
        }),
{
    let l = s.listings[listing_id@];
    assert(listing_ok(l, listing_id@));
    let total = total_cost_of(l, amount);
    assert(total > 0) by (nonlinear_arith)
        requires total == l.price_per_credit * amount, l.price_per_credit > 0, amount > 0;
    lemma_fee_bounds(s, total);
}

/// Item `i` of a bulk purchase settled as its listing's price says, and
/// its fee record agrees with the settlement.
pub open spec fn bulk_item_settled(s: MarketState, s2: MarketState, r: ReceiptView, buyer: Address, ids: Seq<String>,
    amounts: Seq<i128>, now: u64, i: int) -> bool {
    let l = s.listings[ids[i]@];
    let st = r.settlements[i];
    let rec = s2.fee_records[fee_id((s.fee_ledger.len() + i) as nat)];
    &&& s.listings.dom().contains(ids[i]@)
    &&& settlement_splits(st, s, l.price_per_credit, amounts[i])
    &&& st.seller == l.seller && st.batch_id == l.batch_id && st.listing_id == l.listing_id
    &&& s2.fee_records.dom().contains(fee_id((s.fee_ledger.len() + i) as nat))
    &&& rec.buyer == buyer && rec.seller == l.seller && rec.listing_id == l.listing_id
    &&& rec.total_cost == st.total_cost && rec.fee_amount == st.protocol_fee && rec.recorded_at == now
}

/// A bulk purchase settles every item as its listing's price says: item `i`
/// pays the seller of listing `ids[i]` the total cost of `amounts[i]`
/// credits minus the protocol fee, and files a fee record with that total
/// and fee under the `i`-th new ledger id.
pub proof fn lemma_bulk_settlements(s: MarketState, buyer: Address, ids: Seq<String>, amounts: Seq<i128>,
    pc: Seq<bool>, now: u64)
    requires
        market_ok(s),
        CarbonMarketplaceContract::bulk_result(s, buyer, ids, amounts, pc, now) is Ok,
    ensures
        CarbonMarketplaceContract::bulk_result(s, buyer, ids, amounts, pc, now)->Ok_0.1.settlements.len() == ids.len(),
        forall|i: int| 0 <= i < ids.len() ==> #[trigger] bulk_item_settled(s,
            CarbonMarketplaceContract::bulk_result(s, buyer, ids, amounts, pc, now)->Ok_0.0,
            CarbonMarketplaceContract::bulk_result(s, buyer, ids, amounts, pc, now)->Ok_0.1, buyer, ids, amounts, now, i),
{
    let s2 = CarbonMarketplaceContract::bulk_result(s, buyer, ids, amounts, pc, now)->Ok_0.0;
    let r = CarbonMarketplaceContract::bulk_result(s, buyer, ids, amounts, pc, now)->Ok_0.1;
    lemma_bulk_first_none(s, ids, amounts, pc, now, 0);
    lemma_bulk_records(s, buyer, ids, amounts, now, ids.len());
    assert forall|i: int| 0 <= i < ids.len() implies #[trigger] bulk_item_settled(s, s2, r, buyer, ids, amounts, now, i) by {
        assert(bulk_item_error(s, ids, amounts, pc, now, i) is None);
        let l = s.listings[ids[i]@];
        assert(listing_ok(l, ids[i]@));
        assert(!bulk_line_overflows(s, ids, amounts, i));
        let total = bulk_total(s, ids, amounts, i);
        assert(total > 0) by (nonlinear_arith)
            requires total == l.price_per_credit * amounts[i], l.price_per_credit > 0, amounts[i] > 0;
        lemma_fee_bounds(s, total);
        assert(s2.fee_records.dom().contains(fee_id((s.fee_ledger.len() + i) as nat)));
    }
}

} // verus!
