//! Properties of the oracle across its operations.
//!
//! `oracle_step` names the state transition of each operation.  Over it the
//! lemmas state that a signed call consumes exactly the stored nonce (so a
//! signed payload is never accepted twice), that no timelocked price takes
//! effect before its 24 hours have passed while one that has waited them
//! takes effect as proposed, and that the liveness switch acts only on
//! projects that the freshness query reports as stale.

use vstd::prelude::*;
use crate::common::Address;
use crate::oracle::{
    elapsed, monitoring_current, price_current, signed_error, CarbonError, CarbonOracleContract, OracleState,
    PRICE_TIMELOCK_DELAY_SECS, TIMELOCK_DELAY,
};

verus! {

/// One call of a state-changing entry point of the oracle, at ledger time
/// `now`.  Signed calls carry the nonce they were signed with.
pub enum OracleOp {
    Initialize { admin: Address, oracle: Address, pub_key: [u8; 32], registry: Address },
    Upgrade { admin: Address, wasm_hash: [u8; 32] },
    Rotate { admin: Address, new_oracle: Address, new_pub_key: [u8; 32] },
    SetSla { admin: Address, seconds: u64 },
    SetStaleness { admin: Address, seconds: u64 },
    Submit {
        caller: Address,
        project_id: String,
        period: String,
        tonnes_verified: i128,
        methodology_score: u32,
        satellite_cid: String,
        nonce: u64,
    },
    ProposePrice { caller: Address, methodology: String, vintage_year: u32, price_usdc: i128, nonce: u64 },
    ProposeUpdate { caller: Address, methodology: String, vintage_year: u32, price_usdc: i128, nonce: u64 },
    UpdatePrice { caller: Address, methodology: String, vintage_year: u32, price_usdc: i128, nonce: u64 },
    Flag { caller: Address, project_id: String, reason: String, nonce: u64 },
    ExecutePrice { caller: Address, methodology: String, vintage_year: u32 },
    ExecuteUpdate { caller: Address, methodology: String, vintage_year: u32 },
    CancelPrice { admin: Address, methodology: String, vintage_year: u32 },
    CancelUpdate { admin: Address, methodology: String, vintage_year: u32 },
    CheckLiveness { project_id: String },
}

/// The state an operation leaves behind, or its error.
pub open spec fn oracle_step(s: OracleState, op: OracleOp, now: u64) -> Result<OracleState, CarbonError> {
    match op {
        OracleOp::Initialize { admin, oracle, pub_key, registry } =>
            CarbonOracleContract::initialize_result(s, admin, oracle, pub_key, registry),
        OracleOp::Upgrade { admin, wasm_hash } => CarbonOracleContract::upgrade_result(s, admin, wasm_hash, now),
        OracleOp::Rotate { admin, new_oracle, new_pub_key } =>
            CarbonOracleContract::rotate_result(s, admin, new_oracle, new_pub_key),
        OracleOp::SetSla { admin, seconds } => CarbonOracleContract::set_sla_result(s, admin, seconds),
        OracleOp::SetStaleness { admin, seconds } => CarbonOracleContract::set_staleness_result(s, admin, seconds),
        OracleOp::Submit { caller, project_id, period, tonnes_verified, methodology_score, satellite_cid, nonce } =>
            CarbonOracleContract::submit_result(
                s,
                caller,
                project_id,
                period,
                tonnes_verified,
                methodology_score,
                satellite_cid,
                nonce,
                now,
            ),
        OracleOp::ProposePrice { caller, methodology, vintage_year, price_usdc, nonce } =>
            CarbonOracleContract::propose_result(s, caller, methodology, vintage_year, price_usdc, nonce, now),
        OracleOp::ProposeUpdate { caller, methodology, vintage_year, price_usdc, nonce } =>
            match CarbonOracleContract::propose_update_result(s, caller, methodology, vintage_year, price_usdc, nonce, now) {
                Ok(p) => Ok(p.0),
                Err(e) => Err(e),
            },
        OracleOp::UpdatePrice { caller, methodology, vintage_year, price_usdc, nonce } =>
            CarbonOracleContract::update_price_result(s, caller, methodology, vintage_year, price_usdc, nonce, now),
        OracleOp::Flag { caller, project_id, reason, nonce } =>
            CarbonOracleContract::flag_result(s, caller, project_id, reason, nonce),
        OracleOp::ExecutePrice { caller, methodology, vintage_year } =>
            CarbonOracleContract::execute_price_result(s, caller, methodology, vintage_year, now),
        OracleOp::ExecuteUpdate { caller, methodology, vintage_year } =>
            CarbonOracleContract::execute_update_result(s, caller, methodology, vintage_year, now),
        OracleOp::CancelPrice { admin, methodology, vintage_year } =>
            CarbonOracleContract::cancel_result(s, admin, methodology, vintage_year, CarbonError::NoPendingProposal),
        OracleOp::CancelUpdate { admin, methodology, vintage_year } =>
            CarbonOracleContract::cancel_result(s, admin, methodology, vintage_year, CarbonError::NoPendingUpdate),
        OracleOp::CheckLiveness { project_id } => match CarbonOracleContract::check_liveness_result(s, project_id, now) {
            Ok(p) => Ok(p.0),
            Err(e) => Err(e),
        },
    }
}

/// The operation is a signed call with nonce `nonce` by `caller`.
pub open spec fn signed_by(op: OracleOp, caller: Address, nonce: u64) -> bool {
    match op {
        OracleOp::Submit { caller: c, nonce: n, .. } => c == caller && n == nonce,
        OracleOp::ProposePrice { caller: c, nonce: n, .. } => c == caller && n == nonce,
        OracleOp::ProposeUpdate { caller: c, nonce: n, .. } => c == caller && n == nonce,
        OracleOp::UpdatePrice { caller: c, nonce: n, .. } => c == caller && n == nonce,
        OracleOp::Flag { caller: c, nonce: n, .. } => c == caller && n == nonce,
        _ => false,
    }
}

/// A signed call succeeds only with the stored nonce, and consumes it: the
/// same nonce is refused afterwards, so a signed payload cannot be replayed.
pub proof fn lemma_signed_call_consumes_nonce(s: OracleState, op: OracleOp, now: u64, caller: Address, nonce: u64)
    requires
        oracle_step(s, op, now) is Ok,
        signed_by(op, caller, nonce),
        s.nonce < u64::MAX,
    ensures
        nonce == s.nonce,
        oracle_step(s, op, now)->Ok_0.nonce == s.nonce + 1,
        signed_error(oracle_step(s, op, now)->Ok_0, caller, nonce) == Some(CarbonError::InvalidNonce),
{
}

/// Only signed calls move the nonce forward; rotation and initialisation
/// start it again from zero.
pub proof fn lemma_nonce_moves_only_by_signing(s: OracleState, op: OracleOp, now: u64)
    requires
        oracle_step(s, op, now) is Ok,
        !(op is Submit || op is ProposePrice || op is ProposeUpdate || op is UpdatePrice || op is Flag),
    ensures
        oracle_step(s, op, now)->Ok_0.nonce == s.nonce || oracle_step(s, op, now)->Ok_0.nonce == 0,
        !(op is Rotate || op is Initialize) ==> oracle_step(s, op, now)->Ok_0.nonce == s.nonce,
{
}

/// A price proposed through `propose_price` takes effect only once 24 hours
/// have passed since it was proposed.
pub proof fn lemma_price_timelock(s: OracleState, caller: Address, methodology: String, vintage_year: u32, now: u64)
    requires
        CarbonOracleContract::execute_price_result(s, caller, methodology, vintage_year, now) is Ok,
    ensures
        s.pending.dom().contains((methodology@, vintage_year)),
        elapsed(now, s.pending[(methodology@, vintage_year)]->Proposal_0.proposed_at) >= PRICE_TIMELOCK_DELAY_SECS,
{
}

/// A price proposed through `propose_price_update` takes effect only from
/// its `execute_after` time on, which lies 24 hours after the proposal.
pub proof fn lemma_update_timelock(s: OracleState, caller: Address, methodology: String, vintage_year: u32, now: u64)
    requires
        CarbonOracleContract::execute_update_result(s, caller, methodology, vintage_year, now) is Ok,
    ensures
        s.pending.dom().contains((methodology@, vintage_year)),
        now >= s.pending[(methodology@, vintage_year)]->Update_0.execute_after,
{
}

/// The proposal of `propose_price_update` becomes executable exactly 24
/// hours after it is made.
pub proof fn lemma_update_executes_after_delay(s: OracleState, caller: Address, methodology: String, vintage_year: u32,
    price_usdc: i128, nonce: u64, now: u64)
    requires
        CarbonOracleContract::propose_update_result(s, caller, methodology, vintage_year, price_usdc, nonce, now) is Ok,
        now + crate::oracle::TIMELOCK_DELAY <= u64::MAX,
    ensures
        CarbonOracleContract::propose_update_result(s, caller, methodology, vintage_year, price_usdc, nonce, now)->Ok_0.1
            == now + crate::oracle::TIMELOCK_DELAY,
        CarbonOracleContract::propose_update_result(s, caller, methodology, vintage_year, price_usdc, nonce, now)->Ok_0.0.pending[
            (methodology@, vintage_year)]->Update_0.execute_after == now + crate::oracle::TIMELOCK_DELAY,
{
}

/// The liveness switch and the freshness query never disagree: a project
/// whose monitoring is current is left alone, and a suspension is requested
/// only for a project whose monitoring is stale.
pub proof fn lemma_liveness_agrees_with_freshness(s: OracleState, project_id: String, now: u64)
    ensures
        monitoring_current(s, project_id@, now) ==> CarbonOracleContract::check_liveness_result(s, project_id, now)
            == Ok::<(OracleState, Option<Address>), CarbonError>((s, None)),
        (CarbonOracleContract::check_liveness_result(s, project_id, now) is Ok
            && CarbonOracleContract::check_liveness_result(s, project_id, now)->Ok_0.1 is Some)
            ==> !monitoring_current(s, project_id@, now),
{
}

/// A price accepted by `propose_price` and executed by the oracle 24 hours
/// or more later becomes the benchmark price, current at that moment, and
/// leaves no proposal pending.
pub proof fn lemma_proposed_price_takes_effect(s: OracleState, caller: Address, methodology: String, vintage_year: u32,
    price_usdc: i128, nonce: u64, proposed_at: u64, executed_at: u64)
    requires
        CarbonOracleContract::propose_result(s, caller, methodology, vintage_year, price_usdc, nonce, proposed_at) is Ok,
        executed_at >= proposed_at + PRICE_TIMELOCK_DELAY_SECS,
    ensures
        ({
            let s1 = CarbonOracleContract::propose_result(s, caller, methodology, vintage_year, price_usdc, nonce,
                proposed_at)->Ok_0;
            let r = CarbonOracleContract::execute_price_result(s1, caller, methodology, vintage_year, executed_at);
            &&& r is Ok
            &&& r->Ok_0.prices[(methodology@, vintage_year)] == price_usdc
            &&& price_current(r->Ok_0, methodology@, vintage_year, executed_at)
            &&& !r->Ok_0.pending.dom().contains((methodology@, vintage_year))
        }),
{
}

/// A price accepted by `propose_price_update` and executed by the oracle at
/// or after its `execute_after` time becomes the benchmark price, current at
/// that moment, and leaves no proposal pending.
pub proof fn lemma_proposed_update_takes_effect(s: OracleState, caller: Address, methodology: String,
    vintage_year: u32, price_usdc: i128, nonce: u64, proposed_at: u64, executed_at: u64)
    requires
        CarbonOracleContract::propose_update_result(s, caller, methodology, vintage_year, price_usdc, nonce,
            proposed_at) is Ok,
        executed_at >= proposed_at + TIMELOCK_DELAY,
    ensures
        ({
            let s1 = CarbonOracleContract::propose_update_result(s, caller, methodology, vintage_year, price_usdc, nonce,
                proposed_at)->Ok_0.0;
            let r = CarbonOracleContract::execute_update_result(s1, caller, methodology, vintage_year, executed_at);
            &&& r is Ok
            &&& r->Ok_0.prices[(methodology@, vintage_year)] == price_usdc
            &&& price_current(r->Ok_0, methodology@, vintage_year, executed_at)
            &&& !r->Ok_0.pending.dom().contains((methodology@, vintage_year))
        }),
{
}

/// A direct price update stores the signed price as the benchmark of its
/// methodology and vintage at once, stamps it with the call's time so it is
/// current then, consumes the nonce, and leaves every other benchmark price
/// as it was.
pub proof fn lemma_update_price_sets_benchmark(s: OracleState, caller: Address, methodology: String, vintage_year: u32,
    price_usdc: i128, nonce: u64, now: u64, other: (Seq<char>, u32))
    requires
        CarbonOracleContract::update_price_result(s, caller, methodology, vintage_year, price_usdc, nonce, now) is Ok,
        s.nonce < u64::MAX,
    ensures
        ({
            let s2 = CarbonOracleContract::update_price_result(s, caller, methodology, vintage_year, price_usdc, nonce,
                now)->Ok_0;
            let k = (methodology@, vintage_year);
            &&& price_usdc > 0 && nonce == s.nonce
            &&& s2.prices.dom().contains(k) && s2.prices[k] == price_usdc
            &&& s2.price_updated_at.dom().contains(k) && s2.price_updated_at[k] == now
            &&& price_current(s2, methodology@, vintage_year, now)
            &&& s2.nonce == s.nonce + 1
            &&& other != k ==> s2.prices.dom().contains(other) == s.prices.dom().contains(other)
            &&& other != k && s.prices.dom().contains(other) ==> s2.prices[other] == s.prices[other]
            &&& s2.pending == s.pending
        }),
{
}

/// A monitoring report is stored as submitted, under its project and
/// period, stamped with the oracle and the call's time, and makes the
/// project's monitoring current at that time.
pub proof fn lemma_submit_stores_report(s: OracleState, caller: Address, project_id: String, period: String,
    tonnes_verified: i128, methodology_score: u32, satellite_cid: String, nonce: u64, now: u64)
    requires
        CarbonOracleContract::submit_result(s, caller, project_id, period, tonnes_verified, methodology_score,
            satellite_cid, nonce, now) is Ok,
        s.nonce < u64::MAX,
    ensures
        ({
            let s2 = CarbonOracleContract::submit_result(s, caller, project_id, period, tonnes_verified,
                methodology_score, satellite_cid, nonce, now)->Ok_0;
            let d = s2.monitoring[(project_id@, period@)];
            &&& tonnes_verified > 0 && nonce == s.nonce
            &&& s2.monitoring.dom().contains((project_id@, period@))
            &&& d.project_id == project_id && d.period == period && d.tonnes_verified == tonnes_verified
            &&& d.methodology_score == methodology_score && d.satellite_cid == satellite_cid
            &&& d.submitted_by == caller && d.submitted_at == now
            &&& monitoring_current(s2, project_id@, now)
            &&& s2.nonce == s.nonce + 1
            &&& s2.prices == s.prices
        }),
{
}

/// `propose_price` files the signed price as pending for its methodology
/// and vintage, stamped with the proposer and the call's time, without
/// touching the benchmark price.
pub proof fn lemma_propose_files_pending(s: OracleState, caller: Address, methodology: String, vintage_year: u32,
    price_usdc: i128, nonce: u64, now: u64)
    requires
        CarbonOracleContract::propose_result(s, caller, methodology, vintage_year, price_usdc, nonce, now) is Ok,
    ensures
        ({
            let s2 = CarbonOracleContract::propose_result(s, caller, methodology, vintage_year, price_usdc, nonce,
                now)->Ok_0;
            let k = (methodology@, vintage_year);
            &&& s2.pending.dom().contains(k) && s2.pending[k] is Proposal
            &&& s2.pending[k]->Proposal_0.price_usdc == price_usdc
            &&& s2.pending[k]->Proposal_0.methodology == methodology
            &&& s2.pending[k]->Proposal_0.vintage_year == vintage_year
            &&& s2.pending[k]->Proposal_0.proposed_by == caller
            &&& s2.pending[k]->Proposal_0.proposed_at == now
            &&& s2.prices == s.prices && s2.price_updated_at == s.price_updated_at
        }),
{
}

/// `propose_price_update` files the signed price as pending for its
/// methodology and vintage, executable from 24 hours on, without touching
/// the benchmark price.
pub proof fn lemma_propose_update_files_pending(s: OracleState, caller: Address, methodology: String,
    vintage_year: u32, price_usdc: i128, nonce: u64, now: u64)
    requires
        CarbonOracleContract::propose_update_result(s, caller, methodology, vintage_year, price_usdc, nonce, now) is Ok,
        now + TIMELOCK_DELAY <= u64::MAX,
    ensures
        ({
            let s2 = CarbonOracleContract::propose_update_result(s, caller, methodology, vintage_year, price_usdc,
                nonce, now)->Ok_0.0;
            let k = (methodology@, vintage_year);
            &&& s2.pending.dom().contains(k) && s2.pending[k] is Update
            &&& s2.pending[k]->Update_0.price_usdc == price_usdc
            &&& s2.pending[k]->Update_0.proposed_by == caller
            &&& s2.pending[k]->Update_0.nonce == nonce
            &&& s2.pending[k]->Update_0.execute_after == now + TIMELOCK_DELAY
            &&& s2.prices == s.prices && s2.price_updated_at == s.price_updated_at
        }),
{
}

} // verus!
