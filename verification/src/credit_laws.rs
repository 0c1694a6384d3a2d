//! Properties that every operation of the credit contract keeps.
//!
//! `credit_step` names the state transition of each operation; the lemmas
//! below state, over it, that supply accounting stays consistent, that no
//! retirement is ever undone or altered, and that an issued serial range is
//! never released.

use vstd::prelude::*;
use crate::common::Address;
use crate::credit::{
    is_paused, list_of, count_of, retired_of, CarbonCreditContract, CarbonError, CertificateView, CreditBatch, CreditState,
    CreditStatus, Role,
};
use crate::history::history_cap;
use crate::serial_index::{meets, SerialRange};

verus! {

/// One call of a state-changing entry point of the credit contract.
pub enum CreditOp {
    Initialize { admin: Address, registry: Address },
    Upgrade { admin: Address, wasm_hash: [u8; 32] },
    SetMaxHistory { admin: Address, n: u32 },
    SetOracle { admin: Address, oracle: Address },
    SetPeriods { admin: Address, project_id: String, periods: Vec<String> },
    Pause { admin: Address, until: u64 },
    Unpause { admin: Address },
    SetVintageBounds { admin: Address, min_year: u32, max_year: u32 },
    Mint {
        admin: Address,
        project_id: String,
        amount: i128,
        vintage_year: u32,
        batch_id: String,
        serial_start: u64,
        serial_end: u64,
        metadata_cid: String,
        initial_owner: Address,
    },
    Retire {
        holder: Address,
        batch_id: String,
        amount: i128,
        reason: String,
        beneficiary: String,
        retire_id: String,
        tx_hash: String,
        cert_cid: String,
    },
    Transfer { from: Address, to: Address, batch_id: String, amount: i128 },
    GrantRole { admin: Address, target: Address, role: Role },
    RevokeRole { admin: Address, target: Address },
    UndoRetire { admin: Address, retire_id: String },
    MigrateSerials { admin: Address, limit: u32 },
}

/// The state an operation leaves behind at ledger time `now`, or its error.
pub open spec fn credit_step(s: CreditState, op: CreditOp, now: u64) -> Result<CreditState, CarbonError> {
    match op {
        CreditOp::Initialize { admin, registry } => CarbonCreditContract::initialize_result(s, admin, registry),
        CreditOp::Upgrade { admin, wasm_hash } => match CarbonCreditContract::upgrade_result(s, admin, wasm_hash, now) {
            Ok(p) => Ok(p.0),
            Err(e) => Err(e),
        },
        CreditOp::SetMaxHistory { admin, n } => match CarbonCreditContract::max_history_result(s, admin, n, now) {
            Ok(p) => Ok(p.0),
            Err(e) => Err(e),
        },
        CreditOp::SetOracle { admin, oracle } => CarbonCreditContract::set_oracle_result(s, admin, oracle, now),
        CreditOp::SetPeriods { admin, project_id, periods } =>
            CarbonCreditContract::set_periods_result(s, admin, project_id, periods@, now),
        CreditOp::Pause { admin, until } => CarbonCreditContract::pause_result(s, admin, until, now),
        CreditOp::Unpause { admin } => CarbonCreditContract::unpause_result(s, admin),
        CreditOp::SetVintageBounds { admin, min_year, max_year } =>
            CarbonCreditContract::vintage_bounds_result(s, admin, min_year, max_year, now),
        CreditOp::Mint {
            admin,
            project_id,
            amount,
            vintage_year,
            batch_id,
            serial_start,
            serial_end,
            metadata_cid,
            initial_owner,
        } => CarbonCreditContract::mint_result(
            s,
            admin,
            project_id,
            amount,
            vintage_year,
            batch_id,
            serial_start,
            serial_end,
            metadata_cid,
            initial_owner,
            now,
        ),
        CreditOp::Retire { holder, batch_id, amount, reason, beneficiary, retire_id, tx_hash, cert_cid } =>
            match CarbonCreditContract::retire_result(
                s,
                holder,
                batch_id,
                amount,
                reason,
                beneficiary,
                retire_id,
                tx_hash,
                cert_cid,
                now,
            ) {
                Ok(p) => Ok(p.0),
                Err(e) => Err(e),
            },
        CreditOp::Transfer { from, to, batch_id, amount } =>
            CarbonCreditContract::transfer_result(s, from, to, batch_id, amount, now),
        CreditOp::GrantRole { admin, target, role } => CarbonCreditContract::grant_role_result(s, admin, target, role),
        CreditOp::RevokeRole { admin, target } => CarbonCreditContract::revoke_role_result(s, admin, target),
        CreditOp::UndoRetire { admin, retire_id } =>
            Err(CarbonCreditContract::undo_retire_error(s, admin, retire_id, now)),
        CreditOp::MigrateSerials { admin, limit } => match CarbonCreditContract::migrate_result(s, admin, limit, now) {
            Ok(p) => Ok(p.0),
            Err(e) => Err(e),
        },
    }
}

/// The serial range of a batch.
pub open spec fn range_of(b: CreditBatch) -> SerialRange {
    SerialRange { start: b.serial_start, end: b.serial_end }
}

/// The accounting of batch `k` is consistent: it is stored under its own id,
/// holds a positive amount of which between none and all is retired, and its
/// status says how much: `Active` none, `PartiallyRetired` some, and
/// `FullyRetired` all.
pub open spec fn batch_ok(s: CreditState, k: Seq<char>) -> bool {
    let b = s.batches[k];
    let r = retired_of(s, k);
    &&& b.batch_id@ == k
    &&& 0 < b.amount
    &&& 0 <= r <= b.amount
    &&& (b.status == CreditStatus::FullyRetired <==> r == b.amount)
    &&& (b.status == CreditStatus::Active ==> r == 0)
    &&& b.status != CreditStatus::Suspended
}

/// Supply invariant of the credit contract: every batch's accounting is
/// consistent, retired counts exist only for minted batches, every batch's
/// serial range is in the index, and no two batches share a serial number.
pub open spec fn supply_ok(s: CreditState) -> bool {
    &&& forall|k: Seq<char>| #[trigger] s.retired.dom().contains(k) ==> s.batches.dom().contains(k)
    &&& forall|k: Seq<char>| #[trigger] s.batches.dom().contains(k) ==> batch_ok(s, k)
    &&& forall|k: Seq<char>| #[trigger] s.batches.dom().contains(k) ==> s.serial_index.contains(range_of(s.batches[k]))
    &&& forall|k1: Seq<char>, k2: Seq<char>|
        #[trigger] s.batches.dom().contains(k1) && #[trigger] s.batches.dom().contains(k2) && k1 != k2
            ==> !meets(s.batches[k1].serial_start, s.batches[k1].serial_end, range_of(s.batches[k2]))
}

/// A contract with no batches and no retirements is consistent.
pub proof fn lemma_empty_supply_ok(s: CreditState)
    requires
        s.batches == Map::<Seq<char>, CreditBatch>::empty(),
        s.retired == Map::<Seq<char>, i128>::empty(),
    ensures
        supply_ok(s),
{
}

/// Every operation keeps the supply invariant: the credits of each batch
/// always split into active and retired ones (`amount == active + retired`,
/// both non-negative), and serial ranges of distinct batches never meet.
pub proof fn lemma_step_keeps_supply(s: CreditState, op: CreditOp, now: u64)
    requires
        supply_ok(s),
        credit_step(s, op, now) is Ok,
    ensures
        supply_ok(credit_step(s, op, now)->Ok_0),
{
    let s2 = credit_step(s, op, now)->Ok_0;
    match op {
        CreditOp::Mint { batch_id, serial_start, serial_end, .. } => {
            let k0 = batch_id@;
            assert(!s.retired.dom().contains(k0));
            assert forall|k: Seq<char>| #[trigger] s2.batches.dom().contains(k) implies batch_ok(s2, k) by {
                if k != k0 {
                    assert(batch_ok(s, k));
                }
            }
            assert forall|k: Seq<char>| #[trigger] s2.batches.dom().contains(k)
                implies s2.serial_index.contains(range_of(s2.batches[k])) by {
                if k != k0 {
                    assert(s.serial_index.contains(range_of(s.batches[k])));
                }
            }
            assert forall|k1: Seq<char>, k2: Seq<char>|
                #[trigger] s2.batches.dom().contains(k1) && #[trigger] s2.batches.dom().contains(k2) && k1 != k2
                implies !meets(s2.batches[k1].serial_start, s2.batches[k1].serial_end, range_of(s2.batches[k2])) by {
                if k1 == k0 {
                    assert(s.serial_index.contains(range_of(s.batches[k2])));
                } else if k2 == k0 {
                    assert(s.serial_index.contains(range_of(s.batches[k1])));
                    assert(!meets(serial_start, serial_end, range_of(s.batches[k1])));
                }
            }
        },
        CreditOp::Retire { batch_id, .. } => {
            let k0 = batch_id@;
            assert(batch_ok(s, k0));
            assert forall|k: Seq<char>| #[trigger] s2.batches.dom().contains(k) implies batch_ok(s2, k) by {
                if k != k0 {
                    assert(batch_ok(s, k));
                }
            }
            assert forall|k: Seq<char>| #[trigger] s2.batches.dom().contains(k)
                implies s2.serial_index.contains(range_of(s2.batches[k])) by {
                assert(s.serial_index.contains(range_of(s.batches[k])));
            }
            assert forall|k1: Seq<char>, k2: Seq<char>|
                #[trigger] s2.batches.dom().contains(k1) && #[trigger] s2.batches.dom().contains(k2) && k1 != k2
                implies !meets(s2.batches[k1].serial_start, s2.batches[k1].serial_end, range_of(s2.batches[k2])) by {
                assert(s.batches.dom().contains(k1) && s.batches.dom().contains(k2));
            }
        },
        CreditOp::Transfer { batch_id, .. } => {
            let k0 = batch_id@;
            assert forall|k: Seq<char>| #[trigger] s2.batches.dom().contains(k) implies batch_ok(s2, k) by {
                assert(batch_ok(s, k));
            }
            assert forall|k: Seq<char>| #[trigger] s2.batches.dom().contains(k)
                implies s2.serial_index.contains(range_of(s2.batches[k])) by {
                assert(s.serial_index.contains(range_of(s.batches[k])));
            }
            assert forall|k1: Seq<char>, k2: Seq<char>|
                #[trigger] s2.batches.dom().contains(k1) && #[trigger] s2.batches.dom().contains(k2) && k1 != k2
                implies !meets(s2.batches[k1].serial_start, s2.batches[k1].serial_end, range_of(s2.batches[k2])) by {
                assert(s.batches.dom().contains(k1) && s.batches.dom().contains(k2));
            }
        },
        CreditOp::MigrateSerials { .. } => {
            assert forall|k: Seq<char>| #[trigger] s2.batches.dom().contains(k) implies batch_ok(s2, k) by {
                assert(batch_ok(s, k));
            }
            assert forall|k: Seq<char>| #[trigger] s2.batches.dom().contains(k)
                implies s2.serial_index.contains(range_of(s2.batches[k])) by {
                assert(s.serial_index.contains(range_of(s.batches[k])));
            }
        },
        _ => {
            assert(s2.batches == s.batches && s2.retired == s.retired && s2.serial_index == s.serial_index);
            assert forall|k: Seq<char>| #[trigger] s2.batches.dom().contains(k) implies batch_ok(s2, k) by {
                assert(batch_ok(s, k));
            }
        },
    }
}

/// No operation removes or alters a retirement certificate: once issued, a
/// certificate stays readable with the same contents forever.
pub proof fn lemma_step_keeps_retirements(s: CreditState, op: CreditOp, now: u64, id: Seq<char>)
    requires
        credit_step(s, op, now) is Ok,
        s.retirements.dom().contains(id),
    ensures
        credit_step(s, op, now)->Ok_0.retirements.dom().contains(id),
        credit_step(s, op, now)->Ok_0.retirements[id] == s.retirements[id],
{
}

/// Retired credits stay retired: no operation lowers the retired count of a
/// batch, and a fully retired batch stays fully retired.
pub proof fn lemma_step_never_unretires(s: CreditState, op: CreditOp, now: u64, k: Seq<char>)
    requires
        supply_ok(s),
        credit_step(s, op, now) is Ok,
        s.batches.dom().contains(k),
    ensures
        credit_step(s, op, now)->Ok_0.batches.dom().contains(k),
        retired_of(credit_step(s, op, now)->Ok_0, k) >= retired_of(s, k),
        s.batches[k].status == CreditStatus::FullyRetired
            ==> credit_step(s, op, now)->Ok_0.batches[k].status == CreditStatus::FullyRetired,
{
    assert(batch_ok(s, k));
}

/// An issued serial range is never released: every range in the index stays
/// there after any operation.
pub proof fn lemma_step_keeps_serials(s: CreditState, op: CreditOp, now: u64, r: SerialRange)
    requires
        credit_step(s, op, now) is Ok,
        s.serial_index.contains(r),
    ensures
        credit_step(s, op, now)->Ok_0.serial_index.contains(r),
{
}

/// The upgrade history never holds more records than the cap in force.
pub proof fn lemma_step_keeps_history_capped(s: CreditState, op: CreditOp, now: u64)
    requires
        s.history.len() <= history_cap(s.max_history),
        credit_step(s, op, now) is Ok,
    ensures
        credit_step(s, op, now)->Ok_0.history.len() <= history_cap(credit_step(s, op, now)->Ok_0.max_history),
{
}

/// While the contract is paused, every mint, retirement and transfer of
/// credits fails.
pub proof fn lemma_pause_stops_credit_movements(s: CreditState, op: CreditOp, now: u64)
    requires
        is_paused(s, now),
        op is Mint || op is Retire || op is Transfer,
    ensures
        credit_step(s, op, now) is Err,
{
}

/// A retirement issues a certificate that records the request as made: the
/// holder, the amount, the beneficiary, the reason, the ids, hash and
/// document given, the batch's project and vintage, and as serial numbers
/// the `amount` consecutive serials that follow those retired before.  The
/// certificate is stored under its id, and the batch's retired count grows
/// by exactly `amount` while its total and owner stay as they were.
pub proof fn lemma_retire_certifies_request(s: CreditState, holder: Address, batch_id: String, amount: i128,
    reason: String, beneficiary: String, retire_id: String, tx_hash: String, cert_cid: String, now: u64)
    requires
        CarbonCreditContract::retire_result(s, holder, batch_id, amount, reason, beneficiary, retire_id, tx_hash,
            cert_cid, now) is Ok,
    ensures
        ({
            let (s2, c) = CarbonCreditContract::retire_result(s, holder, batch_id, amount, reason, beneficiary,
                retire_id, tx_hash, cert_cid, now)->Ok_0;
            let b = s.batches[batch_id@];
            &&& s.batches.dom().contains(batch_id@)
            &&& !s.retirements.dom().contains(retire_id@)
            &&& c.retired_by == holder && c.amount == amount
            &&& c.beneficiary == beneficiary && c.retirement_reason == reason
            &&& c.retirement_id == retire_id && c.credit_batch_id == batch_id
            &&& c.tx_hash == tx_hash && c.certificate_cid == cert_cid && c.retired_at == now
            &&& c.project_id == b.project_id && c.vintage_year == b.vintage_year
            &&& c.serial_numbers.len() == amount
            &&& forall|i: int| 0 <= i < amount ==> #[trigger] c.serial_numbers[i] == b.serial_start + retired_of(s,
                batch_id@) + i
            &&& s2.retirements.dom().contains(retire_id@) && s2.retirements[retire_id@] == c
            &&& retired_of(s2, batch_id@) == retired_of(s, batch_id@) + amount
            &&& s2.batches[batch_id@].amount == b.amount && s2.batches[batch_id@].owner == b.owner
        }),
{
}

/// Minting stores a batch exactly as requested (id, project, amount,
/// vintage, serial range, owner, document, time, and `Active`), appends its
/// id to its project's batch list leaving every other project's list as it
/// was, counts one more batch for the project, and issues its serial range.
pub proof fn lemma_mint_records_batch(s: CreditState, admin: Address, project_id: String, amount: i128,
    vintage_year: u32, batch_id: String, serial_start: u64, serial_end: u64, metadata_cid: String,
    initial_owner: Address, now: u64, other: Seq<char>)
    requires
        CarbonCreditContract::mint_result(s, admin, project_id, amount, vintage_year, batch_id, serial_start, serial_end,
            metadata_cid, initial_owner, now) is Ok,
    ensures
        ({
            let s2 = CarbonCreditContract::mint_result(s, admin, project_id, amount, vintage_year, batch_id,
                serial_start, serial_end, metadata_cid, initial_owner, now)->Ok_0;
            let b = s2.batches[batch_id@];
            &&& !s.batches.dom().contains(batch_id@) && s2.batches.dom().contains(batch_id@)
            &&& b.batch_id == batch_id && b.project_id == project_id && b.amount == amount
            &&& b.vintage_year == vintage_year && b.serial_start == serial_start && b.serial_end == serial_end
            &&& b.owner == initial_owner && b.metadata_cid == metadata_cid && b.issued_at == now
            &&& b.status == CreditStatus::Active
            &&& list_of(s2.project_batches, project_id@) == list_of(s.project_batches, project_id@).push(batch_id)
            &&& other != project_id@ ==> list_of(s2.project_batches, other) == list_of(s.project_batches, other)
            &&& count_of(s2.batch_counts, project_id@) == count_of(s.batch_counts, project_id@) + 1
            &&& s2.serial_index == s.serial_index.insert(SerialRange { start: serial_start, end: serial_end })
            &&& s2.retired == s.retired
        }),
{
}

/// A transfer hands the whole batch to `to`, from its owner `from`, and
/// changes nothing else about the batch or its retired count.
pub proof fn lemma_transfer_moves_owner(s: CreditState, from: Address, to: Address, batch_id: String, amount: i128,
    now: u64)
    requires
        CarbonCreditContract::transfer_result(s, from, to, batch_id, amount, now) is Ok,
    ensures
        ({
            let s2 = CarbonCreditContract::transfer_result(s, from, to, batch_id, amount, now)->Ok_0;
            let b = s.batches[batch_id@];
            &&& s.batches.dom().contains(batch_id@) && b.owner@ == from@
            &&& 0 < amount
            &&& s2.batches[batch_id@] == (CreditBatch { owner: to, ..b })
            &&& retired_of(s2, batch_id@) == retired_of(s, batch_id@)
            &&& s2.retirements == s.retirements
        }),
{
}

} // verus!
