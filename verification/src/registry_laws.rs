//! Properties that every operation of the registry keeps.
//!
//! `registry_step` names the state transition of each operation.  Over it
//! the lemmas state that registered serial ranges never overlap and are
//! never dropped, that a project's retired total never falls, that the
//! approvals of a proposal come from distinct signers, that an executed
//! proposal is recorded as the latest upgrade and cannot be approved again,
//! that the upgrade history stays within its cap, and that no admin registers
//! more than its cap of projects.  Further lemmas state what a registration,
//! an increment of the issued total and a retirement do to the project they
//! name, and that successive increments add up.

use vstd::prelude::*;
use crate::common::{Address, UpgradeRecord};
use crate::registry::{
    count_of, is_admin, is_oracle, CarbonError, CarbonRegistryContract, ProjectStatus, RegistryState,
    MAX_PROJECTS_PER_ADMIN,
};
use crate::history::{history_cap, MIN_HISTORY_ENTRIES};
use crate::serial_index::pairwise_disjoint;

verus! {

/// One call of a state-changing entry point of the registry, at ledger time
/// `now` and ledger sequence `sequence`.
pub enum RegistryOp {
    Initialize { admin: Address, oracle: Address, verifiers: Seq<Address> },
    Upgrade { admin: Address, wasm_hash: [u8; 32] },
    SetMaxHistory { admin: Address, n: u32 },
    InitializeMultisig { admin: Address, signers: Seq<Address>, threshold: u32 },
    Propose { proposer: Address, wasm_hash: [u8; 32] },
    Approve { approver: Address, proposal_id: u32 },
    Cancel { canceller: Address, proposal_id: u32 },
    Register {
        admin: Address,
        project_id: String,
        name: String,
        metadata_cid: String,
        verifier_address: Address,
        methodology: String,
        country: String,
        project_type: String,
        vintage_year: u32,
        methodology_score: u32,
        metadata_hash: [u8; 32],
    },
    Review { verifier: Address, project_id: String, status: ProjectStatus },
    OracleStatus { oracle: Address, project_id: String, status: ProjectStatus },
    Suspend { admin: Address, project_id: String },
    OracleSuspend { caller: Address, project_id: String },
    IncrementIssued { oracle: Address, project_id: String, amount: i128 },
    Retire { admin: Address, project_id: String, amount: i128 },
    RegisterSerials { start: u64, end: u64 },
    SetCreditContract { admin: Address, credit_contract: Address },
    AddVerifier { admin: Address, verifier: Address },
    RemoveVerifier { admin: Address, verifier: Address },
}

/// The state an operation leaves behind, or its error.  `RegisterSerials`
/// stands for a registration by an authorised caller (the admin or the
/// credit contract); `Review` for a verification or rejection.
pub open spec fn registry_step(s: RegistryState, op: RegistryOp, now: u64, sequence: u32)
    -> Result<RegistryState, CarbonError> {
    match op {
        RegistryOp::Initialize { admin, oracle, verifiers } =>
            CarbonRegistryContract::initialize_result(s, admin, oracle, verifiers),
        RegistryOp::Upgrade { admin, wasm_hash } => match CarbonRegistryContract::upgrade_result(s, admin, wasm_hash, now) {
            Ok(p) => Ok(p.0),
            Err(e) => Err(e),
        },
        RegistryOp::SetMaxHistory { admin, n } => match CarbonRegistryContract::max_history_result(s, admin, n, now) {
            Ok(p) => Ok(p.0),
            Err(e) => Err(e),
        },
        RegistryOp::InitializeMultisig { admin, signers, threshold } =>
            CarbonRegistryContract::multisig_result(s, admin, signers, threshold),
        RegistryOp::Propose { proposer, wasm_hash } =>
            match CarbonRegistryContract::propose_result(s, proposer, wasm_hash, sequence) {
                Ok(p) => Ok(p.0),
                Err(e) => Err(e),
            },
        RegistryOp::Approve { approver, proposal_id } =>
            match CarbonRegistryContract::approve_result(s, approver, proposal_id, sequence, now) {
                Ok(p) => Ok(p.0),
                Err(e) => Err(e),
            },
        RegistryOp::Cancel { canceller, proposal_id } => CarbonRegistryContract::cancel_result(s, canceller, proposal_id),
        RegistryOp::Register {
            admin,
            project_id,
            name,
            metadata_cid,
            verifier_address,
            methodology,
            country,
            project_type,
            vintage_year,
            methodology_score,
            metadata_hash,
        } => CarbonRegistryContract::register_result(
            s,
            admin,
            project_id,
            name,
            metadata_cid,
            verifier_address,
            methodology,
            country,
            project_type,
            vintage_year,
            methodology_score,
            metadata_hash,
            now,
        ),
        RegistryOp::Review { verifier, project_id, status } =>
            CarbonRegistryContract::review_result(s, verifier, project_id, status),
        RegistryOp::OracleStatus { oracle, project_id, status } =>
            CarbonRegistryContract::oracle_status_result(s, oracle, project_id, status),
        RegistryOp::Suspend { admin, project_id } => CarbonRegistryContract::suspend_result(s, admin, project_id),
        RegistryOp::OracleSuspend { caller, project_id } =>
            match CarbonRegistryContract::oracle_suspend_result(s, caller, project_id) {
                Ok(p) => Ok(p.0),
                Err(e) => Err(e),
            },
        RegistryOp::IncrementIssued { oracle, project_id, amount } =>
            CarbonRegistryContract::increment_result(s, oracle, project_id, amount),
        RegistryOp::Retire { admin, project_id, amount } =>
            CarbonRegistryContract::retire_result(s, admin, project_id, amount),
        RegistryOp::RegisterSerials { start, end } => CarbonRegistryContract::serial_result(s, start, end),
        RegistryOp::SetCreditContract { admin, credit_contract } =>
            CarbonRegistryContract::set_credit_contract_result(s, admin, credit_contract),
        RegistryOp::AddVerifier { admin, verifier } => CarbonRegistryContract::add_verifier_result(s, admin, verifier),
        RegistryOp::RemoveVerifier { admin, verifier } =>
            CarbonRegistryContract::remove_verifier_result(s, admin, verifier),
    }
}

/// The approvals of the pending proposal come from distinct signers.
pub open spec fn approvals_distinct(s: RegistryState) -> bool {
    s.pending is Some ==> forall|i: int, j: int|
        0 <= i < s.pending->0.approvals.len() && 0 <= j < s.pending->0.approvals.len() && i != j
            ==> (#[trigger] s.pending->0.approvals[i])@ != (#[trigger] s.pending->0.approvals[j])@
}

/// No admin has registered more projects than its cap.
pub open spec fn counts_capped(s: RegistryState) -> bool {
    forall|k: Seq<char>| #[trigger] s.project_counts.dom().contains(k) ==> s.project_counts[k] <= MAX_PROJECTS_PER_ADMIN
}

/// Every operation keeps the registered serial ranges pairwise disjoint,
/// and keeps every range registered before (in its place).
pub proof fn lemma_step_keeps_serials(s: RegistryState, op: RegistryOp, now: u64, sequence: u32)
    requires
        pairwise_disjoint(s.serial_ranges),
        registry_step(s, op, now, sequence) is Ok,
        !(op is Initialize),
    ensures
        pairwise_disjoint(registry_step(s, op, now, sequence)->Ok_0.serial_ranges),
        s.serial_ranges.len() <= registry_step(s, op, now, sequence)->Ok_0.serial_ranges.len(),
        registry_step(s, op, now, sequence)->Ok_0.serial_ranges.subrange(0, s.serial_ranges.len() as int)
            == s.serial_ranges,
{
    let s2 = registry_step(s, op, now, sequence)->Ok_0;
    match op {
        RegistryOp::RegisterSerials { start, end } => {
            crate::registry::lemma_push_keeps_disjoint(s.serial_ranges, start, end);
        },
        _ => {},
    }
    assert(s2.serial_ranges.subrange(0, s.serial_ranges.len() as int) =~= s.serial_ranges);
}

/// Initialisation starts from an empty list of serial ranges.
pub proof fn lemma_initialize_clears_serials(s: RegistryState, op: RegistryOp, now: u64, sequence: u32)
    requires
        registry_step(s, op, now, sequence) is Ok,
        op is Initialize,
    ensures
        registry_step(s, op, now, sequence)->Ok_0.serial_ranges == Seq::<crate::registry::SerialRange>::empty(),
{
}

/// A project's retired total never falls, and a retirement never lifts it
/// above the issued total.
pub proof fn lemma_step_retired_monotone(s: RegistryState, op: RegistryOp, now: u64, sequence: u32, k: Seq<char>)
    requires
        registry_step(s, op, now, sequence) is Ok,
        s.projects.dom().contains(k),
    ensures
        registry_step(s, op, now, sequence)->Ok_0.projects.dom().contains(k),
        registry_step(s, op, now, sequence)->Ok_0.projects[k].total_credits_retired >= s.projects[k].total_credits_retired,
        (op matches RegistryOp::Retire { project_id, .. } && project_id@ == k)
            ==> registry_step(s, op, now, sequence)->Ok_0.projects[k].total_credits_retired
            <= registry_step(s, op, now, sequence)->Ok_0.projects[k].total_credits_issued,
{
}

/// The approvals of a proposal always come from distinct signers.
pub proof fn lemma_step_keeps_approvals_distinct(s: RegistryState, op: RegistryOp, now: u64, sequence: u32)
    requires
        approvals_distinct(s),
        registry_step(s, op, now, sequence) is Ok,
    ensures
        approvals_distinct(registry_step(s, op, now, sequence)->Ok_0),
{
    let s2 = registry_step(s, op, now, sequence)->Ok_0;
    match op {
        RegistryOp::Approve { approver, .. } => {
            let a = s.pending->0.approvals;
            let b = s2.pending->0.approvals;
            assert(b == a.push(approver));
            assert forall|i: int, j: int| 0 <= i < b.len() && 0 <= j < b.len() && i != j
                implies (#[trigger] b[i])@ != (#[trigger] b[j])@ by {
                if i == a.len() {
                    assert(b[j] == a[j]);
                } else if j == a.len() {
                    assert(b[i] == a[i]);
                } else {
                    assert(b[i] == a[i] && b[j] == a[j]);
                }
            }
        },
        _ => {},
    }
}

/// An upgrade executes only when the approvals, counting the last one,
/// reach the threshold.
pub proof fn lemma_execution_needs_threshold(s: RegistryState, approver: Address, proposal_id: u32, sequence: u32, now: u64)
    requires
        CarbonRegistryContract::approve_result(s, approver, proposal_id, sequence, now) is Ok,
        CarbonRegistryContract::approve_result(s, approver, proposal_id, sequence, now)->Ok_0.1,
    ensures
        CarbonRegistryContract::approve_result(s, approver, proposal_id, sequence, now)->Ok_0.0.pending->0.approvals.len()
            >= s.multisig->0.threshold,
        CarbonRegistryContract::approve_result(s, approver, proposal_id, sequence, now)->Ok_0.0.pending->0.executed,
{
}

/// No admin ever passes its cap of registered projects.
pub proof fn lemma_step_keeps_counts_capped(s: RegistryState, op: RegistryOp, now: u64, sequence: u32)
    requires
        counts_capped(s),
        registry_step(s, op, now, sequence) is Ok,
    ensures
        counts_capped(registry_step(s, op, now, sequence)->Ok_0),
{
}

/// The upgrade history never holds more records than the cap in force.
pub proof fn lemma_step_keeps_history_capped(s: RegistryState, op: RegistryOp, now: u64, sequence: u32)
    requires
        s.history.len() <= history_cap(s.max_history),
        registry_step(s, op, now, sequence) is Ok,
    ensures
        registry_step(s, op, now, sequence)->Ok_0.history
            .len() <= history_cap(registry_step(s, op, now, sequence)->Ok_0.max_history),
{
}

/// An approval that executes an upgrade bumps the version and records the
/// upgrade as the latest entry of the history; the proposal is then spent,
/// so any further approval of it is refused.
pub proof fn lemma_executed_upgrade_recorded(s: RegistryState, approver: Address, proposal_id: u32, sequence: u32,
    now: u64, other: Address, later_sequence: u32, later: u64)
    requires
        CarbonRegistryContract::approve_result(s, approver, proposal_id, sequence, now) is Ok,
        CarbonRegistryContract::approve_result(s, approver, proposal_id, sequence, now)->Ok_0.1,
        s.version < u32::MAX,
        MIN_HISTORY_ENTRIES <= history_cap(s.max_history),
    ensures
        ({
            let s2 = CarbonRegistryContract::approve_result(s, approver, proposal_id, sequence, now)->Ok_0.0;
            &&& s2.version == s.version + 1
            &&& s2.history.len() > 0
            &&& s2.history.last() == (UpgradeRecord {
                from_version: s.version,
                to_version: (s.version + 1) as u32,
                timestamp: now,
                upgraded_by: approver,
                wasm_hash: s.pending->0.wasm_hash,
            })
            &&& CarbonRegistryContract::approve_result(s2, other, proposal_id, later_sequence, later) is Err
        }),
{
    let s2 = CarbonRegistryContract::approve_result(s, approver, proposal_id, sequence, now)->Ok_0.0;
    let h = s.history.push(UpgradeRecord {
        from_version: s.version,
        to_version: (s.version + 1) as u32,
        timestamp: now,
        upgraded_by: approver,
        wasm_hash: s.pending->0.wasm_hash,
    });
    let cap = history_cap(s.max_history);
    if h.len() > cap {
        assert(s2.history == h.subrange(h.len() - cap, h.len() as int));
        assert(s2.history.last() == h.last());
    }
}


/// `increment_issued` succeeds exactly for the oracle, on a registered
/// project, when the new total fits in an `i128`; it then raises that
/// project's issued total by `amount` and leaves its retired total, its
/// status and every other project as they were.
pub proof fn lemma_increment_adds_to_issued(s: RegistryState, oracle: Address, project_id: String, amount: i128)
    ensures
        (CarbonRegistryContract::increment_result(s, oracle, project_id, amount) is Ok) <==> (
            is_oracle(s, oracle) && s.projects.dom().contains(project_id@)
                && i128::MIN <= s.projects[project_id@].total_credits_issued + amount <= i128::MAX),
        CarbonRegistryContract::increment_result(s, oracle, project_id, amount) is Ok ==> ({
            let s2 = CarbonRegistryContract::increment_result(s, oracle, project_id, amount)->Ok_0;
            let p = s.projects[project_id@];
            let q = s2.projects[project_id@];
            &&& s2.projects.dom() == s.projects.dom()
            &&& q.total_credits_issued == p.total_credits_issued + amount
            &&& q.total_credits_retired == p.total_credits_retired
            &&& q.status == p.status
            &&& q.project_id == p.project_id
            &&& forall|k: Seq<char>| k != project_id@ && s.projects.dom().contains(k)
                ==> s2.projects[k] == s.projects[k]
            &&& s2.serial_ranges == s.serial_ranges
            &&& s2.project_counts == s.project_counts
        }),
{
    if CarbonRegistryContract::increment_result(s, oracle, project_id, amount) is Ok {
        let s2 = CarbonRegistryContract::increment_result(s, oracle, project_id, amount)->Ok_0;
        assert(s2.projects.dom() =~= s.projects.dom());
    }
}

/// Two successful increments of one project add up: its issued total grows
/// by the sum of both amounts.
pub proof fn lemma_increments_accumulate(s: RegistryState, oracle: Address, project_id: String, a: i128, b: i128)
    requires
        CarbonRegistryContract::increment_result(s, oracle, project_id, a) is Ok,
        CarbonRegistryContract::increment_result(
            CarbonRegistryContract::increment_result(s, oracle, project_id, a)->Ok_0, oracle, project_id, b) is Ok,
    ensures
        ({
            let s1 = CarbonRegistryContract::increment_result(s, oracle, project_id, a)->Ok_0;
            let s2 = CarbonRegistryContract::increment_result(s1, oracle, project_id, b)->Ok_0;
            s2.projects[project_id@].total_credits_issued == s.projects[project_id@].total_credits_issued + a + b
        }),
{
    let s1 = CarbonRegistryContract::increment_result(s, oracle, project_id, a)->Ok_0;
    lemma_increment_adds_to_issued(s, oracle, project_id, a);
    lemma_increment_adds_to_issued(s1, oracle, project_id, b);
}

/// The registry's `retire_credits` succeeds exactly for the admin, with a
/// positive amount, on a registered project whose retired total stays within
/// its issued total; it then raises the retired total by `amount` and leaves
/// the issued total and every other project as they were.
pub proof fn lemma_retire_adds_to_retired(s: RegistryState, admin: Address, project_id: String, amount: i128)
    ensures
        (CarbonRegistryContract::retire_result(s, admin, project_id, amount) is Ok) <==> (
            is_admin(s, admin) && amount > 0 && s.projects.dom().contains(project_id@)
                && s.projects[project_id@].total_credits_retired + amount
                    <= s.projects[project_id@].total_credits_issued),
        CarbonRegistryContract::retire_result(s, admin, project_id, amount) is Ok ==> ({
            let s2 = CarbonRegistryContract::retire_result(s, admin, project_id, amount)->Ok_0;
            let p = s.projects[project_id@];
            let q = s2.projects[project_id@];
            &&& s2.projects.dom() == s.projects.dom()
            &&& q.total_credits_retired == p.total_credits_retired + amount
            &&& q.total_credits_retired <= q.total_credits_issued
            &&& q.total_credits_issued == p.total_credits_issued
            &&& q.status == p.status
            &&& forall|k: Seq<char>| k != project_id@ && s.projects.dom().contains(k)
                ==> s2.projects[k] == s.projects[k]
        }),
{
    if CarbonRegistryContract::retire_result(s, admin, project_id, amount) is Ok {
        let s2 = CarbonRegistryContract::retire_result(s, admin, project_id, amount)->Ok_0;
        assert(s2.projects.dom() =~= s.projects.dom());
    }
}

/// A successful registration stores the project under its id with the
/// given fields, no credits issued or retired, pending review, and counts
/// one more project for the admin; the projects already registered stay.
pub proof fn lemma_register_stores_project(
    s: RegistryState,
    admin: Address,
    project_id: String,
    name: String,
    metadata_cid: String,
    verifier_address: Address,
    methodology: String,
    country: String,
    project_type: String,
    vintage_year: u32,
    methodology_score: u32,
    metadata_hash: [u8; 32],
    now: u64,
)
    requires
        CarbonRegistryContract::register_result(s, admin, project_id, name, metadata_cid, verifier_address,
            methodology, country, project_type, vintage_year, methodology_score, metadata_hash, now) is Ok,
    ensures
        ({
            let s2 = CarbonRegistryContract::register_result(s, admin, project_id, name, metadata_cid,
                verifier_address, methodology, country, project_type, vintage_year, methodology_score,
                metadata_hash, now)->Ok_0;
            let q = s2.projects[project_id@];
            &&& !s.projects.dom().contains(project_id@)
            &&& is_admin(s, admin)
            &&& s2.projects.dom() == s.projects.dom().insert(project_id@)
            &&& q.project_id == project_id && q.name == name && q.metadata_cid == metadata_cid
            &&& q.verifier_address == verifier_address && q.methodology == methodology
            &&& q.country == country && q.project_type == project_type
            &&& q.vintage_year == vintage_year && q.methodology_score == methodology_score
            &&& q.metadata_hash == metadata_hash && q.created_at == now
            &&& q.total_credits_issued == 0 && q.total_credits_retired == 0
            &&& q.status == ProjectStatus::Pending
            &&& count_of(s2.project_counts, admin@) == count_of(s.project_counts, admin@) + 1
            &&& forall|k: Seq<char>| s.projects.dom().contains(k) ==> s2.projects[k] == s.projects[k]
        }),
{
    let s2 = CarbonRegistryContract::register_result(s, admin, project_id, name, metadata_cid,
        verifier_address, methodology, country, project_type, vintage_year, methodology_score,
        metadata_hash, now)->Ok_0;
    assert(s2.projects.dom() =~= s.projects.dom().insert(project_id@));
}

} // verus!
