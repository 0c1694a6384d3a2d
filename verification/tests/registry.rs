use carbon_ledger::registry::{CarbonError, CarbonRegistryContract, ProjectStatus, MAX_PROJECTS_PER_ADMIN};

/// 2025-01-01T00:00:00Z
const T2025: u64 = 1_735_689_600;
/// 2026-01-01T00:00:00Z
const T2026: u64 = 1_767_225_600;

fn s(v: &str) -> String {
    v.to_string()
}

fn addr(tag: &str) -> String {
    format!("G{}", tag.to_uppercase())
}

struct Setup {
    c: CarbonRegistryContract,
    admin: String,
    oracle: String,
    verifier: String,
}

fn setup() -> Setup {
    let mut c = CarbonRegistryContract::new();
    let admin = addr("admin");
    let oracle = addr("oracle");
    let verifier = addr("verifier");
    c.initialize(admin.clone(), oracle.clone(), vec![verifier.clone()]).unwrap();
    Setup { c, admin, oracle, verifier }
}

fn register_full(
    c: &mut CarbonRegistryContract,
    admin: &String,
    project_id: &str,
    name: &str,
    cid: &str,
    country: &str,
    vintage: u32,
    score: u32,
    hash: [u8; 32],
    now: u64,
) -> Result<(), CarbonError> {
    c.register_project(admin, s(project_id), s(name), s(cid), addr("projverifier"), s("VCS"), s(country),
        s("forestry"), vintage, score, hash, now)
}

fn register(c: &mut CarbonRegistryContract, admin: &String) {
    register_full(c, admin, "proj-001", "Amazon Reforestation", "QmCID123", "Brazil", 2023, 75, [0u8; 32], T2025)
        .unwrap();
}

fn register_proj(c: &mut CarbonRegistryContract, admin: &String, id: &str) {
    register_full(c, admin, id, "Test Project", "QmCID", "Brazil", 2023, 75, [0u8; 32], T2025).unwrap();
}

#[test]
fn test_register_project_valid() {
    let mut t = setup();
    register(&mut t.c, &t.admin);
    let p = t.c.get_project(&s("proj-001")).unwrap();
    assert_eq!(p.status, ProjectStatus::Pending);
    assert_eq!(p.vintage_year, 2023);
}

#[test]
fn test_register_duplicate_fails() {
    let mut t = setup();
    register(&mut t.c, &t.admin);
    let result = register_full(&mut t.c, &t.admin, "proj-001", "Dup", "cid", "Brazil", 2023, 75, [1u8; 32], T2025);
    assert!(result.is_err());
}

#[test]
fn test_verifier_approves_project() {
    let mut t = setup();
    register(&mut t.c, &t.admin);
    t.c.verify_project(&t.verifier, &s("proj-001")).unwrap();
    let p = t.c.get_project(&s("proj-001")).unwrap();
    assert_eq!(p.status, ProjectStatus::Verified);
}

#[test]
fn test_unauthorized_verifier_rejected() {
    let mut t = setup();
    register(&mut t.c, &t.admin);
    let rogue = addr("rogue");
    let result = t.c.verify_project(&rogue, &s("proj-001"));
    assert!(result.is_err());
}

#[test]
fn test_verifier_rejects_project() {
    let mut t = setup();
    register(&mut t.c, &t.admin);
    t.c.reject_project(&t.verifier, &s("proj-001"), &s("fraud")).unwrap();
    let p = t.c.get_project(&s("proj-001")).unwrap();
    assert_eq!(p.status, ProjectStatus::Rejected);
}

#[test]
fn test_oracle_updates_status() {
    let mut t = setup();
    register(&mut t.c, &t.admin);
    t.c.update_project_status(&t.oracle, &s("proj-001"), ProjectStatus::Completed).unwrap();
    let p = t.c.get_project(&s("proj-001")).unwrap();
    assert_eq!(p.status, ProjectStatus::Completed);
}

#[test]
fn test_admin_suspends_project() {
    let mut t = setup();
    register(&mut t.c, &t.admin);
    t.c.suspend_project(&t.admin, &s("proj-001"), &s("investigation")).unwrap();
    let p = t.c.get_project(&s("proj-001")).unwrap();
    assert_eq!(p.status, ProjectStatus::Suspended);
}

#[test]
fn test_get_project_returns_correct_data() {
    let mut t = setup();
    register(&mut t.c, &t.admin);
    let p = t.c.get_project(&s("proj-001")).unwrap();
    assert_eq!(p.project_id, s("proj-001"));
    assert_eq!(p.country, s("Brazil"));
    assert_eq!(p.total_credits_issued, 0);
}

#[test]
fn test_register_score_too_low_fails() {
    let mut t = setup();
    let result = register_full(&mut t.c, &t.admin, "proj-low", "Low Score", "cid", "Brazil", 2023, 69, [1u8; 32], T2025);
    assert_eq!(result, Err(CarbonError::MethodologyScoreLow));
}

#[test]
fn test_register_score_minimum_succeeds() {
    let mut t = setup();
    register_full(&mut t.c, &t.admin, "proj-min", "Min Score", "cid", "Brazil", 2023, 70, [0u8; 32], T2025).unwrap();
    let p = t.c.get_project(&s("proj-min")).unwrap();
    assert_eq!(p.methodology_score, 70);
}

#[test]
fn test_registering_past_project_cap_fails() {
    let mut t = setup();
    for index in 0..MAX_PROJECTS_PER_ADMIN {
        let project_id = format!("proj-{index}");
        register_full(&mut t.c, &t.admin, &project_id, "Project", "cid", "Brazil", 2023, 75, [0u8; 32], T2025)
            .unwrap();
    }
    let result = register_full(&mut t.c, &t.admin, "proj-cap-exceeded", "Overflow", "cid", "Brazil", 2023, 75,
        [0u8; 32], T2025);
    assert_eq!(result.unwrap_err(), CarbonError::StorageLimitExceeded);
}

#[test]
fn test_initialize_twice_fails() {
    let mut c = CarbonRegistryContract::new();
    let admin = addr("admin");
    let oracle = addr("oracle");
    let verifier = addr("verifier");
    c.initialize(admin.clone(), oracle.clone(), vec![verifier.clone()]).unwrap();
    let result = c.initialize(admin, oracle, vec![verifier]);
    assert!(result.is_err());
}

#[test]
fn test_overflow_increment_issued_graceful_error() {
    let mut t = setup();
    register(&mut t.c, &t.admin);
    t.c.increment_issued(&t.oracle, &s("proj-001"), 10).unwrap();
    let result = t.c.increment_issued(&t.oracle, &s("proj-001"), i128::MAX);
    assert_eq!(result.unwrap_err(), CarbonError::InvalidSerialRange);
}

#[test]
fn test_retire_credits_success() {
    let mut t = setup();
    register(&mut t.c, &t.admin);
    t.c.verify_project(&t.verifier, &s("proj-001")).unwrap();
    t.c.increment_issued(&t.oracle, &s("proj-001"), 1000).unwrap();
    t.c.retire_credits(&t.admin, &s("proj-001"), 300).unwrap();
    let p = t.c.get_project(&s("proj-001")).unwrap();
    assert_eq!(p.total_credits_retired, 300);
}

#[test]
fn test_retire_exact_issued_amount_succeeds() {
    let mut t = setup();
    register(&mut t.c, &t.admin);
    t.c.increment_issued(&t.oracle, &s("proj-001"), 500).unwrap();
    t.c.retire_credits(&t.admin, &s("proj-001"), 500).unwrap();
    let p = t.c.get_project(&s("proj-001")).unwrap();
    assert_eq!(p.total_credits_retired, 500);
    assert_eq!(p.total_credits_retired, p.total_credits_issued);
}

#[test]
fn test_retire_credits_cannot_exceed_issued() {
    let mut t = setup();
    register(&mut t.c, &t.admin);
    t.c.verify_project(&t.verifier, &s("proj-001")).unwrap();
    t.c.increment_issued(&t.oracle, &s("proj-001"), 100).unwrap();
    let result = t.c.retire_credits(&t.admin, &s("proj-001"), 200);
    assert_eq!(result.unwrap_err(), CarbonError::InsufficientCredits);
}

#[test]
fn lib_test_upgrade_admin_only() {
    let mut c = CarbonRegistryContract::new();
    c.initialize(addr("admin"), addr("oracle"), vec![addr("verifier")]).unwrap();
    let attacker = addr("attacker");
    let result = c.upgrade_contract(&attacker, [0u8; 32], 0);
    assert!(result.is_err());
}

#[test]
fn lib_test_version_tracking() {
    let mut c = CarbonRegistryContract::new();
    c.initialize(addr("admin"), addr("oracle"), vec![addr("verifier")]).unwrap();
    assert_eq!(c.get_version(), 1);
}

#[test]
fn test_get_nonexistent_project_returns_not_found() {
    let t = setup();
    let result = t.c.get_project(&s("does-not-exist"));
    assert_eq!(result.unwrap_err(), CarbonError::ProjectNotFound);
}

#[test]
fn test_verify_nonexistent_project_returns_not_found() {
    let mut t = setup();
    let result = t.c.verify_project(&t.verifier, &s("ghost"));
    assert_eq!(result.unwrap_err(), CarbonError::ProjectNotFound);
}

#[test]
fn test_reject_nonexistent_project_returns_not_found() {
    let mut t = setup();
    let result = t.c.reject_project(&t.verifier, &s("ghost"), &s("fraud"));
    assert_eq!(result.unwrap_err(), CarbonError::ProjectNotFound);
}

#[test]
fn test_suspend_nonexistent_project_returns_not_found() {
    let mut t = setup();
    let result = t.c.suspend_project(&t.admin, &s("ghost"), &s("reason"));
    assert_eq!(result.unwrap_err(), CarbonError::ProjectNotFound);
}

#[test]
fn test_register_duplicate_project_id_fails() {
    let mut t = setup();
    register_proj(&mut t.c, &t.admin, "dup-proj");
    let result = register_full(&mut t.c, &t.admin, "dup-proj", "Dup", "cid", "BR", 2023, 75, [0u8; 32], T2025);
    assert_eq!(result.unwrap_err(), CarbonError::ProjectAlreadyExists);
}

#[test]
fn test_vintage_year_1989_rejected() {
    let mut t = setup();
    let result = register_full(&mut t.c, &t.admin, "p1", "N", "cid", "BR", 1989, 75, [0u8; 32], T2025);
    assert_eq!(result.unwrap_err(), CarbonError::InvalidVintageYear);
}

#[test]
fn test_vintage_year_1990_accepted() {
    let mut t = setup();
    register_full(&mut t.c, &t.admin, "p1990", "N", "cid", "BR", 1990, 75, [0u8; 32], T2026).unwrap();
}

#[test]
fn test_methodology_score_zero_rejected() {
    let mut t = setup();
    let result = register_full(&mut t.c, &t.admin, "p1", "N", "cid", "BR", 2023, 0, [0u8; 32], T2025);
    assert_eq!(result.unwrap_err(), CarbonError::MethodologyScoreLow);
}

#[test]
fn test_methodology_score_69_rejected() {
    let mut t = setup();
    let result = register_full(&mut t.c, &t.admin, "p1", "N", "cid", "BR", 2023, 69, [0u8; 32], T2025);
    assert_eq!(result.unwrap_err(), CarbonError::MethodologyScoreLow);
}

#[test]
fn test_non_verifier_cannot_verify_project() {
    let mut t = setup();
    register_proj(&mut t.c, &t.admin, "p1");
    let rogue = addr("rogue");
    let result = t.c.verify_project(&rogue, &s("p1"));
    assert_eq!(result.unwrap_err(), CarbonError::UnauthorizedVerifier);
}

#[test]
fn test_non_verifier_cannot_reject_project() {
    let mut t = setup();
    register_proj(&mut t.c, &t.admin, "p1");
    let rogue = addr("rogue");
    let result = t.c.reject_project(&rogue, &s("p1"), &s("fraud"));
    assert_eq!(result.unwrap_err(), CarbonError::UnauthorizedVerifier);
}

#[test]
fn lib_test_non_admin_cannot_suspend_project() {
    let mut t = setup();
    register_proj(&mut t.c, &t.admin, "p1");
    let rogue = addr("rogue");
    let result = t.c.suspend_project(&rogue, &s("p1"), &s("reason"));
    assert_eq!(result.unwrap_err(), CarbonError::UnauthorizedVerifier);
}

#[test]
fn test_non_oracle_cannot_update_project_status() {
    let mut t = setup();
    register_proj(&mut t.c, &t.admin, "p1");
    let rogue = addr("rogue");
    let result = t.c.update_project_status(&rogue, &s("p1"), ProjectStatus::Completed);
    assert_eq!(result.unwrap_err(), CarbonError::UnauthorizedOracle);
}

#[test]
fn test_non_oracle_cannot_increment_issued() {
    let mut t = setup();
    register_proj(&mut t.c, &t.admin, "p1");
    let rogue = addr("rogue");
    let result = t.c.increment_issued(&rogue, &s("p1"), 100);
    assert_eq!(result.unwrap_err(), CarbonError::UnauthorizedOracle);
}

#[test]
fn lib_test_double_initialize_fails() {
    let mut t = setup();
    let result = t.c.initialize(t.admin.clone(), t.oracle.clone(), vec![t.verifier.clone()]);
    assert_eq!(result.unwrap_err(), CarbonError::AlreadyInitialized);
}

#[test]
fn test_oracle_suspend_project_unauthorized_when_invoker_is_not_oracle() {
    let mut t = setup();
    register_proj(&mut t.c, &t.admin, "p1");
    let invoker = addr("testinvoker");
    let result = t.c.oracle_suspend_project(&invoker, &s("p1"), &s("reason"));
    assert_eq!(result.unwrap_err(), CarbonError::UnauthorizedOracle);
}

struct Multisig {
    c: CarbonRegistryContract,
    signer1: String,
    signer2: String,
}

const SEQ: u32 = 100;

fn setup_multisig() -> Multisig {
    let mut c = CarbonRegistryContract::new();
    let admin = addr("admin");
    let signer1 = addr("signer1");
    let signer2 = addr("signer2");
    let signer3 = addr("signer3");
    c.initialize(admin.clone(), addr("oracle"), vec![signer1.clone()]).unwrap();
    c.initialize_multisig(&admin, vec![signer1.clone(), signer2.clone(), signer3], 2).unwrap();
    Multisig { c, signer1, signer2 }
}

#[test]
fn test_multisig_exact_threshold() {
    let mut m = setup_multisig();
    let proposal_id = m.c.propose_upgrade(&m.signer1, [1u8; 32], SEQ).unwrap();
    assert_eq!(proposal_id, 1u32);
    let pending = m.c.get_pending_upgrade().unwrap();
    assert_eq!(pending.approvals.len(), 1);
    assert!(!pending.executed);
    let executed = m.c.approve_upgrade(&m.signer2, 1, SEQ, T2025).unwrap();
    assert!(executed);
    let pending_after = m.c.get_pending_upgrade().unwrap();
    assert!(pending_after.executed);
}

#[test]
fn test_multisig_below_threshold() {
    let mut m = setup_multisig();
    m.c.propose_upgrade(&m.signer1, [2u8; 32], SEQ).unwrap();
    let pending = m.c.get_pending_upgrade().unwrap();
    assert_eq!(pending.approvals.len(), 1);
    assert!(!pending.executed);
}

#[test]
fn test_multisig_expired_proposal() {
    let mut m = setup_multisig();
    m.c.propose_upgrade(&m.signer1, [3u8; 32], SEQ).unwrap();
    let result = m.c.approve_upgrade(&m.signer2, 1, SEQ + 518_401, T2025);
    assert_eq!(result.unwrap_err(), CarbonError::ProposalExpired);
}

#[test]
fn test_multisig_duplicate_approval_rejected() {
    let mut m = setup_multisig();
    m.c.propose_upgrade(&m.signer1, [4u8; 32], SEQ).unwrap();
    let signer1 = m.signer1.clone();
    let result = m.c.approve_upgrade(&signer1, 1, SEQ, T2025);
    assert_eq!(result.unwrap_err(), CarbonError::DuplicateApproval);
}

#[test]
fn test_multisig_non_signer_cannot_propose() {
    let mut m = setup_multisig();
    let outsider = addr("outsider");
    let result = m.c.propose_upgrade(&outsider, [5u8; 32], SEQ);
    assert_eq!(result.unwrap_err(), CarbonError::UnauthorizedUpgrade);
}

#[test]
fn test_multisig_cancel_upgrade() {
    let mut m = setup_multisig();
    m.c.propose_upgrade(&m.signer1, [6u8; 32], SEQ).unwrap();
    m.c.cancel_upgrade(&m.signer2, 1).unwrap();
    let pending = m.c.get_pending_upgrade();
    assert!(pending.is_none());
}

fn setup_with_project(hash: [u8; 32]) -> CarbonRegistryContract {
    let mut c = CarbonRegistryContract::new();
    let admin = addr("admin");
    c.initialize(admin.clone(), addr("oracle"), vec![addr("verifier")]).unwrap();
    c.register_project(
        &admin,
        s("proj-hash-test"),
        s("Hash Test Project"),
        s("bafybeigdyrzt5sfp7udm7hu76uh7y26nf3efuylqabf3oclgtqy55fbzdi"),
        addr("projverifier"),
        s("VCS"),
        s("Brazil"),
        s("forestry"),
        2024,
        85,
        hash,
        T2025,
    )
    .unwrap();
    c
}

#[test]
fn test_verify_metadata_integrity_match() {
    let correct_hash = [0xabu8; 32];
    let c = setup_with_project(correct_hash);
    let result = c.verify_metadata_integrity(&s("proj-hash-test"), &correct_hash);
    assert!(result, "Expected integrity check to return true for matching hash");
}

#[test]
fn test_verify_metadata_integrity_mismatch() {
    let correct_hash = [0xabu8; 32];
    let wrong_hash = [0xcdu8; 32];
    let c = setup_with_project(correct_hash);
    let result = c.verify_metadata_integrity(&s("proj-hash-test"), &wrong_hash);
    assert!(!result, "Expected integrity check to return false for mismatched hash");
}

#[test]
fn test_verify_metadata_integrity_missing_project() {
    let any_hash = [0x00u8; 32];
    let correct_hash = [0xabu8; 32];
    let c = setup_with_project(correct_hash);
    let result = c.verify_metadata_integrity(&s("project-does-not-exist"), &any_hash);
    assert!(!result, "Expected integrity check to return false for non-existent project");
}
