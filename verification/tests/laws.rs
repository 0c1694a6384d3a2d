//! The library's laws checked on concrete values, with the error variants
//! and edge cases the entry points handle.

use carbon_ledger::credit::{CarbonCreditContract, CarbonError as CreditError, CreditStatus, SerialRange};
use carbon_ledger::marketplace::{CarbonError as MarketError, CarbonMarketplaceContract, ListingStatus};
use carbon_ledger::registry::{CarbonError as RegistryError, CarbonRegistryContract};

/// 2025-01-01T00:00:00Z
const T2025: u64 = 1_735_689_600;
const PRICE: i128 = 100_000_000;

fn s(v: &str) -> String {
    v.to_string()
}

fn addr(tag: &str) -> String {
    format!("G{}", tag.to_uppercase())
}

// ── credit ──────────────────────────────────────────────────────────────────

fn credit() -> (CarbonCreditContract, String) {
    let mut c = CarbonCreditContract::new();
    let admin = addr("admin");
    c.initialize(admin.clone(), addr("registry")).unwrap();
    (c, admin)
}

fn mint(c: &mut CarbonCreditContract, admin: &String, batch: &str, amount: i128, start: u64, end: u64)
    -> Result<(), CreditError> {
    c.mint_credits(admin, s("proj"), amount, 2023, s(batch), start, end, s("cid"), addr("owner"), T2025)
}

fn retire(c: &mut CarbonCreditContract, batch: &str, amount: i128, id: &str)
    -> Result<carbon_ledger::credit::RetirementCertificate, CreditError> {
    c.retire_credits(&addr("owner"), &s(batch), amount, s("offset"), s("acme"), s(id), s("tx"), s("cert"), T2025)
}

#[test]
fn credit_supply_splits_into_active_and_retired() {
    let (mut c, admin) = credit();
    mint(&mut c, &admin, "b1", 100, 1, 100).unwrap();
    assert_eq!(c.get_credit_batch(&s("b1")).unwrap().status, CreditStatus::Active);

    let cert = retire(&mut c, "b1", 30, "r1").unwrap();
    assert_eq!(cert.serial_numbers, (1..=30).collect::<Vec<u64>>());
    assert_eq!(c.get_credit_batch(&s("b1")).unwrap().status, CreditStatus::PartiallyRetired);

    assert_eq!(retire(&mut c, "b1", 71, "r2").map(|x| x.amount), Err(CreditError::InsufficientCredits));
    let cert = retire(&mut c, "b1", 70, "r2").unwrap();
    assert_eq!(cert.serial_numbers.first(), Some(&31));
    assert_eq!(cert.serial_numbers.last(), Some(&100));
    let batch = c.get_credit_batch(&s("b1")).unwrap();
    assert_eq!(batch.status, CreditStatus::FullyRetired);
    assert_eq!(batch.amount, 100);

    // Fully retired stays fully retired.
    assert_eq!(retire(&mut c, "b1", 1, "r3").map(|x| x.amount), Err(CreditError::AlreadyRetired));
    assert_eq!(c.get_credit_batch(&s("b1")).unwrap().status, CreditStatus::FullyRetired);
}

#[test]
fn credit_certificates_are_permanent() {
    let (mut c, admin) = credit();
    mint(&mut c, &admin, "b1", 100, 1, 100).unwrap();
    retire(&mut c, "b1", 10, "r1").unwrap();
    assert_eq!(retire(&mut c, "b1", 10, "r1").map(|x| x.amount), Err(CreditError::SerialNumberConflict));
    assert_eq!(c.undo_retire(&admin, &s("r1"), T2025), Err(CreditError::RetirementIrreversible));
    let cert = c.get_retirement_certificate(&s("r1")).unwrap();
    assert_eq!(cert.amount, 10);
    assert_eq!(cert.credit_batch_id, s("b1"));
}

#[test]
fn credit_serial_ranges_never_meet() {
    let (mut c, admin) = credit();
    mint(&mut c, &admin, "b1", 100, 1, 100).unwrap();
    assert_eq!(mint(&mut c, &admin, "b2", 100, 100, 199), Err(CreditError::DoubleCountingDetected));
    assert_eq!(mint(&mut c, &admin, "b2", 100, 50, 60), Err(CreditError::DoubleCountingDetected));
    assert_eq!(mint(&mut c, &admin, "b1", 100, 500, 599), Err(CreditError::SerialNumberConflict));
    mint(&mut c, &admin, "b2", 100, 101, 200).unwrap();
    assert!(!c.verify_serial_range(150, 160));
    assert!(c.verify_serial_range(201, 300));
}

#[test]
fn credit_transfer_moves_ownership_only() {
    let (mut c, admin) = credit();
    mint(&mut c, &admin, "b1", 100, 1, 100).unwrap();
    assert_eq!(
        c.transfer_credits(&addr("stranger"), addr("x"), &s("b1"), 100, T2025),
        Err(CreditError::UnauthorizedVerifier)
    );
    assert_eq!(
        c.transfer_credits(&addr("owner"), addr("x"), &s("b1"), 101, T2025),
        Err(CreditError::InsufficientCredits)
    );
    c.transfer_credits(&addr("owner"), addr("buyer"), &s("b1"), 100, T2025).unwrap();
    let b = c.get_credit_batch(&s("b1")).unwrap();
    assert_eq!(b.owner, addr("buyer"));
    assert_eq!(b.amount, 100);
}

#[test]
fn credit_mint_errors() {
    let (mut c, admin) = credit();
    assert_eq!(mint(&mut c, &addr("x"), "b1", 100, 1, 100), Err(CreditError::UnauthorizedVerifier));
    assert_eq!(mint(&mut c, &admin, "b1", 0, 1, 100), Err(CreditError::ZeroAmountNotAllowed));
    assert_eq!(mint(&mut c, &admin, "b1", 100, 0, 100), Err(CreditError::InvalidSerialRange));
    assert_eq!(mint(&mut c, &admin, "b1", 100, 5, 5), Err(CreditError::InvalidSerialRange));
    assert_eq!(mint(&mut c, &admin, "", 100, 1, 100), Err(CreditError::ProjectNotFound));
}

// ── marketplace ─────────────────────────────────────────────────────────────

fn market() -> (CarbonMarketplaceContract, String) {
    let mut c = CarbonMarketplaceContract::new();
    let admin = addr("admin");
    c.initialize(admin.clone(), addr("usdc"), addr("credit"), addr("treasury")).unwrap();
    (c, admin)
}

fn list(c: &mut CarbonMarketplaceContract, id: &str, amount: i128, vintage: u32) {
    c.list_credits(addr("seller"), s(id), s("batch"), s("proj"), amount, PRICE, vintage, s("VCS"), s("BR"), T2025)
        .unwrap();
}

fn fees_total(c: &CarbonMarketplaceContract) -> i128 {
    c.get_fee_accumulator() + c.get_total_fees_swept()
}

#[test]
fn market_fees_are_conserved() {
    let (mut c, _) = market();
    list(&mut c, "l1", 100, 2023);
    let before = fees_total(&c);
    let r = c.purchase_credits(&addr("buyer"), &s("l1"), 10, true, T2025).unwrap();
    let st = &r.settlements[0];
    assert_eq!(st.total_cost, 1_000_000_000);
    assert_eq!(st.protocol_fee, 10_000_000);
    assert_eq!(st.seller_proceeds, 990_000_000);
    assert_eq!(r.swept, None);
    assert_eq!(fees_total(&c), before + 10_000_000);
    assert_eq!(c.get_fee_accumulator(), 10_000_000);
}

#[test]
fn market_threshold_sweeps_whole_accumulator() {
    let (mut c, admin) = market();
    c.set_sweep_threshold(&admin, 15_000_000, T2025).unwrap();
    list(&mut c, "l1", 100, 2023);
    c.purchase_credits(&addr("buyer"), &s("l1"), 10, true, T2025).unwrap();
    let r = c.purchase_credits(&addr("buyer"), &s("l1"), 10, true, T2025).unwrap();
    assert_eq!(r.swept, Some(20_000_000));
    assert_eq!(c.get_fee_accumulator(), 0);
    assert_eq!(c.get_total_fees_swept(), 20_000_000);
}

#[test]
fn market_manual_sweep_moves_accumulator() {
    let (mut c, _) = market();
    list(&mut c, "l1", 100, 2023);
    c.purchase_credits(&addr("buyer"), &s("l1"), 10, true, T2025).unwrap();
    assert_eq!(c.sweep_fees(T2025), Ok(10_000_000));
    assert_eq!(c.get_fee_accumulator(), 0);
    assert_eq!(c.get_total_fees_swept(), 10_000_000);
    assert_eq!(c.sweep_fees(T2025), Ok(0));
}

#[test]
fn market_fee_ledger_only_grows() {
    let (mut c, _) = market();
    list(&mut c, "l1", 100, 2023);
    list(&mut c, "l2", 100, 2023);
    c.purchase_credits(&addr("buyer"), &s("l1"), 10, true, T2025).unwrap();
    assert_eq!(c.get_fee_ledger(), vec![s("fee-0")]);
    assert!(c.purchase_credits(&addr("buyer"), &s("l1"), 1000, true, T2025).is_err());
    assert_eq!(c.get_fee_ledger(), vec![s("fee-0")]);
    c.purchase_credits(&addr("other"), &s("l2"), 5, true, T2025 + 1).unwrap();
    assert_eq!(c.get_fee_ledger(), vec![s("fee-0"), s("fee-1")]);

    // The first record is unchanged by the second purchase.
    let first = c.get_fee_record(&s("fee-0")).unwrap();
    assert_eq!((first.listing_id.as_str(), first.buyer.clone(), first.fee_amount), ("l1", addr("buyer"), 10_000_000));
    let second = c.get_fee_record(&s("fee-1")).unwrap();
    assert_eq!((second.listing_id.as_str(), second.fee_amount, second.recorded_at), ("l2", 5_000_000, T2025 + 1));

    // The history holds every fee collected, in order.
    let history = c.get_fee_history();
    assert_eq!(history.len(), 2);
    assert_eq!(history[0].fee_id, s("fee-0"));
    assert_eq!(history[0].listing_id, s("l1"));
    assert_eq!(history[1].fee_id, s("fee-1"));
    assert_eq!(history[1].listing_id, s("l2"));
}

#[test]
fn market_bulk_purchase_files_one_record_per_item() {
    let (mut c, _) = market();
    list(&mut c, "l1", 100, 2023);
    list(&mut c, "l2", 50, 2023);
    c.purchase_credits(&addr("buyer"), &s("l1"), 1, true, T2025).unwrap();
    let ids = vec![s("l1"), s("l2")];
    c.bulk_purchase(&addr("buyer"), &ids, &vec![10, 50], &vec![true, true], T2025).unwrap();
    assert_eq!(c.get_fee_ledger(), vec![s("fee-0"), s("fee-1"), s("fee-2")]);
    let history = c.get_fee_history();
    let listed: Vec<(String, i128)> = history.iter().map(|r| (r.listing_id.clone(), r.fee_amount)).collect();
    assert_eq!(listed, vec![(s("l1"), 1_000_000), (s("l1"), 10_000_000), (s("l2"), 50_000_000)]);
    for i in 0..12usize {
        c.purchase_credits(&addr("buyer"), &s("l1"), 1, true, T2025).unwrap();
        let _ = i;
    }
    assert_eq!(c.get_fee_ledger()[14], s("fee-14"));
    assert_eq!(c.get_fee_record(&s("fee-10")).unwrap().fee_id, s("fee-10"));
}

#[test]
fn market_listing_never_restocks() {
    let (mut c, _) = market();
    list(&mut c, "l1", 20, 2023);
    c.purchase_credits(&addr("buyer"), &s("l1"), 5, true, T2025).unwrap();
    let l = c.get_listing(&s("l1")).unwrap();
    assert_eq!((l.amount_available, l.status), (15, ListingStatus::PartiallyFilled));
    c.purchase_credits(&addr("buyer"), &s("l1"), 15, true, T2025).unwrap();
    let l = c.get_listing(&s("l1")).unwrap();
    assert_eq!((l.amount_available, l.status), (0, ListingStatus::Sold));
    assert_eq!(
        c.purchase_credits(&addr("buyer"), &s("l1"), 1, true, T2025).map(|r| r.swept),
        Err(MarketError::ListingNotFound)
    );
}

#[test]
fn market_fee_at_most_a_tenth() {
    let (mut c, admin) = market();
    c.set_fee_rate(&admin, 1, 10, T2025).unwrap();
    assert_eq!(c.set_fee_rate(&admin, 11, 100, T2025), Err(MarketError::FeeConfigInvalid));
    list(&mut c, "l1", 100, 2023);
    let r = c.purchase_credits(&addr("buyer"), &s("l1"), 3, true, T2025).unwrap();
    assert_eq!(r.settlements[0].protocol_fee, 30_000_000);
    assert_eq!(r.settlements[0].seller_proceeds, 270_000_000);
}

#[test]
fn market_bulk_purchase_settles_each_item() {
    let (mut c, _) = market();
    list(&mut c, "l1", 100, 2023);
    list(&mut c, "l2", 50, 2023);
    let ids = vec![s("l1"), s("l2")];
    let r = c.bulk_purchase(&addr("buyer"), &ids, &vec![10, 50], &vec![true, true], T2025).unwrap();
    assert_eq!(r.settlements.len(), 2);
    assert_eq!(r.settlements[1].amount, 50);
    assert_eq!(c.get_listing(&s("l1")).unwrap().amount_available, 90);
    assert_eq!(c.get_listing(&s("l2")).unwrap().status, ListingStatus::Sold);
    assert_eq!(c.get_fee_accumulator(), 60_000_000);
    assert_eq!(c.get_fee_ledger().len(), 2);
}

#[test]
fn market_bulk_purchase_is_all_or_nothing() {
    let (mut c, _) = market();
    list(&mut c, "l1", 100, 2023);
    list(&mut c, "l2", 50, 2023);
    let ids = vec![s("l1"), s("l2")];
    assert_eq!(
        c.bulk_purchase(&addr("buyer"), &ids, &vec![10, 51], &vec![true, true], T2025).map(|r| r.swept),
        Err(MarketError::InsufficientLiquidity)
    );
    assert_eq!(c.get_listing(&s("l1")).unwrap().amount_available, 100);
    assert_eq!(c.get_fee_accumulator(), 0);
    assert!(c.get_fee_ledger().is_empty());
}

#[test]
fn market_bulk_purchase_mixed_vintages_refused() {
    let (mut c, _) = market();
    list(&mut c, "l1", 100, 2023);
    list(&mut c, "l2", 100, 2022);
    let ids = vec![s("l1"), s("l2")];
    assert_eq!(
        c.bulk_purchase(&addr("buyer"), &ids, &vec![1, 1], &vec![true, true], T2025).map(|r| r.swept),
        Err(MarketError::InvalidVintageYear)
    );
}

#[test]
fn market_stale_price_is_refused_once_an_oracle_is_set() {
    let (mut c, admin) = market();
    list(&mut c, "l1", 100, 2023);
    c.set_oracle_contract(&admin, addr("oracle")).unwrap();
    assert_eq!(
        c.purchase_credits(&addr("buyer"), &s("l1"), 1, false, T2025).map(|r| r.swept),
        Err(MarketError::MonitoringDataStale)
    );
    let ids = vec![s("l1")];
    assert_eq!(
        c.bulk_purchase(&addr("buyer"), &ids, &vec![1], &vec![false], T2025).map(|r| r.swept),
        Err(MarketError::CircuitBreakerTripped)
    );
    assert!(c.purchase_credits(&addr("buyer"), &s("l1"), 1, true, T2025).is_ok());
}

#[test]
fn market_pause_blocks_purchases_until_window_ends() {
    let (mut c, admin) = market();
    list(&mut c, "l1", 100, 2023);
    c.pause_operations(&admin, T2025 + 100, T2025).unwrap();
    assert_eq!(
        c.purchase_credits(&addr("buyer"), &s("l1"), 1, true, T2025 + 50).map(|r| r.swept),
        Err(MarketError::EmergencyPaused)
    );
    assert!(c.purchase_credits(&addr("buyer"), &s("l1"), 1, true, T2025 + 101).is_ok());
}

#[test]
fn market_invalid_pause_window_refused() {
    let (mut c, admin) = market();
    assert_eq!(c.pause_operations(&admin, T2025, T2025), Err(MarketError::InvalidPauseWindow));
}

#[test]
fn market_error_codes() {
    assert_eq!(MarketError::ProjectNotFound.code(), 1);
    assert_eq!(MarketError::EmergencyPaused.code(), 27);
    assert_eq!(MarketError::ListingExpired.code(), 29);
}

// ── registry ────────────────────────────────────────────────────────────────

fn registry() -> (CarbonRegistryContract, String, String) {
    let mut c = CarbonRegistryContract::new();
    let admin = addr("admin");
    let oracle = addr("oracle");
    c.initialize(admin.clone(), oracle.clone(), vec![addr("verifier")]).unwrap();
    c.register_project(&admin, s("p"), s("n"), s("cid"), addr("verifier"), s("VCS"), s("BR"), s("forestry"), 2023,
        75, [0u8; 32], T2025)
        .unwrap();
    (c, admin, oracle)
}

#[test]
fn registry_retired_never_exceeds_issued() {
    let (mut c, admin, oracle) = registry();
    c.increment_issued(&oracle, &s("p"), 100).unwrap();
    c.retire_credits(&admin, &s("p"), 60).unwrap();
    assert!(c.retire_credits(&admin, &s("p"), 41).is_err());
    c.retire_credits(&admin, &s("p"), 40).unwrap();
    let p = c.get_project(&s("p")).unwrap();
    assert_eq!((p.total_credits_issued, p.total_credits_retired), (100, 100));
}

#[test]
fn registry_serial_ranges_stay_disjoint() {
    let (mut c, admin, _) = registry();
    c.register_serial_range(&admin, 1, 100).unwrap();
    assert_eq!(c.register_serial_range(&admin, 100, 150), Err(RegistryError::DuplicateSerial));
    c.register_serial_range(&admin, 101, 150).unwrap();
    let ranges = c.get_issued_serial_ranges();
    assert_eq!(ranges.iter().map(|r| (r.start, r.end)).collect::<Vec<_>>(), vec![(1, 100), (101, 150)]);
}

#[test]
fn registry_upgrade_needs_threshold_of_distinct_signers() {
    let (mut c, admin, _) = registry();
    let (a, b) = (addr("s1"), addr("s2"));
    c.initialize_multisig(&admin, vec![a.clone(), b.clone(), addr("s3")], 2).unwrap();
    let id = c.propose_upgrade(&a, [9u8; 32], 10).unwrap();
    assert!(c.approve_upgrade(&a, id, 10, T2025).is_err());
    assert_eq!(c.get_version(), 1);
    assert_eq!(c.approve_upgrade(&b, id, 10, T2025), Ok(true));
    assert_eq!(c.get_version(), 2);
}

#[test]
fn registry_oracle_suspension_is_idempotent() {
    let (mut c, _, oracle) = registry();
    assert_eq!(c.oracle_suspend_project(&oracle, &s("p"), &s("stale")), Ok(true));
    assert_eq!(c.oracle_suspend_project(&oracle, &s("p"), &s("stale")), Ok(false));
    assert_eq!(c.oracle_suspend_project(&addr("x"), &s("p"), &s("stale")), Err(RegistryError::UnauthorizedOracle));
}

#[test]
fn credit_pause_stops_credit_movements() {
    let (mut c, admin) = credit();
    mint(&mut c, &admin, "b1", 100, 1, 100).unwrap();
    c.pause_operations(&admin, T2025 + 100, T2025).unwrap();
    assert_eq!(mint(&mut c, &admin, "b2", 100, 200, 299), Err(CreditError::EmergencyPaused));
    assert_eq!(retire(&mut c, "b1", 1, "r1").map(|x| x.amount), Err(CreditError::EmergencyPaused));
    assert_eq!(
        c.transfer_credits(&addr("owner"), addr("x"), &s("b1"), 1, T2025),
        Err(CreditError::EmergencyPaused)
    );
    c.unpause_operations(&admin).unwrap();
    retire(&mut c, "b1", 1, "r1").unwrap();
}

#[test]
fn credit_history_stays_within_cap() {
    let (mut c, admin) = credit();
    c.set_max_history_entries(&admin, 3, T2025).unwrap();
    let mut pruned = 0u32;
    for i in 0..12u8 {
        if let Some(ev) = c.upgrade_contract(&admin, [i; 32], T2025).unwrap() {
            assert_eq!(ev.remaining, 10);
            pruned += ev.entries_pruned;
        }
    }
    let page = c.get_upgrade_history_page(0, 50).unwrap();
    assert_eq!(page.len(), 10);
    assert_eq!(pruned, 2);
    assert_eq!(page[0].wasm_hash, [2u8; 32]);
    assert_eq!(c.get_upgrade_history().unwrap().wasm_hash, [11u8; 32]);
    assert_eq!(c.get_version(), 13);
}

#[test]
fn registry_history_stays_within_cap() {
    let (mut c, admin, _) = registry();
    let ev = c.set_max_history_entries(&admin, 500, T2025).unwrap();
    assert!(ev.is_none());
    for i in 0..5u8 {
        c.upgrade_contract(&admin, [i; 32], T2025).unwrap();
    }
    let ev = c.set_max_history_entries(&admin, 0, T2025).unwrap();
    assert!(ev.is_none());
    assert_eq!(c.get_upgrade_history_page(0, 50).unwrap().len(), 5);
    assert_eq!(c.get_upgrade_history_page(0, 0).map(|p| p.len()), Err(RegistryError::PageSizeTooLarge));
}

#[test]
fn market_pause_stops_listing() {
    let (mut c, admin) = market();
    c.pause_operations(&admin, T2025 + 10, T2025).unwrap();
    assert_eq!(
        c.list_credits(addr("seller"), s("l1"), s("b"), s("p"), 1, PRICE, 2023, s("VCS"), s("BR"), T2025),
        Err(MarketError::EmergencyPaused)
    );
}

#[test]
fn credit_legacy_serials_are_migrated_and_still_guarded() {
    let mut c = CarbonCreditContract::with_legacy_serials(vec![
        SerialRange { start: 1, end: 100 },
        SerialRange { start: 200, end: 300 },
        SerialRange { start: 400, end: 400 },
    ]);
    let admin = addr("admin");
    c.initialize(admin.clone(), addr("registry")).unwrap();
    assert_eq!(c.serial_index_pending_migration(), 3);
    assert_eq!(c.serial_index_size(), 0);
    assert!(!c.verify_serial_range(250, 260));
    assert_eq!(mint(&mut c, &admin, "b1", 10, 95, 104), Err(CreditError::DoubleCountingDetected));

    assert_eq!(c.migrate_serial_index(&admin, 0, T2025), Err(CreditError::ZeroAmountNotAllowed));
    assert_eq!(c.migrate_serial_index(&addr("x"), 1, T2025), Err(CreditError::UnauthorizedVerifier));
    assert_eq!(c.migrate_serial_index(&admin, 2, T2025), Ok(2));
    assert_eq!((c.serial_index_size(), c.serial_index_pending_migration()), (2, 1));
    assert_eq!(c.migrate_serial_index(&admin, 5, T2025), Ok(1));
    assert_eq!(c.migrate_serial_index(&admin, 5, T2025), Ok(0));
    assert_eq!((c.serial_index_size(), c.serial_index_pending_migration()), (3, 0));

    assert!(!c.verify_serial_range(400, 400));
    assert_eq!(mint(&mut c, &admin, "b1", 10, 300, 309), Err(CreditError::DoubleCountingDetected));
    mint(&mut c, &admin, "b1", 10, 101, 110).unwrap();
    assert_eq!(c.serial_index_size(), 4);
}

#[test]
fn registry_executed_upgrade_is_recorded_in_history() {
    let (mut c, admin, _) = registry();
    let (a, b) = (addr("s1"), addr("s2"));
    c.initialize_multisig(&admin, vec![a.clone(), b.clone(), addr("s3")], 2).unwrap();
    c.upgrade_contract(&admin, [1u8; 32], T2025).unwrap();
    let id = c.propose_upgrade(&a, [9u8; 32], 10).unwrap();
    assert_eq!(c.approve_upgrade(&b, id, 10, T2025 + 5), Ok(true));
    assert_eq!(c.get_version(), 3);
    let rec = c.get_upgrade_history().unwrap();
    assert_eq!((rec.from_version, rec.to_version, rec.timestamp), (2, 3, T2025 + 5));
    assert_eq!((rec.upgraded_by.clone(), rec.wasm_hash), (b.clone(), [9u8; 32]));
    assert_eq!(c.get_upgrade_history_page(0, 50).unwrap().len(), 2);
    assert_eq!(c.approve_upgrade(&addr("s3"), id, 10, T2025), Err(RegistryError::ProposalNotFound));
    // The admin can still record upgrades afterwards.
    c.upgrade_contract(&admin, [2u8; 32], T2025 + 9).unwrap();
    assert_eq!(c.get_upgrade_history().unwrap().from_version, 3);
    assert_eq!(c.get_upgrade_history_page(0, 50).unwrap().len(), 3);
}
