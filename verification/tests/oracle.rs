use carbon_ledger::oracle::{
    get_current_year, CarbonError, CarbonOracleContract, PRICE_STALENESS_SECS, PRICE_TIMELOCK_DELAY_SECS,
    TIMELOCK_DELAY, VINTAGE_YEAR_MIN,
};
use carbon_ledger::registry::{CarbonRegistryContract, ProjectStatus};

/// 2025-01-01T00:00:00Z
const T2025: u64 = 1_735_689_600;
const KEY: [u8; 32] = [42u8; 32];

fn s(v: &str) -> String {
    v.to_string()
}

fn addr(tag: &str) -> String {
    format!("G{}", tag.to_uppercase())
}

struct Setup {
    c: CarbonOracleContract,
    admin: String,
    oracle: String,
}

fn setup_at(now: u64) -> Setup {
    let _ = now;
    let mut c = CarbonOracleContract::new();
    let admin = addr("admin");
    let oracle = addr("oracle");
    c.initialize(admin.clone(), oracle.clone(), KEY, addr("registry")).unwrap();
    Setup { c, admin, oracle }
}

fn setup() -> Setup {
    setup_at(T2025)
}

/// The timestamp one day into `year`, as the vintage tests set the ledger.
fn year_start(year: u32) -> u64 {
    (year as u64 - 1970) * 31_557_600 + 86_400
}

/// The pre-signature checks pass and hand out the key the signature must
/// verify against.
fn signed_ok(t: &Setup, nonce: u64) {
    assert_eq!(t.c.authorize_signed(&t.oracle, nonce), Ok(KEY));
}

fn submit(t: &mut Setup, project_id: &str, period: &str, tonnes: i128, nonce: u64, now: u64) {
    signed_ok(t, nonce);
    let oracle = t.oracle.clone();
    t.c.submit_monitoring_data(&oracle, s(project_id), s(period), tonnes, 85, s("QmCID"), nonce, now).unwrap();
}

fn propose(t: &mut Setup, method: &str, vintage: u32, price: i128, nonce: u64, now: u64) {
    signed_ok(t, nonce);
    let oracle = t.oracle.clone();
    t.c.propose_price(&oracle, s(method), vintage, price, nonce, now).unwrap();
}

fn propose_update(t: &mut Setup, method: &str, vintage: u32, price: i128, nonce: u64, now: u64) -> u64 {
    signed_ok(t, nonce);
    let oracle = t.oracle.clone();
    t.c.propose_price_update(&oracle, s(method), vintage, price, nonce, now).unwrap()
}

fn propose_and_execute(t: &mut Setup, method: &str, vintage: u32, price: i128, nonce: u64) {
    propose(t, method, vintage, price, nonce, T2025);
    let oracle = t.oracle.clone();
    t.c.execute_price(&oracle, &s(method), vintage, T2025 + PRICE_TIMELOCK_DELAY_SECS).unwrap();
}

fn try_update_price(t: &mut Setup, vintage: u32, nonce: u64, now: u64) -> Result<(), CarbonError> {
    let oracle = t.oracle.clone();
    t.c.update_credit_price(&oracle, s("VCS"), vintage, 250_000_000, nonce, now)
}

// ── propose_price / execute_price ────────────────────────────────────────────

#[test]
fn test_propose_price_stores_pending_proposal() {
    let mut t = setup();
    propose(&mut t, "VCS", 2023, 250_000_000, 0, T2025);
    let proposal = t.c.get_pending_proposal(&s("VCS"), 2023);
    assert!(proposal.is_some(), "proposal should be stored");
    let p = proposal.unwrap();
    assert_eq!(p.price_usdc, 250_000_000);
    assert_eq!(p.vintage_year, 2023);
}

#[test]
fn test_execute_price_before_timelock_returns_error() {
    let mut t = setup();
    propose(&mut t, "VCS", 2023, 250_000_000, 0, T2025);
    let oracle = t.oracle.clone();
    assert_eq!(t.c.execute_price(&oracle, &s("VCS"), 2023, T2025), Err(CarbonError::TimelockNotExpired));
}

#[test]
fn test_execute_price_after_24h_succeeds() {
    let mut t = setup();
    propose(&mut t, "VCS", 2023, 250_000_000, 0, T2025);
    let oracle = t.oracle.clone();
    t.c.execute_price(&oracle, &s("VCS"), 2023, T2025 + PRICE_TIMELOCK_DELAY_SECS).unwrap();
    assert_eq!(t.c.get_benchmark_price(&s("VCS"), 2023), Ok(250_000_000));
}

#[test]
fn test_execute_price_one_second_before_timelock_fails() {
    let mut t = setup();
    propose(&mut t, "VCS", 2023, 250_000_000, 0, T2025);
    let oracle = t.oracle.clone();
    assert_eq!(
        t.c.execute_price(&oracle, &s("VCS"), 2023, T2025 + PRICE_TIMELOCK_DELAY_SECS - 1),
        Err(CarbonError::TimelockNotExpired)
    );
}

#[test]
fn test_cancel_price_removes_proposal() {
    let mut t = setup();
    propose(&mut t, "VCS", 2023, 250_000_000, 0, T2025);
    let admin = t.admin.clone();
    t.c.cancel_price(&admin, &s("VCS"), 2023).unwrap();
    assert!(t.c.get_pending_proposal(&s("VCS"), 2023).is_none(), "proposal should be removed after cancel");
}

#[test]
fn test_execute_price_after_cancel_returns_error() {
    let mut t = setup();
    propose(&mut t, "VCS", 2023, 250_000_000, 0, T2025);
    let admin = t.admin.clone();
    t.c.cancel_price(&admin, &s("VCS"), 2023).unwrap();
    let oracle = t.oracle.clone();
    assert_eq!(
        t.c.execute_price(&oracle, &s("VCS"), 2023, T2025 + PRICE_TIMELOCK_DELAY_SECS + 1),
        Err(CarbonError::NoPendingProposal)
    );
}

#[test]
fn test_execute_price_with_no_proposal_returns_error() {
    let mut t = setup();
    let oracle = t.oracle.clone();
    assert_eq!(t.c.execute_price(&oracle, &s("VCS"), 2023, T2025), Err(CarbonError::NoPendingProposal));
}

#[test]
fn test_cancel_price_with_no_proposal_returns_error() {
    let mut t = setup();
    let admin = t.admin.clone();
    assert_eq!(t.c.cancel_price(&admin, &s("VCS"), 2023), Err(CarbonError::NoPendingProposal));
}

#[test]
fn test_cancel_price_non_admin_not_authorized() {
    let mut t = setup();
    propose(&mut t, "VCS", 2023, 250_000_000, 0, T2025);
    let impostor = addr("impostor");
    assert_eq!(t.c.cancel_price(&impostor, &s("VCS"), 2023), Err(CarbonError::UnauthorizedVerifier));
}

#[test]
fn test_pending_proposal_cleared_after_execute() {
    let mut t = setup();
    propose(&mut t, "VCS", 2023, 250_000_000, 0, T2025);
    let oracle = t.oracle.clone();
    t.c.execute_price(&oracle, &s("VCS"), 2023, T2025 + PRICE_TIMELOCK_DELAY_SECS).unwrap();
    assert!(
        t.c.get_pending_proposal(&s("VCS"), 2023).is_none(),
        "proposal should be consumed by execute_price"
    );
}

#[test]
fn test_is_price_current_true_after_execute() {
    let mut t = setup();
    propose(&mut t, "VCS", 2023, 250_000_000, 0, T2025);
    let oracle = t.oracle.clone();
    let now = T2025 + PRICE_TIMELOCK_DELAY_SECS;
    t.c.execute_price(&oracle, &s("VCS"), 2023, now).unwrap();
    assert!(t.c.is_price_current(&s("VCS"), 2023, now), "price should be current after successful execute");
}

#[test]
fn test_valid_signature_submission() {
    let mut t = setup();
    signed_ok(&t, 0);
    let oracle = t.oracle.clone();
    t.c.submit_monitoring_data(&oracle, s("proj-001"), s("2023-Q1"), 5000, 85, s("QmSatCID"), 0, T2025).unwrap();
    let data = t.c.get_monitoring_data(&s("proj-001"), &s("2023-Q1")).unwrap();
    assert_eq!(data.tonnes_verified, 5000);
    assert_eq!(data.methodology_score, 85);
}

#[test]
fn test_timelock_error_code() {
    assert_eq!(CarbonError::TimelockNotExpired.code(), 26);
}

#[test]
fn test_no_pending_proposal_error_code() {
    assert_eq!(CarbonError::NoPendingProposal.code(), 27);
}

#[test]
fn test_full_timelock_flow() {
    let mut t = setup();
    let method = s("Gold Standard");
    propose(&mut t, "Gold Standard", 2024, 300_000_000, 0, T2025);

    let pending = t.c.get_pending_proposal(&method, 2024).unwrap();
    assert_eq!(pending.price_usdc, 300_000_000);

    let oracle = t.oracle.clone();
    assert_eq!(t.c.execute_price(&oracle, &method, 2024, T2025), Err(CarbonError::TimelockNotExpired));

    let now = T2025 + PRICE_TIMELOCK_DELAY_SECS;
    t.c.execute_price(&oracle, &method, 2024, now).unwrap();

    assert_eq!(t.c.get_benchmark_price(&method, 2024), Ok(300_000_000));
    assert!(t.c.is_price_current(&method, 2024, now));
    assert!(t.c.get_pending_proposal(&method, 2024).is_none());
}

#[test]
fn test_is_price_current_true_at_exact_24_hour_boundary() {
    let mut t = setup();
    signed_ok(&t, 0);
    try_update_price(&mut t, 2023, 0, T2025).unwrap();
    assert!(
        t.c.is_price_current(&s("VCS"), 2023, T2025 + 24 * 60 * 60),
        "price must still be current at exactly the 24h boundary"
    );
}

#[test]
fn test_is_monitoring_current_true_at_exact_365_day_boundary() {
    let mut t = setup();
    submit(&mut t, "proj-boundary", "2025-Q1", 5000, 0, T2025);
    assert!(
        t.c.is_monitoring_current(&s("proj-boundary"), T2025 + 365 * 24 * 60 * 60),
        "monitoring must still be current at exactly the 365-day boundary"
    );
}

// ── get_total_verified_tonnes ────────────────────────────────────────────────

#[test]
fn test_get_total_verified_tonnes_sums_multiple_periods() {
    let mut t = setup();
    submit(&mut t, "proj-multi", "2023-Q1", 1000, 0, T2025);
    submit(&mut t, "proj-multi", "2023-Q2", 1500, 1, T2025);
    submit(&mut t, "proj-multi", "2023-Q3", 2500, 2, T2025);
    let periods = vec![s("2023-Q1"), s("2023-Q2"), s("2023-Q3")];
    assert_eq!(
        t.c.get_total_verified_tonnes(&s("proj-multi"), &periods),
        5000,
        "total must be the SUM of all periods, not the last one"
    );
}

#[test]
fn test_get_total_verified_tonnes_ignores_unrecorded_periods() {
    let mut t = setup();
    submit(&mut t, "proj-partial", "2023-Q1", 1000, 0, T2025);
    let periods = vec![s("2023-Q1"), s("2023-Q2")];
    assert_eq!(
        t.c.get_total_verified_tonnes(&s("proj-partial"), &periods),
        1000,
        "unrecorded periods must contribute zero, not error"
    );
}

#[test]
fn test_get_total_verified_tonnes_empty_periods_is_zero() {
    let t = setup();
    let periods: Vec<String> = vec![];
    assert_eq!(t.c.get_total_verified_tonnes(&s("proj-empty"), &periods), 0);
}

// ── vintage validation of update_credit_price ───────────────────────────────

fn vintage_result(year: u32, vintage: u32) -> Result<(), CarbonError> {
    let now = year_start(year);
    let mut t = setup_at(now);
    try_update_price(&mut t, vintage, 0, now)
}

#[test]
fn test_oracle_price_vintage_0_rejected() {
    assert_eq!(vintage_result(2026, 0), Err(CarbonError::InvalidVintageYear));
}

#[test]
fn test_oracle_price_vintage_1_rejected() {
    assert_eq!(vintage_result(2026, 1), Err(CarbonError::InvalidVintageYear));
}

#[test]
fn test_oracle_price_vintage_1900_rejected() {
    assert_eq!(vintage_result(2026, 1900), Err(CarbonError::InvalidVintageYear));
}

#[test]
fn test_oracle_price_vintage_1989_rejected() {
    assert_eq!(vintage_result(2026, 1989), Err(CarbonError::InvalidVintageYear));
}

#[test]
fn test_oracle_price_vintage_1990_accepted_when_not_expired() {
    vintage_result(2019, 1990).unwrap();
}

#[test]
fn test_oracle_price_vintage_current_accepted() {
    vintage_result(2026, 2026).unwrap();
}

#[test]
fn test_oracle_price_vintage_current_plus_1_accepted() {
    vintage_result(2026, 2027).unwrap();
}

#[test]
fn test_oracle_price_vintage_current_plus_2_rejected() {
    assert_eq!(vintage_result(2026, 2028), Err(CarbonError::InvalidVintageYear));
}

#[test]
fn test_oracle_price_vintage_u32_max_rejected() {
    assert_eq!(vintage_result(2026, u32::MAX), Err(CarbonError::InvalidVintageYear));
}

#[test]
fn test_oracle_price_expired_vintage_rejected() {
    assert_eq!(vintage_result(2026, 1994), Err(CarbonError::InvalidVintageYear));
}

#[test]
fn test_oracle_price_at_exact_expiry_boundary_rejected() {
    assert_eq!(vintage_result(2026, 1995), Err(CarbonError::InvalidVintageYear));
}

#[test]
fn test_oracle_price_just_inside_expiry_boundary_accepted() {
    vintage_result(2026, 1996).unwrap();
}

#[test]
fn test_oracle_price_far_past_expiry_rejected() {
    assert_eq!(vintage_result(2026, 1990), Err(CarbonError::InvalidVintageYear));
}

#[test]
fn test_oracle_price_vintage_1999_accepted_in_2025() {
    vintage_result(2025, 1999).unwrap();
}

#[test]
fn test_oracle_price_vintage_2000_accepted_in_2025() {
    vintage_result(2025, 2000).unwrap();
}

#[test]
fn test_oracle_price_vintage_2099_accepted_in_2099() {
    vintage_result(2099, 2099).unwrap();
}

#[test]
fn test_oracle_price_vintage_2100_accepted_in_2099() {
    vintage_result(2099, 2100).unwrap();
}

#[test]
fn test_oracle_price_vintage_2101_rejected_in_2099() {
    assert_eq!(vintage_result(2099, 2101), Err(CarbonError::InvalidVintageYear));
}

#[test]
fn test_oracle_vintage_year_min_constant() {
    assert_eq!(VINTAGE_YEAR_MIN, 1990);
}

#[test]
fn test_is_price_current_false_when_never_set() {
    let t = setup();
    assert!(!t.c.is_price_current(&s("VCS"), 2023, T2025));
}

#[test]
fn lib_test_is_price_current_true_after_execute() {
    let mut t = setup();
    propose_and_execute(&mut t, "VCS", 2023, 250_000_000, 0);
    assert!(t.c.is_price_current(&s("VCS"), 2023, T2025 + PRICE_TIMELOCK_DELAY_SECS));
}

#[test]
fn test_is_price_current_false_after_24_hours_from_execute() {
    let mut t = setup();
    propose_and_execute(&mut t, "VCS", 2023, 250_000_000, 0);
    let executed_at = T2025 + PRICE_TIMELOCK_DELAY_SECS;
    assert!(!t.c.is_price_current(&s("VCS"), 2023, executed_at + PRICE_STALENESS_SECS + 1));
}

#[test]
fn test_is_monitoring_current_false_after_365_days() {
    let mut t = setup();
    submit(&mut t, "proj-stale", "2023-Q1", 5000, 0, T2025);
    assert!(t.c.is_monitoring_current(&s("proj-stale"), T2025));
    assert!(!t.c.is_monitoring_current(&s("proj-stale"), T2025 + 366 * 24 * 60 * 60));
}

// ── liveness switch, with the registry it reports to ────────────────────────

struct Cross {
    t: Setup,
    registry: CarbonRegistryContract,
    oracle_contract: String,
}

fn setup_cross_contract() -> Cross {
    let t = setup();
    let mut registry = CarbonRegistryContract::new();
    let oracle_contract = addr("oraclecontract");
    registry.initialize(t.admin.clone(), oracle_contract.clone(), vec![addr("verifier")]).unwrap();
    Cross { t, registry, oracle_contract }
}

fn register_project(x: &mut Cross, project_id: &str) {
    let admin = x.t.admin.clone();
    x.registry
        .register_project(&admin, s(project_id), s("Test Project"), s("QmCID"), addr("verifier"), s("VCS"),
            s("Brazil"), s("forestry"), 2023, 75, [0u8; 32], T2025)
        .unwrap();
}

/// Run the dead-man's switch and forward a suspension request to the
/// registry, as the deployed contract does.
fn run_liveness(x: &mut Cross, project_id: &str, now: u64) {
    if let Some(_registry) = x.t.c.check_liveness(&s(project_id), now).unwrap() {
        let caller = x.oracle_contract.clone();
        x.registry.oracle_suspend_project(&caller, &s(project_id), &s("liveness_sla_breach")).unwrap();
    }
}

#[test]
fn test_check_liveness_not_stale_at_exact_sla_boundary() {
    let mut x = setup_cross_contract();
    register_project(&mut x, "proj-exact-sla");
    submit(&mut x.t, "proj-exact-sla", "2025-Q1", 5000, 0, T2025);

    let one_hour: u64 = 3600;
    let admin = x.t.admin.clone();
    x.t.c.set_liveness_sla(&admin, one_hour).unwrap();
    run_liveness(&mut x, "proj-exact-sla", T2025 + one_hour);

    assert!(
        x.t.c.get_flag_reason(&s("proj-exact-sla")).is_none(),
        "must not be flagged exactly at the SLA boundary"
    );
    let p = x.registry.get_project(&s("proj-exact-sla")).unwrap();
    assert_ne!(p.status, ProjectStatus::Suspended);
}

#[test]
fn test_is_monitoring_current_respects_custom_sla() {
    let mut x = setup_cross_contract();
    register_project(&mut x, "proj-mc-sla");
    submit(&mut x.t, "proj-mc-sla", "2025-Q1", 5000, 0, T2025);
    assert!(x.t.c.is_monitoring_current(&s("proj-mc-sla"), T2025));

    let one_hour: u64 = 3600;
    let admin = x.t.admin.clone();
    x.t.c.set_liveness_sla(&admin, one_hour).unwrap();
    assert!(
        !x.t.c.is_monitoring_current(&s("proj-mc-sla"), T2025 + one_hour + 1),
        "data older than the configured SLA must not be reported as current"
    );
}

#[test]
fn test_is_monitoring_current_true_at_exact_custom_sla_boundary() {
    let mut x = setup_cross_contract();
    register_project(&mut x, "proj-mc-boundary");
    submit(&mut x.t, "proj-mc-boundary", "2025-Q1", 5000, 0, T2025);

    let one_hour: u64 = 3600;
    let admin = x.t.admin.clone();
    x.t.c.set_liveness_sla(&admin, one_hour).unwrap();
    assert!(
        x.t.c.is_monitoring_current(&s("proj-mc-boundary"), T2025 + one_hour),
        "must still be current exactly at the SLA boundary"
    );
}

#[test]
fn test_is_monitoring_current_agrees_with_check_liveness() {
    let mut x = setup_cross_contract();
    register_project(&mut x, "proj-mc-agree");
    submit(&mut x.t, "proj-mc-agree", "2025-Q1", 5000, 0, T2025);

    let one_hour: u64 = 3600;
    let admin = x.t.admin.clone();
    x.t.c.set_liveness_sla(&admin, one_hour).unwrap();
    let now = T2025 + 2 * one_hour;

    assert!(!x.t.c.is_monitoring_current(&s("proj-mc-agree"), now));

    run_liveness(&mut x, "proj-mc-agree", now);

    assert_eq!(x.t.c.get_flag_reason(&s("proj-mc-agree")), Some(s("liveness_sla_breach")));
    let p = x.registry.get_project(&s("proj-mc-agree")).unwrap();
    assert_eq!(p.status, ProjectStatus::Suspended);
}

#[test]
fn test_price_staleness_window_config_and_enforcement() {
    let mut t = setup();
    let meth = s("VCS-001");
    signed_ok(&t, 0);
    let oracle = t.oracle.clone();
    t.c.update_credit_price(&oracle, meth.clone(), 2024, 5000, 0, T2025).unwrap();
    assert!(t.c.is_price_current(&meth, 2024, T2025));

    let later = 1735689600 + 25 * 3600;
    assert!(!t.c.is_price_current(&meth, 2024, later));

    let admin = t.admin.clone();
    t.c.set_price_staleness_window(&admin, 48 * 3600).unwrap();
    assert!(t.c.is_price_current(&meth, 2024, later));
}

// ── price-feed arithmetic over sampled inputs ───────────────────────────────

/// A small deterministic generator for sampled inputs.
struct Lcg(u64);

impl Lcg {
    fn next(&mut self) -> u64 {
        self.0 = self.0.wrapping_mul(6364136223846793005).wrapping_add(1442695040888963407);
        self.0 >> 33
    }

    fn range(&mut self, lo: u64, hi: u64) -> u64 {
        lo + self.next() % (hi - lo + 1)
    }
}

fn setup_unsigned() -> CarbonOracleContract {
    let mut c = CarbonOracleContract::new();
    c.initialize(addr("admin"), addr("oracle"), [0u8; 32], addr("registry")).unwrap();
    c
}

#[test]
fn prop_twap_within_min_max() {
    let mut g = Lcg(1);
    for _ in 0..1000 {
        let _c = setup_unsigned();
        let n = g.range(2, 20) as usize;
        let entries: Vec<(i128, u64)> =
            (0..n).map(|_| (g.range(1, 100_000) as i128, g.range(1, 3600))).collect();
        let min_price = entries.iter().map(|e| e.0).min().unwrap();
        let max_price = entries.iter().map(|e| e.0).max().unwrap();
        let mut weighted_sum = 0i128;
        let mut total_duration = 0u64;
        for e in &entries {
            weighted_sum += e.0 * e.1 as i128;
            total_duration += e.1;
        }
        let twap = if total_duration > 0 { weighted_sum / total_duration as i128 } else { min_price };
        assert!(twap >= min_price, "TWAP {} is below min price {}", twap, min_price);
        assert!(twap <= max_price, "TWAP {} exceeds max price {}", twap, max_price);
    }
}

#[test]
fn prop_twap_single_price_equals_observation() {
    let mut g = Lcg(2);
    for _ in 0..1000 {
        let price = g.range(1, 100_000) as i128;
        let _duration = g.range(1, 3600);
        let twap = price;
        assert_eq!(twap, price);
    }
}

#[test]
fn prop_twap_constant_prices_equals_constant() {
    let mut g = Lcg(3);
    for _ in 0..1000 {
        let constant_price = g.range(1, 100_000) as i128;
        let _count = g.range(2, 20);
        let twap = constant_price;
        assert_eq!(twap, constant_price);
    }
}

#[test]
fn prop_deviation_alert_triggers_on_large_deviation() {
    let mut g = Lcg(4);
    for _ in 0..1000 {
        let reference_price = g.range(1, 100_000) as i128;
        let deviation_pct = g.range(16, 200);
        let current_price = reference_price + (reference_price * deviation_pct as i128 / 100);
        let deviation = (current_price - reference_price).abs() as f64 / reference_price as f64;
        assert!(
            deviation > 0.15,
            "Deviation {} should exceed 15% threshold for {}% input",
            deviation,
            deviation_pct
        );
    }
}

#[test]
fn prop_out_of_range_prices_rejected() {
    for price in -1000i128..=0 {
        assert!(price <= 0, "Price {} should be rejected (not positive)", price);
        let mut t = setup();
        assert_eq!(
            t.c.update_credit_price(&addr("oracle"), s("VCS"), 2024, price, 0, T2025),
            Err(CarbonError::ZeroAmountNotAllowed)
        );
    }
}

#[test]
fn prop_twap_stable_within_bounds() {
    let mut g = Lcg(6);
    for _ in 0..1000 {
        let base_price = g.range(10, 1000) as i128;
        let new_price = g.range(1, 100_000) as i128;
        let _new_duration = g.range(1, 3600);
        let existing_min = base_price.min(new_price);
        let existing_max = base_price.max(new_price);
        assert!(existing_min <= existing_max, "Min {} should not exceed max {}", existing_min, existing_max);
    }
}

#[test]
fn prop_zero_deviation_when_prices_equal() {
    let mut g = Lcg(7);
    for _ in 0..1000 {
        let price = g.range(1, 100_000) as i128;
        let deviation = (price - price).abs() as f64 / price as f64;
        assert_eq!(deviation, 0.0);
    }
}

// ── propose_price_update / execute_price_update ─────────────────────────────

#[test]
fn test_propose_price_update_returns_execute_after() {
    let mut t = setup();
    let execute_after = propose_update(&mut t, "VCS", 2024, 250_000_000, 0, T2025);
    assert_eq!(execute_after, 1_735_689_600 + TIMELOCK_DELAY, "execute_after must be now + TIMELOCK_DELAY");
}

#[test]
fn test_benchmark_price_not_set_before_execution() {
    let mut t = setup();
    propose_update(&mut t, "VCS", 2024, 250_000_000, 0, T2025);
    assert_eq!(t.c.get_benchmark_price(&s("VCS"), 2024), Err(CarbonError::PriceNotSet));
}

#[test]
fn test_execute_before_timelock_fails_with_timelock_not_ready() {
    let mut t = setup();
    propose_update(&mut t, "VCS", 2024, 250_000_000, 0, T2025);
    let oracle = t.oracle.clone();
    assert_eq!(
        t.c.execute_price_update(&oracle, &s("VCS"), 2024, T2025 + 12 * 60 * 60),
        Err(CarbonError::TimelockNotReady)
    );
}

#[test]
fn test_execute_at_exact_boundary_still_requires_delay() {
    let mut t = setup();
    let execute_after = propose_update(&mut t, "VCS", 2024, 250_000_000, 0, T2025);
    assert_eq!(execute_after, T2025 + TIMELOCK_DELAY);
    let oracle = t.oracle.clone();
    t.c.execute_price_update(&oracle, &s("VCS"), 2024, T2025 + TIMELOCK_DELAY).unwrap();
    assert_eq!(t.c.get_benchmark_price(&s("VCS"), 2024), Ok(250_000_000));
}

#[test]
fn test_execute_after_timelock_commits_price() {
    let mut t = setup();
    propose_update(&mut t, "Gold Standard", 2023, 300_000_000, 0, T2025);
    let oracle = t.oracle.clone();
    let now = T2025 + TIMELOCK_DELAY + 1;
    t.c.execute_price_update(&oracle, &s("Gold Standard"), 2023, now).unwrap();
    assert_eq!(t.c.get_benchmark_price(&s("Gold Standard"), 2023), Ok(300_000_000));
    assert!(t.c.is_price_current(&s("Gold Standard"), 2023, now));
}

#[test]
fn test_pending_proposal_cleared_after_execution() {
    let mut t = setup();
    propose_update(&mut t, "VCS", 2024, 250_000_000, 0, T2025);
    let oracle = t.oracle.clone();
    let now = T2025 + TIMELOCK_DELAY + 1;
    t.c.execute_price_update(&oracle, &s("VCS"), 2024, now).unwrap();
    assert_eq!(t.c.execute_price_update(&oracle, &s("VCS"), 2024, now), Err(CarbonError::NoPendingUpdate));
    assert!(
        t.c.get_pending_price_update(&s("VCS"), 2024).is_none(),
        "pending proposal must be cleared after execution"
    );
}

#[test]
fn test_cancel_proposed_update_clears_pending() {
    let mut t = setup();
    propose_update(&mut t, "VCS", 2024, 250_000_000, 0, T2025);
    assert!(t.c.get_pending_price_update(&s("VCS"), 2024).is_some(), "proposal must exist before cancel");
    let admin = t.admin.clone();
    t.c.cancel_proposed_update(&admin, &s("VCS"), 2024).unwrap();
    assert!(t.c.get_pending_price_update(&s("VCS"), 2024).is_none(), "proposal must be cleared after cancel");
}

#[test]
fn test_execute_after_cancel_fails_with_no_pending_update() {
    let mut t = setup();
    propose_update(&mut t, "VCS", 2024, 250_000_000, 0, T2025);
    let admin = t.admin.clone();
    t.c.cancel_proposed_update(&admin, &s("VCS"), 2024).unwrap();
    let oracle = t.oracle.clone();
    assert_eq!(
        t.c.execute_price_update(&oracle, &s("VCS"), 2024, T2025 + TIMELOCK_DELAY + 1),
        Err(CarbonError::NoPendingUpdate)
    );
}

#[test]
fn test_cancel_nonexistent_proposal_returns_no_pending_update() {
    let mut t = setup();
    let admin = t.admin.clone();
    assert_eq!(t.c.cancel_proposed_update(&admin, &s("VCS"), 2024), Err(CarbonError::NoPendingUpdate));
}

#[test]
fn test_proposals_independent_per_methodology_vintage() {
    let mut t = setup();
    propose_update(&mut t, "VCS", 2024, 250_000_000, 0, T2025);
    propose_update(&mut t, "Gold Standard", 2024, 350_000_000, 1, T2025);

    let admin = t.admin.clone();
    t.c.cancel_proposed_update(&admin, &s("VCS"), 2024).unwrap();
    assert!(t.c.get_pending_price_update(&s("VCS"), 2024).is_none());
    assert!(t.c.get_pending_price_update(&s("Gold Standard"), 2024).is_some());

    let oracle = t.oracle.clone();
    t.c.execute_price_update(&oracle, &s("Gold Standard"), 2024, T2025 + TIMELOCK_DELAY + 1).unwrap();
    assert_eq!(t.c.get_benchmark_price(&s("Gold Standard"), 2024), Ok(350_000_000));
    assert_eq!(t.c.get_benchmark_price(&s("VCS"), 2024), Err(CarbonError::PriceNotSet));
}

#[test]
fn test_propose_zero_price_rejected() {
    let mut t = setup();
    let oracle = t.oracle.clone();
    assert_eq!(
        t.c.propose_price_update(&oracle, s("VCS"), 2024, 0, 0, T2025),
        Err(CarbonError::ZeroAmountNotAllowed)
    );
}

#[test]
fn test_pending_proposal_fields() {
    let mut t = setup();
    propose_update(&mut t, "VCS", 2024, 420_000_000, 0, T2025);
    let proposal = t.c.get_pending_price_update(&s("VCS"), 2024).expect("proposal must exist");
    assert_eq!(proposal.price_usdc, 420_000_000);
    assert_eq!(proposal.execute_after, 1_735_689_600 + TIMELOCK_DELAY);
    assert_eq!(proposal.nonce, 0);
}

#[test]
fn test_timelock_delay_constant_is_24_hours() {
    assert_eq!(TIMELOCK_DELAY, 24 * 60 * 60, "TIMELOCK_DELAY must be 24 hours");
}

// ── further cases ───────────────────────────────────────────────────────────

#[test]
fn current_year_walks_leap_years() {
    assert_eq!(get_current_year(0), 1970);
    assert_eq!(get_current_year(T2025), 2025);
    assert_eq!(get_current_year(T2025 - 1), 2024);
    // 2024-12-31 is day 366 of a leap year.
    assert_eq!(get_current_year(1_735_603_200), 2024);
    // 2000-02-29 exists (divisible by 400) and 2000-12-31 is still 2000.
    assert_eq!(get_current_year(978_220_800), 2000);
    assert_eq!(get_current_year(978_307_200), 2001);
    for year in [2019u32, 2025, 2026, 2099] {
        assert_eq!(get_current_year(year_start(year)), year as u64);
    }
}

#[test]
fn signed_call_consumes_nonce_and_refuses_replay() {
    let mut t = setup();
    submit(&mut t, "p", "Q1", 10, 0, T2025);
    let oracle = t.oracle.clone();
    assert_eq!(t.c.authorize_signed(&oracle, 0), Err(CarbonError::InvalidNonce));
    assert_eq!(
        t.c.submit_monitoring_data(&oracle, s("p"), s("Q2"), 10, 85, s("cid"), 0, T2025),
        Err(CarbonError::InvalidNonce)
    );
    assert_eq!(t.c.authorize_signed(&oracle, 1), Ok(KEY));
}

#[test]
fn signed_call_from_stranger_is_refused() {
    let mut t = setup();
    let stranger = addr("stranger");
    assert_eq!(t.c.authorize_signed(&stranger, 0), Err(CarbonError::UnauthorizedOracle));
    assert_eq!(
        t.c.flag_project(&stranger, s("p"), s("fraud"), 0),
        Err(CarbonError::UnauthorizedOracle)
    );
    assert!(t.c.get_flag_reason(&s("p")).is_none());
}

#[test]
fn rejected_report_keeps_nonce() {
    let mut t = setup();
    let oracle = t.oracle.clone();
    assert_eq!(
        t.c.submit_monitoring_data(&oracle, s("p"), s("Q1"), 0, 85, s("cid"), 0, T2025),
        Err(CarbonError::ZeroAmountNotAllowed)
    );
    assert_eq!(t.c.authorize_signed(&oracle, 0), Ok(KEY));
}

#[test]
fn flag_project_records_reason() {
    let mut t = setup();
    signed_ok(&t, 0);
    let oracle = t.oracle.clone();
    t.c.flag_project(&oracle, s("p"), s("double counting"), 0).unwrap();
    assert_eq!(t.c.get_flag_reason(&s("p")), Some(s("double counting")));
}

#[test]
fn rotate_oracle_resets_nonce_and_key() {
    let mut t = setup();
    submit(&mut t, "p", "Q1", 10, 0, T2025);
    let admin = t.admin.clone();
    let new_oracle = addr("oracle2");
    t.c.rotate_oracle(&admin, new_oracle.clone(), [7u8; 32]).unwrap();
    assert_eq!(t.c.authorize_signed(&new_oracle, 0), Ok([7u8; 32]));
    assert_eq!(t.c.authorize_signed(&t.oracle, 0), Err(CarbonError::UnauthorizedOracle));
}

#[test]
fn initialize_twice_fails() {
    let mut t = setup();
    assert_eq!(
        t.c.initialize(addr("x"), addr("y"), KEY, addr("z")),
        Err(CarbonError::AlreadyInitialized)
    );
}

#[test]
fn upgrade_bumps_version_and_records_history() {
    let mut t = setup();
    assert_eq!(t.c.get_version(), 1);
    assert_eq!(t.c.upgrade_contract(&addr("nobody"), [1u8; 32], T2025), Err(CarbonError::UnauthorizedVerifier));
    let admin = t.admin.clone();
    t.c.upgrade_contract(&admin, [1u8; 32], T2025).unwrap();
    assert_eq!(t.c.get_version(), 2);
    let rec = t.c.get_upgrade_history().unwrap();
    assert_eq!(rec.from_version, 1);
    assert_eq!(rec.to_version, 2);
    assert_eq!(rec.timestamp, T2025);
}

#[test]
fn check_liveness_flags_once() {
    let mut t = setup();
    submit(&mut t, "p", "Q1", 10, 0, T2025);
    let later = T2025 + 31_536_000 + 1;
    assert_eq!(t.c.check_liveness(&s("p"), later), Ok(Some(addr("registry"))));
    assert_eq!(t.c.check_liveness(&s("p"), later), Ok(None));
    assert_eq!(t.c.get_flag_reason(&s("p")), Some(s("liveness_sla_breach")));
}

#[test]
fn check_liveness_without_report_flags_project() {
    let mut t = setup();
    assert_eq!(t.c.check_liveness(&s("ghost"), T2025), Ok(Some(addr("registry"))));
}

#[test]
fn tonnes_total_saturates() {
    let mut t = setup();
    submit(&mut t, "p", "Q1", i128::MAX, 0, T2025);
    submit(&mut t, "p", "Q2", 5, 1, T2025);
    let periods = vec![s("Q1"), s("Q2")];
    assert_eq!(t.c.get_total_verified_tonnes(&s("p"), &periods), i128::MAX);
}

#[test]
fn monitoring_data_not_found() {
    let t = setup();
    assert_eq!(
        t.c.get_monitoring_data(&s("none"), &s("Q1")).map(|d| d.tonnes_verified),
        Err(CarbonError::ProjectNotFound)
    );
}

#[test]
fn error_codes_follow_contract_numbering() {
    assert_eq!(CarbonError::ProjectNotFound.code(), 1);
    assert_eq!(CarbonError::InvalidNonce.code(), 22);
    assert_eq!(CarbonError::InvalidSignature.code(), 23);
    assert_eq!(CarbonError::TimelockNotReady.code(), 24);
    assert_eq!(CarbonError::NoPendingUpdate.code(), 25);
}
