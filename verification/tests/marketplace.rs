use carbon_ledger::marketplace::{
    CarbonError, CarbonMarketplaceContract, ListingStatus, DEFAULT_FEE_DENOM, DEFAULT_FEE_NUMERATOR,
    LISTING_TTL_SECONDS, MAX_PAGE_SIZE,
};

/// 2025-01-01T00:00:00Z
const T2025: u64 = 1_735_689_600;

fn s(v: &str) -> String {
    v.to_string()
}

fn addr(tag: &str) -> String {
    format!("G{}", tag.to_uppercase())
}

struct Setup {
    c: CarbonMarketplaceContract,
    admin: String,
    treasury: String,
    seller: String,
}

fn setup() -> Setup {
    let mut c = CarbonMarketplaceContract::new();
    let admin = addr("admin");
    let treasury = addr("treasury");
    let seller = addr("seller");
    c.initialize(admin.clone(), addr("usdc"), addr("credit"), treasury.clone()).unwrap();
    Setup { c, admin, treasury, seller }
}

fn list(
    c: &mut CarbonMarketplaceContract,
    seller: &String,
    listing_id: &str,
    batch_id: &str,
    project_id: &str,
    amount: i128,
    price: i128,
    vintage: u32,
    methodology: &str,
    country: &str,
    now: u64,
) -> Result<(), CarbonError> {
    c.list_credits(seller.clone(), s(listing_id), s(batch_id), s(project_id), amount, price, vintage, s(methodology),
        s(country), now)
}

fn add_listing(c: &mut CarbonMarketplaceContract, seller: &String) {
    list(c, seller, "list-001", "batch-001", "proj-001", 100, 10_0000000, 2023, "VCS", "Brazil", T2025).unwrap();
}

fn add_listing_in(c: &mut CarbonMarketplaceContract, seller: &String, listing_id: &str, project_id: &str) {
    list(c, seller, listing_id, "batch-1", project_id, 100, 10_0000000, 2023, "VCS", "Brazil", T2025).unwrap();
}

fn add_page_listing(c: &mut CarbonMarketplaceContract, seller: &String, id: &str, vintage: u32) {
    list(c, seller, id, &format!("batch-{id}"), &format!("proj-{id}"), 100, 10_0000000, vintage, "VCS", "Brazil", T2025)
        .unwrap();
}

fn purchase(
    c: &mut CarbonMarketplaceContract,
    buyer: &String,
    listing_id: &str,
    amount: i128,
    now: u64,
) -> Result<carbon_ledger::marketplace::PurchaseReceipt, CarbonError> {
    c.purchase_credits(buyer, &s(listing_id), amount, true, now)
}

fn bulk(
    c: &mut CarbonMarketplaceContract,
    buyer: &String,
    ids: &[&str],
    amounts: &[i128],
    now: u64,
) -> Result<carbon_ledger::marketplace::PurchaseReceipt, CarbonError> {
    let ids: Vec<String> = ids.iter().map(|x| s(x)).collect();
    let current: Vec<bool> = ids.iter().map(|_| true).collect();
    c.bulk_purchase(buyer, &ids, &amounts.to_vec(), &current, now)
}

#[test]
fn test_list_credits_creates_active_listing() {
    let mut t = setup();
    add_listing(&mut t.c, &t.seller);
    let l = t.c.get_listing(&s("list-001")).unwrap();
    assert_eq!(l.status, ListingStatus::Active);
    assert_eq!(l.amount_available, 100);
}

#[test]
fn test_delist_removes_listing() {
    let mut t = setup();
    add_listing(&mut t.c, &t.seller);
    t.c.delist_credits(&t.seller, &s("list-001"), T2025).unwrap();
    let l = t.c.get_listing(&s("list-001")).unwrap();
    assert_eq!(l.status, ListingStatus::Delisted);
}

#[test]
fn test_purchase_insufficient_credits_fails() {
    let mut t = setup();
    add_listing(&mut t.c, &t.seller);
    let buyer = addr("buyer");
    let result = purchase(&mut t.c, &buyer, "list-001", 999, T2025);
    assert!(result.is_err());
}

#[test]
fn test_get_listings_by_project() {
    let mut t = setup();
    add_listing(&mut t.c, &t.seller);
    let listings = t.c.get_listings_by_project(s("proj-001"));
    assert_eq!(listings.len(), 1);
}

#[test]
fn test_get_listings_by_vintage() {
    let mut t = setup();
    add_listing(&mut t.c, &t.seller);
    let listings = t.c.get_listings_by_vintage(2023);
    assert_eq!(listings.len(), 1);
    let empty = t.c.get_listings_by_vintage(2020);
    assert_eq!(empty.len(), 0);
}

#[test]
fn test_get_active_listings() {
    let mut t = setup();
    add_listing(&mut t.c, &t.seller);
    let active = t.c.get_active_listings(T2025);
    assert_eq!(active.len(), 1);
}

#[test]
fn test_zero_amount_listing_fails() {
    let mut t = setup();
    let result = list(&mut t.c, &t.seller, "list-002", "batch-002", "proj-001", 0, 10_0000000, 2023, "VCS", "Brazil",
        T2025);
    assert!(result.is_err());
}

#[test]
fn test_suspended_project_listing_blocked() {
    let mut t = setup();
    t.c.suspend_project(&t.admin, s("proj-001"), T2025).unwrap();
    let result = list(&mut t.c, &t.seller, "list-001", "batch-001", "proj-001", 100, 10_0000000, 2023, "VCS",
        "Brazil", T2025);
    assert_eq!(result.unwrap_err(), CarbonError::ProjectSuspended);
}

#[test]
fn test_suspended_project_purchase_blocked() {
    let mut t = setup();
    add_listing(&mut t.c, &t.seller);
    t.c.suspend_project(&t.admin, s("proj-001"), T2025).unwrap();
    let buyer = addr("buyer");
    let result = purchase(&mut t.c, &buyer, "list-001", 10, T2025);
    assert_eq!(result.unwrap_err(), CarbonError::ProjectSuspended);
}

#[test]
fn test_non_suspended_project_listing_succeeds() {
    let mut t = setup();
    add_listing(&mut t.c, &t.seller);
    let l = t.c.get_listing(&s("list-001")).unwrap();
    assert_eq!(l.status, ListingStatus::Active);
}

#[test]
fn test_update_treasury() {
    let mut t = setup();
    let new_treasury = addr("newtreasury");
    t.c.update_treasury(&t.admin, new_treasury.clone(), T2025).unwrap();
    let fake_admin = addr("fakeadmin");
    let res = t.c.update_treasury(&fake_admin, new_treasury, T2025);
    assert_eq!(res.unwrap_err(), CarbonError::UnauthorizedVerifier);
}

#[test]
fn test_purchase_exact_fee_routing() {
    let mut t = setup();
    list(&mut t.c, &t.seller, "list-fee", "batch-fee", "proj-fee", 100, 1500, 2023, "VCS", "Brazil", T2025).unwrap();
    let buyer = addr("buyer");
    let receipt = purchase(&mut t.c, &buyer, "list-fee", 10, T2025).unwrap();
    let line = &receipt.settlements[0];
    assert_eq!(line.protocol_fee, 150);
    assert_eq!(line.seller_proceeds, 15000 - 150);
    assert_eq!(line.seller, t.seller);
    let _ = &t.treasury;
}

#[test]
fn test_list_zero_amount_fails() {
    let mut t = setup();
    let seller = addr("seller2");
    let result = list(&mut t.c, &seller, "l1", "b1", "p1", 0, 10_0000000, 2023, "VCS", "BR", T2025);
    assert_eq!(result.unwrap_err(), CarbonError::ZeroAmountNotAllowed);
}

#[test]
fn test_list_zero_price_fails() {
    let mut t = setup();
    let seller = addr("seller2");
    let result = list(&mut t.c, &seller, "l1", "b1", "p1", 100, 0, 2023, "VCS", "BR", T2025);
    assert_eq!(result.unwrap_err(), CarbonError::ZeroAmountNotAllowed);
}

#[test]
fn test_purchase_zero_amount_fails() {
    let mut t = setup();
    let buyer = addr("buyer");
    let result = purchase(&mut t.c, &buyer, "l1", 0, T2025);
    assert_eq!(result.unwrap_err(), CarbonError::ZeroAmountNotAllowed);
}

#[test]
fn test_list_vintage_1989_fails() {
    let mut t = setup();
    let seller = addr("seller2");
    let result = list(&mut t.c, &seller, "l1", "b1", "p1", 100, 10_0000000, 1989, "VCS", "BR", T2025);
    assert_eq!(result.unwrap_err(), CarbonError::InvalidVintageYear);
}

#[test]
fn test_purchase_nonexistent_listing_fails() {
    let mut t = setup();
    let buyer = addr("buyer");
    let result = purchase(&mut t.c, &buyer, "no-such", 10, T2025);
    assert_eq!(result.unwrap_err(), CarbonError::ListingNotFound);
}

#[test]
fn test_purchase_delisted_listing_fails() {
    let mut t = setup();
    add_listing_in(&mut t.c, &t.seller, "l1", "p1");
    t.c.delist_credits(&t.seller, &s("l1"), T2025).unwrap();
    let buyer = addr("buyer");
    let result = purchase(&mut t.c, &buyer, "l1", 10, T2025);
    assert_eq!(result.unwrap_err(), CarbonError::ListingNotFound);
}

#[test]
fn test_purchase_exceeds_available_fails() {
    let mut t = setup();
    add_listing_in(&mut t.c, &t.seller, "l1", "p1");
    let buyer = addr("buyer");
    let result = purchase(&mut t.c, &buyer, "l1", 101, T2025);
    assert_eq!(result.unwrap_err(), CarbonError::InsufficientLiquidity);
}

#[test]
fn test_list_suspended_project_fails() {
    let mut t = setup();
    t.c.suspend_project(&t.admin, s("p1"), T2025).unwrap();
    let seller = addr("seller2");
    let result = list(&mut t.c, &seller, "l1", "b1", "p1", 100, 10_0000000, 2023, "VCS", "BR", T2025);
    assert_eq!(result.unwrap_err(), CarbonError::ProjectSuspended);
}

#[test]
fn test_purchase_suspended_project_fails() {
    let mut t = setup();
    add_listing_in(&mut t.c, &t.seller, "l1", "p1");
    t.c.suspend_project(&t.admin, s("p1"), T2025).unwrap();
    let buyer = addr("buyer");
    let result = purchase(&mut t.c, &buyer, "l1", 10, T2025);
    assert_eq!(result.unwrap_err(), CarbonError::ProjectSuspended);
}

#[test]
fn test_non_seller_cannot_delist() {
    let mut t = setup();
    add_listing_in(&mut t.c, &t.seller, "l1", "p1");
    let rogue = addr("rogue");
    let result = t.c.delist_credits(&rogue, &s("l1"), T2025);
    assert_eq!(result.unwrap_err(), CarbonError::UnauthorizedVerifier);
}

#[test]
fn test_non_admin_cannot_suspend_project() {
    let mut t = setup();
    let rogue = addr("rogue");
    let result = t.c.suspend_project(&rogue, s("p1"), T2025);
    assert_eq!(result.unwrap_err(), CarbonError::UnauthorizedVerifier);
}

#[test]
fn test_non_admin_cannot_update_treasury() {
    let mut t = setup();
    let rogue = addr("rogue");
    let new_treasury = addr("newtreasury");
    let result = t.c.update_treasury(&rogue, new_treasury, T2025);
    assert_eq!(result.unwrap_err(), CarbonError::UnauthorizedVerifier);
}

#[test]
fn test_double_initialize_fails() {
    let mut t = setup();
    let usdc = addr("usdc2");
    let credit = addr("credit2");
    let result = t.c.initialize(t.admin.clone(), usdc, credit, t.treasury.clone());
    assert_eq!(result.unwrap_err(), CarbonError::AlreadyInitialized);
}

#[test]
fn test_default_fee_config_is_one_percent() {
    let t = setup();
    let fee = t.c.get_fee_config(&addr("self"));
    assert_eq!(fee.numerator, DEFAULT_FEE_NUMERATOR);
    assert_eq!(fee.denom, DEFAULT_FEE_DENOM);
}

#[test]
fn test_admin_can_set_fee_rate() {
    let mut t = setup();
    t.c.set_fee_rate(&t.admin, 2, 100, T2025).unwrap();
    let fee = t.c.get_fee_config(&addr("self"));
    assert_eq!(fee.numerator, 2);
    assert_eq!(fee.denom, 100);
}

#[test]
fn test_non_admin_cannot_set_fee_rate() {
    let mut t = setup();
    let rogue = addr("rogue");
    let result = t.c.set_fee_rate(&rogue, 2, 100, T2025);
    assert_eq!(result.unwrap_err(), CarbonError::UnauthorizedVerifier);
}

#[test]
fn test_fee_above_ten_percent_rejected() {
    let mut t = setup();
    let result = t.c.set_fee_rate(&t.admin, 11, 100, T2025);
    assert!(result.is_err());
}

#[test]
fn test_zero_denom_fee_rejected() {
    let mut t = setup();
    let result = t.c.set_fee_rate(&t.admin, 1, 0, T2025);
    assert!(result.is_err());
}

#[test]
fn test_zero_fee_rate_accepted() {
    let mut t = setup();
    t.c.set_fee_rate(&t.admin, 0, 100, T2025).unwrap();
    let fee = t.c.get_fee_config(&addr("self"));
    assert_eq!(fee.numerator, 0);
}

#[test]
fn test_max_ten_percent_fee_accepted() {
    let mut t = setup();
    t.c.set_fee_rate(&t.admin, 10, 100, T2025).unwrap();
    let fee = t.c.get_fee_config(&addr("self"));
    assert_eq!(fee.numerator, 10);
}

#[test]
fn test_bulk_purchase_length_mismatch_fails() {
    let mut t = setup();
    let buyer = addr("buyer");
    let ids = vec![s("l1"), s("l2")];
    let current = vec![true, true];
    let result = t.c.bulk_purchase(&buyer, &ids, &vec![10], &current, T2025);
    assert_eq!(result.unwrap_err(), CarbonError::InvalidSerialRange);
}

#[test]
fn test_bulk_purchase_exact_max_batch_size_passes_length_check() {
    let mut t = setup();
    let buyer = addr("buyer");
    let ids = ["l0", "l1", "l2", "l3", "l4", "l5", "l6", "l7", "l8", "l9"];
    let amounts = [10i128; 10];
    let result = bulk(&mut t.c, &buyer, &ids, &amounts, T2025);
    assert_eq!(result.unwrap_err(), CarbonError::ListingNotFound);
}

#[test]
fn test_bulk_purchase_over_max_batch_size_fails_length_check() {
    let mut t = setup();
    let buyer = addr("buyer");
    let ids = ["l0", "l1", "l2", "l3", "l4", "l5", "l6", "l7", "l8", "l9", "l10"];
    let amounts = [10i128; 11];
    let result = bulk(&mut t.c, &buyer, &ids, &amounts, T2025);
    assert_eq!(result.unwrap_err(), CarbonError::InvalidSerialRange);
}

#[test]
fn test_list_vintage_1990_succeeds() {
    let mut t = setup();
    let seller = addr("seller2");
    list(&mut t.c, &seller, "l-1990", "b-1990", "p1", 100, 10_0000000, 1990, "VCS", "BR", T2025).unwrap();
    let l = t.c.get_listing(&s("l-1990")).unwrap();
    assert_eq!(l.vintage_year, 1990);
}

#[test]
fn test_fee_change_by_admin() {
    let mut t = setup();
    t.c.set_fee_rate(&t.admin, 2, 100, T2025).unwrap();
    let cfg = t.c.get_fee_config(&addr("self"));
    assert_eq!(cfg.numerator, 2);
    assert_eq!(cfg.denom, 100);
    assert_eq!(cfg.updated_by, t.admin);
}

#[test]
fn test_fee_change_rejected_by_non_admin() {
    let mut t = setup();
    let rogue = addr("rogue");
    let result = t.c.set_fee_rate(&rogue, 2, 100, T2025);
    assert!(result.is_err());
}

#[test]
fn test_fee_above_max_rejected() {
    let mut t = setup();
    let result = t.c.set_fee_rate(&t.admin, 11, 100, T2025);
    assert_eq!(result.unwrap_err(), CarbonError::FeeConfigInvalid);
}

#[test]
fn test_fee_zero_denom_rejected() {
    let mut t = setup();
    let result = t.c.set_fee_rate(&t.admin, 1, 0, T2025);
    assert_eq!(result.unwrap_err(), CarbonError::FeeConfigInvalid);
}

#[test]
fn test_fee_negative_numerator_rejected() {
    let mut t = setup();
    let result = t.c.set_fee_rate(&t.admin, -1, 100, T2025);
    assert_eq!(result.unwrap_err(), CarbonError::FeeConfigInvalid);
}

#[test]
fn test_default_fee_is_1_percent() {
    let t = setup();
    let cfg = t.c.get_fee_config(&addr("self"));
    assert_eq!(cfg.numerator, 1);
    assert_eq!(cfg.denom, 100);
}

#[test]
fn test_purchase_uses_new_fee_rate() {
    let mut t = setup();
    t.c.set_fee_rate(&t.admin, 2, 100, T2025).unwrap();
    list(&mut t.c, &t.seller, "list-fee", "batch-fee", "proj-fee", 100, 1000, 2023, "VCS", "Brazil", T2025).unwrap();
    let buyer = addr("buyer");
    let receipt = purchase(&mut t.c, &buyer, "list-fee", 10, T2025).unwrap();
    assert_eq!(receipt.settlements[0].seller_proceeds, 9_800);
    assert_eq!(receipt.settlements[0].protocol_fee, 200);
}

#[test]
fn test_empty_page_returns_zero_total() {
    let t = setup();
    let page = t.c.get_listings_page(0, 10, T2025).unwrap();
    assert_eq!(page.total, 0);
    assert_eq!(page.items.len(), 0);
    assert_eq!(page.offset, 0);
}

#[test]
fn test_single_page_all_items_fit() {
    let mut t = setup();
    add_page_listing(&mut t.c, &t.seller, "l1", 2023);
    add_page_listing(&mut t.c, &t.seller, "l2", 2024);
    let page = t.c.get_listings_page(0, 10, T2025).unwrap();
    assert_eq!(page.total, 2);
    assert_eq!(page.items.len(), 2);
    assert_eq!(page.offset, 0);
}

#[test]
fn test_multi_page_paging_through() {
    let mut t = setup();
    for i in 0..5 {
        add_page_listing(&mut t.c, &t.seller, &format!("mp-{i}"), 2023);
    }
    let page1 = t.c.get_listings_page(0, 2, T2025).unwrap();
    assert_eq!(page1.total, 5);
    assert_eq!(page1.items.len(), 2);
    assert_eq!(page1.offset, 0);
    let page2 = t.c.get_listings_page(2, 2, T2025).unwrap();
    assert_eq!(page2.total, 5);
    assert_eq!(page2.items.len(), 2);
    assert_eq!(page2.offset, 2);
    let page3 = t.c.get_listings_page(4, 2, T2025).unwrap();
    assert_eq!(page3.total, 5);
    assert_eq!(page3.items.len(), 1);
    assert_eq!(page3.offset, 4);
}

#[test]
fn test_offset_beyond_total_returns_empty_page() {
    let mut t = setup();
    add_page_listing(&mut t.c, &t.seller, "oob-1", 2023);
    let page = t.c.get_listings_page(100, 10, T2025).unwrap();
    assert_eq!(page.total, 1);
    assert_eq!(page.items.len(), 0);
    assert_eq!(page.offset, 100);
}

#[test]
fn test_page_size_too_large_returns_error() {
    let t = setup();
    let result = t.c.get_listings_page(0, 51, T2025);
    assert_eq!(result.unwrap_err(), CarbonError::PageSizeTooLarge);
}

#[test]
fn test_exact_max_page_size_accepted() {
    let t = setup();
    let page = t.c.get_listings_page(0, MAX_PAGE_SIZE, T2025).unwrap();
    assert_eq!(page.total, 0);
}

#[test]
fn test_delisted_excluded_from_page() {
    let mut t = setup();
    add_page_listing(&mut t.c, &t.seller, "d1", 2023);
    add_page_listing(&mut t.c, &t.seller, "d2", 2023);
    t.c.delist_credits(&t.seller, &s("d1"), T2025).unwrap();
    let page = t.c.get_listings_page(0, 10, T2025).unwrap();
    assert_eq!(page.total, 1);
    assert_eq!(page.items.len(), 1);
}

#[test]
fn test_vintage_page_filters_correctly() {
    let mut t = setup();
    add_page_listing(&mut t.c, &t.seller, "vp1", 2023);
    add_page_listing(&mut t.c, &t.seller, "vp2", 2023);
    add_page_listing(&mut t.c, &t.seller, "vp3", 2024);
    let page = t.c.get_listings_by_vintage_page(2023, 0, 10).unwrap();
    assert_eq!(page.total, 2);
    assert_eq!(page.items.len(), 2);
}

#[test]
fn test_vintage_page_page_size_too_large() {
    let t = setup();
    let result = t.c.get_listings_by_vintage_page(2023, 0, 51);
    assert_eq!(result.unwrap_err(), CarbonError::PageSizeTooLarge);
}

#[test]
fn test_total_count_reflects_all_matches_not_page_size() {
    let mut t = setup();
    for i in 0..10 {
        add_page_listing(&mut t.c, &t.seller, &format!("tc-{i}"), 2023);
    }
    let page = t.c.get_listings_page(0, 3, T2025).unwrap();
    assert_eq!(page.total, 10);
    assert_eq!(page.items.len(), 3);
}

#[test]
fn test_configurable_price_freshness_window() {
    let mut t = setup();
    let default_window = t.c.get_price_freshness_window();
    assert_eq!(default_window, 86400);
    t.c.set_price_freshness_window(&t.admin, 3600).unwrap();
    let custom_window = t.c.get_price_freshness_window();
    assert_eq!(custom_window, 3600);
}

fn add_test_listing(c: &mut CarbonMarketplaceContract, seller: &String, listing_id: &str, now: u64) {
    list(c, seller, listing_id, "batch-001", "proj-001", 100, 10_000_000, 2023, "VCS", "Brazil", now).unwrap();
}

#[test]
fn test_listing_expiration_timestamp_recorded() {
    let mut t = setup();
    add_test_listing(&mut t.c, &t.seller, "list-001", T2025);
    let listing = t.c.get_listing(&s("list-001")).unwrap();
    assert_eq!(listing.created_at, 1_735_689_600);
    assert_eq!(listing.expires_at, 1_735_689_600 + LISTING_TTL_SECONDS);
    assert_eq!(listing.status, ListingStatus::Active);
}

#[test]
fn test_expired_listing_purchase_attempt_rejected() {
    let mut t = setup();
    add_test_listing(&mut t.c, &t.seller, "list-001", T2025);
    let now = T2025 + LISTING_TTL_SECONDS + 1;
    let buyer = addr("buyer");
    let result = purchase(&mut t.c, &buyer, "list-001", 10, now);
    assert_eq!(result.unwrap_err(), CarbonError::ListingExpired);
}

#[test]
fn test_expired_listing_bulk_purchase_rejected() {
    let mut t = setup();
    add_test_listing(&mut t.c, &t.seller, "list-001", T2025);
    let now = T2025 + LISTING_TTL_SECONDS + 1;
    let buyer = addr("buyer");
    let result = bulk(&mut t.c, &buyer, &["list-001"], &[10], now);
    assert_eq!(result.unwrap_err(), CarbonError::ListingExpired);
}

#[test]
fn test_cleanup_expired_listings_removes_expired_entries() {
    let mut t = setup();
    add_test_listing(&mut t.c, &t.seller, "list-001", T2025);
    let now = T2025 + LISTING_TTL_SECONDS + 1;
    let removed = t.c.cleanup_expired_listings(&t.admin, now).unwrap();
    assert_eq!(removed, 1);
    let result = t.c.get_listing(&s("list-001"));
    assert_eq!(result.unwrap_err(), CarbonError::ListingNotFound);
}

#[test]
fn test_cleanup_expired_listings_preserves_active_entries() {
    let mut t = setup();
    add_test_listing(&mut t.c, &t.seller, "list-001", T2025);
    let t45 = T2025 + 45 * 24 * 60 * 60;
    add_test_listing(&mut t.c, &t.seller, "list-002", t45);
    let t95 = t45 + 50 * 24 * 60 * 60;
    let removed = t.c.cleanup_expired_listings(&t.admin, t95).unwrap();
    assert_eq!(removed, 1);
    assert_eq!(t.c.get_listing(&s("list-001")).unwrap_err(), CarbonError::ListingNotFound);
    let listing2 = t.c.get_listing(&s("list-002")).unwrap();
    assert_eq!(listing2.status, ListingStatus::Active);
    assert_eq!(listing2.amount_available, 100);
}

#[test]
fn test_cleanup_expired_listings_requires_admin() {
    let mut t = setup();
    add_test_listing(&mut t.c, &t.seller, "list-001", T2025);
    let now = T2025 + LISTING_TTL_SECONDS + 1;
    let seller = t.seller.clone();
    let result = t.c.cleanup_expired_listings(&seller, now);
    assert_eq!(result.unwrap_err(), CarbonError::UnauthorizedVerifier);
}

#[test]
fn test_get_active_listings_excludes_expired() {
    let mut t = setup();
    add_test_listing(&mut t.c, &t.seller, "list-001", T2025);
    assert_eq!(t.c.get_active_listings(T2025).len(), 1);
    let now = T2025 + LISTING_TTL_SECONDS + 1;
    assert_eq!(t.c.get_active_listings(now).len(), 0);
}

#[test]
fn test_get_listings_page_excludes_expired() {
    let mut t = setup();
    add_test_listing(&mut t.c, &t.seller, "list-001", T2025);
    let page_before = t.c.get_listings_page(0, 10, T2025).unwrap();
    assert_eq!(page_before.total, 1);
    assert_eq!(page_before.items.len(), 1);
    let now = T2025 + LISTING_TTL_SECONDS + 1;
    let page_after = t.c.get_listings_page(0, 10, now).unwrap();
    assert_eq!(page_after.total, 0);
    assert_eq!(page_after.items.len(), 0);
}
