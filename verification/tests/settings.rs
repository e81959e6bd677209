//! Tests of `initialize` and `modify_settings`.

use an_smart_contracts::constants::{deployer_id, GLOBAL_LISTINGS_SIZE};
use an_smart_contracts::initialize::initialize;
use an_smart_contracts::modify_settings::modify_settings;
use an_smart_contracts::state::{MarketError, Marketplace, ValidationFault};
use an_smart_contracts::AccountId;

fn acct(n: u64) -> AccountId {
    AccountId { w0: n, w1: 0, w2: 0, w3: 0 }
}

fn initialized(admin: AccountId, treasury: AccountId, nft_fee: u8, sale_fee: u8) -> Marketplace {
    let mut m = Marketplace::new();
    let r = initialize(&mut m, deployer_id(), admin, treasury, nft_fee, sale_fee);
    assert_eq!(r, Ok(()));
    m
}

#[test]
fn initialize_succeeds_for_deployer() {
    let m = initialized(acct(1), acct(2), 5, 5);
    assert!(m.is_initialized());
    assert_eq!(m.admin_settings.admin, acct(1));
    assert_eq!(m.admin_settings.treasury, acct(2));
    assert_eq!(m.admin_settings.nft_sale_fee, 5);
    assert_eq!(m.admin_settings.sale_fee, 5);
    assert_eq!(m.global_listings.listings.len(), 0);
    assert_eq!(m.global_listings.space, GLOBAL_LISTINGS_SIZE);
}

#[test]
fn initialize_rejects_non_deployer() {
    let mut m = Marketplace::new();
    let r = initialize(&mut m, acct(9), acct(1), acct(2), 5, 5);
    assert_eq!(r, Err(MarketError::AuthorizationError));
    assert!(!m.is_initialized());
}

#[test]
fn initialize_rejects_fee_at_maximum() {
    let mut m = Marketplace::new();
    let fee_too_big = Err(MarketError::ValidationError(ValidationFault::FeeTooBig));
    assert_eq!(initialize(&mut m, deployer_id(), acct(1), acct(2), 10, 5), fee_too_big);
    assert_eq!(initialize(&mut m, deployer_id(), acct(1), acct(2), 5, 10), fee_too_big);
    assert_eq!(initialize(&mut m, deployer_id(), acct(1), acct(2), 200, 200), fee_too_big);
    assert!(!m.is_initialized());
    assert_eq!(initialize(&mut m, deployer_id(), acct(1), acct(2), 9, 9), Ok(()));
    assert_eq!(m.admin_settings.nft_sale_fee, 9);
    assert_eq!(m.admin_settings.sale_fee, 9);
}

#[test]
fn initialize_runs_once() {
    let mut m = initialized(acct(1), acct(2), 5, 5);
    let r = initialize(&mut m, deployer_id(), acct(3), acct(4), 1, 1);
    assert_eq!(r, Err(MarketError::AlreadyInitializedError));
    assert_eq!(m.admin_settings.admin, acct(1));
}

#[test]
fn modify_settings_rejects_non_admin() {
    let mut m = initialized(acct(1), acct(2), 5, 5);
    let r = modify_settings(&mut m, acct(9), Some(acct(9)), None, None, None);
    assert_eq!(r, Err(MarketError::AuthorizationError));
    assert_eq!(m.admin_settings.admin, acct(1));
}

#[test]
fn modify_settings_rejects_fee_at_maximum() {
    let mut m = initialized(acct(1), acct(2), 5, 5);
    let fee_too_big = Err(MarketError::ValidationError(ValidationFault::FeeTooBig));
    assert_eq!(modify_settings(&mut m, acct(1), None, None, Some(10), None), fee_too_big);
    assert_eq!(modify_settings(&mut m, acct(1), None, None, None, Some(10)), fee_too_big);
    assert_eq!(m.admin_settings.nft_sale_fee, 5);
    assert_eq!(m.admin_settings.sale_fee, 5);
}

#[test]
fn modify_settings_updates_only_treasury() {
    let mut m = initialized(acct(1), acct(2), 5, 5);
    let r = modify_settings(&mut m, acct(1), None, Some(acct(7)), None, None);
    assert_eq!(r, Ok(()));
    assert_eq!(m.admin_settings.treasury, acct(7));
    assert_eq!(m.admin_settings.admin, acct(1));
    assert_eq!(m.admin_settings.nft_sale_fee, 5);
    assert_eq!(m.admin_settings.sale_fee, 5);
}

#[test]
fn modify_settings_applies_full_patch() {
    let mut m = initialized(acct(1), acct(2), 5, 5);
    let r = modify_settings(&mut m, acct(1), Some(acct(3)), Some(acct(4)), Some(1), Some(2));
    assert_eq!(r, Ok(()));
    assert_eq!(m.admin_settings.admin, acct(3));
    assert_eq!(m.admin_settings.treasury, acct(4));
    assert_eq!(m.admin_settings.nft_sale_fee, 1);
    assert_eq!(m.admin_settings.sale_fee, 2);
    let r2 = modify_settings(&mut m, acct(1), None, None, None, None);
    assert_eq!(r2, Err(MarketError::AuthorizationError));
}
