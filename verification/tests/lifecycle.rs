//! Tests of the listing lifecycle: `list_nft`, `delist_nft` and
//! `increase_listings_space`.

use an_smart_contracts::constants::{
    deployer_id, marketplace_program_id, GLOBAL_LISTINGS_SIZE, LISTINGS_SPACE_INCREMENT,
    LISTING_INFO_SIZE,
};
use an_smart_contracts::delist::delist_nft;
use an_smart_contracts::initialize::initialize;
use an_smart_contracts::list::list_nft;
use an_smart_contracts::listings_space::increase_listings_space;
use an_smart_contracts::state::{ListingReference, MarketError, Marketplace, TokenAccount};
use an_smart_contracts::AccountId;

fn acct(n: u64) -> AccountId {
    AccountId { w0: n, w1: 0, w2: 0, w3: 0 }
}

fn one_unit(mint: AccountId, owner: AccountId) -> TokenAccount {
    TokenAccount { mint, owner, amount: 1, delegate: None, delegated_amount: 0 }
}

fn market() -> Marketplace {
    let mut m = Marketplace::new();
    let r = initialize(&mut m, deployer_id(), acct(1), acct(2), 5, 5);
    assert_eq!(r, Ok(()));
    m
}

#[test]
fn list_creates_record_entry_and_grant() {
    let mut m = market();
    let owner = acct(10);
    let mint = acct(20);
    let mut tok = one_unit(mint, owner);
    let r = list_nft(&mut m, owner, mint, 100, &mut tok);
    assert_eq!(r, Ok(()));
    assert_eq!(m.global_listings.listings.len(), 1);
    assert_eq!(m.global_listings.listings[0], ListingReference { mint, seller: owner });
    assert_eq!(m.listing_records.len(), 1);
    assert_eq!(m.listing_records[0].seller, owner);
    assert_eq!(m.listing_records[0].price, 100);
    assert_eq!(m.listing_records[0].mint, mint);
    assert_eq!(tok.delegate, Some(marketplace_program_id()));
    assert_eq!(tok.delegated_amount, 1);
    assert_eq!(tok.amount, 1);
}

#[test]
fn list_rejects_foreign_token_account() {
    let mut m = market();
    let mut stranger_account = one_unit(acct(20), acct(11));
    let r = list_nft(&mut m, acct(10), acct(20), 100, &mut stranger_account);
    assert_eq!(r, Err(MarketError::NotOwnerError));
    let mut other_mint_account = one_unit(acct(21), acct(10));
    let r2 = list_nft(&mut m, acct(10), acct(20), 100, &mut other_mint_account);
    assert_eq!(r2, Err(MarketError::NotOwnerError));
    assert_eq!(m.global_listings.listings.len(), 0);
    assert_eq!(stranger_account.delegate, None);
}

#[test]
fn list_rejects_wrong_balance() {
    let mut m = market();
    let owner = acct(10);
    let mint = acct(20);
    let mut empty = TokenAccount { amount: 0, ..one_unit(mint, owner) };
    assert_eq!(list_nft(&mut m, owner, mint, 100, &mut empty), Err(MarketError::InvalidAmountError));
    let mut several = TokenAccount { amount: 2, ..one_unit(mint, owner) };
    assert_eq!(
        list_nft(&mut m, owner, mint, 100, &mut several),
        Err(MarketError::InvalidAmountError)
    );
    assert_eq!(m.global_listings.listings.len(), 0);
    assert_eq!(m.listing_records.len(), 0);
}

#[test]
fn list_rejects_occupied_address() {
    let mut m = market();
    let owner = acct(10);
    let mint = acct(20);
    let mut tok = one_unit(mint, owner);
    assert_eq!(list_nft(&mut m, owner, mint, 100, &mut tok), Ok(()));
    let mut again = one_unit(mint, owner);
    assert_eq!(list_nft(&mut m, owner, mint, 150, &mut again), Err(MarketError::AlreadyListedError));
    assert_eq!(m.global_listings.listings.len(), 1);
    assert_eq!(m.listing_records[0].price, 100);
}

#[test]
fn capacity_bounds_the_registry_and_growth_relieves_it() {
    let mut m = market();
    let owner = acct(10);
    let initial_capacity: u64 = (GLOBAL_LISTINGS_SIZE - 12) / 64;
    assert_eq!(initial_capacity, 159);
    for i in 0..initial_capacity {
        let mint = acct(1000 + i);
        let mut tok = one_unit(mint, owner);
        assert_eq!(list_nft(&mut m, owner, mint, 100, &mut tok), Ok(()));
    }
    assert_eq!(m.global_listings.listings.len() as u64, initial_capacity);

    let overflow_mint = acct(5000);
    let mut tok = one_unit(overflow_mint, owner);
    assert_eq!(
        list_nft(&mut m, owner, overflow_mint, 100, &mut tok),
        Err(MarketError::CapacityError)
    );
    assert_eq!(m.global_listings.listings.len() as u64, initial_capacity);
    assert_eq!(tok.delegate, None);

    assert_eq!(increase_listings_space(&mut m, acct(1)), Ok(()));
    assert_eq!(m.global_listings.space, GLOBAL_LISTINGS_SIZE + LISTINGS_SPACE_INCREMENT);
    assert_eq!(list_nft(&mut m, owner, overflow_mint, 100, &mut tok), Ok(()));
    assert_eq!(m.global_listings.listings.len() as u64, initial_capacity + 1);
}

#[test]
fn increase_listings_space_rejects_non_admin() {
    let mut m = market();
    assert_eq!(increase_listings_space(&mut m, acct(9)), Err(MarketError::AuthorizationError));
    assert_eq!(m.global_listings.space, GLOBAL_LISTINGS_SIZE);
}

#[test]
fn delist_restores_registry_and_returns_deposit() {
    let mut m = market();
    let owner = acct(10);
    let bystander = acct(11);
    let other_mint = acct(21);
    let mut other_tok = one_unit(other_mint, bystander);
    assert_eq!(list_nft(&mut m, bystander, other_mint, 50, &mut other_tok), Ok(()));
    let entries_before = m.global_listings.listings.clone();

    let mint = acct(20);
    let mut tok = one_unit(mint, owner);
    assert_eq!(list_nft(&mut m, owner, mint, 100, &mut tok), Ok(()));
    let r = delist_nft(&mut m, owner, mint, &mut tok);
    assert_eq!(r, Ok(LISTING_INFO_SIZE));
    assert_eq!(m.global_listings.listings, entries_before);
    assert_eq!(m.listing_records.len(), 1);
    assert_eq!(m.listing_records[0].mint, other_mint);
    assert_eq!(tok.delegate, None);
    assert_eq!(tok.delegated_amount, 0);
    assert_eq!(tok.amount, 1);
}

/// End to end: the deployer brings the deployment up, a seller lists one
/// unit of an asset, the grant appears on the custody account, and the
/// cancellation undoes all of it and returns the deposit.
#[test]
fn full_lifecycle_scenario() {
    let admin = acct(1);
    let treasury = acct(2);
    let owner = acct(30);
    let asset = acct(40);
    let mut m = Marketplace::new();
    assert_eq!(initialize(&mut m, deployer_id(), admin, treasury, 5, 5), Ok(()));

    let mut custody = one_unit(asset, owner);
    assert_eq!(list_nft(&mut m, owner, asset, 100, &mut custody), Ok(()));
    assert!(m
        .global_listings
        .listings
        .iter()
        .any(|e| e.mint == asset && e.seller == owner));
    assert!(m
        .listing_records
        .iter()
        .any(|r| r.seller == owner && r.price == 100 && r.mint == asset));
    assert_eq!(custody.delegate, Some(marketplace_program_id()));
    assert_eq!(custody.delegated_amount, 1);

    assert_eq!(delist_nft(&mut m, owner, asset, &mut custody), Ok(LISTING_INFO_SIZE));
    assert!(!m.global_listings.listings.iter().any(|e| e.mint == asset));
    assert!(m.listing_records.is_empty());
    assert_eq!(custody.delegate, None);
    assert_eq!(custody.delegated_amount, 0);
}

#[test]
fn delist_rejects_unknown_asset() {
    let mut m = market();
    let owner = acct(10);
    let mint = acct(20);
    let mut tok = one_unit(mint, owner);
    assert_eq!(delist_nft(&mut m, owner, mint, &mut tok), Err(MarketError::NotFoundError));
}

#[test]
fn delist_rejects_other_seller() {
    let mut m = market();
    let seller = acct(10);
    let intruder = acct(11);
    let mint = acct(20);
    let mut tok = one_unit(mint, seller);
    assert_eq!(list_nft(&mut m, seller, mint, 100, &mut tok), Ok(()));
    let mut intruder_tok = one_unit(mint, intruder);
    assert_eq!(
        delist_nft(&mut m, intruder, mint, &mut intruder_tok),
        Err(MarketError::NotSellerError)
    );
    assert_eq!(m.global_listings.listings.len(), 1);
    assert_eq!(m.listing_records.len(), 1);
}

/// Removal goes by the asset alone: when the registry holds entries for
/// the same asset under two sellers — possible when the asset changed
/// hands and was listed again — one seller's cancellation sweeps out
/// both entries, while the other seller's record survives.
#[test]
fn delist_removes_every_entry_of_the_asset() {
    let mut m = market();
    let first = acct(10);
    let second = acct(11);
    let mint = acct(20);
    let mut first_tok = one_unit(mint, first);
    assert_eq!(list_nft(&mut m, first, mint, 100, &mut first_tok), Ok(()));
    let mut second_tok = one_unit(mint, second);
    assert_eq!(list_nft(&mut m, second, mint, 120, &mut second_tok), Ok(()));
    assert_eq!(m.global_listings.listings.len(), 2);

    assert_eq!(delist_nft(&mut m, first, mint, &mut first_tok), Ok(LISTING_INFO_SIZE));
    assert_eq!(m.global_listings.listings.len(), 0);
    assert_eq!(m.listing_records.len(), 1);
    assert_eq!(m.listing_records[0].seller, second);
}
