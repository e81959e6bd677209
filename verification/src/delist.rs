//! Listing cancellation: the listed-to-absent transition of one
//! `(mint, seller)` key.

use vstd::prelude::*;
use crate::AccountId;
use crate::constants::LISTING_INFO_SIZE;
use crate::registry::{
    drop_mint, find_record, find_record_mint, has_record, has_record_mint,
    lemma_drop_mint_len, lemma_entries_backed_delist, lemma_remove_record_unique,
    remove_entries_with_mint, remove_record, remove_record_slot,
};
use crate::state::{MarketError, MarketView, Marketplace, RegistryView, TokenAccount};

verus! {

/// `delist_nft` succeeds exactly when a record occupies the address
/// derived from `(mint, caller)`.
pub open spec fn delist_ok(pre: MarketView, caller: AccountId, mint: AccountId) -> bool {
    has_record(pre.records, mint, caller)
}

/// The failure `delist_nft` surfaces: no listing of this asset at all,
/// or a listing held by a different seller.
pub open spec fn delist_err(pre: MarketView, caller: AccountId, mint: AccountId) -> MarketError {
    if has_record_mint(pre.records, mint) {
        MarketError::NotSellerError
    } else {
        MarketError::NotFoundError
    }
}

/// The deployment after a successful `delist_nft`: the record at
/// `(mint, caller)` is destroyed, and every registry entry naming `mint`
/// is removed — removal goes by the asset alone, so entries another
/// seller may hold for the same asset go with it.
pub open spec fn delist_post(pre: MarketView, caller: AccountId, mint: AccountId) -> MarketView {
    MarketView {
        admin_settings: pre.admin_settings,
        registry: Some(RegistryView {
            entries: drop_mint(pre.reg().entries, mint),
            space: pre.reg().space,
        }),
        records: remove_record(pre.records, mint, caller),
    }
}

/// The custody account after the revocation: no delegate remains.
pub open spec fn revoked(token: TokenAccount) -> TokenAccount {
    TokenAccount {
        mint: token.mint,
        owner: token.owner,
        amount: token.amount,
        delegate: None,
        delegated_amount: 0,
    }
}

/// Cancel the caller's listing of `mint`.
///
/// The custody account is the caller's account for this asset; the host
/// binds it so before the operation runs. On success, atomically: the
/// transfer authorization is revoked, every registry entry naming `mint`
/// is removed, the record is destroyed, and the deposit held for its
/// storage — `LISTING_INFO_SIZE` bytes — is returned to the caller as
/// the `Ok` value. On failure nothing changes, and the host discards the
/// transaction.
pub fn delist_nft(
    m: &mut Marketplace,
    caller: AccountId,
    mint: AccountId,
    token: &mut TokenAccount,
) -> (result: Result<u64, MarketError>)
    requires
        old(m)@.wf(),
        old(m)@.is_initialized(),
        old(token).owner == caller,
        old(token).mint == mint,
    ensures
        final(m)@.wf(),
        result is Ok <==> delist_ok(old(m)@, caller, mint),
        result is Ok ==> final(m)@ == delist_post(old(m)@, caller, mint)
            && *final(token) == revoked(*old(token))
            && result == Ok::<u64, MarketError>(LISTING_INFO_SIZE),
        result is Err ==> final(m)@ == old(m)@ && *final(token) == *old(token)
            && result == Err::<u64, MarketError>(delist_err(old(m)@, caller, mint)),
{
    if !find_record(&m.listing_records, mint, caller) {
        if find_record_mint(&m.listing_records, mint) {
            return Err(MarketError::NotSellerError);
        }
        return Err(MarketError::NotFoundError);
    }
    token.delegate = None;
    token.delegated_amount = 0;
    remove_record_slot(&mut m.listing_records, mint, caller);
    remove_entries_with_mint(&mut m.global_listings.listings, mint);
    proof {
        let pre = old(m)@;
        lemma_drop_mint_len(pre.reg().entries, mint);
        lemma_remove_record_unique(pre.records, mint, caller);
        lemma_entries_backed_delist(pre.reg().entries, pre.records, mint, caller);
        assert(m@ =~= delist_post(pre, caller, mint));
    }
    Ok(LISTING_INFO_SIZE)
}

} // verus!
