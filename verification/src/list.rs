//! Listing creation: the absent-to-listed transition of one
//! `(mint, seller)` key.

use vstd::prelude::*;
use crate::AccountId;
use crate::constants::{
    marketplace_program_id, program_id, LISTING_REFERENCE_SIZE, REGISTRY_OVERHEAD,
};
use crate::registry::{
    capacity_of, find_record, has_record, lemma_entries_backed_push_entry,
    lemma_entries_backed_push_record, lemma_has_record_push, lemma_records_unique_push,
};
use crate::state::{
    ListingInfo, ListingReference, MarketError, MarketView, Marketplace, RegistryView,
    TokenAccount,
};

verus! {

/// `list_nft` succeeds exactly when the custody account is the caller's
/// account for this asset, holds exactly one unit, the record address
/// `(mint, caller)` is free, and the registry has room for one more entry.
pub open spec fn list_ok(pre: MarketView, caller: AccountId, mint: AccountId, token: TokenAccount) -> bool {
    &&& token.owner == caller
    &&& token.mint == mint
    &&& token.amount == 1
    &&& !has_record(pre.records, mint, caller)
    &&& pre.reg().entries.len() < capacity_of(pre.reg().space)
}

/// The failure `list_nft` surfaces, checked in this order: ownership of
/// the custody account, its balance, the record address, registry room.
pub open spec fn list_err(pre: MarketView, caller: AccountId, mint: AccountId, token: TokenAccount) -> MarketError {
    if !(token.owner == caller && token.mint == mint) {
        MarketError::NotOwnerError
    } else if token.amount != 1 {
        MarketError::InvalidAmountError
    } else if has_record(pre.records, mint, caller) {
        MarketError::AlreadyListedError
    } else {
        MarketError::CapacityError
    }
}

/// The deployment after a successful `list_nft`: the record exists with
/// the given price and one entry was appended to the registry; nothing
/// else moved.
pub open spec fn list_post(pre: MarketView, caller: AccountId, mint: AccountId, price: u64) -> MarketView {
    MarketView {
        admin_settings: pre.admin_settings,
        registry: Some(RegistryView {
            entries: pre.reg().entries.push(ListingReference { mint, seller: caller }),
            space: pre.reg().space,
        }),
        records: pre.records.push(ListingInfo { seller: caller, price, mint }),
    }
}

/// The custody account after the grant: the marketplace program is the
/// delegate for exactly one unit; holdings are untouched.
pub open spec fn granted(token: TokenAccount) -> TokenAccount {
    TokenAccount {
        mint: token.mint,
        owner: token.owner,
        amount: token.amount,
        delegate: Some(program_id()),
        delegated_amount: 1,
    }
}

/// Create a listing for one unit of `mint` at `price`.
///
/// On success, atomically: the program is granted a single-unit transfer
/// authorization over the custody account, the record is created at the
/// address `(mint, caller)`, and `{mint, caller}` is appended to the
/// registry. Any failure leaves deployment and custody account unchanged,
/// and the host discards the transaction.
pub fn list_nft(
    m: &mut Marketplace,
    caller: AccountId,
    mint: AccountId,
    price: u64,
    token: &mut TokenAccount,
) -> (result: Result<(), MarketError>)
    requires
        old(m)@.wf(),
        old(m)@.is_initialized(),
    ensures
        final(m)@.wf(),
        result is Ok <==> list_ok(old(m)@, caller, mint, *old(token)),
        result is Ok ==> final(m)@ == list_post(old(m)@, caller, mint, price)
            && *final(token) == granted(*old(token)),
        result is Err ==> final(m)@ == old(m)@ && *final(token) == *old(token)
            && result == Err::<(), MarketError>(list_err(old(m)@, caller, mint, *old(token))),
{
    if !(token.owner == caller && token.mint == mint) {
        return Err(MarketError::NotOwnerError);
    }
    if token.amount != 1 {
        return Err(MarketError::InvalidAmountError);
    }
    if find_record(&m.listing_records, mint, caller) {
        return Err(MarketError::AlreadyListedError);
    }
    proof {
        assert(m.global_listings.space >= REGISTRY_OVERHEAD);
    }
    let cap = (m.global_listings.space - REGISTRY_OVERHEAD) / LISTING_REFERENCE_SIZE;
    if m.global_listings.listings.len() as u64 >= cap {
        return Err(MarketError::CapacityError);
    }
    token.delegate = Some(marketplace_program_id());
    token.delegated_amount = 1;
    m.listing_records.push(ListingInfo { seller: caller, price, mint });
    m.global_listings.listings.push(ListingReference { mint, seller: caller });
    proof {
        let pre = old(m)@;
        let entry = ListingReference { mint, seller: caller };
        let record = ListingInfo { seller: caller, price, mint };
        lemma_records_unique_push(pre.records, record);
        lemma_has_record_push(pre.records, record, mint, caller);
        lemma_entries_backed_push_record(pre.reg().entries, pre.records, record);
        lemma_entries_backed_push_entry(pre.reg().entries, pre.records.push(record), entry);
        assert(m@ =~= list_post(pre, caller, mint, price));
    }
    Ok(())
}

} // verus!
