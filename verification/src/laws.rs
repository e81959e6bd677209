//! Laws relating the operations across calls, proved from the same spec
//! functions the operations' contracts use.

use vstd::prelude::*;
use crate::AccountId;
use crate::constants::{deployer, MAX_NFT_SALE_FEE, MAX_SALE_FEE, LISTINGS_SPACE_INCREMENT};
use crate::delist::{delist_ok, delist_post};
use crate::initialize::{initialize_err, initialize_ok, initialize_post};
use crate::list::{list_err, list_ok, list_post};
use crate::listings_space::{grow_ok, grow_post, lemma_capacity_increment};
use crate::modify_settings::{modify_err, modify_ok, modify_post};
use crate::registry::{
    capacity_of, has_entry_mint, has_record, lemma_drop_mint_absent, lemma_has_record_push,
    lemma_remove_record_absent,
};
use crate::state::{ListingInfo, ListingReference, MarketError, MarketView, TokenAccount, ValidationFault};

verus! {

/// Fee bound on creation: with the deployer calling on a fresh
/// deployment, `initialize` fails with the fee validation error whenever
/// either fee reaches the maximum, and succeeds whenever both lie below
/// it.
pub proof fn lemma_initialize_fee_bound(
    pre: MarketView,
    caller: AccountId,
    nft_sale_fee: u8,
    sale_fee: u8,
)
    requires
        pre.wf(),
        caller == deployer(),
        !pre.is_initialized(),
    ensures
        (nft_sale_fee >= MAX_NFT_SALE_FEE || sale_fee >= MAX_SALE_FEE)
            ==> !initialize_ok(pre, caller, nft_sale_fee, sale_fee)
                && initialize_err(pre, caller, nft_sale_fee, sale_fee)
                    == MarketError::ValidationError(ValidationFault::FeeTooBig),
        (nft_sale_fee < MAX_NFT_SALE_FEE && sale_fee < MAX_SALE_FEE)
            ==> initialize_ok(pre, caller, nft_sale_fee, sale_fee),
{
}

/// Fee bound on update: with the stored admin calling, `modify_settings`
/// fails with the fee validation error whenever a present fee reaches
/// the maximum, and succeeds whenever every present fee lies below it.
pub proof fn lemma_modify_settings_fee_bound(
    pre: MarketView,
    caller: AccountId,
    nft_sale_fee: u8,
    sale_fee: u8,
)
    requires
        pre.wf(),
        pre.is_initialized(),
        caller == pre.settings().admin,
    ensures
        (nft_sale_fee >= MAX_NFT_SALE_FEE || sale_fee >= MAX_SALE_FEE)
            ==> !modify_ok(pre, caller, Some(nft_sale_fee), Some(sale_fee))
                && modify_err(pre, caller, Some(nft_sale_fee), Some(sale_fee))
                    == MarketError::ValidationError(ValidationFault::FeeTooBig),
        (nft_sale_fee < MAX_NFT_SALE_FEE && sale_fee < MAX_SALE_FEE)
            ==> modify_ok(pre, caller, Some(nft_sale_fee), Some(sale_fee)),
{
}

/// Creation is guarded and one-time: any caller other than the fixed
/// deployer is turned away with the authorization error, and once a
/// deployment is initialized no second `initialize` can succeed, whoever
/// calls and whatever it carries.
pub proof fn lemma_initialize_once(
    pre: MarketView,
    caller: AccountId,
    admin: AccountId,
    treasury: AccountId,
    nft_sale_fee: u8,
    sale_fee: u8,
    second_caller: AccountId,
    second_nft_fee: u8,
    second_sale_fee: u8,
)
    requires
        pre.wf(),
    ensures
        caller != deployer() ==> !initialize_ok(pre, caller, nft_sale_fee, sale_fee)
            && initialize_err(pre, caller, nft_sale_fee, sale_fee) == MarketError::AuthorizationError,
        pre.is_initialized() ==> !initialize_ok(pre, caller, nft_sale_fee, sale_fee),
        initialize_ok(pre, caller, nft_sale_fee, sale_fee) ==> !initialize_ok(
            initialize_post(pre, admin, treasury, nft_sale_fee, sale_fee),
            second_caller,
            second_nft_fee,
            second_sale_fee,
        ),
{
}

/// Round trip: a successful listing followed at once by the same
/// seller's cancellation restores the deployment exactly — registry
/// entries, records and settings — provided the registry held no entry
/// for that asset beforehand. (Without that proviso the cancellation,
/// which removes entries by asset alone, would also sweep out another
/// seller's entry for the same asset.) The deposit the cancellation
/// returns is stated in the contract of `delist_nft`.
pub proof fn lemma_list_delist_round_trip(
    pre: MarketView,
    caller: AccountId,
    mint: AccountId,
    price: u64,
    token: TokenAccount,
)
    requires
        pre.wf(),
        pre.is_initialized(),
        list_ok(pre, caller, mint, token),
        !has_entry_mint(pre.reg().entries, mint),
    ensures
        delist_ok(list_post(pre, caller, mint, price), caller, mint),
        delist_post(list_post(pre, caller, mint, price), caller, mint) == pre,
{
    let mid = list_post(pre, caller, mint, price);
    let record = ListingInfo { seller: caller, price, mint };
    let entry = ListingReference { mint, seller: caller };
    lemma_has_record_push(pre.records, record, mint, caller);
    assert(pre.records.push(record).drop_last() =~= pre.records);
    lemma_remove_record_absent(pre.records, mint, caller);
    assert(pre.reg().entries.push(entry).drop_last() =~= pre.reg().entries);
    lemma_drop_mint_absent(pre.reg().entries, mint);
    assert(delist_post(mid, caller, mint) =~= pre);
}

/// Capacity is a hard bound with an administrative relief valve: on a
/// full registry an otherwise valid listing fails with the capacity
/// error, one growth step by the admin succeeds, and the same listing
/// then succeeds, leaving one entry more than before.
pub proof fn lemma_capacity_relief(
    pre: MarketView,
    admin_caller: AccountId,
    caller: AccountId,
    mint: AccountId,
    price: u64,
    token: TokenAccount,
)
    requires
        pre.wf(),
        pre.is_initialized(),
        token.owner == caller,
        token.mint == mint,
        token.amount == 1,
        !has_record(pre.records, mint, caller),
        pre.reg().entries.len() == capacity_of(pre.reg().space),
        admin_caller == pre.settings().admin,
        pre.reg().space + LISTINGS_SPACE_INCREMENT <= u64::MAX,
    ensures
        !list_ok(pre, caller, mint, token),
        list_err(pre, caller, mint, token) == MarketError::CapacityError,
        grow_ok(pre, admin_caller),
        list_ok(grow_post(pre), caller, mint, token),
        list_post(grow_post(pre), caller, mint, price).reg().entries.len()
            == pre.reg().entries.len() + 1,
{
    lemma_capacity_increment(pre.reg().space);
}

/// Partial update touches only what it names: a patch carrying a new
/// treasury and nothing else leaves the admin, both fees, the registry
/// and every record exactly as they were.
pub proof fn lemma_modify_settings_treasury_only(
    pre: MarketView,
    caller: AccountId,
    new_treasury: AccountId,
)
    requires
        pre.wf(),
        pre.is_initialized(),
        caller == pre.settings().admin,
    ensures
        modify_ok(pre, caller, None, None),
        ({
            let post = modify_post(pre, None, Some(new_treasury), None, None);
            &&& post.settings().treasury == new_treasury
            &&& post.settings().admin == pre.settings().admin
            &&& post.settings().nft_sale_fee == pre.settings().nft_sale_fee
            &&& post.settings().sale_fee == pre.settings().sale_fee
            &&& post.registry == pre.registry
            &&& post.records == pre.records
        }),
{
}

} // verus!
