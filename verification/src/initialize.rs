//! One-time creation of the settings singleton and the empty registry.

use vstd::prelude::*;
use crate::AccountId;
use crate::constants::{deployer, deployer_id, MAX_NFT_SALE_FEE, MAX_SALE_FEE, GLOBAL_LISTINGS_SIZE};
use crate::state::{
    AdminSettings, GlobalListings, MarketError, MarketView, Marketplace, RegistryView,
    ValidationFault,
};

verus! {

/// `initialize` succeeds exactly when the fixed deployer calls it on a
/// deployment whose slots do not exist yet, with both fees under the bound.
pub open spec fn initialize_ok(pre: MarketView, caller: AccountId, nft_sale_fee: u8, sale_fee: u8) -> bool {
    &&& caller == deployer()
    &&& !pre.is_initialized()
    &&& nft_sale_fee < MAX_NFT_SALE_FEE
    &&& sale_fee < MAX_SALE_FEE
}

/// The failure `initialize` surfaces, checked in this order: the caller's
/// identity, then the existing slots, then the fee bound.
pub open spec fn initialize_err(pre: MarketView, caller: AccountId, nft_sale_fee: u8, sale_fee: u8) -> MarketError {
    if caller != deployer() {
        MarketError::AuthorizationError
    } else if pre.is_initialized() {
        MarketError::AlreadyInitializedError
    } else {
        MarketError::ValidationError(ValidationFault::FeeTooBig)
    }
}

/// The deployment after a successful `initialize`: the settings hold the
/// given fields and the registry exists, empty, at its initial size.
pub open spec fn initialize_post(
    pre: MarketView,
    admin: AccountId,
    treasury: AccountId,
    nft_sale_fee: u8,
    sale_fee: u8,
) -> MarketView {
    MarketView {
        admin_settings: Some(AdminSettings { admin, treasury, nft_sale_fee, sale_fee }),
        registry: Some(RegistryView { entries: Seq::empty(), space: GLOBAL_LISTINGS_SIZE }),
        records: pre.records,
    }
}

/// Create the admin-settings singleton and the empty listing registry.
///
/// Only the fixed deployer may call; the slots are created at most once;
/// both fees must lie strictly under the bound. On failure nothing
/// changes, and the host discards the transaction.
pub fn initialize(
    m: &mut Marketplace,
    caller: AccountId,
    admin: AccountId,
    treasury: AccountId,
    nft_sale_fee: u8,
    sale_fee: u8,
) -> (result: Result<(), MarketError>)
    requires
        old(m)@.wf(),
    ensures
        final(m)@.wf(),
        result is Ok <==> initialize_ok(old(m)@, caller, nft_sale_fee, sale_fee),
        result is Ok ==> final(m)@ == initialize_post(old(m)@, admin, treasury, nft_sale_fee, sale_fee),
        result is Err ==> final(m)@ == old(m)@
            && result == Err::<(), MarketError>(initialize_err(old(m)@, caller, nft_sale_fee, sale_fee)),
{
    if !(caller == deployer_id()) {
        return Err(MarketError::AuthorizationError);
    }
    if m.initialized {
        return Err(MarketError::AlreadyInitializedError);
    }
    if !(nft_sale_fee < MAX_NFT_SALE_FEE && sale_fee < MAX_SALE_FEE) {
        return Err(MarketError::ValidationError(ValidationFault::FeeTooBig));
    }
    m.initialized = true;
    m.admin_settings = AdminSettings { admin, treasury, nft_sale_fee, sale_fee };
    m.global_listings = GlobalListings { listings: Vec::new(), space: GLOBAL_LISTINGS_SIZE };
    proof {
        assert(m@ =~= initialize_post(old(m)@, admin, treasury, nft_sale_fee, sale_fee));
    }
    Ok(())
}

} // verus!
