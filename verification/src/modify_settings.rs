//! Partial update of the admin-settings singleton.

use vstd::prelude::*;
use crate::AccountId;
use crate::constants::{MAX_NFT_SALE_FEE, MAX_SALE_FEE};
use crate::state::{AdminSettings, MarketError, MarketView, Marketplace, ValidationFault};

verus! {

/// The settings after applying a patch: each present field replaces the
/// stored one; an absent field leaves it untouched, never resets it.
pub open spec fn settings_patched(
    s: AdminSettings,
    admin: Option<AccountId>,
    treasury: Option<AccountId>,
    nft_sale_fee: Option<u8>,
    sale_fee: Option<u8>,
) -> AdminSettings {
    AdminSettings {
        admin: if admin is Some { admin->Some_0 } else { s.admin },
        treasury: if treasury is Some { treasury->Some_0 } else { s.treasury },
        nft_sale_fee: if nft_sale_fee is Some { nft_sale_fee->Some_0 } else { s.nft_sale_fee },
        sale_fee: if sale_fee is Some { sale_fee->Some_0 } else { s.sale_fee },
    }
}

/// `modify_settings` succeeds exactly when the stored admin calls it and
/// every present fee lies under the bound.
pub open spec fn modify_ok(
    pre: MarketView,
    caller: AccountId,
    nft_sale_fee: Option<u8>,
    sale_fee: Option<u8>,
) -> bool {
    &&& caller == pre.settings().admin
    &&& (nft_sale_fee matches Some(f) ==> f < MAX_NFT_SALE_FEE)
    &&& (sale_fee matches Some(f) ==> f < MAX_SALE_FEE)
}

/// The failure `modify_settings` surfaces: the caller's identity is
/// checked before the fee bounds.
pub open spec fn modify_err(
    pre: MarketView,
    caller: AccountId,
    nft_sale_fee: Option<u8>,
    sale_fee: Option<u8>,
) -> MarketError {
    if caller != pre.settings().admin {
        MarketError::AuthorizationError
    } else {
        MarketError::ValidationError(ValidationFault::FeeTooBig)
    }
}

/// The deployment after a successful `modify_settings`: only the settings
/// singleton changes, by the patch alone.
pub open spec fn modify_post(
    pre: MarketView,
    admin: Option<AccountId>,
    treasury: Option<AccountId>,
    nft_sale_fee: Option<u8>,
    sale_fee: Option<u8>,
) -> MarketView {
    MarketView {
        admin_settings: Some(settings_patched(pre.settings(), admin, treasury, nft_sale_fee, sale_fee)),
        registry: pre.registry,
        records: pre.records,
    }
}

/// Patch the settings singleton in place.
///
/// Only the stored admin may call. A present fee is re-validated against
/// the bound before anything is stored; on failure nothing changes, and
/// the host discards the transaction.
pub fn modify_settings(
    m: &mut Marketplace,
    caller: AccountId,
    admin: Option<AccountId>,
    treasury: Option<AccountId>,
    nft_sale_fee: Option<u8>,
    sale_fee: Option<u8>,
) -> (result: Result<(), MarketError>)
    requires
        old(m)@.wf(),
        old(m)@.is_initialized(),
    ensures
        final(m)@.wf(),
        result is Ok <==> modify_ok(old(m)@, caller, nft_sale_fee, sale_fee),
        result is Ok ==> final(m)@ == modify_post(old(m)@, admin, treasury, nft_sale_fee, sale_fee),
        result is Err ==> final(m)@ == old(m)@
            && result == Err::<(), MarketError>(modify_err(old(m)@, caller, nft_sale_fee, sale_fee)),
{
    if !(caller == m.admin_settings.admin) {
        return Err(MarketError::AuthorizationError);
    }
    if let Some(f) = nft_sale_fee {
        if !(f < MAX_NFT_SALE_FEE) {
            return Err(MarketError::ValidationError(ValidationFault::FeeTooBig));
        }
    }
    if let Some(f) = sale_fee {
        if !(f < MAX_SALE_FEE) {
            return Err(MarketError::ValidationError(ValidationFault::FeeTooBig));
        }
    }
    if let Some(a) = admin {
        m.admin_settings.admin = a;
    }
    if let Some(t) = treasury {
        m.admin_settings.treasury = t;
    }
    if let Some(f) = nft_sale_fee {
        m.admin_settings.nft_sale_fee = f;
    }
    if let Some(f) = sale_fee {
        m.admin_settings.sale_fee = f;
    }
    proof {
        assert(m@ =~= modify_post(old(m)@, admin, treasury, nft_sale_fee, sale_fee));
    }
    Ok(())
}

} // verus!
