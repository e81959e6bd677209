//! Capacity growth: enlarging the registry's backing storage by one
//! fixed increment.

use vstd::prelude::*;
use vstd::arithmetic::div_mod::{
    lemma_div_is_ordered, lemma_hoist_over_denominator, lemma_mod_add_multiples_vanish,
};
use crate::AccountId;
use crate::constants::{GLOBAL_LISTINGS_SIZE, LISTINGS_SPACE_INCREMENT, REGISTRY_OVERHEAD};
use crate::registry::capacity_of;
use crate::state::{MarketError, MarketView, Marketplace, RegistryView};

verus! {

/// `increase_listings_space` succeeds exactly when the stored admin
/// calls it; it validates nothing else.
pub open spec fn grow_ok(pre: MarketView, caller: AccountId) -> bool {
    caller == pre.settings().admin
}

/// The deployment after a successful growth step: the registry's backing
/// storage is one increment larger; entries, records and settings are
/// untouched.
pub open spec fn grow_post(pre: MarketView) -> MarketView {
    MarketView {
        admin_settings: pre.admin_settings,
        registry: Some(RegistryView {
            entries: pre.reg().entries,
            space: (pre.reg().space + LISTINGS_SPACE_INCREMENT) as u64,
        }),
        records: pre.records,
    }
}

/// One growth step makes room for at least 159 more entries.
pub proof fn lemma_capacity_increment(space: u64)
    requires
        space >= REGISTRY_OVERHEAD,
        space + LISTINGS_SPACE_INCREMENT <= u64::MAX,
    ensures
        capacity_of((space + LISTINGS_SPACE_INCREMENT) as u64) >= capacity_of(space) + 159,
{
    let a = space as int - REGISTRY_OVERHEAD as int;
    lemma_hoist_over_denominator(a, 159, 64nat);
    lemma_div_is_ordered(a + 159 * 64, a + LISTINGS_SPACE_INCREMENT as int, 64);
}

/// Grow the registry's backing storage by one fixed increment.
///
/// Only the stored admin may call; the step size is pinned by the host's
/// per-operation resize ceiling, so the admin invokes this repeatedly,
/// ahead of demand, before the registry would otherwise overflow. Every
/// existing entry is preserved verbatim. The bound on the current size
/// is the machine limit of the byte counter.
pub fn increase_listings_space(m: &mut Marketplace, caller: AccountId) -> (result: Result<(), MarketError>)
    requires
        old(m)@.wf(),
        old(m)@.is_initialized(),
        old(m)@.reg().space + LISTINGS_SPACE_INCREMENT <= u64::MAX,
    ensures
        final(m)@.wf(),
        result is Ok <==> grow_ok(old(m)@, caller),
        result is Ok ==> final(m)@ == grow_post(old(m)@),
        result is Err ==> final(m)@ == old(m)@
            && result == Err::<(), MarketError>(MarketError::AuthorizationError),
{
    if !(caller == m.admin_settings.admin) {
        return Err(MarketError::AuthorizationError);
    }
    m.global_listings.space = m.global_listings.space + LISTINGS_SPACE_INCREMENT;
    proof {
        let pre = old(m)@;
        lemma_mod_add_multiples_vanish(
            pre.reg().space - GLOBAL_LISTINGS_SIZE as int,
            LISTINGS_SPACE_INCREMENT as int,
        );
        lemma_capacity_increment(pre.reg().space);
        assert(m@ =~= grow_post(pre));
    }
    Ok(())
}

} // verus!
