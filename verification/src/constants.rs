//! Fixed identities, fee bounds and storage-layout sizes of the deployment.

use vstd::prelude::*;
use crate::AccountId;

verus! {

/// Exclusive upper bound on the NFT sale fee, in percent.
pub const MAX_NFT_SALE_FEE: u8 = 10;

/// Exclusive upper bound on the general sale fee, in percent.
pub const MAX_SALE_FEE: u8 = 10;

/// Bytes of the admin-settings slot: discriminator, two identities, two fees.
pub const ADMIN_SETTINGS_SIZE: u64 = 8 + 32 + 32 + 1 + 1;

/// Bytes one registry entry occupies: an asset identity and a seller identity.
pub const LISTING_REFERENCE_SIZE: u64 = 32 + 32;

/// Fixed registry overhead in bytes: discriminator plus the entry count.
pub const REGISTRY_OVERHEAD: u64 = 8 + 4;

/// Initial byte size of the registry slot: room for 159 entries, the most
/// the host allocates in one step.
pub const GLOBAL_LISTINGS_SIZE: u64 = 8 + 4 + 159 * (32 + 32);

/// Bytes added to the registry slot by one capacity-growth step, bounded by
/// the host's per-operation resize ceiling.
pub const LISTINGS_SPACE_INCREMENT: u64 = 10188;

/// Bytes of one listing-record slot: discriminator, price, seller, asset.
/// Destroying the record returns the deposit held for these bytes.
pub const LISTING_INFO_SIZE: u64 = 8 + 8 + 32 + 32;

/// The only identity allowed to initialize a deployment.
pub open spec fn deployer() -> AccountId {
    AccountId {
        w0: 0xae1bc45bcf0901cd,
        w1: 0xaa5e803e1345e13e,
        w2: 0x0cff50972f97eacf,
        w3: 0xb7c9051799a5695b,
    }
}

/// The marketplace program's own identity: the delegate named by every
/// transfer-authorization grant.
pub open spec fn program_id() -> AccountId {
    AccountId {
        w0: 0x60451fa795206c2f,
        w1: 0xdafe39e460e29111,
        w2: 0x121b85a8cb9086af,
        w3: 0x8a9ffd0041ea5b02,
    }
}

/// The fixed deployer identity, for executable callers.
pub fn deployer_id() -> (r: AccountId)
    ensures
        r == deployer(),
{
    AccountId {
        w0: 0xae1bc45bcf0901cd,
        w1: 0xaa5e803e1345e13e,
        w2: 0x0cff50972f97eacf,
        w3: 0xb7c9051799a5695b,
    }
}

/// The marketplace program identity, for executable callers.
pub fn marketplace_program_id() -> (r: AccountId)
    ensures
        r == program_id(),
{
    AccountId {
        w0: 0x60451fa795206c2f,
        w1: 0xdafe39e460e29111,
        w2: 0x121b85a8cb9086af,
        w3: 0x8a9ffd0041ea5b02,
    }
}

} // verus!
