//! Durable state of one marketplace deployment and its abstract view.
//!
//! The deployment owns two singleton slots — the admin settings and the
//! global listing registry — plus one record slot per active listing,
//! addressed by the `(mint, seller)` pair. `Marketplace` gathers them in
//! one value; `MarketView` is its mathematical view, in which a slot that
//! has not been allocated yet is `None`.

use vstd::prelude::*;
use crate::AccountId;
use crate::constants::{
    MAX_NFT_SALE_FEE, MAX_SALE_FEE, GLOBAL_LISTINGS_SIZE, LISTINGS_SPACE_INCREMENT,
};
use crate::registry::{capacity_of, entries_backed, records_unique};

verus! {

/// The administrative settings singleton.
#[derive(Clone, Copy, Debug, PartialEq, Eq, Structural)]
pub struct AdminSettings {
    pub admin: AccountId,
    pub treasury: AccountId,
    pub nft_sale_fee: u8,
    pub sale_fee: u8,
}

/// One entry of the global listing registry.
#[derive(Clone, Copy, Debug, PartialEq, Eq, Structural)]
pub struct ListingReference {
    pub mint: AccountId,
    pub seller: AccountId,
}

/// The global listing registry: its entries and the byte size of its
/// backing storage, which bounds how many entries it may hold.
#[derive(Debug)]
pub struct GlobalListings {
    pub listings: Vec<ListingReference>,
    pub space: u64,
}

/// One listing record, stored at the address derived from `(mint, seller)`.
#[derive(Clone, Copy, Debug, PartialEq, Eq, Structural)]
pub struct ListingInfo {
    pub seller: AccountId,
    pub price: u64,
    pub mint: AccountId,
}

/// The custody system's view of one token account: what it holds and who
/// may move it. The marketplace never holds the balance itself; listing
/// only names the program as delegate for a single unit.
#[derive(Clone, Copy, Debug, PartialEq, Eq)]
pub struct TokenAccount {
    pub mint: AccountId,
    pub owner: AccountId,
    pub amount: u64,
    pub delegate: Option<AccountId>,
    pub delegated_amount: u64,
}

/// The fee bound was violated.
#[derive(Clone, Copy, Debug, PartialEq, Eq, Structural)]
pub enum ValidationFault {
    FeeTooBig,
}

/// Every failure an operation can surface. The host discards all
/// mutations of the enclosing transaction when one is returned.
#[derive(Clone, Copy, Debug, PartialEq, Eq, Structural)]
pub enum MarketError {
    /// The caller lacks the identity the operation demands.
    AuthorizationError,
    /// An input value is out of bounds.
    ValidationError(ValidationFault),
    /// The singleton slots already exist; `initialize` ran before.
    AlreadyInitializedError,
    /// The custody account is not the caller's account for this asset.
    NotOwnerError,
    /// The custody account does not hold exactly one unit.
    InvalidAmountError,
    /// A record for this `(mint, seller)` pair already occupies its slot.
    AlreadyListedError,
    /// The registry's backing storage has no room for another entry.
    CapacityError,
    /// No listing of this asset exists.
    NotFoundError,
    /// The asset is listed, but not by the caller.
    NotSellerError,
}

/// Abstract view of the registry slot.
#[verifier::ext_equal]
pub struct RegistryView {
    pub entries: Seq<ListingReference>,
    pub space: u64,
}

/// Abstract view of a whole deployment. `None` stands for a slot the
/// host has not allocated.
#[verifier::ext_equal]
pub struct MarketView {
    pub admin_settings: Option<AdminSettings>,
    pub registry: Option<RegistryView>,
    pub records: Seq<ListingInfo>,
}

impl MarketView {
    /// Both singleton slots exist: `initialize` has run.
    pub open spec fn is_initialized(self) -> bool {
        self.admin_settings is Some
    }

    /// The settings singleton, where it exists.
    pub open spec fn settings(self) -> AdminSettings
        recommends
            self.admin_settings is Some,
    {
        self.admin_settings->Some_0
    }

    /// The registry slot, where it exists.
    pub open spec fn reg(self) -> RegistryView
        recommends
            self.registry is Some,
    {
        self.registry->Some_0
    }

    /// Well-formedness of a deployment:
    /// the two singletons are created together; stored fees respect the
    /// bound; the registry's storage was grown only in fixed increments
    /// and is never overfilled; every registry entry refers to a live
    /// record; and record addresses are unique, one per `(mint, seller)`.
    pub open spec fn wf(self) -> bool {
        &&& (self.admin_settings is Some <==> self.registry is Some)
        &&& (self.admin_settings matches Some(s) ==> {
            &&& s.nft_sale_fee < MAX_NFT_SALE_FEE
            &&& s.sale_fee < MAX_SALE_FEE
        })
        &&& (self.registry matches Some(g) ==> {
            &&& g.space >= GLOBAL_LISTINGS_SIZE
            &&& (g.space - GLOBAL_LISTINGS_SIZE) % (LISTINGS_SPACE_INCREMENT as int) == 0
            &&& g.entries.len() <= capacity_of(g.space)
            &&& entries_backed(g.entries, self.records)
        })
        &&& (self.registry is None ==> self.records.len() == 0)
        &&& records_unique(self.records)
    }
}

/// In-memory image of one deployment's slots, as the host hands them to
/// an operation. Before `initialize` the singleton slots do not exist:
/// `initialized` is false and their fields carry no meaning, which is why
/// the view hides them behind `None`.
pub struct Marketplace {
    pub initialized: bool,
    pub admin_settings: AdminSettings,
    pub global_listings: GlobalListings,
    pub listing_records: Vec<ListingInfo>,
}

impl View for Marketplace {
    type V = MarketView;

    open spec fn view(&self) -> MarketView {
        MarketView {
            admin_settings: if self.initialized {
                Some(self.admin_settings)
            } else {
                None
            },
            registry: if self.initialized {
                Some(RegistryView { entries: self.global_listings.listings@, space: self.global_listings.space })
            } else {
                None
            },
            records: self.listing_records@,
        }
    }
}

impl Marketplace {
    /// A fresh deployment: no slot exists yet.
    pub fn new() -> (m: Marketplace)
        ensures
            m@.wf(),
            !m@.is_initialized(),
            m@.records.len() == 0,
    {
        Marketplace {
            initialized: false,
            admin_settings: AdminSettings {
                admin: AccountId { w0: 0, w1: 0, w2: 0, w3: 0 },
                treasury: AccountId { w0: 0, w1: 0, w2: 0, w3: 0 },
                nft_sale_fee: 0,
                sale_fee: 0,
            },
            global_listings: GlobalListings { listings: Vec::new(), space: 0 },
            listing_records: Vec::new(),
        }
    }

    /// Whether `initialize` has run on this deployment.
    pub fn is_initialized(&self) -> (b: bool)
        ensures
            b == self@.is_initialized(),
    {
        self.initialized
    }
}

} // verus!
