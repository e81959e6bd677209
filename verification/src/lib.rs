//! State-management core of a capacity-bounded asset marketplace.
//!
//! The library models the durable state of one marketplace deployment —
//! the administrative settings singleton, the global listing registry and
//! the per-listing records — and verifies the five operations that mutate
//! it: `initialize`, `modify_settings`, `list_nft`, `delist_nft` and
//! `increase_listings_space`. The host ledger (account resolution,
//! signature checks, atomic commit, token delegation calls) lives outside
//! the library; it hands the operations plain values and performs the
//! actions they decide on.

use vstd::prelude::*;

pub mod constants;
pub mod delist;
pub mod initialize;
pub mod laws;
pub mod list;
pub mod listings_space;
pub mod modify_settings;
pub mod registry;
pub mod state;

verus! {

/// A 32-byte ledger identity (a public key), held as four 64-bit words.
#[derive(Clone, Copy, Debug, PartialEq, Eq, Structural)]
pub struct AccountId {
    pub w0: u64,
    pub w1: u64,
    pub w2: u64,
    pub w3: u64,
}

} // verus!
