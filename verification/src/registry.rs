//! Membership and removal machinery of the listing registry and of the
//! content-addressed record store, with the lemmas the operations need.

use vstd::prelude::*;
use crate::AccountId;
use crate::constants::{REGISTRY_OVERHEAD, LISTING_REFERENCE_SIZE};
use crate::state::{ListingInfo, ListingReference};

verus! {

/// How many entries a registry slot of `space` bytes can hold.
pub open spec fn capacity_of(space: u64) -> int {
    (space as int - REGISTRY_OVERHEAD as int) / (LISTING_REFERENCE_SIZE as int)
}

/// Some registry entry names this asset.
pub open spec fn has_entry_mint(s: Seq<ListingReference>, mint: AccountId) -> bool
    decreases s.len(),
{
    s.len() > 0 && (s.last().mint == mint || has_entry_mint(s.drop_last(), mint))
}

/// A record occupies the address derived from `(mint, seller)`.
pub open spec fn has_record(s: Seq<ListingInfo>, mint: AccountId, seller: AccountId) -> bool
    decreases s.len(),
{
    s.len() > 0 && ((s.last().mint == mint && s.last().seller == seller)
        || has_record(s.drop_last(), mint, seller))
}

/// Some record, under any seller, lists this asset.
pub open spec fn has_record_mint(s: Seq<ListingInfo>, mint: AccountId) -> bool
    decreases s.len(),
{
    s.len() > 0 && (s.last().mint == mint || has_record_mint(s.drop_last(), mint))
}

/// The registry after removing every entry that names `mint`, order kept.
/// Removal goes by the asset alone, not by the `(mint, seller)` pair.
pub open spec fn drop_mint(s: Seq<ListingReference>, mint: AccountId) -> Seq<ListingReference>
    decreases s.len(),
{
    if s.len() == 0 {
        Seq::empty()
    } else if s.last().mint == mint {
        drop_mint(s.drop_last(), mint)
    } else {
        drop_mint(s.drop_last(), mint).push(s.last())
    }
}

/// The record store after clearing the address `(mint, seller)`, order kept.
pub open spec fn remove_record(s: Seq<ListingInfo>, mint: AccountId, seller: AccountId) -> Seq<ListingInfo>
    decreases s.len(),
{
    if s.len() == 0 {
        Seq::empty()
    } else if s.last().mint == mint && s.last().seller == seller {
        remove_record(s.drop_last(), mint, seller)
    } else {
        remove_record(s.drop_last(), mint, seller).push(s.last())
    }
}

/// Each `(mint, seller)` address holds at most one record.
pub open spec fn records_unique(s: Seq<ListingInfo>) -> bool
    decreases s.len(),
{
    s.len() == 0 || (records_unique(s.drop_last())
        && !has_record(s.drop_last(), s.last().mint, s.last().seller))
}

/// Every registry entry refers to a record that is still alive.
pub open spec fn entries_backed(entries: Seq<ListingReference>, records: Seq<ListingInfo>) -> bool
    decreases entries.len(),
{
    entries.len() == 0 || (entries_backed(entries.drop_last(), records)
        && has_record(records, entries.last().mint, entries.last().seller))
}

/// Appending a record adds exactly its own address to the membership.
pub proof fn lemma_has_record_push(s: Seq<ListingInfo>, x: ListingInfo, mint: AccountId, seller: AccountId)
    ensures
        has_record(s.push(x), mint, seller)
            == (has_record(s, mint, seller) || (x.mint == mint && x.seller == seller)),
{
    assert(s.push(x).drop_last() =~= s);
}

/// A record found at an index is a member.
pub proof fn lemma_has_record_index(s: Seq<ListingInfo>, i: int, mint: AccountId, seller: AccountId)
    requires
        0 <= i < s.len(),
        s[i].mint == mint,
        s[i].seller == seller,
    ensures
        has_record(s, mint, seller),
    decreases s.len(),
{
    if i < s.len() - 1 {
        assert(s.drop_last()[i] == s[i]);
        lemma_has_record_index(s.drop_last(), i, mint, seller);
    }
}

/// An asset found at an index is a member.
pub proof fn lemma_has_record_mint_index(s: Seq<ListingInfo>, i: int, mint: AccountId)
    requires
        0 <= i < s.len(),
        s[i].mint == mint,
    ensures
        has_record_mint(s, mint),
    decreases s.len(),
{
    if i < s.len() - 1 {
        assert(s.drop_last()[i] == s[i]);
        lemma_has_record_mint_index(s.drop_last(), i, mint);
    }
}

/// Appending keeps uniqueness exactly when the new address was free.
pub proof fn lemma_records_unique_push(s: Seq<ListingInfo>, x: ListingInfo)
    ensures
        records_unique(s.push(x)) == (records_unique(s) && !has_record(s, x.mint, x.seller)),
{
    assert(s.push(x).drop_last() =~= s);
}

/// Appending an entry keeps the registry backed exactly when the new
/// entry's record is alive.
pub proof fn lemma_entries_backed_push_entry(
    entries: Seq<ListingReference>,
    records: Seq<ListingInfo>,
    e: ListingReference,
)
    ensures
        entries_backed(entries.push(e), records)
            == (entries_backed(entries, records) && has_record(records, e.mint, e.seller)),
{
    assert(entries.push(e).drop_last() =~= entries);
}

/// Creating a record cannot orphan an existing registry entry.
pub proof fn lemma_entries_backed_push_record(
    entries: Seq<ListingReference>,
    records: Seq<ListingInfo>,
    r: ListingInfo,
)
    requires
        entries_backed(entries, records),
    ensures
        entries_backed(entries, records.push(r)),
    decreases entries.len(),
{
    if entries.len() > 0 {
        lemma_entries_backed_push_record(entries.drop_last(), records, r);
        lemma_has_record_push(records, r, entries.last().mint, entries.last().seller);
    }
}

/// Removing an absent asset changes nothing.
pub proof fn lemma_drop_mint_absent(s: Seq<ListingReference>, mint: AccountId)
    requires
        !has_entry_mint(s, mint),
    ensures
        drop_mint(s, mint) == s,
    decreases s.len(),
{
    if s.len() == 0 {
        assert(drop_mint(s, mint) =~= s);
    } else {
        lemma_drop_mint_absent(s.drop_last(), mint);
        assert(s.drop_last().push(s.last()) =~= s);
    }
}

/// Clearing a free address changes nothing.
pub proof fn lemma_remove_record_absent(s: Seq<ListingInfo>, mint: AccountId, seller: AccountId)
    requires
        !has_record(s, mint, seller),
    ensures
        remove_record(s, mint, seller) == s,
    decreases s.len(),
{
    if s.len() == 0 {
        assert(remove_record(s, mint, seller) =~= s);
    } else {
        lemma_remove_record_absent(s.drop_last(), mint, seller);
        assert(s.drop_last().push(s.last()) =~= s);
    }
}

/// Removal never lengthens the registry.
pub proof fn lemma_drop_mint_len(s: Seq<ListingReference>, mint: AccountId)
    ensures
        drop_mint(s, mint).len() <= s.len(),
    decreases s.len(),
{
    if s.len() > 0 {
        lemma_drop_mint_len(s.drop_last(), mint);
    }
}

/// After clearing one address, a record is a member exactly when it was
/// before and lives at a different address.
pub proof fn lemma_remove_record_membership(
    s: Seq<ListingInfo>,
    mint: AccountId,
    seller: AccountId,
    a: AccountId,
    b: AccountId,
)
    ensures
        has_record(remove_record(s, mint, seller), a, b)
            == (has_record(s, a, b) && !(a == mint && b == seller)),
    decreases s.len(),
{
    if s.len() > 0 {
        lemma_remove_record_membership(s.drop_last(), mint, seller, a, b);
        if !(s.last().mint == mint && s.last().seller == seller) {
            lemma_has_record_push(remove_record(s.drop_last(), mint, seller), s.last(), a, b);
        }
    }
}

/// Clearing an address keeps the remaining addresses unique.
pub proof fn lemma_remove_record_unique(s: Seq<ListingInfo>, mint: AccountId, seller: AccountId)
    requires
        records_unique(s),
    ensures
        records_unique(remove_record(s, mint, seller)),
    decreases s.len(),
{
    if s.len() > 0 {
        lemma_remove_record_unique(s.drop_last(), mint, seller);
        if !(s.last().mint == mint && s.last().seller == seller) {
            lemma_remove_record_membership(s.drop_last(), mint, seller, s.last().mint, s.last().seller);
            lemma_records_unique_push(remove_record(s.drop_last(), mint, seller), s.last());
        }
    }
}

/// Cancelling one listing keeps the registry backed: every surviving
/// entry names another asset, whose record the removal left alone.
pub proof fn lemma_entries_backed_delist(
    entries: Seq<ListingReference>,
    records: Seq<ListingInfo>,
    mint: AccountId,
    seller: AccountId,
)
    requires
        entries_backed(entries, records),
    ensures
        entries_backed(drop_mint(entries, mint), remove_record(records, mint, seller)),
    decreases entries.len(),
{
    if entries.len() > 0 {
        lemma_entries_backed_delist(entries.drop_last(), records, mint, seller);
        let e = entries.last();
        if e.mint != mint {
            lemma_remove_record_membership(records, mint, seller, e.mint, e.seller);
            lemma_entries_backed_push_entry(
                drop_mint(entries.drop_last(), mint),
                remove_record(records, mint, seller),
                e,
            );
        }
    }
}

/// Whether a record occupies the address `(mint, seller)`.
pub(crate) fn find_record(records: &Vec<ListingInfo>, mint: AccountId, seller: AccountId) -> (b: bool)
    ensures
        b == has_record(records@, mint, seller),
{
    let n = records.len();
    let mut i: usize = 0;
    while i < n
        invariant
            i <= n,
            n == records@.len(),
            !has_record(records@.subrange(0, i as int), mint, seller),
        decreases n - i,
    {
        let e = records[i];
        if e.mint == mint && e.seller == seller {
            proof {
                lemma_has_record_index(records@, i as int, mint, seller);
            }
            return true;
        }
        proof {
            assert(records@.subrange(0, i as int + 1).drop_last() =~= records@.subrange(0, i as int));
            assert(records@.subrange(0, i as int + 1).last() == records@[i as int]);
        }
        i = i + 1;
    }
    proof {
        assert(records@.subrange(0, n as int) =~= records@);
    }
    false
}

/// Whether any record, under any seller, lists this asset.
pub(crate) fn find_record_mint(records: &Vec<ListingInfo>, mint: AccountId) -> (b: bool)
    ensures
        b == has_record_mint(records@, mint),
{
    let n = records.len();
    let mut i: usize = 0;
    while i < n
        invariant
            i <= n,
            n == records@.len(),
            !has_record_mint(records@.subrange(0, i as int), mint),
        decreases n - i,
    {
        let e = records[i];
        if e.mint == mint {
            proof {
                lemma_has_record_mint_index(records@, i as int, mint);
            }
            return true;
        }
        proof {
            assert(records@.subrange(0, i as int + 1).drop_last() =~= records@.subrange(0, i as int));
            assert(records@.subrange(0, i as int + 1).last() == records@[i as int]);
        }
        i = i + 1;
    }
    proof {
        assert(records@.subrange(0, n as int) =~= records@);
    }
    false
}

/// Remove every registry entry that names `mint`, keeping the order of
/// the rest.
pub(crate) fn remove_entries_with_mint(listings: &mut Vec<ListingReference>, mint: AccountId)
    ensures
        final(listings)@ == drop_mint(old(listings)@, mint),
{
    let n = listings.len();
    let mut out: Vec<ListingReference> = Vec::new();
    let mut i: usize = 0;
    while i < n
        invariant
            i <= n,
            n == listings@.len(),
            listings@ == old(listings)@,
            out@ == drop_mint(listings@.subrange(0, i as int), mint),
        decreases n - i,
    {
        let e = listings[i];
        if e.mint != mint {
            out.push(e);
        }
        proof {
            assert(listings@.subrange(0, i as int + 1).drop_last() =~= listings@.subrange(0, i as int));
            assert(listings@.subrange(0, i as int + 1).last() == listings@[i as int]);
        }
        i = i + 1;
    }
    proof {
        assert(listings@.subrange(0, n as int) =~= listings@);
    }
    *listings = out;
}

/// Clear the record address `(mint, seller)`, keeping the order of the
/// other records.
pub(crate) fn remove_record_slot(records: &mut Vec<ListingInfo>, mint: AccountId, seller: AccountId)
    ensures
        final(records)@ == remove_record(old(records)@, mint, seller),
{
    let n = records.len();
    let mut out: Vec<ListingInfo> = Vec::new();
    let mut i: usize = 0;
    while i < n
        invariant
            i <= n,
            n == records@.len(),
            records@ == old(records)@,
            out@ == remove_record(records@.subrange(0, i as int), mint, seller),
        decreases n - i,
    {
        let e = records[i];
        if !(e.mint == mint && e.seller == seller) {
            out.push(e);
        }
        proof {
            assert(records@.subrange(0, i as int + 1).drop_last() =~= records@.subrange(0, i as int));
            assert(records@.subrange(0, i as int + 1).last() == records@[i as int]);
        }
        i = i + 1;
    }
    proof {
        assert(records@.subrange(0, n as int) =~= records@);
    }
    *records = out;
}

} // verus!
