//! From what the store answered to what the library hands out. Every
//! function here takes the answers as plain data, so its contract holds for
//! whatever a store may answer.

use crate::domain::{counter, detailed, listed, Domain, DomainInteraction, DomainRow, DomainView, InfoRow};
use crate::error::StoreError;
use crate::lookup::Lookup;
use vstd::prelude::*;

verus! {

/// The contents of a list of domains, in order.
pub open spec fn views(list: Seq<Domain>) -> Seq<DomainView> {
    list.map_values(|domain: Domain| domain@)
}

/// The listing entry that a decoded row stands for; nothing for a row that
/// failed to decode.
pub open spec fn listed_row(row: Option<DomainRow>) -> Option<DomainView> {
    match row {
        Some(row) => Some(listed(row.id as int, row.name@)),
        None => None,
    }
}

/// The unscoped listing of `rows`: one entry for each decoded row, in the
/// order of the rows, the undecodable ones left out.
pub open spec fn listing_of(rows: Seq<Option<DomainRow>>) -> Seq<DomainView> {
    rows.filter_map(|row: Option<DomainRow>| listed_row(row))
}

/// The entry for the scope name at `position`, given what its lookup found:
/// the row's identifier under that name, or the reason why there is none. A
/// row under another spelling than the scope's counts as no row.
pub open spec fn scoped_entry_of(position: usize, name: Seq<char>, found: Lookup<DomainRow>) -> Result<
    DomainView,
    StoreError,
> {
    match found {
        Lookup::Found(row) => if row.name@ == name {
            Ok(listed(row.id as int, name))
        } else {
            Err(StoreError::UnknownScopedDomain { position })
        },
        Lookup::Missing => Err(StoreError::UnknownScopedDomain { position }),
        Lookup::Failed => Err(StoreError::Connection),
    }
}

/// The populated record of `domain`, given what the detail lookup found.
pub open spec fn detail_of(domain: DomainView, found: Lookup<InfoRow>) -> Result<
    DomainView,
    StoreError,
> {
    match found {
        Lookup::Found(info) => Ok(detailed(domain.id, domain.name, info)),
        Lookup::Missing => Err(StoreError::NotFound),
        Lookup::Failed => Err(StoreError::Connection),
    }
}

/// A relation's count as shown: what was counted, zero where the lookup
/// found nothing usable.
pub open spec fn shown_count(found: Lookup<i32>) -> int {
    match found {
        Lookup::Found(count) => counter(count as int),
        _ => 0,
    }
}

/// The number of domains in a scope of `len` names, as far as 32 bits hold it.
pub open spec fn scope_count(len: nat) -> int {
    if len <= i32::MAX {
        len as int
    } else {
        i32::MAX as int
    }
}

/// The number of observed domains, given what the count query found.
pub open spec fn store_count(found: Lookup<i32>) -> Result<int, StoreError> {
    match found {
        Lookup::Found(count) => if count >= 0 {
            Ok(count as int)
        } else {
            Err(StoreError::Connection)
        },
        _ => Err(StoreError::Connection),
    }
}

/// What a result holds, with the domain taken by its view.
pub open spec fn entry_view(entry: Result<Domain, StoreError>) -> Result<DomainView, StoreError> {
    match entry {
        Ok(domain) => Ok(domain@),
        Err(error) => Err(error),
    }
}

/// What a count holds, as a mathematical integer.
pub open spec fn count_view(count: Result<i32, StoreError>) -> Result<int, StoreError> {
    match count {
        Ok(count) => Ok(count as int),
        Err(error) => Err(error),
    }
}

/// Builds the unscoped listing from the rows of the observed-domains
/// relation: rows that failed to decode are skipped, the others keep their
/// order.
pub fn listing(rows: Vec<Option<DomainRow>>) -> (list: Vec<Domain>)
    ensures
        views(list@) == listing_of(rows@),
        forall|i: int| 0 <= i < list.len() ==> (#[trigger] list[i]@).is_listing(),
{
    let mut list: Vec<Domain> = Vec::new();
    let mut at: usize = 0;
    while at < rows.len()
        invariant
            at <= rows.len(),
            views(list@) == listing_of(rows@.take(at as int)),
            forall|i: int| 0 <= i < list.len() ==> (#[trigger] list[i]@).is_listing(),
        decreases rows.len() - at,
    {
        let ghost before = list@;
        match &rows[at] {
            Some(row) => {
                list.push(Domain::listed(row.id, row.name.clone()));
            },
            None => {},
        }
        proof {
            rows@.lemma_filter_map_take_succ(|row: Option<DomainRow>| listed_row(row), at as int);
            assert(views(list@) =~= listing_of(rows@.take(at + 1)));
        }
        at += 1;
    }
    assert(rows@.take(rows.len() as int) =~= rows@);
    list
}

/// Turns the lookup of one scope name into its listing entry, or into the
/// error that ends the listing.
pub fn scoped_entry(position: usize, name: &String, found: Lookup<DomainRow>) -> (entry: Result<
    Domain,
    StoreError,
>)
    ensures
        entry_view(entry) == scoped_entry_of(position, name@, found),
{
    match found {
        Lookup::Found(row) => {
            if row.name == *name {
                Ok(Domain::listed(row.id, row.name))
            } else {
                Err(StoreError::UnknownScopedDomain { position })
            }
        },
        Lookup::Missing => Err(StoreError::UnknownScopedDomain { position }),
        Lookup::Failed => Err(StoreError::Connection),
    }
}

/// Turns the detail lookup for `domain` into its populated record, or into
/// the error that says why there is none.
pub fn detail(domain: &Domain, found: Lookup<InfoRow>) -> (populated: Result<Domain, StoreError>)
    ensures
        entry_view(populated) == detail_of(domain@, found),
        populated matches Ok(domain) ==> domain@.wf(),
{
    match found {
        Lookup::Found(info) => Ok(domain.with_info(info)),
        Lookup::Missing => Err(StoreError::NotFound),
        Lookup::Failed => Err(StoreError::Connection),
    }
}

/// Sums up what the three relation counts found into one record. A count
/// that is missing, failed or negative shows as zero and leaves the other
/// two as they are.
pub fn summarize(iframes: Lookup<i32>, requests: Lookup<i32>, redirects: Lookup<i32>) -> (summary:
    DomainInteraction)
    ensures
        summary.iframes == shown_count(iframes),
        summary.requests == shown_count(requests),
        summary.redirects == shown_count(redirects),
        summary.wf(),
{
    DomainInteraction {
        iframes: count_or_zero(iframes),
        requests: count_or_zero(requests),
        redirects: count_or_zero(redirects),
    }
}

/// One relation's count as shown.
pub fn count_or_zero(found: Lookup<i32>) -> (count: i32)
    ensures
        count == shown_count(found),
        count >= 0,
{
    match found {
        Lookup::Found(count) => if count < 0 {
            0
        } else {
            count
        },
        _ => 0,
    }
}

/// The size of a scope as a 32-bit count, saturating.
pub fn count_scope(scope: &Vec<String>) -> (count: i32)
    ensures
        count == scope_count(scope@.len()),
{
    let len: usize = scope.len();
    if len <= 0x7fff_ffff {
        len as i32
    } else {
        i32::MAX
    }
}

/// Turns what the count query found into the number of observed domains.
pub fn count_store(found: Lookup<i32>) -> (count: Result<i32, StoreError>)
    ensures
        count_view(count) == store_count(found),
{
    match found {
        Lookup::Found(count) => if count >= 0 {
            Ok(count)
        } else {
            Err(StoreError::Connection)
        },
        _ => Err(StoreError::Connection),
    }
}

/// Where every row decodes, the listing has one entry for each row, in the
/// order of the rows.
pub proof fn lemma_listing_keeps_decoded_rows(rows: Seq<Option<DomainRow>>)
    requires
        forall|i: int| 0 <= i < rows.len() ==> (#[trigger] rows[i]) is Some,
    ensures
        listing_of(rows).len() == rows.len(),
        forall|i: int|
            0 <= i < rows.len() ==> #[trigger] listing_of(rows)[i] == listed(
                rows[i]->0.id as int,
                rows[i]->0.name@,
            ),
    decreases rows.len(),
{
    if rows.len() > 0 {
        let front = rows.drop_last();
        assert forall|i: int| 0 <= i < front.len() implies (#[trigger] front[i]) is Some by {
            assert(front[i] == rows[i]);
        }
        lemma_listing_keeps_decoded_rows(front);
        assert forall|i: int| 0 <= i < rows.len() implies #[trigger] listing_of(rows)[i] == listed(
            rows[i]->0.id as int,
            rows[i]->0.name@,
        ) by {
            if i < front.len() {
                assert(front[i] == rows[i]);
                assert(listing_of(rows)[i] == listing_of(front)[i]);
            }
        }
    }
}

/// The count and the unscoped listing agree on a store that is intact: where
/// the store counts as many rows as it hands out and each of them decodes,
/// the number of observed domains is the length of the listing.
pub proof fn lemma_count_matches_listing(rows: Seq<Option<DomainRow>>, counted: i32)
    requires
        counted == rows.len(),
        forall|i: int| 0 <= i < rows.len() ==> (#[trigger] rows[i]) is Some,
    ensures
        store_count(Lookup::Found(counted)) == Ok::<int, StoreError>(listing_of(rows).len() as int),
{
    lemma_listing_keeps_decoded_rows(rows);
}

/// Whatever the three lookups found, no field of the summary is negative,
/// and lookups that found nothing sum up to all zeros.
pub proof fn lemma_summary_is_never_negative(found: Lookup<i32>)
    ensures
        shown_count(found) >= 0,
        !(found is Found) ==> shown_count(found) == 0,
        found == Lookup::Found(0i32) ==> shown_count(found) == 0,
{
}

} // verus!
