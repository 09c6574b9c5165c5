//! The snapshot of a listing that the cursor walks.

use crate::domain::{Domain, DomainView};
use crate::listing::views;
use vstd::prelude::*;

verus! {

/// An index that the catalog does not hold.
#[derive(Debug, Clone, Copy, PartialEq, Eq, Structural)]
pub struct IndexError {
    /// The index that was asked for.
    pub index: usize,
    /// The size of the catalog that was asked.
    pub size: usize,
}

/// The domains of one listing, in listing order. A catalog never changes
/// after it was made: a new listing makes a new catalog.
#[derive(Debug)]
pub struct DomainCatalog {
    domains: Vec<Domain>,
}

impl View for DomainCatalog {
    type V = Seq<DomainView>;

    closed spec fn view(&self) -> Seq<DomainView> {
        views(self.domains@)
    }
}

impl DomainCatalog {
    /// The catalog of the listing `domains`.
    pub fn new(domains: Vec<Domain>) -> (catalog: DomainCatalog)
        ensures
            catalog@ == views(domains@),
    {
        DomainCatalog { domains }
    }

    /// The listing that the catalog was made of.
    pub fn domains(&self) -> (domains: &Vec<Domain>)
        ensures
            views(domains@) == self@,
    {
        &self.domains
    }

    /// The number of domains in the catalog.
    pub fn size(&self) -> (size: usize)
        ensures
            size == self@.len(),
    {
        self.domains.len()
    }

    /// Whether the catalog holds no domain.
    pub fn is_empty(&self) -> (empty: bool)
        ensures
            empty == (self@.len() == 0),
    {
        self.domains.len() == 0
    }

    /// The domain at `index`, or the error that says how far the catalog
    /// reaches.
    pub fn at(&self, index: usize) -> (entry: Result<&Domain, IndexError>)
        ensures
            match entry {
                Ok(domain) => index < self@.len() && domain@ == self@[index as int],
                Err(error) => index >= self@.len() && error == (IndexError {
                    index,
                    size: self@.len() as usize,
                }),
            },
    {
        if index < self.domains.len() {
            Ok(&self.domains[index])
        } else {
            Err(IndexError { index, size: self.domains.len() })
        }
    }
}

} // verus!
