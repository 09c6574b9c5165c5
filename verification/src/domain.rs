//! The records that the store hands out.

use vstd::prelude::*;

verus! {

/// One row of the observed-domains relation as a listing reads it.
#[derive(Debug)]
pub struct DomainRow {
    pub id: i64,
    pub name: String,
}

/// The columns of the observed-domains relation that a detail fetch reads.
#[derive(Debug, Clone, Copy)]
pub struct InfoRow {
    pub prevalent: bool,
    pub very_prevalent: bool,
    pub first_party_interaction: i32,
    pub first_party_store_access: i32,
}

/// One registrable domain that the browser observed.
///
/// A listing fills `id` and `name` only; the flags and counters keep their
/// defaults until a detail fetch fills them.
#[derive(Debug)]
pub struct Domain {
    pub id: i64,
    pub name: String,
    pub prevalent: bool,
    pub very_prevalent: bool,
    pub first_party_interaction: i32,
    pub first_party_store_access: i32,
}

/// The mathematical content of a [`Domain`].
pub ghost struct DomainView {
    pub id: int,
    pub name: Seq<char>,
    pub prevalent: bool,
    pub very_prevalent: bool,
    pub first_party_interaction: int,
    pub first_party_store_access: int,
}

/// A counter as the records carry it: what was stored, or zero where the
/// stored value is negative.
pub open spec fn counter(stored: int) -> int {
    if stored < 0 {
        0
    } else {
        stored
    }
}

/// The content of a domain as a listing returns it.
pub open spec fn listed(id: int, name: Seq<char>) -> DomainView {
    DomainView {
        id,
        name,
        prevalent: false,
        very_prevalent: false,
        first_party_interaction: 0,
        first_party_store_access: 0,
    }
}

/// The content of a domain after a detail fetch read `info` for it.
pub open spec fn detailed(id: int, name: Seq<char>, info: InfoRow) -> DomainView {
    DomainView {
        id,
        name,
        prevalent: info.prevalent,
        very_prevalent: info.very_prevalent,
        first_party_interaction: counter(info.first_party_interaction as int),
        first_party_store_access: counter(info.first_party_store_access as int),
    }
}

impl DomainView {
    /// Only `id` and `name` are filled.
    pub open spec fn is_listing(self) -> bool {
        self == listed(self.id, self.name)
    }

    /// Neither counter is negative.
    pub open spec fn wf(self) -> bool {
        self.first_party_interaction >= 0 && self.first_party_store_access >= 0
    }
}

impl View for Domain {
    type V = DomainView;

    open spec fn view(&self) -> DomainView {
        DomainView {
            id: self.id as int,
            name: self.name@,
            prevalent: self.prevalent,
            very_prevalent: self.very_prevalent,
            first_party_interaction: self.first_party_interaction as int,
            first_party_store_access: self.first_party_store_access as int,
        }
    }
}

impl Default for Domain {
    fn default() -> (d: Domain)
        ensures
            d@ == listed(0, Seq::<char>::empty()),
    {
        Domain {
            id: 0,
            name: String::new(),
            prevalent: false,
            very_prevalent: false,
            first_party_interaction: 0,
            first_party_store_access: 0,
        }
    }
}

impl Domain {
    /// A domain in the shape of a listing entry.
    pub fn listed(id: i64, name: String) -> (d: Domain)
        ensures
            d@ == listed(id as int, name@),
    {
        Domain {
            id,
            name,
            prevalent: false,
            very_prevalent: false,
            first_party_interaction: 0,
            first_party_store_access: 0,
        }
    }

    /// The same domain with the flags and counters that a detail fetch read.
    /// A negative stored counter counts as zero.
    pub fn with_info(&self, info: InfoRow) -> (d: Domain)
        ensures
            d@ == detailed(self@.id, self@.name, info),
            d@.wf(),
    {
        Domain {
            id: self.id,
            name: self.name.clone(),
            prevalent: info.prevalent,
            very_prevalent: info.very_prevalent,
            first_party_interaction: if info.first_party_interaction < 0 {
                0
            } else {
                info.first_party_interaction
            },
            first_party_store_access: if info.first_party_store_access < 0 {
                0
            } else {
                info.first_party_store_access
            },
        }
    }

    /// "Yes" for a domain flagged prevalent, "No" otherwise.
    pub fn is_prevalent(&self) -> (answer: &str)
        ensures
            answer@ == if self@.prevalent { "Yes"@ } else { "No"@ },
    {
        match self.prevalent {
            true => "Yes",
            false => "No",
        }
    }

    /// "Yes" for a domain flagged very prevalent, "No" otherwise.
    pub fn is_very_prevalent(&self) -> (answer: &str)
        ensures
            answer@ == if self@.very_prevalent { "Yes"@ } else { "No"@ },
    {
        match self.very_prevalent {
            true => "Yes",
            false => "No",
        }
    }

    /// Two records stand for one entity exactly when their identifiers agree,
    /// whichever of their other fields are filled.
    pub fn same_entity(&self, other: &Domain) -> (same: bool)
        ensures
            same == (self@.id == other@.id),
    {
        self.id == other.id
    }
}

/// Relationship counters of one domain towards the others.
#[derive(Debug, Clone, Copy, PartialEq, Eq, Structural)]
pub struct DomainInteraction {
    /// Top-frame domains under which this domain appeared as a subframe.
    pub iframes: i32,
    /// Top-frame domains that loaded this domain as a subresource.
    pub requests: i32,
    /// Top-frame domains that issued a unique redirect to this domain.
    pub redirects: i32,
}

impl DomainInteraction {
    /// No field is negative.
    pub open spec fn wf(&self) -> bool {
        self.iframes >= 0 && self.requests >= 0 && self.redirects >= 0
    }
}

impl Default for DomainInteraction {
    fn default() -> (d: DomainInteraction)
        ensures
            d == (DomainInteraction { iframes: 0, requests: 0, redirects: 0 }),
    {
        DomainInteraction { iframes: 0, requests: 0, redirects: 0 }
    }
}

} // verus!
