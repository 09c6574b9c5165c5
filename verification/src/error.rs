//! What can go wrong while reading the store.

use vstd::prelude::*;

verus! {

/// Failure of a read against the observation store.
#[derive(Debug, Clone, Copy, PartialEq, Eq, Structural)]
pub enum StoreError {
    /// The store cannot be opened or read, or lacks the observed-domains
    /// relation with the expected columns.
    Connection,
    /// The scope entry at `position` names a domain without a row.
    UnknownScopedDomain { position: usize },
    /// The identifier of a domain no longer resolves to a row.
    NotFound,
}

impl StoreError {
    /// Whether the session can go on after this failure: only a vanished row
    /// is local to one detail pane, the other two are fatal.
    pub open spec fn spec_is_recoverable(&self) -> bool {
        *self == StoreError::NotFound
    }

    #[verifier::when_used_as_spec(spec_is_recoverable)]
    pub fn is_recoverable(&self) -> (r: bool)
        ensures
            r == self.spec_is_recoverable(),
    {
        match self {
            StoreError::NotFound => true,
            _ => false,
        }
    }
}

} // verus!
