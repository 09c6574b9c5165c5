//! The outcome of a single-row read, as plain data.

use vstd::prelude::*;

verus! {

/// What a read that expects one row came back with.
#[derive(Debug)]
pub enum Lookup<T> {
    /// The first matching row, decoded.
    Found(T),
    /// The query ran and matched no row.
    Missing,
    /// The query could not be run, or its row could not be decoded.
    Failed,
}

} // verus!
