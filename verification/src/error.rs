//! The closed set of failures the ledger reports.

use vstd::prelude::*;

verus! {

/// The rule a requested quantity has to meet.
#[derive(Debug, Clone, Copy, PartialEq, Eq, Structural)]
pub enum QuantityRule {
    /// An amount to add or to take away is strictly positive.
    Positive,
    /// An absolute quantity is zero or more.
    NonNegative,
}

/// Why an operation did not take place.
#[derive(Debug, Clone, Copy, PartialEq, Eq, Structural)]
pub enum LedgerError {
    /// The requested quantity breaks the rule named.
    Validation(QuantityRule),
    /// The product has no stock record.
    NotFound,
    /// A decrease asked for more than is in stock.
    InsufficientStock { available: i32, requested: i32 },
    /// The store could not carry the change out.
    StoreError,
}

} // verus!
