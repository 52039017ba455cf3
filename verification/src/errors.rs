//! The failures a call against the ledger can surface. Every failure aborts
//! the whole call and leaves the ledger exactly as it was.

use vstd::prelude::*;

verus! {

/// Why a call against the ledger failed.
#[derive(Clone, Copy, PartialEq, Eq, Structural, Debug)]
pub enum LedgerError {
    /// The candidate sample does not encode a normal number: it is NaN,
    /// infinite, zero or subnormal.
    Rejected,
    /// The ledger holds no records, so there is nothing to average.
    NoRecords,
    /// A positional read past the end of the ledger. Callers that stay in
    /// bounds never see it; if it surfaces, an internal invariant is broken.
    OutOfRange,
}

impl LedgerError {
    /// The message surfaced to the caller when this failure aborts a call.
    pub fn message(&self) -> (r: &'static str)
        ensures
            *self is Rejected ==> r@ == "Method set_last_price doesn't accept the number is neither zero, infinite, subnormal, or NaN"@,
            *self is NoRecords ==> r@ == "No records. Unable to calculate average value."@,
            *self is OutOfRange ==> r@ == "Unexpected error: Array index out of bounds."@,
    {
        match self {
            LedgerError::Rejected => "Method set_last_price doesn't accept the number is neither zero, infinite, subnormal, or NaN",
            LedgerError::NoRecords => "No records. Unable to calculate average value.",
            LedgerError::OutOfRange => "Unexpected error: Array index out of bounds.",
        }
    }
}

} // verus!
