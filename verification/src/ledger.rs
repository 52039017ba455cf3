//! The append-only log of admitted samples.

use vstd::prelude::*;

use crate::errors::LedgerError;
use crate::sample::PriceSample;

verus! {

/// An ordered, append-only log of admitted price samples, indexed from zero
/// in insertion order. The log grows through `append` alone: no operation
/// removes or rewrites a record.
pub struct Ledger {
    records: Vec<PriceSample>,
}

impl View for Ledger {
    type V = Seq<PriceSample>;

    closed spec fn view(&self) -> Seq<PriceSample> {
        self.records@
    }
}

impl Ledger {
    /// Creates an empty ledger.
    pub fn new() -> (l: Ledger)
        ensures
            l@ == Seq::<PriceSample>::empty(),
    {
        Ledger { records: Vec::new() }
    }

    /// The number of records held.
    pub fn len(&self) -> (n: usize)
        ensures
            n == self@.len(),
    {
        self.records.len()
    }

    /// Appends one sample at the end and returns its position. Never fails
    /// on a sample that validation has already admitted.
    pub fn append(&mut self, sample: PriceSample) -> (index: usize)
        ensures
            final(self)@ == old(self)@.push(sample),
            index == old(self)@.len(),
    {
        let index: usize = self.records.len();
        self.records.push(sample);
        index
    }

    /// Positional read. Fails with `OutOfRange` exactly when the position is
    /// past the end; a defensive check that in-bounds callers never trip.
    pub fn get(&self, index: usize) -> (r: Result<PriceSample, LedgerError>)
        ensures
            index < self@.len() ==> r == Ok::<PriceSample, LedgerError>(self@[index as int]),
            index >= self@.len() ==> r == Err::<PriceSample, LedgerError>(LedgerError::OutOfRange),
    {
        if index < self.records.len() {
            Ok(self.records[index])
        } else {
            Err(LedgerError::OutOfRange)
        }
    }
}

} // verus!
