//! The public surface of the ledger: record a sample, query the trailing
//! average. Each call is atomic: it either leaves the ledger exactly as it
//! was (on any failure, and on every query) or extends it by exactly one
//! record (on a successful record).

use vstd::prelude::*;

use crate::averager;
use crate::averager::{query_result, window_of};
use crate::errors::LedgerError;
use crate::laws::{step, CallEvent};
use crate::ledger::Ledger;
use crate::sample::{all_records_admitted, is_normal_bits, validate, PriceSample};

verus! {

/// The ledger service. It owns the one ledger and is the only writer to it.
pub struct AveragePrice {
    records: Ledger,
}

impl View for AveragePrice {
    type V = Seq<PriceSample>;

    closed spec fn view(&self) -> Seq<PriceSample> {
        self.records@
    }
}

impl Default for AveragePrice {
    /// A fresh service over an empty ledger.
    fn default() -> (service: Self)
        ensures
            service@ == Seq::<PriceSample>::empty(),
            all_records_admitted(service@),
    {
        AveragePrice { records: Ledger::new() }
    }
}

impl AveragePrice {
    /// Records one price sample: validates it, then appends it.
    ///
    /// A sample whose pattern encodes a normal number — sign regardless — is
    /// appended at the end and nothing else changes. Any other sample is
    /// rejected and the ledger is left exactly as it was: validation comes
    /// before any mutation, so a failed call has no partial effect.
    pub fn set_last_price(&mut self, price: PriceSample) -> (r: Result<(), LedgerError>)
        ensures
            r is Ok <==> is_normal_bits(price.bits),
            is_normal_bits(price.bits) ==> final(self)@ == old(self)@.push(price),
            !is_normal_bits(price.bits) ==> (r == Err::<(), LedgerError>(LedgerError::Rejected)
                && final(self)@ == old(self)@),
            final(self)@ == step(old(self)@, CallEvent::Record(price)),
            final(self)@.len() >= old(self)@.len(),
            all_records_admitted(old(self)@) ==> all_records_admitted(final(self)@),
    {
        match validate(price) {
            Ok(()) => {
                self.records.append(price);
                Ok(())
            },
            Err(e) => Err(e),
        }
    }

    /// The records whose arithmetic mean is the trailing average: exactly
    /// the last `min(WINDOW_SIZE, len)` records, in insertion order, or
    /// `NoRecords` when the ledger is empty. Emptiness is decided by the
    /// record count alone. Read-only: the ledger is not touched.
    pub fn average_window(&self) -> (r: Result<Vec<PriceSample>, LedgerError>)
        ensures
            self@.len() == 0 ==> r == Err::<Vec<PriceSample>, LedgerError>(LedgerError::NoRecords),
            self@.len() > 0 ==> (r matches Ok(w) && w@ == window_of(self@)),
            (r matches Ok(w) ==> query_result(self@) == Ok::<Seq<PriceSample>, LedgerError>(w@)),
            (r matches Err(e) ==> query_result(self@) == Err::<Seq<PriceSample>, LedgerError>(e)),
    {
        averager::average_window(&self.records)
    }

    /// The number of records admitted so far.
    pub fn len(&self) -> (n: usize)
        ensures
            n == self@.len(),
    {
        self.records.len()
    }
}

} // verus!
