//! Selection of the trailing window that the average is taken over.
//!
//! The averager owns no state: it reads a suffix of the ledger of length
//! `min(WINDOW_SIZE, len)` and hands it out in insertion order. The
//! arithmetic mean itself is floating-point work and is left to the caller,
//! who divides the sum of the window by the window's length.

use vstd::prelude::*;

use crate::errors::LedgerError;
use crate::ledger::Ledger;
use crate::sample::PriceSample;

verus! {

/// How many of the most recent samples take part in the trailing average.
pub const WINDOW_SIZE: usize = 5;

/// The suffix of `records` that the trailing average is taken over: the last
/// `WINDOW_SIZE` records, or all of them when fewer exist.
pub open spec fn window_of(records: Seq<PriceSample>) -> Seq<PriceSample> {
    if records.len() <= WINDOW_SIZE {
        records
    } else {
        records.subrange(records.len() - WINDOW_SIZE, records.len() as int)
    }
}

/// What a query of the trailing average is specified by: the window to
/// average when records exist, `NoRecords` when none do. A pure function of
/// the ledger contents alone.
pub open spec fn query_result(records: Seq<PriceSample>) -> Result<Seq<PriceSample>, LedgerError> {
    if records.len() == 0 {
        Err(LedgerError::NoRecords)
    } else {
        Ok(window_of(records))
    }
}

/// Selects the records whose mean the trailing average is: exactly the last
/// `min(WINDOW_SIZE, len)` records, in insertion order.
///
/// Emptiness is decided by the record count alone: a ledger with records is
/// never reported empty, whatever values it holds. The query is read-only.
pub fn average_window(ledger: &Ledger) -> (r: Result<Vec<PriceSample>, LedgerError>)
    ensures
        ledger@.len() == 0 ==> r == Err::<Vec<PriceSample>, LedgerError>(LedgerError::NoRecords),
        ledger@.len() > 0 ==> (r matches Ok(w) && w@ == window_of(ledger@)),
{
    let n: usize = ledger.len();
    if n == 0 {
        return Err(LedgerError::NoRecords);
    }
    let start: usize = if n <= WINDOW_SIZE {
        0
    } else {
        n - WINDOW_SIZE
    };
    let mut window: Vec<PriceSample> = Vec::new();
    let mut i: usize = start;
    while i < n
        invariant
            start <= i <= n,
            n == ledger@.len(),
            n > 0,
            start == (if n <= WINDOW_SIZE { 0int } else { n - WINDOW_SIZE }),
            window@ == ledger@.subrange(start as int, i as int),
        decreases n - i,
    {
        let sample: PriceSample = match ledger.get(i) {
            Ok(sample) => sample,
            Err(e) => {
                return Err(e);
            },
        };
        window.push(sample);
        proof {
            assert(window@ =~= ledger@.subrange(start as int, i + 1));
        }
        i = i + 1;
    }
    proof {
        assert(window@ =~= window_of(ledger@));
    }
    Ok(window)
}

} // verus!
