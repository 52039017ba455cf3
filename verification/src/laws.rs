//! The laws the ledger obeys under arbitrary call order.
//!
//! Every external call is an independent, atomic state transition: `step`
//! says what one call does to the ledger contents, `run` folds a whole call
//! sequence. The lemmas state the ledger's lifetime invariants over them.

use vstd::prelude::*;

use crate::averager::query_result;
use crate::sample::{all_records_admitted, is_normal_bits, PriceSample};

verus! {

/// One external call against the ledger service.
pub enum CallEvent {
    /// A record call carrying the candidate sample.
    Record(PriceSample),
    /// A read-only query of the trailing average.
    Query,
}

/// The ledger contents after one call: a record call of a normal sample
/// appends it at the end; a rejected record call and a query leave the
/// contents exactly as they were.
pub open spec fn step(records: Seq<PriceSample>, event: CallEvent) -> Seq<PriceSample> {
    match event {
        CallEvent::Record(sample) => if is_normal_bits(sample.bits) {
            records.push(sample)
        } else {
            records
        },
        CallEvent::Query => records,
    }
}

/// The ledger contents after a sequence of calls, applied in order.
pub open spec fn run(records: Seq<PriceSample>, events: Seq<CallEvent>) -> Seq<PriceSample>
    decreases events.len(),
{
    if events.len() == 0 {
        records
    } else {
        run(step(records, events[0]), events.drop_first())
    }
}

/// Monotonicity: across any sequence of calls, in any order, the ledger's
/// length never decreases.
pub proof fn lemma_len_monotonic(records: Seq<PriceSample>, events: Seq<CallEvent>)
    ensures
        run(records, events).len() >= records.len(),
    decreases events.len(),
{
    if events.len() > 0 {
        lemma_len_monotonic(step(records, events[0]), events.drop_first());
    }
}

/// Append-only: no call ever removes or rewrites a record. Whatever stands
/// at a position stays there, whatever calls follow.
pub proof fn lemma_records_immutable(records: Seq<PriceSample>, events: Seq<CallEvent>, i: int)
    requires
        0 <= i < records.len(),
    ensures
        run(records, events)[i] == records[i],
    decreases events.len(),
{
    if events.len() > 0 {
        lemma_records_immutable(step(records, events[0]), events.drop_first(), i);
    }
}

/// Validation guards every admission: under any sequence of calls, a ledger
/// that held only admitted samples still does — a rejected candidate never
/// reaches it.
pub proof fn lemma_only_admitted_records(records: Seq<PriceSample>, events: Seq<CallEvent>)
    requires
        all_records_admitted(records),
    ensures
        all_records_admitted(run(records, events)),
    decreases events.len(),
{
    if events.len() > 0 {
        lemma_only_admitted_records(step(records, events[0]), events.drop_first());
    }
}

/// A query is read-only and deterministic: it leaves the ledger as it was,
/// and its outcome is a function of the ledger contents alone — two queries
/// in a row see the same length and return the same result.
pub proof fn lemma_query_repeatable(before: Seq<PriceSample>, after: Seq<PriceSample>)
    requires
        after == step(before, CallEvent::Query),
    ensures
        after == before,
        after.len() == before.len(),
        query_result(after) == query_result(before),
{
}

} // verus!
