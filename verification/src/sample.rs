//! Price samples as IEEE-754 double-precision bit patterns, and their
//! classification into the classes the validator cares about.

use vstd::prelude::*;

use crate::errors::LedgerError;

verus! {

/// One observed price, carried as the raw 64-bit encoding of an IEEE-754
/// double-precision value: one sign bit, 11 exponent bits, 52 fraction bits.
///
/// The ledger admits a sample only when its pattern encodes a normal number.
#[derive(Clone, Copy, PartialEq, Eq, Structural, Debug)]
pub struct PriceSample {
    /// The raw bit pattern of the value.
    pub bits: u64,
}

/// The 11-bit exponent field of a double-precision pattern.
pub open spec fn exponent_field(bits: u64) -> u64 {
    (bits >> 52) & 0x7ff
}

/// The 52-bit fraction field of a double-precision pattern.
pub open spec fn fraction_field(bits: u64) -> u64 {
    bits & 0xf_ffff_ffff_ffff
}

/// The pattern encodes a NaN: exponent all ones, fraction nonzero.
pub open spec fn is_nan_bits(bits: u64) -> bool {
    exponent_field(bits) == 0x7ff && fraction_field(bits) != 0
}

/// The pattern encodes +infinity or -infinity: exponent all ones, fraction zero.
pub open spec fn is_infinite_bits(bits: u64) -> bool {
    exponent_field(bits) == 0x7ff && fraction_field(bits) == 0
}

/// The pattern encodes +0.0 or -0.0: exponent zero, fraction zero.
pub open spec fn is_zero_bits(bits: u64) -> bool {
    exponent_field(bits) == 0 && fraction_field(bits) == 0
}

/// The pattern encodes a subnormal number: exponent zero, fraction nonzero.
pub open spec fn is_subnormal_bits(bits: u64) -> bool {
    exponent_field(bits) == 0 && fraction_field(bits) != 0
}

/// The pattern encodes a normal number: finite, nonzero, not subnormal.
/// The sign bit plays no part: a normal negative value is normal.
pub open spec fn is_normal_bits(bits: u64) -> bool {
    exponent_field(bits) != 0 && exponent_field(bits) != 0x7ff
}

impl PriceSample {
    /// Wraps a raw bit pattern, admitted or not, as a candidate sample.
    pub fn from_bits(bits: u64) -> (s: Self)
        ensures
            s.bits == bits,
    {
        PriceSample { bits }
    }

    /// Decides whether this sample's pattern encodes a normal number.
    pub fn is_normal(&self) -> (r: bool)
        ensures
            r == is_normal_bits(self.bits),
    {
        let exponent: u64 = (self.bits >> 52) & 0x7ff;
        exponent != 0 && exponent != 0x7ff
    }
}

/// Every record in the sequence encodes a normal number: what an append-only
/// ledger fed through validation alone always holds.
pub open spec fn all_records_admitted(records: Seq<PriceSample>) -> bool {
    forall|i: int| 0 <= i < records.len() ==> is_normal_bits(#[trigger] records[i].bits)
}

/// Classifies a candidate sample: admitted exactly when its pattern encodes
/// a normal number, rejected otherwise with the one rejection reason — which
/// of NaN, infinite, zero or subnormal failed is not distinguished.
///
/// The classification is sign-agnostic: a normal negative value is admitted,
/// as the stated validation rule has it.
pub fn validate(sample: PriceSample) -> (r: Result<(), LedgerError>)
    ensures
        r is Ok <==> is_normal_bits(sample.bits),
        !is_normal_bits(sample.bits) ==> r == Err::<(), LedgerError>(LedgerError::Rejected),
{
    if sample.is_normal() {
        Ok(())
    } else {
        Err(LedgerError::Rejected)
    }
}

/// The four rejected classes — NaN, infinite, zero, subnormal — cover exactly
/// the patterns that are not normal, and nothing else.
pub proof fn lemma_rejected_classes(bits: u64)
    ensures
        !is_normal_bits(bits) <==> (is_nan_bits(bits) || is_infinite_bits(bits)
            || is_zero_bits(bits) || is_subnormal_bits(bits)),
{
}

} // verus!
