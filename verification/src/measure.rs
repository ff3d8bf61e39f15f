//! One measurement: how far a codec shrank one record, and how long the
//! cycle of compressing and decompressing it took.

use crate::fixed::lemma_scaled_quotient_of_equal;
use crate::fixed::saturate;
use crate::fixed::saturated;
use crate::fixed::scaled_quotient;
use crate::fixed::SCALE;
use vstd::prelude::*;

verus! {

/// The result of one codec on one record.
#[derive(Debug, Clone, Copy, PartialEq, Eq)]
pub struct TestRun {
    /// Compressed length over input length, in millionths, rounded down
    /// and saturating at `u64::MAX`.
    pub ratio: u64,
    /// Whole milliseconds that the cycle took, saturating at `u64::MAX`.
    pub millis: u64,
}

/// Why a record gave no measurement.
#[derive(Debug, Clone, Copy, PartialEq, Eq)]
pub enum CodecError {
    /// The record holds no byte, so there is no length to divide by.
    EmptyRecord,
    /// The codec failed while compressing.
    Compress,
    /// The codec failed while decompressing what it had compressed.
    Decompress,
}

/// The ratio of a compressed length to an input length as a `TestRun`
/// holds it.
pub open spec fn ratio_of(compressed_len: nat, input_len: nat) -> u64
    recommends
        input_len > 0,
{
    saturated(scaled_quotient(compressed_len, input_len))
}

/// The measurement that two lengths and an elapsed time amount to.
pub open spec fn measured(input_len: nat, compressed_len: nat, elapsed_millis: nat) -> Result<
    TestRun,
    CodecError,
> {
    if input_len == 0 {
        Err(CodecError::EmptyRecord)
    } else {
        Ok(
            TestRun {
                ratio: ratio_of(compressed_len, input_len),
                millis: saturated(elapsed_millis),
            },
        )
    }
}

/// An output as long as its input has ratio one.
pub proof fn lemma_ratio_of_equal_lengths(len: nat)
    requires
        len > 0,
    ensures
        ratio_of(len, len) == SCALE,
{
    lemma_scaled_quotient_of_equal(len);
}

/// Turns the lengths before and after compression and the elapsed time into
/// a measurement. An empty record has no ratio and is refused.
pub fn measure(input_len: usize, compressed_len: usize, elapsed_millis: u128) -> (out: Result<
    TestRun,
    CodecError,
>)
    ensures
        out == measured(input_len as nat, compressed_len as nat, elapsed_millis as nat),
{
    if input_len == 0 {
        return Err(CodecError::EmptyRecord);
    }
    assert(compressed_len * SCALE <= usize::MAX * SCALE) by (nonlinear_arith)
        requires
            compressed_len <= usize::MAX,
    ;
    let scaled: u128 = (compressed_len as u128) * (SCALE as u128) / (input_len as u128);
    Ok(TestRun { ratio: saturate(scaled), millis: saturate(elapsed_millis) })
}

} // verus!
