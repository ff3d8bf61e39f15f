//! The algorithms under test. Each takes one record through a full cycle
//! of its codec, compressing and then decompressing, and reports how far
//! the record shrank and how long the cycle took.

use crate::codec::bytes_view;
use crate::codec::compress;
use crate::codec::compressed;
use crate::codec::decompress;
use crate::codec::decompressed;
use crate::codec::packed;
use crate::codec::unpacked;
use crate::codec::Codec;
use crate::codec::Quality;
use crate::fixed::saturate;
use crate::fixed::SCALE;
use crate::measure::lemma_ratio_of_equal_lengths;
use crate::measure::measure;
use crate::measure::ratio_of;
use crate::measure::CodecError;
use crate::measure::TestRun;
use crate::runner::ratio_determined;
use std::time::Instant;
use vstd::prelude::*;

verus! {

/// What one cycle of `codec` at `quality` over `data` reports, but for the
/// elapsed time, which is whatever the clock said.
///
/// Where the codec gives no stream for the record, that failure. Where it
/// gives one and cannot read it back, that failure. Where both went well
/// and the record holds no byte, the refusal of an empty record: it has no
/// length to divide by. Else a measurement, whose ratio is that of the
/// stream to the record.
pub open spec fn cycle_outcome(
    codec: Codec,
    quality: Quality,
    data: Seq<u8>,
    out: Result<TestRun, CodecError>,
) -> bool {
    match packed(codec, quality, data) {
        None => out == Err::<TestRun, CodecError>(CodecError::Compress),
        Some(stream) => match unpacked(codec, stream) {
            None => out == Err::<TestRun, CodecError>(CodecError::Decompress),
            Some(_) => if data.len() == 0 {
                out == Err::<TestRun, CodecError>(CodecError::EmptyRecord)
            } else {
                out matches Ok(run) && run.ratio == ratio_of(stream.len(), data.len())
            },
        },
    }
}

/// What the baseline reports for any record, but for the elapsed time: a
/// measurement with ratio one.
pub open spec fn baseline_outcome(out: Result<TestRun, CodecError>) -> bool {
    out matches Ok(run) && run.ratio == SCALE
}

/// Two measurements of one record by one codec at one quality have the
/// same ratio, whatever their elapsed times.
pub proof fn lemma_ratio_repeatable(
    codec: Codec,
    quality: Quality,
    data: Seq<u8>,
    first: TestRun,
    second: TestRun,
)
    requires
        cycle_outcome(codec, quality, data, Ok(first)),
        cycle_outcome(codec, quality, data, Ok(second)),
    ensures
        first.ratio == second.ratio,
{
}

/// Two baseline measurements have the same ratio, which is one.
pub proof fn lemma_baseline_ratio_repeatable(first: TestRun, second: TestRun)
    requires
        baseline_outcome(Ok(first)),
        baseline_outcome(Ok(second)),
    ensures
        first.ratio == second.ratio,
        first.ratio == SCALE,
{
}

/// `decompress` may succeed on `stream`.
pub open spec fn accepted<D: Fn(&Vec<u8>) -> Result<Vec<u8>, CodecError>>(
    decompress: D,
    stream: Vec<u8>,
) -> bool {
    exists|content: Vec<u8>| call_ensures(decompress, (&stream,), Ok(content))
}

/// What one cycle over `data` may report where `compress` and `decompress`
/// are the codec.
///
/// A measurement comes of a record that holds a byte, of a stream that
/// `compress` gave for the record and that `decompress` accepted, and its
/// ratio is that of the stream to the record. An error is the one that
/// `compress` gave for the record, or the one that `decompress` gave for
/// the stream, or the refusal of a record without a byte after both went
/// well.
pub open spec fn cycle_with_outcome<C, D>(
    compress: C,
    decompress: D,
    data: &Vec<u8>,
    out: Result<TestRun, CodecError>,
) -> bool where
    C: Fn(&Vec<u8>) -> Result<Vec<u8>, CodecError>,
    D: Fn(&Vec<u8>) -> Result<Vec<u8>, CodecError>,
{
    match out {
        Ok(run) => exists|stream: Vec<u8>|
            {
                &&& #[trigger] call_ensures(compress, (data,), Ok(stream))
                &&& accepted(decompress, stream)
                &&& data@.len() > 0
                &&& run.ratio == ratio_of(stream@.len(), data@.len())
            },
        Err(error) => {
            ||| call_ensures(compress, (data,), Err(error))
            ||| exists|stream: Vec<u8>|
                {
                    &&& #[trigger] call_ensures(compress, (data,), Ok(stream))
                    &&& call_ensures(decompress, (&stream,), Err(error))
                }
            ||| exists|stream: Vec<u8>|
                {
                    &&& #[trigger] call_ensures(compress, (data,), Ok(stream))
                    &&& accepted(decompress, stream)
                    &&& data@.len() == 0
                    &&& error == CodecError::EmptyRecord
                }
        },
    }
}

/// Times one cycle over `data` of the codec that `compress` and
/// `decompress` make up: compresses, decompresses what came out, and
/// measures. The first failure ends the cycle.
pub fn cycle_with<C, D>(compress: C, decompress: D, data: &Vec<u8>) -> (out: Result<
    TestRun,
    CodecError,
>) where
    C: Fn(&Vec<u8>) -> Result<Vec<u8>, CodecError>,
    D: Fn(&Vec<u8>) -> Result<Vec<u8>, CodecError>,

    requires
        call_requires(compress, (data,)),
        forall|stream: Vec<u8>|
            #[trigger] call_ensures(compress, (data,), Ok(stream)) ==> call_requires(
                decompress,
                (&stream,),
            ),
    ensures
        cycle_with_outcome(compress, decompress, data, out),
{
    let start = Instant::now();
    let compressed = compress(data)?;
    let _decompressed = decompress(&compressed)?;
    let elapsed: u128 = start.elapsed().as_millis();
    assert(accepted(decompress, compressed));
    measure(data.len(), compressed.len(), elapsed)
}

/// Times one cycle of `codec` at `quality` over `data`: compresses,
/// decompresses what came out, and measures. The first failure ends the
/// cycle.
pub fn timed_cycle(codec: Codec, quality: Quality, data: &Vec<u8>) -> (out: Result<
    TestRun,
    CodecError,
>)
    ensures
        cycle_outcome(codec, quality, data@, out),
{
    let pack = |input: &Vec<u8>| -> (stream: Result<Vec<u8>, CodecError>)
        ensures
            bytes_view(stream) == compressed(codec, quality, input@),
        { compress(codec, quality, input) };
    let unpack = |stream: &Vec<u8>| -> (content: Result<Vec<u8>, CodecError>)
        ensures
            bytes_view(content) == decompressed(codec, stream@),
        { decompress(codec, stream) };
    cycle_with(pack, unpack, data)
}

/// Brotli at its best quality.
pub fn brotli_test_good(data: Vec<u8>) -> (out: Result<TestRun, CodecError>)
    ensures
        cycle_outcome(Codec::Brotli, Quality::Best, data@, out),
{
    timed_cycle(Codec::Brotli, Quality::Best, &data)
}

/// Brotli at its fastest quality.
pub fn brotli_test_fast(data: Vec<u8>) -> (out: Result<TestRun, CodecError>)
    ensures
        cycle_outcome(Codec::Brotli, Quality::Fast, data@, out),
{
    timed_cycle(Codec::Brotli, Quality::Fast, &data)
}

/// Gzip at its best quality.
pub fn gzip_test_good(data: Vec<u8>) -> (out: Result<TestRun, CodecError>)
    ensures
        cycle_outcome(Codec::Gzip, Quality::Best, data@, out),
{
    timed_cycle(Codec::Gzip, Quality::Best, &data)
}

/// Gzip at its fastest quality.
pub fn gzip_test_fast(data: Vec<u8>) -> (out: Result<TestRun, CodecError>)
    ensures
        cycle_outcome(Codec::Gzip, Quality::Fast, data@, out),
{
    timed_cycle(Codec::Gzip, Quality::Fast, &data)
}

/// Zlib at its best quality.
pub fn zlib_test_good(data: Vec<u8>) -> (out: Result<TestRun, CodecError>)
    ensures
        cycle_outcome(Codec::Zlib, Quality::Best, data@, out),
{
    timed_cycle(Codec::Zlib, Quality::Best, &data)
}

/// Zlib at its fastest quality.
pub fn zlib_test_fast(data: Vec<u8>) -> (out: Result<TestRun, CodecError>)
    ensures
        cycle_outcome(Codec::Zlib, Quality::Fast, data@, out),
{
    timed_cycle(Codec::Zlib, Quality::Fast, &data)
}

/// Raw DEFLATE at its best quality.
pub fn deflate_test_good(data: Vec<u8>) -> (out: Result<TestRun, CodecError>)
    ensures
        cycle_outcome(Codec::Deflate, Quality::Best, data@, out),
{
    timed_cycle(Codec::Deflate, Quality::Best, &data)
}

/// Raw DEFLATE at its fastest quality.
pub fn deflate_test_fast(data: Vec<u8>) -> (out: Result<TestRun, CodecError>)
    ensures
        cycle_outcome(Codec::Deflate, Quality::Fast, data@, out),
{
    timed_cycle(Codec::Deflate, Quality::Fast, &data)
}

/// The baseline: no codec at all. The record is copied where a codec would
/// compress, and the copy copied where a codec would decompress, so the
/// ratio is one and the time is the floor that every codec adds to. That
/// holds of every record: one without a byte is copied like any other and
/// nothing is added to it, so its ratio is one as well, with no division.
pub fn dummy_test(data: Vec<u8>) -> (out: Result<TestRun, CodecError>)
    ensures
        baseline_outcome(out),
{
    let start = Instant::now();
    let compressed = data.clone();
    let _decompressed = compressed.clone();
    let elapsed: u128 = start.elapsed().as_millis();
    if data.len() == 0 {
        Ok(TestRun { ratio: SCALE, millis: saturate(elapsed) })
    } else {
        proof {
            lemma_ratio_of_equal_lengths(data.len() as nat);
        }
        measure(data.len(), compressed.len(), elapsed)
    }
}

/// Every algorithm of this module gives records that hold the same bytes
/// the same ratio.
pub proof fn lemma_algorithms_ratio_determined()
    ensures
        ratio_determined(brotli_test_good),
        ratio_determined(brotli_test_fast),
        ratio_determined(gzip_test_good),
        ratio_determined(gzip_test_fast),
        ratio_determined(zlib_test_good),
        ratio_determined(zlib_test_fast),
        ratio_determined(deflate_test_good),
        ratio_determined(deflate_test_fast),
        ratio_determined(dummy_test),
{
}

} // verus!
