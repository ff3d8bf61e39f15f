//! The codecs under measurement: Brotli, and gzip, zlib and raw DEFLATE.
//!
//! What a codec writes for given bytes, and whether it writes anything, is
//! not described here. Each outcome is given a name, and the contracts say
//! which name a result equals.

use crate::measure::CodecError;
use std::io::Read;
use vstd::prelude::*;

verus! {

#[verifier::external_type_specification]
#[verifier::external_body]
pub struct ExIoError(std::io::Error);

/// A codec that can be measured.
#[derive(Debug, Clone, Copy, PartialEq, Eq)]
pub enum Codec {
    Brotli,
    Gzip,
    Zlib,
    Deflate,
}

/// How hard a codec tries.
#[derive(Debug, Clone, Copy, PartialEq, Eq)]
pub enum Quality {
    /// The fastest setting that still compresses.
    Fast,
    /// The setting that gives the smallest output.
    Best,
}

impl Quality {
    /// The level that stands for this quality, on the codecs' scale from 0
    /// to 9.
    pub open spec fn spec_level(self) -> u32 {
        match self {
            Quality::Fast => 1,
            Quality::Best => 9,
        }
    }

    /// The level that stands for this quality, on the codecs' scale from 0
    /// to 9.
    #[verifier::when_used_as_spec(spec_level)]
    pub fn level(self) -> (level: u32)
        ensures
            level == self.spec_level(),
    {
        match self {
            Quality::Fast => 1,
            Quality::Best => 9,
        }
    }
}

/// What the Brotli encoder gives for `data` at `level`: the stream, or
/// nothing where it fails.
pub uninterp spec fn brotli_stream(data: Seq<u8>, level: u32) -> Option<Seq<u8>>;

/// What the Brotli decoder gives for `stream`: the bytes that it decodes
/// to, or nothing where it fails.
pub uninterp spec fn brotli_content(stream: Seq<u8>) -> Option<Seq<u8>>;

/// What the gzip encoder gives for `data` at `level`: the member, or
/// nothing where it fails.
pub uninterp spec fn gzip_stream(data: Seq<u8>, level: u32) -> Option<Seq<u8>>;

/// What the gzip decoder gives for `stream`: the bytes that it decodes to,
/// or nothing where it fails.
pub uninterp spec fn gzip_content(stream: Seq<u8>) -> Option<Seq<u8>>;

/// What the zlib encoder gives for `data` at `level`: the stream, or
/// nothing where it fails.
pub uninterp spec fn zlib_stream(data: Seq<u8>, level: u32) -> Option<Seq<u8>>;

/// What the zlib decoder gives for `stream`: the bytes that it decodes to,
/// or nothing where it fails.
pub uninterp spec fn zlib_content(stream: Seq<u8>) -> Option<Seq<u8>>;

/// What the raw DEFLATE encoder gives for `data` at `level`: the stream, or
/// nothing where it fails.
pub uninterp spec fn deflate_stream(data: Seq<u8>, level: u32) -> Option<Seq<u8>>;

/// What the raw DEFLATE decoder gives for `stream`: the bytes that it
/// decodes to, or nothing where it fails.
pub uninterp spec fn deflate_content(stream: Seq<u8>) -> Option<Seq<u8>>;

/// What a codec call came to: the bytes where it succeeded, nothing where
/// it failed.
pub open spec fn bytes_of(outcome: Result<Vec<u8>, std::io::Error>) -> Option<Seq<u8>> {
    match outcome {
        Ok(bytes) => Some(bytes@),
        Err(_) => None,
    }
}

/// Reads `brotli2::read::BrotliEncoder` over `data` to its end. Trusted:
/// what the read gives, the bytes or a failure, depends on `data` and
/// `level` alone. Nothing is claimed of when the encoder fails.
#[verifier::external_body]
fn brotli_compress(data: &Vec<u8>, level: u32) -> (out: Result<Vec<u8>, std::io::Error>)
    requires
        level <= 9,
    ensures
        bytes_of(out) == brotli_stream(data@, level),
{
    let mut compressed: Vec<u8> = Vec::new();
    brotli2::read::BrotliEncoder::new(&data[..], level).read_to_end(&mut compressed)?;
    Ok(compressed)
}

/// Reads `brotli2::read::BrotliDecoder` over `stream` to its end. Trusted:
/// what the read gives, the bytes or a failure, depends on `stream` alone.
/// Nothing is claimed of when the decoder fails, nor that it undoes the
/// encoder.
#[verifier::external_body]
fn brotli_decompress(stream: &Vec<u8>) -> (out: Result<Vec<u8>, std::io::Error>)
    ensures
        bytes_of(out) == brotli_content(stream@),
{
    let mut decompressed: Vec<u8> = Vec::new();
    brotli2::read::BrotliDecoder::new(&stream[..]).read_to_end(&mut decompressed)?;
    Ok(decompressed)
}

/// Reads `flate2::read::GzEncoder` over `data` to its end. Trusted: what
/// the read gives, the bytes or a failure, depends on `data` and `level`
/// alone; the header that flate2 writes holds no time and no trace of the
/// machine. Nothing is claimed of when the encoder fails.
#[verifier::external_body]
fn gzip_compress(data: &Vec<u8>, level: u32) -> (out: Result<Vec<u8>, std::io::Error>)
    requires
        level <= 9,
    ensures
        bytes_of(out) == gzip_stream(data@, level),
{
    let mut compressed: Vec<u8> = Vec::new();
    flate2::read::GzEncoder::new(&data[..], flate2::Compression::new(level)).read_to_end(
        &mut compressed,
    )?;
    Ok(compressed)
}

/// Reads `flate2::read::GzDecoder` over `stream` to its end. Trusted: what
/// the read gives, the bytes or a failure, depends on `stream` alone.
/// Nothing is claimed of when the decoder fails, nor that it undoes the
/// encoder.
#[verifier::external_body]
fn gzip_decompress(stream: &Vec<u8>) -> (out: Result<Vec<u8>, std::io::Error>)
    ensures
        bytes_of(out) == gzip_content(stream@),
{
    let mut decompressed: Vec<u8> = Vec::new();
    flate2::read::GzDecoder::new(&stream[..]).read_to_end(&mut decompressed)?;
    Ok(decompressed)
}

/// Reads `flate2::read::ZlibEncoder` over `data` to its end. Trusted: what
/// the read gives, the bytes or a failure, depends on `data` and `level`
/// alone. Nothing is claimed of when the encoder fails.
#[verifier::external_body]
fn zlib_compress(data: &Vec<u8>, level: u32) -> (out: Result<Vec<u8>, std::io::Error>)
    requires
        level <= 9,
    ensures
        bytes_of(out) == zlib_stream(data@, level),
{
    let mut compressed: Vec<u8> = Vec::new();
    flate2::read::ZlibEncoder::new(&data[..], flate2::Compression::new(level)).read_to_end(
        &mut compressed,
    )?;
    Ok(compressed)
}

/// Reads `flate2::read::ZlibDecoder` over `stream` to its end. Trusted:
/// what the read gives, the bytes or a failure, depends on `stream` alone.
/// Nothing is claimed of when the decoder fails, nor that it undoes the
/// encoder.
#[verifier::external_body]
fn zlib_decompress(stream: &Vec<u8>) -> (out: Result<Vec<u8>, std::io::Error>)
    ensures
        bytes_of(out) == zlib_content(stream@),
{
    let mut decompressed: Vec<u8> = Vec::new();
    flate2::read::ZlibDecoder::new(&stream[..]).read_to_end(&mut decompressed)?;
    Ok(decompressed)
}

/// Reads `flate2::read::DeflateEncoder` over `data` to its end. Trusted:
/// what the read gives, the bytes or a failure, depends on `data` and
/// `level` alone. Nothing is claimed of when the encoder fails.
#[verifier::external_body]
fn deflate_compress(data: &Vec<u8>, level: u32) -> (out: Result<Vec<u8>, std::io::Error>)
    requires
        level <= 9,
    ensures
        bytes_of(out) == deflate_stream(data@, level),
{
    let mut compressed: Vec<u8> = Vec::new();
    flate2::read::DeflateEncoder::new(&data[..], flate2::Compression::new(level)).read_to_end(
        &mut compressed,
    )?;
    Ok(compressed)
}

/// Reads `flate2::read::DeflateDecoder` over `stream` to its end. Trusted:
/// what the read gives, the bytes or a failure, depends on `stream` alone.
/// Nothing is claimed of when the decoder fails, nor that it undoes the
/// encoder.
#[verifier::external_body]
fn deflate_decompress(stream: &Vec<u8>) -> (out: Result<Vec<u8>, std::io::Error>)
    ensures
        bytes_of(out) == deflate_content(stream@),
{
    let mut decompressed: Vec<u8> = Vec::new();
    flate2::read::DeflateDecoder::new(&stream[..]).read_to_end(&mut decompressed)?;
    Ok(decompressed)
}

/// What `codec` gives for `data` at `quality`: the stream, or nothing where
/// it fails.
pub open spec fn packed(codec: Codec, quality: Quality, data: Seq<u8>) -> Option<Seq<u8>> {
    match codec {
        Codec::Brotli => brotli_stream(data, quality.spec_level()),
        Codec::Gzip => gzip_stream(data, quality.spec_level()),
        Codec::Zlib => zlib_stream(data, quality.spec_level()),
        Codec::Deflate => deflate_stream(data, quality.spec_level()),
    }
}

/// What `codec` reads out of `stream`: the bytes, or nothing where it
/// fails.
pub open spec fn unpacked(codec: Codec, stream: Seq<u8>) -> Option<Seq<u8>> {
    match codec {
        Codec::Brotli => brotli_content(stream),
        Codec::Gzip => gzip_content(stream),
        Codec::Zlib => zlib_content(stream),
        Codec::Deflate => deflate_content(stream),
    }
}

/// What compressing `data` with `codec` at `quality` comes to: the stream,
/// or `CodecError::Compress` where the codec fails.
pub open spec fn compressed(codec: Codec, quality: Quality, data: Seq<u8>) -> Result<
    Seq<u8>,
    CodecError,
> {
    match packed(codec, quality, data) {
        Some(stream) => Ok(stream),
        None => Err(CodecError::Compress),
    }
}

/// What decompressing `stream` with `codec` comes to: the bytes, or
/// `CodecError::Decompress` where the codec fails.
pub open spec fn decompressed(codec: Codec, stream: Seq<u8>) -> Result<Seq<u8>, CodecError> {
    match unpacked(codec, stream) {
        Some(data) => Ok(data),
        None => Err(CodecError::Decompress),
    }
}

/// What a codec call amounts to once its outcome is known: the bytes
/// where it succeeded, `failure` where it did not.
pub open spec fn settled(outcome: Result<Vec<u8>, std::io::Error>, failure: CodecError) -> Result<
    Seq<u8>,
    CodecError,
> {
    match outcome {
        Ok(bytes) => Ok(bytes@),
        Err(_) => Err(failure),
    }
}

/// The view of a settled outcome: bytes by their sequence, the error as it
/// is.
pub open spec fn bytes_view(out: Result<Vec<u8>, CodecError>) -> Result<Seq<u8>, CodecError> {
    match out {
        Ok(bytes) => Ok(bytes@),
        Err(e) => Err(e),
    }
}

/// Keeps the bytes of a codec call that succeeded and reports `failure`
/// for one that did not.
pub fn settle(outcome: Result<Vec<u8>, std::io::Error>, failure: CodecError) -> (out: Result<
    Vec<u8>,
    CodecError,
>)
    ensures
        bytes_view(out) == settled(outcome, failure),
{
    match outcome {
        Ok(bytes) => Ok(bytes),
        Err(_) => Err(failure),
    }
}

/// Compresses `data` with `codec` at `quality`. The result is the codec's
/// stream for `data` where the codec gives one, and `CodecError::Compress`
/// where it fails.
pub fn compress(codec: Codec, quality: Quality, data: &Vec<u8>) -> (out: Result<
    Vec<u8>,
    CodecError,
>)
    ensures
        bytes_view(out) == compressed(codec, quality, data@),
{
    let level: u32 = quality.level();
    let outcome = match codec {
        Codec::Brotli => brotli_compress(data, level),
        Codec::Gzip => gzip_compress(data, level),
        Codec::Zlib => zlib_compress(data, level),
        Codec::Deflate => deflate_compress(data, level),
    };
    settle(outcome, CodecError::Compress)
}

/// Decompresses `stream` with `codec`. The result is what the codec reads
/// out of `stream` where it reads it to the end, and
/// `CodecError::Decompress` where it fails.
pub fn decompress(codec: Codec, stream: &Vec<u8>) -> (out: Result<Vec<u8>, CodecError>)
    ensures
        bytes_view(out) == decompressed(codec, stream@),
{
    let outcome = match codec {
        Codec::Brotli => brotli_decompress(stream),
        Codec::Gzip => gzip_decompress(stream),
        Codec::Zlib => zlib_decompress(stream),
        Codec::Deflate => deflate_decompress(stream),
    };
    settle(outcome, CodecError::Decompress)
}

} // verus!
