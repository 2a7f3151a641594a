//! The stream codecs: the identity and four framed compression formats.
//!
//! The compressed formats are produced and read by their own libraries. What
//! such a library returns is given a name here and is not described further;
//! the contracts of this module say which name stands for which call.

use crate::error::BenchError;
use vstd::prelude::*;

verus! {

/// Level handed to the gzip encoder by `Codec::Gzip1`.
pub const GZIP_FAST: u32 = 1;

/// Level handed to the gzip encoder by `Codec::Gzip9`.
pub const GZIP_BEST: u32 = 9;

/// Level handed to the zstd encoder.
pub const ZSTD_LEVEL: i32 = 3;

/// A stream format that text can be passed through on its way to a file.
#[derive(Clone, Copy, Debug, PartialEq, Eq, Structural)]
pub enum Codec {
    /// The bytes as they are.
    Raw,
    /// gzip at level 1.
    Gzip1,
    /// gzip at level 9.
    Gzip9,
    /// The LZ4 frame format with the encoder's defaults.
    Lz4,
    /// The Snappy frame format.
    Snap,
    /// zstd at level 3.
    Zstd,
}

/// `std::io::Error`, the error of every encoder, decoder, reader and writer
/// used here. It is carried through unread: nothing is claimed of what it
/// holds.
#[verifier::external_type_specification]
#[verifier::external_body]
pub struct ExIoError(std::io::Error);

/// The gzip stream that holds `data`, compressed at `level`; `None` where
/// the encoder reports an error.
pub uninterp spec fn gzip_stream(data: Seq<u8>, level: u32) -> Option<Seq<u8>>;

/// What a gzip stream holds; `None` where `stream` is no gzip stream.
pub uninterp spec fn gzip_content(stream: Seq<u8>) -> Option<Seq<u8>>;

/// The LZ4 frame that holds `data`; `None` where the encoder reports an
/// error.
pub uninterp spec fn lz4_stream(data: Seq<u8>) -> Option<Seq<u8>>;

/// What an LZ4 frame holds; `None` where `stream` is no LZ4 frame, or one
/// without its end.
pub uninterp spec fn lz4_content(stream: Seq<u8>) -> Option<Seq<u8>>;

/// The Snappy frame stream that holds `data`; `None` where the encoder
/// reports an error.
pub uninterp spec fn snap_stream(data: Seq<u8>) -> Option<Seq<u8>>;

/// What a Snappy frame stream holds; `None` where `stream` is none.
pub uninterp spec fn snap_content(stream: Seq<u8>) -> Option<Seq<u8>>;

/// The zstd frame that holds `data`, compressed at `level`; `None` where
/// the encoder reports an error.
pub uninterp spec fn zstd_stream(data: Seq<u8>, level: i32) -> Option<Seq<u8>>;

/// What a zstd stream holds; `None` where `stream` is no zstd stream.
pub uninterp spec fn zstd_content(stream: Seq<u8>) -> Option<Seq<u8>>;

/// Writes `data` through flate2's `write::GzEncoder` into memory and finishes
/// the stream. Claimed: the outcome, bytes or error, depends on the data and
/// the level alone and is the one named `gzip_stream`.
#[verifier::external_body]
pub(crate) fn gzip_compress(data: &Vec<u8>, level: u32) -> (r: Result<Vec<u8>, std::io::Error>)
    requires
        level <= 9,
    ensures
        match r {
            Ok(out) => gzip_stream(data@, level) == Some(out@),
            Err(_) => gzip_stream(data@, level) is None,
        },
{
    let mut encoder = flate2::write::GzEncoder::new(Vec::new(), flate2::Compression::new(level));
    std::io::Write::write_all(&mut encoder, data)?;
    encoder.finish()
}

/// Reads `stream` to its end through flate2's `read::GzDecoder`. Claimed: the
/// outcome depends on the bytes alone and is the one named `gzip_content`.
#[verifier::external_body]
pub(crate) fn gzip_decompress(stream: &Vec<u8>) -> (r: Result<Vec<u8>, std::io::Error>)
    ensures
        match r {
            Ok(out) => gzip_content(stream@) == Some(out@),
            Err(_) => gzip_content(stream@) is None,
        },
{
    let mut out = Vec::new();
    std::io::Read::read_to_end(&mut flate2::read::GzDecoder::new(stream.as_slice()), &mut out)?;
    Ok(out)
}

/// Writes `data` through an `lz4::Encoder` built by `lz4::EncoderBuilder`
/// with its defaults, and finishes the frame. Claimed: the outcome, bytes or
/// error, depends on the data alone and is the one named `lz4_stream`.
#[verifier::external_body]
pub(crate) fn lz4_compress(data: &Vec<u8>) -> (r: Result<Vec<u8>, std::io::Error>)
    ensures
        match r {
            Ok(out) => lz4_stream(data@) == Some(out@),
            Err(_) => lz4_stream(data@) is None,
        },
{
    let mut encoder = lz4::EncoderBuilder::new().build(Vec::new())?;
    std::io::Write::write_all(&mut encoder, data)?;
    let (out, done) = encoder.finish();
    done?;
    Ok(out)
}

/// Reads `stream` to its end through `lz4::Decoder` and asks
/// `Decoder::finish` whether the frame's end was reached. Claimed: the
/// outcome depends on the bytes alone and is the one named `lz4_content`.
#[verifier::external_body]
pub(crate) fn lz4_decompress(stream: &Vec<u8>) -> (r: Result<Vec<u8>, std::io::Error>)
    ensures
        match r {
            Ok(out) => lz4_content(stream@) == Some(out@),
            Err(_) => lz4_content(stream@) is None,
        },
{
    let mut decoder = lz4::Decoder::new(stream.as_slice())?;
    let mut out = Vec::new();
    std::io::Read::read_to_end(&mut decoder, &mut out)?;
    decoder.finish().1?;
    Ok(out)
}

/// Writes `data` through snap's `write::FrameEncoder` and takes the bytes out
/// with `into_inner`, which flushes. Claimed: the outcome, bytes or error,
/// depends on the data alone and is the one named `snap_stream`.
#[verifier::external_body]
pub(crate) fn snap_compress(data: &Vec<u8>) -> (r: Result<Vec<u8>, std::io::Error>)
    ensures
        match r {
            Ok(out) => snap_stream(data@) == Some(out@),
            Err(_) => snap_stream(data@) is None,
        },
{
    let mut encoder = snap::write::FrameEncoder::new(Vec::new());
    std::io::Write::write_all(&mut encoder, data)?;
    match encoder.into_inner() {
        Ok(out) => Ok(out),
        Err(e) => Err(e.into_error()),
    }
}

/// Reads `stream` to its end through snap's `read::FrameDecoder`. Claimed:
/// the outcome depends on the bytes alone and is the one named
/// `snap_content`.
#[verifier::external_body]
pub(crate) fn snap_decompress(stream: &Vec<u8>) -> (r: Result<Vec<u8>, std::io::Error>)
    ensures
        match r {
            Ok(out) => snap_content(stream@) == Some(out@),
            Err(_) => snap_content(stream@) is None,
        },
{
    let mut out = Vec::new();
    std::io::Read::read_to_end(&mut snap::read::FrameDecoder::new(stream.as_slice()), &mut out)?;
    Ok(out)
}

/// Writes `data` through `zstd::Encoder` at `level` and finishes the frame.
/// Claimed: the outcome, bytes or error, depends on the data and the level
/// alone and is the one named `zstd_stream`.
#[verifier::external_body]
pub(crate) fn zstd_compress(data: &Vec<u8>, level: i32) -> (r: Result<Vec<u8>, std::io::Error>)
    ensures
        match r {
            Ok(out) => zstd_stream(data@, level) == Some(out@),
            Err(_) => zstd_stream(data@, level) is None,
        },
{
    let mut encoder = zstd::Encoder::new(Vec::new(), level)?;
    std::io::Write::write_all(&mut encoder, data)?;
    encoder.finish()
}

/// Reads `stream` to its end through `zstd::Decoder`. Claimed: the outcome
/// depends on the bytes alone and is the one named `zstd_content`.
#[verifier::external_body]
pub(crate) fn zstd_decompress(stream: &Vec<u8>) -> (r: Result<Vec<u8>, std::io::Error>)
    ensures
        match r {
            Ok(out) => zstd_content(stream@) == Some(out@),
            Err(_) => zstd_content(stream@) is None,
        },
{
    let mut out = Vec::new();
    std::io::Read::read_to_end(&mut zstd::Decoder::new(stream.as_slice())?, &mut out)?;
    Ok(out)
}

/// The stream that `codec` makes of `data`; `None` where its encoder reports
/// an error.
pub open spec fn compressed(codec: Codec, data: Seq<u8>) -> Option<Seq<u8>> {
    match codec {
        Codec::Raw => Some(data),
        Codec::Gzip1 => gzip_stream(data, GZIP_FAST),
        Codec::Gzip9 => gzip_stream(data, GZIP_BEST),
        Codec::Lz4 => lz4_stream(data),
        Codec::Snap => snap_stream(data),
        Codec::Zstd => zstd_stream(data, ZSTD_LEVEL),
    }
}

/// What `codec` reads out of `stream`; `None` where it rejects the stream.
pub open spec fn decompressed(codec: Codec, stream: Seq<u8>) -> Option<Seq<u8>> {
    match codec {
        Codec::Raw => Some(stream),
        Codec::Gzip1 => gzip_content(stream),
        Codec::Gzip9 => gzip_content(stream),
        Codec::Lz4 => lz4_content(stream),
        Codec::Snap => snap_content(stream),
        Codec::Zstd => zstd_content(stream),
    }
}

/// The label of `codec` in a report.
pub open spec fn label_of(codec: Codec) -> Seq<char> {
    match codec {
        Codec::Raw => "raw"@,
        Codec::Gzip1 => "gzip(1)"@,
        Codec::Gzip9 => "gzip(9)"@,
        Codec::Lz4 => "lz4"@,
        Codec::Snap => "snap"@,
        Codec::Zstd => "zstd"@,
    }
}

/// Turns what an encoder or decoder handed back into the library's result:
/// the bytes where there are any, `failure` otherwise.
pub fn settle(outcome: Result<Vec<u8>, std::io::Error>, failure: BenchError) -> (r: Result<
    Vec<u8>,
    BenchError,
>)
    ensures
        match r {
            Ok(out) => outcome is Ok && out@ == outcome->Ok_0@,
            Err(e) => outcome is Err && e == failure,
        },
{
    match outcome {
        Ok(out) => Ok(out),
        Err(_) => Err(failure),
    }
}

/// A copy of `data`.
pub fn copy_bytes(data: &Vec<u8>) -> (out: Vec<u8>)
    ensures
        out@ == data@,
{
    let mut out: Vec<u8> = Vec::with_capacity(data.len());
    let mut i: usize = 0;
    while i < data.len()
        invariant
            i <= data.len(),
            out@ == data@.take(i as int),
        decreases data.len() - i,
    {
        out.push(data[i]);
        i = i + 1;
        assert(data@.take(i as int) =~= data@.take(i - 1).push(data@[i - 1]));
    }
    assert(data@.take(data.len() as int) =~= data@);
    out
}

impl Codec {
    /// The label under which the codec appears in a report.
    pub fn label(&self) -> (r: &'static str)
        ensures
            r@ == label_of(*self),
    {
        match self {
            Codec::Raw => "raw",
            Codec::Gzip1 => "gzip(1)",
            Codec::Gzip9 => "gzip(9)",
            Codec::Lz4 => "lz4",
            Codec::Snap => "snap",
            Codec::Zstd => "zstd",
        }
    }

    /// Passes `data` through the codec's encoder and finishes the stream, so
    /// that the result is complete and can be decoded by itself.
    ///
    /// Succeeds exactly when the codec has a stream for the data, and then
    /// returns that stream; fails with `Encode` otherwise. `Raw` has a stream
    /// for every data: the data itself.
    pub fn compress(&self, data: &Vec<u8>) -> (r: Result<Vec<u8>, BenchError>)
        ensures
            match r {
                Ok(out) => compressed(*self, data@) == Some(out@),
                Err(e) => e == BenchError::Encode && compressed(*self, data@) is None,
            },
    {
        match self {
            Codec::Raw => Ok(copy_bytes(data)),
            Codec::Gzip1 => settle(gzip_compress(data, GZIP_FAST), BenchError::Encode),
            Codec::Gzip9 => settle(gzip_compress(data, GZIP_BEST), BenchError::Encode),
            Codec::Lz4 => settle(lz4_compress(data), BenchError::Encode),
            Codec::Snap => settle(snap_compress(data), BenchError::Encode),
            Codec::Zstd => settle(zstd_compress(data, ZSTD_LEVEL), BenchError::Encode),
        }
    }

    /// Reads `stream` to its end through the codec's decoder.
    ///
    /// Succeeds exactly when the codec accepts the stream, and then returns
    /// what the stream holds; fails with `Decode` otherwise.
    pub fn decompress(&self, stream: &Vec<u8>) -> (r: Result<Vec<u8>, BenchError>)
        ensures
            match r {
                Ok(out) => decompressed(*self, stream@) == Some(out@),
                Err(e) => e == BenchError::Decode && decompressed(*self, stream@) is None,
            },
    {
        match self {
            Codec::Raw => Ok(copy_bytes(stream)),
            Codec::Gzip1 => settle(gzip_decompress(stream), BenchError::Decode),
            Codec::Gzip9 => settle(gzip_decompress(stream), BenchError::Decode),
            Codec::Lz4 => settle(lz4_decompress(stream), BenchError::Decode),
            Codec::Snap => settle(snap_decompress(stream), BenchError::Decode),
            Codec::Zstd => settle(zstd_decompress(stream), BenchError::Decode),
        }
    }
}

/// The identity codec gives back what it was given: it has a stream for
/// every data, and decoding that stream yields the data again.
pub proof fn raw_round_trip(data: Seq<u8>)
    ensures
        compressed(Codec::Raw, data) == Some(data),
        decompressed(Codec::Raw, compressed(Codec::Raw, data)->0) == Some(data),
{
}

} // verus!
