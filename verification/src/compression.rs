//! Zlib compression of the packed bytes, done by the `flate2` crate.

use flate2::read::ZlibDecoder;
use flate2::write::ZlibEncoder;
use flate2::Compression;
use std::io::{Read, Write};
use vstd::prelude::*;

verus! {

/// The zlib stream that `flate2` writes for `data` at its best compression
/// level.
pub uninterp spec fn zlib_deflated(data: Seq<u8>) -> Seq<u8>;

/// The bytes that `flate2` reads out of the zlib stream `data`, or `None`
/// where it rejects the stream.
pub uninterp spec fn zlib_inflated(data: Seq<u8>) -> Option<Seq<u8>>;

/// Compresses with `flate2::write::ZlibEncoder` at `Compression::best()`:
/// all of `bytes` is written to an encoder over an empty vector, and the
/// encoder is finished.
///
/// Trusted: the call succeeds, the stream that comes back is a function of
/// `bytes` alone, and inflating it gives `bytes` back. The encoder reports
/// only the I/O errors of its writer, and the writer here is a vector in
/// memory, which has none; the `Err` arm is there for the type of the call.
#[verifier::external_body]
pub(crate) fn zlib_compress(bytes: &[u8]) -> (result: Result<Vec<u8>, String>)
    ensures
        result is Ok,
        result->Ok_0@ == zlib_deflated(bytes@),
        zlib_inflated(result->Ok_0@) == Some(bytes@),
{
    let mut encoder = ZlibEncoder::new(Vec::new(), Compression::best());
    if let Err(e) = encoder.write_all(bytes) {
        return Err(e.to_string());
    }
    match encoder.finish() {
        Ok(compressed) => Ok(compressed),
        Err(e) => Err(e.to_string()),
    }
}

/// Decompresses with `flate2::read::ZlibDecoder`, reading the stream to its
/// end.
///
/// Trusted: whether the stream is accepted, and the bytes that come out of
/// it, are a function of `data` alone. A failure carries the text of the
/// I/O error that `flate2` reported.
#[verifier::external_body]
pub(crate) fn zlib_decompress(data: &[u8]) -> (result: Result<Vec<u8>, String>)
    ensures
        result is Ok ==> zlib_inflated(data@) == Some(result->Ok_0@),
        result is Err ==> zlib_inflated(data@) is None,
{
    let mut decoder = ZlibDecoder::new(data);
    let mut raw_bytes = Vec::new();
    match decoder.read_to_end(&mut raw_bytes) {
        Ok(_) => Ok(raw_bytes),
        Err(e) => Err(e.to_string()),
    }
}

} // verus!
