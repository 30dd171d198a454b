//! zlib streams for compressed frames.

use std::io::Read;
use std::io::Write;
use vstd::prelude::*;

verus! {

/// The zlib stream that the compressor gives for `data` at `level`; `None`
/// where it gives none.
pub uninterp spec fn zlib_deflated(data: Seq<u8>, level: u32) -> Option<Seq<u8>>;

/// The data that the decoder gives for a zlib stream; `None` for bytes that
/// the decoder refuses.
pub uninterp spec fn zlib_inflated(stream: Seq<u8>) -> Option<Seq<u8>>;

/// Compresses `data` into a zlib stream with `flate2::write::ZlibEncoder`
/// (`write_all`, then `finish`), which writes into a vector and depends on
/// nothing but the data and the level. The answer is what `zlib_deflated`
/// names, a stream or none, and inflating a stream gives `data` back: zlib
/// is lossless. Nothing is claimed about when the encoder gives none.
#[verifier::external_body]
pub(crate) fn deflate(data: &[u8], level: u32) -> (stream: Option<Vec<u8>>)
    requires
        level <= 9,
    ensures
        stream matches Some(bytes) ==> zlib_deflated(data@, level) == Some(bytes@),
        stream is None ==> zlib_deflated(data@, level) is None,
        stream matches Some(bytes) ==> zlib_inflated(bytes@) == Some(data@),
{
    let mut encoder = flate2::write::ZlibEncoder::new(Vec::new(), flate2::Compression::new(level));
    match encoder.write_all(data) {
        Ok(()) => encoder.finish().ok(),
        Err(_) => None,
    }
}

/// Inflates a zlib stream with `flate2::read::ZlibDecoder` (`read_to_end`).
/// The answer is what `zlib_inflated` names: the data for a complete stream,
/// nothing for bytes that the decoder refuses.
#[verifier::external_body]
pub(crate) fn inflate(stream: &[u8]) -> (data: Option<Vec<u8>>)
    ensures
        data matches Some(bytes) ==> zlib_inflated(stream@) == Some(bytes@),
        data is None ==> zlib_inflated(stream@) is None,
{
    let mut data = Vec::new();
    match flate2::read::ZlibDecoder::new(stream).read_to_end(&mut data) {
        Ok(_) => Some(data),
        Err(_) => None,
    }
}

} // verus!
