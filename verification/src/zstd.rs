//! Zstandard compression of the service logs, done by the `ruzstd` crate

use vstd::prelude::*;
use std::io::Read;

verus! {

/// The Zstandard frame that `ruzstd` compresses `data` into at its fastest level
pub uninterp spec fn zstd_compressed(data: Seq<u8>) -> Seq<u8>;

/// The data a Zstandard frame decompresses to with `ruzstd`, or `None` when the
/// frame cannot be decoded
pub uninterp spec fn zstd_decompressed(frame: Seq<u8>) -> Option<Seq<u8>>;

/// Whether `ruzstd` accepts the header of a Zstandard frame
pub uninterp spec fn zstd_header_ok(frame: Seq<u8>) -> bool;

/// Compresses `data` into one Zstandard frame at the fastest level
/// (`ruzstd::encoding::compress_to_vec` with `CompressionLevel::Fastest`). The
/// result is named; that decoding it gives `data` back is what the crate's own
/// corpus tests check (`test_encode_corpus_files_compressed_our_decompressor`).
/// The frame starts with a standard frame header whose window (128 KiB) is
/// within the decoder's limit, so the decoder accepts its header.
#[verifier::external_body]
pub(crate) fn compress_fastest(data: &[u8]) -> (r: Vec<u8>)
    ensures
        r@ == zstd_compressed(data@),
        zstd_decompressed(r@) == Some(data@),
        zstd_header_ok(r@),
{
    ruzstd::encoding::compress_to_vec(data, ruzstd::encoding::CompressionLevel::Fastest)
}

/// Opens a decoder on a Zstandard frame
/// (`ruzstd::decoding::StreamingDecoder::new`), which reads the frame's
/// header. On failure the error's displayed text is returned; what it says is
/// not stated.
#[verifier::external_body]
pub(crate) fn open_frame(frame: &[u8]) -> (r: Result<(), String>)
    ensures
        r is Ok <==> zstd_header_ok(frame@),
{
    match ruzstd::decoding::StreamingDecoder::new(frame) {
        Ok(_) => Ok(()),
        Err(e) => Err(e.to_string()),
    }
}

/// Decompresses one Zstandard frame (`ruzstd::decoding::StreamingDecoder::new`
/// over the bytes, then `std::io::Read::read_to_end`). A frame that decodes
/// has a header the decoder accepts. On failure the error's displayed text is
/// returned; what it says is not stated.
#[verifier::external_body]
pub(crate) fn decompress(frame: &[u8]) -> (r: Result<Vec<u8>, String>)
    ensures
        r is Ok <==> zstd_decompressed(frame@) is Some,
        r matches Ok(v) ==> zstd_decompressed(frame@) == Some(v@) && zstd_header_ok(frame@),
{
    let mut decoder = match ruzstd::decoding::StreamingDecoder::new(frame) {
        Ok(d) => d,
        Err(e) => return Err(e.to_string()),
    };
    let mut out: Vec<u8> = Vec::new();
    match decoder.read_to_end(&mut out) {
        Ok(_) => Ok(out),
        Err(e) => Err(e.to_string()),
    }
}

} // verus!
