use vstd::prelude::*;

use crate::errors::PipelineError;
use std::io::Read;

verus! {

/// The bytes that zlib inflation recovers from `c`: `Some` of the fully
/// expanded stream exactly when `c` is a complete, well-formed zlib stream,
/// `None` when the stream header is invalid or the stream is corrupt or
/// truncated. Inflation is a function of the input bytes alone.
pub uninterp spec fn zlib_inflate(c: Seq<u8>) -> Option<Seq<u8>>;

/// Relies on `flate2::read::ZlibDecoder` driven by
/// `std::io::Read::read_to_end`: it expands the whole stream into memory in
/// one pass, returns an error on a corrupt or truncated stream, and never
/// panics; the outcome depends only on the input bytes.
#[verifier::external_body]
fn zlib_decompress(data: &[u8]) -> (r: Option<Vec<u8>>)
    ensures
        r is Some <==> zlib_inflate(data@) is Some,
        (r matches Some(out) ==> zlib_inflate(data@) == Some(out@)),
{
    let mut decoder = flate2::read::ZlibDecoder::new(data);
    let mut out = Vec::new();
    match decoder.read_to_end(&mut out) {
        Ok(_) => Some(out),
        Err(_) => None,
    }
}

/// Expands the envelope's compressed payload fully into memory. Succeeds
/// exactly when the payload is a well-formed zlib stream; a corrupt or
/// truncated stream yields a decompression error and no partial result.
pub fn decompress_payload(data: &[u8]) -> (r: Result<Vec<u8>, PipelineError>)
    ensures
        r is Ok <==> zlib_inflate(data@) is Some,
        (r matches Ok(out) ==> zlib_inflate(data@) == Some(out@)),
        (r matches Err(e) ==> e == PipelineError::Decompression),
{
    match zlib_decompress(data) {
        Some(out) => Ok(out),
        None => Err(PipelineError::Decompression),
    }
}

} // verus!
