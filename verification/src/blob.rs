//! Decoding of the compressed data artifact: the embedded payload is a
//! Zstandard frame over a compact serialization of the database, and
//! the first loading step inflates it back to the serialized bytes.
use vstd::prelude::*;
use vstd::string::*;

use crate::error::XrayDbError;

verus! {

/// What Zstandard decompression yields on a given frame: a function of
/// the compressed bytes alone.
pub uninterp spec fn zstd_inflate(data: Seq<u8>) -> Seq<u8>;

/// Whether the bytes decompress at all: they begin with a well-formed
/// Zstandard frame that decodes without fault (bytes after the frame
/// are ignored).  Like the inflated bytes themselves, this depends on
/// the compressed bytes alone.
pub uninterp spec fn zstd_frame_ok(data: Seq<u8>) -> bool;

/// Relies on ruzstd's `StreamingDecoder` and its `Read` impl: draining
/// the decoder inflates the frame; both the outcome and the inflated
/// bytes are deterministic functions of the compressed bytes, and a
/// framing or decoding fault surfaces as an error from the decoder,
/// not a panic.
#[verifier::external_body]
fn zstd_decompress(data: &[u8]) -> (r: Option<Vec<u8>>)
    ensures
        r is Some <==> zstd_frame_ok(data@),
        r is Some ==> r->Some_0@ == zstd_inflate(data@),
{
    match ruzstd::decoding::StreamingDecoder::new(data) {
        Err(_) => None,
        Ok(mut dec) => {
            let mut out = Vec::new();
            match ruzstd::io::Read::read_to_end(&mut dec, &mut out) {
                Ok(_) => Some(out),
                Err(_) => None,
            }
        },
    }
}

/// Decompress the data artifact: succeeds on exactly the well-formed
/// frames, yielding their inflation, and rejects everything else.
pub fn decompress_artifact(data: &[u8]) -> (r: Result<Vec<u8>, XrayDbError>)
    ensures
        r is Ok <==> zstd_frame_ok(data@),
        r is Ok ==> r->Ok_0@ == zstd_inflate(data@),
        r is Err ==> r->Err_0 is DataError,
{
    match zstd_decompress(data) {
        Some(v) => Ok(v),
        None => Err(XrayDbError::DataError(String::from_str("malformed compressed artifact"))),
    }
}

} // verus!
