//! Decoding the embedded payload: a zstd stream that holds a tar archive.

use vstd::prelude::*;

verus! {

/// The bytes that zstd decodes from `data`, or `None` where `data` is not a
/// valid zstd stream.
pub uninterp spec fn zstd_decoded(data: Seq<u8>) -> Option<Seq<u8>>;

/// Relies on zstd::stream::decode_all: it decodes every frame of the stream
/// into one buffer, and the outcome depends on the bytes alone.
#[verifier::external_body]
fn zstd_decode_all(data: &[u8]) -> (r: Option<Vec<u8>>)
    ensures
        match r {
            Some(v) => zstd_decoded(data@) == Some(v@),
            None => zstd_decoded(data@) is None,
        },
{
    match zstd::stream::decode_all(data) {
        Ok(v) => Some(v),
        Err(_) => None,
    }
}

/// Decompresses the payload into the archive it carries; `None` when the
/// payload is not a valid compressed stream.
pub fn decompress_payload(payload: &[u8]) -> (r: Option<Vec<u8>>)
    ensures
        r is Some <==> zstd_decoded(payload@) is Some,
        r matches Some(v) ==> zstd_decoded(payload@) == Some(v@),
{
    zstd_decode_all(payload)
}

} // verus!
