//! Bounded streaming decompression of a candidate object file's bytes.
//!
//! A loose object is stored zlib-compressed. Only the leading bytes of the
//! decompressed stream are needed to read its header, so inflation is cut
//! off after a fixed number of output bytes and never drains a large body.

use vstd::prelude::*;

verus! {

/// The decompressed bytes that inflating the zlib stream `data` yields,
/// cut off after `limit` output bytes; `None` when inflation fails before
/// that point (not a zlib stream, corrupt data, or a stream that ends
/// before it is complete).
pub uninterp spec fn inflated_prefix(data: Seq<u8>, limit: nat) -> Option<Seq<u8>>;

/// Relies on flate2::read::ZlibDecoder, driven through std::io::Read::take
/// and read_to_end: inflating bytes held in memory is a deterministic
/// function of those bytes, at most `limit` decompressed bytes are
/// produced, and an error comes exactly when the stream fails before
/// yielding them.
#[verifier::external_body]
pub(crate) fn inflate_prefix(data: &Vec<u8>, limit: usize) -> (r: Option<Vec<u8>>)
    ensures
        (r is Some) == (inflated_prefix(data@, limit as nat) is Some),
        r is Some ==> r.unwrap()@ == inflated_prefix(data@, limit as nat).unwrap(),
        r is Some ==> r.unwrap()@.len() <= limit,
{
    let decoder = flate2::read::ZlibDecoder::new(data.as_slice());
    let mut out: Vec<u8> = Vec::new();
    match std::io::Read::read_to_end(&mut std::io::Read::take(decoder, limit as u64), &mut out) {
        Ok(_) => Some(out),
        Err(_) => None,
    }
}

} // verus!
