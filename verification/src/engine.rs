//! Trusted boundary to the foreign compression engine.
//!
//! Every item here is believed, not proved: each wrapper's contract states
//! only what the engine's own source and documentation show. The rest of the
//! crate is verified against these contracts alone.

use vstd::prelude::*;
use crate::Error;

verus! {

/// The snappy format's size limit: lengths past `u32::MAX` are rejected.
pub open spec fn max_input_size() -> nat {
    0xffff_ffff
}

/// The worst-case compressed size the engine declares for an input of the
/// given length: `32 + n + n/6`, or `0` when the input (or that bound) is
/// past the format's limit. Mirrors `snap::raw::max_compress_len` exactly.
pub open spec fn spec_max_compress_len(input_len: nat) -> nat {
    if input_len > max_input_size() {
        0
    } else if 32 + input_len + input_len / 6 > max_input_size() {
        0
    } else {
        32 + input_len + input_len / 6
    }
}

/// The compressed form the engine produces for the given bytes. Snappy
/// encoding is a function of the input alone; its exact shape (framing,
/// tags, copies) is the engine's business, so it is only named here.
pub uninterp spec fn compressed(input: Seq<u8>) -> Seq<u8>;

/// The decompressed-length header the engine's probe reads from a stream:
/// `Some(n)` when the header parses and is within the format's limit,
/// `None` when the stream is rejected.
pub uninterp spec fn probed_len(input: Seq<u8>) -> Option<usize>;

/// What the engine decodes the given stream to: `Some(bytes)` for a valid
/// stream, `None` for one it rejects. Decoding is a function of the input
/// alone once the destination is adequately sized.
pub uninterp spec fn decompressed(input: Seq<u8>) -> Option<Seq<u8>>;

/// Relies on `snap::raw::max_compress_len`: a pure formula of the input
/// length, `32 + n + n/6` capped to the format's limit.
#[verifier::external_body]
pub(crate) fn max_compressed_length(input_len: usize) -> (r: usize)
    ensures
        r == spec_max_compress_len(input_len as nat),
{
    snap::raw::max_compress_len(input_len)
}

/// Relies on `snap::raw::Encoder::compress`: given a destination at least
/// `max_compress_len(input.len())` long (and an input within the format's
/// limit), it always succeeds, writing the compressed form of the input as
/// the destination's leading bytes and returning how many bytes it wrote —
/// never more than the declared worst case. The probe reads back the input's
/// length from that stream, and decoding it yields the input again.
#[verifier::external_body]
pub(crate) fn compress_into(input: &[u8], output: &mut Vec<u8>) -> (r: Result<usize, Error>)
    requires
        spec_max_compress_len(input@.len()) > 0,
        old(output)@.len() >= spec_max_compress_len(input@.len()),
    ensures
        r is Ok,
        final(output)@.len() == old(output)@.len(),
        r matches Ok(n) ==> ({
            &&& n <= final(output)@.len()
            &&& n <= spec_max_compress_len(input@.len())
            &&& final(output)@.subrange(0, n as int) == compressed(input@)
            &&& probed_len(final(output)@.subrange(0, n as int)) == Some(input@.len() as usize)
            &&& decompressed(final(output)@.subrange(0, n as int)) == Some(input@)
        }),
{
    match snap::raw::Encoder::new().compress(input, output.as_mut_slice()) {
        Ok(n) => Ok(n),
        Err(_) => Err(Error::InvalidInput),
    }
}

/// Relies on `snap::raw::decompress_len`: reads only the stream's length
/// header, returning the exact decompressed size without decoding, or
/// rejecting a malformed or over-limit header. A stream whose header is
/// rejected cannot decode either.
#[verifier::external_body]
pub(crate) fn uncompressed_length(input: &[u8]) -> (r: Result<usize, Error>)
    ensures
        r matches Ok(n) ==> probed_len(input@) == Some(n),
        r is Err ==> probed_len(input@) is None,
        r is Err ==> decompressed(input@) is None,
        r matches Err(e) ==> e == Error::InvalidInput,
{
    match snap::raw::decompress_len(input) {
        Ok(n) => Ok(n),
        Err(_) => Err(Error::InvalidInput),
    }
}

/// Relies on `snap::raw::Decoder::decompress`: given a destination at least
/// as long as the probed length, it either decodes the whole stream —
/// writing exactly the probed number of bytes as the destination's leading
/// bytes — or rejects the input, deterministically in the input bytes.
#[verifier::external_body]
pub(crate) fn uncompress_into(input: &[u8], output: &mut Vec<u8>) -> (r: Result<usize, Error>)
    requires
        probed_len(input@) is Some,
        old(output)@.len() >= probed_len(input@)->0,
    ensures
        final(output)@.len() == old(output)@.len(),
        r is Ok <==> decompressed(input@) is Some,
        r matches Ok(n) ==> ({
            &&& probed_len(input@) == Some(n)
            &&& n <= final(output)@.len()
            &&& final(output)@.subrange(0, n as int) == decompressed(input@)->0
        }),
        r matches Err(e) ==> e == Error::InvalidInput,
{
    match snap::raw::Decoder::new().decompress(input, output.as_mut_slice()) {
        Ok(n) => Ok(n),
        Err(_) => Err(Error::InvalidInput),
    }
}

} // verus!
