//! A safe, verified boundary around the snappy block-compression engine.
//!
//! The engine itself (the `snap` crate) is reached only through the trusted
//! declarations in [`engine`]; everything else — capacity planning, two-phase
//! length discovery, and the translation of engine outcomes into typed
//! results — is verified here.

use vstd::prelude::*;

pub mod engine;

verus! {

/// The caller-facing outcome of a failed call: the input was rejected by the
/// engine's validation (malformed stream, or past the format's size limit).
#[derive(Debug, Clone, Copy, PartialEq, Eq, Structural)]
pub enum Error {
    InvalidInput,
}

impl Error {
    /// A short human-readable description of the error.
    pub fn message(&self) -> (m: &'static str)
        ensures
            m@ == "Invalid input"@,
    {
        "Invalid input"
    }
}

/// Compresses the input buffer into a freshly allocated output buffer.
///
/// Succeeds exactly when the input is within the format's size limit; the
/// result is then the engine's compressed form of the input, never longer
/// than the engine's declared worst case, and decoding it recovers the
/// input exactly.
pub fn compress(input: &[u8]) -> (r: Result<Vec<u8>, Error>)
    ensures
        r is Ok <==> engine::spec_max_compress_len(input@.len()) > 0,
        r matches Ok(v) ==> ({
            &&& v@ == engine::compressed(input@)
            &&& v@.len() <= engine::spec_max_compress_len(input@.len())
            &&& engine::probed_len(v@) == Some(input@.len() as usize)
            &&& engine::decompressed(v@) == Some(input@)
        }),
        r matches Err(e) ==> e == Error::InvalidInput,
{
    let max_len: usize = engine::max_compressed_length(input.len());
    if max_len == 0 {
        return Err(Error::InvalidInput);
    }
    let mut out: Vec<u8> = vec![0u8; max_len];
    match engine::compress_into(input, &mut out) {
        Ok(n) => {
            out.truncate(n);
            Ok(out)
        }
        Err(_) => unreached(),
    }
}

/// Uncompresses the input buffer into a freshly allocated output buffer.
///
/// Two phases: probe the stream's header for the exact decompressed size,
/// then allocate that much and decode into it. Succeeds exactly when the
/// engine accepts the stream, and the result is then the engine's decoding
/// of it, whole — a rejected stream yields `InvalidInput` and no buffer.
pub fn uncompress(input: &[u8]) -> (r: Result<Vec<u8>, Error>)
    ensures
        r is Ok <==> engine::decompressed(input@) is Some,
        r matches Ok(v) ==> v@ == engine::decompressed(input@)->0,
        r matches Err(e) ==> e == Error::InvalidInput,
{
    let probed: usize = match engine::uncompressed_length(input) {
        Ok(n) => n,
        Err(e) => {
            return Err(e);
        }
    };
    let mut out: Vec<u8> = vec![0u8; probed];
    match engine::uncompress_into(input, &mut out) {
        Ok(n) => {
            out.truncate(n);
            proof {
                assert(out@ =~= engine::decompressed(input@)->0);
            }
            Ok(out)
        }
        Err(e) => Err(e),
    }
}

/// The round-trip law, checked by the verifier: for every byte sequence the
/// engine accepts (any input within the format's size limit, the empty
/// sequence included), uncompressing the compressed form succeeds and yields
/// exactly the original bytes.
pub fn compress_round_trip(input: &[u8]) -> (r: Result<Vec<u8>, Error>)
    ensures
        r is Ok <==> engine::spec_max_compress_len(input@.len()) > 0,
        r matches Ok(v) ==> v@ == input@,
        r matches Err(e) ==> e == Error::InvalidInput,
{
    match compress(input) {
        Ok(c) => uncompress(c.as_slice()),
        Err(e) => Err(e),
    }
}

} // verus!
