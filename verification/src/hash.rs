//! Stable numeric identifiers derived from declared names.
//!
//! An extension or method name is hashed with Blake2b-256; the most
//! significant 16 bits become a wire identifier, the most significant
//! 32 bits a dispatch tag that is never sent on the wire.

use vstd::prelude::*;
use vstd::utf8::encode_utf8;

verus! {

/// The Blake2b-256 digest of a byte sequence, as the `blake2` crate
/// computes it. The digest depends on the input bytes alone.
pub uninterp spec fn blake2b_256_of(input: Seq<u8>) -> Seq<u8>;

/// Relies on `blake2::Blake2b` with a 32-byte output: the digest is a
/// function of the input bytes alone and is always 32 bytes long.
#[verifier::external_body]
pub fn blake2b_256(input: &[u8], output: &mut [u8; 32])
    ensures
        final(output)@ == blake2b_256_of(input@),
{
    let mut hasher = <blake2::Blake2b<blake2::digest::consts::U32> as blake2::digest::Digest>::new();
    blake2::digest::Digest::update(&mut hasher, input);
    let digest = blake2::digest::Digest::finalize(hasher);
    output.copy_from_slice(&digest);
}

/// The 16-bit identifier assigned to a name: the first two digest bytes,
/// big-endian.
pub open spec fn spec_into_u16(name: Seq<char>) -> u16 {
    let h = blake2b_256_of(encode_utf8(name));
    (((h[0] as u16) << 8) | (h[1] as u16)) as u16
}

/// The 32-bit dispatch tag assigned to a name: the first four digest
/// bytes, big-endian.
pub open spec fn spec_into_u32(name: Seq<char>) -> u32 {
    let h = blake2b_256_of(encode_utf8(name));
    (((h[0] as u32) << 24) | ((h[1] as u32) << 16) | ((h[2] as u32) << 8) | (h[3] as u32)) as u32
}

/// Derive the 16-bit identifier of a declared name.
pub fn into_u16(ident: &str) -> (id: u16)
    ensures
        id == spec_into_u16(ident@),
{
    let mut output: [u8; 32] = [0; 32];
    blake2b_256(ident.as_bytes(), &mut output);
    ((output[0] as u16) << 8) | (output[1] as u16)
}

/// Derive the 32-bit dispatch tag of a declared name.
pub fn into_u32(ident: &str) -> (tag: u32)
    ensures
        tag == spec_into_u32(ident@),
{
    let mut output: [u8; 32] = [0; 32];
    blake2b_256(ident.as_bytes(), &mut output);
    ((output[0] as u32) << 24) | ((output[1] as u32) << 16) | ((output[2] as u32) << 8)
        | (output[3] as u32)
}

} // verus!
