//! Keccak-256 hashing, through the outside implementation, with its
//! result named so that contracts can speak of it exactly.
use vstd::prelude::*;
use vstd::string::StringSliceAdditionalSpecFns;
use crate::u256::{U256, be_val};

verus! {

/// The 32-byte Keccak-256 digest of a byte sequence. What the digest is
/// on given bytes is not stated here; only that it is a function of the
/// bytes alone.
pub uninterp spec fn keccak_of(input: Seq<u8>) -> Seq<u8>;

/// Relies on alloy_primitives::keccak256: the 32-byte Keccak-256 digest
/// of the input, a function of the input bytes alone.
#[verifier::external_body]
pub fn keccak256_bytes(input: &[u8]) -> (r: Vec<u8>)
    ensures
        r@ == keccak_of(input@),
        r@.len() == 32,
{
    alloy_primitives::keccak256(input).to_vec()
}

/// The Keccak-256 digest of a byte slice, as 32 raw bytes.
pub fn hash_slice_to_b256(buffer: &[u8]) -> (r: Vec<u8>)
    ensures
        r@ == keccak_of(buffer@),
        r@.len() == 32,
{
    keccak256_bytes(buffer)
}

/// The Keccak-256 digest of a string's bytes, read as a 256-bit word.
pub fn hash_string_to_u256(text: &str) -> (r: U256)
    ensures
        r@ == be_val(keccak_of(text.spec_bytes())),
{
    let bytes = text.as_bytes();
    let digest = keccak256_bytes(bytes);
    let r = U256::from_be_range(&digest, 0, 32);
    proof {
        assert(digest@.subrange(0, 32) =~= digest@);
    }
    r
}

} // verus!
