//! Recoverable ECDSA over secp256k1, through the outside implementation.
//! Signing is deterministic (RFC 6979), so signatures, recovered keys and
//! verification verdicts are named as functions of their inputs alone;
//! only key generation draws on randomness, and nothing is promised of
//! which key it yields.
use vstd::prelude::*;
use k256::ecdsa::signature::hazmat::PrehashVerifier;

verus! {

/// The compact 64-byte signature and recovery parity that the given
/// 32-byte secret key produces over the given digest.
pub uninterp spec fn sig_of(key: Seq<u8>, digest: Seq<u8>) -> (Seq<u8>, bool);

/// The uncompressed 65-byte public key recovered from a digest, a
/// compact signature and a recovery parity; nothing, where recovery
/// fails.
pub uninterp spec fn recover_of(digest: Seq<u8>, sig: Seq<u8>, parity: bool) -> Option<Seq<u8>>;

/// Whether the compact signature verifies over the digest under the
/// uncompressed public key.
pub uninterp spec fn ecdsa_verify_ok(pubkey: Seq<u8>, digest: Seq<u8>, sig: Seq<u8>) -> bool;

/// The uncompressed 65-byte public key belonging to a 32-byte secret
/// key.
pub uninterp spec fn pubkey_of(key: Seq<u8>) -> Seq<u8>;

/// Whether signing the digest with the key succeeds with a plain parity
/// bit. Deterministic signing makes this a function of the two inputs
/// alone.
pub uninterp spec fn sign_ok(key: Seq<u8>, digest: Seq<u8>) -> bool;

/// Relies on k256's SigningKey::sign_prehash_recoverable: deterministic
/// RFC 6979 signing, whose recovery id picks the signer's key back out,
/// and whose signature verifies under that key. A byte string that is no
/// valid secret key, a failed signing, or a recovery id beyond the
/// parity bit yields nothing.
#[verifier::external_body]
pub fn ecdsa_sign(key: &Vec<u8>, digest: &Vec<u8>) -> (r: Option<(Vec<u8>, bool)>)
    ensures
        (r is Some) == sign_ok(key@, digest@),
        match r {
            Some(sb) => {
                &&& (sb.0@, sb.1) == sig_of(key@, digest@)
                &&& sb.0@.len() == 64
                &&& recover_of(digest@, sb.0@, sb.1) == Some(pubkey_of(key@))
                &&& ecdsa_verify_ok(pubkey_of(key@), digest@, sb.0@)
            },
            None => true,
        },
{
    let sk = k256::ecdsa::SigningKey::from_slice(key).ok()?;
    let (sig, recid) = sk.sign_prehash_recoverable(digest).ok()?;
    if recid.to_byte() > 1 {
        return None;
    }
    Some((sig.to_bytes().to_vec(), recid.to_byte() == 1))
}

/// Relies on k256's VerifyingKey::recover_from_prehash, which checks the
/// signature against the recovered key before returning it, and on
/// to_encoded_point(false) for the 65-byte uncompressed encoding.
#[verifier::external_body]
pub fn ecdsa_recover(digest: &Vec<u8>, sig: &Vec<u8>, parity: bool) -> (r: Option<Vec<u8>>)
    ensures
        (match (r, recover_of(digest@, sig@, parity)) {
            (Some(v), Some(s)) => v@ == s && v@.len() == 65,
            (None, None) => true,
            _ => false,
        }),
        (match r {
            Some(v) => ecdsa_verify_ok(v@, digest@, sig@),
            None => true,
        }),
{
    let recovery_id = k256::ecdsa::RecoveryId::from_byte(if parity { 1 } else { 0 })?;
    let signature = k256::ecdsa::Signature::from_slice(sig).ok()?;
    let key = k256::ecdsa::VerifyingKey::recover_from_prehash(digest, &signature, recovery_id)
        .ok()?;
    Some(key.to_encoded_point(false).as_bytes().to_vec())
}

/// Relies on k256's VerifyingKey::verify_prehash through the
/// PrehashVerifier trait; bytes that parse as no key or no signature
/// verify nothing.
#[verifier::external_body]
pub fn ecdsa_verify(pubkey: &Vec<u8>, digest: &Vec<u8>, sig: &Vec<u8>) -> (r: bool)
    ensures
        r == ecdsa_verify_ok(pubkey@, digest@, sig@),
{
    match (
        k256::ecdsa::VerifyingKey::from_sec1_bytes(pubkey),
        k256::ecdsa::Signature::from_slice(sig),
    ) {
        (Ok(k), Ok(s)) => k.verify_prehash(digest, &s).is_ok(),
        _ => false,
    }
}

/// Relies on k256's SigningKey::random over the operating system's
/// randomness. Which key comes back is not stated; the public half
/// always belongs to the secret half.
#[verifier::external_body]
pub fn generate_keypair() -> (r: (Vec<u8>, Vec<u8>))
    ensures
        r.0@.len() == 32,
        r.1@ == pubkey_of(r.0@),
        r.1@.len() == 65,
{
    let sk = k256::ecdsa::SigningKey::random(&mut rand_core::OsRng);
    let vk = k256::ecdsa::VerifyingKey::from(&sk);
    (sk.to_bytes().to_vec(), vk.to_encoded_point(false).as_bytes().to_vec())
}

} // verus!
