//! The calls into `ed25519-dalek` and `rand`, each behind a function whose
//! contract is taken on trust, together with names for the results that
//! only the curve arithmetic can compute.
use vstd::prelude::*;

verus! {

/// The 32-byte public key that Ed25519 derives from a 32-byte seed.
pub uninterp spec fn public_key_of(seed: Seq<u8>) -> Seq<u8>;

/// The 64-byte Ed25519 signature of a message under the key with the given seed.
pub uninterp spec fn signature_of(seed: Seq<u8>, message: Seq<u8>) -> Seq<u8>;

/// Whether 32 bytes are the encoding of a curve point.
pub uninterp spec fn encodes_point(key: Seq<u8>) -> bool;

/// Whether `signature` is accepted as a signature of `message` under `key`.
pub uninterp spec fn signature_accepted(key: Seq<u8>, message: Seq<u8>, signature: Seq<u8>) -> bool;

/// `signature` is the signature of `message` made with a seed whose public
/// key is `key`.
pub open spec fn signed_by(key: Seq<u8>, message: Seq<u8>, signature: Seq<u8>) -> bool {
    exists|seed: Seq<u8>|
        #![trigger public_key_of(seed), signature_of(seed, message)]
        seed.len() == 32 && key == public_key_of(seed) && signature == signature_of(seed, message)
}

#[verifier::external_type_specification]
#[verifier::external_body]
pub struct ExRandError(rand::Error);

/// Relies on rand's `OsRng::try_fill_bytes`: fills the seed from the
/// operating system's secure random source, or reports that it could not
/// be read. Nothing is known of the bytes.
#[verifier::external_body]
pub(crate) fn os_random_seed() -> (r: Result<[u8; 32], rand::Error>) {
    let mut seed = [0u8; 32];
    match rand::RngCore::try_fill_bytes(&mut rand::rngs::OsRng, &mut seed) {
        Ok(()) => Ok(seed),
        Err(e) => Err(e),
    }
}

/// Relies on ed25519-dalek's `SigningKey::from_bytes`, `verifying_key` and
/// `VerifyingKey::to_bytes`: the compressed public point of a seed, which
/// depends on the seed alone.
#[verifier::external_body]
pub(crate) fn public_key_bytes(seed: &[u8; 32]) -> (r: [u8; 32])
    ensures
        r@ == public_key_of(seed@),
{
    ed25519_dalek::SigningKey::from_bytes(seed).verifying_key().to_bytes()
}

/// Relies on ed25519-dalek's `Signer::sign` for `SigningKey` (which never
/// fails) and `Signature::to_bytes`: the deterministic RFC 8032 signature,
/// which depends on the seed and the message alone.
#[verifier::external_body]
pub(crate) fn signature_bytes(seed: &[u8; 32], message: &[u8]) -> (r: [u8; 64])
    ensures
        r@ == signature_of(seed@, message@),
{
    ed25519_dalek::Signer::sign(&ed25519_dalek::SigningKey::from_bytes(seed), message).to_bytes()
}

/// Relies on ed25519-dalek's `VerifyingKey::from_bytes`, which decompresses
/// the point and fails when the bytes encode none.
#[verifier::external_body]
pub(crate) fn point_decodes(key: &[u8; 32]) -> (r: bool)
    ensures
        r == encodes_point(key@),
{
    ed25519_dalek::VerifyingKey::from_bytes(key).is_ok()
}

/// Relies on ed25519-dalek's `Verifier::verify` for `VerifyingKey`, after
/// `VerifyingKey::from_bytes` and `Signature::from_bytes`: a key that does
/// not decode accepts nothing, and a signature made with the seed of the key
/// is accepted.
#[verifier::external_body]
pub(crate) fn signature_verifies(key: &[u8; 32], message: &[u8], signature: &[u8; 64]) -> (r: bool)
    ensures
        r == signature_accepted(key@, message@, signature@),
        !encodes_point(key@) ==> !r,
        signed_by(key@, message@, signature@) ==> r,
{
    match ed25519_dalek::VerifyingKey::from_bytes(key) {
        Ok(k) => ed25519_dalek::Verifier::verify(&k, message, &ed25519_dalek::Signature::from_bytes(signature)).is_ok(),
        Err(_) => false,
    }
}

} // verus!
