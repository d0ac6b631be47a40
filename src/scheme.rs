//! Key generation, key derivation, signing and verification.
use vstd::prelude::*;

use crate::keys::{lemma_signature_from_view, lemma_signing_key_len};
use crate::keys::{AuthError, Signature, SigningKey, VerifyingKey};
use crate::primitive::{
    encodes_point, os_random_seed, public_key_bytes, public_key_of, signature_accepted,
    signature_bytes, signature_of, signature_verifies, signed_by,
};

verus! {

/// Draws a fresh signing key from the operating system's secure random
/// source. When that source cannot be read the call fails with
/// `EntropyUnavailable`; no weaker source is tried.
pub fn generate_signing_key() -> (r: Result<SigningKey, AuthError>)
    ensures
        r matches Ok(k) ==> k@.len() == 32,
        r is Err ==> r == Err::<SigningKey, AuthError>(AuthError::EntropyUnavailable),
{
    match os_random_seed() {
        Ok(seed) => Ok(SigningKey::from_bytes(&seed)),
        Err(_) => Err(AuthError::EntropyUnavailable),
    }
}

/// The verifying key of a signing key: the encoding of its public point,
/// a function of the seed alone.
pub fn get_verifying_key(signing_key: &SigningKey) -> (r: VerifyingKey)
    ensures
        r@ == public_key_of(signing_key@),
{
    VerifyingKey::from_encoding(public_key_bytes(signing_key.as_bytes()))
}

/// Signs a message of any length, the empty one included. Ed25519 signing
/// is deterministic: the signature is a function of the key and the
/// message alone.
pub fn sign_message(signing_key: &SigningKey, message: &[u8]) -> (r: Signature)
    ensures
        r@ == signature_of(signing_key@, message@),
{
    Signature::from_bytes(&signature_bytes(signing_key.as_bytes(), message))
}

/// Whether `signature` is a valid Ed25519 signature of `message` under
/// `public_key`. A key that does not decode to a curve point verifies
/// nothing, and a signature made with the signing key of `public_key`
/// over exactly `message` always verifies.
pub fn verify_with_public_key(public_key: &VerifyingKey, message: &[u8], signature: &Signature) -> (r: bool)
    ensures
        r == signature_accepted(public_key@, message@, signature@),
        !encodes_point(public_key@) ==> !r,
        signed_by(public_key@, message@, signature@) ==> r,
{
    signature_verifies(public_key.as_bytes(), message, signature.as_bytes())
}

/// A signature made with a signing key is a signature by the verifying key
/// derived from it, for every message: so `verify_with_public_key` accepts
/// what `sign_message` made with the matching key.
pub proof fn lemma_round_trip(signing_key: SigningKey, message: Seq<u8>)
    ensures
        signed_by(public_key_of(signing_key@), message, signature_of(signing_key@, message)),
{
    lemma_signing_key_len(signing_key);
}

/// Signing is deterministic: two signatures that `sign_message` may return
/// for the same key and message are the same signature.
pub proof fn lemma_sign_deterministic(signing_key: SigningKey, message: Seq<u8>, a: Signature, b: Signature)
    requires
        a@ == signature_of(signing_key@, message),
        b@ == signature_of(signing_key@, message),
    ensures
        a == b,
{
    lemma_signature_from_view(a, b);
}

} // verus!
