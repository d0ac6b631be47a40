//! Ed25519 key pairs, signatures and their verification.
//!
//! Keys and signatures are held as the raw byte strings that Ed25519 defines
//! (32, 32 and 64 bytes). The curve arithmetic is done by `ed25519-dalek`;
//! the contracts here state what each entry point returns in terms of the
//! byte strings involved.

mod keys;
mod primitive;
mod scheme;

pub use keys::{
    lemma_signature_from_view, lemma_signature_len, lemma_signing_key_len,
    lemma_verifying_key_len, AuthError, Signature, SigningKey, VerifyingKey,
};
pub use primitive::{encodes_point, public_key_of, signature_accepted, signature_of, signed_by};
pub use scheme::{
    generate_signing_key, get_verifying_key, lemma_round_trip, lemma_sign_deterministic,
    sign_message, verify_with_public_key,
};
