use vstd::prelude::*;

use crate::primitive::{encodes_point, point_decodes};

verus! {

/// Ways in which an operation of this library can fail.
#[derive(Debug, Clone, Copy, PartialEq, Eq, Structural)]
pub enum AuthError {
    /// The operating system's secure random source could not be read.
    EntropyUnavailable,
    /// The bytes of a verifying key do not decode to a point of the curve.
    MalformedKey,
}

/// Whether two byte strings are equal.
pub(crate) fn bytes_equal(a: &[u8], b: &[u8]) -> (r: bool)
    ensures
        r == (a@ == b@),
{
    if a.len() != b.len() {
        return false;
    }
    let mut i: usize = 0;
    while i < a.len()
        invariant
            a@.len() == b@.len(),
            i <= a@.len(),
            a@.subrange(0, i as int) == b@.subrange(0, i as int),
        decreases a@.len() - i,
    {
        if a[i] != b[i] {
            assert(a@[i as int] != b@[i as int]);
            return false;
        }
        assert(a@.subrange(0, i + 1) =~= a@.subrange(0, i as int).push(a@[i as int]));
        assert(b@.subrange(0, i + 1) =~= b@.subrange(0, i as int).push(b@[i as int]));
        i = i + 1;
    }
    assert(a@ =~= a@.subrange(0, i as int));
    assert(b@ =~= b@.subrange(0, i as int));
    true
}

/// A private Ed25519 key: its 32-byte seed.
///
/// It is neither `Copy` nor `Debug`, so that the seed is not duplicated or
/// printed by accident.
#[derive(Clone, Eq)]
pub struct SigningKey {
    bytes: [u8; 32],
}

impl View for SigningKey {
    type V = Seq<u8>;

    closed spec fn view(&self) -> Seq<u8> {
        self.bytes@
    }
}

impl PartialEq for SigningKey {
    fn eq(&self, other: &SigningKey) -> (r: bool)
        ensures
            r == (self@ == other@),
    {
        bytes_equal(self.bytes.as_slice(), other.bytes.as_slice())
    }
}

impl vstd::std_specs::cmp::PartialEqSpecImpl for SigningKey {
    open spec fn obeys_eq_spec() -> bool {
        true
    }

    open spec fn eq_spec(&self, other: &SigningKey) -> bool {
        self@ == other@
    }
}

impl SigningKey {
    /// The signing key whose seed is `bytes`.
    pub fn from_bytes(bytes: &[u8; 32]) -> (r: SigningKey)
        ensures
            r@ == bytes@,
    {
        SigningKey { bytes: *bytes }
    }

    /// The 32-byte seed of this key.
    pub fn to_bytes(&self) -> (r: [u8; 32])
        ensures
            r@ == self@,
    {
        self.bytes
    }

    pub(crate) fn as_bytes(&self) -> (r: &[u8; 32])
        ensures
            r@ == self@,
    {
        &self.bytes
    }
}

/// A public Ed25519 key: the 32-byte encoding of a curve point.
///
/// A value built by [`VerifyingKey::from_bytes`] always decodes; one derived
/// from a signing key holds that key's public point. Decoding follows the
/// permissive rules of `ed25519-dalek`: points of small order, the identity
/// among them, are accepted as keys, and ordinary verification does not
/// reject them.
#[derive(Debug, Clone, Copy, Eq)]
pub struct VerifyingKey {
    bytes: [u8; 32],
}

impl View for VerifyingKey {
    type V = Seq<u8>;

    closed spec fn view(&self) -> Seq<u8> {
        self.bytes@
    }
}

impl PartialEq for VerifyingKey {
    fn eq(&self, other: &VerifyingKey) -> (r: bool)
        ensures
            r == (self@ == other@),
    {
        bytes_equal(self.bytes.as_slice(), other.bytes.as_slice())
    }
}

impl vstd::std_specs::cmp::PartialEqSpecImpl for VerifyingKey {
    open spec fn obeys_eq_spec() -> bool {
        true
    }

    open spec fn eq_spec(&self, other: &VerifyingKey) -> bool {
        self@ == other@
    }
}

impl VerifyingKey {
    /// Decodes a verifying key, rejecting bytes that are not the encoding
    /// of a curve point.
    pub fn from_bytes(bytes: &[u8; 32]) -> (r: Result<VerifyingKey, AuthError>)
        ensures
            r is Ok <==> encodes_point(bytes@),
            r matches Ok(k) ==> k@ == bytes@,
            r is Err ==> r == Err::<VerifyingKey, AuthError>(AuthError::MalformedKey),
    {
        if point_decodes(bytes) {
            Ok(VerifyingKey { bytes: *bytes })
        } else {
            Err(AuthError::MalformedKey)
        }
    }

    /// The verifying key whose encoding is `bytes`, taken as it is; a key
    /// that does not decode verifies no signature.
    pub(crate) fn from_encoding(bytes: [u8; 32]) -> (r: VerifyingKey)
        ensures
            r@ == bytes@,
    {
        VerifyingKey { bytes }
    }

    /// The 32-byte encoding of this key.
    pub fn to_bytes(&self) -> (r: [u8; 32])
        ensures
            r@ == self@,
    {
        self.bytes
    }

    pub(crate) fn as_bytes(&self) -> (r: &[u8; 32])
        ensures
            r@ == self@,
    {
        &self.bytes
    }
}

/// An Ed25519 signature: 64 bytes, the encoding of a point `R` followed by
/// a scalar `s`.
#[derive(Debug, Clone, Copy, Eq)]
pub struct Signature {
    bytes: [u8; 64],
}

impl View for Signature {
    type V = Seq<u8>;

    closed spec fn view(&self) -> Seq<u8> {
        self.bytes@
    }
}

impl PartialEq for Signature {
    fn eq(&self, other: &Signature) -> (r: bool)
        ensures
            r == (self@ == other@),
    {
        bytes_equal(self.bytes.as_slice(), other.bytes.as_slice())
    }
}

impl vstd::std_specs::cmp::PartialEqSpecImpl for Signature {
    open spec fn obeys_eq_spec() -> bool {
        true
    }

    open spec fn eq_spec(&self, other: &Signature) -> bool {
        self@ == other@
    }
}

impl Signature {
    /// The signature whose encoding is `bytes`. Whether its parts are well
    /// formed is decided when it is verified.
    pub fn from_bytes(bytes: &[u8; 64]) -> (r: Signature)
        ensures
            r@ == bytes@,
    {
        Signature { bytes: *bytes }
    }

    /// The 64-byte encoding of this signature.
    pub fn to_bytes(&self) -> (r: [u8; 64])
        ensures
            r@ == self@,
    {
        self.bytes
    }

    pub(crate) fn as_bytes(&self) -> (r: &[u8; 64])
        ensures
            r@ == self@,
    {
        &self.bytes
    }
}

/// A signing key is the 32 bytes of its seed.
pub proof fn lemma_signing_key_len(k: SigningKey)
    ensures
        k@.len() == 32,
{
}

/// A verifying key is the 32 bytes of its encoding.
pub proof fn lemma_verifying_key_len(k: VerifyingKey)
    ensures
        k@.len() == 32,
{
}

/// A signature is the 64 bytes of its encoding.
pub proof fn lemma_signature_len(s: Signature)
    ensures
        s@.len() == 64,
{
}

/// A signature is determined by its bytes.
pub proof fn lemma_signature_from_view(a: Signature, b: Signature)
    requires
        a@ == b@,
    ensures
        a == b,
{
    assert(a.bytes =~= b.bytes);
}

} // verus!
