use lib_auth::{
    generate_signing_key, get_verifying_key, sign_message, verify_with_public_key, AuthError,
    Signature, SigningKey, VerifyingKey,
};

fn hex32(s: &str) -> [u8; 32] {
    let mut out = [0u8; 32];
    for i in 0..32 {
        out[i] = u8::from_str_radix(&s[2 * i..2 * i + 2], 16).unwrap();
    }
    out
}

fn hex64(s: &str) -> [u8; 64] {
    let mut out = [0u8; 64];
    for i in 0..64 {
        out[i] = u8::from_str_radix(&s[2 * i..2 * i + 2], 16).unwrap();
    }
    out
}

const RFC_SEED: &str = "9d61b19deffd5a60ba844af492ec2cc44449c5697b326919703bac031cae7f60";
const RFC_PUBLIC: &str = "d75a980182b10ab7d54bfed3c964073a0ee172f3daa62325af021a68f707511a";
const RFC_SIGNATURE: &str = "e5564300c360ac729086e2cc806e828a84877f1eb8e5d974d873e065224901555fb8821590a33bacc61e39701cf9b46bd25bf5f0595bbe24655141438e7a100b";

#[test]
fn rfc8032_first_vector_public_key() {
    let sk = SigningKey::from_bytes(&hex32(RFC_SEED));
    let vk = get_verifying_key(&sk);
    assert_eq!(vk.to_bytes(), hex32(RFC_PUBLIC));
}

#[test]
fn rfc8032_first_vector_signature() {
    let sk = SigningKey::from_bytes(&hex32(RFC_SEED));
    let sig = sign_message(&sk, b"");
    assert_eq!(sig.to_bytes(), hex64(RFC_SIGNATURE));
}

#[test]
fn rfc8032_first_vector_verifies() {
    let vk = VerifyingKey::from_bytes(&hex32(RFC_PUBLIC)).unwrap();
    let sig = Signature::from_bytes(&hex64(RFC_SIGNATURE));
    assert!(verify_with_public_key(&vk, b"", &sig));
    assert!(!verify_with_public_key(&vk, b"x", &sig));
}

#[test]
fn round_trip_on_several_messages() {
    let sk = generate_signing_key().unwrap();
    let vk = get_verifying_key(&sk);
    let long = vec![0xabu8; 10_000];
    let messages: [&[u8]; 4] = [b"", b"a", b"\x00\x01\x02", &long];
    for m in messages.iter() {
        let sig = sign_message(&sk, m);
        assert!(verify_with_public_key(&vk, m, &sig));
    }
}

#[test]
fn empty_message_round_trip() {
    let sk = generate_signing_key().unwrap();
    let sig = sign_message(&sk, &[]);
    assert!(verify_with_public_key(&get_verifying_key(&sk), &[], &sig));
}

#[test]
fn flipped_message_bits_are_rejected() {
    let sk = generate_signing_key().unwrap();
    let vk = get_verifying_key(&sk);
    let message = b"transfer 100 units to account 42".to_vec();
    let sig = sign_message(&sk, &message);
    for i in 0..message.len() {
        for bit in [0u8, 3, 7] {
            let mut tampered = message.clone();
            tampered[i] ^= 1 << bit;
            assert!(!verify_with_public_key(&vk, &tampered, &sig));
        }
    }
}

#[test]
fn flipped_signature_bits_are_rejected() {
    let sk = generate_signing_key().unwrap();
    let vk = get_verifying_key(&sk);
    let message = b"license: pro edition";
    let bytes = sign_message(&sk, message).to_bytes();
    for i in 0..64 {
        for bit in [0u8, 4, 7] {
            let mut tampered = bytes;
            tampered[i] ^= 1 << bit;
            let sig = Signature::from_bytes(&tampered);
            assert!(!verify_with_public_key(&vk, message, &sig));
        }
    }
}

#[test]
fn independent_keys_differ() {
    let a = generate_signing_key().unwrap();
    let b = generate_signing_key().unwrap();
    assert!(a != b);
    assert_ne!(get_verifying_key(&a).to_bytes(), get_verifying_key(&b).to_bytes());
    assert_eq!(a.to_bytes().len(), 32);
}

#[test]
fn signing_is_deterministic() {
    let sk = generate_signing_key().unwrap();
    let m = b"same message twice";
    let first = sign_message(&sk, m);
    let second = sign_message(&sk, m);
    assert!(first == second);
    assert_eq!(first.to_bytes(), second.to_bytes());
}

#[test]
fn derivation_is_deterministic() {
    let sk = SigningKey::from_bytes(&hex32(RFC_SEED));
    assert!(get_verifying_key(&sk) == get_verifying_key(&sk));
}

#[test]
fn other_key_rejects_signature() {
    let sk1 = generate_signing_key().unwrap();
    let sk2 = generate_signing_key().unwrap();
    let m = b"cross-key check";
    let sig = sign_message(&sk1, m);
    assert!(!verify_with_public_key(&get_verifying_key(&sk2), m, &sig));
}

#[test]
fn tsunami_alert_scenario() {
    let sk = generate_signing_key().unwrap();
    let vk = get_verifying_key(&sk);
    let message: &[u8] = b"This is a test of the tsunami alert system.";
    let sig = sign_message(&sk, message);
    assert!(verify_with_public_key(&vk, message, &sig));
    let other = get_verifying_key(&generate_signing_key().unwrap());
    assert!(!verify_with_public_key(&other, message, &sig));
}

#[test]
fn key_that_is_no_point_is_malformed() {
    let mut bytes = [0u8; 32];
    bytes[0] = 2;
    assert!(matches!(VerifyingKey::from_bytes(&bytes), Err(AuthError::MalformedKey)));
}

#[test]
fn non_canonical_scalar_is_rejected() {
    let sk = SigningKey::from_bytes(&hex32(RFC_SEED));
    let vk = get_verifying_key(&sk);
    let mut bytes = sign_message(&sk, b"").to_bytes();
    for b in bytes[32..].iter_mut() {
        *b = 0xff;
    }
    assert!(!verify_with_public_key(&vk, b"", &Signature::from_bytes(&bytes)));
}

#[test]
fn identity_key_is_accepted_and_is_weak() {
    // The identity point decodes; ordinary (non-strict) verification then
    // accepts the signature (R = identity, s = 0) on every message.
    let mut identity = [0u8; 32];
    identity[0] = 1;
    let vk = VerifyingKey::from_bytes(&identity).unwrap();
    let mut forged = [0u8; 64];
    forged[0] = 1;
    let sig = Signature::from_bytes(&forged);
    assert!(verify_with_public_key(&vk, b"any message", &sig));
    assert!(verify_with_public_key(&vk, b"", &sig));
}

#[test]
fn byte_conversions_round_trip() {
    let seed = hex32(RFC_SEED);
    assert_eq!(SigningKey::from_bytes(&seed).to_bytes(), seed);
    let public = hex32(RFC_PUBLIC);
    assert_eq!(VerifyingKey::from_bytes(&public).unwrap().to_bytes(), public);
    let sig = hex64(RFC_SIGNATURE);
    assert_eq!(Signature::from_bytes(&sig).to_bytes(), sig);
}
