use ml_dsa::Keypair as _;
use mldsa::{
    generate_keypair, generate_keypair_from_seed, sign, try_sign, verify, SEED_SIZE,
    SIGNATURE_SIZE, SIGNING_KEY_SIZE, VERIFYING_KEY_SIZE,
};

#[test]
fn keypair_sizes() {
    let kp = generate_keypair();

    assert_eq!(kp.seed.len(), SEED_SIZE);
    assert_eq!(kp.verifying_key.len(), VERIFYING_KEY_SIZE);
}

#[test]
fn sign_verify_roundtrip() {
    let kp = generate_keypair();
    let msg = b"hello vexahub";
    let sig = sign(&kp.seed, msg);

    assert!(verify(&kp.verifying_key, msg, &sig));
}

#[test]
fn signature_size() {
    let kp = generate_keypair();
    let sig = sign(&kp.seed, b"test");

    assert_eq!(sig.len(), SIGNATURE_SIZE);
}

#[test]
fn wrong_message_fails() {
    let kp = generate_keypair();
    let sig = sign(&kp.seed, b"correct message");

    assert!(!verify(&kp.verifying_key, b"wrong message", &sig));
}

#[test]
fn wrong_key_fails() {
    let kp1 = generate_keypair();
    let kp2 = generate_keypair();
    let sig = sign(&kp1.seed, b"hello");

    assert!(!verify(&kp2.verifying_key, b"hello", &sig));
}

#[test]
fn deterministic_signatures() {
    let kp = generate_keypair();
    let msg = b"deterministic test";
    let sig1 = sign(&kp.seed, msg);
    let sig2 = sign(&kp.seed, msg);

    assert_eq!(sig1, sig2);
}

#[test]
fn different_messages_different_signatures() {
    let kp = generate_keypair();
    let sig1 = sign(&kp.seed, b"message one");
    let sig2 = sign(&kp.seed, b"message two");

    assert_ne!(sig1, sig2);
}

#[test]
fn invalid_verifying_key_returns_false() {
    let kp = generate_keypair();
    let sig = sign(&kp.seed, b"test");
    let bad_vk = [0u8; VERIFYING_KEY_SIZE];

    assert!(!verify(&bad_vk, b"test", &sig));
}

#[test]
fn invalid_signature_returns_false() {
    let kp = generate_keypair();
    let bad_sig = [0u8; SIGNATURE_SIZE];

    assert!(!verify(&kp.verifying_key, b"test", &bad_sig));
}

#[test]
fn empty_message() {
    let kp = generate_keypair();
    let sig = sign(&kp.seed, b"");

    assert!(verify(&kp.verifying_key, b"", &sig));
}

#[test]
fn seed_reproduces_same_verifying_key() {
    let kp = generate_keypair();
    let seed_arr = ml_dsa::B32::from(kp.seed);
    let kp2 = ml_dsa::SigningKey::<ml_dsa::MlDsa65>::from_seed(&seed_arr);
    let mut vk_bytes = [0u8; VERIFYING_KEY_SIZE];

    vk_bytes.copy_from_slice(&kp2.verifying_key().encode());

    assert_eq!(kp.verifying_key, vk_bytes);
}

#[test]
fn constants_match_ml_dsa_65() {
    assert_eq!(SEED_SIZE, 32);
    assert_eq!(SIGNING_KEY_SIZE, 4032);
    assert_eq!(VERIFYING_KEY_SIZE, 1952);
    assert_eq!(SIGNATURE_SIZE, 3309);
}

#[test]
fn keypair_from_seed_matches_generated() {
    let kp = generate_keypair();
    let kp2 = generate_keypair_from_seed(&kp.seed);

    assert_eq!(kp2.seed, kp.seed);
    assert_eq!(kp2.verifying_key, kp.verifying_key);
}

#[test]
fn keypair_from_fixed_seed_matches_ml_dsa() {
    let seed = [7u8; 32];
    let kp = generate_keypair_from_seed(&seed);
    let direct = ml_dsa::SigningKey::<ml_dsa::MlDsa65>::from_seed(&ml_dsa::B32::from(seed));

    assert_eq!(kp.verifying_key.as_slice(), direct.verifying_key().encode().as_slice());
}

#[test]
fn signature_matches_ml_dsa_deterministic_signing() {
    let seed = [3u8; 32];
    let sig = sign(&seed, b"known answer");
    let direct = ml_dsa::SigningKey::<ml_dsa::MlDsa65>::from_seed(&ml_dsa::B32::from(seed));
    let expected = direct
        .expanded_key()
        .sign_deterministic(b"known answer", &[])
        .unwrap()
        .encode();

    assert_eq!(sig.as_slice(), expected.as_slice());
}

#[test]
fn try_sign_agrees_with_sign() {
    let kp = generate_keypair();
    let sig = sign(&kp.seed, b"agree");

    assert_eq!(try_sign(&kp.seed, b"agree"), Some(sig));
}

#[test]
fn tampered_signature_fails_top_level() {
    let kp = generate_keypair();
    let mut sig = sign(&kp.seed, b"hello");

    sig[0] ^= 0xFF;
    assert!(!verify(&kp.verifying_key, b"hello", &sig));

    let mut sig = sign(&kp.seed, b"hello");
    sig[SIGNATURE_SIZE - 1] ^= 0x01;
    assert!(!verify(&kp.verifying_key, b"hello", &sig));
}

#[test]
fn different_generated_seeds_differ() {
    let kp1 = generate_keypair();
    let kp2 = generate_keypair();

    assert_ne!(kp1.seed, kp2.seed);
    assert_ne!(kp1.verifying_key, kp2.verifying_key);
}
