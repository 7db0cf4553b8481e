use ml_dsa::Keypair as _;
use mldsa::mldsa_core::{
    generate_keypair, generate_keypair_from_seed, sign, try_sign, verify,
};
use mldsa::variant::{Variant, SEED_SIZE};

const ALL: [Variant; 3] = [Variant::MlDsa44, Variant::MlDsa65, Variant::MlDsa87];

#[test]
fn core_sizes_per_variant() {
    assert_eq!(SEED_SIZE, 32);
    assert_eq!(Variant::MlDsa44.signing_key_size(), 2560);
    assert_eq!(Variant::MlDsa44.verifying_key_size(), 1312);
    assert_eq!(Variant::MlDsa44.signature_size(), 2420);
    assert_eq!(Variant::MlDsa65.signing_key_size(), 4032);
    assert_eq!(Variant::MlDsa65.verifying_key_size(), 1952);
    assert_eq!(Variant::MlDsa65.signature_size(), 3309);
    assert_eq!(Variant::MlDsa87.signing_key_size(), 4896);
    assert_eq!(Variant::MlDsa87.verifying_key_size(), 2592);
    assert_eq!(Variant::MlDsa87.signature_size(), 4627);
}

#[test]
fn core_keypair_and_signature_sizes() {
    for v in ALL {
        let kp = generate_keypair(v);
        assert_eq!(kp.seed.len(), 32);
        assert_eq!(kp.verifying_key.len(), v.verifying_key_size());
        let sig = sign(v, &kp.seed, b"test", None);
        assert_eq!(sig.len(), v.signature_size());
    }
}

#[test]
fn core_sign_verify_roundtrip() {
    for v in ALL {
        let kp = generate_keypair(v);
        let sig = sign(v, &kp.seed, b"hello", None);
        assert!(verify(v, &kp.verifying_key, b"hello", &sig, None));
    }
}

#[test]
fn core_sign_verify_with_context() {
    for v in ALL {
        let kp = generate_keypair(v);
        let ctx = Some(b"vexahub-share-v1".as_slice());
        let sig = sign(v, &kp.seed, b"hello", ctx);

        assert!(verify(v, &kp.verifying_key, b"hello", &sig, ctx));
        assert!(!verify(v, &kp.verifying_key, b"hello", &sig, None));
        assert!(!verify(v, &kp.verifying_key, b"hello", &sig, Some(b"wrong")));
    }
}

#[test]
fn core_empty_context_is_no_context() {
    let v = Variant::MlDsa65;
    let kp = generate_keypair(v);
    let sig = sign(v, &kp.seed, b"hello", None);

    assert_eq!(sign(v, &kp.seed, b"hello", Some(&[])), sig);
    assert!(verify(v, &kp.verifying_key, b"hello", &sig, Some(&[])));
}

#[test]
fn core_sign_verify_empty_message() {
    let kp = generate_keypair(Variant::MlDsa44);
    let sig = sign(Variant::MlDsa44, &kp.seed, b"", None);

    assert!(verify(Variant::MlDsa44, &kp.verifying_key, b"", &sig, None));
}

#[test]
fn core_sign_verify_long_message() {
    let kp = generate_keypair(Variant::MlDsa65);
    let msg = vec![0xABu8; 100_000];
    let sig = sign(Variant::MlDsa65, &kp.seed, &msg, None);

    assert!(verify(Variant::MlDsa65, &kp.verifying_key, &msg, &sig, None));
}

#[test]
fn core_sign_verify_binary_message() {
    let kp = generate_keypair(Variant::MlDsa87);
    let msg: Vec<u8> = (0u8..=255).collect();
    let sig = sign(Variant::MlDsa87, &kp.seed, &msg, None);

    assert!(verify(Variant::MlDsa87, &kp.verifying_key, &msg, &sig, None));
}

#[test]
fn core_sign_verify_single_byte_message() {
    let kp = generate_keypair(Variant::MlDsa65);
    let sig = sign(Variant::MlDsa65, &kp.seed, &[0x00], None);

    assert!(verify(Variant::MlDsa65, &kp.verifying_key, &[0x00], &sig, None));
}

#[test]
fn core_deterministic_signatures() {
    for v in ALL {
        let kp = generate_keypair(v);
        assert_eq!(sign(v, &kp.seed, b"test", None), sign(v, &kp.seed, b"test", None));
    }
}

#[test]
fn core_seed_reproduces_keypair() {
    for v in ALL {
        let kp = generate_keypair(v);
        let kp2 = generate_keypair_from_seed(v, &kp.seed);
        assert_eq!(kp2.seed, kp.seed);
        assert_eq!(kp2.verifying_key, kp.verifying_key);
    }
}

#[test]
fn core_keys_match_ml_dsa() {
    let seed = [9u8; 32];
    let b = ml_dsa::B32::from(seed);
    let k44 = ml_dsa::SigningKey::<ml_dsa::MlDsa44>::from_seed(&b).verifying_key().encode();
    let k65 = ml_dsa::SigningKey::<ml_dsa::MlDsa65>::from_seed(&b).verifying_key().encode();
    let k87 = ml_dsa::SigningKey::<ml_dsa::MlDsa87>::from_seed(&b).verifying_key().encode();

    assert_eq!(generate_keypair_from_seed(Variant::MlDsa44, &seed).verifying_key.as_slice(), k44.as_slice());
    assert_eq!(generate_keypair_from_seed(Variant::MlDsa65, &seed).verifying_key.as_slice(), k65.as_slice());
    assert_eq!(generate_keypair_from_seed(Variant::MlDsa87, &seed).verifying_key.as_slice(), k87.as_slice());
}

#[test]
fn core_signatures_match_ml_dsa() {
    let seed = [5u8; 32];
    let b = ml_dsa::B32::from(seed);
    let s44 = ml_dsa::SigningKey::<ml_dsa::MlDsa44>::from_seed(&b)
        .expanded_key()
        .sign_deterministic(b"msg", b"ctx")
        .unwrap()
        .encode();
    let s87 = ml_dsa::SigningKey::<ml_dsa::MlDsa87>::from_seed(&b)
        .expanded_key()
        .sign_deterministic(b"msg", b"ctx")
        .unwrap()
        .encode();

    assert_eq!(sign(Variant::MlDsa44, &seed, b"msg", Some(b"ctx")), s44.to_vec());
    assert_eq!(sign(Variant::MlDsa87, &seed, b"msg", Some(b"ctx")), s87.to_vec());
}

#[test]
fn core_different_messages_produce_different_signatures() {
    let kp = generate_keypair(Variant::MlDsa65);
    let sig1 = sign(Variant::MlDsa65, &kp.seed, b"message one", None);
    let sig2 = sign(Variant::MlDsa65, &kp.seed, b"message two", None);

    assert_ne!(sig1, sig2);
}

#[test]
fn core_different_seeds_produce_different_keypairs() {
    let kp1 = generate_keypair(Variant::MlDsa44);
    let kp2 = generate_keypair(Variant::MlDsa44);

    assert_ne!(kp1.seed, kp2.seed);
    assert_ne!(kp1.verifying_key, kp2.verifying_key);
}

#[test]
fn core_wrong_message_and_key_fail() {
    for v in ALL {
        let kp1 = generate_keypair(v);
        let kp2 = generate_keypair(v);
        let sig = sign(v, &kp1.seed, b"correct", None);
        assert!(!verify(v, &kp1.verifying_key, b"wrong", &sig, None));
        assert!(!verify(v, &kp2.verifying_key, b"correct", &sig, None));
    }
}

#[test]
fn core_invalid_signatures_fail() {
    let v = Variant::MlDsa65;
    let kp = generate_keypair(v);
    let zeros = vec![0u8; v.signature_size()];
    let ones = vec![0xFFu8; v.signature_size()];

    assert!(!verify(v, &kp.verifying_key, b"test", &zeros, None));
    assert!(!verify(v, &kp.verifying_key, b"test", &ones, None));
}

#[test]
fn core_tampered_signature_fails() {
    let v = Variant::MlDsa87;
    let kp = generate_keypair(v);
    let mut sig = sign(v, &kp.seed, b"hello", None);
    sig[0] ^= 0xFF;
    assert!(!verify(v, &kp.verifying_key, b"hello", &sig, None));

    let mut sig = sign(v, &kp.seed, b"hello", None);
    let last = sig.len() - 1;
    sig[last] ^= 0x01;
    assert!(!verify(v, &kp.verifying_key, b"hello", &sig, None));
}

#[test]
fn core_empty_message_wrong_message_fails() {
    let kp = generate_keypair(Variant::MlDsa65);
    let sig = sign(Variant::MlDsa65, &kp.seed, b"", None);

    assert!(!verify(Variant::MlDsa65, &kp.verifying_key, b"not empty", &sig, None));
}

#[test]
fn core_case_sensitive_message() {
    let kp = generate_keypair(Variant::MlDsa65);
    let sig = sign(Variant::MlDsa65, &kp.seed, b"message a", None);

    assert!(!verify(Variant::MlDsa65, &kp.verifying_key, b"message b", &sig, None));
    assert!(!verify(Variant::MlDsa65, &kp.verifying_key, b"message A", &sig, None));
}

#[test]
fn core_wrong_lengths_fail() {
    let v = Variant::MlDsa65;
    let kp = generate_keypair(v);
    let sig = sign(v, &kp.seed, b"x", None);

    assert!(!verify(v, &kp.verifying_key[..100], b"x", &sig, None));
    assert!(!verify(v, &kp.verifying_key, b"x", &sig[..100], None));
    assert!(!verify(Variant::MlDsa44, &kp.verifying_key, b"x", &sig, None));
}

#[test]
fn core_context_limits() {
    let v = Variant::MlDsa65;
    let kp = generate_keypair(v);
    let short = [0u8; 255];
    let long = [0u8; 256];

    let sig = sign(v, &kp.seed, b"hello", Some(&short));
    assert!(verify(v, &kp.verifying_key, b"hello", &sig, Some(&short)));
    assert!(!verify(v, &kp.verifying_key, b"hello", &sig, Some(&long)));
    assert_eq!(try_sign(v, &kp.seed, b"hello", Some(&long)), None);
    assert_eq!(try_sign(v, &kp.seed, b"hello", Some(&short)), Some(sig));
}
