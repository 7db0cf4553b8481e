//! The calls into ml-dsa, zeroize and base64, each behind a wrapper whose contract
//! is believed, not proved. The results of the ML-DSA algorithms are named by
//! uninterpreted spec functions: each is a function of its arguments alone.

use base64::Engine;
use ml_dsa::Keypair;
use ml_dsa::signature::rand_core::UnwrapErr;
use ml_dsa::{Generate, MlDsa44, MlDsa65, MlDsa87, SigningKey, B32};
use crate::base64url::base64url;
use vstd::prelude::*;

verus! {

/// The opaque error of ml-dsa (`signature::Error`, re-exported as `ml_dsa::Error`).
#[verifier::external_type_specification]
#[verifier::external_body]
pub struct ExMlDsaError(ml_dsa::Error);

/// The error of base64 decoding.
#[verifier::external_type_specification]
#[verifier::external_body]
pub struct ExDecodeError(base64::DecodeError);

// ---------------------------------------------------------------- ML-DSA-44

/// The encoded verifying key (FIPS 204 pkEncode) that ML-DSA-44 KeyGen_internal
/// derives from a 32-byte seed: `SigningKey::<MlDsa44>::from_seed(seed).verifying_key().encode()`.
pub uninterp spec fn mldsa44_verifying_key(seed: Seq<u8>) -> Seq<u8>;

/// What the deterministic ML-DSA-44 signing of `message` under `context`, with the key
/// derived from `seed`, returns: the encoded signature, or `None` when ml-dsa reports an error.
pub uninterp spec fn mldsa44_signature(seed: Seq<u8>, message: Seq<u8>, context: Seq<u8>) -> Option<Seq<u8>>;

/// Whether ML-DSA-44 verification of the encoded `signature` of `message` under
/// `context`, against the encoded verifying key `vk`, succeeds.
pub uninterp spec fn mldsa44_verifies(vk: Seq<u8>, message: Seq<u8>, signature: Seq<u8>, context: Seq<u8>) -> bool;

/// Calls `SigningKey::<MlDsa44>::generate_from_rng` with the system RNG
/// (`UnwrapErr(getrandom::SysRng)`), then `to_seed` and `verifying_key().encode()`.
/// Claimed: the key is the one that the returned seed derives (ml-dsa draws a seed and
/// calls `from_seed` on it; `to_seed` gives that seed back) and it has 1312 bytes.
/// Nothing is claimed of the seed: it is random. Like ml-dsa's own `generate`, it panics
/// if the operating system's RNG fails.
#[verifier::external_body]
pub(crate) fn mldsa44_generate() -> (out: ([u8; 32], Vec<u8>))
    ensures
        out.1@ == mldsa44_verifying_key(out.0@),
        out.1@.len() == 1312,
{
    let kp = SigningKey::<MlDsa44>::generate_from_rng(&mut UnwrapErr(getrandom::SysRng));
    (kp.to_seed().into(), kp.verifying_key().encode().to_vec())
}

/// Calls `SigningKey::<MlDsa44>::from_seed` and encodes its verifying key.
/// Claimed: the result is the named key of the seed, 1312 bytes long.
#[verifier::external_body]
pub(crate) fn mldsa44_verifying_key_of(seed: &[u8; 32]) -> (vk: Vec<u8>)
    ensures
        vk@ == mldsa44_verifying_key(seed@),
        vk@.len() == 1312,
{
    SigningKey::<MlDsa44>::from_seed(&B32::from(*seed)).verifying_key().encode().to_vec()
}

/// Calls `ExpandedSigningKey::sign_deterministic` on the key that `from_seed` derives,
/// and encodes the signature. Claimed: the result is the named one; a signature has
/// 2420 bytes; a context longer than 255 bytes is an error (ml-dsa checks it first).
#[verifier::external_body]
pub(crate) fn mldsa44_sign_deterministic(seed: &[u8; 32], message: &[u8], context: &[u8]) -> (sig: Result<Vec<u8>, ml_dsa::Error>)
    ensures
        sig is Ok <==> mldsa44_signature(seed@, message@, context@) is Some,
        sig matches Ok(s) ==> Some(s@) == mldsa44_signature(seed@, message@, context@),
        sig matches Ok(s) ==> s@.len() == 2420,
        context@.len() > 255 ==> sig is Err,
{
    let key = SigningKey::<MlDsa44>::from_seed(&B32::from(*seed));
    match key.expanded_key().sign_deterministic(message, context) {
        Ok(s) => Ok(s.encode().to_vec()),
        Err(e) => Err(e),
    }
}

/// Decodes the key (`EncodedVerifyingKey::try_from`, `VerifyingKey::decode`) and the
/// signature (`Signature::try_from`, false when it does not decode), then calls
/// `verify_with_context`. Claimed: the result is the named one; a context longer than
/// 255 bytes is refused (ml-dsa checks it first); and, by the correctness of ML-DSA
/// (FIPS 204), a signature made by `sign_deterministic` with the key of a seed is
/// accepted by the verifying key of that seed for the same message and context.
#[verifier::external_body]
pub(crate) fn mldsa44_verify_with_context(vk: &[u8], message: &[u8], signature: &[u8], context: &[u8]) -> (ok: bool)
    requires
        vk@.len() == 1312,
        signature@.len() == 2420,
    ensures
        ok == mldsa44_verifies(vk@, message@, signature@, context@),
        context@.len() > 255 ==> !ok,
        forall|seed: Seq<u8>|
            seed.len() == 32 && #[trigger] mldsa44_verifying_key(seed) == vk@
                && mldsa44_signature(seed, message@, context@) == Some(signature@) ==> ok,
{
    let key = ml_dsa::EncodedVerifyingKey::<MlDsa44>::try_from(vk).expect("length checked by the caller");
    let key = ml_dsa::VerifyingKey::<MlDsa44>::decode(&key);
    match ml_dsa::Signature::<MlDsa44>::try_from(signature) {
        Ok(sig) => key.verify_with_context(message, context, &sig),
        Err(_) => false,
    }
}

// ---------------------------------------------------------------- ML-DSA-65

/// The encoded verifying key (FIPS 204 pkEncode) that ML-DSA-65 KeyGen_internal
/// derives from a 32-byte seed: `SigningKey::<MlDsa65>::from_seed(seed).verifying_key().encode()`.
pub uninterp spec fn mldsa65_verifying_key(seed: Seq<u8>) -> Seq<u8>;

/// What the deterministic ML-DSA-65 signing of `message` under `context`, with the key
/// derived from `seed`, returns: the encoded signature, or `None` when ml-dsa reports an error.
pub uninterp spec fn mldsa65_signature(seed: Seq<u8>, message: Seq<u8>, context: Seq<u8>) -> Option<Seq<u8>>;

/// Whether ML-DSA-65 verification of the encoded `signature` of `message` under
/// `context`, against the encoded verifying key `vk`, succeeds.
pub uninterp spec fn mldsa65_verifies(vk: Seq<u8>, message: Seq<u8>, signature: Seq<u8>, context: Seq<u8>) -> bool;

/// Calls `SigningKey::<MlDsa65>::generate_from_rng` with the system RNG
/// (`UnwrapErr(getrandom::SysRng)`), then `to_seed` and `verifying_key().encode()`.
/// Claimed: the key is the one that the returned seed derives (ml-dsa draws a seed and
/// calls `from_seed` on it; `to_seed` gives that seed back) and it has 1952 bytes.
/// Nothing is claimed of the seed: it is random. Like ml-dsa's own `generate`, it panics
/// if the operating system's RNG fails.
#[verifier::external_body]
pub(crate) fn mldsa65_generate() -> (out: ([u8; 32], Vec<u8>))
    ensures
        out.1@ == mldsa65_verifying_key(out.0@),
        out.1@.len() == 1952,
{
    let kp = SigningKey::<MlDsa65>::generate_from_rng(&mut UnwrapErr(getrandom::SysRng));
    (kp.to_seed().into(), kp.verifying_key().encode().to_vec())
}

/// Calls `SigningKey::<MlDsa65>::from_seed` and encodes its verifying key.
/// Claimed: the result is the named key of the seed, 1952 bytes long.
#[verifier::external_body]
pub(crate) fn mldsa65_verifying_key_of(seed: &[u8; 32]) -> (vk: Vec<u8>)
    ensures
        vk@ == mldsa65_verifying_key(seed@),
        vk@.len() == 1952,
{
    SigningKey::<MlDsa65>::from_seed(&B32::from(*seed)).verifying_key().encode().to_vec()
}

/// Calls `ExpandedSigningKey::sign_deterministic` on the key that `from_seed` derives,
/// and encodes the signature. Claimed: the result is the named one; a signature has
/// 3309 bytes; a context longer than 255 bytes is an error (ml-dsa checks it first).
#[verifier::external_body]
pub(crate) fn mldsa65_sign_deterministic(seed: &[u8; 32], message: &[u8], context: &[u8]) -> (sig: Result<Vec<u8>, ml_dsa::Error>)
    ensures
        sig is Ok <==> mldsa65_signature(seed@, message@, context@) is Some,
        sig matches Ok(s) ==> Some(s@) == mldsa65_signature(seed@, message@, context@),
        sig matches Ok(s) ==> s@.len() == 3309,
        context@.len() > 255 ==> sig is Err,
{
    let key = SigningKey::<MlDsa65>::from_seed(&B32::from(*seed));
    match key.expanded_key().sign_deterministic(message, context) {
        Ok(s) => Ok(s.encode().to_vec()),
        Err(e) => Err(e),
    }
}

/// Decodes the key (`EncodedVerifyingKey::try_from`, `VerifyingKey::decode`) and the
/// signature (`Signature::try_from`, false when it does not decode), then calls
/// `verify_with_context`. Claimed: the result is the named one; a context longer than
/// 255 bytes is refused (ml-dsa checks it first); and, by the correctness of ML-DSA
/// (FIPS 204), a signature made by `sign_deterministic` with the key of a seed is
/// accepted by the verifying key of that seed for the same message and context.
#[verifier::external_body]
pub(crate) fn mldsa65_verify_with_context(vk: &[u8], message: &[u8], signature: &[u8], context: &[u8]) -> (ok: bool)
    requires
        vk@.len() == 1952,
        signature@.len() == 3309,
    ensures
        ok == mldsa65_verifies(vk@, message@, signature@, context@),
        context@.len() > 255 ==> !ok,
        forall|seed: Seq<u8>|
            seed.len() == 32 && #[trigger] mldsa65_verifying_key(seed) == vk@
                && mldsa65_signature(seed, message@, context@) == Some(signature@) ==> ok,
{
    let key = ml_dsa::EncodedVerifyingKey::<MlDsa65>::try_from(vk).expect("length checked by the caller");
    let key = ml_dsa::VerifyingKey::<MlDsa65>::decode(&key);
    match ml_dsa::Signature::<MlDsa65>::try_from(signature) {
        Ok(sig) => key.verify_with_context(message, context, &sig),
        Err(_) => false,
    }
}

// ---------------------------------------------------------------- ML-DSA-87

/// The encoded verifying key (FIPS 204 pkEncode) that ML-DSA-87 KeyGen_internal
/// derives from a 32-byte seed: `SigningKey::<MlDsa87>::from_seed(seed).verifying_key().encode()`.
pub uninterp spec fn mldsa87_verifying_key(seed: Seq<u8>) -> Seq<u8>;

/// What the deterministic ML-DSA-87 signing of `message` under `context`, with the key
/// derived from `seed`, returns: the encoded signature, or `None` when ml-dsa reports an error.
pub uninterp spec fn mldsa87_signature(seed: Seq<u8>, message: Seq<u8>, context: Seq<u8>) -> Option<Seq<u8>>;

/// Whether ML-DSA-87 verification of the encoded `signature` of `message` under
/// `context`, against the encoded verifying key `vk`, succeeds.
pub uninterp spec fn mldsa87_verifies(vk: Seq<u8>, message: Seq<u8>, signature: Seq<u8>, context: Seq<u8>) -> bool;

/// Calls `SigningKey::<MlDsa87>::generate_from_rng` with the system RNG
/// (`UnwrapErr(getrandom::SysRng)`), then `to_seed` and `verifying_key().encode()`.
/// Claimed: the key is the one that the returned seed derives (ml-dsa draws a seed and
/// calls `from_seed` on it; `to_seed` gives that seed back) and it has 2592 bytes.
/// Nothing is claimed of the seed: it is random. Like ml-dsa's own `generate`, it panics
/// if the operating system's RNG fails.
#[verifier::external_body]
pub(crate) fn mldsa87_generate() -> (out: ([u8; 32], Vec<u8>))
    ensures
        out.1@ == mldsa87_verifying_key(out.0@),
        out.1@.len() == 2592,
{
    let kp = SigningKey::<MlDsa87>::generate_from_rng(&mut UnwrapErr(getrandom::SysRng));
    (kp.to_seed().into(), kp.verifying_key().encode().to_vec())
}

/// Calls `SigningKey::<MlDsa87>::from_seed` and encodes its verifying key.
/// Claimed: the result is the named key of the seed, 2592 bytes long.
#[verifier::external_body]
pub(crate) fn mldsa87_verifying_key_of(seed: &[u8; 32]) -> (vk: Vec<u8>)
    ensures
        vk@ == mldsa87_verifying_key(seed@),
        vk@.len() == 2592,
{
    SigningKey::<MlDsa87>::from_seed(&B32::from(*seed)).verifying_key().encode().to_vec()
}

/// Calls `ExpandedSigningKey::sign_deterministic` on the key that `from_seed` derives,
/// and encodes the signature. Claimed: the result is the named one; a signature has
/// 4627 bytes; a context longer than 255 bytes is an error (ml-dsa checks it first).
#[verifier::external_body]
pub(crate) fn mldsa87_sign_deterministic(seed: &[u8; 32], message: &[u8], context: &[u8]) -> (sig: Result<Vec<u8>, ml_dsa::Error>)
    ensures
        sig is Ok <==> mldsa87_signature(seed@, message@, context@) is Some,
        sig matches Ok(s) ==> Some(s@) == mldsa87_signature(seed@, message@, context@),
        sig matches Ok(s) ==> s@.len() == 4627,
        context@.len() > 255 ==> sig is Err,
{
    let key = SigningKey::<MlDsa87>::from_seed(&B32::from(*seed));
    match key.expanded_key().sign_deterministic(message, context) {
        Ok(s) => Ok(s.encode().to_vec()),
        Err(e) => Err(e),
    }
}

/// Decodes the key (`EncodedVerifyingKey::try_from`, `VerifyingKey::decode`) and the
/// signature (`Signature::try_from`, false when it does not decode), then calls
/// `verify_with_context`. Claimed: the result is the named one; a context longer than
/// 255 bytes is refused (ml-dsa checks it first); and, by the correctness of ML-DSA
/// (FIPS 204), a signature made by `sign_deterministic` with the key of a seed is
/// accepted by the verifying key of that seed for the same message and context.
#[verifier::external_body]
pub(crate) fn mldsa87_verify_with_context(vk: &[u8], message: &[u8], signature: &[u8], context: &[u8]) -> (ok: bool)
    requires
        vk@.len() == 2592,
        signature@.len() == 4627,
    ensures
        ok == mldsa87_verifies(vk@, message@, signature@, context@),
        context@.len() > 255 ==> !ok,
        forall|seed: Seq<u8>|
            seed.len() == 32 && #[trigger] mldsa87_verifying_key(seed) == vk@
                && mldsa87_signature(seed, message@, context@) == Some(signature@) ==> ok,
{
    let key = ml_dsa::EncodedVerifyingKey::<MlDsa87>::try_from(vk).expect("length checked by the caller");
    let key = ml_dsa::VerifyingKey::<MlDsa87>::decode(&key);
    match ml_dsa::Signature::<MlDsa87>::try_from(signature) {
        Ok(sig) => key.verify_with_context(message, context, &sig),
        Err(_) => false,
    }
}

// ---------------------------------------------------------------- zeroize

/// Calls `Zeroize::zeroize` on a seed. Claimed: every byte is 0 afterwards (zeroize
/// writes `u8::default()` into each element).
#[verifier::external_body]
pub(crate) fn zeroize_seed(seed: &mut [u8; 32])
    ensures
        final(seed)@ == Seq::new(32, |i: int| 0u8),
    opens_invariants none
    no_unwind
{
    zeroize::Zeroize::zeroize(seed);
}

// ---------------------------------------------------------------- base64

/// Calls `URL_SAFE_NO_PAD.encode`. Claimed: the result is the unpadded URL-safe base64
/// of the bytes (RFC 4648, section 5, without padding).
#[verifier::external_body]
pub(crate) fn base64_encode(bytes: &[u8]) -> (text: String)
    ensures
        text@ == base64url(bytes@),
{
    base64::engine::general_purpose::URL_SAFE_NO_PAD.encode(bytes)
}

/// Calls `URL_SAFE_NO_PAD.decode`. Claimed: it accepts exactly the canonical encodings
/// (the engine requires no padding and refuses trailing bits), and then gives the bytes
/// encoded.
#[verifier::external_body]
pub(crate) fn base64_decode(text: &str) -> (decoded: Result<Vec<u8>, base64::DecodeError>)
    ensures
        decoded matches Ok(b) ==> base64url(b@) == text@,
        forall|data: Seq<u8>| #[trigger] base64url(data) == text@ ==> decoded is Ok && decoded.unwrap()@ == data,
{
    base64::engine::general_purpose::URL_SAFE_NO_PAD.decode(text)
}

} // verus!
