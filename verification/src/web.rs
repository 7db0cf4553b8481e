//! The text-level ML-DSA-65 entry points behind the WebAssembly bindings: seeds, keys
//! and signatures travel as unpadded URL-safe base64.

use crate::bytes::copy_from_slice;
use crate::error::{Field, InputError};
use crate::base64url::{base64url, base64url_bytes, is_base64url, lemma_decode_of_encode};
use crate::external::{base64_decode, base64_encode};
use crate::mldsa_core::{self, accepts, signed_under};
use crate::variant::Variant;
use crate::{signature_of_seed, verifying_key_of_seed, SEED_SIZE, SIGNATURE_SIZE, VERIFYING_KEY_SIZE};
use vstd::prelude::*;

verus! {

/// What decoding a text gives: its bytes, or an error about `field`.
pub open spec fn decoded(text: Seq<char>, field: Field) -> Result<Seq<u8>, InputError> {
    if is_base64url(text) {
        Ok(base64url_bytes(text))
    } else {
        Err(InputError::InvalidBase64(field))
    }
}

/// What decoding a text into exactly `n` bytes gives.
pub open spec fn decoded_fixed(text: Seq<char>, field: Field, n: usize) -> Result<Seq<u8>, InputError> {
    match decoded(text, field) {
        Ok(b) => if b.len() == n {
            Ok(b)
        } else {
            Err(InputError::WrongLength(field, n))
        },
        Err(e) => Err(e),
    }
}

/// The texts encode a verifying key of some seed and a signature of `message` made with
/// the key of that seed.
pub open spec fn encoded_signed_under(vk: Seq<char>, message: Seq<u8>, sig: Seq<char>) -> bool {
    exists|kb: Seq<u8>, sb: Seq<u8>|
        #[trigger] base64url(kb) == vk && #[trigger] base64url(sb) == sig
            && signed_under(Variant::MlDsa65, kb, message, sb, Seq::empty())
}

/// The base64 texts of a generated key pair.
pub struct GenerateKeypairResult {
    pub seed: String,
    pub verifying_key: String,
}

/// The unpadded URL-safe base64 text of some bytes.
fn encode(bytes: &[u8]) -> (text: String)
    ensures
        text@ == base64url(bytes@),
{
    base64_encode(bytes)
}

/// Decodes unpadded URL-safe base64; an error names `field`.
fn decode(text: &str, field: Field) -> (r: Result<Vec<u8>, InputError>)
    ensures
        r matches Ok(b) ==> decoded(text@, field) == Ok::<Seq<u8>, InputError>(b@),
        r matches Err(e) ==> decoded(text@, field) == Err::<Seq<u8>, InputError>(e),
        forall|data: Seq<u8>| #[trigger] base64url(data) == text@ ==> (r matches Ok(b) && b@ == data),
{
    match base64_decode(text) {
        Ok(b) => Ok(b),
        Err(_) => Err(InputError::InvalidBase64(field)),
    }
}

/// Decodes unpadded URL-safe base64 into exactly `N` bytes; an error names `field`.
fn decode_fixed<const N: usize>(text: &str, field: Field) -> (r: Result<[u8; N], InputError>)
    ensures
        r matches Ok(a) ==> decoded_fixed(text@, field, N) == Ok::<Seq<u8>, InputError>(a@),
        r matches Err(e) ==> decoded_fixed(text@, field, N) == Err::<Seq<u8>, InputError>(e),
        forall|data: Seq<u8>| #[trigger] base64url(data) == text@ && data.len() == N
            ==> (r matches Ok(a) && a@ == data),
{
    let bytes = match decode(text, field) {
        Ok(b) => b,
        Err(e) => return Err(e),
    };
    if bytes.len() != N {
        return Err(InputError::WrongLength(field, N));
    }
    let mut arr = [0u8; N];
    copy_from_slice(&mut arr, bytes.as_slice());
    Ok(arr)
}

/// Generates an ML-DSA-65 key pair from a fresh seed of the system RNG, as base64 texts.
pub fn generate_keypair_wasm() -> (r: GenerateKeypairResult)
    ensures
        exists|seed: Seq<u8>|
            seed.len() == SEED_SIZE && r.seed@ == #[trigger] base64url(seed)
                && r.verifying_key@ == base64url(verifying_key_of_seed(seed))
                && verifying_key_of_seed(seed).len() == VERIFYING_KEY_SIZE,
{
    let kp = crate::generate_keypair();
    let r = GenerateKeypairResult {
        seed: encode(kp.seed.as_slice()),
        verifying_key: encode(kp.verifying_key.as_slice()),
    };
    assert(r.seed@ == base64url(kp.seed@));
    r
}

/// Signs `message` (empty context) with the ML-DSA-65 key of the seed that `seed`
/// encodes, and returns the signature as base64.
pub fn sign(seed: &str, message: &[u8]) -> (r: Result<String, InputError>)
    ensures
        decoded_fixed(seed@, Field::Seed, SEED_SIZE) matches Err(e) ==> r == Err::<String, InputError>(e),
        decoded_fixed(seed@, Field::Seed, SEED_SIZE) matches Ok(sb) ==> match signature_of_seed(sb, message@) {
            Some(s) => s.len() == SIGNATURE_SIZE && (r matches Ok(t) && t@ == base64url(s)),
            None => r == Err::<String, InputError>(InputError::SigningFailed),
        },
        forall|sb: Seq<u8>| sb.len() == SEED_SIZE && #[trigger] base64url(sb) == seed@
            ==> match signature_of_seed(sb, message@) {
                Some(s) => s.len() == SIGNATURE_SIZE && (r matches Ok(t) && t@ == base64url(s)),
                None => r == Err::<String, InputError>(InputError::SigningFailed),
            },
{
    let seed_bytes: [u8; SEED_SIZE] = match decode_fixed(seed, Field::Seed) {
        Ok(a) => a,
        Err(e) => return Err(e),
    };
    let empty: &[u8] = &[];
    assert(empty@ =~= Seq::<u8>::empty());
    match mldsa_core::sign_once(Variant::MlDsa65, &seed_bytes, message, empty) {
        Some(sig) => Ok(encode(sig.as_slice())),
        None => Err(InputError::SigningFailed),
    }
}

/// Verifies an ML-DSA-65 signature (empty context), key and signature given as base64;
/// the key is decoded first.
pub fn verify(verifying_key: &str, message: &[u8], signature: &str) -> (r: Result<bool, InputError>)
    ensures
        decoded_fixed(verifying_key@, Field::VerifyingKey, VERIFYING_KEY_SIZE) matches Err(e)
            ==> r == Err::<bool, InputError>(e),
        decoded_fixed(verifying_key@, Field::VerifyingKey, VERIFYING_KEY_SIZE) is Ok
            ==> (decoded_fixed(signature@, Field::Signature, SIGNATURE_SIZE) matches Err(e)
            ==> r == Err::<bool, InputError>(e)),
        decoded_fixed(verifying_key@, Field::VerifyingKey, VERIFYING_KEY_SIZE) matches Ok(kb)
            ==> (decoded_fixed(signature@, Field::Signature, SIGNATURE_SIZE) matches Ok(sb)
            ==> r == Ok::<bool, InputError>(accepts(Variant::MlDsa65, kb, message@, sb, Seq::empty()))),
        encoded_signed_under(verifying_key@, message@, signature@) ==> r == Ok::<bool, InputError>(true),
{
    let vk_bytes: [u8; VERIFYING_KEY_SIZE] = match decode_fixed(verifying_key, Field::VerifyingKey) {
        Ok(a) => a,
        Err(e) => return Err(e),
    };
    let sig_bytes: [u8; SIGNATURE_SIZE] = match decode_fixed(signature, Field::Signature) {
        Ok(a) => a,
        Err(e) => return Err(e),
    };
    Ok(crate::verify(&vk_bytes, message, &sig_bytes))
}

/// Decoding the text of exactly `n` bytes gives those bytes back.
pub proof fn lemma_decoded_fixed_of_encoding(bytes: Seq<u8>, field: Field, n: usize)
    requires
        bytes.len() == n,
    ensures
        decoded_fixed(base64url(bytes), field, n) == Ok::<Seq<u8>, InputError>(bytes),
{
    lemma_decode_of_encode(bytes);
}

/// Decoding into `n` bytes succeeds exactly on the canonical text of `n` bytes, and gives
/// those bytes; the text of any other number of bytes is refused for its length, and a
/// text that encodes nothing is refused as base64.
pub proof fn law_decoded_fixed(text: Seq<char>, field: Field, n: usize)
    ensures
        decoded_fixed(text, field, n) matches Ok(b) ==> base64url(b) == text && b.len() == n,
        forall|b: Seq<u8>| #[trigger] base64url(b) == text && b.len() != n
            ==> decoded_fixed(text, field, n) == Err::<Seq<u8>, InputError>(InputError::WrongLength(field, n)),
        forall|b: Seq<u8>| #[trigger] base64url(b) == text && b.len() == n
            ==> decoded_fixed(text, field, n) == Ok::<Seq<u8>, InputError>(b),
        (forall|b: Seq<u8>| #[trigger] base64url(b) != text)
            ==> decoded_fixed(text, field, n) == Err::<Seq<u8>, InputError>(InputError::InvalidBase64(field)),
{
    assert forall|b: Seq<u8>| #[trigger] base64url(b) == text implies base64url_bytes(text) == b by {
        lemma_decode_of_encode(b);
    }
}

/// Decoding succeeds exactly on canonical text, and gives the bytes that it encodes.
pub proof fn law_decoded(text: Seq<char>, field: Field)
    ensures
        decoded(text, field) matches Ok(b) ==> base64url(b) == text,
        forall|b: Seq<u8>| #[trigger] base64url(b) == text ==> decoded(text, field) == Ok::<Seq<u8>, InputError>(b),
        (forall|b: Seq<u8>| #[trigger] base64url(b) != text)
            ==> decoded(text, field) == Err::<Seq<u8>, InputError>(InputError::InvalidBase64(field)),
{
    assert forall|b: Seq<u8>| #[trigger] base64url(b) == text implies base64url_bytes(text) == b by {
        lemma_decode_of_encode(b);
    }
}

/// The base64 texts of a seed's verifying key and of a signature made with that seed are
/// signed under one another, so `verify` accepts them.
pub proof fn law_texts_of_a_signature_are_signed(seed: Seq<u8>, message: Seq<u8>, sig: Seq<u8>)
    requires
        seed.len() == SEED_SIZE,
        verifying_key_of_seed(seed).len() == VERIFYING_KEY_SIZE,
        Some(sig) == signature_of_seed(seed, message),
        sig.len() == SIGNATURE_SIZE,
    ensures
        encoded_signed_under(base64url(verifying_key_of_seed(seed)), message, base64url(sig)),
{
    mldsa_core::lemma_signed_under_own_key(Variant::MlDsa65, seed, message, Seq::empty(), sig);
}

} // verus!
