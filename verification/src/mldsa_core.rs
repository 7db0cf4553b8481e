//! The ML-DSA operations for any of the three parameter sets: key pairs derived from a
//! seed, deterministic signing with an optional context string, and verification.

use crate::external::{
    mldsa44_generate, mldsa44_sign_deterministic, mldsa44_signature, mldsa44_verifies,
    mldsa44_verify_with_context, mldsa44_verifying_key, mldsa44_verifying_key_of, mldsa65_generate,
    mldsa65_sign_deterministic, mldsa65_signature, mldsa65_verifies, mldsa65_verify_with_context,
    mldsa65_verifying_key, mldsa65_verifying_key_of, mldsa87_generate, mldsa87_sign_deterministic,
    mldsa87_signature, mldsa87_verifies, mldsa87_verify_with_context, mldsa87_verifying_key,
    mldsa87_verifying_key_of, zeroize_seed,
};
use crate::variant::Variant;
use vstd::prelude::*;

verus! {

/// The encoded verifying key that a seed derives under a parameter set.
pub open spec fn verifying_key_of(v: Variant, seed: Seq<u8>) -> Seq<u8> {
    match v {
        Variant::MlDsa44 => mldsa44_verifying_key(seed),
        Variant::MlDsa65 => mldsa65_verifying_key(seed),
        Variant::MlDsa87 => mldsa87_verifying_key(seed),
    }
}

/// The deterministic signature of `message` under `context` with the key of `seed`,
/// or `None` where the signing routine reports an error.
pub open spec fn signature_of(v: Variant, seed: Seq<u8>, message: Seq<u8>, context: Seq<u8>) -> Option<Seq<u8>> {
    match v {
        Variant::MlDsa44 => mldsa44_signature(seed, message, context),
        Variant::MlDsa65 => mldsa65_signature(seed, message, context),
        Variant::MlDsa87 => mldsa87_signature(seed, message, context),
    }
}

/// Whether `verify` accepts: both encodings have the lengths of the parameter set and
/// ML-DSA verification succeeds on them.
pub open spec fn accepts(v: Variant, vk: Seq<u8>, message: Seq<u8>, signature: Seq<u8>, context: Seq<u8>) -> bool {
    &&& vk.len() == v.vk_len()
    &&& signature.len() == v.sig_len()
    &&& match v {
        Variant::MlDsa44 => mldsa44_verifies(vk, message, signature, context),
        Variant::MlDsa65 => mldsa65_verifies(vk, message, signature, context),
        Variant::MlDsa87 => mldsa87_verifies(vk, message, signature, context),
    }
}

/// The context string that an optional context stands for: none is the empty string.
pub open spec fn context_of(context: Option<&[u8]>) -> Seq<u8> {
    match context {
        Some(c) => c@,
        None => Seq::empty(),
    }
}

/// `signature` is what signing `message` under `context` gives with some seed whose
/// verifying key is `vk`, and both have the lengths of the parameter set.
pub open spec fn signed_under(v: Variant, vk: Seq<u8>, message: Seq<u8>, signature: Seq<u8>, context: Seq<u8>) -> bool {
    &&& vk.len() == v.vk_len()
    &&& signature.len() == v.sig_len()
    &&& exists|seed: Seq<u8>|
        seed.len() == 32 && #[trigger] verifying_key_of(v, seed) == vk
            && signature_of(v, seed, message, context) == Some(signature)
}

/// A seed and the verifying key that it derives. The seed is zeroized on drop.
pub struct KeyPair {
    pub seed: [u8; 32],
    pub verifying_key: Vec<u8>,
}

impl KeyPair {
    /// The verifying key is the one that the seed derives under `v`.
    pub open spec fn is_derived(&self, v: Variant) -> bool {
        &&& self.verifying_key@ == verifying_key_of(v, self.seed@)
        &&& self.verifying_key@.len() == v.vk_len()
    }
}

impl Drop for KeyPair {
    fn drop(&mut self)
        ensures
            final(self).seed@ == Seq::new(32, |i: int| 0u8),
            final(self).verifying_key@ == old(self).verifying_key@,
        opens_invariants none
        no_unwind
    {
        zeroize_seed(&mut self.seed);
    }
}

/// The verifying key that `seed` derives.
pub(crate) fn derive_verifying_key(v: Variant, seed: &[u8; 32]) -> (vk: Vec<u8>)
    ensures
        vk@ == verifying_key_of(v, seed@),
        vk@.len() == v.vk_len(),
{
    match v {
        Variant::MlDsa44 => mldsa44_verifying_key_of(seed),
        Variant::MlDsa65 => mldsa65_verifying_key_of(seed),
        Variant::MlDsa87 => mldsa87_verifying_key_of(seed),
    }
}

/// Generates a key pair from a fresh seed of the system RNG.
pub fn generate_keypair(v: Variant) -> (kp: KeyPair)
    ensures
        kp.is_derived(v),
{
    let (seed, verifying_key) = match v {
        Variant::MlDsa44 => mldsa44_generate(),
        Variant::MlDsa65 => mldsa65_generate(),
        Variant::MlDsa87 => mldsa87_generate(),
    };
    KeyPair { seed, verifying_key }
}

/// Derives the key pair of a seed.
pub fn generate_keypair_from_seed(v: Variant, seed: &[u8; 32]) -> (kp: KeyPair)
    ensures
        kp.seed@ == seed@,
        kp.is_derived(v),
{
    let verifying_key = derive_verifying_key(v, seed);
    KeyPair { seed: *seed, verifying_key }
}

/// One call of the deterministic signing routine.
pub(crate) fn sign_once(v: Variant, seed: &[u8; 32], message: &[u8], context: &[u8]) -> (sig: Option<Vec<u8>>)
    ensures
        sig is Some <==> signature_of(v, seed@, message@, context@) is Some,
        sig matches Some(s) ==> Some(s@) == signature_of(v, seed@, message@, context@),
        sig matches Some(s) ==> s@.len() == v.sig_len(),
        context@.len() > 255 ==> sig is None,
{
    let signed = match v {
        Variant::MlDsa44 => mldsa44_sign_deterministic(seed, message, context),
        Variant::MlDsa65 => mldsa65_sign_deterministic(seed, message, context),
        Variant::MlDsa87 => mldsa87_sign_deterministic(seed, message, context),
    };
    match signed {
        Ok(s) => Some(s),
        Err(_) => None,
    }
}

/// The context string of an optional context: none is the empty string.
pub(crate) fn context_slice<'a>(context: Option<&'a [u8]>) -> (c: &'a [u8])
    ensures
        c@ == context_of(context),
{
    match context {
        Some(c) => c,
        None => {
            let empty: &[u8] = &[];
            assert(empty@ =~= Seq::<u8>::empty());
            empty
        },
    }
}

/// Signs `message` deterministically under `context` (none: the empty context) with the
/// key that `seed` derives. The context must be at most 255 bytes, and the signing
/// routine must succeed on these inputs (see `try_sign`).
pub fn sign(v: Variant, seed: &[u8; 32], message: &[u8], context: Option<&[u8]>) -> (sig: Vec<u8>)
    requires
        context_of(context).len() <= 255,
        signature_of(v, seed@, message@, context_of(context)) is Some,
    ensures
        Some(sig@) == signature_of(v, seed@, message@, context_of(context)),
        sig@.len() == v.sig_len(),
{
    let ctx = context_slice(context);
    sign_once(v, seed, message, ctx).unwrap()
}

/// As `sign`, for any inputs: `None` where the context is longer than 255 bytes or the
/// signing routine fails.
pub fn try_sign(v: Variant, seed: &[u8; 32], message: &[u8], context: Option<&[u8]>) -> (sig: Option<Vec<u8>>)
    ensures
        sig is Some <==> signature_of(v, seed@, message@, context_of(context)) is Some,
        sig matches Some(s) ==> Some(s@) == signature_of(v, seed@, message@, context_of(context)),
        sig matches Some(s) ==> s@.len() == v.sig_len(),
        context_of(context).len() > 255 ==> sig is None,
{
    sign_once(v, seed, message, context_slice(context))
}

/// Verifies `signature` of `message` under `context` (none: the empty context) against
/// the encoded verifying key `vk`. Encodings of the wrong length are refused.
pub fn verify(v: Variant, vk: &[u8], message: &[u8], signature: &[u8], context: Option<&[u8]>) -> (ok: bool)
    ensures
        ok == accepts(v, vk@, message@, signature@, context_of(context)),
        context_of(context).len() > 255 ==> !ok,
        signed_under(v, vk@, message@, signature@, context_of(context)) ==> ok,
{
    let ctx = context_slice(context);
    if vk.len() != v.verifying_key_size() || signature.len() != v.signature_size() {
        return false;
    }
    match v {
        Variant::MlDsa44 => mldsa44_verify_with_context(vk, message, signature, ctx),
        Variant::MlDsa65 => mldsa65_verify_with_context(vk, message, signature, ctx),
        Variant::MlDsa87 => mldsa87_verify_with_context(vk, message, signature, ctx),
    }
}

/// A key pair is determined by its seed: two key pairs derived under the same parameter
/// set from the same seed have the same verifying key.
pub proof fn lemma_keypair_determined_by_seed(v: Variant, a: &KeyPair, b: &KeyPair)
    requires
        a.is_derived(v),
        b.is_derived(v),
        a.seed@ == b.seed@,
    ensures
        a.verifying_key@ == b.verifying_key@,
{
}

/// Signing is deterministic: the same seed, message and context give the same signature.
pub proof fn lemma_signing_is_deterministic(
    v: Variant,
    seed: Seq<u8>,
    message: Seq<u8>,
    context: Seq<u8>,
    first: Seq<u8>,
    second: Seq<u8>,
)
    requires
        Some(first) == signature_of(v, seed, message, context),
        Some(second) == signature_of(v, seed, message, context),
    ensures
        first == second,
{
}

/// A signature made with a seed is signed under the verifying key of that seed, so
/// `verify` accepts it with that key, for the same message and context.
pub proof fn lemma_signed_under_own_key(
    v: Variant,
    seed: Seq<u8>,
    message: Seq<u8>,
    context: Seq<u8>,
    signature: Seq<u8>,
)
    requires
        seed.len() == 32,
        Some(signature) == signature_of(v, seed, message, context),
        verifying_key_of(v, seed).len() == v.vk_len(),
        signature.len() == v.sig_len(),
    ensures
        signed_under(v, verifying_key_of(v, seed), message, signature, context),
{
    assert(verifying_key_of(v, seed) == verifying_key_of(v, seed));
}

/// No context is the empty context, for signing and for verification alike.
pub proof fn lemma_no_context_is_empty_context(
    v: Variant,
    seed: Seq<u8>,
    vk: Seq<u8>,
    message: Seq<u8>,
    signature: Seq<u8>,
    empty: &[u8],
)
    requires
        empty@.len() == 0,
    ensures
        signature_of(v, seed, message, context_of(None)) == signature_of(v, seed, message, context_of(Some(empty))),
        accepts(v, vk, message, signature, context_of(None)) == accepts(v, vk, message, signature, context_of(Some(empty))),
{
    assert(context_of(Some(empty)) =~= context_of(None));
}

/// What `verify` returns is ML-DSA verification under exactly the context it was given
/// (none: the empty context) and no other, for encodings of the parameter set's lengths;
/// encodings of other lengths are refused.
pub proof fn law_verify_is_ml_dsa_verification(
    v: Variant,
    vk: &[u8],
    message: &[u8],
    signature: &[u8],
    context: Option<&[u8]>,
    ok: bool,
)
    requires
        ok == accepts(v, vk@, message@, signature@, context_of(context)),
    ensures
        ({
            let c = match context {
                Some(c) => c@,
                None => Seq::<u8>::empty(),
            };
            &&& v == Variant::MlDsa44 ==> (ok <==> vk@.len() == 1312 && signature@.len() == 2420
                && mldsa44_verifies(vk@, message@, signature@, c))
            &&& v == Variant::MlDsa65 ==> (ok <==> vk@.len() == 1952 && signature@.len() == 3309
                && mldsa65_verifies(vk@, message@, signature@, c))
            &&& v == Variant::MlDsa87 ==> (ok <==> vk@.len() == 2592 && signature@.len() == 4627
                && mldsa87_verifies(vk@, message@, signature@, c))
        }),
{
}

/// The key pair of a seed is ml-dsa's key pair of that very seed, for every parameter set.
pub proof fn law_keypair_is_ml_dsa_keypair(v: Variant, kp: &KeyPair)
    requires
        kp.is_derived(v),
    ensures
        v == Variant::MlDsa44 ==> kp.verifying_key@ == mldsa44_verifying_key(kp.seed@) && kp.verifying_key@.len() == 1312,
        v == Variant::MlDsa65 ==> kp.verifying_key@ == mldsa65_verifying_key(kp.seed@) && kp.verifying_key@.len() == 1952,
        v == Variant::MlDsa87 ==> kp.verifying_key@ == mldsa87_verifying_key(kp.seed@) && kp.verifying_key@.len() == 2592,
{
}

/// What `sign` and `try_sign` return is ml-dsa's deterministic signature with the key of
/// that very seed, under exactly the context given (none: the empty context).
pub proof fn law_signature_is_ml_dsa_signature(
    v: Variant,
    seed: &[u8; 32],
    message: &[u8],
    context: Option<&[u8]>,
    sig: Seq<u8>,
)
    requires
        Some(sig) == signature_of(v, seed@, message@, context_of(context)),
    ensures
        ({
            let c = match context {
                Some(c) => c@,
                None => Seq::<u8>::empty(),
            };
            &&& v == Variant::MlDsa44 ==> Some(sig) == mldsa44_signature(seed@, message@, c)
            &&& v == Variant::MlDsa65 ==> Some(sig) == mldsa65_signature(seed@, message@, c)
            &&& v == Variant::MlDsa87 ==> Some(sig) == mldsa87_signature(seed@, message@, c)
        }),
{
}

/// Signing fails exactly where ml-dsa's deterministic signing of that very seed, message
/// and context reports an error.
pub proof fn law_signing_fails_as_ml_dsa(v: Variant, seed: Seq<u8>, message: Seq<u8>, context: Seq<u8>)
    ensures
        v == Variant::MlDsa44 ==> (signature_of(v, seed, message, context) is None <==> mldsa44_signature(seed, message, context) is None),
        v == Variant::MlDsa65 ==> (signature_of(v, seed, message, context) is None <==> mldsa65_signature(seed, message, context) is None),
        v == Variant::MlDsa87 ==> (signature_of(v, seed, message, context) is None <==> mldsa87_signature(seed, message, context) is None),
{
}

} // verus!
