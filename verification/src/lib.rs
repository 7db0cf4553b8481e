//! ML-DSA (FIPS 204) post-quantum signatures over ml-dsa: key pairs derived from a
//! 32-byte seed, deterministic signing with an optional context string, verification,
//! and the byte- and base64-level entry points that the WebAssembly bindings expose.
//!
//! The items at the root are the ML-DSA-65 interface with fixed-size arrays and the
//! empty context; `mldsa_core` offers every parameter set.

pub mod base64url;
pub mod bindings;
pub mod bytes;
pub mod error;
pub mod external;
pub mod mldsa_core;
pub mod variant;
pub mod web;

use crate::bytes::copy_from_slice;
use crate::external::{mldsa65_signature, mldsa65_verifies, mldsa65_verifying_key, zeroize_seed};
use crate::mldsa_core::{accepts, context_of, signature_of, signed_under, verifying_key_of};
use crate::variant::Variant;
use vstd::prelude::*;

verus! {

/// Length in bytes of a seed.
pub const SEED_SIZE: usize = 32;

/// Length in bytes of an expanded ML-DSA-65 signing key.
pub const SIGNING_KEY_SIZE: usize = 4032;

/// Length in bytes of an encoded ML-DSA-65 verifying key.
pub const VERIFYING_KEY_SIZE: usize = 1952;

/// Length in bytes of an encoded ML-DSA-65 signature.
pub const SIGNATURE_SIZE: usize = 3309;

/// The ML-DSA-65 verifying key that a seed derives.
pub open spec fn verifying_key_of_seed(seed: Seq<u8>) -> Seq<u8> {
    verifying_key_of(Variant::MlDsa65, seed)
}

/// The ML-DSA-65 signature of `message` (empty context) with the key of `seed`.
pub open spec fn signature_of_seed(seed: Seq<u8>, message: Seq<u8>) -> Option<Seq<u8>> {
    signature_of(Variant::MlDsa65, seed, message, Seq::empty())
}

/// An ML-DSA-65 seed and the verifying key that it derives. The seed is zeroized on drop.
pub struct KeyPair {
    pub seed: [u8; SEED_SIZE],
    pub verifying_key: [u8; VERIFYING_KEY_SIZE],
}

impl KeyPair {
    /// The verifying key is the one that the seed derives.
    pub open spec fn is_derived(&self) -> bool {
        self.verifying_key@ == verifying_key_of_seed(self.seed@)
    }
}

impl Drop for KeyPair {
    fn drop(&mut self)
        ensures
            final(self).seed@ == Seq::new(32, |i: int| 0u8),
            final(self).verifying_key@ == old(self).verifying_key@,
        opens_invariants none
        no_unwind
    {
        zeroize_seed(&mut self.seed);
    }
}

/// The fixed-size form of a key pair of the generic interface.
fn fixed_keypair(kp: &mldsa_core::KeyPair) -> (out: KeyPair)
    requires
        kp.is_derived(Variant::MlDsa65),
    ensures
        out.seed@ == kp.seed@,
        out.is_derived(),
{
    let mut verifying_key = [0u8; VERIFYING_KEY_SIZE];
    copy_from_slice(&mut verifying_key, kp.verifying_key.as_slice());
    KeyPair { seed: kp.seed, verifying_key }
}

/// Generates an ML-DSA-65 key pair from a fresh seed of the system RNG.
pub fn generate_keypair() -> (kp: KeyPair)
    ensures
        kp.is_derived(),
{
    let kp = mldsa_core::generate_keypair(Variant::MlDsa65);
    fixed_keypair(&kp)
}

/// Derives the ML-DSA-65 key pair of a seed.
pub fn generate_keypair_from_seed(seed: &[u8; SEED_SIZE]) -> (kp: KeyPair)
    ensures
        kp.seed@ == seed@,
        kp.is_derived(),
{
    let kp = mldsa_core::generate_keypair_from_seed(Variant::MlDsa65, seed);
    fixed_keypair(&kp)
}

/// Signs `message` deterministically (empty context) with the ML-DSA-65 key of `seed`.
/// The signing routine must succeed on these inputs (see `try_sign`).
pub fn sign(seed: &[u8; SEED_SIZE], message: &[u8]) -> (sig: [u8; SIGNATURE_SIZE])
    requires
        signature_of_seed(seed@, message@) is Some,
    ensures
        Some(sig@) == signature_of_seed(seed@, message@),
{
    let signed = mldsa_core::sign(Variant::MlDsa65, seed, message, None);
    let mut sig = [0u8; SIGNATURE_SIZE];
    copy_from_slice(&mut sig, signed.as_slice());
    sig
}

/// As `sign`, for any inputs: `None` where the signing routine fails.
pub fn try_sign(seed: &[u8; SEED_SIZE], message: &[u8]) -> (sig: Option<[u8; SIGNATURE_SIZE]>)
    ensures
        sig is Some <==> signature_of_seed(seed@, message@) is Some,
        sig matches Some(s) ==> Some(s@) == signature_of_seed(seed@, message@),
{
    let empty: &[u8] = &[];
    assert(empty@ =~= Seq::<u8>::empty());
    match mldsa_core::sign_once(Variant::MlDsa65, seed, message, empty) {
        Some(signed) => {
            let mut sig = [0u8; SIGNATURE_SIZE];
            copy_from_slice(&mut sig, signed.as_slice());
            Some(sig)
        },
        None => None,
    }
}

/// Verifies an ML-DSA-65 signature of `message` (empty context) against `vk`.
pub fn verify(vk: &[u8; VERIFYING_KEY_SIZE], message: &[u8], sig: &[u8; SIGNATURE_SIZE]) -> (ok: bool)
    ensures
        ok == accepts(Variant::MlDsa65, vk@, message@, sig@, Seq::empty()),
        signed_under(Variant::MlDsa65, vk@, message@, sig@, Seq::empty()) ==> ok,
{
    mldsa_core::verify(Variant::MlDsa65, vk.as_slice(), message, sig.as_slice(), None)
}

/// The ML-DSA-65 signature of the root interface is that of the generic interface with
/// ML-DSA-65 and no context; so is what the root `verify` accepts.
pub proof fn lemma_root_is_generic_ml_dsa_65(seed: Seq<u8>, vk: Seq<u8>, message: Seq<u8>, sig: Seq<u8>)
    ensures
        signature_of_seed(seed, message) == signature_of(Variant::MlDsa65, seed, message, context_of(None)),
        verifying_key_of_seed(seed) == verifying_key_of(Variant::MlDsa65, seed),
        accepts(Variant::MlDsa65, vk, message, sig, Seq::empty())
            == accepts(Variant::MlDsa65, vk, message, sig, context_of(None)),
{
}

/// The root interface is ml-dsa's ML-DSA-65 with the empty context: the key pair and the
/// signature of a seed are ml-dsa's for that very seed.
pub proof fn law_root_is_ml_dsa_65(kp: &KeyPair, seed: Seq<u8>, message: Seq<u8>)
    ensures
        kp.is_derived() ==> kp.verifying_key@ == mldsa65_verifying_key(kp.seed@),
        verifying_key_of_seed(seed) == mldsa65_verifying_key(seed),
        signature_of_seed(seed, message) == mldsa65_signature(seed, message, Seq::empty()),
        forall|vk: Seq<u8>, sig: Seq<u8>|
            #[trigger] accepts(Variant::MlDsa65, vk, message, sig, Seq::empty())
                <==> vk.len() == 1952 && sig.len() == 3309 && mldsa65_verifies(vk, message, sig, Seq::empty()),
{
}

} // verus!
