//! The byte-level entry points behind the WebAssembly bindings of a parameter set: seeds,
//! keys and signatures arrive as byte strings of any length and are checked here.

use crate::bytes::copy_from_slice;
use crate::error::{Field, InputError};
use crate::external::zeroize_seed;
use crate::mldsa_core::{self, accepts, signature_of, signed_under, verifying_key_of};
use crate::variant::Variant;
use vstd::prelude::*;
use vstd::slice::slice_to_vec;

verus! {

/// The context string that an optional owned context stands for: none is the empty string.
pub open spec fn owned_context_of(context: Option<Vec<u8>>) -> Seq<u8> {
    match context {
        Some(c) => c@,
        None => Seq::empty(),
    }
}

/// The seed and verifying key of a generated key pair, as byte vectors.
pub struct GenerateKeypairResult {
    pub seed: Vec<u8>,
    pub verifying_key: Vec<u8>,
}

/// The seed as an array: refused unless it has exactly 32 bytes.
fn seed_array(seed: &[u8]) -> (out: Result<[u8; 32], InputError>)
    ensures
        seed@.len() == 32 ==> (out matches Ok(a) && a@ == seed@),
        seed@.len() != 32 ==> out == Err::<[u8; 32], InputError>(InputError::WrongLength(Field::Seed, 32)),
{
    if seed.len() != 32 {
        return Err(InputError::WrongLength(Field::Seed, 32));
    }
    let mut arr = [0u8; 32];
    copy_from_slice(&mut arr, seed);
    Ok(arr)
}

/// The borrowed form of an optional owned context.
fn context_ref(context: &Option<Vec<u8>>) -> (c: Option<&[u8]>)
    ensures
        mldsa_core::context_of(c) == owned_context_of(*context),
{
    match context {
        Some(c) => Some(c.as_slice()),
        None => None,
    }
}

/// Generates a key pair from a fresh seed of the system RNG.
pub fn generate_keypair_wasm(v: Variant) -> (r: GenerateKeypairResult)
    ensures
        r.seed@.len() == 32,
        r.verifying_key@ == verifying_key_of(v, r.seed@),
        r.verifying_key@.len() == v.vk_len(),
{
    let kp = mldsa_core::generate_keypair(v);
    GenerateKeypairResult {
        seed: slice_to_vec(kp.seed.as_slice()),
        verifying_key: slice_to_vec(kp.verifying_key.as_slice()),
    }
}

/// Derives the key pair of a seed, which must have exactly 32 bytes.
pub fn generate_keypair_from_seed_wasm(v: Variant, seed: &[u8]) -> (r: Result<GenerateKeypairResult, InputError>)
    ensures
        seed@.len() != 32 ==> r == Err::<GenerateKeypairResult, InputError>(InputError::WrongLength(Field::Seed, 32)),
        seed@.len() == 32 ==> (r matches Ok(kp) && kp.seed@ == seed@
            && kp.verifying_key@ == verifying_key_of(v, seed@)
            && kp.verifying_key@.len() == v.vk_len()),
{
    let seed_arr = match seed_array(seed) {
        Ok(a) => a,
        Err(e) => return Err(e),
    };
    let kp = mldsa_core::generate_keypair_from_seed(v, &seed_arr);
    Ok(GenerateKeypairResult {
        seed: slice_to_vec(kp.seed.as_slice()),
        verifying_key: slice_to_vec(kp.verifying_key.as_slice()),
    })
}

/// Signs `message` under `context` with the key of `seed`, which must have exactly 32
/// bytes. The context must be at most 255 bytes.
pub fn sign(v: Variant, seed: &[u8], message: &[u8], context: Option<Vec<u8>>) -> (r: Result<Vec<u8>, InputError>)
    requires
        owned_context_of(context).len() <= 255,
    ensures
        seed@.len() != 32 ==> r == Err::<Vec<u8>, InputError>(InputError::WrongLength(Field::Seed, 32)),
        seed@.len() == 32 ==> match signature_of(v, seed@, message@, owned_context_of(context)) {
            Some(s) => r matches Ok(sig) && sig@ == s && sig@.len() == v.sig_len(),
            None => r == Err::<Vec<u8>, InputError>(InputError::SigningFailed),
        },
{
    let seed_arr = match seed_array(seed) {
        Ok(a) => a,
        Err(e) => return Err(e),
    };
    let ctx = context_ref(&context);
    match mldsa_core::sign_once(v, &seed_arr, message, mldsa_core::context_slice(ctx)) {
        Some(sig) => Ok(sig),
        None => Err(InputError::SigningFailed),
    }
}

/// Verifies `signature` of `message` under `context` against `vk`; the key and the
/// signature must have the lengths of the parameter set (the key is checked first).
pub fn verify(v: Variant, vk: &[u8], message: &[u8], signature: &[u8], context: Option<Vec<u8>>) -> (r: Result<bool, InputError>)
    ensures
        vk@.len() != v.vk_len() ==> r == Err::<bool, InputError>(InputError::WrongLength(Field::VerifyingKey, v.vk_len() as usize)),
        vk@.len() == v.vk_len() && signature@.len() != v.sig_len()
            ==> r == Err::<bool, InputError>(InputError::WrongLength(Field::Signature, v.sig_len() as usize)),
        vk@.len() == v.vk_len() && signature@.len() == v.sig_len()
            ==> r == Ok::<bool, InputError>(accepts(v, vk@, message@, signature@, owned_context_of(context))),
        signed_under(v, vk@, message@, signature@, owned_context_of(context)) ==> r == Ok::<bool, InputError>(true),
{
    if vk.len() != v.verifying_key_size() {
        return Err(InputError::WrongLength(Field::VerifyingKey, v.verifying_key_size()));
    }
    if signature.len() != v.signature_size() {
        return Err(InputError::WrongLength(Field::Signature, v.signature_size()));
    }
    let ctx = context_ref(&context);
    Ok(mldsa_core::verify(v, vk, message, signature, ctx))
}

/// A signer that keeps its seed, and the verifying key derived from it, to itself. The
/// seed is zeroized on drop.
pub struct Signer {
    variant: Variant,
    seed: [u8; 32],
    verifying_key: Vec<u8>,
}

impl Signer {
    /// The parameter set of the signer.
    pub closed spec fn variant_of(&self) -> Variant {
        self.variant
    }

    /// The seed that the signer holds.
    pub closed spec fn seed_of(&self) -> Seq<u8> {
        self.seed@
    }

    /// The verifying key that the signer holds.
    pub closed spec fn stored_verifying_key(&self) -> Seq<u8> {
        self.verifying_key@
    }

    /// The stored key is the one that the seed derives (true of every signer that `new`
    /// made, until it is dropped).
    pub closed spec fn wf(&self) -> bool {
        &&& self.verifying_key@ == verifying_key_of(self.variant, self.seed@)
        &&& self.verifying_key@.len() == self.variant.vk_len()
    }

    /// Makes a signer from a seed, which must have exactly 32 bytes.
    pub fn new(v: Variant, seed: &[u8]) -> (r: Result<Signer, InputError>)
        ensures
            seed@.len() != 32 ==> r == Err::<Signer, InputError>(InputError::WrongLength(Field::Seed, 32)),
            seed@.len() == 32 ==> (r matches Ok(s) && s.wf() && s.variant_of() == v && s.seed_of() == seed@),
    {
        let seed_arr = match seed_array(seed) {
        Ok(a) => a,
        Err(e) => return Err(e),
    };
        let kp = mldsa_core::generate_keypair_from_seed(v, &seed_arr);
        Ok(Signer { variant: v, seed: seed_arr, verifying_key: slice_to_vec(kp.verifying_key.as_slice()) })
    }

    /// The verifying key of the signer.
    pub fn verifying_key(&self) -> (vk: Vec<u8>)
        requires
            self.wf(),
        ensures
            vk@ == self.stored_verifying_key(),
            vk@ == verifying_key_of(self.variant_of(), self.seed_of()),
            vk@.len() == self.variant_of().vk_len(),
    {
        slice_to_vec(self.verifying_key.as_slice())
    }

    /// Signs `message` under `context` with the signer's seed. The context must be at most
    /// 255 bytes and the signing routine must succeed (see `try_sign`).
    pub fn sign(&self, message: &[u8], context: Option<Vec<u8>>) -> (sig: Vec<u8>)
        requires
            owned_context_of(context).len() <= 255,
            signature_of(self.variant_of(), self.seed_of(), message@, owned_context_of(context)) is Some,
        ensures
            Some(sig@) == signature_of(self.variant_of(), self.seed_of(), message@, owned_context_of(context)),
            sig@.len() == self.variant_of().sig_len(),
    {
        let ctx = context_ref(&context);
        mldsa_core::sign(self.variant, &self.seed, message, ctx)
    }

    /// As `sign`, for any inputs: `None` where the context is longer than 255 bytes or the
    /// signing routine fails.
    pub fn try_sign(&self, message: &[u8], context: Option<Vec<u8>>) -> (sig: Option<Vec<u8>>)
        ensures
            sig is Some <==> signature_of(self.variant_of(), self.seed_of(), message@, owned_context_of(context)) is Some,
            sig matches Some(s) ==> Some(s@) == signature_of(self.variant_of(), self.seed_of(), message@, owned_context_of(context)),
            sig matches Some(s) ==> s@.len() == self.variant_of().sig_len(),
            owned_context_of(context).len() > 255 ==> sig is None,
    {
        let ctx = context_ref(&context);
        mldsa_core::sign_once(self.variant, &self.seed, message, mldsa_core::context_slice(ctx))
    }
}

impl Drop for Signer {
    fn drop(&mut self)
        ensures
            final(self).seed_of() == Seq::new(32, |i: int| 0u8),
            final(self).variant_of() == old(self).variant_of(),
            final(self).stored_verifying_key() == old(self).stored_verifying_key(),
        opens_invariants none
        no_unwind
    {
        zeroize_seed(&mut self.seed);
    }
}

/// The byte-level `sign` signs under exactly the context it was given, an absent context
/// being the empty one: for a 32-byte seed its result is the signature of the seed,
/// message and that context, or `SigningFailed` where there is none.
pub proof fn law_sign_uses_the_given_context(
    v: Variant,
    seed: &[u8],
    message: &[u8],
    context: Option<Vec<u8>>,
    r: Result<Vec<u8>, InputError>,
)
    requires
        seed@.len() == 32,
        match signature_of(v, seed@, message@, owned_context_of(context)) {
            Some(s) => r matches Ok(sig) && sig@ == s,
            None => r == Err::<Vec<u8>, InputError>(InputError::SigningFailed),
        },
    ensures
        ({
            let c = match context {
                Some(c) => c@,
                None => Seq::<u8>::empty(),
            };
            match signature_of(v, seed@, message@, c) {
                Some(s) => r matches Ok(sig) && sig@ == s,
                None => r == Err::<Vec<u8>, InputError>(InputError::SigningFailed),
            }
        }),
{
}

/// The byte-level `verify` verifies under exactly the context it was given, an absent
/// context being the empty one.
pub proof fn law_verify_uses_the_given_context(
    v: Variant,
    vk: &[u8],
    message: &[u8],
    signature: &[u8],
    context: Option<Vec<u8>>,
    r: Result<bool, InputError>,
)
    requires
        r == Ok::<bool, InputError>(accepts(v, vk@, message@, signature@, owned_context_of(context))),
    ensures
        ({
            let c = match context {
                Some(c) => c@,
                None => Seq::<u8>::empty(),
            };
            r == Ok::<bool, InputError>(accepts(v, vk@, message@, signature@, c))
        }),
{
}

} // verus!
