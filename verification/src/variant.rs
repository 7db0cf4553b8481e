//! The three ML-DSA parameter sets of FIPS 204 and the sizes of their encodings.

use vstd::prelude::*;

verus! {

/// Length in bytes of an ML-DSA seed; the same for every parameter set.
pub const SEED_SIZE: usize = 32;

/// An ML-DSA parameter set.
#[derive(Clone, Copy, Debug, PartialEq, Eq, Structural)]
pub enum Variant {
    /// ML-DSA-44, NIST security category 2.
    MlDsa44,
    /// ML-DSA-65, NIST security category 3.
    MlDsa65,
    /// ML-DSA-87, NIST security category 5.
    MlDsa87,
}

impl Variant {
    /// Length in bytes of an expanded signing key.
    pub open spec fn sk_len(self) -> nat {
        match self {
            Variant::MlDsa44 => 2560,
            Variant::MlDsa65 => 4032,
            Variant::MlDsa87 => 4896,
        }
    }

    /// Length in bytes of an encoded verifying key.
    pub open spec fn vk_len(self) -> nat {
        match self {
            Variant::MlDsa44 => 1312,
            Variant::MlDsa65 => 1952,
            Variant::MlDsa87 => 2592,
        }
    }

    /// Length in bytes of an encoded signature.
    pub open spec fn sig_len(self) -> nat {
        match self {
            Variant::MlDsa44 => 2420,
            Variant::MlDsa65 => 3309,
            Variant::MlDsa87 => 4627,
        }
    }

    pub fn signing_key_size(&self) -> (n: usize)
        ensures
            n == self.sk_len(),
    {
        match self {
            Variant::MlDsa44 => 2560,
            Variant::MlDsa65 => 4032,
            Variant::MlDsa87 => 4896,
        }
    }

    pub fn verifying_key_size(&self) -> (n: usize)
        ensures
            n == self.vk_len(),
    {
        match self {
            Variant::MlDsa44 => 1312,
            Variant::MlDsa65 => 1952,
            Variant::MlDsa87 => 2592,
        }
    }

    pub fn signature_size(&self) -> (n: usize)
        ensures
            n == self.sig_len(),
    {
        match self {
            Variant::MlDsa44 => 2420,
            Variant::MlDsa65 => 3309,
            Variant::MlDsa87 => 4627,
        }
    }
}

} // verus!
