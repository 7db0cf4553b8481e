//! Errors of the byte- and text-level entry points.

use vstd::prelude::*;

verus! {

/// The input that an error is about.
#[derive(Clone, Copy, Debug, PartialEq, Eq, Structural)]
pub enum Field {
    Seed,
    VerifyingKey,
    Signature,
}

impl Field {
    /// The name under which the field is known to callers of the bindings.
    pub fn name(&self) -> (s: &'static str)
        ensures
            *self == Field::Seed ==> s@ == "seed"@,
            *self == Field::VerifyingKey ==> s@ == "verifyingKey"@,
            *self == Field::Signature ==> s@ == "signature"@,
    {
        match self {
            Field::Seed => "seed",
            Field::VerifyingKey => "verifyingKey",
            Field::Signature => "signature",
        }
    }
}

/// Why an entry point that takes raw bytes or text refused its input.
#[derive(Clone, Copy, Debug, PartialEq, Eq, Structural)]
pub enum InputError {
    /// The text is not unpadded URL-safe base64.
    InvalidBase64(Field),
    /// The bytes do not have the length that the parameter set fixes; the second
    /// component is that length.
    WrongLength(Field, usize),
    /// The ML-DSA signing routine gave up (its rejection-sampling loop ran out of nonces).
    SigningFailed,
}

} // verus!
