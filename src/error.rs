use vstd::prelude::*;

verus! {

/// Failures of the adaptor protocol.
#[derive(Debug, Clone, Copy, PartialEq, Eq, Structural)]
pub enum SchnorrError {
    /// The pre-signature does not satisfy the adaptor relation.
    IncorrectAdaptorSig,
    /// A derived scalar (nonce, extracted secret) is zero.
    NonZeroScalar,
    /// Bytes that do not encode a scalar below the group order, or an
    /// x-coordinate with no even-y curve point.
    InvalidEncoding,
}

impl SchnorrError {
    /// A human-readable description of the error.
    pub fn message(&self) -> (r: &'static str)
        ensures
            *self == SchnorrError::IncorrectAdaptorSig ==> r@ == "Target is not a correct adaptor signature"@,
            *self == SchnorrError::NonZeroScalar ==> r@ == "Secret value must be non zero"@,
            *self == SchnorrError::InvalidEncoding ==> r@ == "Bytes do not encode a valid scalar or point"@,
    {
        match self {
            SchnorrError::IncorrectAdaptorSig => "Target is not a correct adaptor signature",
            SchnorrError::NonZeroScalar => "Secret value must be non zero",
            SchnorrError::InvalidEncoding => "Bytes do not encode a valid scalar or point",
        }
    }
}

} // verus!
