//! How the curve backend's errors map onto the library's kinds of failure.

use vstd::prelude::*;

use crate::error::CryptoError;

verus! {

/// An error of the curve backend.
#[derive(Debug, PartialEq)]
pub struct Secp256k1Error(pub secp256k1::Error);

impl View for Secp256k1Error {
    type V = secp256k1::Error;

    open spec fn view(&self) -> secp256k1::Error {
        self.0
    }
}

/// The kind of failure that a backend error stands for.
pub open spec fn crypto_error_of(e: secp256k1::Error) -> CryptoError {
    match e {
        secp256k1::Error::IncorrectSignature => CryptoError::InvalidSignature,
        secp256k1::Error::InvalidMessage => CryptoError::InvalidLength,
        secp256k1::Error::InvalidPublicKey => CryptoError::InvalidPublicKey,
        secp256k1::Error::InvalidSignature => CryptoError::InvalidSignature,
        secp256k1::Error::InvalidSecretKey => CryptoError::InvalidPrivateKey,
        secp256k1::Error::InvalidRecoveryId => CryptoError::InvalidSignature,
        secp256k1::Error::InvalidTweak => CryptoError::Other("bad tweak"),
        secp256k1::Error::TweakCheckFailed => CryptoError::Other("tweak check failed"),
        secp256k1::Error::NotEnoughMemory => CryptoError::Other("not enough memory"),
    }
}

impl From<Secp256k1Error> for CryptoError {
    fn from(err: Secp256k1Error) -> (r: CryptoError)
        ensures
            r == crypto_error_of(err.0),
    {
        match err.0 {
            secp256k1::Error::IncorrectSignature => CryptoError::InvalidSignature,
            secp256k1::Error::InvalidMessage => CryptoError::InvalidLength,
            secp256k1::Error::InvalidPublicKey => CryptoError::InvalidPublicKey,
            secp256k1::Error::InvalidSignature => CryptoError::InvalidSignature,
            secp256k1::Error::InvalidSecretKey => CryptoError::InvalidPrivateKey,
            secp256k1::Error::InvalidRecoveryId => CryptoError::InvalidSignature,
            secp256k1::Error::InvalidTweak => CryptoError::Other("bad tweak"),
            secp256k1::Error::TweakCheckFailed => CryptoError::Other(
                "tweak check failed",
            ),
            secp256k1::Error::NotEnoughMemory => CryptoError::Other("not enough memory"),
        }
    }
}

impl vstd::std_specs::convert::FromSpecImpl<Secp256k1Error> for CryptoError {
    open spec fn obeys_from_spec() -> bool {
        true
    }

    open spec fn from_spec(err: Secp256k1Error) -> CryptoError {
        crypto_error_of(err@)
    }
}

} // verus!
