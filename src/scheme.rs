//! The contract realised over the secp256k1 curve: 32-byte secret keys,
//! 33-byte compressed public keys and 64-byte compact ECDSA signatures.

use vstd::prelude::*;

use rand::{CryptoRng, Rng};

use crate::backend_error::Secp256k1Error;
use crate::contract::{Crypto, PrivateKey, PublicKey, Signature, Verifiable};
use crate::engine::{
    check_compact_signature, check_secret_key, derive_public_key, draw_keypair,
    is_compact_signature, is_public_key, is_secret_key, parse_public_key, public_key_of,
    sign_digest, signature_of, signature_verifies, verify_digest,
};
use crate::error::CryptoError;
use crate::hash::{copy_bytes, HashValue};

verus! {

/// Width in bytes of a compressed public key.
pub const PUBLIC_KEY_LEN: usize = 33;

/// A secp256k1 secret key.
pub struct Secp256k1PrivateKey {
    bytes: [u8; 32],
}

/// A secp256k1 public key, kept in compressed form.
pub struct Secp256k1PublicKey {
    bytes: [u8; 33],
}

/// A compact secp256k1 ECDSA signature.
pub struct Secp256k1Signature {
    bytes: [u8; 64],
}

/// A digest seen as the backend's 32-byte message.
pub struct HashedMessage<'a>(pub &'a HashValue);

/// The scheme that binds the three secp256k1 types together.
pub struct Secp256k1Scheme;

impl Secp256k1PrivateKey {
    #[verifier::type_invariant]
    spec fn inv(&self) -> bool {
        is_secret_key(self.bytes@)
    }

    /// Holds of every key: its encoding is a valid secret key.
    pub open spec fn wf(&self) -> bool {
        is_secret_key(self@)
    }
}

impl Secp256k1PublicKey {
    #[verifier::type_invariant]
    spec fn inv(&self) -> bool {
        is_public_key(self.bytes@)
    }

    /// Holds of every key: its encoding is a point that the backend accepts.
    pub open spec fn wf(&self) -> bool {
        is_public_key(self@)
    }
}

impl Secp256k1Signature {
    #[verifier::type_invariant]
    spec fn inv(&self) -> bool {
        is_compact_signature(self.bytes@)
    }

    /// Holds of every signature: its encoding is a valid compact signature.
    pub open spec fn wf(&self) -> bool {
        is_compact_signature(self@)
    }
}

impl View for Secp256k1PrivateKey {
    type V = Seq<u8>;

    closed spec fn view(&self) -> Seq<u8> {
        self.bytes@
    }
}

impl View for Secp256k1PublicKey {
    type V = Seq<u8>;

    closed spec fn view(&self) -> Seq<u8> {
        self.bytes@
    }
}

impl View for Secp256k1Signature {
    type V = Seq<u8>;

    closed spec fn view(&self) -> Seq<u8> {
        self.bytes@
    }
}

impl<'a> View for HashedMessage<'a> {
    type V = Seq<u8>;

    open spec fn view(&self) -> Seq<u8> {
        self.0@
    }
}

impl<'a> HashedMessage<'a> {
    /// The digest's bytes, copied unchanged.
    pub fn to_bytes(&self) -> (r: [u8; 32])
        ensures
            r@ == self@,
    {
        self.0.to_bytes()
    }
}

/// Draws a fresh key pair from a cryptographically secure source of
/// randomness; the public key is the one that belongs to the private key.
pub fn generate_keypair<R: CryptoRng + Rng + ?Sized>(rng: &mut R) -> (r: (
    Secp256k1PrivateKey,
    Secp256k1PublicKey,
))
    ensures
        r.0.wf(),
        r.1.wf(),
        r.1@ == public_key_of(r.0@),
{
    let (secret, public) = draw_keypair(rng);
    (Secp256k1PrivateKey { bytes: secret }, Secp256k1PublicKey { bytes: public })
}

impl PrivateKey<32> for Secp256k1PrivateKey {
    type PublicKey = Secp256k1PublicKey;
    type Signature = Secp256k1Signature;

    open spec fn is_encoding(bytes: Seq<u8>) -> bool {
        is_secret_key(bytes)
    }

    open spec fn parse_error(bytes: Seq<u8>) -> CryptoError {
        CryptoError::InvalidPrivateKey
    }

    open spec fn public_key_of(key: Seq<u8>) -> Seq<u8> {
        public_key_of(key)
    }

    open spec fn signature_of(key: Seq<u8>, msg: Seq<u8>) -> Seq<u8> {
        signature_of(key, msg)
    }

    fn parse(bytes: &[u8]) -> (r: Result<Secp256k1PrivateKey, CryptoError>)
        ensures
            r is Ok ==> r->Ok_0.wf(),
    {
        match check_secret_key(bytes) {
            Ok(()) => Ok(Secp256k1PrivateKey { bytes: copy_bytes(bytes) }),
            Err(e) => Err(CryptoError::from(Secp256k1Error(e))),
        }
    }

    fn sign_message(&self, msg: &HashValue) -> (r: Secp256k1Signature)
        ensures
            r.wf(),
    {
        proof {
            use_type_invariant(self);
        }
        let digest = HashedMessage(msg).to_bytes();
        Secp256k1Signature { bytes: sign_digest(&self.bytes, &digest) }
    }

    fn pub_key(&self) -> (r: Secp256k1PublicKey)
        ensures
            r.wf(),
    {
        proof {
            use_type_invariant(self);
        }
        Secp256k1PublicKey { bytes: derive_public_key(&self.bytes) }
    }

    fn to_bytes(&self) -> (r: [u8; 32]) {
        proof {
            use_type_invariant(self);
        }
        self.bytes
    }
}

impl PublicKey<33> for Secp256k1PublicKey {
    type Signature = Secp256k1Signature;

    open spec fn is_encoding(bytes: Seq<u8>) -> bool {
        is_public_key(bytes)
    }

    open spec fn parse_error(bytes: Seq<u8>) -> CryptoError {
        CryptoError::InvalidPublicKey
    }

    fn parse(bytes: &[u8]) -> (r: Result<Secp256k1PublicKey, CryptoError>)
        ensures
            r is Ok ==> r->Ok_0.wf(),
    {
        if bytes.len() != PUBLIC_KEY_LEN {
            return Err(CryptoError::InvalidPublicKey);
        }
        let encoded: [u8; 33] = copy_bytes(bytes);
        match parse_public_key(&encoded) {
            Ok(point) => Ok(Secp256k1PublicKey { bytes: point }),
            Err(e) => Err(CryptoError::from(Secp256k1Error(e))),
        }
    }

    fn verify_signature(&self, msg: &HashValue, sig: &Secp256k1Signature) -> (r: Result<
        (),
        CryptoError,
    >) {
        proof {
            use_type_invariant(self);
            use_type_invariant(sig);
        }
        let digest = HashedMessage(msg).to_bytes();
        match verify_digest(&digest, &sig.bytes, &self.bytes) {
            Ok(()) => Ok(()),
            Err(e) => Err(CryptoError::from(Secp256k1Error(e))),
        }
    }

    fn to_bytes(&self) -> (r: [u8; 33]) {
        proof {
            use_type_invariant(self);
        }
        self.bytes
    }
}

impl Verifiable for Secp256k1Signature {
    open spec fn checks_out(sig: Seq<u8>, msg: Seq<u8>, key: Seq<u8>) -> bool {
        signature_verifies(msg, sig, key)
    }
}

impl Signature<64> for Secp256k1Signature {
    type PublicKey = Secp256k1PublicKey;

    open spec fn is_encoding(bytes: Seq<u8>) -> bool {
        is_compact_signature(bytes)
    }

    open spec fn parse_error(bytes: Seq<u8>) -> CryptoError {
        CryptoError::InvalidSignature
    }

    fn parse(bytes: &[u8]) -> (r: Result<Secp256k1Signature, CryptoError>)
        ensures
            r is Ok ==> r->Ok_0.wf(),
    {
        match check_compact_signature(bytes) {
            Ok(()) => Ok(Secp256k1Signature { bytes: copy_bytes(bytes) }),
            Err(e) => Err(CryptoError::from(Secp256k1Error(e))),
        }
    }

    fn verify(&self, msg: &HashValue, pub_key: &Secp256k1PublicKey) -> (r: Result<
        (),
        CryptoError,
    >) {
        proof {
            use_type_invariant(self);
            use_type_invariant(pub_key);
        }
        let digest = HashedMessage(msg).to_bytes();
        match verify_digest(&digest, &self.bytes, &pub_key.bytes) {
            Ok(()) => Ok(()),
            Err(e) => Err(CryptoError::from(Secp256k1Error(e))),
        }
    }

    fn to_bytes(&self) -> (r: [u8; 64]) {
        proof {
            use_type_invariant(self);
        }
        self.bytes
    }
}

impl Crypto<32, 33, 64> for Secp256k1Scheme {
    type PrivateKey = Secp256k1PrivateKey;
    type PublicKey = Secp256k1PublicKey;
    type Signature = Secp256k1Signature;

}

impl<'a> TryFrom<&'a [u8]> for Secp256k1PrivateKey {
    type Error = CryptoError;

    fn try_from(bytes: &'a [u8]) -> (r: Result<Secp256k1PrivateKey, CryptoError>)
        ensures
            r is Ok <==> <Secp256k1PrivateKey as PrivateKey<32>>::is_encoding(bytes@),
            r is Ok ==> r->Ok_0@ == bytes@,
            r is Err ==> r->Err_0 == <Secp256k1PrivateKey as PrivateKey<32>>::parse_error(bytes@),
    {
        let r = Secp256k1PrivateKey::parse(bytes);
        proof {
            if r is Ok {
                let v = r->Ok_0;
                let w = choose|w: Secp256k1PrivateKey| w@ == bytes@;
                assert(w.bytes =~= v.bytes);
                assert(w == v);
            }
        }
        r
    }
}

impl<'a> vstd::std_specs::convert::TryFromSpecImpl<&'a [u8]> for Secp256k1PrivateKey {
    open spec fn obeys_try_from_spec() -> bool {
        true
    }

    /// The value whose encoding is `bytes`, or the error for an encoding that
    /// is not accepted.
    open spec fn try_from_spec(bytes: &'a [u8]) -> Result<Secp256k1PrivateKey, CryptoError> {
        if <Secp256k1PrivateKey as PrivateKey<32>>::is_encoding(bytes@) {
            Ok(choose|v: Secp256k1PrivateKey| v@ == bytes@)
        } else {
            Err(<Secp256k1PrivateKey as PrivateKey<32>>::parse_error(bytes@))
        }
    }
}

impl<'a> TryFrom<&'a [u8]> for Secp256k1PublicKey {
    type Error = CryptoError;

    fn try_from(bytes: &'a [u8]) -> (r: Result<Secp256k1PublicKey, CryptoError>)
        ensures
            r is Ok <==> <Secp256k1PublicKey as PublicKey<33>>::is_encoding(bytes@),
            r is Ok ==> r->Ok_0@ == bytes@,
            r is Err ==> r->Err_0 == <Secp256k1PublicKey as PublicKey<33>>::parse_error(bytes@),
    {
        let r = Secp256k1PublicKey::parse(bytes);
        proof {
            if r is Ok {
                let v = r->Ok_0;
                let w = choose|w: Secp256k1PublicKey| w@ == bytes@;
                assert(w.bytes =~= v.bytes);
                assert(w == v);
            }
        }
        r
    }
}

impl<'a> vstd::std_specs::convert::TryFromSpecImpl<&'a [u8]> for Secp256k1PublicKey {
    open spec fn obeys_try_from_spec() -> bool {
        true
    }

    /// The value whose encoding is `bytes`, or the error for an encoding that
    /// is not accepted.
    open spec fn try_from_spec(bytes: &'a [u8]) -> Result<Secp256k1PublicKey, CryptoError> {
        if <Secp256k1PublicKey as PublicKey<33>>::is_encoding(bytes@) {
            Ok(choose|v: Secp256k1PublicKey| v@ == bytes@)
        } else {
            Err(<Secp256k1PublicKey as PublicKey<33>>::parse_error(bytes@))
        }
    }
}

impl<'a> TryFrom<&'a [u8]> for Secp256k1Signature {
    type Error = CryptoError;

    fn try_from(bytes: &'a [u8]) -> (r: Result<Secp256k1Signature, CryptoError>)
        ensures
            r is Ok <==> <Secp256k1Signature as Signature<64>>::is_encoding(bytes@),
            r is Ok ==> r->Ok_0@ == bytes@,
            r is Err ==> r->Err_0 == <Secp256k1Signature as Signature<64>>::parse_error(bytes@),
    {
        let r = Secp256k1Signature::parse(bytes);
        proof {
            if r is Ok {
                let v = r->Ok_0;
                let w = choose|w: Secp256k1Signature| w@ == bytes@;
                assert(w.bytes =~= v.bytes);
                assert(w == v);
            }
        }
        r
    }
}

impl<'a> vstd::std_specs::convert::TryFromSpecImpl<&'a [u8]> for Secp256k1Signature {
    open spec fn obeys_try_from_spec() -> bool {
        true
    }

    /// The value whose encoding is `bytes`, or the error for an encoding that
    /// is not accepted.
    open spec fn try_from_spec(bytes: &'a [u8]) -> Result<Secp256k1Signature, CryptoError> {
        if <Secp256k1Signature as Signature<64>>::is_encoding(bytes@) {
            Ok(choose|v: Secp256k1Signature| v@ == bytes@)
        } else {
            Err(<Secp256k1Signature as Signature<64>>::parse_error(bytes@))
        }
    }
}

} // verus!
