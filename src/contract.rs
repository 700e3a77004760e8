//! The shape that every signature scheme of this library has: three
//! fixed-width encodings, and the operations between them.

use vstd::prelude::*;

use crate::error::CryptoError;
use crate::hash::{HashValue, HASH_LEN};

verus! {

/// A signature encoding whose check against a digest and a public key
/// encoding is fixed by the scheme.
pub trait Verifiable: View<V = Seq<u8>> {
    /// Whether an encoded signature over a digest checks out under an encoded
    /// public key.
    spec fn checks_out(sig: Seq<u8>, msg: Seq<u8>, key: Seq<u8>) -> bool;
}

/// A secret key whose encoding is `LEN` bytes wide.
pub trait PrivateKey<const LEN: usize>: Sized + View<V = Seq<u8>> {
    type PublicKey: View<V = Seq<u8>>;
    type Signature: Verifiable;

    /// The encodings that `parse` accepts.
    spec fn is_encoding(bytes: Seq<u8>) -> bool;

    /// The error with which `parse` rejects an encoding.
    spec fn parse_error(bytes: Seq<u8>) -> CryptoError;

    /// The encoded public key of the key with this encoding.
    spec fn public_key_of(key: Seq<u8>) -> Seq<u8>;

    /// The encoded signature of a digest under the key with this encoding.
    spec fn signature_of(key: Seq<u8>, msg: Seq<u8>) -> Seq<u8>;

    /// Reads a key from its encoding.
    fn parse(bytes: &[u8]) -> (r: Result<Self, CryptoError>)
        ensures
            r is Ok <==> Self::is_encoding(bytes@),
            r is Ok ==> r->Ok_0@ == bytes@,
            r is Err ==> r->Err_0 == Self::parse_error(bytes@),
            bytes@.len() != LEN ==> r is Err,
    ;

    /// Signs a digest; the signature checks out under this key's public key.
    fn sign_message(&self, msg: &HashValue) -> (r: Self::Signature)
        ensures
            r@ == Self::signature_of(self@, msg@),
            <Self::Signature as Verifiable>::checks_out(r@, msg@, Self::public_key_of(self@)),
    ;

    /// The public key that belongs to this key.
    fn pub_key(&self) -> (r: Self::PublicKey)
        ensures
            r@ == Self::public_key_of(self@),
    ;

    /// The key's encoding, which `parse` accepts.
    fn to_bytes(&self) -> (r: [u8; LEN])
        ensures
            r@ == self@,
            Self::is_encoding(r@),
    ;
}

/// A public key whose encoding is `LEN` bytes wide.
pub trait PublicKey<const LEN: usize>: Sized + View<V = Seq<u8>> {
    type Signature: Verifiable;

    /// The encodings that `parse` accepts.
    spec fn is_encoding(bytes: Seq<u8>) -> bool;

    /// The error with which `parse` rejects an encoding.
    spec fn parse_error(bytes: Seq<u8>) -> CryptoError;

    /// Reads a key from its encoding.
    fn parse(bytes: &[u8]) -> (r: Result<Self, CryptoError>)
        ensures
            r is Ok <==> Self::is_encoding(bytes@),
            r is Ok ==> r->Ok_0@ == bytes@,
            r is Err ==> r->Err_0 == Self::parse_error(bytes@),
            bytes@.len() != LEN ==> r is Err,
    ;

    /// Checks a signature over a digest against this key.
    fn verify_signature(&self, msg: &HashValue, sig: &Self::Signature) -> (r: Result<
        (),
        CryptoError,
    >)
        ensures
            r is Ok <==> <Self::Signature as Verifiable>::checks_out(sig@, msg@, self@),
            r is Err ==> r->Err_0 == CryptoError::InvalidSignature,
    ;

    /// The key's encoding, which `parse` accepts.
    fn to_bytes(&self) -> (r: [u8; LEN])
        ensures
            r@ == self@,
            Self::is_encoding(r@),
    ;
}

/// A signature whose encoding is `LEN` bytes wide.
pub trait Signature<const LEN: usize>: Sized + Verifiable {
    type PublicKey: View<V = Seq<u8>>;

    /// The encodings that `parse` accepts.
    spec fn is_encoding(bytes: Seq<u8>) -> bool;

    /// The error with which `parse` rejects an encoding.
    spec fn parse_error(bytes: Seq<u8>) -> CryptoError;

    /// Reads a signature from its encoding.
    fn parse(bytes: &[u8]) -> (r: Result<Self, CryptoError>)
        ensures
            r is Ok <==> Self::is_encoding(bytes@),
            r is Ok ==> r->Ok_0@ == bytes@,
            r is Err ==> r->Err_0 == Self::parse_error(bytes@),
            bytes@.len() != LEN ==> r is Err,
    ;

    /// Checks this signature over a digest against a public key.
    fn verify(&self, msg: &HashValue, pub_key: &Self::PublicKey) -> (r: Result<(), CryptoError>)
        ensures
            r is Ok <==> Self::checks_out(self@, msg@, pub_key@),
            r is Err ==> r->Err_0 == CryptoError::InvalidSignature,
    ;

    /// The signature's encoding, which `parse` accepts.
    fn to_bytes(&self) -> (r: [u8; LEN])
        ensures
            r@ == self@,
            Self::is_encoding(r@),
    ;
}

/// Binds one scheme's private key, public key and signature together, and
/// offers its operations on raw encodings. Each operation reads its inputs in
/// turn and stops at the first that does not parse, with that input's error.
pub trait Crypto<const SK: usize, const PK: usize, const SIG: usize> {
    type PrivateKey: PrivateKey<SK, PublicKey = Self::PublicKey, Signature = Self::Signature>;
    type PublicKey: PublicKey<PK, Signature = Self::Signature>;
    type Signature: Signature<SIG, PublicKey = Self::PublicKey>;


    /// The public key of an encoded private key.
    fn pub_key(priv_key: &[u8]) -> (r: Result<Self::PublicKey, CryptoError>)
        ensures
            r is Ok <==> <Self::PrivateKey as PrivateKey<SK>>::is_encoding(priv_key@),
            r is Ok ==> r->Ok_0@ == <Self::PrivateKey as PrivateKey<SK>>::public_key_of(
                priv_key@,
            ),
            r is Err ==> r->Err_0 == <Self::PrivateKey as PrivateKey<SK>>::parse_error(
                priv_key@,
            ),
    {
        match Self::PrivateKey::parse(priv_key) {
            Ok(key) => Ok(key.pub_key()),
            Err(e) => Err(e),
        }
    }

    /// Signs a raw 32-byte digest with an encoded private key.
    fn sign_message(msg: &[u8], priv_key: &[u8]) -> (r: Result<Self::Signature, CryptoError>)
        ensures
            r is Ok <==> <Self::PrivateKey as PrivateKey<SK>>::is_encoding(priv_key@)
                && msg@.len() == HASH_LEN,
            r is Ok ==> r->Ok_0@ == <Self::PrivateKey as PrivateKey<SK>>::signature_of(
                priv_key@,
                msg@,
            ),
            !<Self::PrivateKey as PrivateKey<SK>>::is_encoding(priv_key@) ==> r is Err
                && r->Err_0 == <Self::PrivateKey as PrivateKey<SK>>::parse_error(priv_key@),
            <Self::PrivateKey as PrivateKey<SK>>::is_encoding(priv_key@) && msg@.len()
                != HASH_LEN ==> r is Err && r->Err_0 == CryptoError::InvalidLength,
            r is Ok ==> <Self::Signature as Verifiable>::checks_out(
                r->Ok_0@,
                msg@,
                <Self::PrivateKey as PrivateKey<SK>>::public_key_of(priv_key@),
            ),
    {
        let key = match Self::PrivateKey::parse(priv_key) {
            Ok(key) => key,
            Err(e) => return Err(e),
        };
        let msg = match HashValue::try_from(msg) {
            Ok(msg) => msg,
            Err(e) => return Err(e),
        };
        Ok(key.sign_message(&msg))
    }

    /// Checks a raw signature over a raw 32-byte digest against a raw public
    /// key.
    fn verify_signature(msg: &[u8], sig: &[u8], pub_key: &[u8]) -> (r: Result<(), CryptoError>)
        ensures
            msg@.len() != HASH_LEN ==> r is Err && r->Err_0 == CryptoError::InvalidLength,
            msg@.len() == HASH_LEN && !<Self::Signature as Signature<SIG>>::is_encoding(sig@)
                ==> r is Err && r->Err_0 == <Self::Signature as Signature<SIG>>::parse_error(
                sig@,
            ),
            msg@.len() == HASH_LEN && <Self::Signature as Signature<SIG>>::is_encoding(sig@)
                && !<Self::PublicKey as PublicKey<PK>>::is_encoding(pub_key@) ==> r is Err
                && r->Err_0 == <Self::PublicKey as PublicKey<PK>>::parse_error(pub_key@),
            r is Ok <==> msg@.len() == HASH_LEN && <Self::Signature as Signature<
                SIG,
            >>::is_encoding(sig@) && <Self::PublicKey as PublicKey<PK>>::is_encoding(pub_key@)
                && <Self::Signature as Verifiable>::checks_out(sig@, msg@, pub_key@),
            msg@.len() == HASH_LEN && <Self::Signature as Signature<SIG>>::is_encoding(sig@)
                && <Self::PublicKey as PublicKey<PK>>::is_encoding(pub_key@) && r is Err
                ==> r->Err_0 == CryptoError::InvalidSignature,
    {
        let msg = match HashValue::try_from(msg) {
            Ok(msg) => msg,
            Err(e) => return Err(e),
        };
        let sig = match Self::Signature::parse(sig) {
            Ok(sig) => sig,
            Err(e) => return Err(e),
        };
        let pub_key = match Self::PublicKey::parse(pub_key) {
            Ok(pub_key) => pub_key,
            Err(e) => return Err(e),
        };
        sig.verify(&msg, &pub_key)
    }
}

} // verus!
