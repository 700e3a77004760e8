//! The curve backend: what the library takes from the `secp256k1` crate.
//!
//! Keys and signatures cross this boundary as their fixed-width byte
//! encodings. Each call runs on the backend's process-wide context, which the
//! backend builds once, on first use, and shares between threads.

use vstd::prelude::*;

use rand::Rng;
use secp256k1::{Message, PublicKey, SecretKey, Signature, SECP256K1};

verus! {

#[verifier::external_type_specification]
pub struct ExSecp256k1Error(secp256k1::Error);

/// The value of a byte string read as an unsigned big-endian integer.
pub open spec fn be_value(b: Seq<u8>) -> nat
    decreases b.len(),
{
    if b.len() == 0 {
        0
    } else {
        be_value(b.drop_last()) * 256 + b.last() as nat
    }
}

/// The order n of the secp256k1 group,
/// 0xFFFFFFFF_FFFFFFFF_FFFFFFFF_FFFFFFFE_BAAEDCE6_AF48A03B_BFD25E8C_D0364141.
pub open spec fn curve_order() -> nat {
    (0xFFFFFFFF_FFFFFFFF_FFFFFFFF_FFFFFFFEnat * 0x1_0000_0000_0000_0000nat * 0x1_0000_0000_0000_0000nat
        + 0xBAAEDCE6_AF48A03B_BFD25E8C_D0364141nat) as nat
}

/// A secret key: 32 bytes whose big-endian value lies in [1, n - 1].
pub open spec fn is_secret_key(b: Seq<u8>) -> bool {
    &&& b.len() == 32
    &&& 0 < be_value(b)
    &&& be_value(b) < curve_order()
}

/// A compact signature: 64 bytes, a big-endian R then a big-endian S, each
/// in [0, n - 1].
pub open spec fn is_compact_signature(b: Seq<u8>) -> bool {
    &&& b.len() == 64
    &&& be_value(b.subrange(0, 32)) < curve_order()
    &&& be_value(b.subrange(32, 64)) < curve_order()
}

/// The prime p of the field over which the curve is defined,
/// 0xFFFFFFFF_FFFFFFFF_FFFFFFFF_FFFFFFFF_FFFFFFFF_FFFFFFFF_FFFFFFFE_FFFFFC2F.
pub open spec fn field_prime() -> nat {
    (0xFFFFFFFF_FFFFFFFF_FFFFFFFF_FFFFFFFFnat * 0x1_0000_0000_0000_0000nat * 0x1_0000_0000_0000_0000nat
        + 0xFFFFFFFF_FFFFFFFF_FFFFFFFE_FFFFFC2Fnat) as nat
}

/// The square of `y` in the field.
pub open spec fn field_square(y: nat) -> nat {
    (y * y) % field_prime()
}

/// Whether `a` has a square root in the field.
pub open spec fn is_field_square(a: nat) -> bool {
    exists|y: nat| y < field_prime() && #[trigger] field_square(y) == a % field_prime()
}

/// The x coordinate that a compressed point encodes.
pub open spec fn point_x(b: Seq<u8>) -> nat {
    be_value(b.subrange(1, 33))
}

/// A compressed curve point: a tag 0x02 (even y) or 0x03 (odd y), then a
/// 32-byte big-endian x below p for which x^3 + 7 is a square, so that the
/// curve y^2 = x^3 + 7 has a point with that x.
pub open spec fn is_public_key(b: Seq<u8>) -> bool {
    &&& b.len() == 33
    &&& (b[0] == 2u8 || b[0] == 3u8)
    &&& point_x(b) < field_prime()
    &&& is_field_square(point_x(b) * point_x(b) * point_x(b) + 7)
}

/// The compressed encoding of the point that a secret key multiplies the
/// generator into.
pub uninterp spec fn public_key_of(sk: Seq<u8>) -> Seq<u8>;

/// The compact ECDSA signature, with its RFC 6979 nonce, of a digest under a
/// secret key.
pub uninterp spec fn signature_of(sk: Seq<u8>, msg: Seq<u8>) -> Seq<u8>;

/// Whether a compact signature over a digest checks out under an encoded
/// public key.
pub uninterp spec fn signature_verifies(msg: Seq<u8>, sig: Seq<u8>, pk: Seq<u8>) -> bool;

/// Relies on `secp256k1::SecretKey::from_slice`: it accepts exactly the
/// 32-byte strings whose big-endian value is neither 0 nor at least the curve
/// order, and answers every other input with `Error::InvalidSecretKey`.
#[verifier::external_body]
pub(crate) fn check_secret_key(bytes: &[u8]) -> (r: Result<(), secp256k1::Error>)
    ensures
        r is Ok <==> is_secret_key(bytes@),
        r is Err ==> r->Err_0 == secp256k1::Error::InvalidSecretKey,
{
    match SecretKey::from_slice(bytes) {
        Ok(_) => Ok(()),
        Err(e) => Err(e),
    }
}

/// Relies on `secp256k1::PublicKey::from_slice` and `PublicKey::serialize`:
/// 33 bytes parse exactly when they are a compressed point (the curve has
/// cofactor 1, so every point is in the group), and such a point serialises
/// back to the same bytes; a rejected input gives `Error::InvalidPublicKey`.
#[verifier::external_body]
pub(crate) fn parse_public_key(bytes: &[u8; 33]) -> (r: Result<[u8; 33], secp256k1::Error>)
    ensures
        r is Ok <==> is_public_key(bytes@),
        r is Ok ==> r->Ok_0@ == bytes@,
        r is Err ==> r->Err_0 == secp256k1::Error::InvalidPublicKey,
{
    match PublicKey::from_slice(bytes) {
        Ok(k) => Ok(k.serialize()),
        Err(e) => Err(e),
    }
}

/// Relies on `secp256k1::PublicKey::from_secret_key`: the point of a valid
/// secret key, serialised in compressed form.
/// `SecretKey::from_slice` only converts: the key is valid, so it cannot fail.
#[verifier::external_body]
pub(crate) fn derive_public_key(sk: &[u8; 32]) -> (r: [u8; 33])
    requires
        is_secret_key(sk@),
    ensures
        r@ == public_key_of(sk@),
        is_public_key(r@),
{
    let key = SecretKey::from_slice(sk).expect("a valid secret key");
    PublicKey::from_secret_key(&SECP256K1, &key).serialize()
}

/// Relies on `secp256k1::Secp256k1::sign`: a deterministic (RFC 6979)
/// signature, serialised in compact form with both halves reduced, that
/// verifies under the signer's public key. `SecretKey::from_slice` and
/// `Message::from_slice` only convert: a valid key and 32 bytes cannot fail.
#[verifier::external_body]
pub(crate) fn sign_digest(sk: &[u8; 32], msg: &[u8; 32]) -> (r: [u8; 64])
    requires
        is_secret_key(sk@),
    ensures
        r@ == signature_of(sk@, msg@),
        is_compact_signature(r@),
        signature_verifies(msg@, r@, public_key_of(sk@)),
{
    let key = SecretKey::from_slice(sk).expect("a valid secret key");
    let msg = Message::from_slice(msg).expect("a 32-byte digest");
    SECP256K1.sign(&msg, &key).serialize_compact()
}

/// Relies on `secp256k1::Signature::from_compact`: it accepts exactly the
/// 64-byte strings made of two big-endian values below the curve order, and
/// answers every other input with `Error::InvalidSignature`.
#[verifier::external_body]
pub(crate) fn check_compact_signature(bytes: &[u8]) -> (r: Result<(), secp256k1::Error>)
    ensures
        r is Ok <==> is_compact_signature(bytes@),
        r is Err ==> r->Err_0 == secp256k1::Error::InvalidSignature,
{
    match Signature::from_compact(bytes) {
        Ok(_) => Ok(()),
        Err(e) => Err(e),
    }
}

/// Relies on `secp256k1::Secp256k1::verify`: `Ok` exactly when the signature
/// checks out, `Error::IncorrectSignature` otherwise. `Message::from_slice`,
/// `Signature::from_compact` and `PublicKey::from_slice` only convert: their
/// inputs are of the forms they accept, so they cannot fail.
#[verifier::external_body]
pub(crate) fn verify_digest(msg: &[u8; 32], sig: &[u8; 64], pk: &[u8; 33]) -> (r: Result<
    (),
    secp256k1::Error,
>)
    requires
        is_compact_signature(sig@),
        is_public_key(pk@),
    ensures
        r is Ok <==> signature_verifies(msg@, sig@, pk@),
        r is Err ==> r->Err_0 == secp256k1::Error::IncorrectSignature,
{
    let msg = Message::from_slice(msg).expect("a 32-byte digest");
    let sig = Signature::from_compact(sig).expect("a compact signature");
    let key = PublicKey::from_slice(pk).expect("a valid public key");
    SECP256K1.verify(&msg, &sig, &key)
}

/// Relies on `secp256k1::Secp256k1::generate_keypair`: it draws secret keys
/// from `rng` until one is valid, and pairs it with its public key, which
/// `PublicKey::serialize` gives in compressed form.
#[verifier::external_body]
pub(crate) fn draw_keypair<R: Rng + ?Sized>(rng: &mut R) -> (r: ([u8; 32], [u8; 33]))
    ensures
        is_secret_key(r.0@),
        r.1@ == public_key_of(r.0@),
        is_public_key(r.1@),
{
    let (sk, pk) = SECP256K1.generate_keypair(rng);
    let mut out = [0u8; 32];
    out.copy_from_slice(&sk[..]);
    (out, pk.serialize())
}

} // verus!
