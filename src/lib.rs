//! A byte-oriented contract for asymmetric signature schemes, and its
//! realisation over the secp256k1 curve.

mod backend_error;
mod contract;
mod engine;
mod error;
mod hash;
mod laws;
mod scheme;

pub use backend_error::{crypto_error_of, Secp256k1Error};
pub use contract::{Crypto, PrivateKey, PublicKey, Signature, Verifiable};
pub use engine::{
    be_value, curve_order, field_prime, field_square, is_compact_signature, is_field_square,
    is_public_key, is_secret_key, point_x, public_key_of, signature_of, signature_verifies,
};
pub use error::CryptoError;
pub use hash::{HashValue, HASH_LEN};
pub use laws::{
    lemma_private_key_round_trip, lemma_public_key_round_trip,
    lemma_signature_round_trip,
};
pub use scheme::{
    generate_keypair, HashedMessage, Secp256k1PrivateKey,
    Secp256k1PublicKey, Secp256k1Scheme, Secp256k1Signature, PUBLIC_KEY_LEN,
};
