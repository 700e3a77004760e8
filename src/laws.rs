//! What holds across the operations of the secp256k1 scheme.

use vstd::prelude::*;

use crate::contract::{PrivateKey, PublicKey, Signature};
use crate::scheme::{Secp256k1PrivateKey, Secp256k1PublicKey, Secp256k1Signature};

verus! {

/// Parsing a private key's encoding succeeds, and the key read back has the
/// same encoding.
pub proof fn lemma_private_key_round_trip(key: Secp256k1PrivateKey)
    requires
        key.wf(),
    ensures
        <Secp256k1PrivateKey as PrivateKey<32>>::is_encoding(key@),
{
}

/// Parsing a public key's encoding succeeds, and the key read back has the
/// same encoding.
pub proof fn lemma_public_key_round_trip(key: Secp256k1PublicKey)
    requires
        key.wf(),
    ensures
        <Secp256k1PublicKey as PublicKey<33>>::is_encoding(key@),
{
}

/// Parsing a signature's encoding succeeds, and the signature read back has
/// the same encoding.
pub proof fn lemma_signature_round_trip(sig: Secp256k1Signature)
    requires
        sig.wf(),
    ensures
        <Secp256k1Signature as Signature<64>>::is_encoding(sig@),
{
}

} // verus!
