use cc_secp256k1::{
    generate_keypair, CryptoError, HashValue, PrivateKey, PublicKey, Secp256k1PrivateKey,
    Secp256k1PublicKey, Secp256k1Signature, Signature,
};

use rand::rngs::{OsRng, StdRng};
use rand::SeedableRng;
use sha2::{Digest, Sha256};

fn digest_of(text: &[u8]) -> HashValue {
    let mut hasher = Sha256::new();
    hasher.input(text);
    HashValue::try_from(&hasher.result()[..32]).expect("msg")
}

fn hex(text: &str) -> Vec<u8> {
    (0..text.len())
        .step_by(2)
        .map(|i| u8::from_str_radix(&text[i..i + 2], 16).unwrap())
        .collect()
}

#[test]
fn should_generate_workable_keypair_from_crypto_rng() {
    let mut rng = OsRng::new().expect("OsRng");
    let (priv_key, pub_key) = generate_keypair(&mut rng);

    let msg = digest_of(b"you can(not) redo");

    let sig = priv_key.sign_message(&msg);
    assert!(sig.verify(&msg, &pub_key).is_ok());
}

#[test]
fn seeded_keypair_signs_and_rejects_other_key() {
    let mut rng = StdRng::seed_from_u64(7);
    let (priv_key, pub_key) = generate_keypair(&mut rng);
    let msg = digest_of(b"you can(not) redo");
    let sig = priv_key.sign_message(&msg);
    assert_eq!(pub_key.verify_signature(&msg, &sig), Ok(()));
    assert_eq!(sig.verify(&msg, &pub_key), Ok(()));

    let (_, other_pub) = generate_keypair(&mut rng);
    assert_eq!(
        other_pub.verify_signature(&msg, &sig),
        Err(CryptoError::InvalidSignature)
    );
    assert_eq!(sig.verify(&msg, &other_pub), Err(CryptoError::InvalidSignature));
}

#[test]
fn same_seed_gives_same_keypair() {
    let (a, pa) = generate_keypair(&mut StdRng::seed_from_u64(11));
    let (b, pb) = generate_keypair(&mut StdRng::seed_from_u64(11));
    assert_eq!(a.to_bytes(), b.to_bytes());
    assert_eq!(pa.to_bytes(), pb.to_bytes());
}

#[test]
fn generated_public_key_matches_derived() {
    let mut rng = StdRng::seed_from_u64(3);
    let (priv_key, pub_key) = generate_keypair(&mut rng);
    assert_eq!(priv_key.pub_key().to_bytes()[..], pub_key.to_bytes()[..]);
}

#[test]
fn key_one_derives_generator_point() {
    let mut one = [0u8; 32];
    one[31] = 1;
    let key = Secp256k1PrivateKey::parse(&one).unwrap();
    let expected = hex("0279be667ef9dcbbac55a06295ce870b07029bfcdb2dce28d959f2815b16f81798");
    assert_eq!(key.pub_key().to_bytes()[..], expected[..]);
}

#[test]
fn key_one_signs_known_vector() {
    let mut one = [0u8; 32];
    one[31] = 1;
    let key = Secp256k1PrivateKey::parse(&one).unwrap();
    let msg = digest_of(b"Satoshi Nakamoto");
    let mut expected = hex("934b1ea10a4b3c1757e2b0c017d0b6143ce3c9a7e6a4a49860d7a6ab210ee3d8");
    expected.extend(hex("2442ce9d2b916064108014783e923ec36b49743e2ffa1c4496f01a512aafd9e5"));
    assert_eq!(key.sign_message(&msg).to_bytes()[..], expected[..]);
}

#[test]
fn signing_is_deterministic() {
    let key = Secp256k1PrivateKey::parse(&[0x42u8; 32]).unwrap();
    let msg = digest_of(b"abc");
    assert_eq!(
        key.sign_message(&msg).to_bytes()[..],
        key.sign_message(&msg).to_bytes()[..]
    );
}

#[test]
fn signature_does_not_cover_other_digest() {
    let key = Secp256k1PrivateKey::parse(&[0x42u8; 32]).unwrap();
    let sig = key.sign_message(&digest_of(b"abc"));
    assert_eq!(
        key.pub_key().verify_signature(&digest_of(b"abd"), &sig),
        Err(CryptoError::InvalidSignature)
    );
}

#[test]
fn private_key_round_trips() {
    let bytes = [0x17u8; 32];
    let key = Secp256k1PrivateKey::parse(&bytes).unwrap();
    assert_eq!(key.to_bytes(), bytes);
    let again = Secp256k1PrivateKey::parse(&key.to_bytes()).unwrap();
    assert_eq!(again.to_bytes(), key.to_bytes());
}

#[test]
fn public_key_round_trips() {
    let key = Secp256k1PrivateKey::parse(&[0x17u8; 32]).unwrap().pub_key();
    let again = Secp256k1PublicKey::parse(&key.to_bytes()).unwrap();
    assert_eq!(again.to_bytes()[..], key.to_bytes()[..]);
}

#[test]
fn signature_round_trips() {
    let key = Secp256k1PrivateKey::parse(&[0x17u8; 32]).unwrap();
    let sig = key.sign_message(&digest_of(b"round trip"));
    let again = Secp256k1Signature::parse(&sig.to_bytes()).unwrap();
    assert_eq!(again.to_bytes()[..], sig.to_bytes()[..]);
}

#[test]
fn flipped_signature_bit_never_verifies() {
    let key = Secp256k1PrivateKey::parse(&[0x29u8; 32]).unwrap();
    let pub_key = key.pub_key();
    let msg = digest_of(b"tamper");
    let bytes = key.sign_message(&msg).to_bytes();
    for i in 0..64 {
        for bit in 0..8 {
            let mut tampered = bytes;
            tampered[i] ^= 1 << bit;
            match Secp256k1Signature::parse(&tampered) {
                Ok(sig) => assert_eq!(
                    pub_key.verify_signature(&msg, &sig),
                    Err(CryptoError::InvalidSignature)
                ),
                Err(e) => assert_eq!(e, CryptoError::InvalidSignature),
            }
        }
    }
}

#[test]
fn private_key_rejects_wrong_lengths() {
    for len in [0usize, 1, 31, 33, 64] {
        let bytes = vec![0x01u8; len];
        assert_eq!(
            Secp256k1PrivateKey::parse(&bytes).err(),
            Some(CryptoError::InvalidPrivateKey)
        );
    }
}

#[test]
fn private_key_rejects_zero_and_order() {
    assert_eq!(
        Secp256k1PrivateKey::parse(&[0u8; 32]).err(),
        Some(CryptoError::InvalidPrivateKey)
    );
    let order = hex("fffffffffffffffffffffffffffffffebaaedce6af48a03bbfd25e8cd0364141");
    assert_eq!(
        Secp256k1PrivateKey::parse(&order).err(),
        Some(CryptoError::InvalidPrivateKey)
    );
    let below = hex("fffffffffffffffffffffffffffffffebaaedce6af48a03bbfd25e8cd0364140");
    assert!(Secp256k1PrivateKey::parse(&below).is_ok());
}

#[test]
fn public_key_rejects_wrong_lengths() {
    let key = Secp256k1PrivateKey::parse(&[0x17u8; 32]).unwrap().pub_key();
    let bytes = key.to_bytes();
    for len in [0usize, 1, 32, 34, 65] {
        let mut wrong = bytes.to_vec();
        wrong.resize(len, 0x04);
        assert_eq!(
            Secp256k1PublicKey::parse(&wrong).err(),
            Some(CryptoError::InvalidPublicKey)
        );
    }
}

#[test]
fn public_key_rejects_point_off_curve() {
    let mut bytes = [0u8; 33];
    bytes[0] = 0x05;
    assert_eq!(
        Secp256k1PublicKey::parse(&bytes).err(),
        Some(CryptoError::InvalidPublicKey)
    );
}

#[test]
fn signature_rejects_wrong_lengths() {
    for len in [0usize, 1, 63, 65, 72] {
        let bytes = vec![0x01u8; len];
        assert_eq!(
            Secp256k1Signature::parse(&bytes).err(),
            Some(CryptoError::InvalidSignature)
        );
    }
}

#[test]
fn signature_rejects_overflowing_half() {
    let mut bytes = [0x01u8; 64];
    for b in bytes[32..].iter_mut() {
        *b = 0xff;
    }
    assert_eq!(
        Secp256k1Signature::parse(&bytes).err(),
        Some(CryptoError::InvalidSignature)
    );
    assert!(Secp256k1Signature::parse(&[0x01u8; 64]).is_ok());
}

#[test]
fn slices_convert_like_parse() {
    let key = Secp256k1PrivateKey::try_from(&[0x17u8; 32][..]).unwrap();
    let pub_key = Secp256k1PublicKey::try_from(&key.pub_key().to_bytes()[..]).unwrap();
    let sig = key.sign_message(&digest_of(b"convert"));
    let sig = Secp256k1Signature::try_from(&sig.to_bytes()[..]).unwrap();
    assert_eq!(sig.verify(&digest_of(b"convert"), &pub_key), Ok(()));
    assert_eq!(
        Secp256k1PublicKey::try_from(&[2u8; 32][..]).err(),
        Some(CryptoError::InvalidPublicKey)
    );
    assert_eq!(
        Secp256k1Signature::try_from(&[0u8; 63][..]).err(),
        Some(CryptoError::InvalidSignature)
    );
}

#[test]
fn public_key_is_a_compressed_point() {
    for seed in 0..8u64 {
        let (_, pub_key) = generate_keypair(&mut StdRng::seed_from_u64(seed));
        let bytes = pub_key.to_bytes();
        assert!(bytes[0] == 0x02 || bytes[0] == 0x03);
    }
}

#[test]
fn public_key_rejects_x_beyond_field() {
    let mut bytes = [0xffu8; 33];
    bytes[0] = 0x02;
    assert_eq!(
        Secp256k1PublicKey::parse(&bytes).err(),
        Some(CryptoError::InvalidPublicKey)
    );
    let key = Secp256k1PrivateKey::parse(&[0x17u8; 32]).unwrap().pub_key();
    let mut uncompressed_tag = key.to_bytes();
    uncompressed_tag[0] = 0x04;
    assert_eq!(
        Secp256k1PublicKey::parse(&uncompressed_tag).err(),
        Some(CryptoError::InvalidPublicKey)
    );
}
