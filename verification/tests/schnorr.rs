use curv::arithmetic::traits::Converter;
use curv::elliptic::curves::secp256_k1::Secp256k1Point;
use curv::elliptic::curves::secp256_k1::Secp256k1Scalar;
use curv::elliptic::curves::ECPoint;
use curv::elliptic::curves::ECScalar;
use curv::BigInt;
use schnorr::hash_to_scalar;
use schnorr::sign_schnorr;
use schnorr::verify_schnorr;

/// The group order minus one, big-endian: the largest representable scalar.
const N_MINUS_1_BYTES: [u8; 32] = [
    0xFF, 0xFF, 0xFF, 0xFF, 0xFF, 0xFF, 0xFF, 0xFF, 0xFF, 0xFF, 0xFF, 0xFF, 0xFF, 0xFF, 0xFF,
    0xFE, 0xBA, 0xAE, 0xDC, 0xE6, 0xAF, 0x48, 0xA0, 0x3B, 0xBF, 0xD2, 0x5E, 0x8C, 0xD0, 0x36,
    0x41, 0x40,
];

/// SHA-256 of the three bytes `"abc"`, the classic known-answer vector.
const SHA256_ABC: [u8; 32] = [
    0xBA, 0x78, 0x16, 0xBF, 0x8F, 0x01, 0xCF, 0xEA, 0x41, 0x41, 0x40, 0xDE, 0x5D, 0xAE, 0x22,
    0x23, 0xB0, 0x03, 0x61, 0xA3, 0x96, 0x17, 0x7A, 0x9C, 0xB4, 0x10, 0xFF, 0x61, 0xF2, 0x00,
    0x15, 0xAD,
];

fn scalar_from_u64(v: u64) -> Secp256k1Scalar {
    ECScalar::from_bigint(&BigInt::from(v))
}

#[test]
fn test_sign() {
    let x: Secp256k1Scalar = ECScalar::random();
    let m = &[1, 1, 1, 1];
    let sig = sign_schnorr(&x, m);
    let p = Secp256k1Point::generator_mul(&x);
    assert!(verify_schnorr(&p, m, &sig));
}

#[test]
fn roundtrip_several_messages() {
    let x: Secp256k1Scalar = ECScalar::random();
    let p = Secp256k1Point::generator_mul(&x);
    let messages: [&[u8]; 3] = [b"hello schnorr", &[0u8; 100], &[0xFF]];
    for m in messages {
        let sig = sign_schnorr(&x, m);
        assert!(verify_schnorr(&p, m, &sig));
    }
}

#[test]
fn roundtrip_empty_message() {
    let x: Secp256k1Scalar = ECScalar::random();
    let p = Secp256k1Point::generator_mul(&x);
    let sig = sign_schnorr(&x, &[]);
    assert!(verify_schnorr(&p, &[], &sig));
}

#[test]
fn roundtrip_max_scalar() {
    let x: Secp256k1Scalar = ECScalar::from_bigint(&BigInt::from_bytes(&N_MINUS_1_BYTES));
    let p = Secp256k1Point::generator_mul(&x);
    let m = b"boundary";
    let sig = sign_schnorr(&x, m);
    assert!(verify_schnorr(&p, m, &sig));
}

#[test]
fn roundtrip_zero_key() {
    let x: Secp256k1Scalar = ECScalar::zero();
    let p = Secp256k1Point::generator_mul(&x);
    let m = b"zero key still round-trips";
    let sig = sign_schnorr(&x, m);
    assert!(verify_schnorr(&p, m, &sig));
}

#[test]
fn tamper_message_bit() {
    let x: Secp256k1Scalar = ECScalar::random();
    let p = Secp256k1Point::generator_mul(&x);
    let m = [1u8, 1, 1, 1];
    let sig = sign_schnorr(&x, &m);
    let tampered = [1u8, 1, 1, 0];
    assert!(!verify_schnorr(&p, &tampered, &sig));
}

#[test]
fn tamper_response() {
    let x: Secp256k1Scalar = ECScalar::random();
    let p = Secp256k1Point::generator_mul(&x);
    let m = b"tamper with s";
    let sig = sign_schnorr(&x, m);
    let forged = (scalar_from_u64(42), sig.1);
    assert!(!verify_schnorr(&p, m, &forged));
}

#[test]
fn tamper_challenge() {
    let x: Secp256k1Scalar = ECScalar::random();
    let p = Secp256k1Point::generator_mul(&x);
    let m = b"tamper with e";
    let sig = sign_schnorr(&x, m);
    let forged = (sig.0, scalar_from_u64(42));
    assert!(!verify_schnorr(&p, m, &forged));
}

#[test]
fn wrong_key_rejected() {
    let x1 = scalar_from_u64(5);
    let x2 = scalar_from_u64(7);
    let m = b"signed under the wrong key";
    let sig = sign_schnorr(&x1, m);
    let p2 = Secp256k1Point::generator_mul(&x2);
    assert!(!verify_schnorr(&p2, m, &sig));
}

#[test]
fn verify_deterministic() {
    let x: Secp256k1Scalar = ECScalar::random();
    let p = Secp256k1Point::generator_mul(&x);
    let m = b"ask twice";
    let sig = sign_schnorr(&x, m);
    let r1 = verify_schnorr(&p, m, &sig);
    let r2 = verify_schnorr(&p, m, &sig);
    assert_eq!(r1, r2);
    assert!(r1);
    let other = [0u8; 4];
    let w1 = verify_schnorr(&p, &other, &sig);
    let w2 = verify_schnorr(&p, &other, &sig);
    assert_eq!(w1, w2);
    assert!(!w1);
}

#[test]
fn sign_nonce_fresh() {
    let x: Secp256k1Scalar = ECScalar::random();
    let m = b"same input, fresh nonce";
    let sig1 = sign_schnorr(&x, m);
    let sig2 = sign_schnorr(&x, m);
    assert!(sig1 != sig2);
}

#[test]
fn known_vector_generator_key() {
    let x = scalar_from_u64(1);
    let m = &[1, 1, 1, 1];
    let sig = sign_schnorr(&x, m);
    let p = Secp256k1Point::generator_mul(&x);
    assert!(verify_schnorr(&p, m, &sig));
}

#[test]
fn zero_signature_rejected() {
    let x = scalar_from_u64(1);
    let m = &[1, 1, 1, 1];
    let p = Secp256k1Point::generator_mul(&x);
    let zero_sig = (ECScalar::zero(), ECScalar::zero());
    assert!(!verify_schnorr(&p, m, &zero_sig));
}

#[test]
fn challenge_hasher_known_digest() {
    let got = hash_to_scalar(b"abc");
    let expected: Secp256k1Scalar = ECScalar::from_bigint(&BigInt::from_bytes(&SHA256_ABC));
    assert!(got == expected);
}
