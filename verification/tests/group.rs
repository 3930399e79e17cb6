use crypto_tools::group::{Point, Scalar};
use curve25519_dalek::constants::RISTRETTO_BASEPOINT_POINT;
use curve25519_dalek::scalar::Scalar as DalekScalar;
use rand::thread_rng;

fn small(n: u8) -> Scalar {
    let mut b = [0u8; 32];
    b[0] = n;
    Scalar::from_bytes_mod_order(b)
}

/// The bytes of `ℓ - 1`.
fn l_minus_one() -> [u8; 32] {
    let mut b = [0u8; 32];
    b.copy_from_slice(&(-DalekScalar::ONE).to_bytes());
    b
}

#[test]
fn scalar_arithmetic_is_modular() {
    assert_eq!(small(2).plus(&small(3)).to_bytes(), small(5).to_bytes());
    assert_eq!(small(7).times(&small(6)).to_bytes(), small(42).to_bytes());
    assert_eq!(small(9).minus(&small(4)).to_bytes(), small(5).to_bytes());
    // 0 - 1 wraps around to ℓ - 1
    assert_eq!(small(0).minus(&small(1)).to_bytes(), l_minus_one());
    // (ℓ - 1) + 2 wraps around to 1
    let lm1 = Scalar::from_bytes_mod_order(l_minus_one());
    assert_eq!(lm1.plus(&small(2)).to_bytes(), small(1).to_bytes());
}

#[test]
fn scalar_reduction() {
    // 2^256 - 1 reduced modulo ℓ
    let all = Scalar::from_bytes_mod_order([0xff; 32]);
    assert_eq!(all.to_bytes(), DalekScalar::from_bytes_mod_order([0xff; 32]).to_bytes());
    assert_ne!(all.to_bytes(), [0xff; 32]);
    let wide = Scalar::from_bytes_mod_order_wide(&[0xff; 64]);
    assert_eq!(wide.to_bytes(), DalekScalar::from_bytes_mod_order_wide(&[0xff; 64]).to_bytes());
    assert!(small(3).equals(&small(3)));
    assert!(!small(3).equals(&small(4)));
}

#[test]
fn point_arithmetic_is_group_arithmetic() {
    let b = Point::basepoint();
    assert_eq!(b.to_bytes(), RISTRETTO_BASEPOINT_POINT.compress().to_bytes());
    let two_b = Point::mul_basepoint(&small(2));
    assert!(b.add(&b).equals(&two_b));
    assert!(two_b.sub(&b).equals(&b));
    assert!(b.mul(&small(2)).equals(&two_b));
    assert!(!two_b.equals(&b));
    let five_b = Point::mul_basepoint(&small(5));
    assert!(two_b.mul(&small(3)).sub(&b).equals(&five_b));
    let expected = (DalekScalar::from(5u8) * RISTRETTO_BASEPOINT_POINT).compress().to_bytes();
    assert_eq!(five_b.to_bytes(), expected);
}

#[test]
fn point_decoding() {
    let b = Point::basepoint();
    let decoded = Point::from_bytes(b.to_bytes()).expect("the basepoint decodes");
    assert!(decoded.equals(&b));
    // not the encoding of an element
    assert!(Point::from_bytes([0xff; 32]).is_none());
    let mut bad = b.to_bytes();
    bad[0] ^= 1;
    assert!(Point::from_bytes(bad).is_none());
}

#[test]
fn random_scalars_differ() {
    let a = Scalar::random(&mut thread_rng());
    let b = Scalar::random(&mut thread_rng());
    assert!(!a.equals(&b));
}
