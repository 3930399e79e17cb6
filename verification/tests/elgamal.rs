use crypto_tools::encryption::elgamal::{ElGamal, ElGamalMessage, ElGamalPublicKey};
use crypto_tools::encryption::{EncryptionScheme, Error};
use crypto_tools::group::{Point, Scalar};
use curve25519_dalek::scalar::Scalar as DalekScalar;
use rand::thread_rng;
use sha2::Sha512;

#[test]
fn key_gen_success() {
    let (_sk, _pk) = ElGamal::key_gen(32, &mut thread_rng()).expect("Key generation failed");
}

#[test]
#[should_panic(expected = "Key generation failed")]
fn key_gen_failure() {
    let (_sk, _pk) = ElGamal::key_gen(31, &mut thread_rng()).expect("Key generation failed");
}

#[test]
fn key_gen_error_names_the_length() {
    match ElGamal::key_gen(31, &mut thread_rng()) {
        Err(Error::UnsupportedKeyLength(31)) => {}
        _ => panic!("Expected UnsupportedKeyLength(31)."),
    }
}

#[test]
fn test_encode_message() {
    let message = "Test Message".to_string();

    let m_zl = DalekScalar::hash_from_bytes::<Sha512>(message.as_bytes());
    let m_group = &m_zl * &curve25519_dalek::constants::RISTRETTO_BASEPOINT_POINT;

    let m = ElGamalMessage::from_string(message);

    assert_eq!(m.0.to_bytes(), m_group.compress().to_bytes(), "Encodings of messages do not match.");
}

#[test]
fn test_encode_message_fail() {
    let message = "Test Message".to_string();

    let m_zl = DalekScalar::hash_from_bytes::<Sha512>(message.as_bytes());
    let m_group = &m_zl * &curve25519_dalek::constants::RISTRETTO_BASEPOINT_POINT;

    let m = ElGamalMessage::from_string("Test message".to_string());

    assert_ne!(
        m,
        ElGamalMessage(Point::from_bytes(m_group.compress().to_bytes()).unwrap()),
        "Encodings of two different messages match."
    );
}

#[test]
fn encrypt_decrypt_success() {
    let (sk, pk) = ElGamal::key_gen(32, &mut thread_rng()).expect("Key generation failed");

    let m = ElGamalMessage(Point::mul_basepoint(&Scalar::random(&mut thread_rng())));

    let c = ElGamal::encrypt(&pk, m.clone(), &mut thread_rng());

    let m_dec = ElGamal::decrypt(&sk, c);

    assert_eq!(
        m, m_dec,
        "Decrypted message does not match message which was previously encrypted."
    );
}

#[test]
fn encryption_with_fixed_randomness() {
    let mut three = [0u8; 32];
    three[0] = 3;
    let mut seven = [0u8; 32];
    seven[0] = 7;
    let r = Scalar::from_bytes_mod_order(three);
    let pk = ElGamalPublicKey(Point::mul_basepoint(&Scalar::from_bytes_mod_order(seven)));
    let m = ElGamalMessage::from_string("hello".to_string());
    let c = ElGamal::encrypt_with_randomness(&pk, &m, &r);
    // c = (3·B, m + 21·B)
    assert!(c.0.equals(&Point::mul_basepoint(&r)));
    let mut twenty_one = [0u8; 32];
    twenty_one[0] = 21;
    let expected = m.0.add(&Point::mul_basepoint(&Scalar::from_bytes_mod_order(twenty_one)));
    assert!(c.1.equals(&expected));
    // and the well-formedness pairs share the discrete logarithm 3
    let ((g1, h1), (g2, h2)) = ElGamal::prepare_well_formedness_proof(pk, c, m);
    assert!(g1.mul(&r).equals(&h1));
    assert!(g2.mul(&r).equals(&h2));
}

#[test]
fn decryption_with_wrong_key_fails() {
    let (_sk, pk) = ElGamal::key_gen(32, &mut thread_rng()).unwrap();
    let (other_sk, _) = ElGamal::key_gen(32, &mut thread_rng()).unwrap();
    let m = ElGamalMessage::from_string("secret".to_string());
    let c = ElGamal::encrypt(&pk, m, &mut thread_rng());
    assert_ne!(ElGamal::decrypt(&other_sk, c), m);
}

#[test]
fn encryption_error_description() {
    assert_eq!(Error::UnsupportedKeyLength(31).description(), "Given key length (31 bytes) not supported");
    assert_eq!(Error::UnsupportedKeyLength(0).description(), "Given key length (0 bytes) not supported");
    assert_eq!(Error::UnsupportedKeyLength(4096).description(), "Given key length (4096 bytes) not supported");
}
