use crypto_tools::chameleon_hashing::dss_pkc_20::{DssPkc20, DssPkc20Error};
use crypto_tools::chameleon_hashing::{ChameleonHash, Error};
use crypto_tools::encryption::elgamal::ElGamalMessage;
use rand::thread_rng;

#[test]
fn tests_key_gen_success() {
    let (_sk, _pk) = DssPkc20::key_gen(32, &mut thread_rng()).expect("Key generation failed");
}

#[test]
#[should_panic(expected = "Key generation failed")]
fn tests_key_gen_failure() {
    let (_sk, _pk) = DssPkc20::key_gen(31, &mut thread_rng()).expect("Key generation failed");
}

#[test]
fn dss_key_gen_error_names_the_length() {
    match DssPkc20::key_gen(64, &mut thread_rng()) {
        Err(Error::UnsupportedKeyLength(64)) => {}
        _ => panic!("Expected UnsupportedKeyLength(64)."),
    }
}

#[test]
fn hash_validation_success() {
    let (_sk, pk) = DssPkc20::key_gen(32, &mut thread_rng()).expect("Test");

    let msg_original = ElGamalMessage::from_string("Original".to_string());
    let (h, r) =
        DssPkc20::hash(&pk, msg_original.clone(), &mut thread_rng()).expect("Error upon hashing");
    let success = DssPkc20::check(&pk, msg_original.clone(), &r, &h);

    assert_eq!(
        true, success,
        "Hash validation failed: expected {} got {}.",
        true, success
    );
}

#[test]
fn hash_validation_failure() {
    let (_sk, pk) = DssPkc20::key_gen(32, &mut thread_rng()).expect("Test");

    let msg_original = ElGamalMessage::from_string("Original".to_string());
    let (h, r) =
        DssPkc20::hash(&pk, msg_original.clone(), &mut thread_rng()).expect("Error upon hashing");

    let msg = ElGamalMessage::from_string("Other".to_string());

    let success = DssPkc20::check(&pk, msg.clone(), &r, &h);

    assert_eq!(
        false, success,
        "Hash validation failed: expected {} got {}.",
        false, success
    );
}

#[test]
fn hash_adapt_success() {
    let (sk, pk) = DssPkc20::key_gen(32, &mut thread_rng()).unwrap();

    let msg_original = ElGamalMessage::from_string("Original".to_string());
    let (h, r) =
        DssPkc20::hash(&pk, msg_original.clone(), &mut thread_rng()).expect("Error upon hashing");

    let msg_adapted = ElGamalMessage::from_string("Adapted".to_string());
    let r_adapt = DssPkc20::adapt(&sk, &msg_original, &msg_adapted, &r, &h, &mut thread_rng())
        .expect("Error upon adapting");
    let success = DssPkc20::check(&pk, msg_adapted.clone(), &r_adapt, &h);

    assert_eq!(
        true, success,
        "Hash validation after adapt failed: expected {} got {}.",
        true, success
    );
}

#[test]
fn hash_adapt_invalid_hash() {
    let (sk, pk) = DssPkc20::key_gen(32, &mut thread_rng()).unwrap();

    let msg_original = ElGamalMessage::from_string("Original".to_string());
    let (h, r) =
        DssPkc20::hash(&pk, msg_original.clone(), &mut thread_rng()).expect("Error upon hashing");

    let msg_adapted = ElGamalMessage::from_string("Adapted".to_string());
    match DssPkc20::adapt(&sk, &msg_adapted, &msg_adapted, &r, &h, &mut thread_rng()) {
        Err(Error::ImplementationSpecificError(DssPkc20Error::InvalidHashError(m))) => {
            assert_eq!(m, "Hash supplied to adapt is invalid");
        }
        _ => panic!("Hash adaption of invalid hash failed: expected `InvalidHashError`."),
    };
}

#[test]
fn hash_adapt_invalid_key() {
    let (_sk, pk) = DssPkc20::key_gen(32, &mut thread_rng()).unwrap();

    let msg_original = ElGamalMessage::from_string("Original".to_string());
    let (h, r) =
        DssPkc20::hash(&pk, msg_original.clone(), &mut thread_rng()).expect("Error upon hashing");

    let msg_adapted = ElGamalMessage::from_string("Adapted".to_string());

    let (sk, _pk) = DssPkc20::key_gen(32, &mut thread_rng()).unwrap();

    match DssPkc20::adapt(&sk, &msg_adapted, &msg_adapted, &r, &h, &mut thread_rng()) {
        Err(Error::ImplementationSpecificError(DssPkc20Error::InvalidHashError(_))) => {}
        _ => panic!("Hash adaption of invalid hash failed: expected `InvalidHashError`."),
    };
}

#[test]
fn adapted_randomness_no_longer_fits_the_old_message_in_general() {
    let (sk, pk) = DssPkc20::key_gen(32, &mut thread_rng()).unwrap();
    let m1 = ElGamalMessage::from_string("one".to_string());
    let m2 = ElGamalMessage::from_string("two".to_string());
    let (h, r) = DssPkc20::hash(&pk, m1, &mut thread_rng()).unwrap();
    let r2 = DssPkc20::adapt(&sk, &m1, &m2, &r, &h, &mut thread_rng()).unwrap();
    assert!(DssPkc20::check(&pk, m2, &r2, &h));
    assert!(!DssPkc20::check(&pk, m1, &r2, &h));
    // adapting again, back to the first message
    let r3 = DssPkc20::adapt(&sk, &m2, &m1, &r2, &h, &mut thread_rng()).unwrap();
    assert!(DssPkc20::check(&pk, m1, &r3, &h));
}

#[test]
fn check_with_another_public_key_fails() {
    let (_, pk) = DssPkc20::key_gen(32, &mut thread_rng()).unwrap();
    let (_, pk2) = DssPkc20::key_gen(32, &mut thread_rng()).unwrap();
    let m = ElGamalMessage::from_string("m".to_string());
    let (h, r) = DssPkc20::hash(&pk, m, &mut thread_rng()).unwrap();
    assert!(!DssPkc20::check(&pk2, m, &r, &h));
}

#[test]
fn chameleon_error_description() {
    let e: Error<DssPkc20Error> = Error::UnsupportedKeyLength(16);
    assert_eq!(e.description(), "Given key length (16 bytes) not supported");
    let e: Error<DssPkc20Error> =
        Error::ImplementationSpecificError(DssPkc20Error::InvalidHashError("x".to_string()));
    assert_eq!(e.description(), "daaaaamn this went wrong");
}
