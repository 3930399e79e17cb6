use crypto_tools::group::{Point, Scalar};
use crypto_tools::zkproofs::sigma_protocols::dlog::DlogStatement;
use crypto_tools::hashing::{DomainSeparator, Hashable, Sha256Hasher, Sha512Hasher};
use sha2::{Digest, Sha256, Sha512};

fn initialize_hash_tuple(separator_string: &str) -> (Sha256, Sha256Hasher) {
    let mut h1 = Sha256::new();
    Digest::update(&mut h1, format!("{}{}", separator_string.len(), separator_string));

    let context = DomainSeparator::from_string(separator_string.to_string());
    let h2 = <Sha256Hasher as crypto_tools::hashing::Hash>::new_with_separator(context);

    (h1, h2)
}

fn chain_update_finalize(mut h: Sha256Hasher, data: &[u8]) -> Vec<u8> {
    crypto_tools::hashing::Hash::update(&mut h, data);
    crypto_tools::hashing::Hash::finalize_reset(&mut h)
}

#[test]
fn test_hashes_yield_same_result() {
    let (h1, h2) = initialize_hash_tuple("test");

    assert_eq!(
        h1.chain_update("test").finalize().as_slice(),
        chain_update_finalize(h2, b"test").as_slice()
    );
}

#[test]
fn tests_test_hashes_yield_same_result() {
    let mut h1 = Sha256::new();
    Digest::update(&mut h1, "4test");

    let context = DomainSeparator::from_string("test".to_string());
    let h2 = <Sha256Hasher as crypto_tools::hashing::Hash>::new_with_separator(context);

    assert_eq!(
        h1.chain_update("test").finalize().as_slice(),
        chain_update_finalize(h2, b"test").as_slice()
    );
}

#[test]
fn test_reset_with_separator() {
    let separator_string = "reset_test";
    let (h1, mut h2) = initialize_hash_tuple(separator_string);

    crypto_tools::hashing::Hash::update(&mut h2, b"this is a test");
    crypto_tools::hashing::Hash::reset_with_separator(
        &mut h2,
        DomainSeparator::from_string(separator_string.to_string()),
    );

    assert_eq!(
        h1.chain_update("test").finalize().as_slice(),
        chain_update_finalize(h2, b"test").as_slice()
    );
}

#[test]
fn test_finalize_reset_with_separator() {
    let separator_string = "reset_test";
    let separator = DomainSeparator::from_string(separator_string.to_string());
    let (h1, mut h2) = initialize_hash_tuple(separator_string);

    let h1_bytes = h1.chain_update("test").finalize();

    crypto_tools::hashing::Hash::update(&mut h2, b"test");
    let h2_bytes = crypto_tools::hashing::Hash::finalize_reset_with_separator(&mut h2, separator);
    assert_eq!(h1_bytes.as_slice(), h2_bytes.as_slice());

    assert_eq!(h1_bytes.as_slice(), chain_update_finalize(h2, b"test").as_slice());
}

#[test]
fn test_finalize_into_reset_with_separator() {
    let separator_string = "into_reset_test";
    let separator = DomainSeparator::from_string(separator_string.to_string());
    let (h1, mut h2) = initialize_hash_tuple(separator_string);

    let h1_bytes = h1.chain_update("test").finalize();

    crypto_tools::hashing::Hash::update(&mut h2, b"test");
    let mut h2_bytes = Vec::new();
    crypto_tools::hashing::Hash::finalize_into_reset_with_separator(&mut h2, &mut h2_bytes, separator);
    assert_eq!(h1_bytes.as_slice(), h2_bytes.as_slice());

    assert_eq!(h1_bytes.as_slice(), chain_update_finalize(h2, b"test").as_slice());
}

#[test]
fn domain_separator_prepends_decimal_length() {
    assert_eq!(DomainSeparator::from_string("test".to_string()).as_ref(), b"4test");
    assert_eq!(DomainSeparator::from_string(String::new()).as_ref(), b"0");
    let long = "abcdefghijkl".to_string();
    assert_eq!(DomainSeparator::from_string(long).as_ref(), b"12abcdefghijkl");
    // the length is the number of bytes of the UTF-8 encoding
    assert_eq!(DomainSeparator::from_string("é".to_string()).as_ref(), "2é".as_bytes());
}

#[test]
fn domain_separators_of_distinct_strings_differ() {
    // "1" followed by "12" would collide with "11" followed by "2" without the length
    let a = DomainSeparator::from_string("112".to_string());
    let b = DomainSeparator::from_string("12".to_string());
    assert_ne!(a.as_ref(), b.as_ref());
    let c = DomainSeparator::from_string("0123456789".to_string());
    let d = DomainSeparator::from_string("00123456789".to_string());
    assert_ne!(c.as_ref(), d.as_ref());
}

#[test]
fn sha512_state_computes_sha512() {
    let mut h = <Sha512Hasher as crypto_tools::hashing::Hash>::new();
    crypto_tools::hashing::Hash::update(&mut h, b"ab");
    crypto_tools::hashing::Hash::update(&mut h, b"c");
    let out = crypto_tools::hashing::Hash::finalize_reset(&mut h);
    assert_eq!(out.as_slice(), Sha512::digest(b"abc").as_slice());
    // after the reset, the state is fresh
    let empty = crypto_tools::hashing::Hash::finalize_reset(&mut h);
    assert_eq!(empty.as_slice(), Sha512::digest(b"").as_slice());
}

#[test]
fn sha256_reset_forgets_input() {
    let mut h = <Sha256Hasher as crypto_tools::hashing::Hash>::new();
    crypto_tools::hashing::Hash::update(&mut h, b"garbage");
    crypto_tools::hashing::Hash::reset(&mut h);
    crypto_tools::hashing::Hash::update(&mut h, b"abc");
    let out = crypto_tools::hashing::Hash::finalize_reset(&mut h);
    assert_eq!(out.as_slice(), Sha256::digest(b"abc").as_slice());
}

#[test]
fn hashable_statement_feeds_encodings() {
    let mut two = [0u8; 32];
    two[0] = 2;
    let g = Point::basepoint();
    let h = Point::mul_basepoint(&Scalar::from_bytes_mod_order(two));
    let x = DlogStatement::new(g, h);
    let mut state = <Sha512Hasher as crypto_tools::hashing::Hash>::new();
    Hashable::hash(&x, &mut state);
    let out = crypto_tools::hashing::Hash::finalize_reset(&mut state);
    let mut expected = Vec::new();
    expected.extend_from_slice(&g.to_bytes());
    expected.extend_from_slice(&h.to_bytes());
    assert_eq!(out.as_slice(), Sha512::digest(&expected).as_slice());
}
