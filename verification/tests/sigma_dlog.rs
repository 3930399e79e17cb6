use crypto_tools::hashing::DomainSeparator;
use sha2::{Digest, Sha512};
use crypto_tools::group::{Point, Scalar};
use crypto_tools::hashing::{Hashable, Sha512Hasher};
use crypto_tools::zkproofs::sigma_protocols::dlog::{Dlog, DlogStatement, DlogWitness};
use crypto_tools::zkproofs::sigma_protocols::dlogeq::{DlogEq, DlogEqStatement, DlogEqWitness};
use crypto_tools::zkproofs::sigma_protocols::fiat_shamir::FsConvertibleSigmaProtocol;
use crypto_tools::zkproofs::sigma_protocols::{Challenge, Error, SigmaProtocol, SimulatorState};
use crypto_tools::zkproofs::Error as ProofSystemError;
use crypto_tools::zkproofs::FsProofSystem;
use curve25519_dalek::ristretto::RistrettoPoint;
use rand::thread_rng;

fn random_point() -> Point {
    let p = RistrettoPoint::random(&mut thread_rng());
    Point::from_bytes(p.compress().to_bytes()).unwrap()
}

fn create_dlog_statement_for_testing() -> (DlogStatement, DlogWitness) {
    let w = Scalar::random(&mut thread_rng());
    let base = random_point();
    let mult = base.mul(&w);

    (DlogStatement::new(base, mult), w.into())
}

fn create_dlogeq_statement_for_testing() -> (DlogEqStatement, DlogEqWitness) {
    let w = Scalar::random(&mut thread_rng());
    let g1 = random_point();
    let g2 = random_point();
    (DlogEqStatement::new(g1, g1.mul(&w), g2, g2.mul(&w)), DlogEqWitness::new(w))
}

fn hash_statement_for_testing(x: DlogStatement) -> Vec<u8> {
    let mut digest = <Sha512Hasher as crypto_tools::hashing::Hash>::new();
    x.hash(&mut digest);
    crypto_tools::hashing::Hash::finalize_reset(&mut digest)
}

#[test]
fn test_valid_statement() {
    let (x, w) = create_dlog_statement_for_testing();

    assert_eq!(x.verify(&w), true);
}

#[test]
fn test_invalid_statement() {
    let (x, _) = create_dlog_statement_for_testing();

    let w = Scalar::random(&mut thread_rng());

    assert_eq!(x.verify(&w.into()), false);
}

#[test]
fn test_hash_different_statements() {
    let (x1, _) = create_dlog_statement_for_testing();
    let (x2, _) = create_dlog_statement_for_testing();

    assert_ne!(hash_statement_for_testing(x1), hash_statement_for_testing(x2));
}

#[test]
fn test_commit_fail() {
    let (x, _) = create_dlog_statement_for_testing();
    let w = Scalar::random(&mut thread_rng());

    match Dlog::commit(&x, &w.into(), &mut thread_rng()) {
        Err(Error::InvalidWitness) => {}
        _ => panic!("Expected Error::InvalidWitness."),
    }
}

#[test]
fn test_commit_challenge_response_check() {
    let (x, w) = create_dlog_statement_for_testing();

    let (com, st) = Dlog::commit(&x, &w, &mut thread_rng()).expect("Committing failed");
    let ch = Dlog::challenge(&mut thread_rng());
    let rsp = Dlog::response(&x, &w, &ch, st);

    assert_eq!(Dlog::check(&x, &com, &ch, &rsp), true);
}

#[test]
fn dlog_test_prove_fails() {
    let (x, _) = create_dlog_statement_for_testing();
    let w = Scalar::random(&mut thread_rng());

    match <Dlog as FsProofSystem>::prove(&x, &w.into(), &mut thread_rng()) {
        Err(ProofSystemError::InvalidWitness) => {}
        _ => panic!("Expected Error::InvalidWitness"),
    }
}

#[test]
fn test_prove_and_verify() {
    let (x, w) = create_dlog_statement_for_testing();

    let p = <Dlog as FsProofSystem>::prove(&x, &w, &mut thread_rng()).expect("Proving failed");

    assert_eq!(<Dlog as FsProofSystem>::verify(&x, &p), true);
}

#[test]
fn dlog_check_rejects_other_challenge() {
    let (x, w) = create_dlog_statement_for_testing();
    let (com, st) = Dlog::commit(&x, &w, &mut thread_rng()).unwrap();
    let ch = Dlog::challenge(&mut thread_rng());
    let rsp = Dlog::response(&x, &w, &ch, st);
    let other = Dlog::challenge(&mut thread_rng());
    assert_eq!(Dlog::check(&x, &com, &other, &rsp), false);
}

#[test]
fn dlog_simulated_transcripts_are_accepted() {
    let (x, _) = create_dlog_statement_for_testing();
    let (com, sts) = Dlog::simulate(&x, &mut thread_rng());
    let (ch, rsp) = sts.decompose();
    assert!(Dlog::check(&x, &com, &ch, &rsp));
}

#[test]
fn dlog_proof_does_not_verify_for_other_statement() {
    let (x, w) = create_dlog_statement_for_testing();
    let (y, _) = create_dlog_statement_for_testing();
    let p = <Dlog as FsProofSystem>::prove(&x, &w, &mut thread_rng()).unwrap();
    assert!(!<Dlog as FsProofSystem>::verify(&y, &p));
}

#[test]
fn dlog_domain_separators() {
    assert_eq!(Dlog::domain_separator(), "dlog");
    assert_eq!(DlogEq::domain_separator(), "dlogeq");
}

#[test]
fn dlog_hash_challenge_is_the_hash_of_separator_statement_and_commitment() {
    let g = Point::basepoint();
    let two = {
        let mut b = [0u8; 32];
        b[0] = 2;
        Scalar::from_bytes_mod_order(b)
    };
    let x = DlogStatement::new(g, g.mul(&two));
    let (com, _) = Dlog::commit(&x, &DlogWitness::new(two), &mut thread_rng()).unwrap();
    let ch = Dlog::hash_challenge(&x, &com);

    let mut h = <Sha512Hasher as crypto_tools::hashing::Hash>::new_with_separator(
        DomainSeparator::from_string("dlog".to_string()),
    );
    x.hash(&mut h);
    com.hash(&mut h);
    let digest = crypto_tools::hashing::Hash::finalize_reset(&mut h);
    let mut wide = [0u8; 64];
    wide.copy_from_slice(&digest);
    assert_eq!(ch.scalar().to_bytes(), Scalar::from_bytes_mod_order_wide(&wide).to_bytes());

    // the statement part of that input, computed by sha2 directly
    let mut s = <Sha512Hasher as crypto_tools::hashing::Hash>::new_with_separator(
        DomainSeparator::from_string("dlog".to_string()),
    );
    x.hash(&mut s);
    let mut expected = Sha512::new();
    expected.update(b"4dlog");
    expected.update(g.to_bytes());
    expected.update(g.mul(&two).to_bytes());
    assert_eq!(crypto_tools::hashing::Hash::finalize_reset(&mut s).as_slice(), expected.finalize().as_slice());
}

#[test]
fn dlogeq_prove_and_verify() {
    let (x, w) = create_dlogeq_statement_for_testing();
    let p = <DlogEq as FsProofSystem>::prove(&x, &w, &mut thread_rng()).unwrap();
    assert!(<DlogEq as FsProofSystem>::verify(&x, &p));
    let (y, _) = create_dlogeq_statement_for_testing();
    assert!(<DlogEq as FsProofSystem>::prove(&y, &w, &mut thread_rng()).is_err());
}

#[test]
fn dlogeq_simulated_transcripts_are_accepted() {
    let (x, _) = create_dlogeq_statement_for_testing();
    let (com, sts) = DlogEq::simulate(&x, &mut thread_rng());
    let (ch, rsp) = sts.decompose();
    assert!(DlogEq::check(&x, &com, &ch, &rsp));
    let other = Challenge::random(&mut thread_rng());
    assert!(!DlogEq::check(&x, &com, &other, &rsp));
}

fn small_scalar(v: u8) -> Scalar {
    let mut bytes = [0u8; 32];
    bytes[0] = v;
    Scalar::from_bytes_mod_order(bytes)
}

#[test]
fn dlog_special_soundness_extracts_the_witness() {
    // Two accepting transcripts with one commitment and challenges 1 and 2.
    let (x, w) = create_dlog_statement_for_testing();
    let (com, st) = Dlog::commit(&x, &w, &mut thread_rng()).unwrap();
    let ch1 = Challenge::from_scalar(small_scalar(1));
    let ch2 = Challenge::from_scalar(small_scalar(2));
    let rsp1 = Dlog::response(&x, &w, &ch1, st);
    let rsp2 = Dlog::response(&x, &w, &ch2, st);
    assert!(Dlog::check(&x, &com, &ch1, &rsp1));
    assert!(Dlog::check(&x, &com, &ch2, &rsp2));

    // The same arithmetic on scalars: z_i = r + x·ch_i, and inv = -1 inverts 1 - 2.
    let g = random_point();
    let secret = Scalar::random(&mut thread_rng());
    let h = g.mul(&secret);
    let r = Scalar::random(&mut thread_rng());
    let c = g.mul(&r);
    let z1 = r.plus(&secret.times(&small_scalar(1)));
    let z2 = r.plus(&secret.times(&small_scalar(2)));
    assert!(g.mul(&z1).equals(&c.add(&h.mul(&small_scalar(1)))));
    assert!(g.mul(&z2).equals(&c.add(&h.mul(&small_scalar(2)))));
    let inv = small_scalar(0).minus(&small_scalar(1));
    assert!(inv.times(&small_scalar(1).minus(&small_scalar(2))).equals(&small_scalar(1)));
    let extracted = z1.minus(&z2).times(&inv);
    assert!(extracted.equals(&secret));
    assert!(DlogStatement::new(g, h).verify(&DlogWitness::new(extracted)));
}
