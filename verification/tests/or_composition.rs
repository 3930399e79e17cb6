use crypto_tools::zkproofs::sigma_protocols::Challenge;
use crypto_tools::group::{Point, Scalar};
use crypto_tools::zkproofs::sigma_protocols::dlog::{Dlog, DlogStatement, DlogWitness};
use crypto_tools::zkproofs::sigma_protocols::dlogeq::{DlogEq, DlogEqStatement, DlogEqWitness};
use crypto_tools::zkproofs::sigma_protocols::fiat_shamir::FsConvertibleSigmaProtocol;
use crypto_tools::zkproofs::sigma_protocols::or_composition::{OrComposedStatement, OrComposedWitness};
use crypto_tools::zkproofs::sigma_protocols::{Error, SigmaProtocol, SimulatorState};
use crypto_tools::zkproofs::Error as ZkProofError;
use crypto_tools::zkproofs::{DlOrDlEq, FsProofSystem};
use curve25519_dalek::ristretto::RistrettoPoint;
use rand::thread_rng;

fn random_point() -> Point {
    let p = RistrettoPoint::random(&mut thread_rng());
    Point::from_bytes(p.compress().to_bytes()).unwrap()
}

fn create_dlog_statement_for_testing() -> (DlogStatement, DlogWitness) {
    let w = Scalar::random(&mut thread_rng());
    let base = random_point();
    (DlogStatement::new(base, base.mul(&w)), DlogWitness::new(w))
}

fn create_dlogeq_statement_for_testing() -> (DlogEqStatement, DlogEqWitness) {
    let w = Scalar::random(&mut thread_rng());
    let g1 = random_point();
    let g2 = random_point();
    (DlogEqStatement::new(g1, g1.mul(&w), g2, g2.mul(&w)), DlogEqWitness::new(w))
}

fn get_valid_statement_witness_combinations_for_test() -> Vec<(
    OrComposedStatement<Dlog, DlogEq>,
    OrComposedWitness<Dlog, DlogEq>,
)> {
    let (x1, w1) = create_dlog_statement_for_testing();
    let (x2, w2) = create_dlogeq_statement_for_testing();

    let wc1 = DlOrDlEq::compile_witness(Some(w1), None)
        .expect("Compiling witness (Some(w1), None) failed.");
    let wc2 = DlOrDlEq::compile_witness(None, Some(w2))
        .expect("Compiling witness (None, Some(w2)) failed.");
    let wc3 = DlOrDlEq::compile_witness(Some(w1), Some(w2))
        .expect("Compiling witness (Some(w1), Some(w2)) failed.");

    vec![
        (DlOrDlEq::compile_statement(x1, x2), wc1),
        (DlOrDlEq::compile_statement(x1, x2), wc2),
        (DlOrDlEq::compile_statement(x1, x2), wc3),
    ]
}

fn get_random_witness_combinations_for_test() -> Vec<OrComposedWitness<Dlog, DlogEq>> {
    let (_, w1) = create_dlog_statement_for_testing();
    let (_, w2) = create_dlogeq_statement_for_testing();

    vec![
        DlOrDlEq::compile_witness(Some(w1), None)
            .expect("Compiling witness (Some(w1), None) failed."),
        DlOrDlEq::compile_witness(None, Some(w2))
            .expect("Compiling witness (None, Some(w2)) failed."),
        DlOrDlEq::compile_witness(Some(w1), Some(w2))
            .expect("Compiling witness (Some(w1), Some(w2)) failed."),
    ]
}

#[test]
fn test_bad_witness() {
    match DlOrDlEq::compile_witness(None, None) {
        Err(Error::InvalidWitness) => return,
        _ => panic!("Passed (None, None) to compile_witness but it didn't fail."),
    };
}

#[test]
fn test_commit_challenge_check() {
    for (x, w) in get_valid_statement_witness_combinations_for_test().iter() {
        let (com, st) = DlOrDlEq::commit(&x, &w, &mut thread_rng()).expect("Committing failed");
        let ch = DlOrDlEq::challenge(&mut thread_rng());
        let rsp = DlOrDlEq::response(&x, &w, &ch, st);

        assert_eq!(DlOrDlEq::check(&x, &com, &ch, &rsp), true);
    }
}

#[test]
fn test_prove_verify() {
    for (x, w) in get_valid_statement_witness_combinations_for_test().iter() {
        let p = <DlOrDlEq as FsProofSystem>::prove(&x, &w, &mut thread_rng())
            .expect("Proving valid statement failed");
        match <DlOrDlEq as FsProofSystem>::verify(&x, &p) {
            true => continue,
            _ => panic!("Expected that proof verification succeeds but it failed."),
        };
    }
}

#[test]
fn or_composition_test_prove_fails() {
    for (x, _w) in get_valid_statement_witness_combinations_for_test().iter() {
        for w in get_random_witness_combinations_for_test().iter() {
            match <DlOrDlEq as FsProofSystem>::prove(&x, &w, &mut thread_rng()) {
                Err(ZkProofError::InvalidWitness) => continue,
                _ => panic!("Call to prove with witness that is invalid for the given statement succeeded."),
            };
        }
    }
}

#[test]
fn or_proof_with_one_valid_witness_verifies() {
    // a valid witness for the second statement only, the first statement has none
    let (_, w1) = create_dlog_statement_for_testing();
    let (x1, _) = create_dlog_statement_for_testing();
    let (x2, w2) = create_dlogeq_statement_for_testing();
    let x = DlOrDlEq::compile_statement(x1, x2);
    let w = DlOrDlEq::compile_witness(None, Some(w2)).unwrap();
    let p = <DlOrDlEq as FsProofSystem>::prove(&x, &w, &mut thread_rng()).unwrap();
    assert!(<DlOrDlEq as FsProofSystem>::verify(&x, &p));
    // a witness that only fits neither statement is refused
    let bad = DlOrDlEq::compile_witness(Some(w1), None).unwrap();
    assert!(<DlOrDlEq as FsProofSystem>::prove(&x, &bad, &mut thread_rng()).is_err());
}

#[test]
fn or_simulated_transcripts_are_accepted() {
    let (x1, _) = create_dlog_statement_for_testing();
    let (x2, _) = create_dlogeq_statement_for_testing();
    let x = DlOrDlEq::compile_statement(x1, x2);
    let (com, sts) = DlOrDlEq::simulate(&x, &mut thread_rng());
    let (ch, rsp) = sts.decompose();
    assert!(DlOrDlEq::check(&x, &com, &ch, &rsp));
}

#[test]
fn or_domain_separator_combines_both() {
    assert_eq!(DlOrDlEq::domain_separator(), "or_composition(dlog,dlogeq)");
}

#[test]
fn challenge_arithmetic() {
    let mut five = [0u8; 32];
    five[0] = 5;
    let mut three = [0u8; 32];
    three[0] = 3;
    let a = Challenge::from_scalar(Scalar::from_bytes_mod_order(five));
    let b = Challenge::from_scalar(Scalar::from_bytes_mod_order(three));
    let mut two = [0u8; 32];
    two[0] = 2;
    assert_eq!(a.sub(&b).scalar().to_bytes(), two);
    let mut eight = [0u8; 32];
    eight[0] = 8;
    assert_eq!(a.add(&b).scalar().to_bytes(), eight);
    assert_eq!(a.sub(&b).add(&b).scalar().to_bytes(), five);
}

#[test]
fn witness_error_descriptions() {
    let m = "The given witness does not attest membership of the statement in the language.";
    assert_eq!(Error::InvalidWitness.description(), m);
    assert_eq!(ZkProofError::InvalidWitness.description(), m);
}
