//! The fully collision-resistant chameleon hash of DSS'20, built from ElGamal
//! encryption and an OR-composed, Fiat-Shamir transformed proof.
use vstd::prelude::*;
use crate::text::{decimal_text, push_decimal_text};
use crate::chameleon_hashing::{ChameleonHash, Error};
use crate::encryption::elgamal::{
    elgamal_encryption, ElGamal, ElGamalCiphertext, ElGamalMessage, ElGamalPublicKey, ElGamalSecretKey,
};
use crate::encryption::{EncryptionScheme, PublicKey};
use crate::encryption::Error as EncryptionError;
use crate::group::{lemma_zmod_add_sub, lemma_zmod_bound, lemma_zmod_small, ristretto_multiple, zmod};
use crate::zkproofs::sigma_protocols::dlog::{dlog_equation, Dlog};
use crate::zkproofs::sigma_protocols::dlogeq::{DlogEq, DlogEqStatement, DlogEqWitness};
use crate::zkproofs::sigma_protocols::fiat_shamir::{fs_challenge, FsConvertibleSigmaProtocol};
use crate::zkproofs::sigma_protocols::or_composition::OrComposedProof;
use crate::zkproofs::sigma_protocols::Error as SigmaProtocolError;
use crate::zkproofs::Error as ProofSystemError;
use crate::zkproofs::{DlOrDlEq, FsProofSystem};

verus! {

pub struct DssPkc20;

#[derive(Debug)]
pub enum DssPkc20Error {
    /// Encapsulates all errors caused by failures related to the used proof system.
    ProofSystemError(ProofSystemError),
    /// Encapsulates all errors caused by failures related to the used sigma protocol system.
    SigmaProtocolError(SigmaProtocolError),
    /// Encapsulates errors related to invalid hashes returned by functions where a valid
    /// hash is a precondition.
    InvalidHashError(String),
}

impl DssPkc20Error {
    /// A description of the error.
    pub fn description(&self) -> (r: String)
        ensures
            r@ == "daaaaamn this went wrong"@,
    {
        String::from_str("daaaaamn this went wrong")
    }
}

impl Error<DssPkc20Error> {
    /// A description of the error.
    pub fn description(&self) -> (r: String)
        ensures
            match self {
                Error::UnsupportedKeyLength(key_len) => r@ == "Given key length ("@ + decimal_text(
                    *key_len as nat,
                ) + " bytes) not supported"@,
                Error::ImplementationSpecificError(_) => r@ == "daaaaamn this went wrong"@,
            },
    {
        match self {
            Error::UnsupportedKeyLength(key_len) => {
                let mut r = String::from_str("Given key length (");
                push_decimal_text(*key_len, &mut r);
                r.append(" bytes) not supported");
                r
            },
            Error::ImplementationSpecificError(e) => e.description(),
        }
    }
}

/// The bytes that the statement `(B, pk) ∨ (B, c1, pk, c2 - m)` is hashed as.
pub open spec fn dss_statement_input(pk: nat, m: nat, c1: nat, c2: nat) -> Seq<u8> {
    (ristretto_multiple(1) + ristretto_multiple(pk)) + (ristretto_multiple(1) + ristretto_multiple(c1)
        + ristretto_multiple(pk) + ristretto_multiple(zmod(c2 - m) as nat))
}

/// `p` is a valid randomness for the hash `(c1, c2)` of the message `m` under
/// the public key `pk`: it is a Fiat-Shamir proof that the prover knows the
/// secret key of `pk` or that `(c1, c2)` encrypts `m` under `pk`.
pub open spec fn dss_valid(pk: nat, m: nat, c1: nat, c2: nat, p: OrComposedProof<Dlog, DlogEq>) -> bool {
    let com = p.commitment;
    let rsp = p.response;
    let ch = fs_challenge(
        DlOrDlEq::spec_domain_separator(),
        dss_statement_input(pk, m, c1, c2) + (com.0.spec_hash_input() + com.1.spec_hash_input()),
    );
    let ch2 = zmod(ch - rsp.0@) as nat;
    &&& dlog_equation(1, pk, com.0@, rsp.0@, rsp.1@)
    &&& dlog_equation(1, c1, com.1@.0, ch2, rsp.2@)
    &&& dlog_equation(pk, zmod(c2 - m) as nat, com.1@.1, ch2, rsp.2@)
}

impl DssPkc20 {
    /// The statement `(B, pk) ∨ (B, c1, pk, c2 - m)` that the randomness proves.
    fn statement(
        public_key: &ElGamalPublicKey,
        message: ElGamalMessage,
        hash: &ElGamalCiphertext,
    ) -> (x: crate::zkproofs::sigma_protocols::or_composition::OrComposedStatement<Dlog, DlogEq>)
        ensures
            x.s1@ == (1nat, public_key@),
            x.s2@ == (1nat, hash@.0, public_key@, zmod(hash@.1 - message@) as nat),
            forall|p: OrComposedProof<Dlog, DlogEq>|
                <DlOrDlEq as FsProofSystem>::spec_verify(x, p)
                    == #[trigger] dss_valid(public_key@, message@, hash@.0, hash@.1, p),
    {
        let x1 = public_key.to_dlog_statement();
        let x2 = DlogEqStatement::from(ElGamal::prepare_well_formedness_proof(*public_key, *hash, message));
        DlOrDlEq::compile_statement(x1, x2)
    }
}

/// Implementation of the fully collision-resistant chameleon-hash from
/// [DSS'20](https://eprint.iacr.org/2020/403.pdf). The key pair is an ElGamal
/// key pair, the hash is an ElGamal ciphertext, and the randomness is a proof
/// from the OR composition of the discrete-logarithm and the
/// discrete-logarithm-equality Sigma protocols, Fiat-Shamir transformed.
impl ChameleonHash for DssPkc20 {
    /// The secret key of this scheme is an ElGamal secret key.
    type SK = ElGamalSecretKey;

    /// The public key of this scheme is an ElGamal public key.
    type PK = ElGamalPublicKey;

    /// The message space of this scheme is the ElGamal message space.
    type MSG = ElGamalMessage;

    /// The randomness are proofs from an OR-composed Fiat-Shamir transformed
    /// Sigma protocol.
    type RND = OrComposedProof<Dlog, DlogEq>;

    /// The hashes are ElGamal ciphertexts.
    type CH = ElGamalCiphertext;

    /// The implementation specific error, which encapsulates the errors from
    /// the involved primitives.
    type E = DssPkc20Error;

    fn key_gen(key_len: u32, rng: &mut rand::rngs::ThreadRng) -> (r: Result<(ElGamalSecretKey, ElGamalPublicKey), Error<DssPkc20Error>>)
        ensures
            r is Ok <==> key_len == 32,
            r matches Ok(kp) ==> kp.1@ == kp.0@,
            r matches Err(e) ==> e == Error::<DssPkc20Error>::UnsupportedKeyLength(key_len),
    {
        match ElGamal::key_gen(key_len, rng) {
            Ok(key_pair) => Ok(key_pair),
            Err(EncryptionError::UnsupportedKeyLength(k)) => Err(Error::UnsupportedKeyLength(k)),
        }
    }

    /// Hashing never fails: the hash is an ElGamal encryption of the message
    /// (with randomness `r`, the discrete logarithm of its first element), and
    /// the randomness returned is valid for it.
    fn hash(public_key: &ElGamalPublicKey, message: ElGamalMessage, rng: &mut rand::rngs::ThreadRng) -> (r: Result<(ElGamalCiphertext, OrComposedProof<Dlog, DlogEq>), Error<DssPkc20Error>>)
        ensures
            r is Ok,
            r matches Ok(hp) ==> hp.0@ == elgamal_encryption(public_key@, message@, hp.0@.0)
                && dss_valid(public_key@, message@, hp.0@.0, hp.0@.1, hp.1),
    {
        let (c, r) = ElGamal::encrypt_reveal_randomness(public_key, &message, rng);
        let x = DssPkc20::statement(public_key, message, &c);
        let w2 = DlogEqWitness::new(r);
        proof {
            lemma_zmod_small(r@ as int);
            lemma_zmod_bound(public_key@ * r@ as int);
            lemma_zmod_add_sub(message@ as int, zmod(public_key@ * r@ as int));
        }
        let w = match DlOrDlEq::compile_witness(None, Some(w2)) {
            Ok(w) => w,
            Err(e) => return Err(Error::ImplementationSpecificError(DssPkc20Error::SigmaProtocolError(e))),
        };
        let p = match <DlOrDlEq as FsProofSystem>::prove(&x, &w, rng) {
            Ok(p) => p,
            Err(e) => return Err(Error::ImplementationSpecificError(DssPkc20Error::ProofSystemError(e))),
        };
        Ok((c, p))
    }

    fn check(public_key: &ElGamalPublicKey, message: ElGamalMessage, randomness: &OrComposedProof<Dlog, DlogEq>, hash: &ElGamalCiphertext) -> (b: bool)
        ensures
            b == dss_valid(public_key@, message@, hash@.0, hash@.1, *randomness),
    {
        let x = DssPkc20::statement(public_key, message, hash);
        <DlOrDlEq as FsProofSystem>::verify(&x, randomness)
    }

    /// Adapting fails exactly when the randomness is not valid for the old
    /// message; otherwise the new randomness is valid for the new message and
    /// the same hash.
    fn adapt(
        secret_key: &ElGamalSecretKey,
        old_message: &ElGamalMessage,
        new_message: &ElGamalMessage,
        randomness: &OrComposedProof<Dlog, DlogEq>,
        hash: &ElGamalCiphertext,
        rng: &mut rand::rngs::ThreadRng,
    ) -> (r: Result<OrComposedProof<Dlog, DlogEq>, Error<DssPkc20Error>>)
        ensures
            r is Ok <==> dss_valid(secret_key@, old_message@, hash@.0, hash@.1, *randomness),
            r matches Ok(p) ==> dss_valid(secret_key@, new_message@, hash@.0, hash@.1, p),
            r matches Err(e) ==> e matches Error::ImplementationSpecificError(DssPkc20Error::InvalidHashError(msg))
                && msg@ == "Hash supplied to adapt is invalid"@,
    {
        let pk = ElGamalPublicKey::from_secret(secret_key);
        if !Self::check(&pk, *old_message, randomness, hash) {
            return Err(Error::ImplementationSpecificError(
                DssPkc20Error::InvalidHashError(String::from_str("Hash supplied to adapt is invalid")),
            ));
        }
        let x = DssPkc20::statement(&pk, *new_message, hash);
        let w1 = secret_key.to_dlog_witness();
        proof {
            secret_key.lemma_bound();
            lemma_zmod_small(secret_key@ as int);
        }
        let w = match DlOrDlEq::compile_witness(Some(w1), None) {
            Ok(w) => w,
            Err(e) => return Err(Error::ImplementationSpecificError(DssPkc20Error::SigmaProtocolError(e))),
        };
        let p = match <DlOrDlEq as FsProofSystem>::prove(&x, &w, rng) {
            Ok(p) => p,
            Err(e) => return Err(Error::ImplementationSpecificError(DssPkc20Error::ProofSystemError(e))),
        };
        Ok(p)
    }
}

} // verus!
