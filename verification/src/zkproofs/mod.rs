//! Zero-knowledge proofs: Sigma protocols, the Fiat-Shamir transformation,
//! compositions.
use vstd::prelude::*;
use crate::zkproofs::sigma_protocols::dlog::Dlog;
use crate::zkproofs::sigma_protocols::dlogeq::DlogEq;
use crate::zkproofs::sigma_protocols::fiat_shamir::FsConvertibleSigmaProtocol;
use crate::zkproofs::sigma_protocols::or_composition::OrComposedSigmaProtocol;
use crate::zkproofs::sigma_protocols::Error as SigmaProtocolError;
use crate::zkproofs::sigma_protocols::SigmaProtocol;
use crate::zkproofs::sigma_protocols::or_composition::{OrComposedCommitment, OrComposedStatement};
use crate::group::{group_order, le_nat, ristretto_multiple};
use crate::hashing::{separator_of, sha512_digest, Hashable};

/// Sigma protocols, transformations, compositions, ...
pub mod sigma_protocols;

verus! {

#[derive(Debug)]
pub enum Error {
    /// The given witness is not a valid witness for the statement in question.
    InvalidWitness,
}

impl Error {
    /// A description of the error.
    pub fn description(&self) -> (r: String)
        ensures
            r@ == "The given witness does not attest membership of the statement in the language."@,
    {
        String::from_str("The given witness does not attest membership of the statement in the language.")
    }

    /// The proof-system error that corresponds to a Sigma-protocol error.
    pub fn from_sigma_protocol_error(error: SigmaProtocolError) -> (r: Error)
        ensures
            r == Error::InvalidWitness,
    {
        match error {
            SigmaProtocolError::InvalidWitness => Error::InvalidWitness,
        }
    }
}

/// Represents a [Fiat-Shamir](https://doi.org/10.1007%2F3-540-68339-9_33)
/// transformed proof system over SHA-512.
///
/// A proof system for a language `S` with witness relation `R` computes proofs
/// that attest that a statement is in `S` and verifies those proofs.
pub trait FsProofSystem {
    /// The space the statements to be proven live in
    type S;
    /// The space the witnesses live in
    type W;
    /// The space the proofs live in
    type P;

    /// `w` is a witness for `s` that the prover can use.
    spec fn spec_witness_valid(s: Self::S, w: Self::W) -> bool;

    /// `verify` accepts `p` for `s`.
    spec fn spec_verify(s: Self::S, p: Self::P) -> bool;

    /// Takes a statement `statement`, a witness `witness`, and a RNG `rng`,
    /// and returns a proof. It fails if the witness does not attest membership
    /// of the given statement in the language. Every proof it returns verifies.
    fn prove(statement: &Self::S, witness: &Self::W, rng: &mut rand::rngs::ThreadRng) -> (r: Result<Self::P, Error>)
        ensures
            r is Ok <==> Self::spec_witness_valid(*statement, *witness),
            r matches Ok(p) ==> Self::spec_verify(*statement, p),
    ;

    /// Takes a statement `statement` and a proof `proof`, and returns
    /// `true` if the proof is valid w.r.t. the statement and `false`
    /// otherwise.
    fn verify(statement: &Self::S, proof: &Self::P) -> (b: bool)
        ensures
            b == Self::spec_verify(*statement, *proof),
    ;
}

/// A generic implementation of a `FsProofSystem` for any `SigmaProtocol` that
/// implements the `FsConvertibleSigmaProtocol` trait: the challenge is the hash
/// of the statement and the commitment.
impl<SP: FsConvertibleSigmaProtocol> FsProofSystem for SP {
    type S = SP::S;
    type W = SP::W;
    type P = SP::FSP;

    open spec fn spec_witness_valid(s: SP::S, w: SP::W) -> bool {
        SP::witness_valid(s, w)
    }

    /// The transcript in the proof is accepted for the challenge that the
    /// statement and the commitment hash to.
    open spec fn spec_verify(s: SP::S, p: SP::FSP) -> bool {
        SP::accepts(
            s,
            SP::proof_commitment(p),
            SP::spec_hash_challenge(s, SP::proof_commitment(p)),
            SP::proof_response(p),
        )
    }

    fn prove(statement: &SP::S, witness: &SP::W, rng: &mut rand::rngs::ThreadRng) -> (r: Result<SP::FSP, Error>) {
        let (com, st) = match SP::commit(statement, witness, rng) {
            Ok(cs) => cs,
            Err(e) => return Err(Error::from_sigma_protocol_error(e)),
        };
        let ch = SP::hash_challenge(statement, &com);
        let rsp = SP::response(statement, witness, &ch, st);
        let p = SP::compile_proof(com, rsp);
        proof {
            lemma_fs_completeness::<SP>(*statement, *witness, com, st, rsp, p);
        }
        Ok(p)
    }

    fn verify(statement: &SP::S, proof: &SP::FSP) -> (b: bool) {
        let (commitment, response) = SP::unwrap_proof(proof);
        let ch = SP::hash_challenge(statement, commitment);
        SP::check(statement, commitment, &ch, response)
    }
}

/// Completeness of the Fiat-Shamir transform: a proof made of an honest
/// commitment and the honest response to the challenge that the statement and
/// that commitment hash to is accepted by `verify`.
pub proof fn lemma_fs_completeness<SP: FsConvertibleSigmaProtocol>(
    s: SP::S,
    w: SP::W,
    com: SP::COM,
    st: SP::ST,
    rsp: SP::RSP,
    p: SP::FSP,
)
    requires
        SP::witness_valid(s, w),
        SP::committed(s, w, com, st),
        SP::responds(s, w, SP::spec_hash_challenge(s, com), st, rsp),
        SP::proof_commitment(p) == com,
        SP::proof_response(p) == rsp,
    ensures
        <SP as FsProofSystem>::spec_verify(s, p),
{
    SP::lemma_hash_challenge_bound(s, com);
    SP::lemma_completeness(s, w, com, st, SP::spec_hash_challenge(s, com), rsp);
}

/// What hashing feeds for the OR composition of the two protocols: a statement
/// feeds the encodings of `(g, h)` of the first statement and then of
/// `(g_1, h_1, g_2, h_2)` of the second, a commitment the encoding of the first
/// commitment's `c1` and then of the second's `c1` and `c2`, and the
/// Fiat-Shamir challenge is the reduced SHA-512 digest of the separator made
/// from `"or_composition(dlog,dlogeq)"` followed by all nine encodings.
pub proof fn lemma_dl_or_dleq_hash_layout<H: crate::hashing::Hash>(
    x: OrComposedStatement<Dlog, DlogEq>,
    com: OrComposedCommitment<Dlog, DlogEq>,
)
    ensures
        <OrComposedStatement<Dlog, DlogEq> as Hashable<H>>::hash_input(&x) == ristretto_multiple(x.s1@.0)
            + ristretto_multiple(x.s1@.1) + ristretto_multiple(x.s2@.0) + ristretto_multiple(x.s2@.1)
            + ristretto_multiple(x.s2@.2) + ristretto_multiple(x.s2@.3),
        <OrComposedCommitment<Dlog, DlogEq> as Hashable<H>>::hash_input(&com) == ristretto_multiple(com.0@)
            + ristretto_multiple(com.1@.0) + ristretto_multiple(com.1@.1),
        <DlOrDlEq as FsConvertibleSigmaProtocol>::spec_hash_challenge(x, com) == le_nat(sha512_digest(
            separator_of("or_composition(dlog,dlogeq)"@)
                + (ristretto_multiple(x.s1@.0) + ristretto_multiple(x.s1@.1) + ristretto_multiple(x.s2@.0)
                + ristretto_multiple(x.s2@.1) + ristretto_multiple(x.s2@.2) + ristretto_multiple(x.s2@.3)
                + ristretto_multiple(com.0@) + ristretto_multiple(com.1@.0) + ristretto_multiple(com.1@.1)),
        )) % group_order(),
{
    crate::zkproofs::sigma_protocols::dlog::lemma_dlog_hash_layout::<H>(x.s1, com.0);
    crate::zkproofs::sigma_protocols::dlogeq::lemma_dlogeq_hash_layout::<H>(x.s2, com.1);
    crate::zkproofs::sigma_protocols::dlog::lemma_dlog_hash_layout::<crate::hashing::Sha512Hasher>(x.s1, com.0);
    crate::zkproofs::sigma_protocols::dlogeq::lemma_dlogeq_hash_layout::<crate::hashing::Sha512Hasher>(x.s2, com.1);
    reveal_strlit("or_composition(dlog,dlogeq)");
    reveal_strlit("or_composition(");
    reveal_strlit(",");
    reveal_strlit(")");
    assert(<DlOrDlEq as FsConvertibleSigmaProtocol>::spec_domain_separator() =~= "or_composition(dlog,dlogeq)"@);
    assert(<OrComposedStatement<Dlog, DlogEq> as Hashable<H>>::hash_input(&x) =~= ristretto_multiple(x.s1@.0)
        + ristretto_multiple(x.s1@.1) + ristretto_multiple(x.s2@.0) + ristretto_multiple(x.s2@.1)
        + ristretto_multiple(x.s2@.2) + ristretto_multiple(x.s2@.3));
    assert(<OrComposedCommitment<Dlog, DlogEq> as Hashable<H>>::hash_input(&com) =~= ristretto_multiple(com.0@)
        + ristretto_multiple(com.1@.0) + ristretto_multiple(com.1@.1));
    assert(<OrComposedStatement<Dlog, DlogEq> as Hashable<crate::hashing::Sha512Hasher>>::hash_input(&x)
        + <OrComposedCommitment<Dlog, DlogEq> as Hashable<crate::hashing::Sha512Hasher>>::hash_input(&com)
        =~= ristretto_multiple(x.s1@.0) + ristretto_multiple(x.s1@.1) + ristretto_multiple(x.s2@.0)
        + ristretto_multiple(x.s2@.1) + ristretto_multiple(x.s2@.2) + ristretto_multiple(x.s2@.3)
        + ristretto_multiple(com.0@) + ristretto_multiple(com.1@.0) + ristretto_multiple(com.1@.1));
}

/// The OR composition of the discrete-logarithm and the discrete-logarithm-equality protocols.
pub type DlOrDlEq = OrComposedSigmaProtocol<Dlog, DlogEq>;

} // verus!
