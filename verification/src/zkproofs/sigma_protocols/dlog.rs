//! The Sigma protocol for knowledge of a discrete logarithm.
use vstd::prelude::*;
use crate::group::{
    group_order, le_nat,
    lemma_point_bound, lemma_schnorr_extraction, lemma_schnorr_equation, lemma_simulated_equation, ristretto_multiple, scalar_from_hash, zmod,
    Point, Scalar,
};
use crate::hashing::{separator_of, sha512_digest, DomainSeparator, Hashable, Sha512Hasher};
use crate::zkproofs::sigma_protocols::fiat_shamir::{fs_challenge, lemma_fs_challenge_bound, FsConvertibleSigmaProtocol};
use crate::zkproofs::sigma_protocols::{Challenge, Error, SigmaProtocol, SimulatorState};

verus! {

pub struct Dlog;

/// A statement `(g_1, h_1)`: the claim that `h_1 = x·g_1` for some `x`.
#[derive(Clone, Copy, Debug)]
pub struct DlogStatement {
    g_1: Point,
    h_1: Point,
}

/// A witness `x`.
#[derive(Clone, Copy, Debug)]
pub struct DlogWitness {
    x: Scalar,
}

/// The prover's first message `c1 = r·g_1`.
#[derive(Clone, Copy, Debug)]
pub struct DlogCommitment {
    c1: Point,
}

/// The prover's random coins `r`.
#[derive(Clone, Copy, Debug)]
pub struct DlogProverState(Scalar);

/// The prover's response `z = r + x·c`.
#[derive(Clone, Copy, Debug)]
pub struct DlogResponse(Scalar);

#[derive(Clone, Copy, Debug)]
pub struct DlogSimulatorState {
    challenge: Challenge,
    response: DlogResponse,
}

pub struct DlogProof {
    commitment: DlogCommitment,
    response: DlogResponse,
}

/// A statement is viewed as the discrete logarithms `(g_1, h_1)` of its elements.
impl View for DlogStatement {
    type V = (nat, nat);

    closed spec fn view(&self) -> (nat, nat) {
        (self.g_1@, self.h_1@)
    }
}

impl View for DlogWitness {
    type V = nat;

    closed spec fn view(&self) -> nat {
        self.x@
    }
}

impl View for DlogCommitment {
    type V = nat;

    closed spec fn view(&self) -> nat {
        self.c1@
    }
}

impl View for DlogProverState {
    type V = nat;

    closed spec fn view(&self) -> nat {
        self.0@
    }
}

impl View for DlogResponse {
    type V = nat;

    closed spec fn view(&self) -> nat {
        self.0@
    }
}

impl View for DlogSimulatorState {
    type V = (nat, nat);

    closed spec fn view(&self) -> (nat, nat) {
        (self.challenge@, self.response@)
    }
}

impl DlogProof {
    pub closed spec fn spec_commitment(self) -> DlogCommitment {
        self.commitment
    }

    pub closed spec fn spec_response(self) -> DlogResponse {
        self.response
    }
}

/// `h = x·g`.
pub open spec fn dlog_relation(g: nat, h: nat, x: nat) -> bool {
    h == zmod(g * x as int)
}

/// The verification equation `z·g = c + ch·h`.
pub open spec fn dlog_equation(g: nat, h: nat, c: nat, ch: nat, z: nat) -> bool {
    zmod(g * z as int) == zmod(c + zmod(h * ch as int))
}

/// What hashing feeds for the discrete-logarithm protocol: a statement feeds
/// the encodings of `g_1` and `h_1`, a commitment the encoding of `c1`, and the
/// Fiat-Shamir challenge is the reduced SHA-512 digest of the separator made
/// from `"dlog"` followed by all three encodings.
pub proof fn lemma_dlog_hash_layout<H: crate::hashing::Hash>(s: DlogStatement, com: DlogCommitment)
    ensures
        <DlogStatement as Hashable<H>>::hash_input(&s) == ristretto_multiple(s@.0) + ristretto_multiple(s@.1),
        <DlogCommitment as Hashable<H>>::hash_input(&com) == ristretto_multiple(com@),
        <Dlog as FsConvertibleSigmaProtocol>::spec_hash_challenge(s, com) == le_nat(sha512_digest(
            separator_of(seq!['d', 'l', 'o', 'g'])
                + (ristretto_multiple(s@.0) + ristretto_multiple(s@.1) + ristretto_multiple(com@)),
        )) % group_order(),
{
}

/// Special soundness: from two transcripts for one statement that share the
/// commitment, are both accepted, and have challenges whose difference is
/// invertible with inverse `inv`, the witness `(rsp1 - rsp2)·inv` is extracted.
pub proof fn lemma_dlog_special_soundness(
    s: DlogStatement,
    com: DlogCommitment,
    ch1: nat,
    rsp1: DlogResponse,
    ch2: nat,
    rsp2: DlogResponse,
    inv: nat,
)
    requires
        <Dlog as SigmaProtocol>::accepts(s, com, ch1, rsp1),
        <Dlog as SigmaProtocol>::accepts(s, com, ch2, rsp2),
        zmod(inv * (ch1 - ch2)) == 1,
    ensures
        dlog_relation(s@.0, s@.1, zmod((rsp1@ - rsp2@) * inv) as nat),
{
    lemma_point_bound(s.h_1);
    lemma_schnorr_extraction(
        s@.0 as int,
        s@.1 as int,
        com@ as int,
        ch1 as int,
        rsp1@ as int,
        ch2 as int,
        rsp2@ as int,
        inv as int,
    );
    crate::group::lemma_zmod_bound((rsp1@ - rsp2@) * inv);
}

impl DlogStatement {
    pub fn new(g_1: Point, h_1: Point) -> (r: Self)
        ensures
            r@ == (g_1@, h_1@),
    {
        DlogStatement { g_1, h_1 }
    }

    /// Returns `true` iff `witness` is a discrete logarithm of `h_1` to the base `g_1`.
    pub fn verify(&self, witness: &DlogWitness) -> (b: bool)
        ensures
            b == dlog_relation(self@.0, self@.1, witness@),
    {
        let h_1_vfy = self.g_1.mul(&witness.x);
        self.h_1.equals(&h_1_vfy)
    }

    /// The bytes that hashing this statement feeds to a hash state.
    pub open spec fn spec_hash_input(self) -> Seq<u8> {
        ristretto_multiple(self@.0) + ristretto_multiple(self@.1)
    }
}

impl DlogWitness {
    pub fn new(x: Scalar) -> (r: Self)
        ensures
            r@ == x@,
    {
        DlogWitness { x }
    }
}

impl From<Scalar> for DlogWitness {
    fn from(scalar: Scalar) -> (r: DlogWitness)
        ensures
            r@ == scalar@,
    {
        DlogWitness { x: scalar }
    }
}

impl vstd::std_specs::convert::FromSpecImpl<Scalar> for DlogWitness {
    open spec fn obeys_from_spec() -> bool {
        true
    }

    closed spec fn from_spec(v: Scalar) -> DlogWitness {
        DlogWitness { x: v }
    }
}

impl DlogCommitment {
    pub open spec fn spec_hash_input(self) -> Seq<u8> {
        ristretto_multiple(self@)
    }
}

impl<H: crate::hashing::Hash> Hashable<H> for DlogStatement {
    open spec fn hash_input(&self) -> Seq<u8> {
        self.spec_hash_input()
    }

    fn hash(&self, state: &mut H) {
        let g = self.g_1.to_bytes();
        let h = self.h_1.to_bytes();
        state.update(&g);
        state.update(&h);
        assert(final(state).absorbed() =~= old(state).absorbed() + self.spec_hash_input());
    }
}

impl<H: crate::hashing::Hash> Hashable<H> for DlogCommitment {
    open spec fn hash_input(&self) -> Seq<u8> {
        self.spec_hash_input()
    }

    fn hash(&self, state: &mut H) {
        let c = self.c1.to_bytes();
        state.update(&c);
    }
}

impl SimulatorState for DlogSimulatorState {
    type RSP = DlogResponse;

    open spec fn sim_challenge(&self) -> nat {
        self@.0
    }

    open spec fn sim_response(&self, rsp: DlogResponse) -> bool {
        rsp@ == self@.1
    }

    proof fn lemma_sim_challenge_bound(&self) {
        crate::zkproofs::sigma_protocols::lemma_challenge_bound(self.challenge);
    }

    fn decompose(self) -> (r: (Challenge, DlogResponse)) {
        (self.challenge, self.response)
    }
}

/// Implementation of a Sigma protocol for the language
/// `S = { (g_1, h_1) | ∃ x : g_1^x = h_1 }`, where `g_1` and `h_1`
/// are elements of the underlying group.
impl SigmaProtocol for Dlog {
    type S = DlogStatement;
    type W = DlogWitness;
    type COM = DlogCommitment;
    type ST = DlogProverState;
    type RSP = DlogResponse;
    type STS = DlogSimulatorState;

    open spec fn witness_valid(s: DlogStatement, w: DlogWitness) -> bool {
        dlog_relation(s@.0, s@.1, w@)
    }

    open spec fn accepts(s: DlogStatement, com: DlogCommitment, ch: nat, rsp: DlogResponse) -> bool {
        dlog_equation(s@.0, s@.1, com@, ch, rsp@)
    }

    open spec fn committed(s: DlogStatement, w: DlogWitness, com: DlogCommitment, st: DlogProverState) -> bool {
        com@ == zmod(s@.0 * st@ as int)
    }

    open spec fn response_defined(w: DlogWitness, st: DlogProverState) -> bool {
        true
    }

    open spec fn responds(s: DlogStatement, w: DlogWitness, ch: nat, st: DlogProverState, rsp: DlogResponse) -> bool {
        rsp@ == zmod(st@ + zmod(w@ * ch as int))
    }

    proof fn lemma_completeness(s: DlogStatement, w: DlogWitness, com: DlogCommitment, st: DlogProverState, ch: nat, rsp: DlogResponse) {
        lemma_schnorr_equation(s@.0 as int, s@.1 as int, w@ as int, st@ as int, ch as int);
    }

    fn commit(statement: &DlogStatement, witness: &DlogWitness, rng: &mut rand::rngs::ThreadRng) -> (r: Result<(DlogCommitment, DlogProverState), Error>) {
        if !statement.verify(witness) {
            return Err(Error::InvalidWitness);
        }
        let r = Scalar::random(rng);
        let c1 = statement.g_1.mul(&r);
        let state = DlogProverState(r);
        let commitments = DlogCommitment { c1 };
        Ok((commitments, state))
    }

    fn challenge(rng: &mut rand::rngs::ThreadRng) -> (r: Challenge) {
        Challenge::random(rng)
    }

    fn response(statement: &DlogStatement, witness: &DlogWitness, challenge: &Challenge, state: DlogProverState) -> (r: DlogResponse) {
        let ch = challenge.scalar();
        let xc = witness.x.times(&ch);
        DlogResponse(state.0.plus(&xc))
    }

    fn check(statement: &DlogStatement, commitment: &DlogCommitment, challenge: &Challenge, response: &DlogResponse) -> (b: bool) {
        let g_1s = statement.g_1.mul(&response.0);
        let ch = challenge.scalar();
        let g_1v = commitment.c1.add(&statement.h_1.mul(&ch));
        g_1s.equals(&g_1v)
    }

    fn simulate(statement: &DlogStatement, rng: &mut rand::rngs::ThreadRng) -> (r: (DlogCommitment, DlogSimulatorState)) {
        let ch = Scalar::random(rng);
        let rsp = Scalar::random(rng);
        let com = statement.g_1.mul(&rsp).sub(&statement.h_1.mul(&ch));
        proof {
            lemma_simulated_equation(statement@.0 as int, statement@.1 as int, rsp@ as int, ch@ as int);
        }
        (
            DlogCommitment { c1: com },
            DlogSimulatorState { challenge: Challenge::from_scalar(ch), response: DlogResponse(rsp) },
        )
    }
}

/// Implementation of the FS conversion related functionality for a Sigma protocol
/// for the language `S = { (g_1, h_1) | ∃ x : g_1^x = h_1 }`.
impl FsConvertibleSigmaProtocol for Dlog {
    type FSP = DlogProof;

    open spec fn spec_domain_separator() -> Seq<char> {
        seq!['d', 'l', 'o', 'g']
    }

    open spec fn spec_hash_challenge(s: DlogStatement, com: DlogCommitment) -> nat {
        fs_challenge(Self::spec_domain_separator(), s.spec_hash_input() + com.spec_hash_input())
    }

    proof fn lemma_hash_challenge_bound(s: DlogStatement, com: DlogCommitment) {
        lemma_fs_challenge_bound(Self::spec_domain_separator(), s.spec_hash_input() + com.spec_hash_input());
    }

    open spec fn proof_commitment(p: DlogProof) -> DlogCommitment {
        p.spec_commitment()
    }

    open spec fn proof_response(p: DlogProof) -> DlogResponse {
        p.spec_response()
    }

    fn domain_separator() -> (r: String) {
        let r = String::from_str("dlog");
        proof {
            reveal_strlit("dlog");
        }
        assert(r@ =~= seq!['d', 'l', 'o', 'g']);
        r
    }

    fn hash_challenge(statement: &DlogStatement, commitment: &DlogCommitment) -> (ch: Challenge) {
        let dom_sep = DomainSeparator::from_string(Self::domain_separator());
        let mut h = <Sha512Hasher as crate::hashing::Hash>::new_with_separator(dom_sep);
        statement.hash(&mut h);
        commitment.hash(&mut h);
        assert(crate::hashing::Hash::absorbed(&h) =~= separator_of(Self::spec_domain_separator()) + (statement.spec_hash_input() + commitment.spec_hash_input()));
        Challenge::from_scalar(scalar_from_hash(h))
    }

    fn compile_proof(commitment: DlogCommitment, response: DlogResponse) -> (p: DlogProof) {
        DlogProof { commitment, response }
    }

    fn unwrap_proof(proof: &DlogProof) -> (r: (&DlogCommitment, &DlogResponse)) {
        (&proof.commitment, &proof.response)
    }
}

} // verus!
