//! The Sigma protocol for equality of two discrete logarithms.
use vstd::prelude::*;
use crate::group::{
    group_order, le_nat,
    lemma_point_bound, lemma_schnorr_extraction, lemma_zmod_bound, lemma_schnorr_equation, lemma_simulated_equation, ristretto_multiple, scalar_from_hash, zmod,
    Point, Scalar,
};
use crate::hashing::{separator_of, sha512_digest, DomainSeparator, Hashable, Sha512Hasher};
use crate::zkproofs::sigma_protocols::dlog::{dlog_equation, dlog_relation};
use crate::zkproofs::sigma_protocols::fiat_shamir::{fs_challenge, lemma_fs_challenge_bound, FsConvertibleSigmaProtocol};
use crate::zkproofs::sigma_protocols::{Challenge, Error, SigmaProtocol, SimulatorState};

verus! {

pub struct DlogEq;

/// A statement `(g_1, h_1, g_2, h_2)`: the claim that `h_1 = x·g_1` and
/// `h_2 = x·g_2` for one `x`.
#[derive(Clone, Copy, Debug)]
pub struct DlogEqStatement {
    g_1: Point,
    h_1: Point,
    g_2: Point,
    h_2: Point,
}

/// A witness `x`.
#[derive(Clone, Copy, Debug)]
pub struct DlogEqWitness {
    x: Scalar,
}

/// The prover's first message `(r·g_1, r·g_2)`.
#[derive(Clone, Copy, Debug)]
pub struct DlogEqCommitment {
    c1: Point,
    c2: Point,
}

/// The prover's random coins `r`.
#[derive(Clone, Copy, Debug)]
pub struct DlogEqProverState(Scalar);

/// The prover's response `z = r + x·c`.
#[derive(Clone, Copy, Debug)]
pub struct DlogEqResponse(Scalar);

pub struct DlogEqProof {
    commitment: DlogEqCommitment,
    response: DlogEqResponse,
}

#[derive(Clone, Copy, Debug)]
pub struct DlogEqSimulatorState {
    challenge: Challenge,
    response: DlogEqResponse,
}

/// A statement is viewed as the discrete logarithms `(g_1, h_1, g_2, h_2)` of its elements.
impl View for DlogEqStatement {
    type V = (nat, nat, nat, nat);

    closed spec fn view(&self) -> (nat, nat, nat, nat) {
        (self.g_1@, self.h_1@, self.g_2@, self.h_2@)
    }
}

impl View for DlogEqWitness {
    type V = nat;

    closed spec fn view(&self) -> nat {
        self.x@
    }
}

impl View for DlogEqCommitment {
    type V = (nat, nat);

    closed spec fn view(&self) -> (nat, nat) {
        (self.c1@, self.c2@)
    }
}

impl View for DlogEqProverState {
    type V = nat;

    closed spec fn view(&self) -> nat {
        self.0@
    }
}

impl View for DlogEqResponse {
    type V = nat;

    closed spec fn view(&self) -> nat {
        self.0@
    }
}

impl View for DlogEqSimulatorState {
    type V = (nat, nat);

    closed spec fn view(&self) -> (nat, nat) {
        (self.challenge@, self.response@)
    }
}

impl DlogEqProof {
    pub closed spec fn spec_commitment(self) -> DlogEqCommitment {
        self.commitment
    }

    pub closed spec fn spec_response(self) -> DlogEqResponse {
        self.response
    }
}

/// What hashing feeds for the discrete-logarithm-equality protocol: a
/// statement feeds the encodings of `g_1`, `h_1`, `g_2`, `h_2` in that order, a
/// commitment those of `c1` and `c2`, and the Fiat-Shamir challenge is the
/// reduced SHA-512 digest of the separator made from `"dlogeq"` followed by all
/// six encodings.
pub proof fn lemma_dlogeq_hash_layout<H: crate::hashing::Hash>(s: DlogEqStatement, com: DlogEqCommitment)
    ensures
        <DlogEqStatement as Hashable<H>>::hash_input(&s) == ristretto_multiple(s@.0) + ristretto_multiple(s@.1)
            + ristretto_multiple(s@.2) + ristretto_multiple(s@.3),
        <DlogEqCommitment as Hashable<H>>::hash_input(&com) == ristretto_multiple(com@.0) + ristretto_multiple(com@.1),
        <DlogEq as FsConvertibleSigmaProtocol>::spec_hash_challenge(s, com) == le_nat(sha512_digest(
            separator_of(seq!['d', 'l', 'o', 'g', 'e', 'q'])
                + (ristretto_multiple(s@.0) + ristretto_multiple(s@.1) + ristretto_multiple(s@.2)
                + ristretto_multiple(s@.3) + ristretto_multiple(com@.0) + ristretto_multiple(com@.1)),
        )) % group_order(),
{
    assert(s.spec_hash_input() + com.spec_hash_input() =~= ristretto_multiple(s@.0) + ristretto_multiple(s@.1)
        + ristretto_multiple(s@.2) + ristretto_multiple(s@.3) + ristretto_multiple(com@.0) + ristretto_multiple(com@.1));
}

/// Special soundness: from two transcripts for one statement that share the
/// commitment, are both accepted, and have challenges whose difference is
/// invertible with inverse `inv`, the common witness `(rsp1 - rsp2)·inv` of
/// both discrete logarithms is extracted.
pub proof fn lemma_dlogeq_special_soundness(
    s: DlogEqStatement,
    com: DlogEqCommitment,
    ch1: nat,
    rsp1: DlogEqResponse,
    ch2: nat,
    rsp2: DlogEqResponse,
    inv: nat,
)
    requires
        <DlogEq as SigmaProtocol>::accepts(s, com, ch1, rsp1),
        <DlogEq as SigmaProtocol>::accepts(s, com, ch2, rsp2),
        zmod(inv * (ch1 - ch2)) == 1,
    ensures
        dlog_relation(s@.0, s@.1, zmod((rsp1@ - rsp2@) * inv) as nat),
        dlog_relation(s@.2, s@.3, zmod((rsp1@ - rsp2@) * inv) as nat),
{
    lemma_point_bound(s.h_1);
    lemma_point_bound(s.h_2);
    lemma_zmod_bound((rsp1@ - rsp2@) * inv);
    lemma_schnorr_extraction(
        s@.0 as int,
        s@.1 as int,
        com@.0 as int,
        ch1 as int,
        rsp1@ as int,
        ch2 as int,
        rsp2@ as int,
        inv as int,
    );
    lemma_schnorr_extraction(
        s@.2 as int,
        s@.3 as int,
        com@.1 as int,
        ch1 as int,
        rsp1@ as int,
        ch2 as int,
        rsp2@ as int,
        inv as int,
    );
}

impl DlogEqStatement {
    pub fn new(g_1: Point, h_1: Point, g_2: Point, h_2: Point) -> (r: Self)
        ensures
            r@ == (g_1@, h_1@, g_2@, h_2@),
    {
        DlogEqStatement { g_1, h_1, g_2, h_2 }
    }

    /// Returns `true` iff `witness` is a discrete logarithm of `h_1` to the base
    /// `g_1` and of `h_2` to the base `g_2`.
    pub fn verify(&self, witness: &DlogEqWitness) -> (b: bool)
        ensures
            b == (dlog_relation(self@.0, self@.1, witness@) && dlog_relation(self@.2, self@.3, witness@)),
    {
        let h_1_vfy = self.g_1.mul(&witness.x);
        let h_2_vfy = self.g_2.mul(&witness.x);
        self.h_1.equals(&h_1_vfy) && self.h_2.equals(&h_2_vfy)
    }

    /// The bytes that hashing this statement feeds to a hash state.
    pub open spec fn spec_hash_input(self) -> Seq<u8> {
        ristretto_multiple(self@.0) + ristretto_multiple(self@.1) + ristretto_multiple(self@.2)
            + ristretto_multiple(self@.3)
    }
}

impl DlogEqWitness {
    pub fn new(x: Scalar) -> (r: Self)
        ensures
            r@ == x@,
    {
        DlogEqWitness { x }
    }
}

impl From<Scalar> for DlogEqWitness {
    fn from(scalar: Scalar) -> (r: DlogEqWitness)
        ensures
            r@ == scalar@,
    {
        DlogEqWitness { x: scalar }
    }
}

impl vstd::std_specs::convert::FromSpecImpl<Scalar> for DlogEqWitness {
    open spec fn obeys_from_spec() -> bool {
        true
    }

    closed spec fn from_spec(v: Scalar) -> DlogEqWitness {
        DlogEqWitness { x: v }
    }
}

impl From<((Point, Point), (Point, Point))> for DlogEqStatement {
    fn from(tuple: ((Point, Point), (Point, Point))) -> (r: DlogEqStatement)
        ensures
            r@ == (tuple.0.0@, tuple.0.1@, tuple.1.0@, tuple.1.1@),
    {
        DlogEqStatement { g_1: (tuple.0).0, h_1: (tuple.0).1, g_2: (tuple.1).0, h_2: (tuple.1).1 }
    }
}

impl vstd::std_specs::convert::FromSpecImpl<((Point, Point), (Point, Point))> for DlogEqStatement {
    open spec fn obeys_from_spec() -> bool {
        true
    }

    closed spec fn from_spec(tuple: ((Point, Point), (Point, Point))) -> DlogEqStatement {
        DlogEqStatement { g_1: tuple.0.0, h_1: tuple.0.1, g_2: tuple.1.0, h_2: tuple.1.1 }
    }
}

impl DlogEqCommitment {
    pub open spec fn spec_hash_input(self) -> Seq<u8> {
        ristretto_multiple(self@.0) + ristretto_multiple(self@.1)
    }
}

impl<H: crate::hashing::Hash> Hashable<H> for DlogEqStatement {
    open spec fn hash_input(&self) -> Seq<u8> {
        self.spec_hash_input()
    }

    fn hash(&self, state: &mut H) {
        let g1 = self.g_1.to_bytes();
        let h1 = self.h_1.to_bytes();
        let g2 = self.g_2.to_bytes();
        let h2 = self.h_2.to_bytes();
        state.update(&g1);
        state.update(&h1);
        state.update(&g2);
        state.update(&h2);
        assert(final(state).absorbed() =~= old(state).absorbed() + self.spec_hash_input());
    }
}

impl<H: crate::hashing::Hash> Hashable<H> for DlogEqCommitment {
    open spec fn hash_input(&self) -> Seq<u8> {
        self.spec_hash_input()
    }

    fn hash(&self, state: &mut H) {
        let c1 = self.c1.to_bytes();
        let c2 = self.c2.to_bytes();
        state.update(&c1);
        state.update(&c2);
        assert(final(state).absorbed() =~= old(state).absorbed() + self.spec_hash_input());
    }
}

impl SimulatorState for DlogEqSimulatorState {
    type RSP = DlogEqResponse;

    open spec fn sim_challenge(&self) -> nat {
        self@.0
    }

    open spec fn sim_response(&self, rsp: DlogEqResponse) -> bool {
        rsp@ == self@.1
    }

    proof fn lemma_sim_challenge_bound(&self) {
        crate::zkproofs::sigma_protocols::lemma_challenge_bound(self.challenge);
    }

    fn decompose(self) -> (r: (Challenge, DlogEqResponse)) {
        (self.challenge, self.response)
    }
}

/// Implementation of a Sigma protocol for the language
/// `S = { (g_1, h_1, g_2, h_2) | ∃ x : g_1^x = h_1 ∧ g_2^x = h_2 }`.
impl SigmaProtocol for DlogEq {
    type S = DlogEqStatement;
    type W = DlogEqWitness;
    type COM = DlogEqCommitment;
    type ST = DlogEqProverState;
    type RSP = DlogEqResponse;
    type STS = DlogEqSimulatorState;

    open spec fn witness_valid(s: DlogEqStatement, w: DlogEqWitness) -> bool {
        dlog_relation(s@.0, s@.1, w@) && dlog_relation(s@.2, s@.3, w@)
    }

    open spec fn accepts(s: DlogEqStatement, com: DlogEqCommitment, ch: nat, rsp: DlogEqResponse) -> bool {
        dlog_equation(s@.0, s@.1, com@.0, ch, rsp@) && dlog_equation(s@.2, s@.3, com@.1, ch, rsp@)
    }

    open spec fn committed(s: DlogEqStatement, w: DlogEqWitness, com: DlogEqCommitment, st: DlogEqProverState) -> bool {
        com@.0 == zmod(s@.0 * st@ as int) && com@.1 == zmod(s@.2 * st@ as int)
    }

    open spec fn response_defined(w: DlogEqWitness, st: DlogEqProverState) -> bool {
        true
    }

    open spec fn responds(s: DlogEqStatement, w: DlogEqWitness, ch: nat, st: DlogEqProverState, rsp: DlogEqResponse) -> bool {
        rsp@ == zmod(st@ + zmod(w@ * ch as int))
    }

    proof fn lemma_completeness(s: DlogEqStatement, w: DlogEqWitness, com: DlogEqCommitment, st: DlogEqProverState, ch: nat, rsp: DlogEqResponse) {
        lemma_schnorr_equation(s@.0 as int, s@.1 as int, w@ as int, st@ as int, ch as int);
        lemma_schnorr_equation(s@.2 as int, s@.3 as int, w@ as int, st@ as int, ch as int);
    }

    fn commit(statement: &DlogEqStatement, witness: &DlogEqWitness, rng: &mut rand::rngs::ThreadRng) -> (r: Result<(DlogEqCommitment, DlogEqProverState), Error>) {
        if !statement.verify(witness) {
            return Err(Error::InvalidWitness);
        }
        let r = Scalar::random(rng);
        let c1 = statement.g_1.mul(&r);
        let c2 = statement.g_2.mul(&r);
        let state = DlogEqProverState(r);
        let commitments = DlogEqCommitment { c1, c2 };
        Ok((commitments, state))
    }

    fn challenge(rng: &mut rand::rngs::ThreadRng) -> (r: Challenge) {
        Challenge::random(rng)
    }

    fn response(statement: &DlogEqStatement, witness: &DlogEqWitness, challenge: &Challenge, state: DlogEqProverState) -> (r: DlogEqResponse) {
        let ch = challenge.scalar();
        let xc = witness.x.times(&ch);
        DlogEqResponse(state.0.plus(&xc))
    }

    fn check(statement: &DlogEqStatement, commitment: &DlogEqCommitment, challenge: &Challenge, response: &DlogEqResponse) -> (b: bool) {
        let ch = challenge.scalar();
        let g_1s = statement.g_1.mul(&response.0);
        let g_2s = statement.g_2.mul(&response.0);
        let g_1v = commitment.c1.add(&statement.h_1.mul(&ch));
        let g_2v = commitment.c2.add(&statement.h_2.mul(&ch));
        g_1s.equals(&g_1v) && g_2s.equals(&g_2v)
    }

    fn simulate(statement: &DlogEqStatement, rng: &mut rand::rngs::ThreadRng) -> (r: (DlogEqCommitment, DlogEqSimulatorState)) {
        let ch = Scalar::random(rng);
        let rsp = Scalar::random(rng);
        let c1 = statement.g_1.mul(&rsp).sub(&statement.h_1.mul(&ch));
        let c2 = statement.g_2.mul(&rsp).sub(&statement.h_2.mul(&ch));
        proof {
            lemma_simulated_equation(statement@.0 as int, statement@.1 as int, rsp@ as int, ch@ as int);
            lemma_simulated_equation(statement@.2 as int, statement@.3 as int, rsp@ as int, ch@ as int);
        }
        (
            DlogEqCommitment { c1, c2 },
            DlogEqSimulatorState { challenge: Challenge::from_scalar(ch), response: DlogEqResponse(rsp) },
        )
    }
}

/// Implementation of the FS conversion related functionality for a Sigma protocol
/// for the language `S = { (g_1, h_1, g_2, h_2) | ∃ x : g_1^x = h_1 ∧ g_2^x = h_2 }`.
impl FsConvertibleSigmaProtocol for DlogEq {
    type FSP = DlogEqProof;

    open spec fn spec_domain_separator() -> Seq<char> {
        seq!['d', 'l', 'o', 'g', 'e', 'q']
    }

    open spec fn spec_hash_challenge(s: DlogEqStatement, com: DlogEqCommitment) -> nat {
        fs_challenge(Self::spec_domain_separator(), s.spec_hash_input() + com.spec_hash_input())
    }

    proof fn lemma_hash_challenge_bound(s: DlogEqStatement, com: DlogEqCommitment) {
        lemma_fs_challenge_bound(Self::spec_domain_separator(), s.spec_hash_input() + com.spec_hash_input());
    }

    open spec fn proof_commitment(p: DlogEqProof) -> DlogEqCommitment {
        p.spec_commitment()
    }

    open spec fn proof_response(p: DlogEqProof) -> DlogEqResponse {
        p.spec_response()
    }

    fn domain_separator() -> (r: String) {
        let r = String::from_str("dlogeq");
        proof {
            reveal_strlit("dlogeq");
        }
        assert(r@ =~= seq!['d', 'l', 'o', 'g', 'e', 'q']);
        r
    }

    fn hash_challenge(statement: &DlogEqStatement, commitment: &DlogEqCommitment) -> (ch: Challenge) {
        let dom_sep = DomainSeparator::from_string(Self::domain_separator());
        let mut h = <Sha512Hasher as crate::hashing::Hash>::new_with_separator(dom_sep);
        statement.hash(&mut h);
        commitment.hash(&mut h);
        assert(crate::hashing::Hash::absorbed(&h) =~= separator_of(Self::spec_domain_separator()) + (statement.spec_hash_input() + commitment.spec_hash_input()));
        Challenge::from_scalar(scalar_from_hash(h))
    }

    fn compile_proof(commitment: DlogEqCommitment, response: DlogEqResponse) -> (p: DlogEqProof) {
        DlogEqProof { commitment, response }
    }

    fn unwrap_proof(proof: &DlogEqProof) -> (r: (&DlogEqCommitment, &DlogEqResponse)) {
        (&proof.commitment, &proof.response)
    }
}

} // verus!
