//! Sigma protocols over the Ristretto group, with the challenge space `ℤ/ℓℤ`
//! common to all of them so that they can be composed.
use vstd::prelude::*;
use crate::group::{group_order, lemma_scalar_bound, zmod, Scalar};

/// Sigma protocols and Fiat-Shamir transform related implementations for
/// the language `S = { (g_1, h_1) | ∃ x : g_1^x = h_1 }`, where `g_1` and
/// `h_1` are elements of the underlying group.
pub mod dlog;

/// Sigma protocols and Fiat-Shamir transform related implementations for
/// the language `S = { (g_1, h_1, g_2, h_2) | ∃ x : g_1^x = h_1 ∧ g_2^x = h_2 }`,
/// where `g_1`, `h_1`, `g_2`, and `h_2` are elements of the underlying group.
pub mod dlogeq;

/// Fiat-Shamir transform related things.
pub mod fiat_shamir;

/// Generic OR-composition of Sigma protocols and their Fiat-Shamir transform.
pub mod or_composition;

verus! {

#[derive(Debug)]
pub enum Error {
    /// The given witness does not attest membership of the statement in the language.
    InvalidWitness,
}

impl Error {
    /// A description of the error.
    pub fn description(&self) -> (r: String)
        ensures
            r@ == "The given witness does not attest membership of the statement in the language."@,
    {
        String::from_str("The given witness does not attest membership of the statement in the language.")
    }
}

/// The challenge common to all Sigma protocols implementing the
/// Sigma protocol trait.
#[derive(Clone, Copy, Debug)]
pub struct Challenge(Scalar);

/// A challenge is viewed as the residue it holds.
impl View for Challenge {
    type V = nat;

    closed spec fn view(&self) -> nat {
        self.0@
    }
}

impl Challenge {
    /// The challenge holding `s`.
    pub fn from_scalar(s: Scalar) -> (r: Challenge)
        ensures
            r@ == s@,
    {
        Challenge(s)
    }

    /// The scalar this challenge holds.
    pub fn scalar(&self) -> (r: Scalar)
        ensures
            r@ == self@,
    {
        self.0
    }

    /// `self - other` modulo `ℓ`.
    pub fn sub(&self, other: &Challenge) -> (r: Challenge)
        ensures
            r@ == zmod(self@ - other@),
    {
        Challenge(self.0.minus(&other.0))
    }

    /// `self + other` modulo `ℓ`.
    pub fn add(&self, other: &Challenge) -> (r: Challenge)
        ensures
            r@ == zmod(self@ + other@ as int),
    {
        Challenge(self.0.plus(&other.0))
    }

    /// A challenge drawn uniformly at random.
    pub fn random(rng: &mut rand::rngs::ThreadRng) -> (r: Challenge)
        ensures
            r@ < group_order(),
    {
        Challenge(Scalar::random(rng))
    }
}

pub proof fn lemma_challenge_bound(c: Challenge)
    ensures
        c@ < group_order(),
{
    lemma_scalar_bound(c.0);
}

/// Represents the simulator state of a Sigma protocol and a
/// way for decomposing it into its individual components.
pub trait SimulatorState: Sized {
    type RSP;

    /// The challenge the simulated transcript was made for.
    spec fn sim_challenge(&self) -> nat;

    /// `rsp` is the response of the simulated transcript.
    spec fn sim_response(&self, rsp: Self::RSP) -> bool;

    proof fn lemma_sim_challenge_bound(&self)
        ensures
            self.sim_challenge() < group_order(),
    ;

    fn decompose(self) -> (r: (Challenge, Self::RSP))
        ensures
            r.0@ == self.sim_challenge(),
            self.sim_response(r.1),
    ;
}

/// Represents a [Sigma protocol](https://cs.au.dk/~ivan/Sigma.pdf). All
/// Sigma protocols in this module have the same challenge space `ℤ/ℓℤ`
/// to make it possible to compose them.
///
/// Sigma protocols are interactive 3-move protocols executed by a prover
/// and a verifier: the prover commits to its random coins, the verifier
/// answers with a random challenge, and the prover answers with a response,
/// upon which the verifier accepts or rejects the transcript.
pub trait SigmaProtocol {
    /// The space the statements live in.
    type S;

    /// The space the witnesses live in.
    type W;

    /// The space the first message from the prover to the verifier lives
    /// in (i.e., commitments to the random coins)
    type COM;

    /// The space of the prover state, passed from the first to the second
    /// prover phase.
    type ST;

    /// The space the prover's responses live in.
    type RSP;

    /// The space the simulator state lives in.
    type STS: SimulatorState<RSP = Self::RSP>;

    /// `w` is a witness that `commit` accepts for `s`.
    spec fn witness_valid(s: Self::S, w: Self::W) -> bool;

    /// The verifier accepts the transcript `(com, ch, rsp)` for `s`.
    spec fn accepts(s: Self::S, com: Self::COM, ch: nat, rsp: Self::RSP) -> bool;

    /// `(com, st)` is a first prover message and the state that goes with it,
    /// made honestly for `s` and `w`.
    spec fn committed(s: Self::S, w: Self::W, com: Self::COM, st: Self::ST) -> bool;

    /// `response` does not fail on `w` and `st`.
    spec fn response_defined(w: Self::W, st: Self::ST) -> bool;

    /// `rsp` is the honest response to the challenge `ch` from state `st`.
    spec fn responds(s: Self::S, w: Self::W, ch: nat, st: Self::ST, rsp: Self::RSP) -> bool;

    /// Completeness: the verifier accepts every honest transcript.
    proof fn lemma_completeness(s: Self::S, w: Self::W, com: Self::COM, st: Self::ST, ch: nat, rsp: Self::RSP)
        requires
            Self::witness_valid(s, w),
            Self::committed(s, w, com, st),
            ch < group_order(),
            Self::responds(s, w, ch, st, rsp),
        ensures
            Self::accepts(s, com, ch, rsp),
    ;

    /// Runs the first phase of the prover which takes a `statement`,
    /// a `witness`, as well as an `rng`, and returns a commitment to
    /// the prover's random coins and some state to be passed to the
    /// `response` algorithm representing the second prover phase.
    fn commit(statement: &Self::S, witness: &Self::W, rng: &mut rand::rngs::ThreadRng) -> (r: Result<(Self::COM, Self::ST), Error>)
        ensures
            r is Ok <==> Self::witness_valid(*statement, *witness),
            r matches Ok(cs) ==> Self::committed(*statement, *witness, cs.0, cs.1)
                && Self::response_defined(*witness, cs.1),
    ;

    /// Runs the first phase of the verifier which takes an `rng` and
    /// returns a `Challenge`.
    fn challenge(rng: &mut rand::rngs::ThreadRng) -> (r: Challenge)
        ensures
            r@ < group_order(),
    ;

    /// Runs the second phase of the prover which takes a `statement`,
    /// a `witness`, a `challenge` and some `state`, and returns a
    /// response.
    fn response(statement: &Self::S, witness: &Self::W, challenge: &Challenge, state: Self::ST) -> (r: Self::RSP)
        requires
            Self::response_defined(*witness, state),
        ensures
            Self::responds(*statement, *witness, challenge@, state, r),
    ;

    /// The algorithm representing the decision phase of the verifier,
    /// which takes a `statement`, a `commitment`, a `challenge`, as
    /// well as a `response` and outputs `true` if the transcript is
    /// considered valid, and `false` otherwise.
    fn check(statement: &Self::S, commitment: &Self::COM, challenge: &Challenge, response: &Self::RSP) -> (b: bool)
        ensures
            b == Self::accepts(*statement, *commitment, challenge@, *response),
    ;

    /// Outputs a simulated transcript, which the verifier accepts.
    fn simulate(statement: &Self::S, rng: &mut rand::rngs::ThreadRng) -> (r: (Self::COM, Self::STS))
        ensures
            forall|rsp: Self::RSP| #[trigger] r.1.sim_response(rsp)
                ==> Self::accepts(*statement, r.0, r.1.sim_challenge(), rsp),
    ;
}

} // verus!
