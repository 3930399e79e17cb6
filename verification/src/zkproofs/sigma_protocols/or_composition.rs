//! The OR composition of two Sigma protocols: a proof that the prover knows a
//! witness for at least one of two statements, without revealing which.
use vstd::prelude::*;
use core::marker::PhantomData;
use crate::group::{lemma_zmod_add_sub, lemma_zmod_bound, lemma_zmod_sub_sub, scalar_from_hash, zmod};
use crate::hashing::{separator_of, DomainSeparator, Hashable, Sha512Hasher};
use crate::zkproofs::sigma_protocols::fiat_shamir::{fs_challenge, lemma_fs_challenge_bound, FsConvertibleSigmaProtocol};
use crate::zkproofs::sigma_protocols::{Challenge, Error, SigmaProtocol, SimulatorState};

verus! {

pub struct OrComposedSigmaProtocol<P1: SigmaProtocol, P2: SigmaProtocol> {
    p1: PhantomData<P1>,
    p2: PhantomData<P2>,
}

/// A witness for the first statement, for the second, or for both.
pub enum OrComposedWitness<P1: SigmaProtocol, P2: SigmaProtocol> {
    WitnessP1(P1::W),
    WitnessP2(P2::W),
    Both((P1::W, P2::W)),
}

/// The prover state: the statement without a witness is simulated.
pub enum OrProverState<P1: SigmaProtocol, P2: SigmaProtocol> {
    SimulatedP1(P1::STS, P2::ST),
    SimulatedP2(P1::ST, P2::STS),
}

pub struct OrComposedStatement<P1: SigmaProtocol, P2: SigmaProtocol> {
    pub s1: P1::S,
    pub s2: P2::S,
}

pub struct OrComposedCommitment<P1: SigmaProtocol, P2: SigmaProtocol>(pub P1::COM, pub P2::COM);

/// The response: the challenge of the first protocol and both responses (the
/// challenge of the second protocol is the overall challenge minus the first).
pub struct OrComposedResponse<P1: SigmaProtocol, P2: SigmaProtocol>(pub Challenge, pub P1::RSP, pub P2::RSP);

pub struct OrComposedProof<P1: SigmaProtocol, P2: SigmaProtocol> {
    pub commitment: OrComposedCommitment<P1, P2>,
    pub response: OrComposedResponse<P1, P2>,
}

pub struct OrComposedSimulatorState<P1: SigmaProtocol, P2: SigmaProtocol> {
    pub sts1: P1::STS,
    pub sts2: P2::STS,
}

impl<P1: SigmaProtocol, P2: SigmaProtocol> OrComposedWitness<P1, P2> {
    /// The witness for the first statement, if there is one.
    pub open spec fn first(self) -> Option<P1::W> {
        match self {
            OrComposedWitness::WitnessP1(w1) => Some(w1),
            OrComposedWitness::WitnessP2(_) => None,
            OrComposedWitness::Both((w1, _)) => Some(w1),
        }
    }

    /// The witness for the second statement, if there is one.
    pub open spec fn second(self) -> Option<P2::W> {
        match self {
            OrComposedWitness::WitnessP1(_) => None,
            OrComposedWitness::WitnessP2(w2) => Some(w2),
            OrComposedWitness::Both((_, w2)) => Some(w2),
        }
    }

    fn first_ref(&self) -> (r: Option<&P1::W>)
        ensures
            r is Some <==> self.first() is Some,
            r matches Some(w) ==> self.first() == Some(*w),
    {
        match self {
            OrComposedWitness::WitnessP1(w1) => Some(w1),
            OrComposedWitness::WitnessP2(_) => None,
            OrComposedWitness::Both((w1, _)) => Some(w1),
        }
    }

    fn second_ref(&self) -> (r: Option<&P2::W>)
        ensures
            r is Some <==> self.second() is Some,
            r matches Some(w) ==> self.second() == Some(*w),
    {
        match self {
            OrComposedWitness::WitnessP1(_) => None,
            OrComposedWitness::WitnessP2(w2) => Some(w2),
            OrComposedWitness::Both((_, w2)) => Some(w2),
        }
    }
}

impl<P1: SigmaProtocol, P2: SigmaProtocol, H: crate::hashing::Hash> Hashable<H> for OrComposedStatement<P1, P2> where
    P1::S: Hashable<H>,
    P2::S: Hashable<H>,
 {
    open spec fn hash_input(&self) -> Seq<u8> {
        self.s1.hash_input() + self.s2.hash_input()
    }

    fn hash(&self, state: &mut H) {
        self.s1.hash(state);
        self.s2.hash(state);
        assert(final(state).absorbed() =~= old(state).absorbed() + (self.s1.hash_input() + self.s2.hash_input()));
    }
}

impl<P1: SigmaProtocol, P2: SigmaProtocol, H: crate::hashing::Hash> Hashable<H> for OrComposedCommitment<P1, P2> where
    P1::COM: Hashable<H>,
    P2::COM: Hashable<H>,
 {
    open spec fn hash_input(&self) -> Seq<u8> {
        self.0.hash_input() + self.1.hash_input()
    }

    fn hash(&self, state: &mut H) {
        self.0.hash(state);
        self.1.hash(state);
        assert(final(state).absorbed() =~= old(state).absorbed() + (self.0.hash_input() + self.1.hash_input()));
    }
}

impl<P1: SigmaProtocol, P2: SigmaProtocol> SimulatorState for OrComposedSimulatorState<P1, P2> {
    type RSP = OrComposedResponse<P1, P2>;

    open spec fn sim_challenge(&self) -> nat {
        zmod(self.sts1.sim_challenge() + self.sts2.sim_challenge() as int) as nat
    }

    open spec fn sim_response(&self, rsp: OrComposedResponse<P1, P2>) -> bool {
        &&& rsp.0@ == self.sts1.sim_challenge()
        &&& self.sts1.sim_response(rsp.1)
        &&& self.sts2.sim_response(rsp.2)
    }

    proof fn lemma_sim_challenge_bound(&self) {
        lemma_zmod_bound(self.sts1.sim_challenge() + self.sts2.sim_challenge() as int);
    }

    fn decompose(self) -> (r: (Challenge, OrComposedResponse<P1, P2>)) {
        let (c1, r1) = self.sts1.decompose();
        let (c2, r2) = self.sts2.decompose();
        (c1.add(&c2), OrComposedResponse(c1, r1, r2))
    }
}

impl<P1: SigmaProtocol, P2: SigmaProtocol> OrComposedSigmaProtocol<P1, P2> {
    /// Combines optional witnesses for the two statements; fails when both are missing.
    pub fn compile_witness(w1: Option<P1::W>, w2: Option<P2::W>) -> (r: Result<OrComposedWitness<P1, P2>, Error>)
        ensures
            match (w1, w2) {
                (Some(a), None) => r == Ok::<_, Error>(OrComposedWitness::<P1, P2>::WitnessP1(a)),
                (None, Some(b)) => r == Ok::<_, Error>(OrComposedWitness::<P1, P2>::WitnessP2(b)),
                (Some(a), Some(b)) => r == Ok::<_, Error>(OrComposedWitness::<P1, P2>::Both((a, b))),
                (None, None) => r is Err,
            },
    {
        let w = match (w1, w2) {
            (Some(w1), None) => OrComposedWitness::WitnessP1(w1),
            (None, Some(w2)) => OrComposedWitness::WitnessP2(w2),
            (Some(w1), Some(w2)) => OrComposedWitness::Both((w1, w2)),
            _ => return Err(Error::InvalidWitness),
        };
        Ok(w)
    }

    /// The statement that `s1` or `s2` holds.
    pub fn compile_statement(s1: P1::S, s2: P2::S) -> (r: OrComposedStatement<P1, P2>)
        ensures
            r.s1 == s1,
            r.s2 == s2,
    {
        OrComposedStatement { s1, s2 }
    }
}

/// Generic implementation of an OR composition of two `SigmaProtocols`.
impl<P1: SigmaProtocol, P2: SigmaProtocol> SigmaProtocol for OrComposedSigmaProtocol<P1, P2> {
    type S = OrComposedStatement<P1, P2>;
    type W = OrComposedWitness<P1, P2>;
    type COM = OrComposedCommitment<P1, P2>;
    type ST = OrProverState<P1, P2>;
    type RSP = OrComposedResponse<P1, P2>;
    type STS = OrComposedSimulatorState<P1, P2>;

    /// The prover works with the witness for the first statement when it has
    /// one, and with the witness for the second statement otherwise.
    open spec fn witness_valid(s: OrComposedStatement<P1, P2>, w: OrComposedWitness<P1, P2>) -> bool {
        match w {
            OrComposedWitness::WitnessP1(w1) => P1::witness_valid(s.s1, w1),
            OrComposedWitness::WitnessP2(w2) => P2::witness_valid(s.s2, w2),
            OrComposedWitness::Both((w1, _)) => P1::witness_valid(s.s1, w1),
        }
    }

    /// Both sub-transcripts are accepted, the second one for the overall
    /// challenge minus the first challenge.
    open spec fn accepts(s: OrComposedStatement<P1, P2>, com: OrComposedCommitment<P1, P2>, ch: nat, rsp: OrComposedResponse<P1, P2>) -> bool {
        &&& P1::accepts(s.s1, com.0, rsp.0@, rsp.1)
        &&& P2::accepts(s.s2, com.1, zmod(ch - rsp.0@) as nat, rsp.2)
    }

    open spec fn committed(s: OrComposedStatement<P1, P2>, w: OrComposedWitness<P1, P2>, com: OrComposedCommitment<P1, P2>, st: OrProverState<P1, P2>) -> bool {
        match st {
            OrProverState::SimulatedP1(sts1, st2) => match w {
                OrComposedWitness::WitnessP2(w2) => {
                    &&& P2::committed(s.s2, w2, com.1, st2)
                    &&& forall|r: P1::RSP| #[trigger] sts1.sim_response(r)
                        ==> P1::accepts(s.s1, com.0, sts1.sim_challenge(), r)
                },
                _ => false,
            },
            OrProverState::SimulatedP2(st1, sts2) => {
                &&& w.first() is Some
                &&& P1::committed(s.s1, w.first().unwrap(), com.0, st1)
                &&& forall|r: P2::RSP| #[trigger] sts2.sim_response(r)
                    ==> P2::accepts(s.s2, com.1, sts2.sim_challenge(), r)
            },
        }
    }

    /// The response needs the witness for the statement that was not simulated.
    open spec fn response_defined(w: OrComposedWitness<P1, P2>, st: OrProverState<P1, P2>) -> bool {
        match st {
            OrProverState::SimulatedP1(_, st2) => w.second() is Some && P2::response_defined(w.second().unwrap(), st2),
            OrProverState::SimulatedP2(st1, _) => w.first() is Some && P1::response_defined(w.first().unwrap(), st1),
        }
    }

    open spec fn responds(s: OrComposedStatement<P1, P2>, w: OrComposedWitness<P1, P2>, ch: nat, st: OrProverState<P1, P2>, rsp: OrComposedResponse<P1, P2>) -> bool {
        match st {
            OrProverState::SimulatedP1(sts1, st2) => {
                &&& rsp.0@ == sts1.sim_challenge()
                &&& sts1.sim_response(rsp.1)
                &&& P2::responds(s.s2, w.second().unwrap(), zmod(ch - sts1.sim_challenge()) as nat, st2, rsp.2)
            },
            OrProverState::SimulatedP2(st1, sts2) => {
                &&& rsp.0@ == zmod(ch - sts2.sim_challenge())
                &&& P1::responds(s.s1, w.first().unwrap(), rsp.0@, st1, rsp.1)
                &&& sts2.sim_response(rsp.2)
            },
        }
    }

    proof fn lemma_completeness(s: OrComposedStatement<P1, P2>, w: OrComposedWitness<P1, P2>, com: OrComposedCommitment<P1, P2>, st: OrProverState<P1, P2>, ch: nat, rsp: OrComposedResponse<P1, P2>) {
        match st {
            OrProverState::SimulatedP1(sts1, st2) => {
                let w2 = w.second().unwrap();
                let ch1 = sts1.sim_challenge();
                assert(sts1.sim_response(rsp.1));
                lemma_zmod_bound(ch - ch1);
                P2::lemma_completeness(s.s2, w2, com.1, st2, zmod(ch - ch1) as nat, rsp.2);
            },
            OrProverState::SimulatedP2(st1, sts2) => {
                let w1 = w.first().unwrap();
                let ch2 = sts2.sim_challenge();
                sts2.lemma_sim_challenge_bound();
                lemma_zmod_bound(ch - ch2);
                P1::lemma_completeness(s.s1, w1, com.0, st1, rsp.0@, rsp.1);
                lemma_zmod_sub_sub(ch as int, ch2 as int);
                assert(sts2.sim_response(rsp.2));
            },
        }
    }

    fn commit(statement: &OrComposedStatement<P1, P2>, witness: &OrComposedWitness<P1, P2>, rng: &mut rand::rngs::ThreadRng) -> (r: Result<(OrComposedCommitment<P1, P2>, OrProverState<P1, P2>), Error>) {
        match witness {
            OrComposedWitness::WitnessP2(w2) => {
                let (c2, st2) = match P2::commit(&statement.s2, w2, rng) {
                    Ok((com, st)) => (com, st),
                    Err(e) => return Err(e),
                };
                let (c1, st1) = P1::simulate(&statement.s1, rng);
                Ok((OrComposedCommitment(c1, c2), OrProverState::SimulatedP1(st1, st2)))
            },
            _ => {
                let w1 = witness.first_ref().unwrap();
                let (c1, st1) = match P1::commit(&statement.s1, w1, rng) {
                    Ok((com, st)) => (com, st),
                    Err(e) => return Err(e),
                };
                let (c2, st2) = P2::simulate(&statement.s2, rng);
                Ok((OrComposedCommitment(c1, c2), OrProverState::SimulatedP2(st1, st2)))
            },
        }
    }

    fn challenge(rng: &mut rand::rngs::ThreadRng) -> (r: Challenge) {
        P1::challenge(rng)
    }

    fn response(statement: &OrComposedStatement<P1, P2>, witness: &OrComposedWitness<P1, P2>, challenge: &Challenge, state: OrProverState<P1, P2>) -> (r: OrComposedResponse<P1, P2>) {
        match state {
            OrProverState::SimulatedP1(st1, st2) => {
                let (ch1, rsp1) = st1.decompose();
                let ch2 = challenge.sub(&ch1);
                let w2 = witness.second_ref().unwrap();
                let rsp2 = P2::response(&statement.s2, w2, &ch2, st2);
                OrComposedResponse(ch1, rsp1, rsp2)
            },
            OrProverState::SimulatedP2(st1, st2) => {
                let (ch2, rsp2) = st2.decompose();
                let ch1 = challenge.sub(&ch2);
                let w1 = witness.first_ref().unwrap();
                let rsp1 = P1::response(&statement.s1, w1, &ch1, st1);
                OrComposedResponse(ch1, rsp1, rsp2)
            },
        }
    }

    fn check(statement: &OrComposedStatement<P1, P2>, commitment: &OrComposedCommitment<P1, P2>, challenge: &Challenge, response: &OrComposedResponse<P1, P2>) -> (b: bool) {
        let ch1 = &response.0;
        let ch2 = challenge.sub(ch1);
        P1::check(&statement.s1, &commitment.0, ch1, &response.1) && P2::check(&statement.s2, &commitment.1, &ch2, &response.2)
    }

    fn simulate(statement: &OrComposedStatement<P1, P2>, rng: &mut rand::rngs::ThreadRng) -> (r: (OrComposedCommitment<P1, P2>, OrComposedSimulatorState<P1, P2>)) {
        let (c1, sts1) = P1::simulate(&statement.s1, rng);
        let (c2, sts2) = P2::simulate(&statement.s2, rng);
        proof {
            sts1.lemma_sim_challenge_bound();
            sts2.lemma_sim_challenge_bound();
            lemma_zmod_add_sub(sts1.sim_challenge() as int, sts2.sim_challenge() as int);
        }
        (OrComposedCommitment(c1, c2), OrComposedSimulatorState { sts1, sts2 })
    }
}

/// Generic implementation of the FS conversion related functionality for the OR
/// composition of two `SigmaProtocols` that are themselves FS convertible.
impl<P1, P2> FsConvertibleSigmaProtocol for OrComposedSigmaProtocol<P1, P2> where
    P1: FsConvertibleSigmaProtocol,
    P2: FsConvertibleSigmaProtocol,
    P1::S: Hashable<Sha512Hasher>,
    P2::S: Hashable<Sha512Hasher>,
    P1::COM: Hashable<Sha512Hasher>,
    P2::COM: Hashable<Sha512Hasher>,
 {
    type FSP = OrComposedProof<P1, P2>;

    open spec fn spec_domain_separator() -> Seq<char> {
        "or_composition("@ + P1::spec_domain_separator() + (","@ + (P2::spec_domain_separator() + ")"@))
    }

    open spec fn spec_hash_challenge(s: OrComposedStatement<P1, P2>, com: OrComposedCommitment<P1, P2>) -> nat {
        fs_challenge(
            Self::spec_domain_separator(),
            <OrComposedStatement<P1, P2> as Hashable<Sha512Hasher>>::hash_input(&s)
                + <OrComposedCommitment<P1, P2> as Hashable<Sha512Hasher>>::hash_input(&com),
        )
    }

    proof fn lemma_hash_challenge_bound(s: OrComposedStatement<P1, P2>, com: OrComposedCommitment<P1, P2>) {
        lemma_fs_challenge_bound(Self::spec_domain_separator(), <OrComposedStatement<P1, P2> as Hashable<Sha512Hasher>>::hash_input(&s) + <OrComposedCommitment<P1, P2> as Hashable<Sha512Hasher>>::hash_input(&com));
    }

    open spec fn proof_commitment(p: OrComposedProof<P1, P2>) -> OrComposedCommitment<P1, P2> {
        p.commitment
    }

    open spec fn proof_response(p: OrComposedProof<P1, P2>) -> OrComposedResponse<P1, P2> {
        p.response
    }

    fn domain_separator() -> (r: String) {
        let mut r = String::from_str("or_composition(");
        let d1 = P1::domain_separator();
        r.append(d1.as_str());
        r.append(",");
        let d2 = P2::domain_separator();
        r.append(d2.as_str());
        r.append(")");
        r
    }

    fn hash_challenge(statement: &OrComposedStatement<P1, P2>, commitment: &OrComposedCommitment<P1, P2>) -> (ch: Challenge) {
        let dom_sep = DomainSeparator::from_string(Self::domain_separator());
        let mut h = <Sha512Hasher as crate::hashing::Hash>::new_with_separator(dom_sep);
        statement.hash(&mut h);
        commitment.hash(&mut h);
        assert(crate::hashing::Hash::absorbed(&h) =~= separator_of(Self::spec_domain_separator())
            + (<OrComposedStatement<P1, P2> as Hashable<Sha512Hasher>>::hash_input(statement)
            + <OrComposedCommitment<P1, P2> as Hashable<Sha512Hasher>>::hash_input(commitment)));
        Challenge::from_scalar(scalar_from_hash(h))
    }

    fn compile_proof(commitment: OrComposedCommitment<P1, P2>, response: OrComposedResponse<P1, P2>) -> (p: OrComposedProof<P1, P2>) {
        OrComposedProof { commitment, response }
    }

    fn unwrap_proof(proof: &OrComposedProof<P1, P2>) -> (r: (&OrComposedCommitment<P1, P2>, &OrComposedResponse<P1, P2>)) {
        (&proof.commitment, &proof.response)
    }
}

} // verus!
