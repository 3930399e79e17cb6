//! Fiat-Shamir convertible Sigma protocols.
use vstd::prelude::*;
use crate::group::{group_order, le_nat};
use crate::hashing::{separator_of, sha512_digest};
use crate::zkproofs::sigma_protocols::{Challenge, SigmaProtocol};

verus! {

/// The challenge that the Fiat-Shamir transform derives from the bytes
/// `input` under the domain separator made from `domain`: the SHA-512 digest
/// of the separator followed by `input`, reduced modulo `ℓ`.
pub open spec fn fs_challenge(domain: Seq<char>, input: Seq<u8>) -> nat {
    le_nat(sha512_digest(separator_of(domain) + input)) % group_order()
}

pub proof fn lemma_fs_challenge_bound(domain: Seq<char>, input: Seq<u8>)
    ensures
        fs_challenge(domain, input) < group_order(),
{
    vstd::arithmetic::div_mod::lemma_mod_bound(
        le_nat(sha512_digest(separator_of(domain) + input)) as int,
        group_order() as int,
    );
}

/// Represents a [Fiat-Shamir](https://doi.org/10.1007%2F3-540-68339-9_33)
/// convertible Sigma protocol. The interface is aligned with the compiler
/// in [FMKV'12](https://eprint.iacr.org/2012/704.pdf) so that one can
/// also implement variants of the FS transform providing stronger guarantees
/// regarding non-malleability.
///
/// The challenge that the verifier would send is computed as a hash of the
/// first message of the prover (and, here, of the statement).
pub trait FsConvertibleSigmaProtocol: SigmaProtocol {
    /// The space where the corresponding proofs live in.
    type FSP;

    /// The domain separator string of this protocol.
    spec fn spec_domain_separator() -> Seq<char>;

    /// The challenge `hash_challenge` derives for a statement and a commitment.
    spec fn spec_hash_challenge(s: Self::S, com: Self::COM) -> nat;

    /// Derived challenges are reduced.
    proof fn lemma_hash_challenge_bound(s: Self::S, com: Self::COM)
        ensures
            Self::spec_hash_challenge(s, com) < group_order(),
    ;

    /// The commitment a proof holds.
    spec fn proof_commitment(p: Self::FSP) -> Self::COM;

    /// The response a proof holds.
    spec fn proof_response(p: Self::FSP) -> Self::RSP;

    /// Returns the domain separator to be used upon hashing the challenge.
    /// This is provided as an explicit function to allow to combine domain
    /// separators upon generic compositions of Sigma protocols.
    fn domain_separator() -> (r: String)
        ensures
            r@ == Self::spec_domain_separator(),
    ;

    /// Returns the hash of the given `statement` and the given
    /// `commitment` and computes a `Challenge` from it.
    fn hash_challenge(statement: &Self::S, commitment: &Self::COM) -> (ch: Challenge)
        ensures
            ch@ == Self::spec_hash_challenge(*statement, *commitment),
    ;

    /// Compiles a proof from a given `commitment` and a given `response`.
    fn compile_proof(commitment: Self::COM, response: Self::RSP) -> (p: Self::FSP)
        ensures
            Self::proof_commitment(p) == commitment,
            Self::proof_response(p) == response,
    ;

    /// Unwraps a given `proof` and returns a commitment-response tuple
    /// to be used for verification in the underlying sigma protocol.
    fn unwrap_proof(proof: &Self::FSP) -> (r: (&Self::COM, &Self::RSP))
        ensures
            *r.0 == Self::proof_commitment(*proof),
            *r.1 == Self::proof_response(*proof),
    ;
}

} // verus!
