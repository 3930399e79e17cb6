# crypto_tools

Cryptographic building blocks over the prime-order Ristretto group, verified
with Verus:

- `hashing`: domain separators (a string with its byte length prepended) and
  domain-separated SHA-256/SHA-512 states.
- `group`: group elements and scalars. An element is held as its canonical
  encoding and viewed as its discrete logarithm with respect to the basepoint;
  a scalar is viewed as the residue modulo the group order `ℓ` it encodes. The
  arithmetic itself is done by `curve25519-dalek`.
- `encryption`: ElGamal encryption.
- `zkproofs`: Sigma protocols for discrete logarithms and for equality of
  discrete logarithms, their generic OR composition, and the generic
  Fiat-Shamir transformation into non-interactive proofs.
- `chameleon_hashing`: the fully collision-resistant chameleon hash of
  [DSS'20](https://eprint.iacr.org/2020/403.pdf).

What is proved: completeness of every Sigma protocol (and of their OR
composition), acceptance of simulated transcripts, that every Fiat-Shamir proof
that `prove` returns verifies and that `prove` fails exactly on invalid
witnesses, ElGamal correctness, that a chameleon hash and the randomness that
`hash` or `adapt` return pass `check`, and that distinct strings give distinct
domain separators.

What is trusted: the contracts of the calls into `curve25519-dalek` and `sha2`
at the end of `src/group.rs` and `src/hashing.rs`.

`app/main.rs` runs a short chameleon-hash demonstration.
