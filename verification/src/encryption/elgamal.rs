//! ElGamal encryption over the Ristretto group, with messages that are group elements.
use vstd::prelude::*;
use vstd::utf8::encode_utf8;
use crate::encryption::{EncryptionScheme, Error, PublicKey, SecretKey};
use crate::group::{
    group_order, le_nat, lemma_scalar_bound, lemma_zmod_sub, lemma_zmod_bound,
    lemma_zmod_small, scalar_hash_from_bytes, zmod, Point, Scalar,
};
use crate::hashing::sha512_digest;
use crate::zkproofs::sigma_protocols::dlog::{DlogStatement, DlogWitness};

verus! {

pub struct ElGamal;

#[derive(Clone, Copy, Debug)]
pub struct ElGamalSecretKey(Scalar);

#[derive(Clone, Copy, Debug, PartialEq, Eq)]
pub struct ElGamalPublicKey(pub Point);

#[derive(Clone, Copy, Debug, PartialEq, Eq)]
pub struct ElGamalMessage(pub Point);

#[derive(Clone, Copy, Debug, PartialEq, Eq)]
pub struct ElGamalCiphertext(pub Point, pub Point);

/// A secret key is viewed as the scalar `x` it holds.
impl View for ElGamalSecretKey {
    type V = nat;

    closed spec fn view(&self) -> nat {
        self.0@
    }
}

/// A public key, a message: viewed as the discrete logarithm of the element.
impl View for ElGamalPublicKey {
    type V = nat;

    open spec fn view(&self) -> nat {
        self.0@
    }
}

impl View for ElGamalMessage {
    type V = nat;

    open spec fn view(&self) -> nat {
        self.0@
    }
}

impl View for ElGamalCiphertext {
    type V = (nat, nat);

    open spec fn view(&self) -> (nat, nat) {
        (self.0@, self.1@)
    }
}

/// The ciphertext of `m` under `pk` with randomness `r`: `(r·B, m + r·pk)`.
pub open spec fn elgamal_encryption(pk: nat, m: nat, r: nat) -> (nat, nat) {
    (r, zmod(m + zmod(pk * r as int)) as nat)
}

/// The decryption of `(c1, c2)` under `sk`: `c2 - sk·c1`.
pub open spec fn elgamal_decryption(sk: nat, c1: nat, c2: nat) -> nat {
    zmod(c2 - zmod(c1 * sk as int)) as nat
}

/// Decryption with the secret key undoes encryption under the matching public
/// key (whose discrete logarithm is the secret key), whatever the randomness.
pub proof fn lemma_elgamal_correctness(sk: nat, m: nat, r: nat)
    requires
        m < group_order(),
    ensures
        elgamal_decryption(sk, elgamal_encryption(sk, m, r).0, elgamal_encryption(sk, m, r).1) == m,
{
    let x = zmod(sk * r as int);
    lemma_zmod_bound(m + x);
    lemma_zmod_bound(sk * r as int);
    assert(r * sk == sk * r) by (nonlinear_arith);
    lemma_zmod_sub(m + x, x);
    lemma_zmod_small(m as int);
}

impl ElGamalSecretKey {
    pub proof fn lemma_bound(self)
        ensures
            self@ < group_order(),
    {
        lemma_scalar_bound(self.0);
    }

    /// The Dlog witness `x` for the statement `(B, x·B)`.
    pub fn to_dlog_witness(&self) -> (r: DlogWitness)
        ensures
            r@ == self@,
    {
        DlogWitness::new(self.0)
    }
}

impl ElGamalPublicKey {
    /// The Dlog statement `(B, pk)`: the public key has a discrete logarithm.
    pub fn to_dlog_statement(&self) -> (r: DlogStatement)
        ensures
            r@ == (1nat, self@),
    {
        DlogStatement::new(Point::basepoint(), self.0)
    }
}

impl SecretKey for ElGamalSecretKey {
    fn generate(key_len: u32, rng: &mut rand::rngs::ThreadRng) -> (r: Result<ElGamalSecretKey, Error>)
        ensures
            r is Ok <==> key_len == 32,
            r matches Err(e) ==> e == Error::UnsupportedKeyLength(key_len),
    {
        if key_len != 32 {
            return Err(Error::UnsupportedKeyLength(key_len));
        }
        let s = Scalar::random(rng);
        Ok(ElGamalSecretKey(s))
    }
}

impl PublicKey for ElGamalPublicKey {
    type SK = ElGamalSecretKey;

    /// The public key `x·B`.
    fn from_secret(secret_key: &ElGamalSecretKey) -> (r: ElGamalPublicKey)
        ensures
            r@ == secret_key@,
    {
        ElGamalPublicKey(Point::mul_basepoint(&secret_key.0))
    }
}

impl EncryptionScheme for ElGamal {
    type SK = ElGamalSecretKey;
    type PK = ElGamalPublicKey;
    type MSG = ElGamalMessage;
    type CTXT = ElGamalCiphertext;

    fn key_gen(key_len: u32, rng: &mut rand::rngs::ThreadRng) -> (r: Result<(ElGamalSecretKey, ElGamalPublicKey), Error>)
        ensures
            r is Ok <==> key_len == 32,
            r matches Ok(kp) ==> kp.1@ == kp.0@,
            r matches Err(e) ==> e == Error::UnsupportedKeyLength(key_len),
    {
        let sk = match ElGamalSecretKey::generate(key_len, rng) {
            Ok(key) => key,
            Err(e) => return Err(e),
        };
        let pk = ElGamalPublicKey::from_secret(&sk);
        Ok((sk, pk))
    }

    /// The ciphertext is an encryption of `message` with some randomness `r`,
    /// which is the discrete logarithm of its first element.
    fn encrypt(public_key: &ElGamalPublicKey, message: ElGamalMessage, rng: &mut rand::rngs::ThreadRng) -> (r: ElGamalCiphertext)
        ensures
            r@ == elgamal_encryption(public_key@, message@, r@.0),
    {
        ElGamal::encrypt_reveal_randomness(public_key, &message, rng).0
    }

    fn decrypt(secret_key: &ElGamalSecretKey, ciphertext: ElGamalCiphertext) -> (r: ElGamalMessage)
        ensures
            r@ == elgamal_decryption(secret_key@, ciphertext@.0, ciphertext@.1),
    {
        let sk_inv = secret_key.0;
        ElGamalMessage(ciphertext.1.sub(&ciphertext.0.mul(&sk_inv)))
    }
}

impl ElGamal {
    /// Encrypts `message` under `public_key` with the randomness `r`.
    pub fn encrypt_with_randomness(public_key: &ElGamalPublicKey, message: &ElGamalMessage, r: &Scalar) -> (c: ElGamalCiphertext)
        ensures
            c@ == elgamal_encryption(public_key@, message@, r@),
    {
        let c1 = Point::mul_basepoint(r);
        let c2 = message.0.add(&public_key.0.mul(r));
        ElGamalCiphertext(c1, c2)
    }

    /// Encrypts `message` under `public_key` with fresh randomness, and returns
    /// the randomness too.
    pub fn encrypt_reveal_randomness(public_key: &ElGamalPublicKey, message: &ElGamalMessage, rng: &mut rand::rngs::ThreadRng) -> (r: (ElGamalCiphertext, Scalar))
        ensures
            r.0@ == elgamal_encryption(public_key@, message@, r.1@),
            r.1@ < group_order(),
    {
        let r = Scalar::random(rng);
        (ElGamal::encrypt_with_randomness(public_key, message, &r), r)
    }

    /// The pairs `((B, c1), (pk, c2 - m))`: `(c1, c2)` encrypts `m` under `pk`
    /// iff both pairs have the same discrete logarithm.
    pub fn prepare_well_formedness_proof(
        public_key: ElGamalPublicKey,
        ciphertext: ElGamalCiphertext,
        message: ElGamalMessage,
    ) -> (r: ((Point, Point), (Point, Point)))
        ensures
            r.0.0@ == 1,
            r.0.1@ == ciphertext@.0,
            r.1.0@ == public_key@,
            r.1.1@ == zmod(ciphertext@.1 - message@),
    {
        ((Point::basepoint(), ciphertext.0), (public_key.0, ciphertext.1.sub(&message.0)))
    }
}

impl ElGamalMessage {
    /// Encodes a string as a group element: `H(message)·B`, where `H` is
    /// SHA-512 reduced modulo `ℓ`.
    pub fn from_string(message: String) -> (r: Self)
        ensures
            r@ == le_nat(sha512_digest(encode_utf8(message@))) % group_order(),
    {
        let m_zl = scalar_hash_from_bytes(message.as_str().as_bytes());
        let m_group = Point::mul_basepoint(&m_zl);
        ElGamalMessage(m_group)
    }
}

} // verus!
