//! Public-key encryption.
use vstd::prelude::*;
use crate::text::{decimal_text, push_decimal_text};

/// The [ElGamal](https://doi.org/10.1007%2FBFb0054851) encryption scheme
pub mod elgamal;

verus! {

/// Encryption error type.
#[derive(Debug)]
pub enum Error {
    /// The given key length in bytes is not supported by the implementation.
    UnsupportedKeyLength(u32),
}

impl Error {
    /// A description of the error.
    pub fn description(&self) -> (r: String)
        ensures
            match self {
                Error::UnsupportedKeyLength(key_len) => r@ == "Given key length ("@ + decimal_text(
                    *key_len as nat,
                ) + " bytes) not supported"@,
            },
    {
        match self {
            Error::UnsupportedKeyLength(key_len) => {
                let mut r = String::from_str("Given key length (");
                push_decimal_text(*key_len, &mut r);
                r.append(" bytes) not supported");
                r
            },
        }
    }
}

/// Represents an encryption secret key.
pub trait SecretKey: Sized {
    /// Generate a secret key of the length in bytes given in the `key_len`
    /// using the given RNG `rng`. Return an [Error](enum.Error.html) in case
    /// the given key length is not supported.
    fn generate(key_len: u32, rng: &mut rand::rngs::ThreadRng) -> Result<Self, Error>;
}

/// Represents an encryption public key. We work under the assumption that
/// a public key is uniquely determined by the secret key.
pub trait PublicKey: Sized {
    /// The type of the corresponding secret key.
    type SK;

    /// Generate a public key from a given secret key.
    fn from_secret(secret_key: &Self::SK) -> Self;
}

/// Represents a public key encryption scheme. The interface follows
/// the interface as it is commonly used in the literature (see, e.g.,
/// [KL'14](http://www.cs.umd.edu/~jkatz/imc.html))
pub trait EncryptionScheme {
    /// The secret key space
    type SK;

    /// The public key space
    type PK;

    /// The message space
    type MSG;

    /// The ciphertext space
    type CTXT;

    /// Takes a key length `key_len` and a RNG `rng` and generates an
    /// encryption key pair. It fails with an `UnsupportedKeylength`
    /// error in case the given key length is not supported.
    fn key_gen(key_len: u32, rng: &mut rand::rngs::ThreadRng) -> Result<(Self::SK, Self::PK), Error>;

    /// Takes a public key `public_key`, a message `message` and a
    /// RNG `rng` and returns a ciphertext.
    fn encrypt(public_key: &Self::PK, message: Self::MSG, rng: &mut rand::rngs::ThreadRng) -> Self::CTXT;

    /// Takes a secret key `secret_key` and a ciphertext `ciphertext`,
    /// and returns the decrypted message.
    fn decrypt(secret_key: &Self::SK, ciphertext: Self::CTXT) -> Self::MSG;
}

} // verus!
