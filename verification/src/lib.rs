//! A modular implementation of various modern cryptographic tools and primitives.

/// The prime-order group and its scalars.
pub mod group;
/// Chameleon hashes.
pub mod chameleon_hashing;
/// Encryption schemes.
pub mod encryption;
/// Convenience functions for hashing.
pub mod hashing;
/// Human-readable messages.
pub mod text;
/// Zero-knowledge proofs, Sigma protocols, Fiat-Shamir transformation, Compositions, ...
pub mod zkproofs;

