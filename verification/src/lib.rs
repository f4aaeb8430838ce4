//! Threshold cryptography over a bilinear pairing group: a (k, n) threshold
//! BLS-style signature scheme and a (k, n) threshold encryption scheme.
//!
//! A trusted dealer splits a master secret among `n` players with a random
//! polynomial over the scalar field; any `k` players can jointly produce a
//! valid signature or decrypt a ciphertext by Lagrange interpolation in the
//! exponent, while fewer than `k` learn nothing.

pub mod bytes;
pub mod scalars;
pub mod groups;
pub mod poly;
mod dealing;
pub mod combine;
pub mod boldyreva;
pub mod gdh;
