//! Deterministic key derivation for the Stellar account namespace.
//!
//! A [`SeedPhrase`] owns a checksum-valid, whitespace-normalized BIP-39
//! mnemonic and derives 64-byte seeds and SLIP-10 ed25519 key pairs along
//! paths under the fixed account prefix `m/44'/148'`; a [`KeyPair`] wraps
//! one derived raw key and exposes its 32-byte public and private parts,
//! each renderable in the network's text encoding.

pub mod codec;
pub mod deriver;
pub mod encoder;
pub mod error;
pub mod keypair;
pub mod seed_phrase;
pub mod text;

pub use codec::WordCount;
pub use deriver::Curve;
pub use error::Error;
pub use keypair::{KeyPair, PrivateKey, PublicKey};
pub use seed_phrase::{Seed, SeedPhrase};
