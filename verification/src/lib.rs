//! The key-derivation core and runtime algorithm-agility layer of a
//! hybrid public-key encryption stack: a closed registry of AEAD, KDF,
//! key-exchange and KEM algorithms; a domain-separated labeled
//! extract/expand construction over HKDF; byte buffers tagged with the
//! algorithms they claim to belong to, with validation and fallible
//! lifting into statically-typed form; and a dispatch engine that
//! validates a runtime-selected algorithm triple, derives an encryption
//! context by encapsulating to the recipient's key, and hands back a
//! sealing/opening capability.

pub mod aead;
pub mod agile;
pub mod algs;
pub mod bytes;
pub mod err;
pub mod kdf;
pub mod kex;
pub mod roundtrip;
pub mod setup;
