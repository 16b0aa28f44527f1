//! Verified core of a bridge between a TLS stack and private keys that live in
//! the Windows certificate and key stores (CNG).
//!
//! Nothing in this crate touches the platform. Every function takes what the
//! platform answered as plain values and decides what happens next: which
//! flags a request carries, which chain engine serves a certificate, where a
//! certificate chain ends, which signature scheme a key signs with, and how
//! the bytes that the key produced are put on the wire. The caller performs
//! the native calls in between.

pub mod cert;
pub mod codec;
pub mod error;
pub mod key;
pub mod scheme;
pub mod signer;
