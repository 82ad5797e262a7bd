//! The handshake core of a TLS 1.2 / TLS 1.3 (draft 18) library.
//!
//! - `codec`, `base`, `enums`, `handshake`: the wire codec. Every `read`
//!   hands back only values whose `encoding()` is exactly the bytes it took.
//! - `suites`, `groups`: the supported cipher suites, groups and signature
//!   schemes, and how one of each is chosen.
//! - `kx`: ephemeral ECDHE (X25519, P-256, P-384), by ring.
//! - `crypto`: the primitives taken from ring (digest, HMAC, HKDF,
//!   slice comparison, randomness), their results named.
//! - `hash_hs`: the handshake transcript.
//! - `session`: the TLS 1.2 PRF, master secret, key block and verify_data.
//! - `key_schedule`: the TLS 1.3 HKDF key schedule.
//! - `record_guard`: which directions are protected, and with which keys.
//! - `client_hs`, `server_hs`, `expect`: the decisions of the client and
//!   server handshake state machines, and which messages each state takes.
//! - `persist`: the stored forms of sessions for resumption.
//! - `error`: why a handshake stops, and the alert owed to the peer.
//!
//! Certificate validation, signing with the server's or client's key, the
//! session stores, the ticketer and the record layer's AEAD are the
//! caller's: the functions here take their results as arguments.

pub mod base;
pub mod client_hs;
pub mod codec;
pub mod crypto;
pub mod enums;
pub mod error;
pub mod expect;
pub mod groups;
pub mod handshake;
pub mod hash_hs;
pub mod key_schedule;
pub mod kx;
pub mod persist;
pub mod record_guard;
pub mod server_hs;
pub mod session;
pub mod suites;
