//! Mutually authenticated password login between an untrusted client and a
//! discoverable server, built around an OPAQUE key exchange.
//!
//! The password never leaves the client. Both peers derive a shared session
//! key, prove possession of it with confirmation tags bound to the handshake
//! transcript, and only then does the server hand out an access token.

pub mod ct;
pub mod crypto;
pub mod codec;
pub mod errors;
pub mod auth;
pub mod client;
pub mod server;
pub mod api;
pub mod login;
pub mod config;
pub mod livekit;
pub mod services;
pub mod native;
