//! The client's side of the handshake.

pub mod auth;
