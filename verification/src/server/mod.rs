//! The server's side of the handshake.

pub mod auth;
pub mod routes;
pub mod sessions;
