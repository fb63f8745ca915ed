//! The answer of the token issuer for a media room.

use vstd::prelude::*;

verus! {

/// A token for a room of the media service.
#[derive(Debug, Clone, PartialEq, Eq, Hash)]
pub struct TokenResponse {
    /// The identifier of the room: the 16 bytes of a UUID.
    pub room_id: [u8; 16],
    pub token: String,
    pub room: String,
    pub url: String,
}

} // verus!
