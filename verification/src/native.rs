//! The tags under which events cross the boundary to a host runtime.

use crate::services::VerdantUiCmd;
use vstd::prelude::*;

verus! {

/// The kind of an event, as the host sees it.
#[derive(Debug, Clone, Copy, PartialEq, Eq, Structural)]
pub enum VerdantEventTag {
    /// No event was waiting.
    Empty,
    LoginResult,
    ServerDiscovered,
    LkToken,
    Error,
}

/// The kind of a login result, as the host sees it.
#[derive(Debug, Clone, Copy, PartialEq, Eq, Structural)]
pub enum LoginResultTag {
    Success,
    PasswordReset,
    Unauthorized,
    UnknownServer,
}

/// An IP address in a layout that the host can read: the version (4 or 6)
/// and the address in the first 4 or in all 16 bytes.
pub struct IpAddrFFI {
    pub version: u8,
    pub ipaddr: [u8; 16],
}

impl VerdantEventTag {
    /// The number that stands for the tag on the host's side.
    pub open spec fn spec_code(&self) -> u32 {
        match self {
            VerdantEventTag::Empty => 0,
            VerdantEventTag::LoginResult => 1,
            VerdantEventTag::ServerDiscovered => 2,
            VerdantEventTag::LkToken => 3,
            VerdantEventTag::Error => 0xFFFF,
        }
    }

    /// The number that stands for the tag on the host's side.
    pub fn code(&self) -> (code: u32)
        ensures
            code == self.spec_code(),
    {
        match self {
            VerdantEventTag::Empty => 0,
            VerdantEventTag::LoginResult => 1,
            VerdantEventTag::ServerDiscovered => 2,
            VerdantEventTag::LkToken => 3,
            VerdantEventTag::Error => 0xFFFF,
        }
    }

    /// The tag of what was received from the service: of the event, or
    /// `Empty` where nothing was waiting.
    pub fn of_event(event: &Option<VerdantUiCmd>) -> (tag: VerdantEventTag)
        ensures
            tag == match event {
                None => VerdantEventTag::Empty,
                Some(VerdantUiCmd::LoginResult(_)) => VerdantEventTag::LoginResult,
                Some(VerdantUiCmd::ServerDiscovered(_)) => VerdantEventTag::ServerDiscovered,
                Some(VerdantUiCmd::LkToken(_, _)) => VerdantEventTag::LkToken,
            },
    {
        match event {
            None => VerdantEventTag::Empty,
            Some(VerdantUiCmd::LoginResult(_)) => VerdantEventTag::LoginResult,
            Some(VerdantUiCmd::ServerDiscovered(_)) => VerdantEventTag::ServerDiscovered,
            Some(VerdantUiCmd::LkToken(_, _)) => VerdantEventTag::LkToken,
        }
    }
}

} // verus!
