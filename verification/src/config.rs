//! What a deployment can configure.

use vstd::prelude::*;

verus! {

/// The configuration of a server.
pub trait Configuration {
    /// Whether the server announces itself for discovery.
    fn discoverable(&self) -> bool;
}

} // verus!
