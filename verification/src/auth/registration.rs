//! The account form that accompanies a registration.

use vstd::prelude::*;

verus! {

/// What a new user states about themselves when asking for an account.
#[derive(Debug, Clone)]
pub struct RegistrationRequest {
    pub first_name: String,
    pub last_name: String,
    pub username: String,
    pub email: String,
    pub gender: Option<String>,
}

} // verus!
