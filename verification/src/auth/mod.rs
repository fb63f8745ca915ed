//! The password-authenticated key exchange and what is built on it.

pub mod challenge;
pub mod messages;
pub mod registration;

use crate::auth::messages::{ServerRegistration, REGISTRATION_UPLOAD_LEN};
use crate::client::auth::Client;
use crate::errors::ProtocolFailure;
use crate::server::auth::{opaque_registration_response, Server};
use vstd::prelude::*;
use vstd::utf8::encode_utf8;

verus! {

/// The OPRF and key-exchange group of the suite.
#[verifier::external_type_specification]
#[verifier::external_body]
pub struct ExRistretto255(opaque_ke::Ristretto255);

/// The key-exchange construction of the suite.
#[verifier::external_type_specification]
#[verifier::external_body]
pub struct ExTripleDh(opaque_ke::key_exchange::tripledh::TripleDh);

/// The key-stretching function of the suite.
#[verifier::external_type_specification]
#[verifier::external_body]
pub struct ExIdentity(opaque_ke::ksf::Identity);

/// The parameters of the key exchange, the same on both peers: Ristretto255
/// for the OPRF and for the key exchange, triple Diffie-Hellman, and no key
/// stretching. Changing any of them changes the wire format.
pub struct DefaultCipherSuite;

impl opaque_ke::CipherSuite for DefaultCipherSuite {
    type OprfCs = opaque_ke::Ristretto255;

    type KeGroup = opaque_ke::Ristretto255;

    type KeyExchange = opaque_ke::key_exchange::tripledh::TripleDh;

    type Ksf = opaque_ke::ksf::Identity;
}

/// How a login attempt ended.
#[derive(Debug, Clone)]
pub enum LoginResult {
    /// The login succeeded; the access token is within.
    Success(String),
    /// The password must be reset out of band before a login can succeed.
    PasswordReset,
    /// The login was refused.
    Unauthorized,
    /// No server is known under the given URL.
    UnknownServer(String),
}

/// The identifier that the server chose for one login: the 16 bytes of a
/// UUID.
#[derive(Debug, Clone, Copy, PartialEq, Eq, Hash)]
pub struct SessionId {
    pub bytes: [u8; 16],
}

impl View for SessionId {
    type V = Seq<u8>;

    open spec fn view(&self) -> Seq<u8> {
        self.bytes@
    }
}

impl SessionId {
    /// The identifier with the given bytes.
    pub fn from_bytes(bytes: [u8; 16]) -> (id: SessionId)
        ensures
            id.bytes == bytes,
    {
        SessionId { bytes }
    }

    /// Tells whether two identifiers are the same.
    pub fn same(&self, other: &SessionId) -> (same: bool)
        ensures
            same == (self@ == other@),
    {
        crate::ct::ct_eq(self.bytes.as_slice(), other.bytes.as_slice())
    }
}

/// Registers the user `username` with the password `password` at `server`:
/// runs the client's and the server's registration steps against each other
/// and returns the record that the server is to store.
///
/// Fails with the failure of the first step that fails. The client's steps
/// draw fresh randomness, so that the record differs from call to call; where
/// a record is returned, it has the length of a record and the server has
/// answered a request of `username`.
pub fn register_user(server: &Server, username: &str, password: &str) -> (registered: Result<
    ServerRegistration,
    ProtocolFailure,
>)
    ensures
        registered matches Ok(record) ==> record@.len() == REGISTRATION_UPLOAD_LEN,
        registered is Ok ==> exists|request: Seq<u8>|
            #[trigger] opaque_registration_response(
                server.spec_setup(),
                request,
                encode_utf8(username@),
            ) is Some,
{
    let client = Client::new(password);
    let (client_reg, regreq) = match client.start_registration() {
        Ok(started) => started,
        Err(e) => { return Err(e); },
    };
    let response = match server.start_registration(regreq, username) {
        Ok(response) => response,
        Err(e) => { return Err(e); },
    };
    let upload = match client.finish_registration(client_reg, response) {
        Ok(upload) => upload,
        Err(e) => { return Err(e); },
    };
    Ok(server.finish_registration(upload))
}

} // verus!
