//! The server protocol engine, and the answer to a login request.

pub use crate::auth::messages::{
    CredentialFinalization, CredentialRequest, CredentialResponse, ServerLogin,
    ServerRegistration, ServerSetup,
};
use crate::auth::messages::{
    RegistrationRequest, RegistrationResponse, RegistrationUpload, CREDENTIAL_FINALIZATION_LEN,
    CREDENTIAL_REQUEST_LEN, REGISTRATION_RESPONSE_LEN, REGISTRATION_UPLOAD_LEN, SERVER_LOGIN_LEN,
    SERVER_SETUP_LEN, SESSION_KEY_LEN,
};
use crate::auth::{DefaultCipherSuite, SessionId};
use crate::errors::ProtocolFailure;
use crate::codec::{put_bytes, put_raw, put_str, put_varint, spec_encode_bytes, spec_encode_str, spec_varint};
use vstd::prelude::*;
use vstd::utf8::encode_utf8;

verus! {

/// The server's answer to a login request.
#[derive(Debug, Clone, PartialEq, Eq)]
pub enum LoginResponse {
    /// The password must be reset out of band; the text says whom to contact.
    OTP(String),
    /// The key exchange goes on: the identifier of the session that the server
    /// opened, and its credential response.
    PAKE(SessionId, CredentialResponse),
    /// The server refuses the login.
    AccessDenied,
}

impl LoginResponse {
    /// The bytes by which the handshake transcript records the response: the
    /// number of the variant, then what the variant holds.
    pub open spec fn spec_encode(&self) -> Seq<u8> {
        match self {
            LoginResponse::OTP(contact) => spec_varint(0) + spec_encode_str(contact@),
            LoginResponse::PAKE(id, credentials) => spec_varint(1) + spec_encode_bytes(id@)
                + credentials@,
            LoginResponse::AccessDenied => spec_varint(2),
        }
    }

    /// Appends the transcript form of the response to `out`.
    pub fn encode(&self, out: &mut Vec<u8>)
        ensures
            final(out)@ == old(out)@ + self.spec_encode(),
    {
        match self {
            LoginResponse::OTP(contact) => {
                put_varint(out, 0);
                put_str(out, contact.as_str());
                assert(out@ =~= old(out)@ + (spec_varint(0) + spec_encode_str(contact@)));
            },
            LoginResponse::PAKE(id, credentials) => {
                put_varint(out, 1);
                put_bytes(out, id.bytes.as_slice());
                put_raw(out, credentials.bytes.as_slice());
                assert(out@ =~= old(out)@ + (spec_varint(1) + spec_encode_bytes(id@)
                    + credentials@));
            },
            LoginResponse::AccessDenied => {
                put_varint(out, 2);
            },
        }
    }
}

/// The serialized registration response that the server with the serialized
/// setup `setup` gives to the serialized request `request` of the user
/// `username`, or `None` where the step fails.
pub uninterp spec fn opaque_registration_response(
    setup: Seq<u8>,
    request: Seq<u8>,
    username: Seq<u8>,
) -> Option<Seq<u8>>;

/// The session key that the server derives when it finishes the login with
/// the serialized state `state` on the serialized finalization
/// `finalization`, or `None` where the finalization does not authenticate.
pub uninterp spec fn opaque_session_key(state: Seq<u8>, finalization: Seq<u8>) -> Option<Seq<u8>>;

/// Trusted: `opaque_ke::ServerSetup::new`, with the random number generator
/// of the operating system. Returns the serialized setup. It is random; what
/// holds of every outcome is its length, which the suite fixes.
#[verifier::external_body]
fn opaque_setup_generate() -> (setup: Vec<u8>)
    ensures
        setup@.len() == SERVER_SETUP_LEN,
{
    let mut rng = rand::rngs::OsRng;
    opaque_ke::ServerSetup::<DefaultCipherSuite>::new(&mut rng).serialize().to_vec()
}

/// Trusted: `opaque_ke::ServerRegistration::start`, on the setup and the
/// request deserialized from the given bytes. Returns the serialized
/// registration response, of the length that the suite fixes. The step draws
/// no randomness: its outcome depends on the three arguments alone. It fails
/// on a setup of another length than the suite fixes: the deserializer checks
/// the length first.
#[verifier::external_body]
fn opaque_registration_respond(setup: &[u8], request: &[u8], username: &[u8]) -> (outcome: Result<
    Vec<u8>,
    opaque_ke::errors::ProtocolError,
>)
    ensures
        match outcome {
            Ok(response) => opaque_registration_response(setup@, request@, username@) == Some(
                response@,
            ) && response@.len() == REGISTRATION_RESPONSE_LEN && setup@.len() == SERVER_SETUP_LEN,
            Err(_) => opaque_registration_response(setup@, request@, username@) is None,
        },
{
    let setup = opaque_ke::ServerSetup::<DefaultCipherSuite>::deserialize(setup)?;
    let request = opaque_ke::RegistrationRequest::<DefaultCipherSuite>::deserialize(request)?;
    let start = opaque_ke::ServerRegistration::<DefaultCipherSuite>::start(
        &setup,
        request,
        username,
    )?;
    Ok(start.message.serialize().to_vec())
}

/// Trusted: `opaque_ke::ServerLogin::start` with default parameters and the
/// random number generator of the operating system, on the setup, the user
/// record and the credential request deserialized from the given bytes.
/// Returns the serialized state and the credential response as `bincode`'s
/// serde encoder writes it in its standard configuration. They depend on the
/// randomness drawn. What holds of every outcome: the state has the length
/// that the suite fixes (three hash outputs), the response is not empty, and
/// the step fails on a setup, a record or a request of another length than
/// the suite fixes, which the deserializers check.
#[verifier::external_body]
fn opaque_server_login_start(
    setup: &[u8],
    record: &[u8],
    request: &[u8],
    username: &[u8],
) -> (outcome: Result<(Vec<u8>, Vec<u8>), opaque_ke::errors::ProtocolError>)
    ensures
        outcome matches Ok((state, response)) ==> {
            &&& state@.len() == SERVER_LOGIN_LEN
            &&& response@.len() > 0
            &&& setup@.len() == SERVER_SETUP_LEN
            &&& record@.len() == REGISTRATION_UPLOAD_LEN
            &&& request@.len() == CREDENTIAL_REQUEST_LEN
        },
{
    let mut rng = rand::rngs::OsRng;
    let setup = opaque_ke::ServerSetup::<DefaultCipherSuite>::deserialize(setup)?;
    let record = opaque_ke::ServerRegistration::<DefaultCipherSuite>::deserialize(record)?;
    let request = opaque_ke::CredentialRequest::<DefaultCipherSuite>::deserialize(request)?;
    let params = opaque_ke::ServerLoginStartParameters::default();
    let start = opaque_ke::ServerLogin::start(&mut rng, &setup, Some(record), request, username, params)?;
    let response = bincode::serde::encode_to_vec(&start.message, bincode::config::standard())
        .map_err(|_| opaque_ke::errors::ProtocolError::SerializationError)?;
    Ok((start.state.serialize().to_vec(), response))
}

/// Trusted: `opaque_ke::ServerLogin::finish`, on the state and the
/// finalization deserialized from the given bytes. Returns the session key,
/// of the length of the suite's hash. The step draws no randomness: its
/// outcome depends on the two arguments alone. It fails on a state or a
/// finalization of another length than the suite fixes: the deserializers
/// check the length first.
#[verifier::external_body]
fn opaque_server_login_finish(state: &[u8], finalization: &[u8]) -> (outcome: Result<
    Vec<u8>,
    opaque_ke::errors::ProtocolError,
>)
    ensures
        match outcome {
            Ok(key) => opaque_session_key(state@, finalization@) == Some(key@) && key@.len()
                == SESSION_KEY_LEN && state@.len() == SERVER_LOGIN_LEN && finalization@.len()
                == CREDENTIAL_FINALIZATION_LEN,
            Err(_) => opaque_session_key(state@, finalization@) is None,
        },
{
    let state = opaque_ke::ServerLogin::<DefaultCipherSuite>::deserialize(state)?;
    let finalization = opaque_ke::CredentialFinalization::<DefaultCipherSuite>::deserialize(
        finalization,
    )?;
    let finish = state.finish(finalization)?;
    Ok(finish.session_key.to_vec())
}

impl ServerSetup {
    /// Generates the secret parameters of a new server identity from the
    /// random number generator of the operating system.
    pub fn generate() -> (setup: Self)
        ensures
            setup@.len() == SERVER_SETUP_LEN,
    {
        ServerSetup::from_bytes(opaque_setup_generate())
    }
}

/// The server protocol engine: it answers registrations and logins with the
/// long-lived setup that it was made with. The setup is only read, so that
/// one engine serves any number of logins.
pub struct Server {
    setup: ServerSetup,
}

impl Server {
    /// The serialized setup that the engine was made with.
    pub closed spec fn spec_setup(&self) -> Seq<u8> {
        self.setup@
    }

    /// The engine of the server whose secret parameters are `setup`.
    pub fn new(setup: ServerSetup) -> (server: Self)
        ensures
            server.spec_setup() == setup@,
    {
        Server { setup }
    }

    /// What `start_registration` yields: the response, or `None` where the
    /// step fails.
    pub open spec fn spec_start_registration(
        &self,
        request: RegistrationRequest,
        username: Seq<char>,
    ) -> Option<Seq<u8>> {
        opaque_registration_response(self.spec_setup(), request@, encode_utf8(username))
    }

    /// Answers a registration request of the user `username`.
    ///
    /// The answer is determined by the setup, the request and the user name.
    /// Fails where the request or the setup is malformed.
    pub fn start_registration(&self, request: RegistrationRequest, username: &str) -> (started:
        Result<RegistrationResponse, ProtocolFailure>)
        ensures
            match started {
                Ok(response) => self.spec_start_registration(request, username@) == Some(
                    response@,
                ) && response@.len() == REGISTRATION_RESPONSE_LEN,
                Err(_) => self.spec_start_registration(request, username@) is None,
            },
            self.spec_setup().len() != SERVER_SETUP_LEN ==> started is Err,
    {
        match opaque_registration_respond(
            self.setup.bytes.as_slice(),
            request.bytes.as_slice(),
            username.as_bytes(),
        ) {
            Ok(response) => Ok(RegistrationResponse::from_bytes(response)),
            Err(source) => Err(ProtocolFailure::new(source)),
        }
    }

    /// Turns the client's upload into the record to store for the user. The
    /// record is the upload itself: the step consults neither the setup nor
    /// anything else.
    pub fn finish_registration(&self, upload: RegistrationUpload) -> (record: ServerRegistration)
        ensures
            record@ == upload@,
    {
        ServerRegistration::from_bytes(upload.bytes)
    }

    /// What `start_login` hands out for each outcome of the key exchange: the
    /// state and the response that it produced, or its failure.
    pub fn login_started(
        outcome: Result<(Vec<u8>, Vec<u8>), opaque_ke::errors::ProtocolError>,
    ) -> (started: Result<(ServerLogin, CredentialResponse), ProtocolFailure>)
        ensures
            match outcome {
                Ok((state, message)) => started matches Ok((s, m)) && s@ == state@ && m@
                    == message@,
                Err(source) => started matches Err(e) && e.source == source,
            },
    {
        match outcome {
            Ok((state, message)) => Ok(
                (ServerLogin::from_bytes(state), CredentialResponse::from_bytes(message)),
            ),
            Err(source) => Err(ProtocolFailure::new(source)),
        }
    }

    /// Answers the credential request of the user `username`, whose stored
    /// record is `registration`, with fresh randomness.
    ///
    /// Returns the state to keep for `finish_login` and the credential
    /// response to send to the client. Fails where the record is corrupt or
    /// the request is malformed; a record, a request or a setup of the wrong
    /// length is.
    pub fn start_login(
        &self,
        registration: ServerRegistration,
        credential_request: CredentialRequest,
        username: &str,
    ) -> (started: Result<(ServerLogin, CredentialResponse), ProtocolFailure>)
        ensures
            started matches Ok((state, response)) ==> state@.len() == SERVER_LOGIN_LEN
                && response@.len() > 0,
            registration@.len() != REGISTRATION_UPLOAD_LEN || credential_request@.len()
                != CREDENTIAL_REQUEST_LEN || self.spec_setup().len() != SERVER_SETUP_LEN
                ==> started is Err,
    {
        Self::login_started(
            opaque_server_login_start(
                self.setup.bytes.as_slice(),
                registration.bytes.as_slice(),
                credential_request.bytes.as_slice(),
                username.as_bytes(),
            ),
        )
    }

    /// Finishes a login with the client's finalization, and consumes the
    /// state.
    ///
    /// Returns the session key, of `SESSION_KEY_LEN` bytes, which is then
    /// shared with the client. Fails where the finalization does not
    /// authenticate under the handshake and the password: with a wrong
    /// password. A state or a finalization of the wrong length is refused.
    pub fn finish_login(
        &self,
        server_login: ServerLogin,
        client_finalization: CredentialFinalization,
    ) -> (finished: Result<Vec<u8>, ProtocolFailure>)
        ensures
            match finished {
                Ok(key) => opaque_session_key(server_login@, client_finalization@) == Some(key@)
                    && key@.len() == SESSION_KEY_LEN,
                Err(_) => opaque_session_key(server_login@, client_finalization@) is None,
            },
            server_login@.len() != SERVER_LOGIN_LEN || client_finalization@.len()
                != CREDENTIAL_FINALIZATION_LEN ==> finished is Err,
    {
        match opaque_server_login_finish(
            server_login.bytes.as_slice(),
            client_finalization.bytes.as_slice(),
        ) {
            Ok(key) => Ok(key),
            Err(source) => Err(ProtocolFailure::new(source)),
        }
    }
}

} // verus!
