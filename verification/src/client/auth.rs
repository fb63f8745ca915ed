//! The client protocol engine, and the request that opens a login.

use crate::auth::messages::{
    ClientLogin, ClientRegistration, CredentialFinalization, CredentialRequest,
    CredentialResponse, RegistrationRequest, RegistrationResponse, RegistrationUpload,
    CLIENT_LOGIN_LEN, CLIENT_REGISTRATION_LEN, CREDENTIAL_FINALIZATION_LEN,
    CREDENTIAL_REQUEST_LEN, REGISTRATION_REQUEST_LEN, REGISTRATION_RESPONSE_LEN,
    REGISTRATION_UPLOAD_LEN, SESSION_KEY_LEN,
};
use crate::auth::DefaultCipherSuite;
use crate::errors::ProtocolFailure;
use crate::codec::{put_str, spec_encode_str};
use crate::crypto::{base64_decode, base64_encode, base64_encode_text};
use vstd::prelude::*;
use vstd::utf8::encode_utf8;

verus! {

/// The first message of a login: who asks, and the client's credential
/// request as base64 text.
#[derive(Debug, Clone, PartialEq, Eq)]
pub struct LoginRequest {
    pub username: String,
    pub credentials: String,
}

impl LoginRequest {
    /// The request of `username` that carries `credentials`.
    pub fn new(username: &str, credentials: CredentialRequest) -> (request: Self)
        ensures
            request.username@ == username@,
            request.credentials@ == base64_encode(credentials@),
            base64_decode(request.credentials@) == Some(credentials@),
    {
        let credentials = base64_encode_text(credentials.bytes.as_slice());
        LoginRequest { username: username.to_owned(), credentials }
    }

    /// The bytes by which the handshake transcript records the request: the
    /// user name, then the credentials, each as encoded text.
    pub open spec fn spec_encode(&self) -> Seq<u8> {
        spec_encode_str(self.username@) + spec_encode_str(self.credentials@)
    }

    /// Appends the transcript form of the request to `out`.
    pub fn encode(&self, out: &mut Vec<u8>)
        ensures
            final(out)@ == old(out)@ + self.spec_encode(),
    {
        put_str(out, self.username.as_str());
        put_str(out, self.credentials.as_str());
        assert(out@ =~= old(out)@ + (spec_encode_str(self.username@) + spec_encode_str(
            self.credentials@,
        )));
    }
}

/// What finishing a login yields on the client: the session key and the
/// serialized credential finalization, or `None` where the step fails. The
/// arguments are the serialized login state, the password and the credential
/// response in its transcript form.
pub uninterp spec fn opaque_login_finish(
    state: Seq<u8>,
    password: Seq<u8>,
    response: Seq<u8>,
) -> Option<(Seq<u8>, Seq<u8>)>;

/// Trusted: `opaque_ke::ClientRegistration::start`, with the random number
/// generator of the operating system. Returns the serialized state and the
/// serialized registration request. They depend on the randomness drawn;
/// what holds of every outcome is their lengths, which the suite fixes.
#[verifier::external_body]
fn opaque_registration_start(password: &[u8]) -> (outcome: Result<
    (Vec<u8>, Vec<u8>),
    opaque_ke::errors::ProtocolError,
>)
    ensures
        outcome matches Ok((state, message)) ==> state@.len() == CLIENT_REGISTRATION_LEN
            && message@.len() == REGISTRATION_REQUEST_LEN,
{
    let mut rng = rand::rngs::OsRng;
    let start = opaque_ke::ClientRegistration::<DefaultCipherSuite>::start(&mut rng, password)?;
    Ok((start.state.serialize().to_vec(), start.message.serialize().to_vec()))
}

/// Trusted: `opaque_ke::ClientRegistration::finish` with default parameters
/// and the random number generator of the operating system, on the state and
/// the response deserialized from the given bytes. Returns the serialized
/// registration upload. It depends on the randomness drawn; what holds of
/// every outcome is its length, and that the step fails on a state or a
/// response of another length than the suite fixes: the two deserializers
/// check the length first.
#[verifier::external_body]
fn opaque_registration_finish(state: &[u8], password: &[u8], response: &[u8]) -> (outcome: Result<
    Vec<u8>,
    opaque_ke::errors::ProtocolError,
>)
    ensures
        outcome matches Ok(upload) ==> upload@.len() == REGISTRATION_UPLOAD_LEN && state@.len()
            == CLIENT_REGISTRATION_LEN && response@.len() == REGISTRATION_RESPONSE_LEN,
{
    let mut rng = rand::rngs::OsRng;
    let state = opaque_ke::ClientRegistration::<DefaultCipherSuite>::deserialize(state)?;
    let response = opaque_ke::RegistrationResponse::<DefaultCipherSuite>::deserialize(response)?;
    let params = opaque_ke::ClientRegistrationFinishParameters::default();
    let finish = state.finish(&mut rng, password, response, params)?;
    Ok(finish.message.serialize().to_vec())
}

/// Trusted: `opaque_ke::ClientLogin::start`, with the random number generator
/// of the operating system. Returns the serialized state and the serialized
/// credential request. They depend on the randomness drawn; what holds of
/// every outcome is their lengths, which the suite fixes.
#[verifier::external_body]
fn opaque_login_start(password: &[u8]) -> (outcome: Result<
    (Vec<u8>, Vec<u8>),
    opaque_ke::errors::ProtocolError,
>)
    ensures
        outcome matches Ok((state, message)) ==> state@.len() == CLIENT_LOGIN_LEN
            && message@.len() == CREDENTIAL_REQUEST_LEN,
{
    let mut rng = rand::rngs::OsRng;
    let start = opaque_ke::ClientLogin::<DefaultCipherSuite>::start(&mut rng, password)?;
    Ok((start.state.serialize().to_vec(), start.message.serialize().to_vec()))
}

/// Trusted: `opaque_ke::ClientLogin::finish` with default parameters, on the
/// state deserialized from `state` and the credential response decoded from
/// `response` by `bincode`'s serde decoder in its standard configuration (a
/// failure to decode is reported as a serialization error). Returns the
/// session key and the serialized credential finalization, both of the
/// length that the suite fixes. The step draws no randomness: its outcome
/// depends on the three arguments alone.
#[verifier::external_body]
fn opaque_login_finish_call(state: &[u8], password: &[u8], response: &[u8]) -> (outcome: Result<
    (Vec<u8>, Vec<u8>),
    opaque_ke::errors::ProtocolError,
>)
    ensures
        match outcome {
            Ok((key, finalization)) => opaque_login_finish(state@, password@, response@) == Some(
                (key@, finalization@),
            ) && key@.len() == SESSION_KEY_LEN && finalization@.len()
                == CREDENTIAL_FINALIZATION_LEN,
            Err(_) => opaque_login_finish(state@, password@, response@) is None,
        },
{
    let state = opaque_ke::ClientLogin::<DefaultCipherSuite>::deserialize(state)?;
    let (response, _) = bincode::serde::decode_from_slice::<
        opaque_ke::CredentialResponse<DefaultCipherSuite>,
        _,
    >(response, bincode::config::standard())
        .map_err(|_| opaque_ke::errors::ProtocolError::SerializationError)?;
    let params = opaque_ke::ClientLoginFinishParameters::default();
    let finish = state.finish(password, response, params)?;
    Ok((finish.session_key.to_vec(), finish.message.serialize().to_vec()))
}

/// The client protocol engine: it drives the start and the finish of a
/// registration and of a login with the password that it was made with.
pub struct Client {
    password: String,
}

impl Client {
    /// The password that the engine was made with.
    pub closed spec fn spec_password(&self) -> Seq<char> {
        self.password@
    }

    /// The engine of the user whose password is `password`.
    pub fn new(password: &str) -> (client: Self)
        ensures
            client.spec_password() == password@,
    {
        Client { password: password.to_owned() }
    }

    /// What a start step hands out for each outcome of the key exchange: the
    /// state and the message that it produced, or its failure.
    pub fn registration_started(
        outcome: Result<(Vec<u8>, Vec<u8>), opaque_ke::errors::ProtocolError>,
    ) -> (started: Result<(ClientRegistration, RegistrationRequest), ProtocolFailure>)
        ensures
            match outcome {
                Ok((state, message)) => started matches Ok((s, m)) && s@ == state@ && m@
                    == message@,
                Err(source) => started matches Err(e) && e.source == source,
            },
    {
        match outcome {
            Ok((state, message)) => Ok(
                (ClientRegistration::from_bytes(state), RegistrationRequest::from_bytes(message)),
            ),
            Err(source) => Err(ProtocolFailure::new(source)),
        }
    }

    /// Starts a registration: blinds the password with fresh randomness.
    ///
    /// Returns the state to keep for `finish_registration` and the request to
    /// send to the server. Fails where the blinding fails.
    pub fn start_registration(&self) -> (started: Result<
        (ClientRegistration, RegistrationRequest),
        ProtocolFailure,
    >)
        ensures
            started matches Ok((state, request)) ==> state@.len() == CLIENT_REGISTRATION_LEN
                && request@.len() == REGISTRATION_REQUEST_LEN,
    {
        Self::registration_started(opaque_registration_start(self.password.as_str().as_bytes()))
    }

    /// What `finish_registration` hands out for each outcome of the key
    /// exchange: the upload that it produced, or its failure.
    pub fn registration_finished(
        outcome: Result<Vec<u8>, opaque_ke::errors::ProtocolError>,
    ) -> (finished: Result<RegistrationUpload, ProtocolFailure>)
        ensures
            match outcome {
                Ok(message) => finished matches Ok(m) && m@ == message@,
                Err(source) => finished matches Err(e) && e.source == source,
            },
    {
        match outcome {
            Ok(message) => Ok(RegistrationUpload::from_bytes(message)),
            Err(source) => Err(ProtocolFailure::new(source)),
        }
    }

    /// Finishes a registration with the server's response, and consumes the
    /// state.
    ///
    /// Returns the upload that the server is to store. Fails where the
    /// response is malformed or reflects the client's own request; a state or
    /// a response of the wrong length is malformed.
    pub fn finish_registration(
        &self,
        registration: ClientRegistration,
        response: RegistrationResponse,
    ) -> (finished: Result<RegistrationUpload, ProtocolFailure>)
        ensures
            finished matches Ok(upload) ==> upload@.len() == REGISTRATION_UPLOAD_LEN,
            registration@.len() != CLIENT_REGISTRATION_LEN || response@.len()
                != REGISTRATION_RESPONSE_LEN ==> finished is Err,
    {
        Self::registration_finished(
            opaque_registration_finish(
                registration.bytes.as_slice(),
                self.password.as_str().as_bytes(),
                response.bytes.as_slice(),
            ),
        )
    }

    /// What `start_login` hands out for each outcome of the key exchange: the
    /// state and the request that it produced, or its failure.
    pub fn login_started(
        outcome: Result<(Vec<u8>, Vec<u8>), opaque_ke::errors::ProtocolError>,
    ) -> (started: Result<(ClientLogin, CredentialRequest), ProtocolFailure>)
        ensures
            match outcome {
                Ok((state, message)) => started matches Ok((s, m)) && s@ == state@ && m@
                    == message@,
                Err(source) => started matches Err(e) && e.source == source,
            },
    {
        match outcome {
            Ok((state, message)) => Ok(
                (ClientLogin::from_bytes(state), CredentialRequest::from_bytes(message)),
            ),
            Err(source) => Err(ProtocolFailure::new(source)),
        }
    }

    /// Starts a login: blinds the password and opens the key exchange, both
    /// with fresh randomness.
    ///
    /// Returns the state to keep for `finish_login` and the credential request
    /// to send to the server.
    pub fn start_login(&self) -> (started: Result<(ClientLogin, CredentialRequest), ProtocolFailure>)
        ensures
            started matches Ok((state, request)) ==> state@.len() == CLIENT_LOGIN_LEN
                && request@.len() == CREDENTIAL_REQUEST_LEN,
    {
        Self::login_started(opaque_login_start(self.password.as_str().as_bytes()))
    }

    /// What finishing a login with this engine yields: the session key and
    /// the credential finalization, or `None` where the step fails.
    pub open spec fn spec_finish_login(
        &self,
        client_login: ClientLogin,
        credential_response: CredentialResponse,
    ) -> Option<(Seq<u8>, Seq<u8>)> {
        opaque_login_finish(
            client_login@,
            encode_utf8(self.spec_password()),
            credential_response@,
        )
    }

    /// Finishes a login with the server's credential response, and consumes
    /// the state.
    ///
    /// Returns the session key, of `SESSION_KEY_LEN` bytes, and the
    /// finalization to send to the server.
    /// Fails where the response is malformed and where the password is not
    /// the one that the user registered with: at this layer that failure is
    /// the only sign of a wrong password.
    pub fn finish_login(
        &self,
        client_login: ClientLogin,
        credential_response: CredentialResponse,
    ) -> (finished: Result<(Vec<u8>, CredentialFinalization), ProtocolFailure>)
        ensures
            match finished {
                Ok((key, finalization)) => self.spec_finish_login(
                    client_login,
                    credential_response,
                ) == Some((key@, finalization@)) && key@.len() == SESSION_KEY_LEN
                    && finalization@.len() == CREDENTIAL_FINALIZATION_LEN,
                Err(_) => self.spec_finish_login(client_login, credential_response) is None,
            },
    {
        match opaque_login_finish_call(
            client_login.bytes.as_slice(),
            self.password.as_str().as_bytes(),
            credential_response.bytes.as_slice(),
        ) {
            Ok((key, finalization)) => Ok((key, CredentialFinalization::from_bytes(finalization))),
            Err(source) => Err(ProtocolFailure::new(source)),
        }
    }
}

} // verus!
