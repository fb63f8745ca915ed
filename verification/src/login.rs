//! The client's side of one login exchange, as a state machine.
//!
//! The exchange alternates sending and deciding. The sending is not done
//! here: each function below takes what arrived, moves the exchange to its
//! next phase and says what is to be sent next, or how the exchange ended.

use crate::api::{spec_algorithm_names, spec_texts, APIClient, DecodingKey, KeyFamily};
use crate::auth::challenge::{
    spec_client_tag, spec_server_tag, spec_transcript, LoginCompletion, LoginUpload, Transcript,
};
use crate::auth::messages::{ClientLogin, CredentialRequest, CredentialResponse};
use crate::auth::LoginResult;
use crate::client::auth::{Client, LoginRequest};
use crate::auth::messages::{CLIENT_LOGIN_LEN, CREDENTIAL_REQUEST_LEN};
use crate::crypto::{base64_decode, base64_encode};
use crate::errors::{Error, ProtocolFailure};
use crate::server::auth::LoginResponse;
use vstd::prelude::*;

verus! {

/// What the token validator makes of `token` with a key of `family` whose
/// bytes are `key`, where `algorithms` names the permitted signature
/// algorithms, all checks made but that of the expiry: `None` where the token
/// is rejected, else the expiry time that it claims, in seconds since the
/// epoch, or `None` within where that claim is not a whole number.
pub uninterp spec fn jwt_expiry(
    family: KeyFamily,
    token: Seq<char>,
    key: Seq<u8>,
    algorithms: Seq<Seq<char>>,
) -> Option<Option<u64>>;

/// Trusted: `jsonwebtoken::decode` of `token` into a JSON value, with
/// `DecodingKey::from_rsa_der` of `key` and the default `Validation`, in which
/// the permitted algorithms are those that `Algorithm::from_str` reads from
/// `algorithms` and the check of the expiry is switched off. Returns the
/// `exp` claim as `as_u64` reads it where the token is accepted, else the
/// text of the error. With the expiry check off the validator does not read
/// the clock: the outcome depends on the three arguments alone.
#[verifier::external_body]
fn jwt_decode_rsa(token: &str, key: &[u8], algorithms: &Vec<String>) -> (outcome: Result<
    Option<u64>,
    String,
>)
    ensures
        match outcome {
            Ok(expiry) => jwt_expiry(KeyFamily::Rsa, token@, key@, spec_texts(algorithms@))
                == Some(expiry),
            Err(_) => jwt_expiry(KeyFamily::Rsa, token@, key@, spec_texts(algorithms@)) is None,
        },
{
    let key = jsonwebtoken::DecodingKey::from_rsa_der(key);
    let parsed: Result<Vec<jsonwebtoken::Algorithm>, jsonwebtoken::errors::Error> =
        algorithms.iter().map(|name| name.parse()).collect();
    let mut validation = jsonwebtoken::Validation::default();
    validation.algorithms = parsed.map_err(|e| e.to_string())?;
    validation.validate_exp = false;
    jsonwebtoken::decode::<serde_json::Value>(token, &key, &validation)
        .map(|data| data.claims.get("exp").and_then(|expiry| expiry.as_u64()))
        .map_err(|e| e.to_string())
}

/// Trusted: as `jwt_decode_rsa`, with `DecodingKey::from_ec_der`.
#[verifier::external_body]
fn jwt_decode_ec(token: &str, key: &[u8], algorithms: &Vec<String>) -> (outcome: Result<
    Option<u64>,
    String,
>)
    ensures
        match outcome {
            Ok(expiry) => jwt_expiry(KeyFamily::Ec, token@, key@, spec_texts(algorithms@))
                == Some(expiry),
            Err(_) => jwt_expiry(KeyFamily::Ec, token@, key@, spec_texts(algorithms@)) is None,
        },
{
    let key = jsonwebtoken::DecodingKey::from_ec_der(key);
    let parsed: Result<Vec<jsonwebtoken::Algorithm>, jsonwebtoken::errors::Error> =
        algorithms.iter().map(|name| name.parse()).collect();
    let mut validation = jsonwebtoken::Validation::default();
    validation.algorithms = parsed.map_err(|e| e.to_string())?;
    validation.validate_exp = false;
    jsonwebtoken::decode::<serde_json::Value>(token, &key, &validation)
        .map(|data| data.claims.get("exp").and_then(|expiry| expiry.as_u64()))
        .map_err(|e| e.to_string())
}

/// Trusted: as `jwt_decode_rsa`, with `DecodingKey::from_ed_der`.
#[verifier::external_body]
fn jwt_decode_ed(token: &str, key: &[u8], algorithms: &Vec<String>) -> (outcome: Result<
    Option<u64>,
    String,
>)
    ensures
        match outcome {
            Ok(expiry) => jwt_expiry(KeyFamily::Ed, token@, key@, spec_texts(algorithms@))
                == Some(expiry),
            Err(_) => jwt_expiry(KeyFamily::Ed, token@, key@, spec_texts(algorithms@)) is None,
        },
{
    let key = jsonwebtoken::DecodingKey::from_ed_der(key);
    let parsed: Result<Vec<jsonwebtoken::Algorithm>, jsonwebtoken::errors::Error> =
        algorithms.iter().map(|name| name.parse()).collect();
    let mut validation = jsonwebtoken::Validation::default();
    validation.algorithms = parsed.map_err(|e| e.to_string())?;
    validation.validate_exp = false;
    jsonwebtoken::decode::<serde_json::Value>(token, &key, &validation)
        .map(|data| data.claims.get("exp").and_then(|expiry| expiry.as_u64()))
        .map_err(|e| e.to_string())
}

/// Trusted: `jsonwebtoken::get_current_timestamp`. Returns the time in
/// seconds since the epoch, as the token validator reads it. Nothing is
/// claimed of it.
#[verifier::external_body]
fn jwt_now() -> (now: u64) {
    jsonwebtoken::get_current_timestamp()
}

/// How a login exchange ended.
#[derive(Debug, Clone, Copy, PartialEq, Eq, Structural)]
pub enum Terminal {
    /// The server confirmed the login and its token was accepted.
    Success,
    /// The login was refused.
    Unauthorized,
    /// The password must be reset out of band.
    Reset,
    /// The peer failed to prove that it is the server: the key exchange
    /// failed, or the server's confirmation tag did not verify.
    AuthenticityFailure,
}

/// Where a login exchange stands. What a phase holds is dropped when the
/// exchange leaves it.
pub enum LoginPhase {
    /// Nothing was sent yet.
    Idle,
    /// The login request was sent; the server's response is awaited.
    AwaitingServerResponse { engine: Client, state: ClientLogin, request: LoginRequest },
    /// The client's confirmation was sent; the server's completion is
    /// awaited.
    AwaitingServerCompletion { session_key: Vec<u8>, transcript: Transcript },
    /// The exchange is over.
    Terminal(Terminal),
}

/// What is to be done next in a login exchange.
#[derive(Debug)]
pub enum LoginStep {
    /// Send the request to the server's login endpoint and hand its answer to
    /// `continue_login`.
    SendRequest(LoginRequest),
    /// Send the upload to the server's finalize endpoint and hand its answer
    /// to `complete_login`.
    SendUpload(LoginUpload),
    /// Nothing: the exchange is over, with this outcome.
    Done(Result<LoginResult, Error>),
}

/// For how many seconds past its expiry a token is still accepted, to
/// allow for clocks that differ.
pub const TOKEN_LEEWAY: u64 = 60;

/// Whether a token that expires at `expiry` is still accepted at `now`.
pub open spec fn spec_token_fresh(expiry: u64, now: u64) -> bool {
    expiry + TOKEN_LEEWAY >= now
}

/// Whether a token is accepted at `now`, given what the validator made of
/// it with the expiry left aside: it must have passed, and the expiry that it
/// claims must be a whole number of seconds that is not past.
pub open spec fn spec_token_accepted(decoded: Option<Option<u64>>, now: u64) -> bool {
    decoded matches Some(Some(expiry)) && spec_token_fresh(expiry, now)
}

/// What validating a token at the time `now` yields, for each outcome of the
/// validator with the expiry left aside: the token itself where it passed and
/// has not expired, else `Error::JSONWebToken`, with the validator's text
/// where the validator rejected it.
pub fn token_verdict(token: &str, decoded: Result<Option<u64>, String>, now: u64) -> (verdict:
    Result<String, Error>)
    ensures
        match decoded {
            Ok(Some(expiry)) => if spec_token_fresh(expiry, now) {
                verdict matches Ok(t) && t@ == token@
            } else {
                verdict matches Err(Error::JSONWebToken(_))
            },
            Ok(None) => verdict matches Err(Error::JSONWebToken(_)),
            Err(text) => verdict matches Err(Error::JSONWebToken(t)) && t@ == text@,
        },
{
    match decoded {
        Ok(Some(expiry)) => {
            if expiry >= now || now - expiry <= TOKEN_LEEWAY {
                Ok(token.to_owned())
            } else {
                Err(Error::JSONWebToken("ExpiredSignature".to_owned()))
            }
        },
        Ok(None) => Err(Error::JSONWebToken("the expiry is not a whole number".to_owned())),
        Err(text) => Err(Error::JSONWebToken(text)),
    }
}

/// The first step of a login for each outcome of the start of the key
/// exchange.
///
/// Where the start succeeded, the request of `username` with the credential
/// request is to be sent, and the exchange awaits the server's response.
/// Where it failed, the exchange is over: the failure is handed on as
/// `Error::Opaque`.
pub fn login_begun(
    engine: Client,
    username: &str,
    started: Result<(ClientLogin, CredentialRequest), ProtocolFailure>,
) -> (next: (LoginPhase, LoginStep))
    ensures
        match started {
            Ok((state, credentials)) => {
                &&& next.0 matches LoginPhase::AwaitingServerResponse { engine: e, state: s, request }
                &&& e == engine
                &&& s == state
                &&& request.username@ == username@
                &&& request.credentials@ == base64_encode(credentials@)
                &&& base64_decode(request.credentials@) == Some(credentials@)
                &&& next.1 matches LoginStep::SendRequest(sent)
                &&& sent == request
            },
            Err(failure) => {
                &&& next.0 == LoginPhase::Terminal(Terminal::AuthenticityFailure)
                &&& next.1 matches LoginStep::Done(Err(Error::Opaque(f)))
                &&& f == failure
            },
        },
{
    match started {
        Ok((state, credentials)) => {
            let request = LoginRequest::new(username, credentials);
            let sent = LoginRequest {
                username: request.username.clone(),
                credentials: request.credentials.clone(),
            };
            (LoginPhase::AwaitingServerResponse { engine, state, request }, LoginStep::SendRequest(sent))
        },
        Err(failure) => (
            LoginPhase::Terminal(Terminal::AuthenticityFailure),
            LoginStep::Done(Err(Error::Opaque(failure))),
        ),
    }
}

/// Starts a login of `username` with `password`: opens the key exchange with
/// fresh randomness and says what to send.
pub fn begin_login(username: &str, password: &str) -> (next: (LoginPhase, LoginStep))
    ensures
        match next.0 {
            LoginPhase::AwaitingServerResponse { engine, state, request } => {
                &&& engine.spec_password() == password@
                &&& state@.len() == CLIENT_LOGIN_LEN
                &&& request.username@ == username@
                &&& base64_decode(request.credentials@) matches Some(credentials)
                &&& credentials.len() == CREDENTIAL_REQUEST_LEN
                &&& request.credentials@ == base64_encode(credentials)
                &&& next.1 matches LoginStep::SendRequest(sent)
                &&& sent == request
            },
            LoginPhase::Terminal(t) => t == Terminal::AuthenticityFailure && next.1 matches LoginStep::Done(
                Err(Error::Opaque(_)),
            ),
            _ => false,
        },
{
    let engine = Client::new(password);
    let started = engine.start_login();
    login_begun(engine, username, started)
}

/// Whether `next` is what the client is to do when `response` arrives in
/// `phase`.
///
/// While the response is awaited: an OTP response ends the exchange with a
/// password reset, a denial ends it unauthorized, and a credential response
/// is answered with the client's confirmation, unless the key exchange fails
/// on it, which ends the exchange with that failure. In any other phase the
/// response is out of order: an exchange that is over stays as it is, and any
/// other ends with an authenticity failure.
pub open spec fn spec_continue_login(
    phase: LoginPhase,
    response: LoginResponse,
    next: (LoginPhase, LoginStep),
) -> bool {
    match phase {
        LoginPhase::AwaitingServerResponse { engine, state, request } => match response {
            LoginResponse::OTP(_) => {
                &&& next.0 == LoginPhase::Terminal(Terminal::Reset)
                &&& next.1 matches LoginStep::Done(Ok(LoginResult::PasswordReset))
            },
            LoginResponse::AccessDenied => {
                &&& next.0 == LoginPhase::Terminal(Terminal::Unauthorized)
                &&& next.1 matches LoginStep::Done(Ok(LoginResult::Unauthorized))
            },
            LoginResponse::PAKE(id, credentials) => match engine.spec_finish_login(
                state,
                credentials,
            ) {
                Some((key, finalization)) => {
                    &&& next.0 matches LoginPhase::AwaitingServerCompletion {
                        session_key,
                        transcript,
                    }
                    &&& session_key@ == key
                    &&& transcript@ == spec_transcript(request, response)
                    &&& next.1 matches LoginStep::SendUpload(upload)
                    &&& upload.id == id
                    &&& upload.upload@ == finalization
                    &&& upload.client_tag@ == spec_client_tag(
                        key,
                        spec_transcript(request, response),
                    )
                },
                None => {
                    &&& next.0 == LoginPhase::Terminal(Terminal::AuthenticityFailure)
                    &&& next.1 matches LoginStep::Done(Err(Error::Opaque(_)))
                },
            },
        },
        LoginPhase::Terminal(t) => {
            &&& next.0 == phase
            &&& next.1 matches LoginStep::Done(Err(Error::Internal(_)))
        },
        _ => {
            &&& next.0 == LoginPhase::Terminal(Terminal::AuthenticityFailure)
            &&& next.1 matches LoginStep::Done(Err(Error::AuthenticityFailure))
        },
    }
}

/// Takes the server's response to the login request and says what to do
/// next.
pub fn continue_login(phase: LoginPhase, response: LoginResponse) -> (next: (
    LoginPhase,
    LoginStep,
))
    ensures
        spec_continue_login(phase, response, next),
{
    match phase {
        LoginPhase::AwaitingServerResponse { engine, state, request } => {
            match &response {
                LoginResponse::OTP(_) => (
                    LoginPhase::Terminal(Terminal::Reset),
                    LoginStep::Done(Ok(LoginResult::PasswordReset)),
                ),
                LoginResponse::AccessDenied => (
                    LoginPhase::Terminal(Terminal::Unauthorized),
                    LoginStep::Done(Ok(LoginResult::Unauthorized)),
                ),
                LoginResponse::PAKE(id, credentials) => {
                    let received = CredentialResponse::from_bytes(credentials.serialize());
                    match engine.finish_login(state, received) {
                        Ok((key, finalization)) => {
                            let transcript = Transcript::compute_transcript(&request, &response);
                            let upload = LoginUpload::new(
                                *id,
                                finalization,
                                key.as_slice(),
                                &request,
                                &response,
                            );
                            (
                                LoginPhase::AwaitingServerCompletion { session_key: key, transcript },
                                LoginStep::SendUpload(upload),
                            )
                        },
                        Err(failure) => (
                            LoginPhase::Terminal(Terminal::AuthenticityFailure),
                            LoginStep::Done(Err(Error::Opaque(failure))),
                        ),
                    }
                },
            }
        },
        LoginPhase::Terminal(t) => (
            LoginPhase::Terminal(t),
            LoginStep::Done(Err(Error::internal("the login exchange is over"))),
        ),
        _ => (
            LoginPhase::Terminal(Terminal::AuthenticityFailure),
            LoginStep::Done(Err(Error::AuthenticityFailure)),
        ),
    }
}

/// Whether `end` and `after` are how the login exchange of the client
/// `before` ends when `completion` arrives in `phase` at the time `now`.
///
/// While the completion is awaited, its tag is verified against the
/// transcript and the session key of this exchange. A tag that does not
/// verify ends the exchange with `Error::AuthenticityFailure`, and the client
/// then holds no token. With a tag that verifies, a success is accepted
/// exactly when its token validates at `now`: then the token is retained;
/// otherwise the exchange ends unauthorized and the client holds no token.
/// Every other result is handed on as it is and leaves the client's token
/// alone. In any other phase the completion is out of order: an exchange that
/// is over stays as it is, and any other ends with an authenticity failure.
pub open spec fn spec_completed(
    before: APIClient,
    phase: LoginPhase,
    completion: LoginCompletion,
    now: u64,
    end: (LoginPhase, Result<LoginResult, Error>),
    after: APIClient,
) -> bool {
    &&& after.url == before.url
    &&& after.decoder == before.decoder
    &&& after.validation == before.validation
    &&& match phase {
        LoginPhase::AwaitingServerCompletion { session_key, transcript } => {
            if completion.server_tag@ != spec_server_tag(session_key@, transcript@) {
                &&& end.0 == LoginPhase::Terminal(Terminal::AuthenticityFailure)
                &&& end.1 matches Err(Error::AuthenticityFailure)
                &&& after.access_token is None
            } else {
                match completion.result {
                    LoginResult::Success(token) => if before.spec_accepts(
                        token@,
                        before.decoder,
                        now,
                    ) {
                        &&& end.0 == LoginPhase::Terminal(Terminal::Success)
                        &&& end.1 matches Ok(LoginResult::Success(t))
                        &&& t@ == token@
                        &&& after.access_token matches Some(kept)
                        &&& kept@ == token@
                    } else {
                        &&& end.0 == LoginPhase::Terminal(Terminal::Unauthorized)
                        &&& end.1 matches Err(Error::JSONWebToken(_))
                        &&& after.access_token is None
                    },
                    LoginResult::PasswordReset => {
                        &&& end.0 == LoginPhase::Terminal(Terminal::Reset)
                        &&& end.1 matches Ok(LoginResult::PasswordReset)
                        &&& after.access_token == before.access_token
                    },
                    LoginResult::Unauthorized => {
                        &&& end.0 == LoginPhase::Terminal(Terminal::Unauthorized)
                        &&& end.1 matches Ok(LoginResult::Unauthorized)
                        &&& after.access_token == before.access_token
                    },
                    LoginResult::UnknownServer(url) => {
                        &&& end.0 == LoginPhase::Terminal(Terminal::Unauthorized)
                        &&& end.1 matches Ok(LoginResult::UnknownServer(u))
                        &&& u@ == url@
                        &&& after.access_token == before.access_token
                    },
                }
            }
        },
        LoginPhase::Terminal(t) => {
            &&& end.0 == phase
            &&& end.1 matches Err(Error::Internal(_))
            &&& after.access_token == before.access_token
        },
        _ => {
            &&& end.0 == LoginPhase::Terminal(Terminal::AuthenticityFailure)
            &&& end.1 matches Err(Error::AuthenticityFailure)
            &&& after.access_token is None
        },
    }
}

impl APIClient {
    /// What the validator makes of `token` with `decoder` under the client's
    /// validation, the expiry left aside.
    pub open spec fn spec_decoded(&self, token: Seq<char>, decoder: DecodingKey) -> Option<
        Option<u64>,
    > {
        jwt_expiry(
            decoder.family,
            token,
            decoder.key@,
            spec_algorithm_names(self.validation.algorithms@),
        )
    }

    /// Whether `token` validates against `decoder` at the time `now`: the
    /// validator accepts its form, its signature under the key by one of the
    /// permitted algorithms, and its claims, and it has not expired.
    pub open spec fn spec_accepts(&self, token: Seq<char>, decoder: DecodingKey, now: u64) -> bool {
        spec_token_accepted(self.spec_decoded(token, decoder), now)
    }

    /// Whether `verdict` is what validating `token` at the time `now`
    /// yields: the token where it validates, else `Error::JSONWebToken`.
    pub open spec fn spec_validated(
        &self,
        token: Seq<char>,
        decoder: DecodingKey,
        now: u64,
        verdict: Result<String, Error>,
    ) -> bool {
        match verdict {
            Ok(t) => t@ == token && self.spec_accepts(token, decoder, now),
            Err(e) => e is JSONWebToken && !self.spec_accepts(token, decoder, now),
        }
    }

    /// Validates `token` against `decoder` under the client's validation, as
    /// of the time `now` in seconds since the epoch.
    ///
    /// Returns the token exactly when it validates: its signature verifies
    /// with the key by one of the permitted algorithms, its claims hold, and
    /// it expired no longer than `TOKEN_LEEWAY` seconds before `now`. A token
    /// whose expiry is not a whole number of seconds is not accepted.
    pub fn validate_token_at(&self, token: &str, decoder: &DecodingKey, now: u64) -> (verdict:
        Result<String, Error>)
        ensures
            self.spec_validated(token@, *decoder, now, verdict),
    {
        let names = self.validation.algorithm_names();
        let decoded = match decoder.family {
            KeyFamily::Rsa => jwt_decode_rsa(token, decoder.key.as_slice(), &names),
            KeyFamily::Ec => jwt_decode_ec(token, decoder.key.as_slice(), &names),
            KeyFamily::Ed => jwt_decode_ed(token, decoder.key.as_slice(), &names),
        };
        token_verdict(token, decoded, now)
    }

    /// Validates `token` against `decoder` under the client's validation, as
    /// of the time at which it is called.
    ///
    /// Returns the token where it validates, else `Error::JSONWebToken`. A
    /// token that the validator rejects with the expiry left aside is
    /// rejected at any time.
    pub fn validate_token(&self, token: &str, decoder: &DecodingKey) -> (verdict: Result<
        String,
        Error,
    >)
        ensures
            exists|now: u64| #[trigger] self.spec_validated(token@, *decoder, now, verdict),
            verdict is Ok ==> self.spec_decoded(token@, *decoder) matches Some(Some(_)),
            !(self.spec_decoded(token@, *decoder) matches Some(Some(_))) ==> verdict is Err,
    {
        let now = jwt_now();
        let verdict = self.validate_token_at(token, decoder, now);
        assert(self.spec_validated(token@, *decoder, now, verdict));
        verdict
    }

    /// How a confirmed login ends for each verdict on its token: an accepted
    /// token is retained and the login succeeds; a rejected one is not
    /// retained, nor is any other, and the login ends unauthorized with the
    /// verdict's error.
    pub fn token_checked(&mut self, verdict: Result<String, Error>) -> (end: (
        LoginPhase,
        Result<LoginResult, Error>,
    ))
        ensures
            match verdict {
                Ok(token) => {
                    &&& end.0 == LoginPhase::Terminal(Terminal::Success)
                    &&& end.1 matches Ok(LoginResult::Success(t))
                    &&& t@ == token@
                    &&& final(self).access_token matches Some(kept)
                    &&& kept@ == token@
                },
                Err(e) => {
                    &&& end.0 == LoginPhase::Terminal(Terminal::Unauthorized)
                    &&& end.1 == Err::<LoginResult, Error>(e)
                    &&& final(self).access_token is None
                },
            },
            final(self).url == old(self).url,
            final(self).decoder == old(self).decoder,
            final(self).validation == old(self).validation,
    {
        match verdict {
            Ok(token) => {
                self.access_token = Some(token.clone());
                (LoginPhase::Terminal(Terminal::Success), Ok(LoginResult::Success(token)))
            },
            Err(e) => {
                self.access_token = None;
                (LoginPhase::Terminal(Terminal::Unauthorized), Err(e))
            },
        }
    }

    /// Takes the server's completion of the login at the time `now`, in
    /// seconds since the epoch, and ends the exchange as `spec_completed`
    /// says. A token is retained only if it validates.
    pub fn complete_login_at(
        &mut self,
        phase: LoginPhase,
        completion: LoginCompletion,
        now: u64,
    ) -> (end: (LoginPhase, Result<LoginResult, Error>))
        ensures
            spec_completed(*old(self), phase, completion, now, end, *final(self)),
    {
        match phase {
            LoginPhase::AwaitingServerCompletion { session_key, transcript } => {
                if !completion.transcript_verify(session_key.as_slice(), &transcript) {
                    self.access_token = None;
                    (
                        LoginPhase::Terminal(Terminal::AuthenticityFailure),
                        Err(Error::AuthenticityFailure),
                    )
                } else {
                    match completion.result {
                        LoginResult::Success(token) => {
                            let verdict = self.validate_token_at(
                                token.as_str(),
                                &self.decoder,
                                now,
                            );
                            self.token_checked(verdict)
                        },
                        LoginResult::PasswordReset => (
                            LoginPhase::Terminal(Terminal::Reset),
                            Ok(LoginResult::PasswordReset),
                        ),
                        LoginResult::Unauthorized => (
                            LoginPhase::Terminal(Terminal::Unauthorized),
                            Ok(LoginResult::Unauthorized),
                        ),
                        LoginResult::UnknownServer(url) => (
                            LoginPhase::Terminal(Terminal::Unauthorized),
                            Ok(LoginResult::UnknownServer(url)),
                        ),
                    }
                }
            },
            LoginPhase::Terminal(t) => (
                LoginPhase::Terminal(t),
                Err(Error::internal("the login exchange is over")),
            ),
            _ => {
                self.access_token = None;
                (
                    LoginPhase::Terminal(Terminal::AuthenticityFailure),
                    Err(Error::AuthenticityFailure),
                )
            },
        }
    }

    /// Takes the server's completion of the login and ends the exchange, as
    /// of the time at which it is called: see `spec_completed`. A token is
    /// retained only if it validates; whatever the time, a success whose
    /// token the validator rejects with the expiry left aside is not accepted.
    pub fn complete_login(&mut self, phase: LoginPhase, completion: LoginCompletion) -> (end: (
        LoginPhase,
        Result<LoginResult, Error>,
    ))
        ensures
            exists|now: u64|
                #[trigger] spec_completed(*old(self), phase, completion, now, end, *final(self)),
    {
        let now = jwt_now();
        let end = self.complete_login_at(phase, completion, now);
        assert(spec_completed(*old(self), phase, completion, now, end, *self));
        end
    }
}

} // verus!
