//! The transcript of a handshake and the confirmation tags over it.
//!
//! After the key exchange both peers hold the same session key. Each proves
//! so to the other with an HMAC over the transcript of the handshake and its
//! own role, keyed with a confirmation key derived from the session key.

use crate::auth::messages::CredentialFinalization;
use crate::auth::{LoginResult, SessionId};
use crate::client::auth::LoginRequest;
use crate::codec::{
    lemma_bytes_prefix, lemma_str_prefix, lemma_varint_prefix, put_raw, spec_encode_bytes,
    spec_encode_str, spec_fits, spec_varint,
};
use crate::crypto::{
    base64_decode, base64_decode_text, base64_encode, base64_encode_text, hkdf_sha256,
    hkdf_sha256_expand, hmac_sha256, hmac_sha256_tag,
};
use crate::ct::ct_eq;
use crate::errors::Error;
use crate::server::auth::LoginResponse;
use vstd::prelude::*;
use vstd::slice::slice_to_vec;
use vstd::utf8::{encode_utf8, is_ascii_chars, is_ascii_chars_encode_utf8};

verus! {

/// The bytes that open every transcript: the version tag of its framing.
pub open spec fn spec_transcript_prefix() -> Seq<u8> {
    encode_utf8("LOGIN_TRANSCRIPT_V1"@)
}

/// The role label under the client's tag.
pub open spec fn spec_client_label() -> Seq<u8> {
    encode_utf8("client"@)
}

/// The role label under the server's tag.
pub open spec fn spec_server_label() -> Seq<u8> {
    encode_utf8("server"@)
}

/// The transcript of the handshake that `request` opened and `response`
/// answered.
pub open spec fn spec_transcript(request: LoginRequest, response: LoginResponse) -> Seq<u8> {
    spec_transcript_prefix() + request.spec_encode() + response.spec_encode()
}

/// The confirmation key that belongs to a session key.
pub open spec fn spec_k_confirm(session_key: Seq<u8>) -> Seq<u8> {
    hkdf_sha256(session_key, encode_utf8("confirmation"@))
}

/// The tag by which the client confirms `transcript` under `session_key`.
pub open spec fn spec_client_tag(session_key: Seq<u8>, transcript: Seq<u8>) -> Seq<u8> {
    hmac_sha256(spec_k_confirm(session_key), transcript + spec_client_label())
}

/// The tag by which the server confirms `transcript` under `session_key`.
pub open spec fn spec_server_tag(session_key: Seq<u8>, transcript: Seq<u8>) -> Seq<u8> {
    hmac_sha256(spec_k_confirm(session_key), transcript + spec_server_label())
}

/// Derives the confirmation key from the session key.
///
/// The key serves only to produce confirmation tags over the handshake
/// transcript, never to encrypt or to protect application data.
pub(crate) fn derive_k_confirm(k_session: &[u8]) -> (k_confirm: [u8; 32])
    ensures
        k_confirm@ == spec_k_confirm(k_session@),
{
    hkdf_sha256_expand(k_session, "confirmation".as_bytes())
}

/// Computes the HMAC-SHA256 tag of `data` under the confirmation key.
fn compute_hmac(k_confirm: &[u8], data: &[u8]) -> (tag: [u8; 32])
    ensures
        tag@ == hmac_sha256(k_confirm@, data@),
{
    hmac_sha256_tag(k_confirm, data)
}

/// Computes the tag over `transcript` and the role `label` under the
/// confirmation key of `session_key`.
fn role_tag(session_key: &[u8], transcript: &Transcript, label: &str) -> (tag: [u8; 32])
    ensures
        tag@ == hmac_sha256(spec_k_confirm(session_key@), transcript@ + encode_utf8(label@)),
{
    let k_confirm = derive_k_confirm(session_key);
    let mut data: Vec<u8> = slice_to_vec(transcript.transcript.as_slice());
    put_raw(&mut data, label.as_bytes());
    compute_hmac(k_confirm.as_slice(), data.as_slice())
}

/// The byte string that binds one handshake: the version tag, then the login
/// request and the login response in the transcript codec.
///
/// Both peers hold the same transcript exactly when they saw the same
/// messages in the same order.
#[derive(Debug, Clone, PartialEq, Eq, Hash)]
pub struct Transcript {
    pub(crate) transcript: Vec<u8>,
}

impl View for Transcript {
    type V = Seq<u8>;

    closed spec fn view(&self) -> Seq<u8> {
        self.transcript@
    }
}

impl Transcript {
    /// Computes the transcript of the handshake that `request` opened and
    /// `response` answered.
    ///
    /// The version tag in front keeps transcripts of this framing apart from
    /// those of any other; the codec is deterministic, so that both peers
    /// arrive at the same bytes.
    pub fn compute_transcript(request: &LoginRequest, response: &LoginResponse) -> (t: Self)
        ensures
            t@ == spec_transcript(*request, *response),
    {
        let mut transcript: Vec<u8> = Vec::new();
        put_raw(&mut transcript, "LOGIN_TRANSCRIPT_V1".as_bytes());
        request.encode(&mut transcript);
        response.encode(&mut transcript);
        assert(transcript@ =~= spec_transcript_prefix() + request.spec_encode()
            + response.spec_encode());
        Transcript { transcript }
    }

    /// What parsing the base64 text `text` yields: the transcript of the bytes
    /// that it stands for, where it is base64.
    pub open spec fn spec_decode(text: Seq<char>) -> Option<Seq<u8>> {
        base64_decode(text)
    }

    /// Parses a transcript from its base64 text.
    ///
    /// Fails with `Error::Base64Error` exactly when `val` is not base64.
    pub fn decode(val: &str) -> (parsed: Result<Self, Error>)
        ensures
            match parsed {
                Ok(t) => Self::spec_decode(val@) == Some(t@),
                Err(e) => Self::spec_decode(val@) is None && e is Base64Error,
            },
    {
        match base64_decode_text(val) {
            Ok(bytes) => Ok(Transcript { transcript: bytes }),
            Err(e) => Err(Error::Base64Error(e)),
        }
    }

    /// The base64 text of the transcript. Parsing it yields the transcript
    /// again.
    pub fn to_string(&self) -> (text: String)
        ensures
            text@ == base64_encode(self@),
            Self::spec_decode(text@) == Some(self@),
    {
        base64_encode_text(self.transcript.as_slice())
    }

    pub fn into_inner(self) -> (bytes: Vec<u8>)
        ensures
            bytes@ == self@,
    {
        self.transcript
    }

    pub fn new(data: Vec<u8>) -> (t: Self)
        ensures
            t@ == data@,
    {
        Transcript { transcript: data }
    }

    pub fn as_bytes(&self) -> (bytes: &[u8])
        ensures
            bytes@ == self@,
    {
        self.transcript.as_slice()
    }

    pub fn into_bytes(self) -> (bytes: Vec<u8>)
        ensures
            bytes@ == self@,
    {
        self.transcript
    }

    /// Appends `data` to the transcript.
    pub fn append(&mut self, data: &[u8])
        ensures
            final(self)@ == old(self)@ + data@,
    {
        put_raw(&mut self.transcript, data);
    }
}

impl std::str::FromStr for Transcript {
    type Err = Error;

    /// Parses a transcript from its base64 text, as `decode` does.
    fn from_str(s: &str) -> (parsed: Result<Self, Error>)
        ensures
            match parsed {
                Ok(t) => Transcript::spec_decode(s@) == Some(t@),
                Err(e) => Transcript::spec_decode(s@) is None && e is Base64Error,
            },
    {
        Transcript::decode(s)
    }
}

/// The client's final message of a login, sent once the key exchange has
/// yielded the session key.
///
/// It carries the client's credential finalization and the client's
/// confirmation tag: the proof that the client holds the session key of
/// this very handshake. The tag covers the transcript of the request and the
/// response, which defeats replay and mix-up of messages.
#[derive(Debug)]
pub struct LoginUpload {
    /// The identifier of the session, as the server issued it.
    pub id: SessionId,
    /// The client's credential finalization.
    pub upload: CredentialFinalization,
    /// The HMAC over the transcript and the label `"client"`.
    pub client_tag: [u8; 32],
}

impl LoginUpload {
    /// Builds the final message of the client from the session key and the
    /// two messages that went before.
    ///
    /// The tag is `HMAC(K_confirm, transcript || "client")`, where `K_confirm`
    /// is derived from `session_key` with the context `"confirmation"`.
    pub fn new(
        id: SessionId,
        upload: CredentialFinalization,
        session_key: &[u8],
        request: &LoginRequest,
        response: &LoginResponse,
    ) -> (message: Self)
        ensures
            message.id == id,
            message.upload == upload,
            message.client_tag@ == spec_client_tag(
                session_key@,
                spec_transcript(*request, *response),
            ),
    {
        let transcript = Transcript::compute_transcript(request, response);
        let client_tag = role_tag(session_key, &transcript, "client");
        LoginUpload { id, upload, client_tag }
    }

    /// Whether the tag of the message confirms the handshake of `request` and
    /// `response` under `session_key`.
    pub open spec fn spec_verify(
        &self,
        session_key: Seq<u8>,
        request: LoginRequest,
        response: LoginResponse,
    ) -> bool {
        self.client_tag@ == spec_client_tag(session_key, spec_transcript(request, response))
    }

    /// Verifies the client's confirmation tag against the session key and the
    /// two messages of the handshake.
    ///
    /// Returns `true` exactly when the tag is the one that `new` computes from
    /// the same key and messages, which shows that the client derived the
    /// same session key. The comparison takes the same time wherever the tags
    /// differ.
    pub fn verify(
        &self,
        session_key: &[u8],
        request: &LoginRequest,
        response: &LoginResponse,
    ) -> (ok: bool)
        ensures
            ok == self.spec_verify(session_key@, *request, *response),
    {
        let transcript = Transcript::compute_transcript(request, response);
        self.verify_transcript(session_key, &transcript)
    }

    /// Verifies the tag against a transcript that was computed before.
    pub fn verify_transcript(&self, session_key: &[u8], transcript: &Transcript) -> (ok: bool)
        ensures
            ok == (self.client_tag@ == spec_client_tag(session_key@, transcript@)),
    {
        let expected = role_tag(session_key, transcript, "client");
        ct_eq(expected.as_slice(), self.client_tag.as_slice())
    }

    pub fn id(&self) -> (id: SessionId)
        ensures
            id == self.id,
    {
        self.id
    }

    pub fn finalization(&self) -> (upload: CredentialFinalization)
        ensures
            upload@ == self.upload@,
    {
        CredentialFinalization::from_bytes(self.upload.serialize())
    }
}

/// The server's final message of a login, sent once the client's
/// `LoginUpload` has been accepted or refused.
///
/// Its tag authenticates the transcript and the server's role; it mirrors the
/// confirmation of the client.
#[derive(Debug, Clone)]
pub struct LoginCompletion {
    /// How the login attempt ended.
    pub result: LoginResult,
    /// The HMAC over the transcript and the label `"server"`.
    pub server_tag: [u8; 32],
}

impl LoginCompletion {
    /// The completion that refuses a login. Its tag is all zero: it is the
    /// same whatever the reason of the refusal.
    pub fn unauthorized() -> (completion: Self)
        ensures
            completion.result is Unauthorized,
            completion.server_tag@ == Seq::new(32, |i: int| 0u8),
    {
        let completion = LoginCompletion { result: LoginResult::Unauthorized, server_tag: [0u8; 32] };
        assert(completion.server_tag@ =~= Seq::new(32, |i: int| 0u8));
        completion
    }

    /// Builds the final message of the server from the outcome of the login,
    /// the session key and the transcript of the handshake.
    ///
    /// The tag is `HMAC(K_confirm, transcript || "server")`.
    pub fn new(result: LoginResult, session_key: &[u8], transcript: Transcript) -> (completion:
        Self)
        ensures
            completion.result == result,
            completion.server_tag@ == spec_server_tag(session_key@, transcript@),
    {
        let server_tag = role_tag(session_key, &transcript, "server");
        LoginCompletion { result, server_tag }
    }

    /// Whether the tag of the message confirms the handshake of `request` and
    /// `response` under `session_key`.
    pub open spec fn spec_verify(
        &self,
        session_key: Seq<u8>,
        request: LoginRequest,
        response: LoginResponse,
    ) -> bool {
        self.server_tag@ == spec_server_tag(session_key, spec_transcript(request, response))
    }

    /// Verifies the server's confirmation tag against the session key and the
    /// two messages of the handshake.
    ///
    /// Returns `true` exactly when both sides derived the same tag: the one
    /// that `new` computes from the same key and the transcript of the same
    /// messages.
    pub fn verify(
        &self,
        session_key: &[u8],
        request: &LoginRequest,
        response: &LoginResponse,
    ) -> (ok: bool)
        ensures
            ok == self.spec_verify(session_key@, *request, *response),
    {
        let transcript = Transcript::compute_transcript(request, response);
        self.transcript_verify(session_key, &transcript)
    }

    /// Verifies the tag against a transcript that was computed before.
    pub fn transcript_verify(&self, session_key: &[u8], transcript: &Transcript) -> (ok: bool)
        ensures
            ok == (self.server_tag@ == spec_server_tag(session_key@, transcript@)),
    {
        let expected = role_tag(session_key, transcript, "server");
        ct_eq(expected.as_slice(), self.server_tag.as_slice())
    }
}

/// The two role labels keep the tags of the two peers apart: whatever the
/// transcript, the client's tag and the server's tag are MACs over different
/// messages. A tag can therefore not be reflected to the peer that made it,
/// short of a collision of the MAC.
pub proof fn law_roles_separate(transcript: Seq<u8>)
    ensures
        transcript + spec_client_label() != transcript + spec_server_label(),
{
    reveal_strlit("client");
    reveal_strlit("server");
    let client = "client"@;
    let server = "server"@;
    assert(client.len() == 6 && server.len() == 6);
    assert(client[0] == 'c' && client[1] == 'l' && client[2] == 'i' && client[3] == 'e'
        && client[4] == 'n' && client[5] == 't');
    assert(server[0] == 's' && server[1] == 'e' && server[2] == 'r' && server[3] == 'v'
        && server[4] == 'e' && server[5] == 'r');
    assert(is_ascii_chars(client));
    assert(is_ascii_chars(server));
    is_ascii_chars_encode_utf8(client);
    is_ascii_chars_encode_utf8(server);
    let a = transcript + spec_client_label();
    let b = transcript + spec_server_label();
    assert(a[transcript.len() as int] == spec_client_label()[0]);
    assert(b[transcript.len() as int] == spec_server_label()[0]);
    assert(spec_client_label()[0] == client[0] as u8);
    assert(spec_server_label()[0] == server[0] as u8);
}

/// A client's message verifies under the key and the messages that it was
/// made with; and it verifies under a key and messages exactly when they
/// give the tag that it carries.
pub proof fn law_upload_tag_symmetry(
    upload: LoginUpload,
    made_with: (Seq<u8>, LoginRequest, LoginResponse),
    checked_with: (Seq<u8>, LoginRequest, LoginResponse),
)
    requires
        upload.client_tag@ == spec_client_tag(
            made_with.0,
            spec_transcript(made_with.1, made_with.2),
        ),
    ensures
        upload.spec_verify(made_with.0, made_with.1, made_with.2),
        upload.spec_verify(checked_with.0, checked_with.1, checked_with.2) <==> spec_client_tag(
            checked_with.0,
            spec_transcript(checked_with.1, checked_with.2),
        ) == spec_client_tag(made_with.0, spec_transcript(made_with.1, made_with.2)),
{
}

/// A server's message verifies under the key and the messages of the
/// transcript that it was made with; and it verifies under a key and messages
/// exactly when they give the tag that it carries.
pub proof fn law_completion_tag_symmetry(
    completion: LoginCompletion,
    made_with: (Seq<u8>, LoginRequest, LoginResponse),
    checked_with: (Seq<u8>, LoginRequest, LoginResponse),
)
    requires
        completion.server_tag@ == spec_server_tag(
            made_with.0,
            spec_transcript(made_with.1, made_with.2),
        ),
    ensures
        completion.spec_verify(made_with.0, made_with.1, made_with.2),
        completion.spec_verify(checked_with.0, checked_with.1, checked_with.2) <==> spec_server_tag(
            checked_with.0,
            spec_transcript(checked_with.1, checked_with.2),
        ) == spec_server_tag(made_with.0, spec_transcript(made_with.1, made_with.2)),
{
}

/// Whether two login requests say the same.
pub open spec fn spec_same_request(a: LoginRequest, b: LoginRequest) -> bool {
    a.username@ == b.username@ && a.credentials@ == b.credentials@
}

/// Whether two login responses say the same.
pub open spec fn spec_same_response(a: LoginResponse, b: LoginResponse) -> bool {
    match (a, b) {
        (LoginResponse::OTP(x), LoginResponse::OTP(y)) => x@ == y@,
        (LoginResponse::PAKE(i, c), LoginResponse::PAKE(j, d)) => i@ == j@ && c@ == d@,
        (LoginResponse::AccessDenied, LoginResponse::AccessDenied) => true,
        _ => false,
    }
}

/// Whether the texts of the two messages are short enough for the codec to
/// state their lengths, as the texts of all messages in memory are.
pub open spec fn spec_messages_fit(request: LoginRequest, response: LoginResponse) -> bool {
    &&& spec_fits(request.username@)
    &&& spec_fits(request.credentials@)
    &&& response matches LoginResponse::OTP(contact) ==> spec_fits(contact@)
}

/// Two responses with the same transcript form say the same.
proof fn lemma_response_binds(a: LoginResponse, b: LoginResponse)
    requires
        a matches LoginResponse::OTP(contact) ==> spec_fits(contact@),
        b matches LoginResponse::OTP(contact) ==> spec_fits(contact@),
        a.spec_encode() == b.spec_encode(),
    ensures
        spec_same_response(a, b),
{
    let none = Seq::<u8>::empty();
    let tag_a: nat = match a {
        LoginResponse::OTP(_) => 0,
        LoginResponse::PAKE(_, _) => 1,
        LoginResponse::AccessDenied => 2,
    };
    let tag_b: nat = match b {
        LoginResponse::OTP(_) => 0,
        LoginResponse::PAKE(_, _) => 1,
        LoginResponse::AccessDenied => 2,
    };
    let body_a = match a {
        LoginResponse::OTP(contact) => spec_encode_str(contact@),
        LoginResponse::PAKE(id, credentials) => spec_encode_bytes(id@) + credentials@,
        LoginResponse::AccessDenied => none,
    };
    let body_b = match b {
        LoginResponse::OTP(contact) => spec_encode_str(contact@),
        LoginResponse::PAKE(id, credentials) => spec_encode_bytes(id@) + credentials@,
        LoginResponse::AccessDenied => none,
    };
    assert(a.spec_encode() =~= spec_varint(tag_a) + body_a);
    assert(b.spec_encode() =~= spec_varint(tag_b) + body_b);
    lemma_varint_prefix(tag_a, body_a, tag_b, body_b);
    match (a, b) {
        (LoginResponse::OTP(x), LoginResponse::OTP(y)) => {
            assert(spec_encode_str(x@) + none =~= spec_encode_str(x@));
            assert(spec_encode_str(y@) + none =~= spec_encode_str(y@));
            lemma_str_prefix(x@, none, y@, none);
        },
        (LoginResponse::PAKE(i, c), LoginResponse::PAKE(j, d)) => {
            lemma_bytes_prefix(i@, c@, j@, d@);
        },
        _ => {},
    }
}

/// The transcript binds the handshake: two handshakes have the same
/// transcript exactly when their requests and their responses say the same.
/// A tag over the transcript of one handshake is therefore a MAC over
/// another message than the tag over the transcript of any other.
pub proof fn law_transcript_binds(
    request: LoginRequest,
    response: LoginResponse,
    other_request: LoginRequest,
    other_response: LoginResponse,
)
    requires
        spec_messages_fit(request, response),
        spec_messages_fit(other_request, other_response),
    ensures
        spec_transcript(request, response) == spec_transcript(other_request, other_response)
            <==> spec_same_request(request, other_request) && spec_same_response(
            response,
            other_response,
        ),
{
    let prefix = spec_transcript_prefix();
    let t = spec_transcript(request, response);
    let u = spec_transcript(other_request, other_response);
    if t == u {
        let rest_t = spec_encode_str(request.credentials@) + response.spec_encode();
        let rest_u = spec_encode_str(other_request.credentials@) + other_response.spec_encode();
        let tail_t = spec_encode_str(request.username@) + rest_t;
        let tail_u = spec_encode_str(other_request.username@) + rest_u;
        assert(t =~= prefix + tail_t);
        assert(u =~= prefix + tail_u);
        assert(tail_t =~= t.subrange(prefix.len() as int, t.len() as int));
        assert(tail_u =~= u.subrange(prefix.len() as int, u.len() as int));
        lemma_str_prefix(request.username@, rest_t, other_request.username@, rest_u);
        lemma_str_prefix(
            request.credentials@,
            response.spec_encode(),
            other_request.credentials@,
            other_response.spec_encode(),
        );
        lemma_response_binds(response, other_response);
    }
    if spec_same_request(request, other_request) && spec_same_response(response, other_response) {
        assert(request.spec_encode() == other_request.spec_encode());
        assert(response.spec_encode() == other_response.spec_encode());
    }
}

} // verus!
