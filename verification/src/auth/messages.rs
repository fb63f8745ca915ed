//! The messages and states of the key exchange, as the bytes that cross the
//! wire or rest in storage.
//!
//! Their inner structure is fixed by the cipher suite and is of no concern
//! here: a value is checked when a protocol step reads it, and that step
//! fails on a malformed one.

use vstd::prelude::*;
use vstd::slice::slice_to_vec;

verus! {

/// The lengths in bytes of the serialized messages and states. They follow
/// from the cipher suite: group elements, scalars and nonces have 32 bytes,
/// and the suite's hash, SHA-512, has 64.
pub const REGISTRATION_REQUEST_LEN: usize = 32;

pub const REGISTRATION_RESPONSE_LEN: usize = 64;

pub const REGISTRATION_UPLOAD_LEN: usize = 192;

pub const CREDENTIAL_REQUEST_LEN: usize = 96;

pub const CREDENTIAL_FINALIZATION_LEN: usize = 64;

pub const CLIENT_REGISTRATION_LEN: usize = 64;

pub const CLIENT_LOGIN_LEN: usize = 192;

pub const SERVER_SETUP_LEN: usize = 128;

pub const SERVER_LOGIN_LEN: usize = 192;

/// The length in bytes of a session key: that of the suite's hash.
pub const SESSION_KEY_LEN: usize = 64;

/// The message by which the client opens a registration: the blinded
/// password.
#[derive(Debug, Clone, PartialEq, Eq)]
pub struct RegistrationRequest {
    pub bytes: Vec<u8>,
}

impl View for RegistrationRequest {
    type V = Seq<u8>;

    open spec fn view(&self) -> Seq<u8> {
        self.bytes@
    }
}

impl RegistrationRequest {
    /// Takes `bytes` as the serialized form of the value.
    pub fn from_bytes(bytes: Vec<u8>) -> (value: Self)
        ensures
            value@ == bytes@,
    {
        RegistrationRequest { bytes }
    }

    /// The serialized form of the value.
    pub fn serialize(&self) -> (bytes: Vec<u8>)
        ensures
            bytes@ == self@,
    {
        slice_to_vec(self.bytes.as_slice())
    }
}

/// The server's answer to a registration request.
#[derive(Debug, Clone, PartialEq, Eq)]
pub struct RegistrationResponse {
    pub bytes: Vec<u8>,
}

impl View for RegistrationResponse {
    type V = Seq<u8>;

    open spec fn view(&self) -> Seq<u8> {
        self.bytes@
    }
}

impl RegistrationResponse {
    /// Takes `bytes` as the serialized form of the value.
    pub fn from_bytes(bytes: Vec<u8>) -> (value: Self)
        ensures
            value@ == bytes@,
    {
        RegistrationResponse { bytes }
    }

    /// The serialized form of the value.
    pub fn serialize(&self) -> (bytes: Vec<u8>)
        ensures
            bytes@ == self@,
    {
        slice_to_vec(self.bytes.as_slice())
    }
}

/// The client's final registration message: the sealed envelope that the
/// server is to store for the user.
#[derive(Debug, Clone, PartialEq, Eq)]
pub struct RegistrationUpload {
    pub bytes: Vec<u8>,
}

impl View for RegistrationUpload {
    type V = Seq<u8>;

    open spec fn view(&self) -> Seq<u8> {
        self.bytes@
    }
}

impl RegistrationUpload {
    /// Takes `bytes` as the serialized form of the value.
    pub fn from_bytes(bytes: Vec<u8>) -> (value: Self)
        ensures
            value@ == bytes@,
    {
        RegistrationUpload { bytes }
    }

    /// The serialized form of the value.
    pub fn serialize(&self) -> (bytes: Vec<u8>)
        ensures
            bytes@ == self@,
    {
        slice_to_vec(self.bytes.as_slice())
    }
}

/// The message by which the client opens a login.
#[derive(Debug, Clone, PartialEq, Eq)]
pub struct CredentialRequest {
    pub bytes: Vec<u8>,
}

impl View for CredentialRequest {
    type V = Seq<u8>;

    open spec fn view(&self) -> Seq<u8> {
        self.bytes@
    }
}

impl CredentialRequest {
    /// Takes `bytes` as the serialized form of the value.
    pub fn from_bytes(bytes: Vec<u8>) -> (value: Self)
        ensures
            value@ == bytes@,
    {
        CredentialRequest { bytes }
    }

    /// The serialized form of the value.
    pub fn serialize(&self) -> (bytes: Vec<u8>)
        ensures
            bytes@ == self@,
    {
        slice_to_vec(self.bytes.as_slice())
    }
}

/// The client's answer to a credential response, which proves knowledge of
/// the password to the server.
#[derive(Debug, Clone, PartialEq, Eq)]
pub struct CredentialFinalization {
    pub bytes: Vec<u8>,
}

impl View for CredentialFinalization {
    type V = Seq<u8>;

    open spec fn view(&self) -> Seq<u8> {
        self.bytes@
    }
}

impl CredentialFinalization {
    /// Takes `bytes` as the serialized form of the value.
    pub fn from_bytes(bytes: Vec<u8>) -> (value: Self)
        ensures
            value@ == bytes@,
    {
        CredentialFinalization { bytes }
    }

    /// The serialized form of the value.
    pub fn serialize(&self) -> (bytes: Vec<u8>)
        ensures
            bytes@ == self@,
    {
        slice_to_vec(self.bytes.as_slice())
    }
}

/// What the client keeps between the start and the finish of a registration.
/// It is consumed by the finish step.
#[derive(Debug, Clone, PartialEq, Eq)]
pub struct ClientRegistration {
    pub bytes: Vec<u8>,
}

impl View for ClientRegistration {
    type V = Seq<u8>;

    open spec fn view(&self) -> Seq<u8> {
        self.bytes@
    }
}

impl ClientRegistration {
    /// Takes `bytes` as the serialized form of the value.
    pub fn from_bytes(bytes: Vec<u8>) -> (value: Self)
        ensures
            value@ == bytes@,
    {
        ClientRegistration { bytes }
    }

    /// The serialized form of the value.
    pub fn serialize(&self) -> (bytes: Vec<u8>)
        ensures
            bytes@ == self@,
    {
        slice_to_vec(self.bytes.as_slice())
    }
}

/// What the client keeps between the start and the finish of a login. It is
/// consumed by the finish step.
#[derive(Debug, Clone, PartialEq, Eq)]
pub struct ClientLogin {
    pub bytes: Vec<u8>,
}

impl View for ClientLogin {
    type V = Seq<u8>;

    open spec fn view(&self) -> Seq<u8> {
        self.bytes@
    }
}

impl ClientLogin {
    /// Takes `bytes` as the serialized form of the value.
    pub fn from_bytes(bytes: Vec<u8>) -> (value: Self)
        ensures
            value@ == bytes@,
    {
        ClientLogin { bytes }
    }

    /// The serialized form of the value.
    pub fn serialize(&self) -> (bytes: Vec<u8>)
        ensures
            bytes@ == self@,
    {
        slice_to_vec(self.bytes.as_slice())
    }
}

/// The server's long-lived secret parameters. They are drawn once, kept
/// across restarts and never sent; losing them invalidates every stored user
/// record.
#[derive(Debug, Clone, PartialEq, Eq)]
pub struct ServerSetup {
    pub bytes: Vec<u8>,
}

impl View for ServerSetup {
    type V = Seq<u8>;

    open spec fn view(&self) -> Seq<u8> {
        self.bytes@
    }
}

impl ServerSetup {
    /// Takes `bytes` as the serialized form of the value.
    pub fn from_bytes(bytes: Vec<u8>) -> (value: Self)
        ensures
            value@ == bytes@,
    {
        ServerSetup { bytes }
    }

    /// The serialized form of the value.
    pub fn serialize(&self) -> (bytes: Vec<u8>)
        ensures
            bytes@ == self@,
    {
        slice_to_vec(self.bytes.as_slice())
    }
}

/// The record that the server stores for a registered user.
#[derive(Debug, Clone, PartialEq, Eq)]
pub struct ServerRegistration {
    pub bytes: Vec<u8>,
}

impl View for ServerRegistration {
    type V = Seq<u8>;

    open spec fn view(&self) -> Seq<u8> {
        self.bytes@
    }
}

impl ServerRegistration {
    /// Takes `bytes` as the serialized form of the value.
    pub fn from_bytes(bytes: Vec<u8>) -> (value: Self)
        ensures
            value@ == bytes@,
    {
        ServerRegistration { bytes }
    }

    /// The serialized form of the value.
    pub fn serialize(&self) -> (bytes: Vec<u8>)
        ensures
            bytes@ == self@,
    {
        slice_to_vec(self.bytes.as_slice())
    }
}

/// What the server keeps between the start and the finish of one login. It
/// is consumed by the finish step.
#[derive(Debug, Clone, PartialEq, Eq)]
pub struct ServerLogin {
    pub bytes: Vec<u8>,
}

impl View for ServerLogin {
    type V = Seq<u8>;

    open spec fn view(&self) -> Seq<u8> {
        self.bytes@
    }
}

impl ServerLogin {
    /// Takes `bytes` as the serialized form of the value.
    pub fn from_bytes(bytes: Vec<u8>) -> (value: Self)
        ensures
            value@ == bytes@,
    {
        ServerLogin { bytes }
    }

    /// The serialized form of the value.
    pub fn serialize(&self) -> (bytes: Vec<u8>)
        ensures
            bytes@ == self@,
    {
        slice_to_vec(self.bytes.as_slice())
    }
}

/// The server's answer to a credential request, held in the form in which
/// the handshake transcript records it.
#[derive(Debug, Clone, PartialEq, Eq)]
pub struct CredentialResponse {
    pub bytes: Vec<u8>,
}

impl View for CredentialResponse {
    type V = Seq<u8>;

    open spec fn view(&self) -> Seq<u8> {
        self.bytes@
    }
}

impl CredentialResponse {
    /// Takes `bytes` as the transcript form of the value.
    pub fn from_bytes(bytes: Vec<u8>) -> (value: Self)
        ensures
            value@ == bytes@,
    {
        CredentialResponse { bytes }
    }

    /// The transcript form of the value.
    pub fn serialize(&self) -> (bytes: Vec<u8>)
        ensures
            bytes@ == self@,
    {
        slice_to_vec(self.bytes.as_slice())
    }
}

} // verus!
