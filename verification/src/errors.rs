//! The error taxonomy of the library.

use vstd::prelude::*;

verus! {

/// The error of `opaque_ke`'s protocol functions.
#[verifier::external_type_specification]
#[verifier::external_body]
#[verifier::reject_recursive_types(T)]
pub struct ExOpaqueProtocolError<T>(opaque_ke::errors::ProtocolError<T>);

/// A failure of the key exchange: a malformed message, a wrong password at a
/// finish step, or a failure of the random number generator.
#[derive(Debug)]
pub struct ProtocolFailure {
    /// What the key-exchange implementation reported.
    pub source: opaque_ke::errors::ProtocolError,
}

/// Everything that can go wrong between discovery and a retained token.
#[derive(Debug)]
pub enum Error {
    /// The key exchange failed.
    Opaque(ProtocolFailure),
    /// The transport failed: a connection error, a status outside 2xx, or a
    /// body that could not be read. The text describes the failure.
    Http(String),
    /// An invariant that should be impossible to break was broken.
    Internal(String),
    /// The access token did not validate against the server's signing key.
    /// The text is the validator's description of the failure.
    JSONWebToken(String),
    /// A field that must be UTF-8 text was not.
    FromUtf8Error,
    /// A field that must be base64 text was not.
    Base64Error(base64::DecodeError),
    /// The service was discovered without any reachable URL.
    MissingEndpoint,
    /// The signing key fetched from the server does not hash to what discovery
    /// published: the published hash first, then the hash of what was fetched.
    KeyHashMismatch(String, String),
    /// The signing key is of an algorithm that is not implemented; the text
    /// names it.
    UnknownKeyType(String),
    /// The signing key is not a well-formed SubjectPublicKeyInfo. The text is
    /// the decoder's description of the failure.
    DerError(String),
    /// The signing key is a well-formed DER document but not a usable
    /// SubjectPublicKeyInfo. The text describes the failure.
    SPKI(String),
    /// A payload was not the JSON that was expected. The text describes the
    /// failure.
    JsonErr(String),
    /// The server denied access.
    Unauthorized,
    /// The server's confirmation tag did not verify under the derived key.
    /// The peer is to be treated as an adversary, and no token is retained.
    AuthenticityFailure,
}

impl From<String> for Error {
    fn from(s: String) -> (e: Error)
    {
        Error::Internal(s)
    }
}

impl vstd::std_specs::convert::FromSpecImpl<String> for Error {
    open spec fn obeys_from_spec() -> bool {
        true
    }

    open spec fn from_spec(s: String) -> Error {
        Error::Internal(s)
    }
}

impl ProtocolFailure {
    /// Takes over what the key-exchange implementation reported.
    pub fn new(source: opaque_ke::errors::ProtocolError) -> (e: ProtocolFailure)
        ensures
            e.source == source,
    {
        ProtocolFailure { source }
    }
}

impl Error {
    /// The last-resort error for a broken invariant, with `text` as its
    /// description.
    pub fn internal(text: &str) -> (e: Error)
        ensures
            e matches Error::Internal(t) && t@ == text@,
    {
        Error::Internal(text.to_owned())
    }
}

} // verus!
