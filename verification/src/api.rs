//! The bootstrap of an authenticated API client from a discovered service:
//! the server's token-signing key is accepted only if it hashes to what
//! discovery published, and it decides how tokens are validated.
//!
//! Nothing here talks to the network. The functions take what was received
//! and say where requests are to be sent.

use crate::crypto::{
    base64_decode, base64_decode_text, base64_encode, base64_encode_text, sha256_base64_bytes,
    spec_sha256_base64,
};
use crate::ct::ct_str_eq;
use crate::errors::Error;
use der::Decode;
use vstd::prelude::*;
use vstd::string::{StrSliceExecFns, StringExecFns};

verus! {

/// The algorithm family of a token-signing key.
#[derive(Debug, Clone, PartialEq, Eq)]
pub enum KeyType {
    Rsa,
    Ec,
    Ed25519,
    /// An algorithm that is not known; the text is its object identifier or
    /// the name under which it was advertised.
    Unknown(String),
    /// Recognized, but not supported.
    Ed448,
}

/// The key families that tokens can be validated with.
#[derive(Debug, Clone, Copy, PartialEq, Eq, Structural)]
pub enum KeyFamily {
    Rsa,
    Ec,
    Ed,
}

/// A signature algorithm of access tokens.
#[derive(Debug, Clone, Copy, PartialEq, Eq, Structural)]
pub enum Algorithm {
    RS256,
    RS384,
    RS512,
    ES256,
    ES384,
    EdDSA,
}

/// The object identifier of `rsaEncryption`.
pub open spec fn spec_oid_rsa() -> Seq<char> {
    "1.2.840.113549.1.1.1"@
}

/// The object identifier of `id-ecPublicKey`.
pub open spec fn spec_oid_ec() -> Seq<char> {
    "1.2.840.10045.2.1"@
}

/// The object identifier of Ed25519.
pub open spec fn spec_oid_ed25519() -> Seq<char> {
    "1.3.101.112"@
}

/// The object identifier of Ed448.
pub open spec fn spec_oid_ed448() -> Seq<char> {
    "1.3.101.113"@
}

/// Whether `key_type` is the family that the algorithm identifier `oid`, in
/// dotted decimal, stands for.
pub open spec fn spec_key_type_of_oid(key_type: KeyType, oid: Seq<char>) -> bool {
    match key_type {
        KeyType::Rsa => oid == spec_oid_rsa(),
        KeyType::Ec => oid == spec_oid_ec(),
        KeyType::Ed25519 => oid == spec_oid_ed25519(),
        KeyType::Ed448 => oid == spec_oid_ed448(),
        KeyType::Unknown(text) => text@ == oid && oid != spec_oid_rsa() && oid != spec_oid_ec()
            && oid != spec_oid_ed25519() && oid != spec_oid_ed448(),
    }
}

/// The four known object identifiers are pairwise distinct.
pub proof fn lemma_oids_distinct()
    ensures
        spec_oid_rsa() != spec_oid_ec(),
        spec_oid_rsa() != spec_oid_ed25519(),
        spec_oid_rsa() != spec_oid_ed448(),
        spec_oid_ec() != spec_oid_ed25519(),
        spec_oid_ec() != spec_oid_ed448(),
        spec_oid_ed25519() != spec_oid_ed448(),
{
    reveal_strlit("1.2.840.113549.1.1.1");
    reveal_strlit("1.2.840.10045.2.1");
    reveal_strlit("1.3.101.112");
    reveal_strlit("1.3.101.113");
    assert(spec_oid_rsa().len() == 20);
    assert(spec_oid_ec().len() == 17);
    assert(spec_oid_ed25519().len() == 11);
    assert(spec_oid_ed448().len() == 11);
    assert(spec_oid_ed25519()[10] == '2');
    assert(spec_oid_ed448()[10] == '3');
}

/// The family that the algorithm identifier `oid`, in dotted decimal, stands
/// for; an identifier that is not known is kept as `Unknown`.
pub fn key_type_of_oid(oid: &str) -> (key_type: KeyType)
    ensures
        spec_key_type_of_oid(key_type, oid@),
{
    if ct_str_eq(oid, "1.2.840.113549.1.1.1") {
        KeyType::Rsa
    } else if ct_str_eq(oid, "1.3.101.112") {
        KeyType::Ed25519
    } else if ct_str_eq(oid, "1.3.101.113") {
        KeyType::Ed448
    } else if ct_str_eq(oid, "1.2.840.10045.2.1") {
        KeyType::Ec
    } else {
        KeyType::Unknown(oid.to_owned())
    }
}

/// What parsing `der` as a SubjectPublicKeyInfo yields: the object
/// identifier of its algorithm in dotted decimal and the bytes of its public
/// key, or `None` where `der` is not a well-formed SubjectPublicKeyInfo.
pub uninterp spec fn spki_public_key(der: Seq<u8>) -> Option<(Seq<char>, Seq<u8>)>;

/// Trusted: `der::Decode::from_der` for `spki::SubjectPublicKeyInfoRef`.
/// Returns the algorithm's object identifier as `to_string` writes it and the
/// raw bytes of the public key's bit string, or the text of the decoder's
/// error. The outcome depends on `der` alone.
#[verifier::external_body]
fn spki_parse(der: &[u8]) -> (parsed: Result<(String, Vec<u8>), String>)
    ensures
        match parsed {
            Ok((oid, key)) => spki_public_key(der@) == Some((oid@, key@)),
            Err(_) => spki_public_key(der@) is None,
        },
{
    match spki::SubjectPublicKeyInfoRef::from_der(der) {
        Ok(info) => Ok(
            (info.algorithm.oid.to_string(), info.subject_public_key.raw_bytes().to_vec()),
        ),
        Err(e) => Err(e.to_string()),
    }
}

/// What `detect_key_type` yields for `der`, where it is well formed.
pub open spec fn spec_detect_key_type(key_type: KeyType, der: Seq<u8>) -> bool {
    spki_public_key(der) matches Some((oid, _)) && spec_key_type_of_oid(key_type, oid)
}

/// Reads the algorithm family of a public key from its DER
/// SubjectPublicKeyInfo.
///
/// Fails with `Error::DerError` exactly when `der` is not a well-formed
/// SubjectPublicKeyInfo.
pub fn detect_key_type(der: &[u8]) -> (detected: Result<KeyType, Error>)
    ensures
        match detected {
            Ok(key_type) => spec_detect_key_type(key_type, der@),
            Err(e) => spki_public_key(der@) is None && e is DerError,
        },
{
    match spki_parse(der) {
        Ok((oid, _)) => Ok(key_type_of_oid(oid.as_str())),
        Err(text) => Err(Error::DerError(text)),
    }
}

/// A key to validate access tokens with: the family of the algorithm and the
/// bytes of the public key as the SubjectPublicKeyInfo holds them.
#[derive(Debug, Clone, PartialEq, Eq)]
pub struct DecodingKey {
    pub family: KeyFamily,
    pub key: Vec<u8>,
}

/// The server's answer to a request for its token-signing key.
#[derive(Debug, Clone)]
pub struct PubKeyResponse {
    /// The algorithm family that the server advertises.
    pub key_type: KeyType,
    /// The public key: base64 text of a DER SubjectPublicKeyInfo.
    pub pubkey: String,
}

/// The text by which an unsupported key of the family `key_type` is refused,
/// or `None` for a family that is supported.
pub open spec fn spec_refusal(key_type: KeyType) -> Option<Seq<char>> {
    match key_type {
        KeyType::Unknown(text) => Some(text@),
        KeyType::Ed448 => Some("Ed448"@),
        _ => None,
    }
}

/// The family to validate tokens with for a supported `key_type`.
pub open spec fn spec_family(key_type: KeyType) -> KeyFamily {
    match key_type {
        KeyType::Ec => KeyFamily::Ec,
        KeyType::Ed25519 => KeyFamily::Ed,
        _ => KeyFamily::Rsa,
    }
}

/// The family to validate tokens with, or the refusal of an unsupported
/// `key_type`: `Error::UnknownKeyType` with the name of the algorithm.
pub fn supported_family(key_type: &KeyType) -> (family: Result<KeyFamily, Error>)
    ensures
        match family {
            Ok(f) => spec_refusal(*key_type) is None && f == spec_family(*key_type),
            Err(e) => e matches Error::UnknownKeyType(text) && spec_refusal(*key_type) == Some(
                text@,
            ),
        },
{
    match key_type {
        KeyType::Rsa => Ok(KeyFamily::Rsa),
        KeyType::Ec => Ok(KeyFamily::Ec),
        KeyType::Ed25519 => Ok(KeyFamily::Ed),
        KeyType::Unknown(u) => Err(Error::UnknownKeyType(u.clone())),
        KeyType::Ed448 => Err(Error::UnknownKeyType("Ed448".to_owned())),
    }
}

/// How decoding a key of the advertised family `advertised` from the base64
/// text `pubkey` ends.
pub enum KeyDecoding {
    /// The text is not base64.
    NotBase64,
    /// The advertised family is not supported; the text names it.
    Refused(Seq<char>),
    /// The bytes are not a well-formed SubjectPublicKeyInfo.
    Malformed,
    /// The family and the bytes of the key.
    Key(KeyFamily, Seq<u8>),
}

impl PubKeyResponse {
    /// How `decode_pubkey` ends for this response.
    ///
    /// The checks come in this order: the advertised family must be
    /// supported; the text must be base64; the bytes must be a
    /// SubjectPublicKeyInfo; the family that its algorithm identifier stands
    /// for must be supported. That family, read from the key itself, is the
    /// family of the result.
    pub open spec fn spec_decode_pubkey(&self) -> KeyDecoding {
        match spec_refusal(self.key_type) {
            Some(text) => KeyDecoding::Refused(text),
            None => match base64_decode(self.pubkey@) {
                None => KeyDecoding::NotBase64,
                Some(der) => match spki_public_key(der) {
                    None => KeyDecoding::Malformed,
                    Some((oid, key)) => if oid == spec_oid_rsa() {
                        KeyDecoding::Key(KeyFamily::Rsa, key)
                    } else if oid == spec_oid_ec() {
                        KeyDecoding::Key(KeyFamily::Ec, key)
                    } else if oid == spec_oid_ed25519() {
                        KeyDecoding::Key(KeyFamily::Ed, key)
                    } else if oid == spec_oid_ed448() {
                        KeyDecoding::Refused("Ed448"@)
                    } else {
                        KeyDecoding::Refused(oid)
                    },
                },
            },
        }
    }

    /// Decodes the key of the response into a key to validate tokens with.
    ///
    /// Fails with `Error::UnknownKeyType` where the advertised family or the
    /// family of the key itself is not supported (Ed448 is refused under the
    /// name `"Ed448"`), with `Error::Base64Error` where the text is not
    /// base64, and with `Error::DerError` where the bytes are not a
    /// well-formed SubjectPublicKeyInfo.
    pub fn decode_pubkey(&self) -> (decoded: Result<DecodingKey, Error>)
        ensures
            match self.spec_decode_pubkey() {
                KeyDecoding::NotBase64 => decoded matches Err(Error::Base64Error(_)),
                KeyDecoding::Refused(name) => decoded matches Err(Error::UnknownKeyType(text))
                    && text@ == name,
                KeyDecoding::Malformed => decoded matches Err(Error::DerError(_)),
                KeyDecoding::Key(family, key) => decoded matches Ok(k) && k.family == family
                    && k.key@ == key,
            },
            self.key_type is Ed448 ==> (decoded matches Err(Error::UnknownKeyType(text)) && text@
                == "Ed448"@),
    {
        match supported_family(&self.key_type) {
            Ok(_) => {},
            Err(e) => { return Err(e); },
        }
        let der = match base64_decode_text(self.pubkey.as_str()) {
            Ok(der) => der,
            Err(e) => { return Err(Error::Base64Error(e)); },
        };
        let (oid, key) = match spki_parse(der.as_slice()) {
            Ok(parsed) => parsed,
            Err(text) => { return Err(Error::DerError(text)); },
        };
        proof {
            lemma_oids_distinct();
        }
        let detected = key_type_of_oid(oid.as_str());
        match supported_family(&detected) {
            Ok(family) => Ok(DecodingKey { family, key }),
            Err(e) => Err(e),
        }
    }

    /// The response that advertises `key_type` for the key whose DER
    /// SubjectPublicKeyInfo is `der`.
    pub fn encode_pubkey(key_type: KeyType, der: &[u8]) -> (response: Self)
        ensures
            response.key_type == key_type,
            response.pubkey@ == base64_encode(der@),
            base64_decode(response.pubkey@) == Some(der@),
    {
        let pubkey = base64_encode_text(der);
        PubKeyResponse { key_type, pubkey }
    }
}

impl Algorithm {
    /// The name of the algorithm in a token's header.
    pub open spec fn spec_name(&self) -> Seq<char> {
        match self {
            Algorithm::RS256 => "RS256"@,
            Algorithm::RS384 => "RS384"@,
            Algorithm::RS512 => "RS512"@,
            Algorithm::ES256 => "ES256"@,
            Algorithm::ES384 => "ES384"@,
            Algorithm::EdDSA => "EdDSA"@,
        }
    }

    /// The name of the algorithm in a token's header.
    pub fn name(&self) -> (name: &'static str)
        ensures
            name@ == self.spec_name(),
    {
        match self {
            Algorithm::RS256 => "RS256",
            Algorithm::RS384 => "RS384",
            Algorithm::RS512 => "RS512",
            Algorithm::ES256 => "ES256",
            Algorithm::ES384 => "ES384",
            Algorithm::EdDSA => "EdDSA",
        }
    }
}

/// What a token must meet to be accepted, beyond carrying a valid signature:
/// its algorithm must be one of `algorithms`.
#[derive(Debug, Clone)]
pub struct Validation {
    pub algorithms: Vec<Algorithm>,
}

/// The signature algorithms that are permitted with a key of `family`: for
/// RSA the three RSASSA-PKCS1-v1_5 variants, for EC the two ECDSA variants,
/// for Ed25519 EdDSA.
pub open spec fn spec_permitted(family: KeyFamily) -> Seq<Algorithm> {
    match family {
        KeyFamily::Rsa => seq![Algorithm::RS256, Algorithm::RS384, Algorithm::RS512],
        KeyFamily::Ec => seq![Algorithm::ES256, Algorithm::ES384],
        KeyFamily::Ed => seq![Algorithm::EdDSA],
    }
}

/// The texts of a list of strings, in order.
pub open spec fn spec_texts(names: Seq<String>) -> Seq<Seq<char>> {
    names.map_values(|name: String| name@)
}

/// The names of a list of algorithms, in order.
pub open spec fn spec_algorithm_names(algorithms: Seq<Algorithm>) -> Seq<Seq<char>> {
    algorithms.map_values(|algorithm: Algorithm| algorithm.spec_name())
}

impl Validation {
    /// The validation that permits the signature algorithms of `family` and
    /// no others.
    pub fn for_family(family: KeyFamily) -> (validation: Self)
        ensures
            validation.algorithms@ == spec_permitted(family),
    {
        let mut algorithms: Vec<Algorithm> = Vec::new();
        match family {
            KeyFamily::Rsa => {
                algorithms.push(Algorithm::RS256);
                algorithms.push(Algorithm::RS384);
                algorithms.push(Algorithm::RS512);
            },
            KeyFamily::Ec => {
                algorithms.push(Algorithm::ES256);
                algorithms.push(Algorithm::ES384);
            },
            KeyFamily::Ed => {
                algorithms.push(Algorithm::EdDSA);
            },
        }
        assert(algorithms@ =~= spec_permitted(family));
        Validation { algorithms }
    }

    /// The names of the permitted algorithms, in order.
    pub fn algorithm_names(&self) -> (names: Vec<String>)
        ensures
            spec_texts(names@) == spec_algorithm_names(self.algorithms@),
    {
        let mut names: Vec<String> = Vec::new();
        let mut i: usize = 0;
        while i < self.algorithms.len()
            invariant
                i <= self.algorithms@.len(),
                names@.len() == i,
                forall|k: int|
                    0 <= k < i ==> (#[trigger] names@[k])@ == self.algorithms@[k].spec_name(),
            decreases self.algorithms@.len() - i,
        {
            names.push(self.algorithms[i].name().to_owned());
            i = i + 1;
        }
        assert(spec_texts(names@) =~= spec_algorithm_names(self.algorithms@));
        names
    }
}

/// A service as discovery reports it: where it can be reached, the hash by
/// which it commits to its token-signing key, and its name.
#[derive(Debug, Clone, PartialEq, Eq)]
pub struct Discovery {
    /// The URLs under which the service can be reached, best first.
    pub urls: Vec<String>,
    /// The base64 text of the SHA-256 digest of the service's public key.
    pub pubkey_hash: String,
    /// The name under which the service announces itself.
    pub name: String,
}

impl Discovery {
    /// The URL to reach the service under: the first that discovery
    /// reported.
    ///
    /// Fails with `Error::MissingEndpoint` exactly when discovery reported
    /// none.
    pub fn default_url(&self) -> (url: Result<String, Error>)
        ensures
            match url {
                Ok(u) => self.urls@.len() > 0 && u@ == self.urls@[0]@,
                Err(e) => self.urls@.len() == 0 && e is MissingEndpoint,
            },
    {
        if self.urls.len() == 0 {
            Err(Error::MissingEndpoint)
        } else {
            Ok(self.urls[0].clone())
        }
    }
}

/// Checks the key of `response` against the hash that discovery published.
///
/// Returns the DER bytes of the key. Fails with `Error::Base64Error` where
/// the key is not base64 text, and with `Error::KeyHashMismatch` (the
/// published hash, then the hash of the key) where the base64 text of the
/// SHA-256 digest of the bytes is not `expected`. The two hashes are compared
/// in constant time.
pub fn check_key_hash(response: &PubKeyResponse, expected: &str) -> (checked: Result<
    Vec<u8>,
    Error,
>)
    ensures
        match base64_decode(response.pubkey@) {
            None => checked matches Err(Error::Base64Error(_)),
            Some(der) => if spec_sha256_base64(der) == expected@ {
                checked matches Ok(bytes) && bytes@ == der
            } else {
                checked matches Err(Error::KeyHashMismatch(published, got)) && published@
                    == expected@ && got@ == spec_sha256_base64(der)
            },
        },
{
    let der = match base64_decode_text(response.pubkey.as_str()) {
        Ok(der) => der,
        Err(e) => { return Err(Error::Base64Error(e)); },
    };
    let got = sha256_base64_bytes(der.as_slice());
    if ct_str_eq(got.as_str(), expected) {
        Ok(der)
    } else {
        Err(Error::KeyHashMismatch(expected.to_owned(), got))
    }
}

/// A client of one server's API: where the server is, how its tokens are
/// validated, and the token of the last successful login.
#[derive(Debug)]
pub struct APIClient {
    pub url: String,
    pub decoder: DecodingKey,
    pub validation: Validation,
    pub access_token: Option<String>,
}

/// How the bootstrap of a client from `discovery` and `response` ends.
pub enum Bootstrap {
    /// Discovery reported no URL.
    MissingEndpoint,
    /// The key is not base64 text.
    NotBase64,
    /// The key does not hash to what discovery published; the hash of the
    /// key is within.
    HashMismatch(Seq<char>),
    /// The key is of a family that is not supported; the text names it.
    Refused(Seq<char>),
    /// The key is not a well-formed SubjectPublicKeyInfo.
    Malformed,
    /// The client is made: its URL, the family of its key and the key.
    Ready(Seq<char>, KeyFamily, Seq<u8>),
}

impl APIClient {
    /// How `from_discovery` ends.
    ///
    /// The checks come in this order: discovery must report a URL; the key
    /// must be base64 text; it must hash to what discovery published; it must
    /// decode to a key of a supported family.
    pub open spec fn spec_from_discovery(discovery: Discovery, response: PubKeyResponse) -> Bootstrap {
        if discovery.urls@.len() == 0 {
            Bootstrap::MissingEndpoint
        } else {
            match base64_decode(response.pubkey@) {
                None => Bootstrap::NotBase64,
                Some(der) => if spec_sha256_base64(der) != discovery.pubkey_hash@ {
                    Bootstrap::HashMismatch(spec_sha256_base64(der))
                } else {
                    match response.spec_decode_pubkey() {
                        KeyDecoding::NotBase64 => Bootstrap::NotBase64,
                        KeyDecoding::Refused(name) => Bootstrap::Refused(name),
                        KeyDecoding::Malformed => Bootstrap::Malformed,
                        KeyDecoding::Key(family, key) => Bootstrap::Ready(
                            discovery.urls@[0]@,
                            family,
                            key,
                        ),
                    }
                },
            }
        }
    }

    /// Makes the client of a discovered service from the service's answer to
    /// the request for its token-signing key.
    ///
    /// The key is accepted only if it hashes to what discovery published;
    /// otherwise the bootstrap fails with `Error::KeyHashMismatch` and there
    /// is no client to log in with. The client validates tokens with the key,
    /// permits the signature algorithms of the key's family, and holds no
    /// token yet.
    pub fn from_discovery(discovery: &Discovery, response: &PubKeyResponse) -> (client: Result<
        Self,
        Error,
    >)
        ensures
            match Self::spec_from_discovery(*discovery, *response) {
                Bootstrap::MissingEndpoint => client matches Err(Error::MissingEndpoint),
                Bootstrap::NotBase64 => client matches Err(Error::Base64Error(_)),
                Bootstrap::HashMismatch(hash) => client matches Err(
                    Error::KeyHashMismatch(published, got),
                ) && published@ == discovery.pubkey_hash@ && got@ == hash,
                Bootstrap::Refused(name) => client matches Err(Error::UnknownKeyType(text))
                    && text@ == name,
                Bootstrap::Malformed => client matches Err(Error::DerError(_)),
                Bootstrap::Ready(url, family, key) => client matches Ok(c) && c.url@ == url
                    && c.decoder.family == family && c.decoder.key@ == key
                    && c.validation.algorithms@ == spec_permitted(family) && c.access_token
                    is None,
            },
    {
        let url = match discovery.default_url() {
            Ok(url) => url,
            Err(e) => { return Err(e); },
        };
        match check_key_hash(response, discovery.pubkey_hash.as_str()) {
            Ok(_) => {},
            Err(e) => { return Err(e); },
        }
        let decoder = match response.decode_pubkey() {
            Ok(decoder) => decoder,
            Err(e) => { return Err(e); },
        };
        let validation = Validation::for_family(decoder.family);
        Ok(APIClient { url, decoder, validation, access_token: None })
    }

    /// The client of the server at `url` that validates tokens with `decoder`
    /// under `validation`. It holds no token yet.
    pub fn new(url: &str, decoder: DecodingKey, validation: Validation) -> (client: Self)
        ensures
            client.url@ == url@,
            client.decoder == decoder,
            client.validation == validation,
            client.access_token is None,
    {
        APIClient { url: url.to_owned(), decoder, validation, access_token: None }
    }
}

/// `url` without the slashes at its end.
pub open spec fn spec_trim_slashes(url: Seq<char>) -> Seq<char>
    decreases url.len(),
{
    if url.len() > 0 && url.last() == '/' {
        spec_trim_slashes(url.drop_last())
    } else {
        url
    }
}

/// The URL of the endpoint `path` of the server whose base URL is `base`.
pub open spec fn spec_endpoint(base: Seq<char>, path: Seq<char>) -> Seq<char> {
    spec_trim_slashes(base) + path
}

/// `url` without the slashes at its end.
fn trim_slashes(url: &str) -> (trimmed: &str)
    ensures
        trimmed@ == spec_trim_slashes(url@),
{
    let mut n: usize = url.unicode_len();
    assert(url@.subrange(0, n as int) =~= url@);
    while n > 0 && url.get_char(n - 1) == '/'
        invariant
            n <= url@.len(),
            spec_trim_slashes(url@) == spec_trim_slashes(url@.subrange(0, n as int)),
        decreases n,
    {
        assert(url@.subrange(0, n as int).drop_last() =~= url@.subrange(0, n - 1));
        n = n - 1;
    }
    url.substring_char(0, n)
}

/// The URL of the endpoint `path` of the server whose base URL is `base`.
pub fn endpoint(base: &str, path: &str) -> (url: String)
    ensures
        url@ == spec_endpoint(base@, path@),
{
    String::from_str(trim_slashes(base)).concat(path)
}

impl APIClient {
    /// Where the server hands out its token-signing key.
    pub fn pubkey_endpoint(base: &str) -> (url: String)
        ensures
            url@ == spec_endpoint(base@, "/pubkey"@),
    {
        endpoint(base, "/pubkey")
    }

    /// Where a login request is sent.
    pub fn login_endpoint(&self) -> (url: String)
        ensures
            url@ == spec_endpoint(self.url@, "/auth/api/login/"@),
    {
        endpoint(self.url.as_str(), "/auth/api/login/")
    }

    /// Where the client's confirmation of a login is sent.
    pub fn finalize_endpoint(&self) -> (url: String)
        ensures
            url@ == spec_endpoint(self.url@, "/auth/api/login/finalize"@),
    {
        endpoint(self.url.as_str(), "/auth/api/login/finalize")
    }

    /// Where a token of the media service is asked for.
    pub fn token_endpoint(&self) -> (url: String)
        ensures
            url@ == spec_endpoint(self.url@, "/rpc/token"@),
    {
        endpoint(self.url.as_str(), "/rpc/token")
    }

    /// The access token to authorize an outgoing call with: the token of the
    /// last successful login.
    ///
    /// Fails with `Error::Unauthorized` exactly when the client holds none.
    pub fn bearer(&self) -> (token: Result<String, Error>)
        ensures
            match self.access_token {
                Some(held) => token matches Ok(t) && t@ == held@,
                None => token matches Err(Error::Unauthorized),
            },
    {
        match &self.access_token {
            Some(held) => Ok(held.clone()),
            None => Err(Error::Unauthorized),
        }
    }
}

} // verus!
