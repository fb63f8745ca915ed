//! The logins that the server has opened and not yet finished.
//!
//! The state of a login is kept under the identifier that the server chose
//! for the session. It leaves the store with the first finalization that
//! names the identifier, whatever the outcome: a second finalization under
//! the same identifier finds nothing. A login that is never finalized leaves
//! the store when it has waited too long.

use crate::auth::challenge::{
    spec_client_tag, spec_server_tag, spec_transcript, LoginCompletion, LoginUpload, Transcript,
};
use crate::auth::messages::{
    CredentialRequest, CredentialResponse, ServerLogin, ServerRegistration,
    CREDENTIAL_REQUEST_LEN, REGISTRATION_UPLOAD_LEN, SERVER_LOGIN_LEN,
};
use crate::auth::{LoginResult, SessionId};
use crate::client::auth::LoginRequest;
use crate::crypto::{base64_decode, base64_decode_text};
use crate::errors::ProtocolFailure;
use crate::server::auth::{opaque_session_key, LoginResponse, Server};
use vstd::prelude::*;

verus! {

/// Whether `id` is a random UUID: of version 4 (the high four bits of byte
/// 6 are 0100) and of the RFC variant (the high two bits of byte 8 are 10).
pub open spec fn spec_random_uuid(id: Seq<u8>) -> bool {
    id.len() == 16 && id[6] / 16 == 4 && id[8] / 64 == 2
}

/// Trusted: `uuid::Uuid::new_v4`, then `as_bytes`. Returns the 16 bytes of a
/// random UUID. `new_v4` draws 128 random bits and then sets the version and
/// the variant, so that every outcome is a version 4 UUID of the RFC variant;
/// nothing is claimed of the other bits.
#[verifier::external_body]
fn uuid_v4_bytes() -> (bytes: [u8; 16])
    ensures
        spec_random_uuid(bytes@),
{
    *uuid::Uuid::new_v4().as_bytes()
}

impl SessionId {
    /// A session identifier drawn at random: a version 4 UUID.
    pub fn random() -> (id: SessionId)
        ensures
            spec_random_uuid(id@),
    {
        SessionId::from_bytes(uuid_v4_bytes())
    }
}

/// One login that awaits its finalization: the identifier of the session,
/// the server's state of the key exchange, the transcript of the request and
/// the response, and the time at which the login was opened, in seconds.
pub struct PendingLogin {
    pub id: SessionId,
    pub state: ServerLogin,
    pub transcript: Transcript,
    pub opened: u64,
}

/// Whether `entry` has waited for `timeout` seconds or longer at the time
/// `now`.
pub open spec fn spec_expired(entry: PendingLogin, now: u64, timeout: u64) -> bool {
    now - entry.opened >= timeout
}

/// The logins that await their finalization, oldest first. No two of them
/// have the same identifier.
pub struct PendingLogins {
    entries: Vec<PendingLogin>,
}

impl View for PendingLogins {
    type V = Seq<PendingLogin>;

    closed spec fn view(&self) -> Seq<PendingLogin> {
        self.entries@
    }
}

/// Whether a login with the identifier `id` is among `entries`.
pub open spec fn spec_pending(entries: Seq<PendingLogin>, id: Seq<u8>) -> bool {
    exists|i: int| 0 <= i < entries.len() && (#[trigger] entries[i]).id@ == id
}

/// Whether no two of `entries` have the same identifier.
pub open spec fn spec_distinct(entries: Seq<PendingLogin>) -> bool {
    forall|i: int, j: int|
        0 <= i < j < entries.len() ==> (#[trigger] entries[i]).id@ != (#[trigger] entries[j]).id@
}

/// Removing an entry keeps the identifiers distinct, and leaves no entry with
/// the identifier of the one removed.
proof fn lemma_remove_distinct(entries: Seq<PendingLogin>, at: int)
    requires
        spec_distinct(entries),
        0 <= at < entries.len(),
    ensures
        spec_distinct(entries.remove(at)),
        !spec_pending(entries.remove(at), entries[at].id@),
        forall|id: Seq<u8>|
            id != entries[at].id@ ==> (spec_pending(entries.remove(at), id) <==> spec_pending(
                entries,
                id,
            )),
{
    let rest = entries.remove(at);
    assert forall|i: int, j: int| 0 <= i < j < rest.len() implies (#[trigger] rest[i]).id@ != (
    #[trigger] rest[j]).id@ by {
        let oi = if i < at { i } else { i + 1 };
        let oj = if j < at { j } else { j + 1 };
        assert(rest[i] == entries[oi]);
        assert(rest[j] == entries[oj]);
    }
    assert forall|i: int| 0 <= i < rest.len() implies (#[trigger] rest[i]).id@ != entries[at].id@ by {
        let oi = if i < at { i } else { i + 1 };
        assert(rest[i] == entries[oi]);
    }
    assert forall|id: Seq<u8>| id != entries[at].id@ implies (spec_pending(rest, id)
        <==> spec_pending(entries, id)) by {
        if spec_pending(rest, id) {
            let i = choose|i: int| 0 <= i < rest.len() && (#[trigger] rest[i]).id@ == id;
            let oi = if i < at { i } else { i + 1 };
            assert(rest[i] == entries[oi]);
        }
        if spec_pending(entries, id) {
            let i = choose|i: int| 0 <= i < entries.len() && (#[trigger] entries[i]).id@ == id;
            let ri = if i < at { i } else { i - 1 };
            assert(rest[ri] == entries[i]);
        }
    }
}

impl PendingLogins {
    /// The invariant of the store: no two entries have the same identifier.
    pub open spec fn wf(&self) -> bool {
        spec_distinct(self@)
    }

    /// The empty store.
    pub fn new() -> (store: Self)
        ensures
            store@ == Seq::<PendingLogin>::empty(),
            store.wf(),
    {
        PendingLogins { entries: Vec::new() }
    }

    /// The number of pending logins.
    pub fn len(&self) -> (n: usize)
        ensures
            n == self@.len(),
    {
        self.entries.len()
    }

    /// Where the login with the identifier `id` is kept, if it is pending.
    fn find(&self, id: &SessionId) -> (found: Option<usize>)
        ensures
            match found {
                Some(at) => at < self@.len() && self@[at as int].id@ == id@,
                None => !spec_pending(self@, id@),
            },
    {
        let mut i: usize = 0;
        while i < self.entries.len()
            invariant
                i <= self.entries@.len(),
                forall|k: int| 0 <= k < i ==> (#[trigger] self.entries@[k]).id@ != id@,
            decreases self.entries@.len() - i,
        {
            if self.entries[i].id.same(id) {
                return Some(i);
            }
            i = i + 1;
        }
        None
    }

    /// Tells whether a login with the identifier `id` is pending.
    pub fn contains(&self, id: &SessionId) -> (pending: bool)
        ensures
            pending == spec_pending(self@, id@),
    {
        self.find(id).is_some()
    }

    /// Keeps `entry` until its finalization, unless a login with the same
    /// identifier is pending already: then the store stays as it is and the
    /// result is `false`.
    pub fn insert(&mut self, entry: PendingLogin) -> (kept: bool)
        requires
            old(self).wf(),
        ensures
            final(self).wf(),
            kept == !spec_pending(old(self)@, entry.id@),
            kept ==> final(self)@ == old(self)@.push(entry),
            !kept ==> final(self)@ == old(self)@,
    {
        match self.find(&entry.id) {
            Some(_) => false,
            None => {
                self.entries.push(entry);
                true
            },
        }
    }

    /// Takes the login with the identifier `id` out of the store, if it is
    /// pending. Afterwards no login with that identifier is pending; the
    /// others stay, in their order.
    pub fn take(&mut self, id: &SessionId) -> (taken: Option<PendingLogin>)
        requires
            old(self).wf(),
        ensures
            final(self).wf(),
            !spec_pending(final(self)@, id@),
            match taken {
                Some(entry) => entry.id@ == id@ && exists|at: int|
                    0 <= at < old(self)@.len() && #[trigger] old(self)@[at] == entry
                        && final(self)@ == old(self)@.remove(at),
                None => !spec_pending(old(self)@, id@) && final(self)@ == old(self)@,
            },
            forall|other: Seq<u8>|
                other != id@ ==> (spec_pending(final(self)@, other)
                    <==> spec_pending(old(self)@, other)),
    {
        match self.find(id) {
            Some(at) => {
                proof {
                    lemma_remove_distinct(self.entries@, at as int);
                }
                let entry = self.entries.remove(at);
                Some(entry)
            },
            None => None,
        }
    }
}

impl PendingLogins {
    /// Drops the logins that have waited for `timeout` seconds or longer at
    /// the time `now`: a login that is abandoned does not stay pending for
    /// ever. The others stay, in their order. Returns how many were dropped.
    pub fn expire(&mut self, now: u64, timeout: u64) -> (dropped: usize)
        requires
            old(self).wf(),
        ensures
            final(self).wf(),
            final(self)@ == old(self)@.filter(|e: PendingLogin| !spec_expired(e, now, timeout)),
            dropped == old(self)@.len() - final(self)@.len(),
    {
        let ghost before = self.entries@;
        let total: usize = self.entries.len();
        let ghost keep = |e: PendingLogin| !spec_expired(e, now, timeout);
        let mut rest: Vec<PendingLogin> = Vec::new();
        core::mem::swap(&mut self.entries, &mut rest);
        let mut dropped: usize = 0;
        let ghost mut done: int = 0;
        proof {
            reveal(Seq::filter);
            assert(before.take(0) =~= Seq::<PendingLogin>::empty());
            assert(before.skip(0) =~= before);
        }
        while rest.len() > 0
            invariant
                spec_distinct(before),
                before.len() == total,
                0 <= done <= before.len(),
                rest@ == before.skip(done),
                self.entries@ == before.take(done).filter(keep),
                keep == (|e: PendingLogin| !spec_expired(e, now, timeout)),
                dropped == done - self.entries@.len(),
                spec_distinct(self.entries@),
                forall|k: int|
                    0 <= k < self.entries@.len() ==> exists|j: int|
                        0 <= j < done && before[j] == #[trigger] self.entries@[k],
            decreases rest@.len(),
        {
            let entry = rest.remove(0);
            let expired = now >= entry.opened && now - entry.opened >= timeout;
            proof {
                reveal(Seq::filter);
                assert(entry == before[done]);
                assert(before.take(done + 1).drop_last() =~= before.take(done));
                assert(before.take(done + 1).last() == before[done]);
                assert(before.skip(done).remove(0) =~= before.skip(done + 1));
                assert(expired == spec_expired(entry, now, timeout));
            }
            if expired {
                dropped = dropped + 1;
            } else {
                let ghost kept = self.entries@;
                self.entries.push(entry);
                proof {
                    assert forall|a: int, b: int| 0 <= a < b < self.entries@.len() implies (
                    #[trigger] self.entries@[a]).id@ != (#[trigger] self.entries@[b]).id@ by {
                        if b == kept.len() {
                            let j = choose|j: int| 0 <= j < done && before[j] == kept[a];
                            assert(self.entries@[a] == before[j]);
                            assert(self.entries@[b] == before[done]);
                        } else {
                            assert(self.entries@[a] == kept[a]);
                            assert(self.entries@[b] == kept[b]);
                        }
                    }
                    assert forall|k: int| 0 <= k < self.entries@.len() implies exists|j: int|
                        0 <= j < done + 1 && before[j] == #[trigger] self.entries@[k] by {
                        if k == kept.len() {
                            assert(before[done] == self.entries@[k]);
                        } else {
                            let j = choose|j: int| 0 <= j < done && before[j] == kept[k];
                            assert(before[j] == self.entries@[k]);
                        }
                    }
                }
            }
            proof {
                done = done + 1;
            }
        }
        proof {
            assert(before.take(done) =~= before);
        }
        dropped
    }
}

/// How the finalization of a login ended on the server.
pub enum Finalized {
    /// The client proved that it holds the session key of this handshake.
    /// The key and the transcript are handed out for the server's own
    /// confirmation.
    Confirmed { session_key: Vec<u8>, transcript: Transcript },
    /// The login is refused, with the completion to answer with.
    Refused(LoginCompletion),
}

/// Whether `completion` is the one that refuses a login: unauthorized, with
/// a tag that is all zero.
pub open spec fn spec_refusing(completion: LoginCompletion) -> bool {
    completion.result is Unauthorized && completion.server_tag@ == Seq::new(32, |i: int| 0u8)
}

/// Whether `outcome` is how the finalization `upload` of the pending login
/// `entry` ends: confirmed with the session key where the key exchange
/// finishes on the client's finalization and the client's tag is the one over
/// the transcript of the login under that key; refused otherwise.
pub open spec fn spec_finalized(entry: PendingLogin, upload: LoginUpload, outcome: Finalized) -> bool {
    match opaque_session_key(entry.state@, upload.upload@) {
        Some(key) => if upload.client_tag@ == spec_client_tag(key, entry.transcript@) {
            &&& outcome matches Finalized::Confirmed { session_key, transcript }
            &&& session_key@ == key
            &&& transcript@ == entry.transcript@
        } else {
            outcome matches Finalized::Refused(c) && spec_refusing(c)
        },
        None => outcome matches Finalized::Refused(c) && spec_refusing(c),
    }
}

impl Finalized {
    /// Composes the server's final message. A confirmed login is completed
    /// with the server's tag over its transcript: as a success with `token`
    /// where the token issuer gave one, as unauthorized where it gave none. A
    /// refused login is answered with its refusal.
    pub fn into_completion(self, token: Option<String>) -> (completion: LoginCompletion)
        ensures
            match self {
                Finalized::Confirmed { session_key, transcript } => {
                    &&& completion.server_tag@ == spec_server_tag(session_key@, transcript@)
                    &&& match token {
                        Some(t) => completion.result == LoginResult::Success(t),
                        None => completion.result is Unauthorized,
                    }
                },
                Finalized::Refused(refusal) => completion == refusal,
            },
    {
        match self {
            Finalized::Confirmed { session_key, transcript } => {
                let result = match token {
                    Some(t) => LoginResult::Success(t),
                    None => LoginResult::Unauthorized,
                };
                LoginCompletion::new(result, session_key.as_slice(), transcript)
            },
            Finalized::Refused(refusal) => refusal,
        }
    }
}

impl Server {
    /// The server's response for each outcome of the start of the key
    /// exchange, under the session identifier `id`.
    ///
    /// Where the start succeeded and no login is pending under `id`, the
    /// response carries `id` and the credential response, and the login is
    /// kept pending with the transcript of `request` and that response. In
    /// every other case access is denied and nothing is kept.
    pub fn login_opened(
        pending: &mut PendingLogins,
        request: &LoginRequest,
        id: SessionId,
        now: u64,
        started: Result<(ServerLogin, CredentialResponse), ProtocolFailure>,
    ) -> (response: LoginResponse)
        requires
            old(pending).wf(),
        ensures
            final(pending).wf(),
            match started {
                Ok((state, credentials)) => if spec_pending(old(pending)@, id@) {
                    response is AccessDenied && final(pending)@ == old(pending)@
                } else {
                    &&& response == LoginResponse::PAKE(id, credentials)
                    &&& final(pending)@.len() == old(pending)@.len() + 1
                    &&& final(pending)@.drop_last() == old(pending)@
                    &&& final(pending)@.last().id == id
                    &&& final(pending)@.last().state == state
                    &&& final(pending)@.last().transcript@ == spec_transcript(*request, response)
                    &&& final(pending)@.last().opened == now
                },
                Err(_) => response is AccessDenied && final(pending)@ == old(pending)@,
            },
    {
        match started {
            Ok((state, credentials)) => {
                if pending.contains(&id) {
                    return LoginResponse::AccessDenied;
                }
                let response = LoginResponse::PAKE(id, credentials);
                let transcript = Transcript::compute_transcript(request, &response);
                let kept = pending.insert(PendingLogin { id, state, transcript, opened: now });
                assert(kept);
                assert(pending@.drop_last() =~= old(pending)@);
                response
            },
            Err(_) => LoginResponse::AccessDenied,
        }
    }

    /// Answers the login request of the user whose stored record is
    /// `record`, at the time `now`: opens the key exchange under a session
    /// identifier drawn at random and keeps the login pending until its
    /// finalization.
    ///
    /// Access is denied, and nothing is kept, where the credentials of the
    /// request are not base64 text of a credential request's length, where
    /// the record has not the length of a record, and where the key exchange
    /// does not start on them.
    pub fn open_login(
        &self,
        pending: &mut PendingLogins,
        record: ServerRegistration,
        request: &LoginRequest,
        now: u64,
    ) -> (response: LoginResponse)
        requires
            old(pending).wf(),
        ensures
            final(pending).wf(),
            match response {
                LoginResponse::PAKE(id, credentials) => {
                    &&& base64_decode(request.credentials@) matches Some(bytes)
                    &&& bytes.len() == CREDENTIAL_REQUEST_LEN
                    &&& record@.len() == REGISTRATION_UPLOAD_LEN
                    &&& credentials@.len() > 0
                    &&& final(pending)@.last().state@.len() == SERVER_LOGIN_LEN
                    &&& spec_random_uuid(id@)
                    &&& !spec_pending(old(pending)@, id@)
                    &&& final(pending)@.len() == old(pending)@.len() + 1
                    &&& final(pending)@.drop_last() == old(pending)@
                    &&& final(pending)@.last().id == id
                    &&& final(pending)@.last().transcript@ == spec_transcript(*request, response)
                    &&& final(pending)@.last().opened == now
                },
                LoginResponse::AccessDenied => final(pending)@ == old(pending)@,
                LoginResponse::OTP(_) => false,
            },
            base64_decode(request.credentials@) is None ==> response is AccessDenied,
    {
        let credentials = match base64_decode_text(request.credentials.as_str()) {
            Ok(bytes) => CredentialRequest::from_bytes(bytes),
            Err(_) => { return LoginResponse::AccessDenied; },
        };
        let started = self.start_login(record, credentials, request.username.as_str());
        Self::login_opened(pending, request, SessionId::random(), now, started)
    }

    /// Finishes the login that `upload` names.
    ///
    /// The login leaves the store, whatever the outcome: a second
    /// finalization under the same identifier finds nothing. An upload that
    /// names no pending login is refused and changes nothing; the refusal is
    /// the same as any other, so that it tells nothing of what is pending.
    /// For a pending login see `spec_finalized`.
    pub fn finalize_login(&self, pending: &mut PendingLogins, upload: &LoginUpload) -> (outcome:
        Finalized)
        requires
            old(pending).wf(),
        ensures
            final(pending).wf(),
            !spec_pending(final(pending)@, upload.id@),
            forall|other: Seq<u8>|
                other != upload.id@ ==> (spec_pending(final(pending)@, other)
                    <==> spec_pending(old(pending)@, other)),
            if spec_pending(old(pending)@, upload.id@) {
                exists|at: int|
                    0 <= at < old(pending)@.len() && (#[trigger] old(pending)@[at]).id@
                        == upload.id@ && final(pending)@ == old(pending)@.remove(at)
                        && spec_finalized(old(pending)@[at], *upload, outcome)
            } else {
                &&& outcome matches Finalized::Refused(c)
                &&& spec_refusing(c)
                &&& final(pending)@ == old(pending)@
            },
    {
        let entry = match pending.take(&upload.id) {
            Some(entry) => entry,
            None => { return Finalized::Refused(LoginCompletion::unauthorized()); },
        };
        let PendingLogin { id: _, state, transcript, opened: _ } = entry;
        let key = match self.finish_login(state, upload.finalization()) {
            Ok(key) => key,
            Err(_) => { return Finalized::Refused(LoginCompletion::unauthorized()); },
        };
        if upload.verify_transcript(key.as_slice(), &transcript) {
            Finalized::Confirmed { session_key: key, transcript }
        } else {
            Finalized::Refused(LoginCompletion::unauthorized())
        }
    }
}

} // verus!
