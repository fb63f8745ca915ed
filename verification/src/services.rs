//! The decisions of the service that stands between the user interface and
//! the servers.
//!
//! The service takes commands, from the user interface and from discovery,
//! one at a time, and answers with events for the user interface. It keeps
//! one API client per server, under the server's base URL. Receiving,
//! sending and waiting are not done here: the functions below say, for what
//! arrived, what is to be done and what is to be reported.

use crate::api::{APIClient, Discovery};
use crate::auth::LoginResult;
use crate::ct::ct_str_eq;
use crate::errors::Error;
use crate::livekit::TokenResponse;
use vstd::prelude::*;

verus! {

pub struct ServiceState {}

/// A server as the user interface names it.
#[derive(Debug, Clone, PartialEq, Eq, Hash)]
pub struct ServerIdentifier {
    pub name: String,
    pub url: String,
}

/// A command to log in at the server under `url`.
#[derive(Debug, Clone)]
pub struct LoginRequest {
    pub url: String,
    pub username: String,
    pub password: String,
}

impl LoginRequest {
    pub fn new(url: &str, username: &str, password: &str) -> (request: Self)
        ensures
            request.url@ == url@,
            request.username@ == username@,
            request.password@ == password@,
    {
        LoginRequest {
            username: username.to_owned(),
            url: url.to_owned(),
            password: password.to_owned(),
        }
    }
}

/// What the service is asked to do.
#[derive(Debug, Clone)]
pub enum VerdantCmd {
    Login(LoginRequest),
    /// A server was found, by discovery in the background or by the user
    /// entering what is needed by hand.
    ServerDiscovered(Discovery),
}

/// What the service reports to the user interface.
#[derive(Debug, Clone)]
pub enum VerdantUiCmd {
    LoginResult(LoginResult),
    /// A server was found and can be logged in to.
    ServerDiscovered(Discovery),
    /// A token of the media service, with the URL of the server that issued
    /// it.
    LkToken(String, TokenResponse),
}

/// Whether two discovery records say the same.
pub open spec fn spec_same_discovery(a: Discovery, b: Discovery) -> bool {
    &&& a.name@ == b.name@
    &&& a.pubkey_hash@ == b.pubkey_hash@
    &&& a.urls@.len() == b.urls@.len()
    &&& forall|i: int| 0 <= i < a.urls@.len() ==> (#[trigger] a.urls@[i])@ == b.urls@[i]@
}

/// Tells whether two discovery records say the same.
pub fn same_discovery(a: &Discovery, b: &Discovery) -> (same: bool)
    ensures
        same == spec_same_discovery(*a, *b),
{
    if !ct_str_eq(a.name.as_str(), b.name.as_str()) {
        return false;
    }
    if !ct_str_eq(a.pubkey_hash.as_str(), b.pubkey_hash.as_str()) {
        return false;
    }
    if a.urls.len() != b.urls.len() {
        return false;
    }
    let mut i: usize = 0;
    while i < a.urls.len()
        invariant
            i <= a.urls@.len(),
            a.urls@.len() == b.urls@.len(),
            forall|k: int| 0 <= k < i ==> (#[trigger] a.urls@[k])@ == b.urls@[k]@,
        decreases a.urls@.len() - i,
    {
        if !ct_str_eq(a.urls[i].as_str(), b.urls[i].as_str()) {
            return false;
        }
        i = i + 1;
    }
    true
}

/// Whether a record that says the same as `discovery` is among `known`.
pub open spec fn spec_observed(known: Seq<Discovery>, discovery: Discovery) -> bool {
    exists|i: int| 0 <= i < known.len() && spec_same_discovery(#[trigger] known[i], discovery)
}

/// The servers that discovery has reported so far, each once.
pub struct Observed {
    pub known: Vec<Discovery>,
}

impl Observed {
    /// Nothing was reported yet.
    pub fn new() -> (observed: Self)
        ensures
            observed.known@ == Seq::<Discovery>::empty(),
    {
        Observed { known: Vec::new() }
    }

    /// Takes a report of discovery. A server that was reported before is
    /// passed over in silence; a new one is remembered and handed on as a
    /// command for the service.
    pub fn observe(&mut self, discovery: Discovery) -> (command: Option<VerdantCmd>)
        ensures
            if spec_observed(old(self).known@, discovery) {
                command is None && final(self).known@ == old(self).known@
            } else {
                &&& command matches Some(VerdantCmd::ServerDiscovered(d))
                &&& spec_same_discovery(d, discovery)
                &&& final(self).known@ == old(self).known@.push(discovery)
            },
    {
        let mut i: usize = 0;
        while i < self.known.len()
            invariant
                i <= self.known@.len(),
                self.known@ == old(self).known@,
                forall|k: int| 0 <= k < i ==> !spec_same_discovery(#[trigger] self.known@[k], discovery),
            decreases self.known@.len() - i,
        {
            if same_discovery(&self.known[i], &discovery) {
                return None;
            }
            i = i + 1;
        }
        let command = VerdantCmd::ServerDiscovered(copy_discovery(&discovery));
        self.known.push(discovery);
        Some(command)
    }
}

/// A copy of a discovery record.
pub fn copy_discovery(discovery: &Discovery) -> (copy: Discovery)
    ensures
        spec_same_discovery(copy, *discovery),
{
    let mut urls: Vec<String> = Vec::new();
    let mut i: usize = 0;
    while i < discovery.urls.len()
        invariant
            i <= discovery.urls@.len(),
            urls@.len() == i,
            forall|k: int| 0 <= k < i ==> (#[trigger] urls@[k])@ == discovery.urls@[k]@,
        decreases discovery.urls@.len() - i,
    {
        urls.push(discovery.urls[i].clone());
        i = i + 1;
    }
    Discovery { urls, pubkey_hash: discovery.pubkey_hash.clone(), name: discovery.name.clone() }
}

/// The API client of the server under `url`.
pub struct ClientEntry {
    pub url: String,
    pub client: APIClient,
}

/// The API clients of the service, each under the base URL of its server. No
/// two of them stand under the same URL.
pub struct Clients {
    entries: Vec<ClientEntry>,
}

impl View for Clients {
    type V = Seq<ClientEntry>;

    closed spec fn view(&self) -> Seq<ClientEntry> {
        self.entries@
    }
}

/// Whether a client stands under `url` among `entries`.
pub open spec fn spec_known(entries: Seq<ClientEntry>, url: Seq<char>) -> bool {
    exists|i: int| 0 <= i < entries.len() && (#[trigger] entries[i]).url@ == url
}

/// Whether no two of `entries` stand under the same URL.
pub open spec fn spec_distinct_urls(entries: Seq<ClientEntry>) -> bool {
    forall|i: int, j: int|
        0 <= i < j < entries.len() ==> (#[trigger] entries[i]).url@ != (#[trigger] entries[j]).url@
}

/// Removing an entry keeps the URLs distinct, and leaves no entry under the
/// URL of the one removed.
proof fn lemma_remove_distinct_urls(entries: Seq<ClientEntry>, at: int)
    requires
        spec_distinct_urls(entries),
        0 <= at < entries.len(),
    ensures
        spec_distinct_urls(entries.remove(at)),
        !spec_known(entries.remove(at), entries[at].url@),
        forall|url: Seq<char>|
            url != entries[at].url@ ==> (spec_known(entries.remove(at), url) <==> spec_known(
                entries,
                url,
            )),
{
    let rest = entries.remove(at);
    assert forall|i: int, j: int| 0 <= i < j < rest.len() implies (#[trigger] rest[i]).url@ != (
    #[trigger] rest[j]).url@ by {
        let oi = if i < at { i } else { i + 1 };
        let oj = if j < at { j } else { j + 1 };
        assert(rest[i] == entries[oi]);
        assert(rest[j] == entries[oj]);
    }
    assert forall|i: int| 0 <= i < rest.len() implies (#[trigger] rest[i]).url@
        != entries[at].url@ by {
        let oi = if i < at { i } else { i + 1 };
        assert(rest[i] == entries[oi]);
    }
    assert forall|url: Seq<char>| url != entries[at].url@ implies (spec_known(rest, url)
        <==> spec_known(entries, url)) by {
        if spec_known(rest, url) {
            let i = choose|i: int| 0 <= i < rest.len() && (#[trigger] rest[i]).url@ == url;
            let oi = if i < at { i } else { i + 1 };
            assert(rest[i] == entries[oi]);
        }
        if spec_known(entries, url) {
            let i = choose|i: int| 0 <= i < entries.len() && (#[trigger] entries[i]).url@ == url;
            let ri = if i < at { i } else { i - 1 };
            assert(rest[ri] == entries[i]);
        }
    }
}

/// Appending an entry under a URL that is not known keeps the URLs distinct.
proof fn lemma_push_distinct_urls(entries: Seq<ClientEntry>, entry: ClientEntry)
    requires
        spec_distinct_urls(entries),
        !spec_known(entries, entry.url@),
    ensures
        spec_distinct_urls(entries.push(entry)),
        spec_known(entries.push(entry), entry.url@),
        forall|url: Seq<char>|
            url != entry.url@ ==> (spec_known(entries.push(entry), url) <==> spec_known(
                entries,
                url,
            )),
{
    let more = entries.push(entry);
    assert forall|i: int, j: int| 0 <= i < j < more.len() implies (#[trigger] more[i]).url@ != (
    #[trigger] more[j]).url@ by {
        if j == entries.len() {
            assert(more[i] == entries[i]);
        } else {
            assert(more[i] == entries[i]);
            assert(more[j] == entries[j]);
        }
    }
    assert(more[entries.len() as int] == entry);
    assert forall|url: Seq<char>| url != entry.url@ implies (spec_known(more, url) <==> spec_known(
        entries,
        url,
    )) by {
        if spec_known(more, url) {
            let i = choose|i: int| 0 <= i < more.len() && (#[trigger] more[i]).url@ == url;
            assert(more[i] == entries[i]);
        }
        if spec_known(entries, url) {
            let i = choose|i: int| 0 <= i < entries.len() && (#[trigger] entries[i]).url@ == url;
            assert(more[i] == entries[i]);
        }
    }
}

/// Whether `after` is `before` with `client` put under `url`: the entry that
/// stood under `url`, if there was one, is gone, the others stay in their
/// order, and the new entry is the last.
pub open spec fn spec_put(
    before: Seq<ClientEntry>,
    after: Seq<ClientEntry>,
    url: String,
    client: APIClient,
) -> bool {
    if spec_known(before, url@) {
        exists|at: int|
            0 <= at < before.len() && (#[trigger] before[at]).url@ == url@ && after
                == before.remove(at).push(ClientEntry { url, client })
    } else {
        after == before.push(ClientEntry { url, client })
    }
}

impl Clients {
    /// The invariant of the map: no two clients stand under the same URL.
    pub open spec fn wf(&self) -> bool {
        spec_distinct_urls(self@)
    }

    /// The empty map.
    pub fn new() -> (clients: Self)
        ensures
            clients@ == Seq::<ClientEntry>::empty(),
            clients.wf(),
    {
        Clients { entries: Vec::new() }
    }

    /// Where the client under `url` is kept, if there is one.
    fn find(&self, url: &str) -> (found: Option<usize>)
        ensures
            match found {
                Some(at) => at < self@.len() && self@[at as int].url@ == url@,
                None => !spec_known(self@, url@),
            },
    {
        let mut i: usize = 0;
        while i < self.entries.len()
            invariant
                i <= self.entries@.len(),
                forall|k: int| 0 <= k < i ==> (#[trigger] self.entries@[k]).url@ != url@,
            decreases self.entries@.len() - i,
        {
            if ct_str_eq(self.entries[i].url.as_str(), url) {
                return Some(i);
            }
            i = i + 1;
        }
        None
    }

    /// Tells whether a client stands under `url`.
    pub fn contains(&self, url: &str) -> (known: bool)
        ensures
            known == spec_known(self@, url@),
    {
        self.find(url).is_some()
    }

    /// Takes the client under `url` out of the map, if there is one. The
    /// others stay.
    pub fn take(&mut self, url: &str) -> (taken: Option<APIClient>)
        requires
            old(self).wf(),
        ensures
            final(self).wf(),
            !spec_known(final(self)@, url@),
            match taken {
                Some(client) => exists|at: int|
                    0 <= at < old(self)@.len() && (#[trigger] old(self)@[at]).url@ == url@
                        && old(self)@[at].client == client
                        && final(self)@ == old(self)@.remove(at),
                None => !spec_known(old(self)@, url@) && final(self)@ == old(self)@,
            },
            forall|other: Seq<char>|
                other != url@ ==> (spec_known(final(self)@, other)
                    <==> spec_known(old(self)@, other)),
    {
        match self.find(url) {
            Some(at) => {
                proof {
                    lemma_remove_distinct_urls(self.entries@, at as int);
                }
                let entry = self.entries.remove(at);
                Some(entry.client)
            },
            None => None,
        }
    }

    /// Puts `client` under `url`, in place of the client that stood there, if
    /// there was one. The others stay.
    pub fn insert(&mut self, url: String, client: APIClient)
        requires
            old(self).wf(),
        ensures
            final(self).wf(),
            spec_put(old(self)@, final(self)@, url, client),
    {
        let _ = self.take(url.as_str());
        proof {
            lemma_push_distinct_urls(self.entries@, ClientEntry { url, client });
        }
        self.entries.push(ClientEntry { url, client });
    }
}

/// What is to follow a finished login.
pub enum FollowUp {
    /// Report the event to the user interface.
    Report(VerdantUiCmd),
    /// Ask the server under this URL for a token of the media service and
    /// hand the answer to `token_event`.
    AskToken(String),
}

/// What the service is to do about a command.
pub enum Dispatch {
    /// Fetch the token-signing key of the server, make its client with
    /// `APIClient::from_discovery` and hand the outcome to
    /// `Clients::bootstrapped`.
    Bootstrap(Discovery),
    /// Run the login with the client, which was taken out of the map, and
    /// hand the outcome to `Clients::login_finished`.
    Login { client: APIClient, request: LoginRequest },
    /// Report the event to the user interface.
    Report(VerdantUiCmd),
}

impl Clients {
    /// Decides what to do about `command`.
    ///
    /// A discovered server is to be bootstrapped. A login at a server whose
    /// client is in the map is to be run with that client; a login at any
    /// other URL is answered at once with `LoginResult::UnknownServer`.
    pub fn dispatch(&mut self, command: VerdantCmd) -> (todo: Dispatch)
        requires
            old(self).wf(),
        ensures
            final(self).wf(),
            match command {
                VerdantCmd::ServerDiscovered(discovery) => {
                    &&& todo matches Dispatch::Bootstrap(d)
                    &&& d == discovery
                    &&& final(self)@ == old(self)@
                },
                VerdantCmd::Login(asked) => if spec_known(old(self)@, asked.url@) {
                    &&& todo matches Dispatch::Login { client, request }
                    &&& request == asked
                    &&& exists|at: int|
                        0 <= at < old(self)@.len() && (#[trigger] old(self)@[at]).url@
                            == asked.url@ && old(self)@[at].client == client
                            && final(self)@ == old(self)@.remove(at)
                } else {
                    &&& todo matches Dispatch::Report(
                        VerdantUiCmd::LoginResult(LoginResult::UnknownServer(url)),
                    )
                    &&& url@ == asked.url@
                    &&& final(self)@ == old(self)@
                },
            },
    {
        match command {
            VerdantCmd::ServerDiscovered(discovery) => Dispatch::Bootstrap(discovery),
            VerdantCmd::Login(request) => match self.take(request.url.as_str()) {
                Some(client) => Dispatch::Login { client, request },
                None => Dispatch::Report(
                    VerdantUiCmd::LoginResult(LoginResult::UnknownServer(request.url.clone())),
                ),
            },
        }
    }

    /// Takes the outcome of a bootstrap. A client that was made is put into
    /// the map under its URL, and the server is reported to the user
    /// interface. A bootstrap that failed leaves the map as it is and reports
    /// nothing: there is then no client to log in with at that server.
    pub fn bootstrapped(&mut self, discovery: Discovery, outcome: Result<APIClient, Error>) -> (event:
        Option<VerdantUiCmd>)
        requires
            old(self).wf(),
        ensures
            final(self).wf(),
            match outcome {
                Ok(client) => {
                    &&& event matches Some(VerdantUiCmd::ServerDiscovered(d))
                    &&& d == discovery
                    &&& spec_put(old(self)@, final(self)@, client.url, client)
                },
                Err(_) => event is None && final(self)@ == old(self)@,
            },
    {
        match outcome {
            Ok(client) => {
                let url = client.url.clone();
                self.insert(url, client);
                Some(VerdantUiCmd::ServerDiscovered(discovery))
            },
            Err(_) => None,
        }
    }

    /// Takes the outcome of a login: puts the client back under `url` and
    /// says what is to follow, in this order. First the login is reported: a
    /// result as it is, a failure as `LoginResult::Unauthorized`. Then, after
    /// a success and after nothing else, a token of the media service is to
    /// be asked for with the client under `url`.
    pub fn login_finished(
        &mut self,
        url: String,
        client: APIClient,
        outcome: Result<LoginResult, Error>,
    ) -> (todo: Vec<FollowUp>)
        requires
            old(self).wf(),
        ensures
            final(self).wf(),
            spec_put(old(self)@, final(self)@, url, client),
            match outcome {
                Ok(LoginResult::Success(token)) => {
                    &&& todo@.len() == 2
                    &&& todo@[0] == FollowUp::Report(
                        VerdantUiCmd::LoginResult(LoginResult::Success(token)),
                    )
                    &&& todo@[1] matches FollowUp::AskToken(at)
                    &&& at@ == url@
                },
                Ok(result) => {
                    &&& todo@.len() == 1
                    &&& todo@[0] == FollowUp::Report(VerdantUiCmd::LoginResult(result))
                },
                Err(_) => {
                    &&& todo@.len() == 1
                    &&& todo@[0] == FollowUp::Report(
                        VerdantUiCmd::LoginResult(LoginResult::Unauthorized),
                    )
                },
            },
    {
        let at = url.clone();
        self.insert(url, client);
        let mut todo: Vec<FollowUp> = Vec::new();
        match outcome {
            Ok(LoginResult::Success(token)) => {
                todo.push(FollowUp::Report(VerdantUiCmd::LoginResult(LoginResult::Success(token))));
                todo.push(FollowUp::AskToken(at));
            },
            Ok(result) => {
                todo.push(FollowUp::Report(VerdantUiCmd::LoginResult(result)));
            },
            Err(_) => {
                todo.push(FollowUp::Report(VerdantUiCmd::LoginResult(LoginResult::Unauthorized)));
            },
        }
        todo
    }
}

/// What to report about the answer of the token issuer to the client of the
/// server under `url`, once `Clients::login_finished` has said to ask: a
/// token is reported with the URL, a failure is not reported.
pub fn token_event(url: &str, issued: Result<TokenResponse, Error>) -> (event: Option<VerdantUiCmd>)
    ensures
        match issued {
            Ok(response) => event matches Some(VerdantUiCmd::LkToken(u, r)) && u@ == url@ && r
                == response,
            Err(_) => event is None,
        },
{
    match issued {
        Ok(response) => Some(VerdantUiCmd::LkToken(url.to_owned(), response)),
        Err(_) => None,
    }
}

} // verus!
