use verdant_protocol::api::APIClient;
use verdant_protocol::api::DecodingKey;
use verdant_protocol::api::Discovery;
use verdant_protocol::api::KeyFamily;
use verdant_protocol::api::Validation;
use verdant_protocol::auth::LoginResult;
use verdant_protocol::errors::Error;
use verdant_protocol::livekit::TokenResponse;
use verdant_protocol::native::VerdantEventTag;
use verdant_protocol::services::copy_discovery;
use verdant_protocol::services::same_discovery;
use verdant_protocol::services::token_event;
use verdant_protocol::services::Clients;
use verdant_protocol::services::Dispatch;
use verdant_protocol::services::FollowUp;
use verdant_protocol::services::LoginRequest;
use verdant_protocol::services::Observed;
use verdant_protocol::services::VerdantCmd;
use verdant_protocol::services::VerdantUiCmd;

fn discovery(name: &str, urls: &[&str]) -> Discovery {
    Discovery {
        urls: urls.iter().map(|u| u.to_string()).collect(),
        pubkey_hash: "hash".to_string(),
        name: name.to_string(),
    }
}

fn client(url: &str, token: Option<&str>) -> APIClient {
    let mut client = APIClient::new(
        url,
        DecodingKey {
            family: KeyFamily::Ed,
            key: vec![0; 32],
        },
        Validation::for_family(KeyFamily::Ed),
    );
    client.access_token = token.map(|t| t.to_string());
    client
}

fn token_response() -> TokenResponse {
    TokenResponse {
        room_id: [1u8; 16],
        token: "lk".to_string(),
        room: "lobby".to_string(),
        url: "wss://media".to_string(),
    }
}

#[test]
fn login_command_holds_what_it_was_made_with() {
    let request = LoginRequest::new("https://srv", "alice", "hunter2");
    assert_eq!(request.url, "https://srv");
    assert_eq!(request.username, "alice");
    assert_eq!(request.password, "hunter2");
}

#[test]
fn discoveries_are_compared_field_by_field() {
    let a = discovery("srv", &["https://a", "https://b"]);
    assert!(same_discovery(&a, &a.clone()));
    assert!(same_discovery(&a, &copy_discovery(&a)));
    assert_eq!(copy_discovery(&a), a);
    assert!(!same_discovery(&a, &discovery("srw", &["https://a", "https://b"])));
    assert!(!same_discovery(&a, &discovery("srv", &["https://a"])));
    assert!(!same_discovery(&a, &discovery("srv", &["https://a", "https://c"])));
    assert!(!same_discovery(&a, &discovery("srv", &["https://b", "https://a"])));
    let mut other = a.clone();
    other.pubkey_hash = "other".to_string();
    assert!(!same_discovery(&a, &other));
    assert!(same_discovery(&discovery("", &[]), &discovery("", &[])));
}

#[test]
fn duplicate_discoveries_are_passed_over() {
    let mut observed = Observed::new();
    let a = discovery("a", &["https://a"]);
    let b = discovery("b", &["https://b"]);

    match observed.observe(a.clone()) {
        Some(VerdantCmd::ServerDiscovered(d)) => assert_eq!(d, a),
        other => panic!("unexpected command: {:?}", other),
    }
    assert!(observed.observe(a.clone()).is_none());
    match observed.observe(b.clone()) {
        Some(VerdantCmd::ServerDiscovered(d)) => assert_eq!(d, b),
        other => panic!("unexpected command: {:?}", other),
    }
    assert!(observed.observe(b.clone()).is_none());
    assert!(observed.observe(a.clone()).is_none());
    assert_eq!(observed.known, vec![a, b]);
}

#[test]
fn discovered_server_is_to_be_bootstrapped() {
    let mut clients = Clients::new();
    let d = discovery("a", &["https://a"]);
    match clients.dispatch(VerdantCmd::ServerDiscovered(d.clone())) {
        Dispatch::Bootstrap(got) => assert_eq!(got, d),
        _ => panic!("unexpected dispatch"),
    }
    assert!(!clients.contains("https://a"));
}

#[test]
fn login_at_an_unknown_server_is_answered_at_once() {
    let mut clients = Clients::new();
    clients.insert("https://a".to_string(), client("https://a", None));
    let request = LoginRequest::new("https://b", "alice", "pw");
    match clients.dispatch(VerdantCmd::Login(request)) {
        Dispatch::Report(VerdantUiCmd::LoginResult(LoginResult::UnknownServer(url))) => {
            assert_eq!(url, "https://b")
        }
        _ => panic!("unexpected dispatch"),
    }
    assert!(clients.contains("https://a"));
}

#[test]
fn login_at_a_known_server_runs_with_its_client() {
    let mut clients = Clients::new();
    clients.insert("https://a".to_string(), client("https://a", Some("ta")));
    clients.insert("https://b".to_string(), client("https://b", Some("tb")));
    let request = LoginRequest::new("https://b", "alice", "pw");
    let (taken, request) = match clients.dispatch(VerdantCmd::Login(request)) {
        Dispatch::Login { client, request } => (client, request),
        _ => panic!("unexpected dispatch"),
    };
    assert_eq!(taken.url, "https://b");
    assert_eq!(taken.access_token, Some("tb".to_string()));
    assert_eq!(request.username, "alice");
    assert!(!clients.contains("https://b"));
    assert!(clients.contains("https://a"));

    let todo = clients.login_finished(
        request.url.clone(),
        taken,
        Ok(LoginResult::Success("fresh".to_string())),
    );
    // the success is reported first, then the media token is asked for
    assert_eq!(todo.len(), 2);
    assert!(matches!(
        todo[0],
        FollowUp::Report(VerdantUiCmd::LoginResult(LoginResult::Success(ref t))) if t == "fresh"
    ));
    assert!(matches!(todo[1], FollowUp::AskToken(ref at) if at == "https://b"));
    assert!(clients.contains("https://b"));
}

#[test]
fn failed_login_is_reported_as_unauthorized() {
    let mut clients = Clients::new();
    let todo = clients.login_finished(
        "https://a".to_string(),
        client("https://a", None),
        Err(Error::AuthenticityFailure),
    );
    assert_eq!(todo.len(), 1);
    assert!(matches!(
        todo[0],
        FollowUp::Report(VerdantUiCmd::LoginResult(LoginResult::Unauthorized))
    ));
    assert!(clients.contains("https://a"));
    // and no token of the media service follows: there is nothing to ask with
    let kept = clients.take("https://a").unwrap();
    let asked = kept.bearer();
    assert!(matches!(asked, Err(Error::Unauthorized)));
    assert!(token_event("https://a", asked.map(|_| token_response())).is_none());
}

#[test]
fn password_reset_is_reported_as_it_is() {
    let mut clients = Clients::new();
    let todo = clients.login_finished(
        "https://a".to_string(),
        client("https://a", None),
        Ok(LoginResult::PasswordReset),
    );
    assert_eq!(todo.len(), 1);
    assert!(matches!(
        todo[0],
        FollowUp::Report(VerdantUiCmd::LoginResult(LoginResult::PasswordReset))
    ));
}

#[test]
fn bootstrapped_client_replaces_the_one_before() {
    let mut clients = Clients::new();
    let d = discovery("a", &["https://a"]);
    let event = clients.bootstrapped(d.clone(), Ok(client("https://a", Some("old"))));
    assert!(matches!(event, Some(VerdantUiCmd::ServerDiscovered(ref got)) if *got == d));
    assert!(clients.contains("https://a"));

    let event = clients.bootstrapped(d.clone(), Ok(client("https://a", None)));
    assert!(event.is_some());
    let kept = clients.take("https://a").unwrap();
    assert_eq!(kept.access_token, None);
    assert!(clients.take("https://a").is_none());
}

#[test]
fn failed_bootstrap_leaves_no_client() {
    let mut clients = Clients::new();
    let d = discovery("a", &["https://a"]);
    let event = clients.bootstrapped(
        d,
        Err(Error::KeyHashMismatch("h".to_string(), "g".to_string())),
    );
    assert!(event.is_none());
    assert!(!clients.contains("https://a"));
    // a login there is then answered as for any unknown server
    let request = LoginRequest::new("https://a", "alice", "pw");
    assert!(matches!(
        clients.dispatch(VerdantCmd::Login(request)),
        Dispatch::Report(VerdantUiCmd::LoginResult(LoginResult::UnknownServer(_)))
    ));
}

#[test]
fn issued_token_is_reported_with_the_url() {
    match token_event("https://a", Ok(token_response())) {
        Some(VerdantUiCmd::LkToken(url, response)) => {
            assert_eq!(url, "https://a");
            assert_eq!(response, token_response());
        }
        other => panic!("unexpected event: {:?}", other),
    }
    assert!(token_event("https://a", Err(Error::Http("503".to_string()))).is_none());
}

#[test]
fn event_tags_have_their_numbers() {
    assert_eq!(VerdantEventTag::Empty.code(), 0);
    assert_eq!(VerdantEventTag::LoginResult.code(), 1);
    assert_eq!(VerdantEventTag::ServerDiscovered.code(), 2);
    assert_eq!(VerdantEventTag::LkToken.code(), 3);
    assert_eq!(VerdantEventTag::Error.code(), 0xFFFF);
}

#[test]
fn events_are_tagged_by_their_kind() {
    assert_eq!(VerdantEventTag::of_event(&None), VerdantEventTag::Empty);
    assert_eq!(
        VerdantEventTag::of_event(&Some(VerdantUiCmd::LoginResult(LoginResult::Unauthorized))),
        VerdantEventTag::LoginResult
    );
    assert_eq!(
        VerdantEventTag::of_event(&Some(VerdantUiCmd::ServerDiscovered(discovery("a", &[])))),
        VerdantEventTag::ServerDiscovered
    );
    assert_eq!(
        VerdantEventTag::of_event(&Some(VerdantUiCmd::LkToken(
            "https://a".to_string(),
            token_response()
        ))),
        VerdantEventTag::LkToken
    );
}

#[test]
fn internal_errors_carry_their_text() {
    match Error::internal("broken") {
        Error::Internal(text) => assert_eq!(text, "broken"),
        other => panic!("unexpected error: {:?}", other),
    }
    match Error::from("from a string".to_string()) {
        Error::Internal(text) => assert_eq!(text, "from a string"),
        other => panic!("unexpected error: {:?}", other),
    }
}

#[test]
fn no_media_token_is_asked_for_after_a_failed_login() {
    // the client holds a token from an earlier login
    let outcomes: Vec<Result<LoginResult, Error>> = vec![
        Err(Error::AuthenticityFailure),
        Err(Error::Http("connection reset".to_string())),
        Ok(LoginResult::Unauthorized),
        Ok(LoginResult::PasswordReset),
        Ok(LoginResult::UnknownServer("https://elsewhere".to_string())),
    ];
    for outcome in outcomes {
        let mut clients = Clients::new();
        let todo = clients.login_finished(
            "https://a".to_string(),
            client("https://a", Some("earlier")),
            outcome,
        );
        assert_eq!(todo.len(), 1);
        assert!(matches!(todo[0], FollowUp::Report(VerdantUiCmd::LoginResult(_))));
        assert!(!todo.iter().any(|step| matches!(step, FollowUp::AskToken(_))));
    }
}
