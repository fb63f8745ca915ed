use base64::Engine;
use uuid::Uuid;
use verdant_protocol::auth::messages::CredentialRequest;
use verdant_protocol::auth::messages::CredentialResponse;
use verdant_protocol::auth::messages::ServerSetup;
use verdant_protocol::auth::register_user;
use verdant_protocol::auth::SessionId;
use verdant_protocol::client::auth::Client;
use verdant_protocol::client::auth::LoginRequest;
use verdant_protocol::errors::ProtocolFailure;
use verdant_protocol::server::auth::LoginResponse;
use verdant_protocol::server::auth::Server;

fn request_to_json(request: &LoginRequest) -> String {
    let mut object = serde_json::Map::new();
    object.insert(
        "username".to_string(),
        serde_json::Value::String(request.username.clone()),
    );
    object.insert(
        "credentials".to_string(),
        serde_json::Value::String(request.credentials.clone()),
    );
    serde_json::to_string(&serde_json::Value::Object(object)).unwrap()
}

fn request_from_json(text: &str) -> LoginRequest {
    let value: serde_json::Value = serde_json::from_str(text).unwrap();
    LoginRequest {
        username: value["username"].as_str().unwrap().to_string(),
        credentials: value["credentials"].as_str().unwrap().to_string(),
    }
}

fn response_to_json(response: &LoginResponse) -> String {
    let engine = base64::engine::general_purpose::STANDARD;
    let value = match response {
        LoginResponse::OTP(contact) => {
            let mut object = serde_json::Map::new();
            object.insert("OTP".to_string(), serde_json::Value::String(contact.clone()));
            serde_json::Value::Object(object)
        }
        LoginResponse::PAKE(id, credentials) => {
            let pair = vec![
                serde_json::Value::String(Uuid::from_bytes(id.bytes).to_string()),
                serde_json::Value::String(engine.encode(credentials.serialize())),
            ];
            let mut object = serde_json::Map::new();
            object.insert("PAKE".to_string(), serde_json::Value::Array(pair));
            serde_json::Value::Object(object)
        }
        LoginResponse::AccessDenied => serde_json::Value::String("AccessDenied".to_string()),
    };
    serde_json::to_string(&value).unwrap()
}

fn response_from_json(text: &str) -> LoginResponse {
    let engine = base64::engine::general_purpose::STANDARD;
    let value: serde_json::Value = serde_json::from_str(text).unwrap();
    if let Some(contact) = value.get("OTP") {
        return LoginResponse::OTP(contact.as_str().unwrap().to_string());
    }
    if let Some(pair) = value.get("PAKE") {
        let id = Uuid::parse_str(pair[0].as_str().unwrap()).unwrap();
        let bytes = engine.decode(pair[1].as_str().unwrap()).unwrap();
        return LoginResponse::PAKE(
            SessionId::from_bytes(*id.as_bytes()),
            CredentialResponse::from_bytes(bytes),
        );
    }
    assert_eq!(value.as_str(), Some("AccessDenied"));
    LoginResponse::AccessDenied
}

#[test]
fn serialization_round_trip() {
    let setup = ServerSetup::generate();
    let server = Server::new(setup);
    let stored = register_user(&server, "user", "password").unwrap();
    let client = Client::new("password");

    // === Login phase ===
    let (client_login, credential_request) = client.start_login().unwrap();

    let request = LoginRequest::new("user", credential_request.clone());
    let request_json = request_to_json(&request);
    let parsed_request = request_from_json(&request_json);

    assert_eq!(request, parsed_request);
    let parsed_credential_request = CredentialRequest::from_bytes(
        base64::engine::general_purpose::STANDARD
            .decode(parsed_request.credentials.as_bytes())
            .unwrap(),
    );
    assert_eq!(parsed_credential_request, credential_request);

    let (server_login, credential_response) = server
        .start_login(stored.clone(), parsed_credential_request, "user")
        .unwrap();

    let response = LoginResponse::PAKE(
        SessionId::from_bytes(*Uuid::new_v4().as_bytes()),
        credential_response,
    );
    let response_json = response_to_json(&response);
    let parsed_response = response_from_json(&response_json);

    assert_eq!(response, parsed_response);
    let parsed_login_response = match parsed_response {
        LoginResponse::PAKE(_, resp) => resp,
        _ => panic!("basic sanity check failed"),
    };

    let (client_key, client_finalization) = client
        .finish_login(client_login, parsed_login_response)
        .unwrap();

    let server_key = server.finish_login(server_login, client_finalization).unwrap();
    assert_eq!(client_key, server_key);
}

#[test]
fn test_registration_flow() -> Result<(), ProtocolFailure> {
    let setup = ServerSetup::generate();
    let server = Server::new(setup);
    let client = Client::new("correct horse battery staple");

    // === Step 1: Client starts registration ===
    let (client_reg, reg_request) = client.start_registration()?;

    // === Step 2: Server processes registration request ===
    let reg_response = server.start_registration(reg_request, "alice")?;

    // === Step 3: Client finalizes registration ===
    let upload = client.finish_registration(client_reg, reg_response)?;

    // === Step 4: Server stores registration record ===
    let stored = server.finish_registration(upload);

    // Verify server stores a valid record
    assert!(
        !stored.serialize().is_empty(),
        "server stored empty registration record"
    );

    Ok(())
}

#[test]
fn test_full_login_flow() -> Result<(), ProtocolFailure> {
    let setup = ServerSetup::generate();
    let server = Server::new(setup);
    let client = Client::new("hunter2");

    // === Registration phase ===
    let (client_reg, reg_request) = client.start_registration()?;
    let reg_response = server.start_registration(reg_request, "bob")?;
    let upload = client.finish_registration(client_reg, reg_response)?;
    let stored = server.finish_registration(upload);

    // === Login phase ===
    let (client_login, credential_request) = client.start_login()?;
    let (server_login, credential_response) =
        server.start_login(stored.clone(), credential_request, "bob")?;
    let (client_key, client_finalization) =
        client.finish_login(client_login, credential_response)?;
    let server_key = server.finish_login(server_login, client_finalization)?;

    // === Verify both session keys match ===
    assert_eq!(
        client_key, server_key,
        "Session keys derived by client and server should match"
    );

    Ok(())
}

#[test]
fn test_login_with_wrong_password_fails() -> Result<(), ProtocolFailure> {
    let setup = ServerSetup::generate();
    let server = Server::new(setup);
    let client_good = Client::new("letmein");
    let client_bad = Client::new("wrongpassword");

    // === Registration with correct password ===
    let (client_reg, reg_request) = client_good.start_registration()?;
    let reg_response = server.start_registration(reg_request, "carol")?;
    let upload = client_good.finish_registration(client_reg, reg_response)?;
    let stored = server.finish_registration(upload);

    // === Attempt login with wrong password ===
    let (client_login, credential_request) = client_bad.start_login()?;
    let (_server_login, credential_response) =
        server.start_login(stored.clone(), credential_request, "carol")?;

    // The finalization should fail due to incorrect password
    let result = client_bad.finish_login(client_login, credential_response);
    assert!(result.is_err(), "Login should fail with wrong password");

    Ok(())
}

#[test]
fn test_multiple_users_independent_keys() -> Result<(), ProtocolFailure> {
    let setup = ServerSetup::generate();
    let server = Server::new(setup);

    let alice = Client::new("password123");
    let bob = Client::new("hunter2");

    // Register Alice
    let (reg_a, req_a) = alice.start_registration()?;
    let resp_a = server.start_registration(req_a, "alice")?;
    let up_a = alice.finish_registration(reg_a, resp_a)?;
    let stored_a = server.finish_registration(up_a);

    // Register Bob
    let (reg_b, req_b) = bob.start_registration()?;
    let resp_b = server.start_registration(req_b, "bob")?;
    let up_b = bob.finish_registration(reg_b, resp_b)?;
    let stored_b = server.finish_registration(up_b);

    // Login as Alice
    let (login_a, req_login_a) = alice.start_login()?;
    let (srv_login_a, resp_login_a) =
        server.start_login(stored_a.clone(), req_login_a, "alice")?;
    let (alice_key, fin_a) = alice.finish_login(login_a, resp_login_a)?;
    let server_key_a = server.finish_login(srv_login_a, fin_a)?;

    // Login as Bob
    let (login_b, req_login_b) = bob.start_login()?;
    let (srv_login_b, resp_login_b) =
        server.start_login(stored_b.clone(), req_login_b, "bob")?;
    let (bob_key, fin_b) = bob.finish_login(login_b, resp_login_b)?;
    let server_key_b = server.finish_login(srv_login_b, fin_b)?;

    // Keys for different users must not match
    assert_ne!(
        alice_key, bob_key,
        "Session keys for different users must not be equal"
    );
    assert_eq!(alice_key, server_key_a, "Alice's key must match server's");
    assert_eq!(bob_key, server_key_b, "Bob's key must match server's");

    Ok(())
}

#[test]
fn test_repeated_login_produces_unique_keys() -> Result<(), ProtocolFailure> {
    let setup = ServerSetup::generate();
    let server = Server::new(setup);
    let client = Client::new("purplemonkeydishwasher");

    // Registration
    let (client_reg, reg_req) = client.start_registration()?;
    let reg_resp = server.start_registration(reg_req, "eve")?;
    let upload = client.finish_registration(client_reg, reg_resp)?;
    let stored = server.finish_registration(upload);

    // Login 1
    let (login1, req1) = client.start_login()?;
    let (srv1, resp1) = server.start_login(stored.clone(), req1, "eve")?;
    let (key1, fin1) = client.finish_login(login1, resp1)?;
    let srv_key1 = server.finish_login(srv1, fin1)?;

    // Login 2
    let (login2, req2) = client.start_login()?;
    let (srv2, resp2) = server.start_login(stored.clone(), req2, "eve")?;
    let (key2, fin2) = client.finish_login(login2, resp2)?;
    let srv_key2 = server.finish_login(srv2, fin2)?;

    // Each session must produce a distinct shared key
    assert_ne!(
        key1, key2,
        "Each login should produce a new unique session key"
    );
    assert_eq!(key1, srv_key1);
    assert_eq!(key2, srv_key2);

    Ok(())
}
