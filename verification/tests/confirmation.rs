use hmac::Mac;
use verdant_protocol::auth::challenge::LoginCompletion;
use verdant_protocol::auth::challenge::LoginUpload;
use verdant_protocol::auth::challenge::Transcript;
use verdant_protocol::auth::messages::CredentialFinalization;
use verdant_protocol::auth::messages::CredentialResponse;
use verdant_protocol::auth::LoginResult;
use verdant_protocol::auth::SessionId;
use verdant_protocol::client::auth::LoginRequest;
use verdant_protocol::ct::ct_eq;
use verdant_protocol::ct::ct_str_eq;
use verdant_protocol::server::auth::LoginResponse;

fn expected_tag(session_key: &[u8], transcript: &[u8], label: &[u8]) -> [u8; 32] {
    let hk = hkdf::Hkdf::<sha2::Sha256>::new(Some(&[]), session_key);
    let mut k_confirm = [0u8; 32];
    hk.expand(b"confirmation", &mut k_confirm).unwrap();
    let mut mac = hmac::Hmac::<sha2::Sha256>::new_from_slice(&k_confirm).unwrap();
    mac.update(transcript);
    mac.update(label);
    mac.finalize().into_bytes().into()
}

fn request() -> LoginRequest {
    LoginRequest {
        username: "alice".to_string(),
        credentials: "Y3JlZHM=".to_string(),
    }
}

fn response() -> LoginResponse {
    LoginResponse::PAKE(
        SessionId::from_bytes([3u8; 16]),
        CredentialResponse::from_bytes(vec![5, 6, 7]),
    )
}

fn upload(key: &[u8]) -> LoginUpload {
    LoginUpload::new(
        SessionId::from_bytes([3u8; 16]),
        CredentialFinalization::from_bytes(vec![8, 9]),
        key,
        &request(),
        &response(),
    )
}

#[test]
fn ct_eq_compares_bytes() {
    assert!(ct_eq(&[], &[]));
    assert!(ct_eq(&[1, 2, 3], &[1, 2, 3]));
    assert!(!ct_eq(&[1, 2, 3], &[1, 2, 4]));
    assert!(!ct_eq(&[0, 2, 3], &[1, 2, 3]));
    assert!(!ct_eq(&[1, 2, 3], &[1, 2]));
    assert!(!ct_eq(&[], &[0]));
    assert!(!ct_eq(&[0x80], &[0x00]));
    assert!(!ct_eq(&[0xFF, 0x00], &[0x00, 0xFF]));
}

#[test]
fn ct_str_eq_compares_text() {
    assert!(ct_str_eq("", ""));
    assert!(ct_str_eq("abc", "abc"));
    assert!(!ct_str_eq("abc", "abd"));
    assert!(!ct_str_eq("abc", "ab"));
    assert!(ct_str_eq("grüße", "grüße"));
    assert!(!ct_str_eq("grüße", "grusse"));
}

#[test]
fn session_ids_compare_by_their_bytes() {
    let a = SessionId::from_bytes([1u8; 16]);
    let mut bytes = [1u8; 16];
    assert!(a.same(&SessionId::from_bytes(bytes)));
    bytes[15] = 2;
    assert!(!a.same(&SessionId::from_bytes(bytes)));
}

#[test]
fn client_tag_is_hmac_under_the_confirmation_key() {
    let key = [0x42u8; 32];
    let message = upload(&key);
    let transcript = Transcript::compute_transcript(&request(), &response());
    assert_eq!(
        message.client_tag,
        expected_tag(&key, transcript.as_bytes(), b"client")
    );
    assert_eq!(message.id(), SessionId::from_bytes([3u8; 16]));
    assert_eq!(message.finalization().serialize(), vec![8, 9]);
}

#[test]
fn confirmation_key_is_hkdf_without_salt() {
    // extracting without a salt is extracting with a salt of 32 zero bytes
    let key = [0x42u8; 32];
    let hk = hkdf::Hkdf::<sha2::Sha256>::new(None, &key);
    let mut unsalted = [0u8; 32];
    hk.expand(b"confirmation", &mut unsalted).unwrap();
    let mut mac = hmac::Hmac::<sha2::Sha256>::new_from_slice(&unsalted).unwrap();
    let transcript = Transcript::new(b"abc".to_vec());
    mac.update(b"abcserver");
    let expected: [u8; 32] = mac.finalize().into_bytes().into();
    let completion = LoginCompletion::new(LoginResult::Unauthorized, &key, transcript);
    assert_eq!(completion.server_tag, expected);
}

#[test]
fn server_tag_is_hmac_under_the_confirmation_key() {
    let key = b"a session key of any length".to_vec();
    let transcript = Transcript::compute_transcript(&request(), &response());
    let completion = LoginCompletion::new(
        LoginResult::Success("token".to_string()),
        &key,
        transcript.clone(),
    );
    assert_eq!(
        completion.server_tag,
        expected_tag(&key, transcript.as_bytes(), b"server")
    );
    assert!(matches!(completion.result, LoginResult::Success(ref t) if t == "token"));
}

#[test]
fn upload_verifies_under_what_it_was_made_with() {
    let key = [1u8; 32];
    let message = upload(&key);
    assert!(message.verify(&key, &request(), &response()));
    let transcript = Transcript::compute_transcript(&request(), &response());
    assert!(message.verify_transcript(&key, &transcript));
}

#[test]
fn upload_does_not_verify_under_another_key() {
    let message = upload(&[1u8; 32]);
    assert!(!message.verify(&[2u8; 32], &request(), &response()));
    assert!(!message.verify(&[], &request(), &response()));
}

#[test]
fn upload_does_not_verify_under_other_messages() {
    let key = [1u8; 32];
    let message = upload(&key);
    let mut other_request = request();
    other_request.username = "alicf".to_string();
    assert!(!message.verify(&key, &other_request, &response()));
    let other_response = LoginResponse::PAKE(
        SessionId::from_bytes([4u8; 16]),
        CredentialResponse::from_bytes(vec![5, 6, 7]),
    );
    assert!(!message.verify(&key, &request(), &other_response));
    assert!(!message.verify(&key, &request(), &LoginResponse::AccessDenied));
}

#[test]
fn tampered_upload_tag_does_not_verify() {
    let key = [1u8; 32];
    let mut message = upload(&key);
    message.client_tag[31] ^= 1;
    assert!(!message.verify(&key, &request(), &response()));
    message.client_tag[31] ^= 1;
    message.client_tag[0] ^= 0x80;
    assert!(!message.verify(&key, &request(), &response()));
}

#[test]
fn completion_verifies_under_what_it_was_made_with() {
    let key = [9u8; 32];
    let transcript = Transcript::compute_transcript(&request(), &response());
    let completion = LoginCompletion::new(LoginResult::PasswordReset, &key, transcript.clone());
    assert!(completion.verify(&key, &request(), &response()));
    assert!(completion.transcript_verify(&key, &transcript));
    assert!(!completion.verify(&[8u8; 32], &request(), &response()));
    assert!(!completion.verify(&key, &request(), &LoginResponse::AccessDenied));
}

#[test]
fn swapped_role_labels_do_not_verify() {
    let key = [7u8; 32];
    let transcript = Transcript::compute_transcript(&request(), &response());
    let from_client = upload(&key);
    let from_server = LoginCompletion::new(LoginResult::Unauthorized, &key, transcript.clone());
    assert_ne!(from_client.client_tag, from_server.server_tag);

    // the client's tag reflected as the server's
    let reflected = LoginCompletion {
        result: LoginResult::Success("token".to_string()),
        server_tag: from_client.client_tag,
    };
    assert!(!reflected.verify(&key, &request(), &response()));

    // the server's tag reflected as the client's
    let reflected = LoginUpload {
        id: from_client.id,
        upload: from_client.finalization(),
        client_tag: from_server.server_tag,
    };
    assert!(!reflected.verify(&key, &request(), &response()));
}

#[test]
fn unauthorized_completion_has_a_zero_tag() {
    let completion = LoginCompletion::unauthorized();
    assert!(matches!(completion.result, LoginResult::Unauthorized));
    assert_eq!(completion.server_tag, [0u8; 32]);
    assert!(!completion.verify(&[0u8; 32], &request(), &response()));
}
