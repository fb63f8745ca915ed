use verdant_protocol::api::detect_key_type;
use verdant_protocol::api::endpoint;
use verdant_protocol::api::key_type_of_oid;
use verdant_protocol::api::supported_family;
use verdant_protocol::api::APIClient;
use verdant_protocol::api::check_key_hash;
use verdant_protocol::api::Algorithm;
use verdant_protocol::api::DecodingKey;
use verdant_protocol::api::Discovery;
use verdant_protocol::api::KeyFamily;
use verdant_protocol::api::KeyType;
use verdant_protocol::api::PubKeyResponse;
use verdant_protocol::api::Validation;
use verdant_protocol::crypto::sha256_base64;
use verdant_protocol::crypto::sha256_base64_bytes;
use verdant_protocol::errors::Error;

/// A SubjectPublicKeyInfo with the given algorithm identifier (the bytes of
/// the inner SEQUENCE) and the given key bytes.
fn spki(algorithm: &[u8], key: &[u8]) -> Vec<u8> {
    let mut alg = vec![0x30, algorithm.len() as u8];
    alg.extend_from_slice(algorithm);
    let mut bits = vec![0x03, (key.len() + 1) as u8, 0x00];
    bits.extend_from_slice(key);
    let mut der = vec![0x30, (alg.len() + bits.len()) as u8];
    der.extend(alg);
    der.extend(bits);
    der
}

const RSA_ALG: [u8; 13] = [
    0x06, 0x09, 0x2a, 0x86, 0x48, 0x86, 0xf7, 0x0d, 0x01, 0x01, 0x01, 0x05, 0x00,
];
const EC_ALG: [u8; 19] = [
    0x06, 0x07, 0x2a, 0x86, 0x48, 0xce, 0x3d, 0x02, 0x01, 0x06, 0x08, 0x2a, 0x86, 0x48, 0xce, 0x3d,
    0x03, 0x01, 0x07,
];
const ED25519_ALG: [u8; 5] = [0x06, 0x03, 0x2b, 0x65, 0x70];
const ED448_ALG: [u8; 5] = [0x06, 0x03, 0x2b, 0x65, 0x71];
const OTHER_ALG: [u8; 5] = [0x06, 0x03, 0x2a, 0x03, 0x04];

fn discovery(urls: &[&str], hash: &str) -> Discovery {
    Discovery {
        urls: urls.iter().map(|u| u.to_string()).collect(),
        pubkey_hash: hash.to_string(),
        name: "verdant".to_string(),
    }
}

#[test]
fn sha256_base64_of_hello() {
    let hash = sha256_base64("hello");
    assert_eq!(hash.len(), 44);
    assert_eq!(hash, "LPJNul+wow4m6DsqxbninhsWHlwfp0JecwQzYpOLmCQ=");
    assert_eq!(sha256_base64_bytes(b"hello"), hash);
}

#[test]
fn sha256_base64_of_nothing() {
    assert_eq!(
        sha256_base64(""),
        "47DEQpj8HBSa+/TImW+5JCeuQeRkm5NMpJWZG3hSuFU="
    );
}

#[test]
fn oids_are_dispatched_to_families() {
    assert_eq!(key_type_of_oid("1.2.840.113549.1.1.1"), KeyType::Rsa);
    assert_eq!(key_type_of_oid("1.2.840.10045.2.1"), KeyType::Ec);
    assert_eq!(key_type_of_oid("1.3.101.112"), KeyType::Ed25519);
    assert_eq!(key_type_of_oid("1.3.101.113"), KeyType::Ed448);
    assert_eq!(
        key_type_of_oid("1.2.3.4"),
        KeyType::Unknown("1.2.3.4".to_string())
    );
    assert_eq!(key_type_of_oid(""), KeyType::Unknown(String::new()));
    assert_eq!(
        key_type_of_oid("1.3.101.11"),
        KeyType::Unknown("1.3.101.11".to_string())
    );
}

#[test]
fn key_type_is_read_from_the_der() {
    assert_eq!(
        detect_key_type(&spki(&RSA_ALG, &[0xde, 0xad])).unwrap(),
        KeyType::Rsa
    );
    assert_eq!(
        detect_key_type(&spki(&EC_ALG, &[0x04, 0x01])).unwrap(),
        KeyType::Ec
    );
    assert_eq!(
        detect_key_type(&spki(&ED25519_ALG, &[0u8; 32])).unwrap(),
        KeyType::Ed25519
    );
    assert_eq!(
        detect_key_type(&spki(&ED448_ALG, &[0u8; 57])).unwrap(),
        KeyType::Ed448
    );
    assert_eq!(
        detect_key_type(&spki(&OTHER_ALG, &[1])).unwrap(),
        KeyType::Unknown("1.2.3.4".to_string())
    );
}

#[test]
fn malformed_der_is_a_der_error() {
    assert!(matches!(detect_key_type(&[]), Err(Error::DerError(_))));
    assert!(matches!(
        detect_key_type(&[0x30, 0x03, 0x01, 0x02]),
        Err(Error::DerError(_))
    ));
    let mut trailing = spki(&ED25519_ALG, &[0u8; 32]);
    trailing.push(0);
    assert!(matches!(detect_key_type(&trailing), Err(Error::DerError(_))));
}

#[test]
fn supported_families() {
    assert_eq!(supported_family(&KeyType::Rsa).unwrap(), KeyFamily::Rsa);
    assert_eq!(supported_family(&KeyType::Ec).unwrap(), KeyFamily::Ec);
    assert_eq!(supported_family(&KeyType::Ed25519).unwrap(), KeyFamily::Ed);
    match supported_family(&KeyType::Ed448) {
        Err(Error::UnknownKeyType(name)) => assert_eq!(name, "Ed448"),
        other => panic!("unexpected: {:?}", other),
    }
    match supported_family(&KeyType::Unknown("1.2.3.4".to_string())) {
        Err(Error::UnknownKeyType(name)) => assert_eq!(name, "1.2.3.4"),
        other => panic!("unexpected: {:?}", other),
    }
}

#[test]
fn encode_pubkey_is_base64_of_the_der() {
    let response = PubKeyResponse::encode_pubkey(KeyType::Rsa, b"hello");
    assert_eq!(response.key_type, KeyType::Rsa);
    assert_eq!(response.pubkey, "aGVsbG8=");
}

#[test]
fn decode_pubkey_takes_the_key_out_of_the_spki() {
    let key = [0x11u8; 32];
    let response = PubKeyResponse::encode_pubkey(KeyType::Ed25519, &spki(&ED25519_ALG, &key));
    let decoded = response.decode_pubkey().unwrap();
    assert_eq!(
        decoded,
        DecodingKey {
            family: KeyFamily::Ed,
            key: key.to_vec()
        }
    );

    let response = PubKeyResponse::encode_pubkey(KeyType::Rsa, &spki(&RSA_ALG, &[1, 2, 3]));
    let decoded = response.decode_pubkey().unwrap();
    assert_eq!(decoded.family, KeyFamily::Rsa);
    assert_eq!(decoded.key, vec![1, 2, 3]);

    let response = PubKeyResponse::encode_pubkey(KeyType::Ec, &spki(&EC_ALG, &[4, 5]));
    assert_eq!(response.decode_pubkey().unwrap().family, KeyFamily::Ec);
}

#[test]
fn decode_pubkey_goes_by_the_key_itself() {
    let response = PubKeyResponse::encode_pubkey(KeyType::Rsa, &spki(&EC_ALG, &[4, 5]));
    assert_eq!(response.decode_pubkey().unwrap().family, KeyFamily::Ec);
}

#[test]
fn advertised_ed448_is_rejected() {
    let response = PubKeyResponse::encode_pubkey(KeyType::Ed448, &spki(&ED448_ALG, &[0u8; 57]));
    match response.decode_pubkey() {
        Err(Error::UnknownKeyType(name)) => assert_eq!(name, "Ed448"),
        other => panic!("unexpected: {:?}", other),
    }
    // whatever the key is, even text that is not base64
    let response = PubKeyResponse {
        key_type: KeyType::Ed448,
        pubkey: "???".to_string(),
    };
    match response.decode_pubkey() {
        Err(Error::UnknownKeyType(name)) => assert_eq!(name, "Ed448"),
        other => panic!("unexpected: {:?}", other),
    }
}

#[test]
fn ed448_key_under_another_name_is_rejected() {
    let response = PubKeyResponse::encode_pubkey(KeyType::Ed25519, &spki(&ED448_ALG, &[0u8; 57]));
    match response.decode_pubkey() {
        Err(Error::UnknownKeyType(name)) => assert_eq!(name, "Ed448"),
        other => panic!("unexpected: {:?}", other),
    }
}

#[test]
fn unknown_key_types_are_rejected_by_name() {
    let response = PubKeyResponse::encode_pubkey(
        KeyType::Unknown("dilithium".to_string()),
        &spki(&RSA_ALG, &[1]),
    );
    match response.decode_pubkey() {
        Err(Error::UnknownKeyType(name)) => assert_eq!(name, "dilithium"),
        other => panic!("unexpected: {:?}", other),
    }
    let response = PubKeyResponse::encode_pubkey(KeyType::Rsa, &spki(&OTHER_ALG, &[1]));
    match response.decode_pubkey() {
        Err(Error::UnknownKeyType(name)) => assert_eq!(name, "1.2.3.4"),
        other => panic!("unexpected: {:?}", other),
    }
}

#[test]
fn decode_pubkey_rejects_bad_text_and_bad_der() {
    let response = PubKeyResponse {
        key_type: KeyType::Rsa,
        pubkey: "not base64".to_string(),
    };
    assert!(matches!(
        response.decode_pubkey(),
        Err(Error::Base64Error(_))
    ));
    let response = PubKeyResponse::encode_pubkey(KeyType::Rsa, b"not der");
    assert!(matches!(response.decode_pubkey(), Err(Error::DerError(_))));
}

#[test]
fn permitted_algorithms_follow_the_family() {
    assert_eq!(
        Validation::for_family(KeyFamily::Rsa).algorithms,
        vec![Algorithm::RS256, Algorithm::RS384, Algorithm::RS512]
    );
    assert_eq!(
        Validation::for_family(KeyFamily::Ec).algorithms,
        vec![Algorithm::ES256, Algorithm::ES384]
    );
    assert_eq!(
        Validation::for_family(KeyFamily::Ed).algorithms,
        vec![Algorithm::EdDSA]
    );
    assert_eq!(
        Validation::for_family(KeyFamily::Rsa).algorithm_names(),
        vec!["RS256", "RS384", "RS512"]
    );
    assert_eq!(Algorithm::ES384.name(), "ES384");
    assert_eq!(Algorithm::EdDSA.name(), "EdDSA");
}

#[test]
fn default_url_is_the_first() {
    let d = discovery(&["https://10.0.0.1:4848", "https://10.0.0.2:4848"], "h");
    assert_eq!(d.default_url().unwrap(), "https://10.0.0.1:4848");
    assert!(matches!(
        discovery(&[], "h").default_url(),
        Err(Error::MissingEndpoint)
    ));
}

#[test]
fn key_hash_is_checked() {
    let der = spki(&ED25519_ALG, &[0x22u8; 32]);
    let response = PubKeyResponse::encode_pubkey(KeyType::Ed25519, &der);
    let hash = sha256_base64_bytes(&der);
    assert_eq!(check_key_hash(&response, &hash).unwrap(), der);

    match check_key_hash(&response, "somethingelse") {
        Err(Error::KeyHashMismatch(expected, got)) => {
            assert_eq!(expected, "somethingelse");
            assert_eq!(got, hash);
        }
        other => panic!("unexpected: {:?}", other),
    }
    // the hash of an empty input is not accepted for a key that is not empty
    assert!(matches!(
        check_key_hash(&response, "47DEQpj8HBSa+/TImW+5JCeuQeRkm5NMpJWZG3hSuFU="),
        Err(Error::KeyHashMismatch(_, _))
    ));
    let bad = PubKeyResponse {
        key_type: KeyType::Ed25519,
        pubkey: "***".to_string(),
    };
    assert!(matches!(
        check_key_hash(&bad, &hash),
        Err(Error::Base64Error(_))
    ));
}

#[test]
fn bootstrap_makes_a_client() {
    let key = [0x33u8; 32];
    let der = spki(&ED25519_ALG, &key);
    let response = PubKeyResponse::encode_pubkey(KeyType::Ed25519, &der);
    let d = discovery(&["https://10.0.0.1:4848"], &sha256_base64_bytes(&der));
    let client = APIClient::from_discovery(&d, &response).unwrap();
    assert_eq!(client.url, "https://10.0.0.1:4848");
    assert_eq!(client.decoder.family, KeyFamily::Ed);
    assert_eq!(client.decoder.key, key.to_vec());
    assert_eq!(client.validation.algorithms, vec![Algorithm::EdDSA]);
    assert_eq!(client.access_token, None);
}

#[test]
fn bootstrap_of_an_rsa_key_permits_the_rsassa_variants() {
    let der = spki(&RSA_ALG, &[9, 9, 9]);
    let response = PubKeyResponse::encode_pubkey(KeyType::Rsa, &der);
    let d = discovery(&["https://srv"], &sha256_base64_bytes(&der));
    let client = APIClient::from_discovery(&d, &response).unwrap();
    assert_eq!(
        client.validation.algorithms,
        vec![Algorithm::RS256, Algorithm::RS384, Algorithm::RS512]
    );
}

#[test]
fn bootstrap_without_a_url_fails() {
    let der = spki(&ED25519_ALG, &[0u8; 32]);
    let response = PubKeyResponse::encode_pubkey(KeyType::Ed25519, &der);
    let d = discovery(&[], &sha256_base64_bytes(&der));
    assert!(matches!(
        APIClient::from_discovery(&d, &response),
        Err(Error::MissingEndpoint)
    ));
}

#[test]
fn tampered_pubkey_fails_the_bootstrap() {
    let published = spki(&ED25519_ALG, &[0x44u8; 32]);
    let served = spki(&ED25519_ALG, &[0x45u8; 32]);
    let d = discovery(&["https://srv"], &sha256_base64_bytes(&published));
    let response = PubKeyResponse::encode_pubkey(KeyType::Ed25519, &served);
    match APIClient::from_discovery(&d, &response) {
        Err(Error::KeyHashMismatch(expected, got)) => {
            assert_eq!(expected, d.pubkey_hash);
            assert_eq!(got, sha256_base64_bytes(&served));
            assert_ne!(expected, got);
        }
        other => panic!("unexpected: {:?}", other.map(|c| c.url)),
    }
}

#[test]
fn hash_is_checked_before_the_key_type() {
    let published = spki(&ED25519_ALG, &[0x44u8; 32]);
    let served = spki(&ED448_ALG, &[0x45u8; 57]);
    let d = discovery(&["https://srv"], &sha256_base64_bytes(&published));
    let response = PubKeyResponse::encode_pubkey(KeyType::Ed448, &served);
    assert!(matches!(
        APIClient::from_discovery(&d, &response),
        Err(Error::KeyHashMismatch(_, _))
    ));
    let d = discovery(&["https://srv"], &sha256_base64_bytes(&served));
    match APIClient::from_discovery(&d, &response) {
        Err(Error::UnknownKeyType(name)) => assert_eq!(name, "Ed448"),
        other => panic!("unexpected: {:?}", other.map(|c| c.url)),
    }
}

#[test]
fn new_client_holds_no_token() {
    let client = APIClient::new(
        "https://srv/",
        DecodingKey {
            family: KeyFamily::Rsa,
            key: vec![1],
        },
        Validation::for_family(KeyFamily::Rsa),
    );
    assert_eq!(client.url, "https://srv/");
    assert_eq!(client.access_token, None);
    assert!(matches!(client.bearer(), Err(Error::Unauthorized)));
}

#[test]
fn bearer_is_the_held_token() {
    let mut client = APIClient::new(
        "https://srv",
        DecodingKey {
            family: KeyFamily::Ed,
            key: vec![0; 32],
        },
        Validation::for_family(KeyFamily::Ed),
    );
    client.access_token = Some("tok".to_string());
    assert_eq!(client.bearer().unwrap(), "tok");
}

#[test]
fn endpoints_drop_trailing_slashes() {
    assert_eq!(endpoint("https://srv", "/pubkey"), "https://srv/pubkey");
    assert_eq!(endpoint("https://srv/", "/pubkey"), "https://srv/pubkey");
    assert_eq!(endpoint("https://srv///", "/x"), "https://srv/x");
    assert_eq!(endpoint("", "/x"), "/x");
    assert_eq!(endpoint("///", "/x"), "/x");
    assert_eq!(endpoint("https://sörver/ä/", "/x"), "https://sörver/ä/x");
    assert_eq!(
        APIClient::pubkey_endpoint("https://srv:4848"),
        "https://srv:4848/pubkey"
    );
    let client = APIClient::new(
        "https://srv:4848/",
        DecodingKey {
            family: KeyFamily::Ed,
            key: vec![0; 32],
        },
        Validation::for_family(KeyFamily::Ed),
    );
    assert_eq!(client.login_endpoint(), "https://srv:4848/auth/api/login/");
    assert_eq!(
        client.finalize_endpoint(),
        "https://srv:4848/auth/api/login/finalize"
    );
    assert_eq!(client.token_endpoint(), "https://srv:4848/rpc/token");
}
