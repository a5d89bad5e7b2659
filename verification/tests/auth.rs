use custody::api_key::ApiKey;
use custody::auth::{Admission, AuthData, AuthError, RequestParts};
use custody::client::encrypt::EncryptedCredentials;
use custody::client::Credentials;
use custody::encrypt::master_key::MasterKey;
use custody::encrypt::Aes256Key;
use custody::error::Error;

const API_KEY: &str = "550e8400-e29b-41d4-a716-446655440000";
const SIGNATURE: &str = "yOXdQH2q0FklDN6j+vw7/b/OCh4o+W0ZwOwvJtPb3Ak=";

fn master_key() -> MasterKey {
    MasterKey::new(Aes256Key::from_bytes([7u8; 32]))
}

fn stored(secret: &str) -> EncryptedCredentials {
    let api_key = ApiKey::parse(API_KEY).expect("api key");
    Credentials::new(api_key, secret.to_string()).encrypt(&master_key()).expect("encrypt")
}

fn parts() -> RequestParts {
    RequestParts {
        timestamp: Some("1700000000".to_string()),
        api_key: Some(API_KEY.to_string()),
        signature: Some(SIGNATURE.to_string()),
        http_method: "POST".to_string(),
        request_path: "/wallet/register".to_string(),
        request_query: String::new(),
        body: Vec::new(),
    }
}

fn refusal(parts: RequestParts) -> AuthError {
    match AuthData::from_request(parts) {
        Err(e) => e,
        Ok(_) => panic!("the request was read"),
    }
}

#[test]
fn header_names() {
    assert_eq!(custody::auth::API_KEY_HEADER, "x-api-key");
    assert_eq!(custody::auth::SIGNATURE_HEADER, "x-signature");
    assert_eq!(custody::auth::TIMESTAMP_HEADER, "x-timestamp");
}

#[test]
fn request_is_read_from_its_parts() {
    let mut given = parts();
    given.request_query = "a=1&b=2".to_string();
    given.body = b"{\"x\":1}".to_vec();
    let auth = AuthData::from_request(given).ok().expect("auth data");
    assert_eq!(auth.timestamp, 1_700_000_000);
    assert_eq!(auth.api_key.expose().to_string(), API_KEY);
    assert_eq!(auth.api_key.to_string(), "550***");
    assert_eq!(auth.signature, SIGNATURE);
    assert_eq!(auth.http_method, "POST");
    assert_eq!(auth.request_path, "/wallet/register");
    assert_eq!(auth.request_query, "a=1&b=2");
    assert_eq!(auth.request_body, Some("{\"x\":1}".to_string()));
}

#[test]
fn canonical_message_is_the_parts_in_order() {
    let auth = AuthData::from_request(parts()).ok().expect("auth data");
    assert_eq!(auth.message(), "1700000000POST/wallet/register");

    let mut given = parts();
    given.timestamp = Some("0".to_string());
    given.http_method = "DELETE".to_string();
    given.request_path = "/wallet/7/revoke".to_string();
    given.request_query = "force=true&x=%20".to_string();
    given.body = "bödy".as_bytes().to_vec();
    let auth = AuthData::from_request(given).ok().expect("auth data");
    assert_eq!(auth.message(), "0DELETE/wallet/7/revokeforce=true&x=%20bödy");
    assert_eq!(auth.message().as_bytes(), "0DELETE/wallet/7/revokeforce=true&x=%20bödy".as_bytes());

    let mut given = parts();
    given.timestamp = Some(u64::MAX.to_string());
    let auth = AuthData::from_request(given).ok().expect("auth data");
    assert_eq!(auth.message(), "18446744073709551615POST/wallet/register");
}

#[test]
fn a_body_that_is_no_text_signs_as_the_empty_text() {
    let mut given = parts();
    given.body = vec![0xff, 0xfe, 0xfd];
    let auth = AuthData::from_request(given).ok().expect("auth data");
    assert_eq!(auth.request_body, None);
    assert_eq!(auth.message(), "1700000000POST/wallet/register");
    let empty = AuthData::from_request(parts()).ok().expect("auth data");
    assert_eq!(empty.request_body, Some(String::new()));
}

#[test]
fn timestamp_as_written_is_not_what_is_signed() {
    let mut given = parts();
    given.timestamp = Some("+0017".to_string());
    let auth = AuthData::from_request(given).ok().expect("auth data");
    assert_eq!(auth.timestamp, 17);
    assert_eq!(auth.message(), "17POST/wallet/register");
}

#[test]
fn missing_or_malformed_timestamp_is_refused() {
    for timestamp in [None, Some(""), Some("abc"), Some("-1"), Some("1.5"), Some(" 1"), Some("18446744073709551616")] {
        let mut given = parts();
        given.timestamp = timestamp.map(str::to_string);
        let e = refusal(given);
        assert!(matches!(e, AuthError::Timestamp));
        assert_eq!(e.status(), 401);
        assert_eq!(e.message(), "Missing or invalid x-timestamp header");
    }
}

#[test]
fn missing_or_malformed_api_key_is_refused() {
    for api_key in [None, Some(""), Some("not-a-uuid"), Some("550e8400-e29b-41d4-a716-44665544000")] {
        let mut given = parts();
        given.api_key = api_key.map(str::to_string);
        let e = refusal(given);
        assert!(matches!(e, AuthError::ApiKey));
        assert_eq!(e.status(), 401);
        assert_eq!(e.message(), "Missing or invalid x-api-key header");
    }
}

#[test]
fn missing_signature_is_refused() {
    let mut given = parts();
    given.signature = None;
    let e = refusal(given);
    assert!(matches!(e, AuthError::Signature));
    assert_eq!(e.status(), 401);
    assert_eq!(e.message(), "Missing or invalid x-signature header");
}

#[test]
fn headers_are_read_in_order() {
    let mut given = parts();
    given.timestamp = None;
    given.api_key = None;
    given.signature = None;
    assert!(matches!(refusal(given), AuthError::Timestamp));
    let mut given = parts();
    given.api_key = None;
    given.signature = None;
    assert!(matches!(refusal(given), AuthError::ApiKey));
}

#[test]
fn parsed_parts_are_put_together() {
    let made = AuthData::from_parsed(
        Some(5),
        ApiKey::parse(API_KEY),
        Some("sig".to_string()),
        "GET".to_string(),
        "/p".to_string(),
        "q".to_string(),
        None,
    )
    .ok()
    .expect("auth data");
    assert_eq!(made.message(), "5GET/pq");
    assert!(matches!(
        AuthData::from_parsed(None, None, None, String::new(), String::new(), String::new(), None),
        Err(AuthError::Timestamp)
    ));
    assert!(matches!(
        AuthData::from_parsed(Some(1), None, None, String::new(), String::new(), String::new(), None),
        Err(AuthError::ApiKey)
    ));
    assert!(matches!(
        AuthData::from_parsed(
            Some(1),
            ApiKey::parse(API_KEY),
            None,
            String::new(),
            String::new(),
            String::new(),
            None
        ),
        Err(AuthError::Signature)
    ));
}

#[test]
fn signed_request_is_admitted() {
    let auth = AuthData::from_request(parts()).ok().expect("auth data");
    let outcome = auth.check_authentication(Some(stored("abc")), &master_key());
    assert!(outcome.is_ok());
    assert!(matches!(Admission::decide(true, &outcome), Admission::Forward));
}

#[test]
fn request_with_a_flipped_signature_bit_is_unauthorized() {
    let mut given = parts();
    // 'y' and 'x' differ in one bit.
    given.signature = Some("xOXdQH2q0FklDN6j+vw7/b/OCh4o+W0ZwOwvJtPb3Ak=".to_string());
    let auth = AuthData::from_request(given).ok().expect("auth data");
    let outcome = auth.check_authentication(Some(stored("abc")), &master_key());
    assert!(matches!(outcome, Err(AuthError::Rejected(Error::InvalidSignature))));
    assert!(matches!(
        Admission::decide(true, &outcome),
        Admission::Reject { status: 401, body: "Unauthorized" }
    ));
}

#[test]
fn request_with_a_malformed_signature_is_unauthorized() {
    let mut given = parts();
    given.signature = Some("***".to_string());
    let auth = AuthData::from_request(given).ok().expect("auth data");
    let outcome = auth.check_authentication(Some(stored("abc")), &master_key());
    assert!(matches!(outcome, Err(AuthError::Rejected(Error::InvalidSignature))));
    assert!(matches!(Admission::decide(true, &outcome), Admission::Reject { status: 401, .. }));
}

#[test]
fn request_signed_over_other_parts_is_unauthorized() {
    for change in 0..5 {
        let mut given = parts();
        match change {
            0 => given.timestamp = Some("1700000001".to_string()),
            1 => given.http_method = "PUT".to_string(),
            2 => given.request_path = "/wallet/registe".to_string(),
            3 => given.request_query = "x".to_string(),
            _ => given.body = b"x".to_vec(),
        }
        let auth = AuthData::from_request(given).ok().expect("auth data");
        let outcome = auth.check_authentication(Some(stored("abc")), &master_key());
        assert!(matches!(outcome, Err(AuthError::Rejected(Error::InvalidSignature))));
    }
    let auth = AuthData::from_request(parts()).ok().expect("auth data");
    let outcome = auth.check_authentication(Some(stored("abd")), &master_key());
    assert!(matches!(outcome, Err(AuthError::Rejected(Error::InvalidSignature))));
}

#[test]
fn request_of_an_unknown_client_is_unauthorized() {
    let auth = AuthData::from_request(parts()).ok().expect("auth data");
    let outcome = auth.check_authentication(None, &master_key());
    assert!(matches!(outcome, Err(AuthError::UnknownApiKey)));
    assert_eq!(AuthError::UnknownApiKey.message(), "Invalid API key");
    assert!(matches!(
        Admission::decide(true, &outcome),
        Admission::Reject { status: 401, body: "Unauthorized" }
    ));
}

#[test]
fn tampered_stored_secret_is_a_server_error() {
    let good = stored("abc");
    for at in 0..good.encrypted_secret.ciphertext.len() {
        let mut tampered = stored("abc");
        tampered.encrypted_secret = good.encrypted_secret.clone();
        tampered.encrypted_data_key = good.encrypted_data_key.clone();
        tampered.encrypted_secret.ciphertext[at] ^= 0x01;
        let auth = AuthData::from_request(parts()).ok().expect("auth data");
        let outcome = auth.check_authentication(Some(tampered), &master_key());
        assert!(matches!(outcome, Err(AuthError::Credentials(Error::AesGcm))));
        assert!(matches!(
            Admission::decide(true, &outcome),
            Admission::Reject { status: 500, body: "Internal Server Error" }
        ));
    }
}

#[test]
fn tampered_stored_data_key_is_a_server_error() {
    let mut tampered = stored("abc");
    tampered.encrypted_data_key.ciphertext[0] ^= 0x01;
    let auth = AuthData::from_request(parts()).ok().expect("auth data");
    let outcome = auth.check_authentication(Some(tampered), &master_key());
    assert!(matches!(outcome, Err(AuthError::Credentials(Error::AesGcm))));
    assert_eq!(outcome.err().expect("refusal").status(), 500);
}

#[test]
fn status_of_each_refusal() {
    assert_eq!(AuthError::Timestamp.status(), 401);
    assert_eq!(AuthError::ApiKey.status(), 401);
    assert_eq!(AuthError::Signature.status(), 401);
    assert_eq!(AuthError::Body.status(), 401);
    assert_eq!(AuthError::UnknownApiKey.status(), 401);
    assert_eq!(AuthError::Rejected(Error::InvalidSignature).status(), 401);
    assert_eq!(AuthError::Storage.status(), 500);
    assert_eq!(AuthError::Credentials(Error::Utf8).status(), 500);
    assert_eq!(AuthError::Body.message(), "Failed to extract request body as bytes");
}

#[test]
fn without_context_nothing_is_admitted() {
    assert!(matches!(
        Admission::decide(false, &Ok(())),
        Admission::Reject { status: 500, body: "No context found" }
    ));
    assert!(matches!(
        Admission::decide(false, &Err(AuthError::Timestamp)),
        Admission::Reject { status: 500, body: "No context found" }
    ));
    assert!(matches!(Admission::decide(true, &Ok(())), Admission::Forward));
    assert!(matches!(
        Admission::decide(true, &Err(AuthError::Storage)),
        Admission::Reject { status: 500, .. }
    ));
}
