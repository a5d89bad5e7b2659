use base64::engine::general_purpose::{STANDARD, URL_SAFE_NO_PAD};
use base64::Engine;
use custody::api_key::ApiKey;
use custody::client::encrypt::{EncryptedClient, EncryptedCredentials};
use custody::client::{Client, ClientId, Credentials};
use custody::encrypt::master_key::MasterKey;
use custody::encrypt::Aes256Key;
use custody::error::Error;
use hmac::{Hmac, Mac};
use sha2::Sha256;
use uuid::Uuid;

fn master_key() -> MasterKey {
    MasterKey::new(Aes256Key::from_bytes([7u8; 32]))
}

fn credentials(secret: &str) -> Credentials {
    Credentials::new(ApiKey::from_bytes([0x11u8; 16]), secret.to_string())
}

fn sign(secret: &str, message: &str) -> Vec<u8> {
    let mut mac = Hmac::<Sha256>::new_from_slice(secret.as_bytes()).expect("key");
    mac.update(message.as_bytes());
    mac.finalize().into_bytes().to_vec()
}

#[test]
fn client_id_is_the_name_based_uuid_of_the_name() {
    assert_eq!(ClientId::from("acme").to_string(), "11a631b7-6a29-5d58-a41a-50ee70d39041");
    let namespace = Uuid::parse_str("0540c0d2-29ab-4a7e-991e-45ece00d921a").expect("uuid");
    for name in ["", "acme", "Acme", "a much longer name, with spaces", "имя"] {
        let expected = Uuid::new_v5(&namespace, name.as_bytes());
        assert_eq!(ClientId::from(name).to_uuid(), expected);
        assert_eq!(Uuid::from(ClientId::from(name)), expected);
        assert_eq!(String::from(ClientId::from(name)), expected.to_string());
        assert!(ClientId::from(name) == ClientId::from(name));
        assert!(ClientId::from(name) == ClientId::from(expected));
    }
    assert!(ClientId::from("acme") != ClientId::from("Acme"));
}

#[test]
fn generated_credentials_are_fresh() {
    let a = Credentials::generate();
    let b = Credentials::generate();
    assert_eq!(a.expose_secret().len(), 43);
    assert_eq!(URL_SAFE_NO_PAD.decode(a.expose_secret()).expect("base64").len(), 32);
    assert_ne!(a.expose_secret(), b.expose_secret());
    assert!(a != b);
    let api_key = a.api_key.expose().to_uuid();
    assert_eq!(api_key.get_version_num(), 4);
    assert_ne!(api_key, b.api_key.expose().to_uuid());
}

#[test]
fn credentials_of_given_parts() {
    let uuid = Uuid::parse_str("550e8400-e29b-41d4-a716-446655440000").expect("uuid");
    let made = Credentials::from_parts([0u8; 32], uuid);
    assert_eq!(made.expose_secret(), "AAAAAAAAAAAAAAAAAAAAAAAAAAAAAAAAAAAAAAAAAAA");
    assert_eq!(made.api_key.expose().to_uuid(), uuid);
    assert_eq!(made.api_key().to_string(), "550***");
}

#[test]
fn credentials_are_the_same_where_the_api_key_is() {
    let a = Credentials::new(ApiKey::from_bytes([1u8; 16]), "one".to_string());
    let b = Credentials::new(ApiKey::from_bytes([1u8; 16]), "two".to_string());
    let c = Credentials::new(ApiKey::from_bytes([2u8; 16]), "one".to_string());
    assert!(a == b);
    assert!(a != c);
}

#[test]
fn hmac_signature_is_accepted() {
    let message = "1700000000POST/wallet/register";
    let creds = credentials("abc");
    let signature = "yOXdQH2q0FklDN6j+vw7/b/OCh4o+W0ZwOwvJtPb3Ak=";
    assert_eq!(STANDARD.encode(sign("abc", message)), signature);
    assert_eq!(creds.signature_for(message), signature);
    assert_eq!(creds.check_authentication(message, signature), Ok(()));
}

#[test]
fn hmac_signature_of_any_message_is_accepted() {
    let creds = Credentials::generate();
    for message in ["", "a", "1POST/x", "ünïcödé body", "{\"k\":\"v\"}"] {
        let signature = STANDARD.encode(sign(creds.expose_secret(), message));
        assert_eq!(creds.check_authentication(message, &signature), Ok(()));
        assert_eq!(creds.signature_for(message), signature);
    }
}

#[test]
fn a_flipped_bit_in_the_message_is_an_invalid_signature() {
    let message = "1700000000POST/wallet/register";
    let creds = credentials("abc");
    let signature = creds.signature_for(message);
    for at in 0..message.len() {
        let mut bytes = message.as_bytes().to_vec();
        bytes[at] ^= 0x01;
        let other = String::from_utf8(bytes).expect("still text");
        assert_eq!(creds.check_authentication(&other, &signature), Err(Error::InvalidSignature));
    }
    assert_eq!(
        credentials("abd").check_authentication(message, &signature),
        Err(Error::InvalidSignature)
    );
}

#[test]
fn a_flipped_bit_in_the_signature_is_an_invalid_signature() {
    let message = "1700000000POST/wallet/register";
    let creds = credentials("abc");
    let tag = sign("abc", message);
    for at in 0..tag.len() {
        for bit in 0..8 {
            let mut other = tag.clone();
            other[at] ^= 1 << bit;
            assert_eq!(
                creds.check_authentication(message, &STANDARD.encode(&other)),
                Err(Error::InvalidSignature)
            );
        }
    }
}

#[test]
fn a_signature_of_another_length_is_an_invalid_signature() {
    let message = "1700000000POST/wallet/register";
    let creds = credentials("abc");
    let tag = sign("abc", message);
    assert_eq!(creds.check_authentication(message, ""), Err(Error::InvalidSignature));
    assert_eq!(
        creds.check_authentication(message, &STANDARD.encode(&tag[..31])),
        Err(Error::InvalidSignature)
    );
    let mut longer = tag.clone();
    longer.push(0);
    assert_eq!(
        creds.check_authentication(message, &STANDARD.encode(&longer)),
        Err(Error::InvalidSignature)
    );
}

#[test]
fn a_signature_that_is_no_standard_base64_is_an_invalid_signature() {
    let message = "1700000000POST/wallet/register";
    let creds = credentials("abc");
    // The URL-safe form of the right tag is not the standard form.
    assert_eq!(
        creds.check_authentication(message, "yOXdQH2q0FklDN6j-vw7_b_OCh4o-W0ZwOwvJtPb3Ak="),
        Err(Error::InvalidSignature)
    );
    // Nor is the standard form without its padding.
    assert_eq!(
        creds.check_authentication(message, "yOXdQH2q0FklDN6j+vw7/b/OCh4o+W0ZwOwvJtPb3Ak"),
        Err(Error::InvalidSignature)
    );
    for signature in ["not base64", "@@@@", "=", "====", "yOXd", "yOX", " ", "é"] {
        assert_eq!(creds.check_authentication(message, signature), Err(Error::InvalidSignature));
    }
}

#[test]
fn a_changed_character_in_the_signature_is_an_invalid_signature() {
    let message = "1700000000POST/wallet/register";
    let creds = credentials("abc");
    let signature = creds.signature_for(message);
    assert_eq!(creds.check_authentication(message, &signature), Ok(()));
    for at in 0..signature.len() {
        for replacement in ['=', '@', '-', 'A', 'z', '\u{e9}'] {
            let mut changed: Vec<char> = signature.chars().collect();
            if changed[at] == replacement {
                continue;
            }
            changed[at] = replacement;
            let changed: String = changed.into_iter().collect();
            let answer = creds.check_authentication(message, &changed);
            assert_eq!(answer, Err(Error::InvalidSignature));
            assert_eq!(answer.expect_err("refusal").code(), "ERR_SIG_MALFORMED");
        }
    }
}

#[test]
fn a_flipped_bit_in_the_signature_text_is_an_invalid_signature() {
    let message = "1700000000POST/wallet/register";
    let creds = credentials("abc");
    let signature = creds.signature_for(message).into_bytes();
    for at in 0..signature.len() {
        for bit in 0..7 {
            let mut flipped = signature.clone();
            flipped[at] ^= 1 << bit;
            let flipped = String::from_utf8(flipped).expect("still ascii");
            assert_eq!(creds.check_authentication(message, &flipped), Err(Error::InvalidSignature));
        }
    }
}

#[test]
fn credentials_survive_the_envelope() {
    let mk = master_key();
    for _ in 0..5 {
        let creds = Credentials::generate();
        let stored: EncryptedCredentials = creds.encrypt(&mk).expect("encrypt");
        assert!(stored.api_key == creds.api_key);
        assert_eq!(stored.encrypted_secret.nonce.len(), 12);
        assert_eq!(stored.encrypted_data_key.nonce.len(), 12);
        assert_eq!(stored.encrypted_secret.ciphertext.len(), 43 + 16);
        assert_eq!(stored.encrypted_data_key.ciphertext.len(), 43 + 16);
        let loaded = stored.decrypt(&mk).expect("decrypt");
        assert!(loaded == creds);
        assert_eq!(loaded.expose_secret(), creds.expose_secret());
    }
}

#[test]
fn credentials_under_given_keys_and_nonces() {
    let mk = master_key();
    let creds = credentials("abc");
    let data_key = Aes256Key::from_bytes([8u8; 32]);
    let stored = creds.encrypt_with(&mk, &data_key, [1u8; 12], [2u8; 12]).expect("encrypt");
    assert_eq!(stored.encrypted_secret.nonce, vec![1u8; 12]);
    assert_eq!(stored.encrypted_data_key.nonce, vec![2u8; 12]);
    assert_eq!(data_key.decrypt(&stored.encrypted_secret), Ok("abc".to_string()));
    assert_eq!(mk.decrypt(&stored.encrypted_data_key), Ok(data_key.to_string()));
    let again = creds.encrypt_with(&mk, &data_key, [1u8; 12], [2u8; 12]).expect("encrypt");
    assert!(again == stored);
    assert_eq!(stored.decrypt(&mk).expect("decrypt").expose_secret(), "abc");
}

#[test]
fn stored_credentials_do_not_open_under_another_master_key() {
    let stored = credentials("abc").encrypt(&master_key()).expect("encrypt");
    let other = MasterKey::new(Aes256Key::from_bytes([8u8; 32]));
    assert!(matches!(stored.decrypt(&other), Err(Error::AesGcm)));
}

#[test]
fn a_flipped_byte_in_the_stored_secret_is_an_aead_failure() {
    let mk = master_key();
    let stored = credentials("abc").encrypt(&mk).expect("encrypt");
    for at in 0..stored.encrypted_secret.ciphertext.len() {
        let mut secret = stored.encrypted_secret.clone();
        secret.ciphertext[at] ^= 0x01;
        let tampered = EncryptedCredentials {
            api_key: ApiKey::from_bytes([0x11u8; 16]).into(),
            encrypted_secret: secret,
            encrypted_data_key: stored.encrypted_data_key.clone(),
        };
        assert!(matches!(tampered.decrypt(&mk), Err(Error::AesGcm)));
    }
}

#[test]
fn client_survives_the_envelope() {
    let mk = master_key();
    let client = Client::new("acme".to_string());
    assert!(*client.id() == ClientId::from("acme"));
    assert_eq!(client.name, "acme");
    let stored: EncryptedClient = client.encrypt(&mk).expect("encrypt");
    assert!(stored.id == ClientId::from("acme"));
    assert_eq!(stored.name, "acme");
    let loaded = stored.decrypt(&mk).expect("decrypt");
    assert!(loaded == client);
    assert_eq!(loaded.credentials.expose_secret(), client.credentials.expose_secret());
    assert!(loaded.credentials.api_key.expose() == client.credentials.api_key.expose());
}

#[test]
fn client_of_given_credentials() {
    let client = Client::with_credentials("acme".to_string(), credentials("abc"));
    assert_eq!(client.id().to_string(), "11a631b7-6a29-5d58-a41a-50ee70d39041");
    assert_eq!(client.name(), "acme");
    assert_eq!(client.credentials().expose_secret(), "abc");
    assert!(client == Client::with_credentials("acme".to_string(), credentials("other")));
    assert!(client != Client::with_credentials("acme2".to_string(), credentials("abc")));
}
