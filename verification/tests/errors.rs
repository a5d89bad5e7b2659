use custody::env::{read_from_env_file, ErrorKind};
use custody::error::{DecodeError, Error};
use custody::repository::{find_by_name, register_user, RepositoryError};

fn env_error(kind: ErrorKind) -> custody::env::Error {
    custody::env::Error::new(kind)
}

#[test]
fn code_of_each_error() {
    assert_eq!(Error::InvalidSignature.code(), "ERR_SIG_MALFORMED");
    assert_eq!(Error::InvalidKeyLength.code(), "ERR_KEY_LENGTH");
    assert_eq!(Error::Env(env_error(ErrorKind::Io("x".to_string()))).code(), "ERR_ENV");
    assert_eq!(Error::Base64(DecodeError::InvalidPadding).code(), "ERR_BASE64");
    assert_eq!(Error::AesGcm.code(), "ERR_AES_GCM");
    assert_eq!(Error::Utf8.code(), "ERR_UTF8");
    assert_eq!(Error::Rsa.code(), "ERR_RSA");
    assert_eq!(Error::RsaPkcs8.code(), "ERR_RSA_PKCS8");
    assert_eq!(Error::RsaPkcs8Spki.code(), "ERR_RSA_PKCS8_SPKI");
}

#[test]
fn status_of_each_error() {
    assert_eq!(Error::InvalidSignature.http_status(), 401);
    for e in [
        Error::InvalidKeyLength,
        Error::Env(env_error(ErrorKind::Var("x".to_string()))),
        Error::Base64(DecodeError::InvalidLength),
        Error::AesGcm,
        Error::Utf8,
        Error::Rsa,
        Error::RsaPkcs8,
        Error::RsaPkcs8Spki,
    ] {
        assert_eq!(e.http_status(), 500);
    }
}

#[test]
fn errors_are_compared_by_variant_and_detail() {
    assert_eq!(Error::AesGcm, Error::AesGcm);
    assert_ne!(Error::AesGcm, Error::Utf8);
    assert_eq!(Error::Base64(DecodeError::InvalidByte(1, 2)), Error::Base64(DecodeError::InvalidByte(1, 2)));
    assert_ne!(Error::Base64(DecodeError::InvalidByte(1, 2)), Error::Base64(DecodeError::InvalidByte(1, 3)));
    assert_ne!(Error::Base64(DecodeError::InvalidLength), Error::Base64(DecodeError::InvalidPadding));
    assert_eq!(
        Error::Env(env_error(ErrorKind::Io("a".to_string()))),
        Error::Env(env_error(ErrorKind::Io("a".to_string())))
    );
    assert_ne!(
        Error::Env(env_error(ErrorKind::Io("a".to_string()))),
        Error::Env(env_error(ErrorKind::Var("a".to_string())))
    );
    assert_ne!(
        Error::Env(env_error(ErrorKind::Io("a".to_string()))),
        Error::Env(env_error(ErrorKind::Io("b".to_string())))
    );
}

#[test]
fn what_an_environment_error_says() {
    assert_eq!(env_error(ErrorKind::ParseFailure("bad".to_string())).to_string(), "Parse failure: bad");
    assert_eq!(env_error(ErrorKind::Io("gone".to_string())).to_string(), "IO error: gone");
    assert_eq!(
        env_error(ErrorKind::Var("unset".to_string())).to_string(),
        "Environment variable error: unset"
    );
    assert_eq!(*env_error(ErrorKind::Io("gone".to_string())).kind(), ErrorKind::Io("gone".to_string()));
}

#[test]
fn value_is_read_from_the_content_of_a_file() {
    let port: Result<u16, custody::env::Error> =
        read_from_env_file(Ok("8080".to_string()), |text: String| {
            text.parse::<u16>().map_err(|e| e.to_string())
        });
    assert_eq!(port, Ok(8080));
    let text: Result<String, custody::env::Error> =
        read_from_env_file(Ok(" as it is\n".to_string()), |text: String| Ok(text));
    assert_eq!(text, Ok(" as it is\n".to_string()));
}

#[test]
fn content_that_does_not_parse_is_a_parse_failure() {
    let port: Result<u16, custody::env::Error> =
        read_from_env_file(Ok("eighty".to_string()), |text: String| {
            text.parse::<u16>().map_err(|e| e.to_string())
        });
    let e = port.expect_err("no port");
    assert_eq!(*e.kind(), ErrorKind::ParseFailure("invalid digit found in string".to_string()));
    assert_eq!(e.to_string(), "Parse failure: invalid digit found in string");
}

#[test]
fn a_failed_read_is_handed_on() {
    let mut parsed = false;
    let port: Result<u16, custody::env::Error> =
        read_from_env_file(Err(env_error(ErrorKind::Var("not present".to_string()))), |_text: String| {
            parsed = true;
            Ok(1)
        });
    assert_eq!(port, Err(env_error(ErrorKind::Var("not present".to_string()))));
    assert!(!parsed);
}

#[test]
fn registration_counts_where_a_row_was_written() {
    assert_eq!(register_user(0), Err(RepositoryError::UserNotCreated));
    assert_eq!(register_user(1), Ok(()));
    assert_eq!(register_user(u64::MAX), Ok(()));
    assert_eq!(RepositoryError::UserNotCreated.message(), "User was not created");
}

#[test]
fn client_is_looked_up_by_the_identifier_of_its_name() {
    assert_eq!(find_by_name("acme").to_string(), "11a631b7-6a29-5d58-a41a-50ee70d39041");
}

#[test]
fn what_each_error_says() {
    assert_eq!(Error::InvalidSignature.to_string(), "invalid signature");
    assert_eq!(Error::InvalidKeyLength.to_string(), "invalid key length");
    assert_eq!(Error::AesGcm.to_string(), "aead::Error");
    assert_eq!(Error::Utf8.to_string(), "invalid utf-8 sequence");
    assert_eq!(Error::Rsa.to_string(), "RSA key generation or signing failed");
    assert_eq!(Error::RsaPkcs8.to_string(), "PKCS#8 private key is malformed");
    assert_eq!(Error::RsaPkcs8Spki.to_string(), "public key could not be encoded");
    assert_eq!(Error::Env(env_error(ErrorKind::Io("gone".to_string()))).to_string(), "IO error: gone");
    assert_eq!(
        Error::Base64(DecodeError::InvalidByte(3, 32)).to_string(),
        "Invalid byte 32, offset 3."
    );
}

#[test]
fn decode_errors_say_what_the_decoder_says() {
    for (ours, theirs) in [
        (DecodeError::InvalidByte(0, 0), base64::DecodeError::InvalidByte(0, 0)),
        (DecodeError::InvalidByte(3, 32), base64::DecodeError::InvalidByte(3, 32)),
        (DecodeError::InvalidByte(usize::MAX, 255), base64::DecodeError::InvalidByte(usize::MAX, 255)),
        (DecodeError::InvalidLength, base64::DecodeError::InvalidLength),
        (DecodeError::InvalidLastSymbol(42, 66), base64::DecodeError::InvalidLastSymbol(42, 66)),
        (DecodeError::InvalidPadding, base64::DecodeError::InvalidPadding),
    ] {
        assert_eq!(ours.to_string(), theirs.to_string());
    }
    assert_eq!(DecodeError::InvalidLength.to_string(), "Encoded text cannot have a 6-bit remainder.");
    assert_eq!(DecodeError::InvalidLastSymbol(42, 66).to_string(), "Invalid last symbol 66, offset 42.");
    assert_eq!(DecodeError::InvalidPadding.to_string(), "Invalid padding");
}
