//! The errors of the custody core, with the machine code and the HTTP status
//! of each.

use vstd::prelude::*;

use crate::decimal::{decimal_text, to_decimal};
use crate::env;

verus! {

/// Why a base64 text was not decoded.
#[derive(Debug, Clone, Copy, PartialEq, Eq, Structural)]
pub enum DecodeError {
    /// A byte outside the alphabet, with its offset.
    InvalidByte(usize, u8),
    /// The text cannot be the encoding of any byte string of whole bytes.
    InvalidLength,
    /// The last symbol carries bits that no encoder would have set.
    InvalidLastSymbol(usize, u8),
    /// Padding is missing, misplaced or not wanted.
    InvalidPadding,
}

impl DecodeError {
    /// What the error says, in the words of the `base64` crate.
    pub open spec fn spec_message(&self) -> Seq<char> {
        match self {
            DecodeError::InvalidByte(at, byte) => "Invalid byte "@ + decimal_text(*byte as nat)
                + ", offset "@ + decimal_text(*at as nat) + "."@,
            DecodeError::InvalidLength => "Encoded text cannot have a 6-bit remainder."@,
            DecodeError::InvalidLastSymbol(at, byte) => "Invalid last symbol "@ + decimal_text(
                *byte as nat,
            ) + ", offset "@ + decimal_text(*at as nat) + "."@,
            DecodeError::InvalidPadding => "Invalid padding"@,
        }
    }

    pub fn to_string(&self) -> (r: String)
        ensures
            r@ == self.spec_message(),
    {
        match self {
            DecodeError::InvalidByte(at, byte) => {
                let mut text = String::from_str("Invalid byte ");
                text.append(to_decimal(*byte as u64).as_str());
                text.append(", offset ");
                text.append(to_decimal(*at as u64).as_str());
                text.append(".");
                text
            },
            DecodeError::InvalidLength => String::from_str(
                "Encoded text cannot have a 6-bit remainder.",
            ),
            DecodeError::InvalidLastSymbol(at, byte) => {
                let mut text = String::from_str("Invalid last symbol ");
                text.append(to_decimal(*byte as u64).as_str());
                text.append(", offset ");
                text.append(to_decimal(*at as u64).as_str());
                text.append(".");
                text
            },
            DecodeError::InvalidPadding => String::from_str("Invalid padding"),
        }
    }
}

/// What can go wrong in the custody core.
#[non_exhaustive]
#[derive(Debug)]
pub enum Error {
    /// The signature of a request is malformed or does not match.
    InvalidSignature,
    /// A decoded symmetric key is not 32 bytes long.
    InvalidKeyLength,
    /// The master key could not be read at startup.
    Env(env::Error),
    /// A stored text, a ciphertext or a key, is not base64.
    Base64(DecodeError),
    /// Authenticated decryption failed, or encryption was refused.
    AesGcm,
    /// A decrypted plaintext is not UTF-8.
    Utf8,
    /// RSA key generation failed.
    Rsa,
    /// A private key is not PKCS#8, or could not be written as such.
    RsaPkcs8,
    /// A public key could not be written as a subject public key info.
    RsaPkcs8Spki,
}

impl vstd::std_specs::cmp::PartialEqSpecImpl for Error {
    open spec fn obeys_eq_spec() -> bool {
        true
    }

    /// Errors are the same where they are the same variant and carry the
    /// same detail.
    open spec fn eq_spec(&self, other: &Error) -> bool {
        match (self, other) {
            (Error::InvalidSignature, Error::InvalidSignature) => true,
            (Error::InvalidKeyLength, Error::InvalidKeyLength) => true,
            (Error::Env(a), Error::Env(b)) => a.spec_kind().same(&b.spec_kind()),
            (Error::Base64(a), Error::Base64(b)) => a == b,
            (Error::AesGcm, Error::AesGcm) => true,
            (Error::Utf8, Error::Utf8) => true,
            (Error::Rsa, Error::Rsa) => true,
            (Error::RsaPkcs8, Error::RsaPkcs8) => true,
            (Error::RsaPkcs8Spki, Error::RsaPkcs8Spki) => true,
            _ => false,
        }
    }
}

impl PartialEq for Error {
    fn eq(&self, other: &Error) -> (r: bool) {
        match (self, other) {
            (Error::InvalidSignature, Error::InvalidSignature) => true,
            (Error::InvalidKeyLength, Error::InvalidKeyLength) => true,
            (Error::Env(a), Error::Env(b)) => *a == *b,
            (Error::Base64(a), Error::Base64(b)) => *a == *b,
            (Error::AesGcm, Error::AesGcm) => true,
            (Error::Utf8, Error::Utf8) => true,
            (Error::Rsa, Error::Rsa) => true,
            (Error::RsaPkcs8, Error::RsaPkcs8) => true,
            (Error::RsaPkcs8Spki, Error::RsaPkcs8Spki) => true,
            _ => false,
        }
    }
}

impl Eq for Error {

}

impl Error {
    /// The stable machine code of the error.
    pub open spec fn spec_code(&self) -> Seq<char> {
        match self {
            Error::InvalidSignature => "ERR_SIG_MALFORMED"@,
            Error::InvalidKeyLength => "ERR_KEY_LENGTH"@,
            Error::Env(_) => "ERR_ENV"@,
            Error::Base64(_) => "ERR_BASE64"@,
            Error::AesGcm => "ERR_AES_GCM"@,
            Error::Utf8 => "ERR_UTF8"@,
            Error::Rsa => "ERR_RSA"@,
            Error::RsaPkcs8 => "ERR_RSA_PKCS8"@,
            Error::RsaPkcs8Spki => "ERR_RSA_PKCS8_SPKI"@,
        }
    }

    /// The HTTP status under which the error is surfaced: 401 for a
    /// signature that does not match, 500 for everything else.
    pub open spec fn spec_http_status(&self) -> u16 {
        match self {
            Error::InvalidSignature => 401,
            _ => 500,
        }
    }

    /// What the error says.
    pub open spec fn spec_message(&self) -> Seq<char> {
        match self {
            Error::InvalidSignature => "invalid signature"@,
            Error::InvalidKeyLength => "invalid key length"@,
            Error::Env(e) => e.spec_message(),
            Error::Base64(e) => e.spec_message(),
            Error::AesGcm => "aead::Error"@,
            Error::Utf8 => "invalid utf-8 sequence"@,
            Error::Rsa => "RSA key generation or signing failed"@,
            Error::RsaPkcs8 => "PKCS#8 private key is malformed"@,
            Error::RsaPkcs8Spki => "public key could not be encoded"@,
        }
    }

    pub fn to_string(&self) -> (r: String)
        ensures
            r@ == self.spec_message(),
    {
        match self {
            Error::InvalidSignature => String::from_str("invalid signature"),
            Error::InvalidKeyLength => String::from_str("invalid key length"),
            Error::Env(e) => e.to_string(),
            Error::Base64(e) => e.to_string(),
            Error::AesGcm => String::from_str("aead::Error"),
            Error::Utf8 => String::from_str("invalid utf-8 sequence"),
            Error::Rsa => String::from_str("RSA key generation or signing failed"),
            Error::RsaPkcs8 => String::from_str("PKCS#8 private key is malformed"),
            Error::RsaPkcs8Spki => String::from_str("public key could not be encoded"),
        }
    }

    #[inline]
    pub fn code(&self) -> (r: &'static str)
        ensures
            r@ == self.spec_code(),
    {
        match self {
            Error::InvalidSignature => "ERR_SIG_MALFORMED",
            Error::InvalidKeyLength => "ERR_KEY_LENGTH",
            Error::Env(_) => "ERR_ENV",
            Error::Base64(_) => "ERR_BASE64",
            Error::AesGcm => "ERR_AES_GCM",
            Error::Utf8 => "ERR_UTF8",
            Error::Rsa => "ERR_RSA",
            Error::RsaPkcs8 => "ERR_RSA_PKCS8",
            Error::RsaPkcs8Spki => "ERR_RSA_PKCS8_SPKI",
        }
    }

    #[inline]
    pub fn http_status(&self) -> (r: u16)
        ensures
            r == self.spec_http_status(),
            r == 401 || r == 500,
    {
        match self {
            Error::InvalidSignature => 401,
            Error::InvalidKeyLength
            | Error::Base64(_)
            | Error::AesGcm
            | Error::Utf8
            | Error::Rsa
            | Error::RsaPkcs8
            | Error::RsaPkcs8Spki
            | Error::Env(_) => 500,
        }
    }
}

} // verus!
