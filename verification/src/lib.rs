//! Cryptographic custody core of a signing service: the key hierarchy, the
//! envelope encryption of stored secrets, the HMAC request-authentication
//! protocol, the RSA signing identities and the holders that keep secret
//! values out of logs and responses.
//!
//! Every function is verified against its contract. The ciphers, hashes,
//! encodings and keys are those of the crates the service is built on; what
//! is believed of them is stated where they are called.
//!
//! - `secret`, `redact`: holders that render as a redaction or a mask.
//! - `encrypt`: AES-256-GCM keys, ciphertexts and their canonical text, the
//!   master key and the envelope.
//! - `client`, `user`: credentials and signing keys, plain and as stored.
//! - `auth`: what a request says of itself, and whether it is admitted.
//! - `admin`, `wallet`, `repository`, `db`: what the two planes and storage
//!   decide.
//! - `codec`, `ident`, `decimal`, `hex`, `bytes`: texts and bytes.
//! - `error`, `env`: what can go wrong.

pub mod admin;
pub mod api_key;
pub mod auth;
pub mod bytes;
pub mod client;
pub mod codec;
pub mod db;
pub mod decimal;
pub mod encrypt;
pub mod env;
pub mod error;
pub mod hex;
pub mod ident;
pub mod redact;
pub mod repository;
pub mod secret;
pub mod user;
pub mod wallet;
