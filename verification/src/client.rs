//! Clients and their credentials: an API key that names the client, and a
//! shared secret with which the client signs its requests.

use vstd::prelude::*;
use vstd::utf8::*;

use hmac::{Hmac, Mac};
use rand::RngCore;
use sha2::Sha256;
use uuid::Uuid;

use crate::api_key::ApiKey;
use crate::bytes::same_bytes;
use crate::codec::{
    decode_standard, encode_standard, encode_url_safe_no_pad, standard_bytes, standard_text,
    url_safe_no_pad_text,
};
use crate::encrypt::master_key::MasterKey;
use crate::encrypt::{
    aes_256_gcm_sealed, random_nonce, sealable, Aes256Key, KEY_TEXT_LEN, NONCE_LEN, TAG_LEN,
};
use crate::error::{DecodeError, Error};
use crate::ident::{hyphenated, is_version_4, uuid_bytes, uuid_text, uuid_v5};
use crate::secret::mask::Masked;
use crate::secret::redact::Redacted;

pub mod encrypt;

verus! {

/// The namespace in which client names are hashed into identifiers.
pub const NAMESPACE_CLIENT: [u8; 16] = [
    0x05, 0x40, 0xc0, 0xd2, 0x29, 0xab, 0x4a, 0x7e, 0x99, 0x1e, 0x45, 0xec, 0xe0, 0x0d, 0x92, 0x1a,
];

/// The HMAC-SHA256 tag of `message` under `key`.
pub uninterp spec fn hmac_sha256(key: Seq<u8>, message: Seq<u8>) -> Seq<u8>;

/// `Mac::finalize` of an `Hmac<Sha256>` made from the key and fed the
/// message: the named tag, 32 bytes long. A key of any length is taken.
#[verifier::external_body]
fn hmac_sha256_tag(key: &[u8], message: &[u8]) -> (r: [u8; 32])
    ensures
        r@ == hmac_sha256(key@, message@),
{
    let mut mac = Hmac::<Sha256>::new_from_slice(key).expect("HMAC takes a key of any length");
    mac.update(message);
    mac.finalize().into_bytes().into()
}

/// `Mac::verify_slice` of an `Hmac<Sha256>` made from the key and fed the
/// message: whether `tag` is the named tag, compared in constant time. A
/// key of any length is taken.
#[verifier::external_body]
fn hmac_sha256_verifies(key: &[u8], message: &[u8], tag: &[u8]) -> (r: bool)
    ensures
        r == (tag@ == hmac_sha256(key@, message@)),
{
    match Hmac::<Sha256>::new_from_slice(key) {
        Ok(mut mac) => {
            mac.update(message);
            mac.verify_slice(tag).is_ok()
        },
        Err(_) => false,
    }
}

/// `RngCore::fill_bytes` of the thread's generator: 32 random bytes.
#[verifier::external_body]
fn random_secret() -> (r: [u8; 32]) {
    let mut secret = [0u8; 32];
    rand::thread_rng().fill_bytes(&mut secret);
    secret
}

/// The identifier of a client: the name-based UUID of its name.
#[derive(Debug)]
pub struct ClientId(Uuid);

impl View for ClientId {
    type V = Seq<u8>;

    closed spec fn view(&self) -> Seq<u8> {
        uuid_bytes(self.0)
    }
}

impl Clone for ClientId {
    fn clone(&self) -> (r: Self)
        ensures
            r@ == self@,
    {
        ClientId(Uuid::from_bytes(*self.0.as_bytes()))
    }
}

impl ClientId {
    /// The identifier of the client of a given name.
    pub open spec fn of_name(name: Seq<char>) -> Seq<u8> {
        uuid_v5(NAMESPACE_CLIENT@, encode_utf8(name))
    }

    /// The identifier is a function of the name alone: equal names have
    /// equal identifiers.
    pub proof fn lemma_deterministic(a: Seq<char>, b: Seq<char>)
        requires
            a == b,
        ensures
            Self::of_name(a) == Self::of_name(b),
    {
    }

    /// The UUID that the identifier is.
    pub fn to_uuid(&self) -> (r: Uuid)
        ensures
            uuid_bytes(r) == self@,
    {
        Uuid::from_bytes(*self.0.as_bytes())
    }

    /// The hyphenated text of the identifier.
    pub fn to_string(&self) -> (r: String)
        ensures
            r@ == hyphenated(self@),
    {
        uuid_text(&self.0)
    }
}

/// What the conversion gives is stated by the `ensures` of `from`.
impl vstd::std_specs::convert::FromSpecImpl<&str> for ClientId {
    open spec fn obeys_from_spec() -> bool {
        false
    }

    open spec fn from_spec(name: &str) -> Self {
        arbitrary()
    }
}

impl From<&str> for ClientId {
    fn from(name: &str) -> (r: Self)
        ensures
            r@ == ClientId::of_name(name@),
    {
        let namespace = Uuid::from_bytes(NAMESPACE_CLIENT);
        ClientId(Uuid::new_v5(&namespace, name.as_bytes()))
    }
}

/// What the conversion gives is stated by the `ensures` of `from`.
impl vstd::std_specs::convert::FromSpecImpl<Uuid> for ClientId {
    open spec fn obeys_from_spec() -> bool {
        false
    }

    open spec fn from_spec(uuid: Uuid) -> Self {
        arbitrary()
    }
}

impl From<Uuid> for ClientId {
    fn from(uuid: Uuid) -> (r: Self)
        ensures
            r@ == uuid_bytes(uuid),
    {
        ClientId(uuid)
    }
}

/// What the conversion gives is stated by the `ensures` of `from`.
impl vstd::std_specs::convert::FromSpecImpl<ClientId> for Uuid {
    open spec fn obeys_from_spec() -> bool {
        false
    }

    open spec fn from_spec(client_id: ClientId) -> Self {
        arbitrary()
    }
}

impl From<ClientId> for Uuid {
    fn from(client_id: ClientId) -> (r: Self)
        ensures
            uuid_bytes(r) == client_id@,
    {
        client_id.0
    }
}

/// What the conversion gives is stated by the `ensures` of `from`.
impl vstd::std_specs::convert::FromSpecImpl<ClientId> for String {
    open spec fn obeys_from_spec() -> bool {
        false
    }

    open spec fn from_spec(client_id: ClientId) -> Self {
        arbitrary()
    }
}

impl From<ClientId> for String {
    fn from(client_id: ClientId) -> (r: Self)
        ensures
            r@ == hyphenated(client_id@),
    {
        uuid_text(&client_id.0)
    }
}

impl vstd::std_specs::cmp::PartialEqSpecImpl for ClientId {
    open spec fn obeys_eq_spec() -> bool {
        true
    }

    open spec fn eq_spec(&self, other: &ClientId) -> bool {
        self@ == other@
    }
}

impl PartialEq for ClientId {
    fn eq(&self, other: &ClientId) -> (r: bool) {
        same_bytes(self.0.as_bytes().as_slice(), other.0.as_bytes().as_slice())
    }
}

impl Eq for ClientId {

}

/// What a client signs its requests with: the API key names the client, the
/// secret keys the HMAC.
pub struct Credentials {
    pub api_key: Masked<ApiKey>,
    secret: Redacted<String>,
}

/// Credentials as plain values: the bytes of the API key and the text of
/// the secret.
pub ghost struct CredentialsView {
    pub api_key: Seq<u8>,
    pub secret: Seq<char>,
}

impl View for Credentials {
    type V = CredentialsView;

    closed spec fn view(&self) -> CredentialsView {
        CredentialsView { api_key: self.api_key@, secret: self.secret@ }
    }
}

impl vstd::std_specs::cmp::PartialEqSpecImpl for Credentials {
    open spec fn obeys_eq_spec() -> bool {
        true
    }

    /// Credentials are the same where their API keys are.
    open spec fn eq_spec(&self, other: &Credentials) -> bool {
        self@.api_key == other@.api_key
    }
}

impl PartialEq for Credentials {
    fn eq(&self, other: &Credentials) -> (r: bool) {
        self.api_key == other.api_key
    }
}

impl Eq for Credentials {

}

impl Credentials {
    /// The API key, masked.
    pub fn api_key(&self) -> (r: &Masked<ApiKey>)
        ensures
            r@ == self@.api_key,
    {
        &self.api_key
    }

    /// What checking a signature gives: `Ok` where the signature is the
    /// standard base64 of the HMAC-SHA256 tag of the message under the
    /// secret, `InvalidSignature` for every other signature, be it no
    /// base64 at all or the text of other bytes.
    pub open spec fn authenticated(secret: Seq<char>, message: Seq<char>, signature: Seq<char>) -> Result<
        (),
        Error,
    > {
        match standard_bytes(encode_utf8(signature)) {
            Err(_) => Err(Error::InvalidSignature),
            Ok(tag) => if tag == hmac_sha256(encode_utf8(secret), encode_utf8(message)) {
                Ok(())
            } else {
                Err(Error::InvalidSignature)
            },
        }
    }

    /// The signature that a client holding `secret` sends with `message`.
    pub open spec fn signature_of(secret: Seq<char>, message: Seq<char>) -> Seq<char> {
        standard_text(hmac_sha256(encode_utf8(secret), encode_utf8(message)))
    }

    /// The credentials made of an API key and a secret.
    pub fn new(api_key: ApiKey, secret: String) -> (r: Self)
        ensures
            r@.api_key == api_key@,
            r@.secret == secret@,
    {
        Credentials { api_key: Masked::new(api_key), secret: Redacted::new(secret) }
    }

    /// The credentials made of 32 secret bytes and a UUID: the secret is
    /// the URL-safe text of the bytes, the API key is the UUID.
    pub fn from_parts(secret: [u8; 32], api_key: Uuid) -> (r: Self)
        ensures
            r@.api_key == uuid_bytes(api_key),
            r@.secret == url_safe_no_pad_text(secret@),
            r@.secret.len() == 43,
            encode_utf8(r@.secret).len() == 43,
    {
        let encoded_secret = encode_url_safe_no_pad(secret.as_slice());
        proof {
            crate::codec::lemma_url_safe_text_bytes(encoded_secret@);
        }
        Credentials {
            api_key: Masked::new(ApiKey::from_bytes(*api_key.as_bytes())),
            secret: Redacted::new(encoded_secret),
        }
    }

    /// Fresh credentials: a random version-4 UUID as the API key, and the
    /// URL-safe text of 32 random bytes as the secret.
    pub fn generate() -> (r: Self)
        ensures
            is_version_4(r@.api_key),
            r@.secret.len() == 43,
            encode_utf8(r@.secret).len() == 43,
            exists|bytes: Seq<u8>| bytes.len() == 32 && r@.secret == url_safe_no_pad_text(bytes),
    {
        let secret = random_secret();
        let r = Self::from_parts(secret, Uuid::new_v4());
        assert(secret@.len() == 32 && r@.secret == url_safe_no_pad_text(secret@));
        r
    }

    /// The secret itself.
    pub fn expose_secret(&self) -> (r: &String)
        ensures
            r@ == self@.secret,
    {
        self.secret.expose()
    }

    /// Checks the signature of a message: it must be the standard base64
    /// of the HMAC-SHA256 tag of the message under the secret. Every other
    /// signature is an `InvalidSignature`.
    pub fn check_authentication(&self, message: &str, signature: &str) -> (r: Result<(), Error>)
        ensures
            r == Self::authenticated(self@.secret, message@, signature@),
            r is Ok <==> standard_bytes(encode_utf8(signature@)) == Ok::<Seq<u8>, DecodeError>(
                hmac_sha256(encode_utf8(self@.secret), encode_utf8(message@)),
            ),
            r matches Err(e) ==> e == Error::InvalidSignature,
    {
        let key = self.secret.expose().as_str().as_bytes();
        match decode_standard(signature.as_bytes()) {
            Err(_) => Err(Error::InvalidSignature),
            Ok(tag) => {
                if hmac_sha256_verifies(key, message.as_bytes(), tag.as_slice()) {
                    Ok(())
                } else {
                    Err(Error::InvalidSignature)
                }
            },
        }
    }

    /// The signature of a message: the standard base64 of its HMAC-SHA256
    /// tag under the secret. `check_authentication` accepts it.
    pub fn signature_for(&self, message: &str) -> (r: String)
        ensures
            r@ == Self::signature_of(self@.secret, message@),
            Self::authenticated(self@.secret, message@, r@) == Ok::<(), Error>(()),
    {
        let key = self.secret.expose().as_str().as_bytes();
        let tag = hmac_sha256_tag(key, message.as_bytes());
        encode_standard(tag.as_slice())
    }

    /// Encrypts the credentials for storage: the secret under a fresh data
    /// key, the data key under the master key. The secret is refused with
    /// `AesGcm` where it is too long to be sealed, and only there. Each
    /// ciphertext is its plaintext and a tag long, and what is returned
    /// decrypts to these credentials under the same master key.
    pub fn encrypt(&self, master_key: &MasterKey) -> (r: Result<encrypt::EncryptedCredentials, Error>)
        ensures
            r is Ok <==> sealable(encode_utf8(self@.secret).len()),
            r matches Err(e) ==> e == Error::AesGcm,
            r matches Ok(e) ==> e.api_key@ == self@.api_key,
            r matches Ok(e) ==> e.encrypted_secret.nonce@.len() == NONCE_LEN
                && e.encrypted_data_key.nonce@.len() == NONCE_LEN,
            r matches Ok(e) ==> e.encrypted_secret.ciphertext@.len() == encode_utf8(self@.secret).len()
                + TAG_LEN && e.encrypted_data_key.ciphertext@.len() == KEY_TEXT_LEN + TAG_LEN,
            r matches Ok(e) ==> e.decrypted(master_key@) == Ok::<Seq<char>, Error>(self@.secret),
    {
        let data_key = Aes256Key::generate();
        self.encrypt_with(master_key, &data_key, random_nonce(), random_nonce())
    }

    /// Encrypts the credentials under a given data key and given nonces:
    /// the secret under the data key with the first nonce, the text of the
    /// data key under the master key with the second.
    pub fn encrypt_with(
        &self,
        master_key: &MasterKey,
        data_key: &Aes256Key,
        secret_nonce: [u8; 12],
        key_nonce: [u8; 12],
    ) -> (r: Result<encrypt::EncryptedCredentials, Error>)
        ensures
            r is Ok <==> sealable(encode_utf8(self@.secret).len()),
            r matches Err(e) ==> e == Error::AesGcm,
            r matches Ok(e) ==> e.api_key@ == self@.api_key,
            r matches Ok(e) ==> e.encrypted_secret.nonce@ == secret_nonce@
                && e.encrypted_data_key.nonce@ == key_nonce@,
            r matches Ok(e) ==> e.encrypted_secret.ciphertext@.len() == encode_utf8(self@.secret).len()
                + TAG_LEN && e.encrypted_data_key.ciphertext@.len() == KEY_TEXT_LEN + TAG_LEN,
            r matches Ok(e) ==> e.encrypted_secret.ciphertext@ == aes_256_gcm_sealed(
                data_key@,
                secret_nonce@,
                encode_utf8(self@.secret),
            ),
            r matches Ok(e) ==> e.encrypted_data_key.ciphertext@ == aes_256_gcm_sealed(
                master_key@,
                key_nonce@,
                encode_utf8(url_safe_no_pad_text(data_key@)),
            ),
            r matches Ok(e) ==> e.decrypted(master_key@) == Ok::<Seq<char>, Error>(self@.secret),
    {
        let (encrypted_secret, encrypted_data_key) = master_key.seal_envelope(
            data_key,
            self.secret.expose().as_str(),
            secret_nonce,
            key_nonce,
        )?;
        Ok(
            encrypt::EncryptedCredentials {
                api_key: Masked::new(self.api_key.expose().clone()),
                encrypted_secret,
                encrypted_data_key,
            },
        )
    }
}

/// A client of the service.
pub struct Client {
    id: ClientId,
    pub name: String,
    pub credentials: Credentials,
}

/// A client as plain values.
pub ghost struct ClientView {
    pub id: Seq<u8>,
    pub name: Seq<char>,
    pub credentials: CredentialsView,
}

impl View for Client {
    type V = ClientView;

    closed spec fn view(&self) -> ClientView {
        ClientView { id: self.id@, name: self.name@, credentials: self.credentials@ }
    }
}

impl vstd::std_specs::cmp::PartialEqSpecImpl for Client {
    open spec fn obeys_eq_spec() -> bool {
        true
    }

    /// Clients are the same where identifier, name and API key are.
    open spec fn eq_spec(&self, other: &Client) -> bool {
        &&& self@.id == other@.id
        &&& self@.name == other@.name
        &&& self@.credentials.api_key == other@.credentials.api_key
    }
}

impl PartialEq for Client {
    fn eq(&self, other: &Client) -> (r: bool) {
        self.id == other.id && self.name == other.name && self.credentials == other.credentials
    }
}

impl Eq for Client {

}

impl Client {
    /// A new client of a given name, with fresh credentials. The
    /// identifier is that of the name.
    pub fn new(name: String) -> (r: Self)
        ensures
            r@.id == ClientId::of_name(name@),
            r@.name == name@,
            is_version_4(r@.credentials.api_key),
            r@.credentials.secret.len() == 43,
            encode_utf8(r@.credentials.secret).len() == 43,
    {
        Self::with_credentials(name, Credentials::generate())
    }

    /// The client of a given name with given credentials.
    pub fn with_credentials(name: String, credentials: Credentials) -> (r: Self)
        ensures
            r@.id == ClientId::of_name(name@),
            r@.name == name@,
            r@.credentials == credentials@,
    {
        let id = ClientId::from(name.as_str());
        Client { id, name, credentials }
    }

    /// The client that storage held: the identifier is taken as stored.
    pub(crate) fn from_stored(id: ClientId, name: String, credentials: Credentials) -> (r: Self)
        ensures
            r@.id == id@,
            r@.name == name@,
            r@.credentials == credentials@,
    {
        Client { id, name, credentials }
    }

    pub fn id(&self) -> (r: &ClientId)
        ensures
            r@ == self@.id,
    {
        &self.id
    }

    /// The name of the client.
    pub fn name(&self) -> (r: &String)
        ensures
            r@ == self@.name,
    {
        &self.name
    }

    /// The credentials of the client.
    pub fn credentials(&self) -> (r: &Credentials)
        ensures
            r@ == self@.credentials,
    {
        &self.credentials
    }

    /// Encrypts the client for storage: identifier and name as they are,
    /// the credentials as `Credentials::encrypt` does.
    pub fn encrypt(&self, master_key: &MasterKey) -> (r: Result<encrypt::EncryptedClient, Error>)
        ensures
            r is Ok <==> sealable(encode_utf8(self@.credentials.secret).len()),
            r matches Err(e) ==> e == Error::AesGcm,
            r matches Ok(e) ==> e.id@ == self@.id && e.name@ == self@.name
                && e.credentials.api_key@ == self@.credentials.api_key,
            r matches Ok(e) ==> e.credentials.decrypted(master_key@) == Ok::<Seq<char>, Error>(
                self@.credentials.secret,
            ),
    {
        let encrypted_credentials = self.credentials.encrypt(master_key)?;
        Ok(
            encrypt::EncryptedClient {
                id: self.id.clone(),
                name: self.name.clone(),
                credentials: encrypted_credentials,
            },
        )
    }
}

} // verus!
