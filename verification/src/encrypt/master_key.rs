//! The master key: the one key under which every data key is encrypted.

use vstd::prelude::*;
use vstd::utf8::*;

use crate::codec::url_safe_no_pad_text;
use crate::encrypt::{
    aes_256_gcm_sealed, sealable, Aes256Key, Encrypted, KEY_TEXT_LEN, NONCE_LEN, TAG_LEN,
};
use crate::env;
use crate::error::Error;
use crate::secret::redact::Redacted;

verus! {

/// Reads a text as itself: every content is a text.
fn as_it_is(content: String) -> (r: Result<String, String>)
    ensures
        r == Ok::<String, String>(content),
{
    Ok(content)
}

/// An AES-256 key read once at startup and shared, read-only, by all work.
pub struct MasterKey {
    key: Aes256Key,
}

impl View for MasterKey {
    type V = Seq<u8>;

    closed spec fn view(&self) -> Seq<u8> {
        self.key@
    }
}

impl MasterKey {
    /// What the outcome of reading the key file makes: the read's own error
    /// as `Env`, else what the content is read as.
    pub open spec fn key_of_content(content: Result<String, env::Error>) -> Result<Seq<u8>, Error> {
        match content {
            Err(e) => Err(Error::Env(e)),
            Ok(text) => Aes256Key::key_of_text(text@),
        }
    }

    /// What an envelope holds under a master key. The data key is decrypted
    /// under the master key and read from its text, then the payload is
    /// decrypted under the data key. The first failure on the way is the
    /// result.
    pub open spec fn envelope_opened(
        master_key: Seq<u8>,
        encrypted_data_key: Encrypted,
        encrypted_payload: Encrypted,
    ) -> Result<Seq<char>, Error> {
        match Aes256Key::decrypted(master_key, encrypted_data_key.nonce@, encrypted_data_key.ciphertext@) {
            Err(e) => Err(e),
            Ok(key_text) => match Aes256Key::key_of_text(key_text) {
                Err(e) => Err(e),
                Ok(data_key) => Aes256Key::decrypted(
                    data_key,
                    encrypted_payload.nonce@,
                    encrypted_payload.ciphertext@,
                ),
            },
        }
    }

    /// The master key that a data key is.
    pub fn new(key: Aes256Key) -> (r: Self)
        ensures
            r@ == key@,
    {
        MasterKey { key }
    }

    /// The master key in the file that the environment names. `content` is
    /// what reading that file gave.
    pub fn from_env(content: Result<String, env::Error>) -> (r: Result<Self, Error>)
        ensures
            match r {
                Ok(key) => Self::key_of_content(content) == Ok::<Seq<u8>, Error>(key@),
                Err(e) => Self::key_of_content(content) == Err::<Seq<u8>, Error>(e),
            },
    {
        Self::from_file(env::read_from_env_file(content, as_it_is))
    }

    /// The master key in a file. `content` is what reading the file gave.
    pub fn from_file(content: Result<String, env::Error>) -> (r: Result<Self, Error>)
        ensures
            match r {
                Ok(key) => Self::key_of_content(content) == Ok::<Seq<u8>, Error>(key@),
                Err(e) => Self::key_of_content(content) == Err::<Seq<u8>, Error>(e),
            },
    {
        match content {
            Err(e) => Err(Error::Env(e)),
            Ok(text) => match Aes256Key::from_str(text.as_str()) {
                Ok(key) => Ok(MasterKey { key }),
                Err(e) => Err(e),
            },
        }
    }

    /// Encrypts a text under the master key, as `Aes256Key::encrypt` does.
    pub fn encrypt(&self, data: &str) -> (r: Result<Encrypted, Error>)
        ensures
            r is Ok <==> sealable(encode_utf8(data@).len()),
            r matches Err(e) ==> e == Error::AesGcm,
            r matches Ok(e) ==> e.nonce@.len() == NONCE_LEN,
            r matches Ok(e) ==> e.ciphertext@ == aes_256_gcm_sealed(self@, e.nonce@, encode_utf8(data@)),
            r matches Ok(e) ==> e.ciphertext@.len() == encode_utf8(data@).len() + TAG_LEN,
            r matches Ok(e) ==> Aes256Key::decrypted(self@, e.nonce@, e.ciphertext@) == Ok::<
                Seq<char>,
                Error,
            >(data@),
    {
        self.key.encrypt(data)
    }

    /// Encrypts a text under the master key and a given nonce, as
    /// `Aes256Key::encrypt_with_nonce` does.
    pub fn encrypt_with_nonce(&self, nonce: [u8; 12], data: &str) -> (r: Result<Encrypted, Error>)
        ensures
            r is Ok <==> sealable(encode_utf8(data@).len()),
            r matches Err(e) ==> e == Error::AesGcm,
            r matches Ok(e) ==> e.nonce@ == nonce@,
            r matches Ok(e) ==> e.ciphertext@ == aes_256_gcm_sealed(self@, nonce@, encode_utf8(data@)),
            r matches Ok(e) ==> e.ciphertext@.len() == encode_utf8(data@).len() + TAG_LEN,
            r matches Ok(e) ==> Aes256Key::decrypted(self@, e.nonce@, e.ciphertext@) == Ok::<
                Seq<char>,
                Error,
            >(data@),
    {
        self.key.encrypt_with_nonce(nonce, data)
    }

    /// Seals a payload in an envelope: the payload under the data key with
    /// the first nonce, the text of the data key under the master key with
    /// the second. Returned are the encrypted payload and the encrypted
    /// data key, in this order. The payload is refused with `AesGcm` where
    /// it is too long to be sealed, and only there. Each ciphertext is its
    /// plaintext and a tag long, and the envelope opens to the payload
    /// under the same master key.
    pub fn seal_envelope(
        &self,
        data_key: &Aes256Key,
        payload: &str,
        payload_nonce: [u8; 12],
        key_nonce: [u8; 12],
    ) -> (r: Result<(Encrypted, Encrypted), Error>)
        ensures
            r is Ok <==> sealable(encode_utf8(payload@).len()),
            r matches Err(e) ==> e == Error::AesGcm,
            r matches Ok(e) ==> e.0.nonce@ == payload_nonce@ && e.1.nonce@ == key_nonce@,
            r matches Ok(e) ==> e.0.ciphertext@ == aes_256_gcm_sealed(
                data_key@,
                payload_nonce@,
                encode_utf8(payload@),
            ),
            r matches Ok(e) ==> e.1.ciphertext@ == aes_256_gcm_sealed(
                self@,
                key_nonce@,
                encode_utf8(url_safe_no_pad_text(data_key@)),
            ),
            r matches Ok(e) ==> e.0.ciphertext@.len() == encode_utf8(payload@).len() + TAG_LEN
                && e.1.ciphertext@.len() == KEY_TEXT_LEN + TAG_LEN,
            r matches Ok(e) ==> Self::envelope_opened(self@, e.1, e.0) == Ok::<Seq<char>, Error>(payload@),
    {
        let encrypted_payload = data_key.encrypt_with_nonce(payload_nonce, payload)?;
        let key_text = Redacted::new(data_key.to_string());
        let encrypted_data_key = self.key.encrypt_with_nonce(key_nonce, key_text.expose().as_str())?;
        Ok((encrypted_payload, encrypted_data_key))
    }

    /// Opens an envelope: what `envelope_opened` says.
    pub fn open_envelope(&self, encrypted_data_key: &Encrypted, encrypted_payload: &Encrypted) -> (r:
        Result<String, Error>)
        ensures
            match r {
                Ok(text) => Self::envelope_opened(self@, *encrypted_data_key, *encrypted_payload) == Ok::<
                    Seq<char>,
                    Error,
                >(text@),
                Err(e) => Self::envelope_opened(self@, *encrypted_data_key, *encrypted_payload) == Err::<
                    Seq<char>,
                    Error,
                >(e),
            },
    {
        let key_text = Redacted::new(self.key.decrypt(encrypted_data_key)?);
        let data_key = Aes256Key::from_str(key_text.expose().as_str())?;
        data_key.decrypt(encrypted_payload)
    }

    /// Decrypts a ciphertext under the master key, as `Aes256Key::decrypt`
    /// does.
    pub fn decrypt(&self, encrypted: &Encrypted) -> (r: Result<String, Error>)
        ensures
            match r {
                Ok(text) => Aes256Key::decrypted(self@, encrypted.nonce@, encrypted.ciphertext@) == Ok::<
                    Seq<char>,
                    Error,
                >(text@),
                Err(e) => Aes256Key::decrypted(self@, encrypted.nonce@, encrypted.ciphertext@) == Err::<
                    Seq<char>,
                    Error,
                >(e),
            },
    {
        self.key.decrypt(encrypted)
    }
}

} // verus!
