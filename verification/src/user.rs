//! Users: RSA-2048 signing identities. A user is named by the hash of its
//! public key and signs with PKCS#1 v1.5 over SHA-256. The keys and the
//! signatures are the `rsa` crate's.

use vstd::prelude::*;
use vstd::utf8::*;

use rsa::pkcs1v15;
use rsa::pkcs8::{DecodePrivateKey, EncodePrivateKey, EncodePublicKey, LineEnding};
use rsa::sha2::Sha256;
use rsa::signature::{Keypair, SignatureEncoding, Signer, Verifier};
use rsa::RsaPrivateKey;
use uuid::Uuid;

use crate::bytes::same_bytes;
use crate::encrypt::master_key::MasterKey;
use crate::encrypt::{
    aes_256_gcm_sealed, random_nonce, sealable, Aes256Key, KEY_TEXT_LEN, NONCE_LEN, TAG_LEN,
};
use crate::error::Error;
use crate::hex::{to_upper_hex, upper_hex};
use crate::ident::{hyphenated, uuid_bytes, uuid_text, uuid_v5};
use crate::secret::redact::Redacted;

pub mod encrypt;

verus! {

/// The namespace in which public keys are hashed into identifiers.
pub const NAMESPACE_USER: [u8; 16] = [
    0x7a, 0x1c, 0x3e, 0x5b, 0x8d, 0x2f, 0x4c, 0x9a, 0x11, 0x22, 0x33, 0x44, 0x55, 0x66, 0x77, 0x88,
];

/// The size of a generated key in bits.
pub const KEY_BITS: usize = 2048;

#[verifier::external_type_specification]
#[verifier::external_body]
pub struct ExRsaPrivateKey(RsaPrivateKey);

/// What a private key holds, as its PKCS#8 PEM text with LF line endings.
pub uninterp spec fn rsa_key_pem(key: RsaPrivateKey) -> Seq<char>;

/// The size of a private key: the length of its modulus in bits.
pub uninterp spec fn rsa_key_bits(key: RsaPrivateKey) -> nat;

/// What a private key is written as: its PKCS#8 PEM text with LF line
/// endings, or `None` where it cannot be written.
pub uninterp spec fn rsa_key_written(key: RsaPrivateKey) -> Option<Seq<char>>;

/// The private key that a PKCS#8 PEM text holds, as its own PEM text;
/// `None` for a text that holds none.
pub uninterp spec fn pkcs8_pem_key(pem: Seq<char>) -> Option<Seq<char>>;

/// The public key of a private key, as SPKI PEM text with LF line endings;
/// `None` where it cannot be written.
pub uninterp spec fn rsa_public_pem(key_pem: Seq<char>) -> Option<Seq<char>>;

/// The PKCS#1 v1.5 signature over SHA-256 of a message under a private
/// key; `None` where the key cannot sign.
pub uninterp spec fn rsa_pkcs1v15_sha256_signed(key_pem: Seq<char>, message: Seq<u8>) -> Option<Seq<u8>>;

/// Whether bytes are a PKCS#1 v1.5 signature over SHA-256 of a message
/// that the public key of a private key accepts.
pub uninterp spec fn rsa_pkcs1v15_sha256_verifies(
    key_pem: Seq<char>,
    message: Seq<u8>,
    signature: Seq<u8>,
) -> bool;

/// Whether a PEM text reads back as the key it was written from.
pub open spec fn reads_back(pem: Seq<char>) -> bool {
    pkcs8_pem_key(pem) == Some(pem)
}

/// `RsaPrivateKey::new` with the thread's generator: a random key, or
/// nothing where generation failed. The crate draws primes until the
/// modulus has exactly the size asked for, so a key that comes back has
/// that size. Sizes below 64 bits, which the crate treats apart, are left
/// out.
#[verifier::external_body]
fn generate_key(bits: usize) -> (r: Option<RsaPrivateKey>)
    requires
        bits >= 64,
    ensures
        r matches Some(key) ==> rsa_key_bits(key) == bits,
{
    RsaPrivateKey::new(&mut rand::thread_rng(), bits).ok()
}

/// `EncodePrivateKey::to_pkcs8_pem` with LF line endings: the named
/// result. A text that comes back is the text that the key holds, and
/// reads back as the same key.
#[verifier::external_body]
fn private_key_pem(key: &RsaPrivateKey) -> (r: Option<String>)
    ensures
        match r {
            Some(pem) => rsa_key_written(*key) == Some(pem@) && pem@ == rsa_key_pem(*key) && reads_back(
                pem@,
            ),
            None => rsa_key_written(*key) is None,
        },
{
    match key.to_pkcs8_pem(LineEnding::LF) {
        Ok(mut pem) => Some(std::mem::take(&mut *pem)),
        Err(_) => None,
    }
}

/// `DecodePrivateKey::from_pkcs8_pem`: the named key, nothing where the
/// text holds none.
#[verifier::external_body]
fn parse_private_key(pem: &str) -> (r: Option<RsaPrivateKey>)
    ensures
        match r {
            Some(key) => pkcs8_pem_key(pem@) == Some(rsa_key_pem(key)),
            None => pkcs8_pem_key(pem@) is None,
        },
{
    RsaPrivateKey::from_pkcs8_pem(pem).ok()
}

/// `EncodePublicKey::to_public_key_pem` of `RsaPrivateKey::to_public_key`,
/// with LF line endings: the named text.
#[verifier::external_body]
fn public_pem(key: &RsaPrivateKey) -> (r: Option<String>)
    ensures
        match r {
            Some(pem) => rsa_public_pem(rsa_key_pem(*key)) == Some(pem@),
            None => rsa_public_pem(rsa_key_pem(*key)) is None,
        },
{
    key.to_public_key().to_public_key_pem(LineEnding::LF).ok()
}

/// `Signer::try_sign` of a `pkcs1v15::SigningKey<Sha256>` made from the
/// key: the bytes of the named signature.
#[verifier::external_body]
fn sign(key: &RsaPrivateKey, message: &[u8]) -> (r: Option<Vec<u8>>)
    ensures
        match r {
            Some(signature) => rsa_pkcs1v15_sha256_signed(rsa_key_pem(*key), message@) == Some(
                signature@,
            ),
            None => rsa_pkcs1v15_sha256_signed(rsa_key_pem(*key), message@) is None,
        },
{
    let signing_key = pkcs1v15::SigningKey::<Sha256>::new(key.clone());
    match signing_key.try_sign(message) {
        Ok(signature) => Some(signature.to_vec()),
        Err(_) => None,
    }
}

/// `Verifier::verify` of the verifying key of a
/// `pkcs1v15::SigningKey<Sha256>` made from the key: the named answer. The
/// signature that the key makes of a message is accepted for that message.
#[verifier::external_body]
fn verifies(key: &RsaPrivateKey, message: &[u8], signature: &[u8]) -> (r: bool)
    ensures
        r == rsa_pkcs1v15_sha256_verifies(rsa_key_pem(*key), message@, signature@),
        rsa_pkcs1v15_sha256_signed(rsa_key_pem(*key), message@) == Some(signature@) ==> r,
{
    let signing_key = pkcs1v15::SigningKey::<Sha256>::new(key.clone());
    match pkcs1v15::Signature::try_from(signature) {
        Ok(signature) => signing_key.verifying_key().verify(message, &signature).is_ok(),
        Err(_) => false,
    }
}

/// The identifier of a user: the name-based UUID of its public key.
#[derive(Debug)]
pub struct UserId(Uuid);

impl View for UserId {
    type V = Seq<u8>;

    closed spec fn view(&self) -> Seq<u8> {
        uuid_bytes(self.0)
    }
}

impl Clone for UserId {
    fn clone(&self) -> (r: Self)
        ensures
            r@ == self@,
    {
        UserId(Uuid::from_bytes(*self.0.as_bytes()))
    }
}

impl UserId {
    /// The identifier of the user whose public key has a given PEM text.
    pub open spec fn of_public_pem(pem: Seq<char>) -> Seq<u8> {
        uuid_v5(NAMESPACE_USER@, encode_utf8(pem))
    }

    /// The identifier is a function of the public key alone: equal texts
    /// have equal identifiers.
    pub proof fn lemma_deterministic(a: Seq<char>, b: Seq<char>)
        requires
            a == b,
        ensures
            Self::of_public_pem(a) == Self::of_public_pem(b),
    {
    }

    /// The UUID that the identifier is.
    pub fn to_uuid(&self) -> (r: Uuid)
        ensures
            uuid_bytes(r) == self@,
    {
        Uuid::from_bytes(*self.0.as_bytes())
    }

    /// The hyphenated text of the identifier.
    pub fn to_string(&self) -> (r: String)
        ensures
            r@ == hyphenated(self@),
    {
        uuid_text(&self.0)
    }
}

/// What the conversion gives is stated by the `ensures` of `from`.
impl vstd::std_specs::convert::FromSpecImpl<&str> for UserId {
    open spec fn obeys_from_spec() -> bool {
        false
    }

    open spec fn from_spec(pem: &str) -> Self {
        arbitrary()
    }
}

impl From<&str> for UserId {
    fn from(pem: &str) -> (r: Self)
        ensures
            r@ == UserId::of_public_pem(pem@),
    {
        let namespace = Uuid::from_bytes(NAMESPACE_USER);
        UserId(Uuid::new_v5(&namespace, pem.as_bytes()))
    }
}

/// What the conversion gives is stated by the `ensures` of `from`.
impl vstd::std_specs::convert::FromSpecImpl<Uuid> for UserId {
    open spec fn obeys_from_spec() -> bool {
        false
    }

    open spec fn from_spec(uuid: Uuid) -> Self {
        arbitrary()
    }
}

impl From<Uuid> for UserId {
    fn from(uuid: Uuid) -> (r: Self)
        ensures
            r@ == uuid_bytes(uuid),
    {
        UserId(uuid)
    }
}

/// What the conversion gives is stated by the `ensures` of `from`.
impl vstd::std_specs::convert::FromSpecImpl<UserId> for Uuid {
    open spec fn obeys_from_spec() -> bool {
        false
    }

    open spec fn from_spec(user_id: UserId) -> Self {
        arbitrary()
    }
}

impl From<UserId> for Uuid {
    fn from(user_id: UserId) -> (r: Self)
        ensures
            uuid_bytes(r) == user_id@,
    {
        user_id.0
    }
}

/// What the conversion gives is stated by the `ensures` of `from`.
impl vstd::std_specs::convert::FromSpecImpl<UserId> for String {
    open spec fn obeys_from_spec() -> bool {
        false
    }

    open spec fn from_spec(user_id: UserId) -> Self {
        arbitrary()
    }
}

impl From<UserId> for String {
    fn from(user_id: UserId) -> (r: Self)
        ensures
            r@ == hyphenated(user_id@),
    {
        uuid_text(&user_id.0)
    }
}

impl vstd::std_specs::cmp::PartialEqSpecImpl for UserId {
    open spec fn obeys_eq_spec() -> bool {
        true
    }

    open spec fn eq_spec(&self, other: &UserId) -> bool {
        self@ == other@
    }
}

impl PartialEq for UserId {
    fn eq(&self, other: &UserId) -> (r: bool) {
        same_bytes(self.0.as_bytes().as_slice(), other.0.as_bytes().as_slice())
    }
}

impl Eq for UserId {

}

/// An RSA private key that signs for a user.
pub struct SigningKey {
    pub private_key: RsaPrivateKey,
}

impl View for SigningKey {
    type V = Seq<char>;

    /// The key as its PKCS#8 PEM text.
    open spec fn view(&self) -> Seq<char> {
        rsa_key_pem(self.private_key)
    }
}

impl SigningKey {
    /// The text of a signature: its bytes as upper-case hexadecimal digits.
    pub open spec fn signature_text(key_pem: Seq<char>, message: Seq<char>) -> Option<Seq<char>> {
        match rsa_pkcs1v15_sha256_signed(key_pem, encode_utf8(message)) {
            Some(signature) => Some(upper_hex(signature)),
            None => None,
        }
    }

    /// The size of the key: the length of its modulus in bits.
    pub open spec fn spec_bits(&self) -> nat {
        rsa_key_bits(self.private_key)
    }

    /// The PKCS#8 PEM text that the key is written as; `None` where it
    /// cannot be written.
    pub open spec fn spec_written(&self) -> Option<Seq<char>> {
        rsa_key_written(self.private_key)
    }

    /// Whether the key can be stored: it can be written, and its text is
    /// not too long to be sealed.
    pub open spec fn storable(&self) -> bool {
        self.spec_written() matches Some(pem) && sealable(encode_utf8(pem).len())
    }

    /// A fresh random key of `KEY_BITS` bits; `Rsa` where generation
    /// failed.
    pub fn generate() -> (r: Result<Self, Error>)
        ensures
            r matches Ok(key) ==> key.spec_bits() == KEY_BITS,
            r matches Err(e) ==> e == Error::Rsa,
    {
        Self::from_generated(generate_key(KEY_BITS))
    }

    /// The signing key that a generated key is; `Rsa` where there is none.
    pub fn from_generated(generated: Option<RsaPrivateKey>) -> (r: Result<Self, Error>)
        ensures
            match generated {
                Some(key) => r matches Ok(k) && k.private_key == key,
                None => r matches Err(e) && e == Error::Rsa,
            },
    {
        match generated {
            Some(private_key) => Ok(SigningKey { private_key }),
            None => Err(Error::Rsa),
        }
    }

    /// The public key as SPKI PEM text; `RsaPkcs8Spki` where it cannot be
    /// written.
    pub fn public_key_pem(&self) -> (r: Result<String, Error>)
        ensures
            match r {
                Ok(pem) => rsa_public_pem(self@) == Some(pem@),
                Err(e) => rsa_public_pem(self@) is None && e == Error::RsaPkcs8Spki,
            },
    {
        match public_pem(&self.private_key) {
            Some(pem) => Ok(pem),
            None => Err(Error::RsaPkcs8Spki),
        }
    }

    /// Signs a message; the text is the signature in upper-case
    /// hexadecimal digits. `Rsa` where the key cannot sign.
    pub fn sign_message(&self, message: &str) -> (r: Result<String, Error>)
        ensures
            match r {
                Ok(text) => Self::signature_text(self@, message@) == Some(text@),
                Err(e) => Self::signature_text(self@, message@) is None && e == Error::Rsa,
            },
    {
        match sign(&self.private_key, message.as_bytes()) {
            Some(signature) => Ok(to_upper_hex(signature.as_slice())),
            None => Err(Error::Rsa),
        }
    }

    /// Whether bytes are a signature of the message under this key. The
    /// bytes of the signature that this key makes of the message are.
    pub fn verify_signature(&self, message: &str, signature: &[u8]) -> (r: Result<bool, Error>)
        ensures
            r matches Ok(valid) && valid == rsa_pkcs1v15_sha256_verifies(
                self@,
                encode_utf8(message@),
                signature@,
            ),
            rsa_pkcs1v15_sha256_signed(self@, encode_utf8(message@)) == Some(signature@) ==> r
                == Ok::<bool, Error>(true),
    {
        Ok(verifies(&self.private_key, message.as_bytes(), signature))
    }

    /// Encrypts the key for storage: its PEM text under a fresh data key,
    /// the data key under the master key. It succeeds exactly where the key
    /// can be stored: `RsaPkcs8` where the key cannot be written, `AesGcm`
    /// where its text is too long to be sealed. Each ciphertext is its
    /// plaintext and a tag long, and what is returned decrypts to the same
    /// key under the same master key.
    pub fn encrypt(&self, master_key: &MasterKey) -> (r: Result<encrypt::EncryptedSigningKey, Error>)
        ensures
            r is Ok <==> self.storable(),
            r matches Err(e) ==> e == (if self.spec_written() is None {
                Error::RsaPkcs8
            } else {
                Error::AesGcm
            }),
            r matches Ok(e) ==> self.spec_written() == Some(self@),
            r matches Ok(e) ==> e.encrypted_private_key.nonce@.len() == NONCE_LEN
                && e.encrypted_data_key.nonce@.len() == NONCE_LEN,
            r matches Ok(e) ==> e.encrypted_private_key.ciphertext@.len() == encode_utf8(self@).len()
                + TAG_LEN && e.encrypted_data_key.ciphertext@.len() == KEY_TEXT_LEN + TAG_LEN,
            r matches Ok(e) ==> e.decrypted(master_key@) == Ok::<Seq<char>, Error>(self@),
    {
        let data_key = Aes256Key::generate();
        let pem = private_key_pem(&self.private_key);
        Self::encrypt_pem(pem, master_key, &data_key, random_nonce(), random_nonce())
    }

    /// Encrypts the PEM text of a key under a given data key and given
    /// nonces. `RsaPkcs8` where there is no text, `AesGcm` where the text is
    /// too long to be sealed. A text that reads back as itself gives what
    /// decrypts to it under the same master key.
    pub fn encrypt_pem(
        pem: Option<String>,
        master_key: &MasterKey,
        data_key: &Aes256Key,
        pem_nonce: [u8; 12],
        key_nonce: [u8; 12],
    ) -> (r: Result<encrypt::EncryptedSigningKey, Error>)
        ensures
            r is Ok <==> (pem matches Some(text) && sealable(encode_utf8(text@).len())),
            r matches Err(e) ==> e == (if pem is None {
                Error::RsaPkcs8
            } else {
                Error::AesGcm
            }),
            r matches Ok(e) ==> e.encrypted_private_key.nonce@ == pem_nonce@
                && e.encrypted_data_key.nonce@ == key_nonce@,
            r matches Ok(e) ==> e.encrypted_private_key.ciphertext@.len() == encode_utf8(pem->0@).len()
                + TAG_LEN && e.encrypted_data_key.ciphertext@.len() == KEY_TEXT_LEN + TAG_LEN,
            r matches Ok(e) ==> e.encrypted_private_key.ciphertext@ == aes_256_gcm_sealed(
                data_key@,
                pem_nonce@,
                encode_utf8(pem->0@),
            ),
            r matches Ok(e) ==> MasterKey::envelope_opened(
                master_key@,
                e.encrypted_data_key,
                e.encrypted_private_key,
            ) == Ok::<Seq<char>, Error>(pem->0@),
            r matches Ok(e) ==> (reads_back(pem->0@) ==> e.decrypted(master_key@) == Ok::<Seq<char>, Error>(
                pem->0@,
            )),
    {
        match pem {
            None => Err(Error::RsaPkcs8),
            Some(text) => {
                let text = Redacted::new(text);
                let (encrypted_private_key, encrypted_data_key) = master_key.seal_envelope(
                    data_key,
                    text.expose().as_str(),
                    pem_nonce,
                    key_nonce,
                )?;
                Ok(encrypt::EncryptedSigningKey { encrypted_private_key, encrypted_data_key })
            },
        }
    }

    /// The signing key in a PEM text; `RsaPkcs8` where the text holds none.
    pub fn from_pkcs8_pem(pem: &str) -> (r: Result<Self, Error>)
        ensures
            match r {
                Ok(key) => pkcs8_pem_key(pem@) == Some(key@),
                Err(e) => pkcs8_pem_key(pem@) is None && e == Error::RsaPkcs8,
            },
    {
        match parse_private_key(pem) {
            Some(private_key) => Ok(SigningKey { private_key }),
            None => Err(Error::RsaPkcs8),
        }
    }
}

/// A user: a signing key, and the identifier made from its public key.
pub struct User {
    id: UserId,
    pub signing_key: SigningKey,
}

/// A user in contracts: the bytes of the identifier, and the signing key.
pub ghost struct UserView {
    pub id: Seq<u8>,
    pub signing_key: SigningKey,
}

impl View for User {
    type V = UserView;

    closed spec fn view(&self) -> UserView {
        UserView { id: self.id@, signing_key: self.signing_key }
    }
}

impl User {
    /// A new user with a fresh key of `KEY_BITS` bits. `Rsa` where
    /// generation failed, `RsaPkcs8Spki` where the public key cannot be
    /// written. The identifier is that of the public key.
    pub fn new() -> (r: Result<Self, Error>)
        ensures
            r matches Err(e) ==> e == Error::Rsa || e == Error::RsaPkcs8Spki,
            r matches Ok(user) ==> user@.signing_key.spec_bits() == KEY_BITS,
            r matches Ok(user) ==> rsa_public_pem(user@.signing_key@) is Some && user@.id
                == UserId::of_public_pem(rsa_public_pem(user@.signing_key@)->0),
    {
        let signing_key = SigningKey::generate()?;
        Self::from_key(signing_key)
    }

    /// The user of a given key: `RsaPkcs8Spki` where the public key cannot
    /// be written, else the user whose identifier is that of the public
    /// key.
    pub fn from_key(signing_key: SigningKey) -> (r: Result<Self, Error>)
        ensures
            match r {
                Ok(user) => user@.signing_key == signing_key && rsa_public_pem(signing_key@) is Some
                    && user@.id == UserId::of_public_pem(rsa_public_pem(signing_key@)->0),
                Err(e) => rsa_public_pem(signing_key@) is None && e == Error::RsaPkcs8Spki,
            },
    {
        let pem = signing_key.public_key_pem()?;
        let id = UserId::from(pem.as_str());
        Ok(User { id, signing_key })
    }

    /// The user that storage held: the identifier is taken as stored.
    pub(crate) fn from_stored(id: UserId, signing_key: SigningKey) -> (r: Self)
        ensures
            r@.id == id@,
            r@.signing_key == signing_key,
    {
        User { id, signing_key }
    }

    pub fn id(&self) -> (r: &UserId)
        ensures
            r@ == self@.id,
    {
        &self.id
    }

    /// The signing key.
    pub fn signing_key(&self) -> (r: &SigningKey)
        ensures
            *r == self@.signing_key,
    {
        &self.signing_key
    }

    /// Encrypts the user for storage: the identifier as it is, the key as
    /// `SigningKey::encrypt` does. It succeeds exactly where the key can be
    /// stored: `RsaPkcs8` where the key cannot be written, `AesGcm` where
    /// its text is too long to be sealed.
    pub fn encrypt(self, master_key: &MasterKey) -> (r: Result<encrypt::EncryptedUser, Error>)
        ensures
            r is Ok <==> self@.signing_key.storable(),
            r matches Err(e) ==> e == (if self@.signing_key.spec_written() is None {
                Error::RsaPkcs8
            } else {
                Error::AesGcm
            }),
            r matches Ok(e) ==> e.id@ == self@.id,
            r matches Ok(e) ==> e.encrypted_signing_key.encrypted_private_key.nonce@.len() == NONCE_LEN
                && e.encrypted_signing_key.encrypted_data_key.nonce@.len() == NONCE_LEN,
            r matches Ok(e) ==> e.encrypted_signing_key.encrypted_private_key.ciphertext@.len()
                == encode_utf8(self@.signing_key@).len() + TAG_LEN
                && e.encrypted_signing_key.encrypted_data_key.ciphertext@.len() == KEY_TEXT_LEN + TAG_LEN,
            r matches Ok(e) ==> e.encrypted_signing_key.decrypted(master_key@) == Ok::<Seq<char>, Error>(
                self@.signing_key@,
            ),
    {
        let encrypted_signing_key = self.signing_key.encrypt(master_key)?;
        Ok(encrypt::EncryptedUser { id: self.id, encrypted_signing_key })
    }
}

} // verus!
