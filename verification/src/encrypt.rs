//! The envelope cipher: AES-256-GCM under a 32-byte key, a fresh 12-byte
//! nonce for every encryption, and the canonical text of a ciphertext. The
//! cipher itself is the `aes-gcm` crate's.

use vstd::prelude::*;
use vstd::slice::{slice_subrange, slice_to_vec};
use vstd::utf8::*;

use aes_gcm::aead::generic_array::GenericArray;
use aes_gcm::aead::{Aead, AeadCore, KeyInit, OsRng};
use aes_gcm::{Aes256Gcm, Key};

use crate::bytes::{find_byte, first_index_of, lemma_first_index_is, same_bytes, to_array};
use crate::codec::{
    decode_url_safe_no_pad, encodable, encode_url_safe_no_pad, is_url_safe_symbol,
    lemma_url_safe_text_bytes,
    url_safe_no_pad_bytes, url_safe_no_pad_text,
};
use crate::error::{DecodeError, Error};
use crate::secret::vault::{exposed_key, seal_key, vault_key, KeyVault};

pub mod master_key;

verus! {

/// The longest plaintext, in bytes, that the cipher takes.
pub const MAX_PLAINTEXT: u64 = 0x10_0000_0000;

/// Length of a nonce in bytes.
pub const NONCE_LEN: usize = 12;

/// Length of the authentication tag that ends every ciphertext.
pub const TAG_LEN: usize = 16;

/// Length of the text of a key: 32 bytes in base64 without padding.
pub const KEY_TEXT_LEN: usize = 43;

/// The ciphertext, tag included, of `plaintext` under `key` and `nonce`.
pub uninterp spec fn aes_256_gcm_sealed(key: Seq<u8>, nonce: Seq<u8>, plaintext: Seq<u8>) -> Seq<u8>;

/// The plaintext of `ciphertext` under `key` and `nonce`; `None` where the
/// tag does not authenticate it.
pub uninterp spec fn aes_256_gcm_opened(key: Seq<u8>, nonce: Seq<u8>, ciphertext: Seq<u8>) -> Option<
    Seq<u8>,
>;

/// Whether `ciphertext` opens to `plaintext` under `key` and `nonce`.
pub open spec fn opens_to(key: Seq<u8>, nonce: Seq<u8>, ciphertext: Seq<u8>, plaintext: Seq<u8>) -> bool {
    aes_256_gcm_opened(key, nonce, ciphertext) == Some(plaintext)
}

/// Whether a plaintext of `len` bytes can be sealed: the cipher takes it,
/// and the ciphertext has a length that fits the machine.
pub open spec fn sealable(len: nat) -> bool {
    len <= MAX_PLAINTEXT && len + TAG_LEN <= usize::MAX
}

/// `Aes256Gcm::generate_key` with the system's generator: 32 random bytes.
#[verifier::external_body]
fn random_key() -> (r: [u8; 32]) {
    Aes256Gcm::generate_key(OsRng).into()
}

/// `Aes256Gcm::generate_nonce` with the system's generator: 12 random
/// bytes.
#[verifier::external_body]
pub(crate) fn random_nonce() -> (r: [u8; 12]) {
    Aes256Gcm::generate_nonce(&mut OsRng).into()
}

/// `Aead::encrypt` of `Aes256Gcm`. The cipher refuses a plaintext longer
/// than `MAX_PLAINTEXT` and takes every other; the ciphertext is named, is
/// 16 bytes longer than the plaintext, and opens to it under the same key
/// and nonce.
#[verifier::external_body]
fn seal(key: &[u8; 32], nonce: &[u8; 12], plaintext: &[u8]) -> (r: Option<Vec<u8>>)
    requires
        plaintext@.len() + TAG_LEN <= usize::MAX,
    ensures
        r is Some <==> plaintext@.len() <= MAX_PLAINTEXT,
        r matches Some(sealed) ==> sealed@ == aes_256_gcm_sealed(key@, nonce@, plaintext@),
        r matches Some(sealed) ==> sealed@.len() == plaintext@.len() + TAG_LEN,
        r matches Some(sealed) ==> opens_to(key@, nonce@, sealed@, plaintext@),
{
    let cipher = Aes256Gcm::new(Key::<Aes256Gcm>::from_slice(key));
    cipher.encrypt(GenericArray::from_slice(nonce), plaintext).ok()
}

/// `Aead::decrypt` of `Aes256Gcm`: the named result.
#[verifier::external_body]
fn open(key: &[u8; 32], nonce: &[u8; 12], ciphertext: &[u8]) -> (r: Option<Vec<u8>>)
    ensures
        match r {
            Some(plaintext) => aes_256_gcm_opened(key@, nonce@, ciphertext@) == Some(plaintext@),
            None => aes_256_gcm_opened(key@, nonce@, ciphertext@) is None,
        },
{
    let cipher = Aes256Gcm::new(Key::<Aes256Gcm>::from_slice(key));
    cipher.decrypt(GenericArray::from_slice(nonce), ciphertext).ok()
}

/// `String::from_utf8`: the text of bytes that are UTF-8, nothing for
/// bytes that are not.
#[verifier::external_body]
pub(crate) fn utf8_text(bytes: Vec<u8>) -> (r: Option<String>)
    ensures
        match r {
            Some(text) => valid_utf8(bytes@) && text@ == decode_utf8(bytes@),
            None => !valid_utf8(bytes@),
        },
{
    String::from_utf8(bytes).ok()
}

/// A nonce and the ciphertext made with it.
#[derive(Debug)]
pub struct Encrypted {
    pub nonce: Vec<u8>,
    pub ciphertext: Vec<u8>,
}

impl Clone for Encrypted {
    fn clone(&self) -> (r: Self)
        ensures
            r.nonce@ == self.nonce@,
            r.ciphertext@ == self.ciphertext@,
    {
        Encrypted { nonce: self.nonce.clone(), ciphertext: self.ciphertext.clone() }
    }
}

impl vstd::std_specs::cmp::PartialEqSpecImpl for Encrypted {
    open spec fn obeys_eq_spec() -> bool {
        true
    }

    open spec fn eq_spec(&self, other: &Encrypted) -> bool {
        self.nonce@ == other.nonce@ && self.ciphertext@ == other.ciphertext@
    }
}

impl PartialEq for Encrypted {
    fn eq(&self, other: &Encrypted) -> (r: bool) {
        same_bytes(self.nonce.as_slice(), other.nonce.as_slice()) && same_bytes(
            self.ciphertext.as_slice(),
            other.ciphertext.as_slice(),
        )
    }
}

impl Eq for Encrypted {

}

impl Encrypted {
    /// The canonical text: the nonce, a colon, the ciphertext, both in the
    /// URL-safe form without padding.
    pub open spec fn canonical_text(nonce: Seq<u8>, ciphertext: Seq<u8>) -> Seq<char> {
        url_safe_no_pad_text(nonce) + seq![':'] + url_safe_no_pad_text(ciphertext)
    }

    /// What the bytes of a text are read as. The text is cut at its first
    /// colon; both parts must be there and not empty, and each is decoded by
    /// itself, the nonce first.
    pub open spec fn parsed(text: Seq<u8>) -> Result<(Seq<u8>, Seq<u8>), DecodeError> {
        match first_index_of(text, 0x3a) {
            None => Err(DecodeError::InvalidLength),
            Some(colon) => {
                let head = text.subrange(0, colon);
                let tail = text.subrange(colon + 1, text.len() as int);
                if head.len() == 0 || tail.len() == 0 {
                    Err(DecodeError::InvalidLength)
                } else {
                    match url_safe_no_pad_bytes(head) {
                        Err(e) => Err(e),
                        Ok(nonce) => match url_safe_no_pad_bytes(tail) {
                            Err(e) => Err(e),
                            Ok(ciphertext) => Ok((nonce, ciphertext)),
                        },
                    }
                }
            },
        }
    }

    /// Writes the canonical text. Where neither part is empty, the text
    /// reads back as the same nonce and ciphertext.
    pub fn into_string(self) -> (r: String)
        requires
            encodable(self.nonce@.len()),
            encodable(self.ciphertext@.len()),
        ensures
            r@ == Self::canonical_text(self.nonce@, self.ciphertext@),
            self.nonce@.len() > 0 && self.ciphertext@.len() > 0 ==> Self::parsed(encode_utf8(r@))
                == Ok::<(Seq<u8>, Seq<u8>), DecodeError>((self.nonce@, self.ciphertext@)),
    {
        let head = encode_url_safe_no_pad(self.nonce.as_slice());
        let tail = encode_url_safe_no_pad(self.ciphertext.as_slice());
        let mut text = head.clone();
        text.append(":");
        text.append(tail.as_str());
        proof {
            reveal_strlit(":");
            assert(":"@ =~= seq![':']);
            assert(text@ =~= Self::canonical_text(self.nonce@, self.ciphertext@));
            if self.nonce@.len() > 0 && self.ciphertext@.len() > 0 {
                Self::lemma_canonical_parses(head@, tail@, self.nonce@, self.ciphertext@);
            }
        }
        text
    }

    /// A text made of two non-empty runs of URL-safe symbols around a colon
    /// is cut at that colon.
    proof fn lemma_canonical_parses(head: Seq<char>, tail: Seq<char>, nonce: Seq<u8>, ciphertext: Seq<u8>)
        requires
            head.len() > 0,
            tail.len() > 0,
            forall|i: int| 0 <= i < head.len() ==> is_url_safe_symbol(#[trigger] head[i]),
            forall|i: int| 0 <= i < tail.len() ==> is_url_safe_symbol(#[trigger] tail[i]),
            url_safe_no_pad_bytes(encode_utf8(head)) == Ok::<Seq<u8>, DecodeError>(nonce),
            url_safe_no_pad_bytes(encode_utf8(tail)) == Ok::<Seq<u8>, DecodeError>(ciphertext),
        ensures
            Self::parsed(encode_utf8(head + seq![':'] + tail)) == Ok::<(Seq<u8>, Seq<u8>), DecodeError>(
                (nonce, ciphertext),
            ),
    {
        let text = head + seq![':'] + tail;
        lemma_url_safe_text_bytes(head);
        lemma_url_safe_text_bytes(tail);
        assert(is_ascii_chars(text)) by {
            assert forall|i: int| 0 <= i < text.len() implies '\0' <= #[trigger] text[i] <= '\u{7f}' by {
                if i < head.len() {
                    assert(text[i] == head[i]);
                } else if i > head.len() {
                    assert(text[i] == tail[i - head.len() - 1]);
                }
            }
        }
        is_ascii_chars_encode_utf8(text);
        let bytes = encode_utf8(text);
        let colon = head.len() as int;
        assert(bytes[colon] == text[colon] as u8);
        assert(text[colon] == ':');
        assert forall|k: int| 0 <= k < colon implies bytes[k] != 0x3a by {
            assert(bytes[k] == text[k] as u8);
            assert(text[k] == head[k]);
            assert(encode_utf8(head)[k] == head[k] as u8);
        }
        lemma_first_index_is(bytes, 0x3a, colon);
        assert(bytes.subrange(0, colon) =~= encode_utf8(head)) by {
            assert forall|k: int| 0 <= k < colon implies bytes[k] == encode_utf8(head)[k] by {
                assert(bytes[k] == text[k] as u8);
                assert(text[k] == head[k]);
            }
        }
        assert(bytes.subrange(colon + 1, bytes.len() as int) =~= encode_utf8(tail)) by {
            assert forall|k: int| 0 <= k < tail.len() implies bytes[colon + 1 + k] == encode_utf8(
                tail,
            )[k] by {
                assert(bytes[colon + 1 + k] == text[colon + 1 + k] as u8);
                assert(text[colon + 1 + k] == tail[k]);
            }
        }
    }

    /// Reads a canonical text.
    pub fn parse(text: &str) -> (r: Result<Encrypted, DecodeError>)
        ensures
            match r {
                Ok(e) => Self::parsed(encode_utf8(text@)) == Ok::<(Seq<u8>, Seq<u8>), DecodeError>(
                    (e.nonce@, e.ciphertext@),
                ),
                Err(e) => Self::parsed(encode_utf8(text@)) == Err::<(Seq<u8>, Seq<u8>), DecodeError>(e),
            },
    {
        let bytes = text.as_bytes();
        let len = bytes.len();
        match find_byte(bytes, 0x3a) {
            None => Err(DecodeError::InvalidLength),
            Some(colon) => {
                let head = slice_subrange(bytes, 0, colon);
                let tail = slice_subrange(bytes, colon + 1, len);
                if head.len() == 0 || tail.len() == 0 {
                    return Err(DecodeError::InvalidLength);
                }
                let nonce = decode_url_safe_no_pad(head)?;
                let ciphertext = decode_url_safe_no_pad(tail)?;
                Ok(Encrypted { nonce, ciphertext })
            },
        }
    }
}

/// What the conversion gives is stated by the `ensures` of `try_from`, over
/// the views of the parts.
impl vstd::std_specs::convert::TryFromSpecImpl<String> for Encrypted {
    open spec fn obeys_try_from_spec() -> bool {
        false
    }

    open spec fn try_from_spec(text: String) -> Result<Self, DecodeError> {
        arbitrary()
    }
}

impl TryFrom<String> for Encrypted {
    type Error = DecodeError;

    fn try_from(text: String) -> (r: Result<Encrypted, DecodeError>)
        ensures
            match r {
                Ok(e) => Encrypted::parsed(encode_utf8(text@)) == Ok::<(Seq<u8>, Seq<u8>), DecodeError>(
                    (e.nonce@, e.ciphertext@),
                ),
                Err(e) => Encrypted::parsed(encode_utf8(text@)) == Err::<
                    (Seq<u8>, Seq<u8>),
                    DecodeError,
                >(e),
            },
    {
        Encrypted::parse(text.as_str())
    }
}

/// A 32-byte AES-256 key, kept in zeroizing storage.
pub struct Aes256Key {
    vault: KeyVault,
}

impl View for Aes256Key {
    type V = Seq<u8>;

    closed spec fn view(&self) -> Seq<u8> {
        vault_key(self.vault)
    }
}

impl Aes256Key {
    /// What a ciphertext decrypts to under a key: `AesGcm` where the nonce
    /// is not 12 bytes or the tag does not authenticate the ciphertext,
    /// `Utf8` where the plaintext is not a text.
    pub open spec fn decrypted(key: Seq<u8>, nonce: Seq<u8>, ciphertext: Seq<u8>) -> Result<
        Seq<char>,
        Error,
    > {
        if nonce.len() != NONCE_LEN {
            Err(Error::AesGcm)
        } else {
            match aes_256_gcm_opened(key, nonce, ciphertext) {
                None => Err(Error::AesGcm),
                Some(plaintext) => if valid_utf8(plaintext) {
                    Ok(decode_utf8(plaintext))
                } else {
                    Err(Error::Utf8)
                },
            }
        }
    }

    /// What the text of a key is read as: `Base64` where it is no URL-safe
    /// base64, `InvalidKeyLength` where it holds other than 32 bytes.
    pub open spec fn key_of_text(text: Seq<char>) -> Result<Seq<u8>, Error> {
        match url_safe_no_pad_bytes(encode_utf8(text)) {
            Err(e) => Err(Error::Base64(e)),
            Ok(bytes) => if bytes.len() == 32 {
                Ok(bytes)
            } else {
                Err(Error::InvalidKeyLength)
            },
        }
    }

    /// A fresh random key.
    pub fn generate() -> (r: Self)
        ensures
            r@.len() == 32,
    {
        Aes256Key { vault: seal_key(random_key()) }
    }

    /// The key that 32 bytes are.
    pub fn from_bytes(bytes: [u8; 32]) -> (r: Self)
        ensures
            r@ == bytes@,
    {
        Aes256Key { vault: seal_key(bytes) }
    }

    /// Reads a key from its text.
    pub fn from_str(text: &str) -> (r: Result<Self, Error>)
        ensures
            match r {
                Ok(key) => Self::key_of_text(text@) == Ok::<Seq<u8>, Error>(key@),
                Err(e) => Self::key_of_text(text@) == Err::<Seq<u8>, Error>(e),
            },
    {
        match decode_url_safe_no_pad(text.as_bytes()) {
            Err(e) => Err(Error::Base64(e)),
            Ok(bytes) => {
                if bytes.len() != 32 {
                    return Err(Error::InvalidKeyLength);
                }
                Ok(Aes256Key { vault: seal_key(to_array::<32>(bytes.as_slice())) })
            },
        }
    }

    /// The text of the key: its 32 bytes in the URL-safe form without
    /// padding, 43 symbols of the URL-safe alphabet. The text reads back as
    /// the same key.
    pub fn to_string(&self) -> (r: String)
        ensures
            r@ == url_safe_no_pad_text(self@),
            r@.len() == KEY_TEXT_LEN,
            encode_utf8(r@).len() == KEY_TEXT_LEN,
            forall|i: int| 0 <= i < r@.len() ==> is_url_safe_symbol(#[trigger] r@[i]),
            self@.len() == 32,
            Self::key_of_text(r@) == Ok::<Seq<u8>, Error>(self@),
    {
        let key = exposed_key(&self.vault);
        let text = encode_url_safe_no_pad(key.as_slice());
        proof {
            lemma_url_safe_text_bytes(text@);
        }
        text
    }

    /// Encrypts a text under a fresh random nonce. The text is refused
    /// with `AesGcm` where it is too long to be sealed, and only there;
    /// what is returned decrypts to the text under this key.
    pub fn encrypt(&self, data: &str) -> (r: Result<Encrypted, Error>)
        ensures
            r is Ok <==> sealable(encode_utf8(data@).len()),
            r matches Err(e) ==> e == Error::AesGcm,
            r matches Ok(e) ==> e.nonce@.len() == NONCE_LEN,
            r matches Ok(e) ==> e.ciphertext@ == aes_256_gcm_sealed(self@, e.nonce@, encode_utf8(data@)),
            r matches Ok(e) ==> e.ciphertext@.len() == encode_utf8(data@).len() + TAG_LEN,
            r matches Ok(e) ==> Self::decrypted(self@, e.nonce@, e.ciphertext@) == Ok::<Seq<char>, Error>(
                data@,
            ),
    {
        let nonce = random_nonce();
        self.encrypt_with_nonce(nonce, data)
    }

    /// Encrypts a text under a given nonce, which must never have been used
    /// with this key before.
    pub fn encrypt_with_nonce(&self, nonce: [u8; 12], data: &str) -> (r: Result<Encrypted, Error>)
        ensures
            r is Ok <==> sealable(encode_utf8(data@).len()),
            r matches Err(e) ==> e == Error::AesGcm,
            r matches Ok(e) ==> e.nonce@ == nonce@,
            r matches Ok(e) ==> e.ciphertext@ == aes_256_gcm_sealed(self@, nonce@, encode_utf8(data@)),
            r matches Ok(e) ==> e.ciphertext@.len() == encode_utf8(data@).len() + TAG_LEN,
            r matches Ok(e) ==> Self::decrypted(self@, e.nonce@, e.ciphertext@) == Ok::<Seq<char>, Error>(
                data@,
            ),
    {
        let plaintext = data.as_bytes();
        if plaintext.len() > usize::MAX - TAG_LEN {
            return Err(Error::AesGcm);
        }
        let key = exposed_key(&self.vault);
        match seal(key, &nonce, plaintext) {
            None => Err(Error::AesGcm),
            Some(ciphertext) => {
                proof {
                    encode_utf8_valid_utf8(data@);
                    encode_utf8_decode_utf8(data@);
                }
                Ok(Encrypted { nonce: slice_to_vec(nonce.as_slice()), ciphertext })
            },
        }
    }

    /// Decrypts a ciphertext to the text it was made from.
    pub fn decrypt(&self, encrypted: &Encrypted) -> (r: Result<String, Error>)
        ensures
            match r {
                Ok(text) => Self::decrypted(self@, encrypted.nonce@, encrypted.ciphertext@) == Ok::<
                    Seq<char>,
                    Error,
                >(text@),
                Err(e) => Self::decrypted(self@, encrypted.nonce@, encrypted.ciphertext@) == Err::<
                    Seq<char>,
                    Error,
                >(e),
            },
    {
        if encrypted.nonce.len() != NONCE_LEN {
            return Err(Error::AesGcm);
        }
        let nonce = to_array::<12>(encrypted.nonce.as_slice());
        let key = exposed_key(&self.vault);
        match open(key, &nonce, encrypted.ciphertext.as_slice()) {
            None => Err(Error::AesGcm),
            Some(plaintext) => match utf8_text(plaintext) {
                None => Err(Error::Utf8),
                Some(text) => Ok(text),
            },
        }
    }
}

} // verus!
