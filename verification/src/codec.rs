//! Base64 in the two forms the service uses: URL-safe without padding for
//! keys and ciphertexts, the standard padded form for request signatures.
//! The encoding itself is the `base64` crate's.

use vstd::prelude::*;
use vstd::utf8::*;

use base64::engine::general_purpose::{STANDARD, URL_SAFE_NO_PAD};
use base64::Engine;

use crate::error::DecodeError;

verus! {

/// The URL-safe form of `bytes`, without padding.
pub uninterp spec fn url_safe_no_pad_text(bytes: Seq<u8>) -> Seq<char>;

/// What the bytes of a text decode to under the URL-safe alphabet, padding
/// not admitted.
pub uninterp spec fn url_safe_no_pad_bytes(text: Seq<u8>) -> Result<Seq<u8>, DecodeError>;

/// The standard padded form of `bytes`.
pub uninterp spec fn standard_text(bytes: Seq<u8>) -> Seq<char>;

/// What the bytes of a text decode to under the standard alphabet, canonical
/// padding required.
pub uninterp spec fn standard_bytes(text: Seq<u8>) -> Result<Seq<u8>, DecodeError>;

/// Whether `text` decodes to `bytes` under the URL-safe alphabet.
pub open spec fn url_safe_no_pad_decodes(text: Seq<char>, bytes: Seq<u8>) -> bool {
    url_safe_no_pad_bytes(encode_utf8(text)) == Ok::<Seq<u8>, DecodeError>(bytes)
}

/// Whether `text` decodes to `bytes` under the standard alphabet.
pub open spec fn standard_decodes(text: Seq<char>, bytes: Seq<u8>) -> bool {
    standard_bytes(encode_utf8(text)) == Ok::<Seq<u8>, DecodeError>(bytes)
}

/// The symbols of the URL-safe alphabet.
pub open spec fn is_url_safe_symbol(c: char) -> bool {
    ||| 'A' <= c <= 'Z'
    ||| 'a' <= c <= 'z'
    ||| '0' <= c <= '9'
    ||| c == '-'
    ||| c == '_'
}

/// The symbols of the standard alphabet, and the padding sign.
pub open spec fn is_standard_symbol(c: char) -> bool {
    ||| 'A' <= c <= 'Z'
    ||| 'a' <= c <= 'z'
    ||| '0' <= c <= '9'
    ||| c == '+'
    ||| c == '/'
    ||| c == '='
}

/// Length of the unpadded encoding of `len` bytes.
pub open spec fn unpadded_len(len: nat) -> nat {
    (4 * len + 2) / 3
}

/// Length of the padded encoding of `len` bytes.
pub open spec fn padded_len(len: nat) -> nat {
    (len + 2) / 3 * 4
}

/// Whether the encoding of `len` bytes has a length that fits the machine.
pub open spec fn encodable(len: nat) -> bool {
    (len / 3 + 1) * 4 <= usize::MAX
}

/// `Engine::encode` of `URL_SAFE_NO_PAD`. The text is named; it is made of
/// symbols of the URL-safe alphabet, has the length that the encoding of
/// that many bytes has, and decodes to the bytes it was made from. The call
/// panics where the length of the text does not fit `usize`.
#[verifier::external_body]
pub(crate) fn encode_url_safe_no_pad(bytes: &[u8]) -> (r: String)
    requires
        encodable(bytes@.len()),
    ensures
        r@ == url_safe_no_pad_text(bytes@),
        r@.len() == unpadded_len(bytes@.len()),
        forall|i: int| 0 <= i < r@.len() ==> is_url_safe_symbol(#[trigger] r@[i]),
        url_safe_no_pad_decodes(r@, bytes@),
{
    URL_SAFE_NO_PAD.encode(bytes)
}

/// `Engine::decode` of `URL_SAFE_NO_PAD`: the named result, with the
/// crate's error rewritten variant by variant.
#[verifier::external_body]
pub(crate) fn decode_url_safe_no_pad(text: &[u8]) -> (r: Result<Vec<u8>, DecodeError>)
    ensures
        match r {
            Ok(bytes) => url_safe_no_pad_bytes(text@) == Ok::<Seq<u8>, DecodeError>(bytes@),
            Err(e) => url_safe_no_pad_bytes(text@) == Err::<Seq<u8>, DecodeError>(e),
        },
{
    match URL_SAFE_NO_PAD.decode(text) {
        Ok(bytes) => Ok(bytes),
        Err(base64::DecodeError::InvalidByte(at, byte)) => Err(DecodeError::InvalidByte(at, byte)),
        Err(base64::DecodeError::InvalidLength) => Err(DecodeError::InvalidLength),
        Err(base64::DecodeError::InvalidLastSymbol(at, byte)) => Err(
            DecodeError::InvalidLastSymbol(at, byte),
        ),
        Err(base64::DecodeError::InvalidPadding) => Err(DecodeError::InvalidPadding),
    }
}

/// `Engine::encode` of `STANDARD`. The text is named; it is made of symbols
/// of the standard alphabet and padding, has the padded length, and decodes
/// to the bytes it was made from. The call panics where the length of the
/// text does not fit `usize`.
#[verifier::external_body]
pub(crate) fn encode_standard(bytes: &[u8]) -> (r: String)
    requires
        encodable(bytes@.len()),
    ensures
        r@ == standard_text(bytes@),
        r@.len() == padded_len(bytes@.len()),
        forall|i: int| 0 <= i < r@.len() ==> is_standard_symbol(#[trigger] r@[i]),
        standard_decodes(r@, bytes@),
{
    STANDARD.encode(bytes)
}

/// `Engine::decode` of `STANDARD`: the named result, with the crate's error
/// rewritten variant by variant.
#[verifier::external_body]
pub(crate) fn decode_standard(text: &[u8]) -> (r: Result<Vec<u8>, DecodeError>)
    ensures
        match r {
            Ok(bytes) => standard_bytes(text@) == Ok::<Seq<u8>, DecodeError>(bytes@),
            Err(e) => standard_bytes(text@) == Err::<Seq<u8>, DecodeError>(e),
        },
{
    match STANDARD.decode(text) {
        Ok(bytes) => Ok(bytes),
        Err(base64::DecodeError::InvalidByte(at, byte)) => Err(DecodeError::InvalidByte(at, byte)),
        Err(base64::DecodeError::InvalidLength) => Err(DecodeError::InvalidLength),
        Err(base64::DecodeError::InvalidLastSymbol(at, byte)) => Err(
            DecodeError::InvalidLastSymbol(at, byte),
        ),
        Err(base64::DecodeError::InvalidPadding) => Err(DecodeError::InvalidPadding),
    }
}

/// A text of URL-safe symbols is ASCII, so its bytes are its characters one
/// for one, and none of them is a colon.
pub proof fn lemma_url_safe_text_bytes(text: Seq<char>)
    requires
        forall|i: int| 0 <= i < text.len() ==> is_url_safe_symbol(#[trigger] text[i]),
    ensures
        is_ascii_chars(text),
        encode_utf8(text).len() == text.len(),
        forall|i: int| 0 <= i < text.len() ==> #[trigger] encode_utf8(text)[i] == text[i] as u8,
        forall|i: int| 0 <= i < text.len() ==> #[trigger] encode_utf8(text)[i] != 0x3a,
{
    assert(is_ascii_chars(text)) by {
        assert forall|i: int| 0 <= i < text.len() implies '\0' <= #[trigger] text[i] <= '\u{7f}' by {
            assert(is_url_safe_symbol(text[i]));
        }
    }
    is_ascii_chars_encode_utf8(text);
    assert forall|i: int| 0 <= i < text.len() implies #[trigger] encode_utf8(text)[i] != 0x3a by {
        assert(is_url_safe_symbol(text[i]));
        assert(encode_utf8(text)[i] == text[i] as u8);
    }
}

} // verus!
