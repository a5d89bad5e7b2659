//! Identifiers as the `uuid` crate makes and writes them: sixteen bytes,
//! written as lower-case hexadecimal digits in five groups.

use vstd::prelude::*;

use uuid::Uuid;

verus! {

#[verifier::external_type_specification]
#[verifier::external_body]
pub struct ExUuid(Uuid);

/// The sixteen bytes of an identifier.
pub uninterp spec fn uuid_bytes(id: Uuid) -> Seq<u8>;

/// The bytes of the name-based identifier (version 5, SHA-1) of `name` in
/// the namespace whose bytes are `namespace`.
pub uninterp spec fn uuid_v5(namespace: Seq<u8>, name: Seq<u8>) -> Seq<u8>;

/// The bytes of the identifier that a text stands for, in any of the written
/// forms the crate reads; `None` for a text in none of them.
pub uninterp spec fn uuid_parsed(text: Seq<char>) -> Option<Seq<u8>>;

/// `Uuid::from_bytes` keeps the bytes it is given.
pub assume_specification[ Uuid::from_bytes ](bytes: uuid::Bytes) -> (r: Uuid)
    ensures
        uuid_bytes(r) == bytes@,
;

/// `Uuid::as_bytes` hands out the bytes of the identifier.
pub assume_specification[ Uuid::as_bytes ](id: &Uuid) -> (r: &uuid::Bytes)
    ensures
        r@ == uuid_bytes(*id),
;

/// `Uuid::new_v5`: the named identifier of the name in the namespace.
pub assume_specification[ Uuid::new_v5 ](namespace: &Uuid, name: &[u8]) -> (r: Uuid)
    ensures
        uuid_bytes(r) == uuid_v5(uuid_bytes(*namespace), name@),
        uuid_bytes(r).len() == 16,
;

/// Whether sixteen bytes are a random identifier (version 4, RFC variant):
/// the high half of byte 6 is the version, the two high bits of byte 8 the
/// variant.
pub open spec fn is_version_4(bytes: Seq<u8>) -> bool {
    bytes.len() == 16 && bytes[6] as int / 16 == 4 && bytes[8] as int / 64 == 2
}

/// `Uuid::new_v4` draws a random identifier: nothing is known of it but
/// its version and variant.
pub assume_specification[ Uuid::new_v4 ]() -> (r: Uuid)
    ensures
        is_version_4(uuid_bytes(r)),
;

/// `Uuid::parse_str`: the named result; an identifier where the text
/// stands for one, nothing where it stands for none.
#[verifier::external_body]
pub(crate) fn parse_uuid(input: &str) -> (r: Option<Uuid>)
    ensures
        match r {
            Some(id) => uuid_parsed(input@) == Some(uuid_bytes(id)) && uuid_bytes(id).len() == 16,
            None => uuid_parsed(input@) is None,
        },
{
    Uuid::parse_str(input).ok()
}

/// The lower-case hexadecimal digit of a value below sixteen.
pub open spec fn hex_digit(nibble: int) -> char {
    if nibble < 10 {
        ('0' as int + nibble) as char
    } else {
        ('a' as int + nibble - 10) as char
    }
}

/// The two digits of byte `k`, the high half first.
pub open spec fn hex_pair(bytes: Seq<u8>, k: int) -> Seq<char> {
    seq![hex_digit(bytes[k] as int / 16), hex_digit(bytes[k] as int % 16)]
}

/// The digits of the bytes from `from` up to `to`.
pub open spec fn hex_run(bytes: Seq<u8>, from: int, to: int) -> Seq<char>
    decreases to - from,
{
    if from >= to {
        Seq::empty()
    } else {
        hex_pair(bytes, from) + hex_run(bytes, from + 1, to)
    }
}

/// The hyphenated form of sixteen bytes: groups of 4, 2, 2, 2 and 6 bytes.
pub open spec fn hyphenated(bytes: Seq<u8>) -> Seq<char> {
    hex_run(bytes, 0, 4) + seq!['-'] + hex_run(bytes, 4, 6) + seq!['-'] + hex_run(bytes, 6, 8)
        + seq!['-'] + hex_run(bytes, 8, 10) + seq!['-'] + hex_run(bytes, 10, 16)
}

/// `to_string` of a `Uuid`, which writes the hyphenated lower-case form.
#[verifier::external_body]
pub(crate) fn uuid_text(id: &Uuid) -> (r: String)
    ensures
        r@ == hyphenated(uuid_bytes(*id)),
{
    id.to_string()
}

/// A run of digits has two characters for each byte.
pub proof fn lemma_hex_run_len(bytes: Seq<u8>, from: int, to: int)
    requires
        from <= to,
    ensures
        hex_run(bytes, from, to).len() == 2 * (to - from),
    decreases to - from,
{
    if from < to {
        lemma_hex_run_len(bytes, from + 1, to);
    }
}

/// A digit is an ASCII character.
pub proof fn lemma_hex_digit_ascii(nibble: int)
    requires
        0 <= nibble < 16,
    ensures
        '0' <= hex_digit(nibble) <= '9' || 'a' <= hex_digit(nibble) <= 'f',
{
}

} // verus!
