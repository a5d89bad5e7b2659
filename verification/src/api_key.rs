//! The public identifier of a client's credentials.

use vstd::prelude::*;

use uuid::Uuid;

use crate::bytes::same_bytes;
use crate::ident::{
    hex_digit, hex_pair, hex_run, hyphenated, lemma_hex_digit_ascii, lemma_hex_run_len, parse_uuid,
    uuid_bytes, uuid_parsed, uuid_text,
};
use crate::secret::mask::{Maskable, Masked};
use crate::secret::vault::{wipe_16, Sealable};

verus! {

/// Sixteen bytes, read as a UUID. The bytes are wiped when the key is
/// dropped.
#[derive(Debug)]
pub struct ApiKey([u8; 16]);

impl View for ApiKey {
    type V = Seq<u8>;

    closed spec fn view(&self) -> Seq<u8> {
        self.0@
    }
}

impl Drop for ApiKey {
    fn drop(&mut self)
        opens_invariants none
        no_unwind
    {
        self.zeroize();
    }
}

impl Clone for ApiKey {
    fn clone(&self) -> (r: Self)
        ensures
            r@ == self@,
    {
        ApiKey(self.0)
    }
}

impl vstd::std_specs::cmp::PartialEqSpecImpl for ApiKey {
    open spec fn obeys_eq_spec() -> bool {
        true
    }

    /// API keys are the same where their bytes are.
    open spec fn eq_spec(&self, other: &ApiKey) -> bool {
        self@ == other@
    }
}

impl PartialEq for ApiKey {
    fn eq(&self, other: &ApiKey) -> (r: bool) {
        same_bytes(self.0.as_slice(), other.0.as_slice())
    }
}

impl Eq for ApiKey {

}

/// What the conversion gives is stated by the `ensures` of `from`: no spec
/// function makes a key out of a UUID.
impl vstd::std_specs::convert::FromSpecImpl<Uuid> for ApiKey {
    open spec fn obeys_from_spec() -> bool {
        false
    }

    open spec fn from_spec(uuid: Uuid) -> Self {
        arbitrary()
    }
}

impl From<Uuid> for ApiKey {
    fn from(uuid: Uuid) -> (r: Self)
        ensures
            r@ == uuid_bytes(uuid),
    {
        ApiKey(*uuid.as_bytes())
    }
}

/// What the conversion gives is stated by the `ensures` of `from`.
impl vstd::std_specs::convert::FromSpecImpl<ApiKey> for Uuid {
    open spec fn obeys_from_spec() -> bool {
        false
    }

    open spec fn from_spec(api_key: ApiKey) -> Self {
        arbitrary()
    }
}

impl From<ApiKey> for Uuid {
    fn from(api_key: ApiKey) -> (r: Self)
        ensures
            uuid_bytes(r) == api_key@,
    {
        api_key.to_uuid()
    }
}

impl ApiKey {
    pub fn from_bytes(bytes: [u8; 16]) -> (r: Self)
        ensures
            r@ == bytes@,
    {
        ApiKey(bytes)
    }

    pub fn as_bytes(&self) -> (r: &[u8; 16])
        ensures
            r@ == self@,
    {
        &self.0
    }

    /// Overwrites the key with zeros.
    pub fn zeroize(&mut self)
        ensures
            final(self)@ == Seq::new(16, |i: int| 0u8),
        opens_invariants none
        no_unwind
    {
        wipe_16(&mut self.0);
        assert(self.0@ =~= Seq::new(16, |i: int| 0u8));
    }

    /// The API key that a text stands for, in any written form of a UUID;
    /// nothing for a text that stands for none.
    pub fn parse(text: &str) -> (r: Option<Self>)
        ensures
            match r {
                Some(key) => uuid_parsed(text@) == Some(key@),
                None => uuid_parsed(text@) is None,
            },
    {
        match parse_uuid(text) {
            Some(uuid) => Some(ApiKey(*uuid.as_bytes())),
            None => None,
        }
    }

    /// The hyphenated text of the key.
    pub fn to_string(&self) -> (r: String)
        ensures
            r@ == hyphenated(self@),
    {
        uuid_text(&self.to_uuid())
    }

    pub fn to_uuid(&self) -> (r: Uuid)
        ensures
            uuid_bytes(r) == self@,
    {
        Uuid::from_bytes(self.0)
    }

    /// The first three characters of the hyphenated form: the two digits of
    /// the first byte and the high digit of the second.
    pub open spec fn prefix(bytes: Seq<u8>) -> Seq<char> {
        seq![
            hex_digit(bytes[0] as int / 16),
            hex_digit(bytes[0] as int % 16),
            hex_digit(bytes[1] as int / 16),
        ]
    }

    /// The first three characters of the hyphenated form are its prefix.
    pub proof fn lemma_prefix(bytes: Seq<u8>)
        requires
            bytes.len() == 16,
        ensures
            hyphenated(bytes).len() == 36,
            hyphenated(bytes).subrange(0, 3) == Self::prefix(bytes),
    {
        lemma_hex_run_len(bytes, 0, 4);
        lemma_hex_run_len(bytes, 4, 6);
        lemma_hex_run_len(bytes, 6, 8);
        lemma_hex_run_len(bytes, 8, 10);
        lemma_hex_run_len(bytes, 10, 16);
        let run = hex_run(bytes, 0, 4);
        assert(run == hex_pair(bytes, 0) + hex_run(bytes, 1, 4));
        assert(hex_run(bytes, 1, 4) == hex_pair(bytes, 1) + hex_run(bytes, 2, 4));
        lemma_hex_run_len(bytes, 1, 4);
        lemma_hex_run_len(bytes, 2, 4);
        assert(run[0] == hex_digit(bytes[0] as int / 16));
        assert(run[1] == hex_digit(bytes[0] as int % 16));
        assert(run[2] == hex_digit(bytes[1] as int / 16));
        let text = hyphenated(bytes);
        assert(text[0] == run[0]);
        assert(text[1] == run[1]);
        assert(text[2] == run[2]);
        assert(text.subrange(0, 3) =~= Self::prefix(bytes));
    }

    /// A mask is six characters long: three lower-case hexadecimal digits
    /// and three stars.
    pub proof fn lemma_mask_shape(bytes: Seq<u8>)
        requires
            bytes.len() == 16,
        ensures
            Self::mask_of(bytes).len() == 6,
            forall|i: int|
                0 <= i < 3 ==> '0' <= #[trigger] Self::mask_of(bytes)[i] <= '9' || 'a' <= Self::mask_of(
                    bytes,
                )[i] <= 'f',
            forall|i: int| 3 <= i < 6 ==> #[trigger] Self::mask_of(bytes)[i] == '*',
    {
        lemma_hex_digit_ascii(bytes[0] as int / 16);
        lemma_hex_digit_ascii(bytes[0] as int % 16);
        lemma_hex_digit_ascii(bytes[1] as int / 16);
    }
}

impl Maskable for ApiKey {
    /// The first three characters of the hyphenated form, then three stars.
    open spec fn mask_of(value: Seq<u8>) -> Seq<char> {
        ApiKey::prefix(value) + seq!['*', '*', '*']
    }

    fn mask(&self) -> (r: String) {
        let text = uuid_text(&self.to_uuid());
        proof {
            ApiKey::lemma_prefix(self@);
        }
        let head = text.as_str().substring_char(0, 3);
        let mut masked = String::from_str(head);
        masked.append("***");
        proof {
            reveal_strlit("***");
            assert(masked@ =~= ApiKey::mask_of(self@));
        }
        masked
    }
}

impl vstd::std_specs::cmp::PartialEqSpecImpl for Masked<ApiKey> {
    open spec fn obeys_eq_spec() -> bool {
        true
    }

    /// Masked API keys are the same where the keys are.
    open spec fn eq_spec(&self, other: &Masked<ApiKey>) -> bool {
        self@ == other@
    }
}

impl PartialEq for Masked<ApiKey> {
    fn eq(&self, other: &Masked<ApiKey>) -> (r: bool) {
        *self.expose() == *other.expose()
    }
}

impl Eq for Masked<ApiKey> {

}

impl Sealable for ApiKey {
    type Vault = ApiKey;

    open spec fn held(vault: &ApiKey) -> Seq<u8> {
        vault@
    }

    fn seal(self) -> (r: ApiKey) {
        self
    }

    fn unseal(vault: &ApiKey) -> (r: &ApiKey) {
        vault
    }
}

} // verus!
