//! Zeroizing storage. A vault is a `secrecy::SecretBox`: the value lives on
//! the heap and is overwritten with zeros when the vault is dropped.

use vstd::prelude::*;

use secrecy::{ExposeSecret, SecretBox};
use zeroize::Zeroize;

verus! {

/// A secret text in a zeroizing box.
#[verifier::external_body]
pub struct TextVault {
    secret: SecretBox<String>,
}

/// A 32-byte key in a zeroizing box.
#[verifier::external_body]
pub struct KeyVault {
    secret: SecretBox<[u8; 32]>,
}

/// The text that a vault holds.
pub uninterp spec fn vault_text(vault: TextVault) -> Seq<char>;

/// The key bytes that a vault holds.
pub uninterp spec fn vault_key(vault: KeyVault) -> Seq<u8>;

/// `SecretBox::new` on a boxed text: the vault holds the text.
#[verifier::external_body]
pub(crate) fn seal_text(text: String) -> (r: TextVault)
    ensures
        vault_text(r) == text@,
{
    TextVault { secret: SecretBox::new(Box::new(text)) }
}

/// `ExposeSecret::expose_secret` of a text vault: the text it holds.
#[verifier::external_body]
pub(crate) fn exposed_text(vault: &TextVault) -> (r: &String)
    ensures
        r@ == vault_text(*vault),
{
    vault.secret.expose_secret()
}

/// `SecretBox::new` on a boxed key: the vault holds the 32 bytes.
#[verifier::external_body]
pub(crate) fn seal_key(key: [u8; 32]) -> (r: KeyVault)
    ensures
        vault_key(r) == key@,
{
    KeyVault { secret: SecretBox::new(Box::new(key)) }
}

/// `ExposeSecret::expose_secret` of a key vault: the 32 bytes it holds.
#[verifier::external_body]
pub(crate) fn exposed_key(vault: &KeyVault) -> (r: &[u8; 32])
    ensures
        r@ == vault_key(*vault),
{
    vault.secret.expose_secret()
}

/// `Zeroize::zeroize` of a 16-byte array: every byte is zero afterwards.
#[verifier::external_body]
pub(crate) fn wipe_16(bytes: &mut [u8; 16])
    ensures
        forall|i: int| 0 <= i < 16 ==> final(bytes)[i] == 0,
    opens_invariants none
    no_unwind
{
    bytes.zeroize()
}

/// A value that can be kept in zeroizing storage. `Vault` is the storage,
/// `held` the value inside it.
pub trait Sealable: Sized + View {
    type Vault;

    spec fn held(vault: &Self::Vault) -> Self::V;

    /// Moves the value into storage.
    fn seal(self) -> (r: Self::Vault)
        ensures
            Self::held(&r) == self@,
    ;

    /// Lends the stored value.
    fn unseal(vault: &Self::Vault) -> (r: &Self)
        ensures
            r@ == Self::held(vault),
    ;
}

impl Sealable for String {
    type Vault = TextVault;

    open spec fn held(vault: &TextVault) -> Seq<char> {
        vault_text(*vault)
    }

    fn seal(self) -> (r: TextVault) {
        seal_text(self)
    }

    fn unseal(vault: &TextVault) -> (r: &String) {
        exposed_text(vault)
    }
}

} // verus!
