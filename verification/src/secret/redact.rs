//! A holder whose every rendering is the word `[REDACTED]`.

use vstd::prelude::*;

use crate::secret::vault::Sealable;

verus! {

/// What stands in place of a redacted value.
pub const REDACTED: &'static str = "[REDACTED]";

/// A secret that is never rendered. The value is reached by `expose` alone,
/// and is wiped when the holder is dropped.
pub struct Redacted<T: Sealable>(T::Vault);

impl<T: Sealable> View for Redacted<T> {
    type V = T::V;

    closed spec fn view(&self) -> T::V {
        T::held(&self.0)
    }
}

impl<T: Sealable> Redacted<T> {
    #[inline]
    pub fn new(value: T) -> (r: Self)
        ensures
            r@ == value@,
    {
        Redacted(value.seal())
    }

    #[inline]
    pub fn expose(&self) -> (r: &T)
        ensures
            r@ == self@,
    {
        T::unseal(&self.0)
    }

    /// The storage itself, for a caller that keeps the secret boxed.
    #[inline]
    pub fn into_secret(self) -> (r: T::Vault)
        ensures
            T::held(&r) == self@,
    {
        self.0
    }

    /// The rendering of the holder, whatever it holds: for debug output,
    /// for display and for serialization alike.
    pub fn to_string(&self) -> (r: String)
        ensures
            r@ == REDACTED@,
    {
        String::from_str(REDACTED)
    }
}

/// What the conversion gives is stated by the `ensures` of `from`.
impl<T: Sealable> vstd::std_specs::convert::FromSpecImpl<T> for Redacted<T> {
    open spec fn obeys_from_spec() -> bool {
        false
    }

    open spec fn from_spec(value: T) -> Self {
        arbitrary()
    }
}

impl<T: Sealable> From<T> for Redacted<T> {
    fn from(value: T) -> (r: Self)
        ensures
            r@ == value@,
    {
        Redacted::new(value)
    }
}

} // verus!
