//! Plain wrappers that render as a redaction or as a mask. They keep what
//! they hold as it is; the holders in `secret` also wipe it when dropped.

use vstd::prelude::*;

pub use crate::secret::mask::Maskable;
pub use crate::secret::redact::REDACTED;

verus! {

/// A wrapper for redacting sensitive information in logs and outputs: it
/// is rendered as the word `[REDACTED]`, whatever it holds.
#[derive(PartialEq, Eq)]
pub struct Redacted<T>(T);

impl<T: Clone> Clone for Redacted<T> {
    fn clone(&self) -> (r: Self)
        ensures
            call_ensures(T::clone, (&self@,), r@),
    {
        Redacted(self.0.clone())
    }
}

impl<T> View for Redacted<T> {
    type V = T;

    closed spec fn view(&self) -> T {
        self.0
    }
}

impl<T> Redacted<T> {
    pub fn inner_ref(&self) -> (r: &T)
        ensures
            *r == self@,
    {
        &self.0
    }

    /// The rendering of the wrapper, for debug output and for display.
    pub fn to_string(&self) -> (r: String)
        ensures
            r@ == REDACTED@,
    {
        String::from_str(REDACTED)
    }
}

/// What the conversion gives is stated by the `ensures` of `from`.
impl<T> vstd::std_specs::convert::FromSpecImpl<T> for Redacted<T> {
    open spec fn obeys_from_spec() -> bool {
        false
    }

    open spec fn from_spec(value: T) -> Self {
        arbitrary()
    }
}

impl<T> From<T> for Redacted<T> {
    fn from(value: T) -> (r: Self)
        ensures
            r@ == value,
    {
        Redacted(value)
    }
}

/// A wrapper for masking sensitive information in logs and outputs: it is
/// rendered as the mask of what it holds.
#[derive(PartialEq, Eq)]
pub struct Masked<T: Maskable>(T);

impl<T: Maskable + Clone> Clone for Masked<T> {
    fn clone(&self) -> (r: Self)
        ensures
            call_ensures(T::clone, (&self.inner(),), r.inner()),
    {
        Masked(self.0.clone())
    }
}

impl<T: Maskable> Masked<T> {
    /// What the wrapper holds.
    pub closed spec fn inner(&self) -> T {
        self.0
    }

    pub fn inner_ref(&self) -> (r: &T)
        ensures
            *r == self.inner(),
    {
        &self.0
    }

    /// The rendering of the wrapper, for debug output and for display.
    pub fn to_string(&self) -> (r: String)
        ensures
            r@ == T::mask_of(self.inner()@),
    {
        self.0.mask()
    }
}

/// What the conversion gives is stated by the `ensures` of `from`.
impl<T: Maskable> vstd::std_specs::convert::FromSpecImpl<T> for Masked<T> {
    open spec fn obeys_from_spec() -> bool {
        false
    }

    open spec fn from_spec(value: T) -> Self {
        arbitrary()
    }
}

impl<T: Maskable> From<T> for Masked<T> {
    fn from(value: T) -> (r: Self)
        ensures
            r.inner() == value,
    {
        Masked(value)
    }
}

} // verus!
