//! A holder that renders as a short mask of what it holds.

use vstd::prelude::*;

use crate::secret::vault::Sealable;

verus! {

/// A value with a short form that may be shown in place of it.
pub trait Maskable: View {
    /// The mask of a value, in terms of its view.
    spec fn mask_of(value: Self::V) -> Seq<char>;

    fn mask(&self) -> (r: String)
        ensures
            r@ == Self::mask_of(self@),
    ;
}

/// A maskable value that can be kept in zeroizing storage.
pub trait MaskableSecret: Maskable + Sealable {

}

impl<T: Maskable + Sealable> MaskableSecret for T {

}

/// A value that is rendered as its mask. The value itself is reached by
/// `expose` alone, and is wiped when the holder is dropped.
pub struct Masked<T: MaskableSecret>(T::Vault);

impl<T: MaskableSecret> View for Masked<T> {
    type V = T::V;

    closed spec fn view(&self) -> T::V {
        T::held(&self.0)
    }
}

impl<T: MaskableSecret> Masked<T> {
    #[inline]
    pub fn new(value: T) -> (r: Self)
        ensures
            r@ == value@,
    {
        Masked(value.seal())
    }

    #[inline]
    pub fn expose(&self) -> (r: &T)
        ensures
            r@ == self@,
    {
        T::unseal(&self.0)
    }

    /// The rendering of the holder: the mask of the value, for debug
    /// output, for display and for serialization alike.
    pub fn to_string(&self) -> (r: String)
        ensures
            r@ == T::mask_of(self@),
    {
        T::unseal(&self.0).mask()
    }
}

/// What the conversion gives is stated by the `ensures` of `from`.
impl<T: MaskableSecret> vstd::std_specs::convert::FromSpecImpl<T> for Masked<T> {
    open spec fn obeys_from_spec() -> bool {
        false
    }

    open spec fn from_spec(value: T) -> Self {
        arbitrary()
    }
}

impl<T: MaskableSecret> From<T> for Masked<T> {
    fn from(value: T) -> (r: Self)
        ensures
            r@ == value@,
    {
        Masked::new(value)
    }
}

} // verus!
