//! The building blocks of [`ForLifetime`](crate::ForLifetime), and its
//! generalizations.
use vstd::prelude::*;

pub mod extra_arities;
pub mod type_eq;

verus! {

/// The one-lifetime step of a type constructor: the type that `Self` yields
/// when fed `'lt`.
///
/// A marker type that implements this for every lifetime is a
/// [`ForLifetime`](crate::ForLifetime) and a [`ForLifetimeMaybeUnsized`].
pub trait WithLifetime<'lt>: Send + Sync {
    type Of;
}

/// Same as [`ForLifetime`](crate::ForLifetime), but a bound on it does not
/// let callers assume that `Self::Of<'lt>` is `Sized`.
pub trait ForLifetimeMaybeUnsized: crate::seal::WithLifetimeForAny {
    type Of<'lt>: ?Sized;
}

impl<T: ?Sized> ForLifetimeMaybeUnsized for T where T: for<'any> WithLifetime<'any> {
    type Of<'lt> = <T as WithLifetime<'lt>>::Of;
}

} // verus!
