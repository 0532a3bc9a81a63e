use vstd::prelude::*;

verus! {

/// Held by every type that has a [`WithLifetimes<'a, 'b>`] impl for all
/// lifetimes `'a` and `'b`; it keeps [`ForLtAndLt`](super::ForLtAndLt) from
/// being implemented in any other way.
pub trait Sealed: Send + Sync {}

/// The two-lifetime step of a type constructor: the type that `Self` yields
/// when fed `'a` and `'b`.
pub trait WithLifetimes<'a, 'b> {
    type T;
}

impl<T: ?Sized + Send + Sync> Sealed for T where T: for<'a, 'b> WithLifetimes<'a, 'b> {}

} // verus!
