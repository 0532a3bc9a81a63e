//! Marker types of anonymous type constructors, spelled out as trait objects.
//!
//! `ForLt<dyn for<'lt> WithLifetime<'lt, Of = &'lt str>>` is the type
//! constructor `'lt ↦ &'lt str`: the trait object type says what the
//! constructor yields at every lifetime, and two spellings of the same
//! constructor are the same type. No value of these markers is ever made.
use vstd::prelude::*;

use crate::advanced::extra_arities::WithLifetimes;
use crate::advanced::WithLifetime;

verus! {

/// The marker of the one-lifetime type constructor that `T`, a
/// `dyn for<'lt> WithLifetime<'lt, Of = ...>` type, spells out.
pub struct ForLt<T: ?Sized> {
    _marker: core::marker::PhantomData<T>,
}

impl<'lt, T: ?Sized + WithLifetime<'lt>> WithLifetime<'lt> for ForLt<T> {
    type Of = T::Of;
}

/// The marker of the two-lifetime type constructor that `T`, a
/// `dyn for<'a, 'b> WithLifetimes<'a, 'b, T = ...> + Send + Sync` type, spells
/// out.
pub struct ForLtAndLt<T: ?Sized> {
    _marker: core::marker::PhantomData<T>,
}

impl<'a, 'b, T: ?Sized + WithLifetimes<'a, 'b>> WithLifetimes<'a, 'b> for ForLtAndLt<T> {
    type T = T::T;
}

} // verus!
