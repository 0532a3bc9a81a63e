use vstd::prelude::*;

use crate::advanced::WithLifetime;

verus! {

/// Held by every type that has a [`WithLifetime<'lt>`] impl for every `'lt`.
///
/// This module is private, so nothing outside the crate can name this trait:
/// the only impls of the traits that have it as a super-trait are the crate's
/// blanket ones.
pub trait WithLifetimeForAny {}

impl<T: ?Sized> WithLifetimeForAny for T where T: for<'any> WithLifetime<'any> {}

} // verus!
