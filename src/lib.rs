//! Generic generics over lifetimes: a marker type `M : ForLifetime` names, for
//! every lifetime `'lt`, a concrete type `M::Of<'lt>`.
//!
//! On top of that encoding the crate offers:
//!   - [`markers`]: marker types for type constructors that are spelled out
//!     as trait objects, such as [`ForRef<T>`];
//!   - [`soul_split`]: splitting a lifetime-parameterized value into an opaque
//!     vessel and the lifetime token that is needed to get it back;
//!   - [`split`]: the plain form of that split, a value kept with an invariant
//!     marker of its lifetime;
//!   - [`any`]: a downcastable dynamic box for values that hold one shared,
//!     possibly non-`'static`, lifetime;
//!   - [`advanced`]: other arities (two lifetimes, a type, a lifetime and a
//!     type, covariant markers) and type-equality casts;
//!   - [`type_eq`]: the same type-equality casts, plus [`type_eq::TypeGat`].
use vstd::prelude::*;

pub mod advanced;
pub mod any;
pub mod markers;
mod seal;
pub mod soul_split;
pub mod split;
pub mod type_eq;

pub use advanced::WithLifetime;
pub use ForLifetime as ForLt;
use markers::ForLt as ForLtMarker;

verus! {

/// A type constructor over one lifetime: `Self::Of<'lt>` for every `'lt`.
///
/// It cannot be implemented directly: every type that implements
/// [`WithLifetime<'lt>`] for every lifetime `'lt` (with a `Sized` result) gets
/// it through the one blanket impl, which keeps a single, well-defined way to
/// instantiate a marker at any lifetime.
pub trait ForLifetime: seal::WithLifetimeForAny {
    type Of<'lt>;
}

impl<T: ?Sized> ForLifetime for T where T: for<'any> WithLifetime<'any> {
    type Of<'lt> = <T as WithLifetime<'lt>>::Of;
}

/// The constant type constructor: `ForFixed<T>::Of<'lt> = T`.
pub type ForFixed<T> = ForLtMarker<dyn for<'lt> WithLifetime<'lt, Of = T>>;

/// The shared-reference type constructor: `ForRef<T>::Of<'lt> = &'lt T`.
pub type ForRef<T> = ForLtMarker<dyn for<'lt> WithLifetime<'lt, Of = &'lt T>>;

/// The exclusive-reference type constructor: `ForRefMut<T>::Of<'lt> = &'lt mut T`.
pub type ForRefMut<T> = ForLtMarker<dyn for<'lt> WithLifetime<'lt, Of = &'lt mut T>>;

} // verus!
