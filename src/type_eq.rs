//! Type equality as a trait bound, with casts over plain types and over type
//! constructors.
//!
//! `T : Is<EqTo = U>` says that `T` and `U` are the same type, but Rust still
//! keeps them apart under that bound: [`cast_into`] and [`cast_from`] carry a
//! value across, and [`TypeGat`] does the same for `Wrapper<T>` and
//! `Wrapper<U>`. Every cast returns its argument unchanged.
use vstd::prelude::*;

verus! {

/// `T : Is<EqTo = U>` holds exactly when `T` and `U` are the same type.
pub trait Is {
    type EqTo: ?Sized;
}

impl<T: ?Sized> Is for T {
    type EqTo = T;
}

/// Turns a value of type `T` into the same value of type `T::EqTo`.
pub fn cast_into<T>(it: T) -> (r: <T as Is>::EqTo)
    ensures
        r == it,
{
    it
}

/// Turns a value of type `T::EqTo` into the same value of type `T`.
pub fn cast_from<T>(it: <T as Is>::EqTo) -> (r: T)
    ensures
        r == it,
{
    it
}

/// A type constructor over a type parameter, `Self` applied to `T` being
/// `Self::Of`, with casts between `Self` applied to `T` and to `T::EqTo`.
///
/// ```rust,ignore
/// struct Vec_;
///
/// impl<T> TypeGat<T> for Vec_ {
///     type Of = Vec<T>;
/// }
///
/// fn demo<T : Is<EqTo = u32>>(v: Vec<T>) -> Vec<u32> {
///     <Vec_ as TypeGat<T>>::cast_into(v)
/// }
/// ```
pub trait TypeGat<T> {
    type Of;

    /// From `Self` applied to `T` to `Self` applied to `T::EqTo`.
    fn cast_into(it: <Self as TypeGat<T>>::Of) -> (r: <Self as TypeGat<<T as Is>::EqTo>>::Of)
        ensures
            r == it,
    {
        it
    }

    /// From `Self` applied to `T::EqTo` to `Self` applied to `T`.
    fn cast_from(it: <Self as TypeGat<<T as Is>::EqTo>>::Of) -> (r: <Self as TypeGat<T>>::Of)
        ensures
            r == it,
    {
        it
    }
}

} // verus!
