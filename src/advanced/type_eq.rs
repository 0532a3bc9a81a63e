//! Type equality as a trait bound.
//!
//! Where an equality constraint such as `T::Of<'s> = &'s str` cannot be
//! written or is mishandled, the bound `T::Of<'s> : Is<EqTo = &'s str>` says
//! the same. Rust still treats the two sides as distinct types under such a
//! bound, so the casts of this module carry a value from one side to the
//! other. Each of them returns its argument unchanged.
use vstd::prelude::*;

use crate::advanced::extra_arities::ForTy;

verus! {

/// `T : Is<EqTo = U>` holds exactly when `T` and `U` are the same type.
pub trait Is {
    type EqTo: ?Sized;
}

impl<T: ?Sized> Is for T {
    type EqTo = T;
}

/// Given `T : Is<EqTo = U>`, turns a value of type `T` into the same value of
/// type `U`.
pub fn cast_right<T>(it: T) -> (r: <T as Is>::EqTo)
    ensures
        r == it,
{
    it
}

/// Given `T : Is<EqTo = U>`, turns a value of type `U` into the same value of
/// type `T`.
pub fn cast_left<T>(it: <T as Is>::EqTo) -> (r: T)
    ensures
        r == it,
{
    it
}

/// Given `T : Is<EqTo = U>`, turns a `Wrapper`-of-`T` value into the same
/// `Wrapper`-of-`U` value (`Vec<T>` into `Vec<U>`, say).
pub fn cast_wrapper_right<Wrapper: ForTy<T>, T>(
    it: <Wrapper as ForTy<T>>::Of,
) -> (r: <Wrapper as ForTy<<T as Is>::EqTo>>::Of)
    ensures
        r == it,
{
    it
}

/// Given `T : Is<EqTo = U>`, turns a `Wrapper`-of-`U` value into the same
/// `Wrapper`-of-`T` value.
pub fn cast_wrapper_left<Wrapper: ForTy<T>, T>(
    it: <Wrapper as ForTy<<T as Is>::EqTo>>::Of,
) -> (r: <Wrapper as ForTy<T>>::Of)
    ensures
        r == it,
{
    it
}

} // verus!
