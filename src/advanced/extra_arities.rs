//! [`ForLt`](crate::ForLt)-like type constructors of other arities:
//!   - [`ForTy`], over a type parameter;
//!   - [`ForLtAndLt`], over two lifetime parameters;
//!   - [`ForLtAndTy`], over a lifetime and a type parameter;
//!   - [`CovariantForLt`], over one lifetime, with a lifetime-shrinking cast.
use vstd::prelude::*;

pub(crate) mod for_lt_and_lt;

pub use for_lt_and_lt::WithLifetimes;

verus! {

/// A type constructor over a type parameter: `Self` applied to `T` is
/// `<Self as ForTy<T>>::Of`.
///
/// There is no `for<T>` quantification, so the type parameter is a parameter
/// of the trait, and a marker type gets one blanket impl over `T`:
///
/// ```rust,ignore
/// struct Vec_;
///
/// impl<T> ForTy<T> for Vec_ {
///     type Of = Vec<T>;
/// }
/// ```
pub trait ForTy<T>: Send + Sync {
    type Of;
}

/// A type constructor over two lifetimes: `Self::Of<'a, 'b>`.
///
/// It cannot be implemented directly: every type that implements
/// [`WithLifetimes<'a, 'b>`] for all lifetimes `'a` and `'b` gets it through
/// the one blanket impl.
pub trait ForLtAndLt: for_lt_and_lt::Sealed {
    type Of<'a, 'b>;
}

impl<T: ?Sized + Send + Sync> ForLtAndLt for T where T: for<'a, 'b> WithLifetimes<'a, 'b> {
    type Of<'a, 'b> = <T as WithLifetimes<'a, 'b>>::T;
}

/// A type constructor over a lifetime and a type parameter: `Self` applied to
/// `'lt` and `T` is `<Self as ForLtAndTy<T>>::Of<'lt>`.
///
/// As for [`ForTy`], the type parameter is a parameter of the trait.
pub trait ForLtAndTy<T>: Send + Sync {
    type Of<'lt>;
}

/// A type constructor over one lifetime that is covariant in it: a value of
/// `Self::Of<'humongous>` is a value of `Self::Of<'smol>` whenever
/// `'humongous : 'smol`.
///
/// An implementer shows covariance once, by writing `covariant_cast` as the
/// identity: that body only compiles when the type is covariant. Callers then
/// shrink lifetimes through it.
pub trait CovariantForLt {
    type Of<'lt>;

    /// Shrinks the lifetime; the value is unchanged.
    fn covariant_cast<'smol, 'humongous: 'smol>(it: Self::Of<'humongous>) -> (r: Self::Of<'smol>)
        ensures
            r == it,
    ;
}

} // verus!
