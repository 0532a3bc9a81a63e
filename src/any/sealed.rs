use vstd::prelude::*;

verus! {

/// The types whose canonical shapes this crate computes. Nothing outside the
/// crate can name it, so the shapes stay one per canonical type.
///
/// The generic impls ask the same of what they wrap: `&'lt T` is a local type
/// of any crate that owns `T`, so without the bound such a crate could give
/// `&'lt T` a `Remove` impl, and a shape, of its own.
pub trait Closed {}

impl Closed for i32 {}

impl Closed for String {}

impl<'lt> Closed for &'lt str {}

impl<'lt, T: Closed> Closed for &'lt T {}

impl<'lt, T: Closed> Closed for core::cell::Cell<&'lt T> {}

impl<T: 'static + Closed> Closed for super::Static<T> {}

} // verus!
