//! A downcastable dynamic box for values that hold one shared lifetime `'lt`,
//! which need not be `'static`.
//!
//! Each type that can go in the box has a canonical form, `Remove::Static`,
//! with `'lt` replaced by `'static`, and the canonical form gives `'lt` back
//! through `Put<'lt>`: `<T::Static as Put<'lt>>::Infected = T`. The box
//! identifies what it holds by the [`Shape`] of that canonical form, a tag
//! built from the type's structure. Two types inside one box type share `'lt`,
//! so equal shapes mean equal types.
//!
//! The box answers `is::<U>()` exactly. Taking the value back out as a `U`
//! reinterprets a pointer, which is left to callers: they do it only after
//! `is::<U>()` has said yes.
use vstd::prelude::*;

mod sealed;

verus! {

/// Relies on `core::cell::Cell` as a type only: a `Cell<&T>` value is carried
/// through a box whole, and nothing of what it holds is read.
#[verifier::external_type_specification]
#[verifier::external_body]
#[verifier::reject_recursive_types(T)]
pub struct ExCell<T: ?Sized>(core::cell::Cell<T>);

/// The structure of a canonical (`'static`) type, used as its identity tag.
pub enum Shape {
    /// `i32`.
    I32,
    /// `String`.
    Text,
    /// `str`, under a reference: `&str` is `Ref(Str)`.
    Str,
    /// `&T`, with the shape of `T`.
    Ref(Box<Shape>),
    /// `Cell<&T>`, with the shape of `T`.
    CellRef(Box<Shape>),
    /// `Static<T>`, with the shape of `T`.
    Tagged(Box<Shape>),
}

/// Compares two shapes structurally.
pub fn same_shape(a: &Shape, b: &Shape) -> (r: bool)
    ensures
        r == (*a == *b),
    decreases a,
{
    match (a, b) {
        (Shape::I32, Shape::I32) => true,
        (Shape::Text, Shape::Text) => true,
        (Shape::Str, Shape::Str) => true,
        (Shape::Ref(x), Shape::Ref(y)) => same_shape(x, y),
        (Shape::CellRef(x), Shape::CellRef(y)) => same_shape(x, y),
        (Shape::Tagged(x), Shape::Tagged(y)) => same_shape(x, y),
        _ => false,
    }
}

impl PartialEq for Shape {
    fn eq(&self, o: &Shape) -> (r: bool) {
        same_shape(self, o)
    }
}

impl vstd::std_specs::cmp::PartialEqSpecImpl for Shape {
    open spec fn obeys_eq_spec() -> bool {
        true
    }

    open spec fn eq_spec(&self, o: &Shape) -> bool {
        *self == *o
    }
}

/// Feeds the lifetime `'lt` to a canonical (`'static`) type: `Self::Infected`
/// is `Self` with `'lt` in place of its `'static`.
pub trait Put<'lt> {
    type Infected;
}

impl<'lt> Put<'lt> for String {
    type Infected = Self;
}

impl<'lt> Put<'lt> for i32 {
    type Infected = Self;
}

impl<'lt> Put<'lt> for &'static str {
    type Infected = &'lt str;
}

impl<'lt, T: Put<'lt>> Put<'lt> for &'static T {
    type Infected = &'lt T::Infected;
}

impl<'lt, T: Put<'lt>> Put<'lt> for core::cell::Cell<&'static T> {
    type Infected = core::cell::Cell<&'lt T::Infected>;
}

/// Takes the lifetime `'lt` out of a type: `Self::Static` is `Self` with
/// `'static` in place of `'lt`, and putting `'lt` back into it gives `Self`.
pub trait Remove<'lt>: 'lt + sealed::Closed {
    type Static: 'static + Put<'lt, Infected = Self>;

    /// The shape of `Self::Static`.
    spec fn shape_spec() -> Shape;

    /// Computes the shape of `Self::Static`.
    fn static_shape() -> (r: Shape)
        ensures
            r == Self::shape_spec(),
    ;
}

impl<'lt> Remove<'lt> for String {
    type Static = Self;

    open spec fn shape_spec() -> Shape {
        Shape::Text
    }

    fn static_shape() -> (r: Shape) {
        Shape::Text
    }
}

impl<'lt> Remove<'lt> for i32 {
    type Static = Self;

    open spec fn shape_spec() -> Shape {
        Shape::I32
    }

    fn static_shape() -> (r: Shape) {
        Shape::I32
    }
}

impl<'lt> Remove<'lt> for &'lt str {
    type Static = &'static str;

    open spec fn shape_spec() -> Shape {
        Shape::Ref(Box::new(Shape::Str))
    }

    fn static_shape() -> (r: Shape) {
        Shape::Ref(Box::new(Shape::Str))
    }
}

impl<'lt, T: Remove<'lt>> Remove<'lt> for &'lt T {
    type Static = &'static T::Static;

    open spec fn shape_spec() -> Shape {
        Shape::Ref(Box::new(T::shape_spec()))
    }

    fn static_shape() -> (r: Shape) {
        Shape::Ref(Box::new(T::static_shape()))
    }
}

impl<'lt, T: Remove<'lt>> Remove<'lt> for core::cell::Cell<&'lt T> {
    type Static = core::cell::Cell<&'static T::Static>;

    open spec fn shape_spec() -> Shape {
        Shape::CellRef(Box::new(T::shape_spec()))
    }

    fn static_shape() -> (r: Shape) {
        Shape::CellRef(Box::new(T::static_shape()))
    }
}

/// Wraps a `'static` value so that it goes in a box of any lifetime and keeps a
/// shape of its own: `Static(&'static i32)` and a borrowed `&'lt i32` never
/// share a tag, so the `'static` reference comes back out as `'static`. The
/// wrapped type is itself one of this module's types, at `'static`.
pub struct Static<T: 'static>(pub T);

impl<'lt, T: 'static> Put<'lt> for Static<T> {
    type Infected = Self;
}

impl<'lt, T: Remove<'static>> Remove<'lt> for Static<T> {
    type Static = Self;

    open spec fn shape_spec() -> Shape {
        Shape::Tagged(Box::new(T::shape_spec()))
    }

    fn static_shape() -> (r: Shape) {
        Shape::Tagged(Box::new(T::static_shape()))
    }
}

/// The `dyn`-safe face of a [`Remove<'lt>`] value: `dyn MyAny<'lt>` holds a
/// value of any such type, and knows its shape.
pub trait MyAny<'lt>: 'lt {
    /// The shape of the canonical form of the value's type.
    spec fn dyn_shape_spec(&self) -> Shape;

    /// Computes the shape of the canonical form of the value's type.
    fn dyn_type_shape(&self) -> (r: Shape)
        ensures
            r == self.dyn_shape_spec(),
    ;
}

impl<'lt, T: Remove<'lt>> MyAny<'lt> for T {
    open spec fn dyn_shape_spec(&self) -> Shape {
        T::shape_spec()
    }

    fn dyn_type_shape(&self) -> (r: Shape) {
        T::static_shape()
    }
}

impl<'lt> dyn MyAny<'lt> {
    /// Whether the value is of type `U`: the canonical form of its type has
    /// the shape of `U`'s.
    pub fn is<U: Remove<'lt>>(&self) -> (r: bool)
        ensures
            r == (self.dyn_shape_spec() == U::shape_spec()),
    {
        let held = self.dyn_type_shape();
        let asked = U::static_shape();
        held == asked
    }
}

/// An owned `dyn MyAny<'lt>`: a value of some [`Remove<'lt>`] type, with the
/// type erased.
pub struct AnyBox<'lt> {
    inner: Box<dyn MyAny<'lt>>,
}

impl<'lt> AnyBox<'lt> {
    /// The shape of the canonical form of the held value's type.
    pub closed spec fn shape(&self) -> Shape {
        self.inner.dyn_shape_spec()
    }

    /// Whether the held value is of type `U`.
    pub fn is<U: Remove<'lt>>(&self) -> (r: bool)
        ensures
            r == (self.shape() == U::shape_spec()),
    {
        self.inner.is::<U>()
    }

    /// The held value, as a `dyn MyAny<'lt>`.
    pub fn as_dyn(&self) -> &dyn MyAny<'lt> {
        &*self.inner
    }

    /// The box itself, as a `Box<dyn MyAny<'lt>>`.
    pub fn into_dyn(self) -> Box<dyn MyAny<'lt>> {
        self.inner
    }
}

/// Erases the type of `it` into a box whose tag is the shape of `T`.
pub fn coerce<'lt, T: Remove<'lt>>(it: T) -> (r: AnyBox<'lt>)
    ensures
        r.shape() == T::shape_spec(),
{
    let boxed: Box<T> = Box::new(it);
    AnyBox { inner: boxed }
}

/// A box that `coerce::<T>` made reports `is::<U>()` exactly when `T` and `U`
/// have canonical forms of the same shape.
pub proof fn lemma_is_after_coerce<'lt, T: Remove<'lt>, U: Remove<'lt>>(boxed: AnyBox<'lt>)
    requires
        boxed.shape() == T::shape_spec(),
    ensures
        (boxed.shape() == U::shape_spec()) == (T::shape_spec() == U::shape_spec()),
{
}

/// Two reference types share a shape exactly when their referents do, so
/// nesting never makes distinct types match.
pub proof fn lemma_ref_shape_injective<'lt, T: Remove<'lt>, U: Remove<'lt>>()
    ensures
        (<&'lt T as Remove<'lt>>::shape_spec() == <&'lt U as Remove<'lt>>::shape_spec())
            == (T::shape_spec() == U::shape_spec()),
{
    if <&'lt T as Remove<'lt>>::shape_spec() == <&'lt U as Remove<'lt>>::shape_spec() {
        assert(*Box::new(T::shape_spec()) == *Box::new(U::shape_spec()));
    }
}

/// Two `Cell<&_>` types share a shape exactly when their referents do.
pub proof fn lemma_cell_shape_injective<'lt, T: Remove<'lt>, U: Remove<'lt>>()
    ensures
        (<core::cell::Cell<&'lt T> as Remove<'lt>>::shape_spec()
            == <core::cell::Cell<&'lt U> as Remove<'lt>>::shape_spec()) == (T::shape_spec()
            == U::shape_spec()),
{
    if <core::cell::Cell<&'lt T> as Remove<'lt>>::shape_spec()
        == <core::cell::Cell<&'lt U> as Remove<'lt>>::shape_spec() {
        assert(*Box::new(T::shape_spec()) == *Box::new(U::shape_spec()));
    }
}

/// A `Static`-wrapped value never shares a tag with a value of a type that is
/// not wrapped: not with a reference of the box's lifetime (so a tagged
/// `&'static i32` and a borrowed `&'lt i32` differ), an owned `i32` or
/// `String`, or a `Cell<&_>`, whatever they refer to.
pub proof fn lemma_static_shape_distinct<'lt, T: Remove<'static>, U: Remove<'lt>>()
    ensures
        <Static<T> as Remove<'lt>>::shape_spec() != <&'lt U as Remove<'lt>>::shape_spec(),
        <Static<T> as Remove<'lt>>::shape_spec() != <core::cell::Cell<&'lt U> as Remove<'lt>>::shape_spec(),
        <Static<T> as Remove<'lt>>::shape_spec() != <i32 as Remove<'lt>>::shape_spec(),
        <Static<T> as Remove<'lt>>::shape_spec() != <String as Remove<'lt>>::shape_spec(),
{
}

/// Two `Static`-wrapped types share a tag exactly when the wrapped types do.
pub proof fn lemma_static_shape_injective<'lt, T: Remove<'static>, U: Remove<'static>>()
    ensures
        (<Static<T> as Remove<'lt>>::shape_spec() == <Static<U> as Remove<'lt>>::shape_spec())
            == (<T as Remove<'static>>::shape_spec() == <U as Remove<'static>>::shape_spec()),
{
    if <Static<T> as Remove<'lt>>::shape_spec() == <Static<U> as Remove<'lt>>::shape_spec() {
        assert(*Box::new(<T as Remove<'static>>::shape_spec()) == *Box::new(
            <U as Remove<'static>>::shape_spec(),
        ));
    }
}

} // verus!
