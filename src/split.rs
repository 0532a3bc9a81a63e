//! The plain form of a lifetime split: a value of `Body::Of<'soul>` kept
//! together with an invariant marker of its lifetime `'soul`.
use vstd::prelude::*;

use crate::ForLifetime;

verus! {

/// A value of `Body::Of<'soul>`, held with an invariant marker of `'soul`.
pub struct Split<'soul, Body: ForLifetime> {
    _soul: core::marker::PhantomData<&'soul mut &'soul ()>,
    carcass: Body::Of<'soul>,
}

impl<'soul, Body: ForLifetime> Split<'soul, Body> {
    /// The value that the split holds.
    pub closed spec fn body(&self) -> Body::Of<'soul> {
        self.carcass
    }

    /// Gives back the value that the split holds.
    pub fn into_inner(self) -> (r: Body::Of<'soul>)
        ensures
            r == self.body(),
    {
        self.carcass
    }
}

/// Holds `value` with the marker of its lifetime.
pub fn soul_split<'soul, Body: ForLifetime>(value: Body::Of<'soul>) -> (r: Split<'soul, Body>)
    ensures
        r.body() == value,
{
    Split { _soul: core::marker::PhantomData, carcass: value }
}

impl<'soul, Body: ForLifetime> core::ops::Deref for Split<'soul, Body> {
    type Target = Body::Of<'soul>;

    fn deref(&self) -> (r: &Body::Of<'soul>)
        ensures
            *r == self.body(),
    {
        &self.carcass
    }
}

} // verus!
