//! Splitting a lifetime-parameterized value into its body and its soul.
//!
//! A [`SoulAndBody<'soul, Body>`] wraps a value of `Body::PosessedBy<'soul>`.
//! [`SoulAndBody::exorcise_soul`] splits it into a [`VacantVessel`], which owns
//! the value and keeps it out of reach, and a [`Soul<'soul>`], a zero-sized
//! token for its lifetime. [`VacantVessel::reinfuse_soul`] pairs them up again
//! and gives the very value back.
//!
//! The vessel keeps `'soul` in its own type, so the pairing is checked by the
//! compiler: only a token of that lifetime fits, and `'soul` is invariant in
//! both, so it can be neither widened nor narrowed on the way.
use vstd::prelude::*;

use crate::ForLifetime;

verus! {

/// A type constructor over one lifetime that owns no borrow of its own: the
/// lifetime that a body is possessed by comes from its soul only.
pub trait Vessel: 'static + ForLifetime {
    type PosessedBy<'soul>;
}

impl<T: 'static + ForLifetime> Vessel for T {
    type PosessedBy<'soul> = T::Of<'soul>;
}

/// A zero-sized token that carries the lifetime `'soul`, invariantly.
pub struct Soul<'soul> {
    _invariant: core::marker::PhantomData<&'soul mut &'soul ()>,
}

impl<'soul> Clone for Soul<'soul> {
    fn clone(&self) -> (r: Soul<'soul>) {
        Soul { _invariant: core::marker::PhantomData }
    }
}

impl<'soul> Copy for Soul<'soul> {}

/// A value of `Body` fed the lifetime `'soul`.
pub struct SoulAndBody<'soul, Body: Vessel>(pub Body::PosessedBy<'soul>);

/// The body of a [`SoulAndBody`] without its soul: it owns the value, and only
/// hands it back out against a [`Soul<'soul>`] or to a scoped callback.
pub struct VacantVessel<'soul, Body: Vessel> {
    body: Body::PosessedBy<'soul>,
}

impl<'soul, Body: Vessel> VacantVessel<'soul, Body> {
    /// The value that the vessel holds.
    pub closed spec fn contents(&self) -> Body::PosessedBy<'soul> {
        self.body
    }

    /// The vessel that holds `body`.
    pub closed spec fn holding(body: Body::PosessedBy<'soul>) -> VacantVessel<'soul, Body> {
        VacantVessel { body }
    }
}

impl<'soul, Body: Vessel> SoulAndBody<'soul, Body> {
    fn erase_soul(self) -> (r: VacantVessel<'soul, Body>)
        ensures
            r == VacantVessel::<'soul, Body>::holding(self.0),
    {
        VacantVessel { body: self.0 }
    }

    /// Splits the value into the vessel that holds it and the token of its
    /// lifetime.
    pub fn exorcise_soul(self) -> (r: (VacantVessel<'soul, Body>, Soul<'soul>))
        ensures
            r.0 == VacantVessel::<'soul, Body>::holding(self.0),
    {
        (self.erase_soul(), Soul { _invariant: core::marker::PhantomData })
    }
}

impl<'soul, Body: Vessel> VacantVessel<'soul, Body> {
    /// Pairs the vessel with the token of its lifetime, which gives back the
    /// value that it holds.
    pub fn reinfuse_soul(self, _soul: Soul<'soul>) -> (r: SoulAndBody<'soul, Body>)
        ensures
            r.0 == self.contents(),
    {
        SoulAndBody(self.body)
    }

    /// Drops the value that the vessel holds.
    pub fn drop(self) {
        let VacantVessel { body } = self;
        let _ = body;
    }

    /// Hands the value to `yield_`, and returns what it returns.
    pub fn with<R, F: FnOnce(Body::PosessedBy<'soul>) -> R>(self, yield_: F) -> (r: R)
        requires
            yield_.requires((self.contents(),)),
        ensures
            yield_.ensures((self.contents(),), r),
    {
        yield_(self.body)
    }

    /// Lends the value to `yield_`, and returns what it returns.
    pub fn with_ref<R, F: FnOnce(&Body::PosessedBy<'soul>) -> R>(&self, yield_: F) -> (r: R)
        requires
            yield_.requires((&self.contents(),)),
        ensures
            yield_.ensures((&self.contents(),), r),
    {
        yield_(&self.body)
    }

    /// Lends the value mutably to `yield_`, and returns what it returns; the
    /// vessel then holds what `yield_` left behind.
    pub fn with_mut<R, F: FnOnce(&mut Body::PosessedBy<'soul>) -> R>(&mut self, yield_: F) -> (r: R)
        requires
            forall|v: &mut Body::PosessedBy<'soul>| *v == old(self).contents() ==> yield_.requires((v,)),
        ensures
            exists|v: &mut Body::PosessedBy<'soul>|
                {
                    &&& *v == old(self).contents()
                    &&& *final(v) == final(self).contents()
                    &&& yield_.ensures((v,), r)
                },
    {
        yield_(&mut self.body)
    }
}

/// Exorcising a soul and reinfusing it gives back the very value: the vessel
/// that exorcising makes out of `body` holds `body`.
pub proof fn lemma_round_trip<'soul, Body: Vessel>(body: Body::PosessedBy<'soul>)
    ensures
        VacantVessel::<'soul, Body>::holding(body).contents() == body,
{
}

} // verus!
