//! Run a long-lived stateful computation step by step, inspecting its
//! private state once per step.
//!
//! A computation owns some local data and repeatedly *freezes* it: it hands
//! the datum to a one-slot exchange cell ([`State`]) and suspends until the
//! driver resumes it. The scope owner ([`BoxScope`]) drives the computation
//! one suspension at a time and lets a caller-supplied inspector look at the
//! frozen datum, mutate it, and hand it back — the mutations are visible to
//! the computation when it resumes. A computation that fails poisons its
//! scope permanently; a failing inspector only loses the one generation of
//! data it was offered.

use vstd::prelude::*;

mod box_scope;

pub use box_scope::BoxScope;
pub use box_scope::Computation;
pub use box_scope::EnterError;
pub use box_scope::Resumed;
pub use box_scope::ScopeState;

verus! {

use core::marker::PhantomData;

/// A type for functions that never return.
///
/// `Never` wraps [`core::convert::Infallible`], which has no variant, so a
/// value of this type can never actually exist. A computation driven by a
/// [`BoxScope`] is expected to freeze data forever; [`Resumed::Finished`]
/// carries a `Never` so that finishing normally is impossible by
/// construction.
pub struct Never {
    inner: core::convert::Infallible,
}

/// Describes the family of data a computation exposes while frozen.
///
/// The marker type implementing `Family` names the shape of the frozen
/// datum; the associated type is the concrete datum type. Implement it once
/// per distinct shape a computation freezes, or use [`SingleFamily`] for a
/// plain owned type.
pub trait Family {
    /// The concrete type of one frozen datum of this family.
    type Family;
}

/// Helper family for plain owned types.
///
/// For any type `T`, `SingleFamily<T>` is the family whose frozen datum is
/// simply a `T`.
pub struct SingleFamily<T> {
    marker: PhantomData<T>,
}

impl<T> Family for SingleFamily<T> {
    type Family = T;
}

/// The one-slot exchange cell shared, one step at a time, between a
/// suspended computation and the scope that drives it.
///
/// The slot is either empty (the computation is running, or nothing was
/// frozen yet) or holds exactly one frozen datum awaiting inspection. Its
/// contents strictly alternate between empty and holding: only
/// [`FrozenFuture::poll`] deposits a datum, and only a later inspection
/// window or the completing poll removes it.
pub struct State<T: Family> {
    cell: Option<T::Family>,
}

impl<T: Family> State<T> {
    /// The datum currently frozen in the slot, if any.
    pub closed spec fn contents(&self) -> Option<T::Family> {
        self.cell
    }

    /// Removes the frozen datum from the slot for inspection.
    pub fn take(&mut self) -> (r: Option<T::Family>)
        ensures
            r == old(self).contents(),
            final(self).contents() is None,
    {
        self.cell.take()
    }

    /// Returns a datum to the slot after inspection.
    pub fn put(&mut self, datum: T::Family)
        requires
            old(self).contents() is None,
        ensures
            final(self).contents() == Some(datum),
    {
        self.cell = Some(datum);
    }
}

impl<T: Family> Default for State<T> {
    /// An empty slot: no borrow is pending.
    fn default() -> (r: Self)
        ensures
            r.contents() is None,
    {
        State { cell: None }
    }
}

/// Passed to a computation so that it can freeze a datum.
///
/// A capsule is the only way to produce a [`FrozenFuture`], so every
/// suspension object starts out holding exactly one datum that has not yet
/// been deposited into a slot.
pub struct TimeCapsule<T: Family> {
    marker: PhantomData<T>,
}

impl<T: Family> TimeCapsule<T> {
    /// A fresh suspension handle.
    pub fn new() -> (r: Self)
    {
        TimeCapsule { marker: PhantomData }
    }

    /// Freeze a datum, making it available to the driver of the scope.
    ///
    /// The suspension object returned carries the datum until the driver
    /// deposits it into the scope's slot with [`FrozenFuture::poll`].
    pub fn freeze(&mut self, t: T::Family) -> (r: FrozenFuture<T>)
        ensures
            r.datum() == Some(t),
    {
        FrozenFuture { mut_ref: Some(t) }
    }
}

/// What one inspection of a [`FrozenFuture`] reported.
pub enum Polled<D> {
    /// First inspection: the datum was deposited into the slot and the
    /// computation stays suspended.
    Pending,
    /// Second inspection: the slot was cleared and the datum — as the
    /// inspector left it — comes back, resuming the computation.
    Ready(D),
    /// The single-step discipline was broken: a datum was deposited while
    /// another was still frozen, or a suspension object was inspected a
    /// third time. Nothing was changed.
    Violation,
}

/// The suspension object produced by freezing a datum.
///
/// It is inspected at most twice against a slot: the first poll deposits
/// the frozen datum and reports [`Polled::Pending`]; the second clears the
/// slot and reports [`Polled::Ready`], handing the datum back. Anything
/// else is a protocol violation and fails loudly.
pub struct FrozenFuture<T: Family> {
    mut_ref: Option<T::Family>,
}

impl<T: Family> FrozenFuture<T> {
    /// The datum this suspension object still carries, if it has not yet
    /// been deposited into a slot.
    pub closed spec fn datum(&self) -> Option<T::Family> {
        self.mut_ref
    }

    /// One inspection of the suspension object against the scope's slot.
    pub fn poll(&mut self, state: &mut State<T>) -> (r: Polled<T::Family>)
        ensures
            old(self).datum() is Some && old(state).contents() is None ==> (
                r is Pending
                && final(self).datum() is None
                && final(state).contents() == old(self).datum()
            ),
            old(self).datum() is Some && old(state).contents() is Some ==> (
                r is Violation
                && *final(self) == *old(self)
                && *final(state) == *old(state)
            ),
            old(self).datum() is None && old(state).contents() is Some ==> (
                r == Polled::Ready(old(state).contents().unwrap())
                && *final(self) == *old(self)
                && final(state).contents() is None
            ),
            old(self).datum() is None && old(state).contents() is None ==> (
                r is Violation
                && *final(self) == *old(self)
                && *final(state) == *old(state)
            ),
    {
        if self.mut_ref.is_some() {
            if state.cell.is_none() {
                state.cell = self.mut_ref.take();
                Polled::Pending
            } else {
                Polled::Violation
            }
        } else {
            match state.cell.take() {
                Some(datum) => Polled::Ready(datum),
                None => Polled::Violation,
            }
        }
    }
}

} // verus!
