//! The scope owner: drives a computation one frozen step at a time.

use vstd::prelude::*;

verus! {

use crate::Family;
use crate::FrozenFuture;
use crate::Never;
use crate::Polled;
use crate::State;
use crate::TimeCapsule;

/// What a computation did when it was resumed.
pub enum Resumed<T: Family> {
    /// The computation froze a datum and suspended: the suspension object
    /// it produced is handed to the driver.
    Suspended(FrozenFuture<T>),
    /// The computation finished normally. It is expected to run forever,
    /// so this variant carries [`Never`] and cannot be built.
    Finished(Never),
    /// The computation failed with an unrecoverable error of its own.
    Failed,
}

/// A single long-lived unit of sequential logic driven by a [`BoxScope`].
///
/// `resume` is called once per step: with `None` the first time, to run the
/// computation from its start, and afterwards with the datum it froze last
/// time, as the inspector left it. It reports how the step ended.
pub trait Computation<T: Family> {
    /// Runs the computation until it next freezes a datum, fails, or — in
    /// violation of its contract — finishes.
    fn resume(&mut self, capsule: &mut TimeCapsule<T>, input: Option<T::Family>) -> Resumed<T>;
}

/// Why a call to [`BoxScope::enter`] failed.
#[derive(Clone, Copy, Debug, PartialEq, Eq, Structural)]
pub enum EnterError {
    /// The scope was already poisoned; nothing was attempted.
    Poisoned,
    /// The computation failed while being resumed. The scope is now
    /// poisoned.
    Computation,
    /// The inspector failed. The generation of data it was offered is lost,
    /// but the scope stays usable.
    Inspector,
    /// The computation broke its contract: it finished instead of freezing
    /// again, or the single-step suspension discipline was violated. The
    /// scope is now poisoned.
    Violation,
}

/// The externally visible state of a scope.
pub enum ScopeState<D> {
    /// The computation has not been resumed yet.
    NotStarted,
    /// The computation is suspended; the datum most recently left for it
    /// is frozen in the slot.
    Frozen(D),
    /// The scope is permanently inert after an unrecoverable failure.
    Poisoned,
}

/// Owns a computation and its poison flag, and runs it one step per call
/// to [`enter`](BoxScope::enter).
pub struct BoxScope<T: Family, C: Computation<T>> {
    computation: C,
    capsule: TimeCapsule<T>,
    state: State<T>,
    active: Option<FrozenFuture<T>>,
    poisoned: bool,
    generations: Ghost<nat>,
}

impl<T: Family, C: Computation<T>> BoxScope<T, C> {
    /// The scope as its callers see it: not yet started, suspended on a
    /// frozen datum, or poisoned.
    pub closed spec fn status(&self) -> ScopeState<T::Family> {
        if self.poisoned {
            ScopeState::Poisoned
        } else if self.active is None {
            ScopeState::NotStarted
        } else {
            ScopeState::Frozen(self.state.contents().unwrap())
        }
    }

    /// How many generations of frozen data have been offered to an
    /// inspector so far.
    pub closed spec fn generations(&self) -> nat {
        self.generations@
    }

    /// The datum frozen in the slot of a suspended scope.
    pub closed spec fn frozen_datum(&self) -> T::Family
        recommends
            self.status() is Frozen,
    {
        self.state.contents().unwrap()
    }

    /// The datum a `Frozen` status reports is [`frozen_datum`]: a suspended
    /// scope freezes exactly one datum at a time, and this is it.
    ///
    /// [`frozen_datum`]: BoxScope::frozen_datum
    pub proof fn frozen_status_datum(&self)
        ensures
            forall|d: T::Family| self.status() == ScopeState::Frozen(d) ==> d == self.frozen_datum(),
    {
    }

    /// A live scope is either untouched, or suspended with exactly one
    /// datum frozen in its slot and one suspension object waiting to be
    /// completed.
    pub closed spec fn wf(&self) -> bool {
        !self.poisoned ==> match self.active {
            Some(fut) => fut.datum() is None && self.state.contents() is Some,
            None => self.state.contents() is None,
        }
    }

    /// Builds a scope around a computation, in its initial, not-yet-started
    /// state.
    pub fn new(computation: C) -> (r: Self)
        ensures
            r.wf(),
            r.status() is NotStarted,
            r.generations() == 0,
    {
        BoxScope {
            computation,
            capsule: TimeCapsule::new(),
            state: State::default(),
            active: None,
            poisoned: false,
            generations: Ghost(0),
        }
    }

    /// Whether the scope is permanently inert.
    pub fn is_poisoned(&self) -> (r: bool)
        ensures
            r == (self.status() is Poisoned),
    {
        self.poisoned
    }

    /// Runs one step of the computation and offers the freshly frozen
    /// datum to `inspector`.
    ///
    /// The inspector receives the datum, returns it — possibly mutated;
    /// the computation sees the mutation when it next resumes — and either
    /// a result, or `None` to report its own unrecoverable failure. A
    /// failing inspector loses the generation of data it was offered but
    /// leaves the scope usable; a failing computation poisons the scope
    /// permanently, as does a computation that breaks its contract.
    pub fn enter<R, F: FnOnce(T::Family) -> (T::Family, Option<R>)>(
        &mut self,
        inspector: F,
    ) -> (r: Result<R, EnterError>)
        requires
            old(self).wf(),
            forall|d: T::Family| #[trigger] call_requires(inspector, (d,)),
        ensures
            final(self).wf(),
            // A poisoned scope is inert: the call fails at once and has no
            // effect whatsoever.
            old(self).status() is Poisoned ==> (
                r == Err::<R, EnterError>(EnterError::Poisoned)
                && *final(self) == *old(self)
            ),
            r == Err::<R, EnterError>(EnterError::Poisoned) ==> old(self).status() is Poisoned,
            // The scope ends up poisoned exactly when it already was, or
            // the computation failed or broke its contract during this call.
            final(self).status() is Poisoned <==> (
                old(self).status() is Poisoned
                || r == Err::<R, EnterError>(EnterError::Computation)
                || r == Err::<R, EnterError>(EnterError::Violation)
            ),
            // Whenever the inspector ran — successfully or not — exactly one
            // further generation of data was consumed, and the scope stays
            // suspended on the datum the inspector handed back.
            (r is Ok || r == Err::<R, EnterError>(EnterError::Inspector)) ==> (
                final(self).status() is Frozen
                && final(self).generations() == old(self).generations() + 1
            ),
            !(r is Ok || r == Err::<R, EnterError>(EnterError::Inspector)) ==> (
                final(self).generations() == old(self).generations()
            ),
            // A success is the inspector's own result on the datum the
            // computation froze, and the datum left frozen in the scope is
            // the one the inspector returned alongside it.
            r matches Ok(out) ==> (exists|d: T::Family|
                #[trigger] call_ensures(inspector, (d,), (final(self).frozen_datum(), Some(out)))
            ),
            r == Err::<R, EnterError>(EnterError::Inspector) ==> (exists|d: T::Family|
                #[trigger] call_ensures(inspector, (d,), (final(self).frozen_datum(), None::<R>))
            ),
    {
        if self.poisoned {
            return Err(EnterError::Poisoned);
        }
        // Resume the computation up to its next freeze: on the first call
        // from its start, afterwards by completing the pending suspension,
        // which hands the previous datum back to it.
        let step = match self.active.take() {
            None => self.computation.resume(&mut self.capsule, None),
            Some(mut fut) => match fut.poll(&mut self.state) {
                Polled::Ready(d) => self.computation.resume(&mut self.capsule, Some(d)),
                _ => {
                    // Unreachable for a well-formed scope; fail loudly
                    // rather than trust the slot.
                    self.poisoned = true;
                    return Err(EnterError::Violation);
                },
            },
        };
        let mut fut = match step {
            Resumed::Suspended(fut) => fut,
            Resumed::Finished(_) => {
                // The computation finished instead of freezing again: a
                // contract violation (and unreachable, as `Never` has no
                // value).
                self.poisoned = true;
                return Err(EnterError::Violation);
            },
            Resumed::Failed => {
                self.poisoned = true;
                return Err(EnterError::Computation);
            },
        };
        match fut.poll(&mut self.state) {
            Polled::Pending => {},
            _ => {
                // The computation handed over a suspension object that was
                // not freshly frozen.
                self.poisoned = true;
                return Err(EnterError::Violation);
            },
        }
        // The slot now holds the fresh datum: open the inspection window.
        let datum = match self.state.take() {
            Some(datum) => datum,
            None => {
                self.poisoned = true;
                return Err(EnterError::Violation);
            },
        };
        self.active = Some(fut);
        let (left, res) = inspector(datum);
        self.state.put(left);
        self.generations = Ghost(self.generations@ + 1);
        match res {
            Some(out) => {
                // Witness for the provenance of the result: this very call
                // of the inspector produced it.
                proof {
                    assert(call_ensures(inspector, (datum,), (self.frozen_datum(), Some(out))));
                }
                Ok(out)
            },
            None => Err(EnterError::Inspector),
        }
    }
}

} // verus!
