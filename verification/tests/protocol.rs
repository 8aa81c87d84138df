//! The suspension protocol at slot level: deposit, inspect, complete,
//! and the loud failures when the single-step discipline is broken.

use nolife::BoxScope;
use nolife::Computation;
use nolife::EnterError;
use nolife::FrozenFuture;
use nolife::Polled;
use nolife::Resumed;
use nolife::SingleFamily;
use nolife::State;
use nolife::TimeCapsule;

#[test]
fn freeze_deposit_inspect_complete() {
    let mut capsule: TimeCapsule<SingleFamily<u32>> = TimeCapsule::new();
    let mut slot: State<SingleFamily<u32>> = State::default();
    let mut fut: FrozenFuture<SingleFamily<u32>> = capsule.freeze(7);

    // first inspection deposits the datum and suspends
    assert!(matches!(fut.poll(&mut slot), Polled::Pending));

    // the inspection window sees the datum and may replace it
    let datum: u32 = slot.take().unwrap();
    assert_eq!(datum, 7);
    slot.put(datum + 100);

    // second inspection clears the slot and hands the datum back
    assert!(matches!(fut.poll(&mut slot), Polled::Ready(107)));
    assert!(slot.take().is_none());
}

#[test]
fn two_outstanding_borrows_fail_loudly() {
    let mut capsule: TimeCapsule<SingleFamily<u32>> = TimeCapsule::new();
    let mut slot: State<SingleFamily<u32>> = State::default();
    let mut first: FrozenFuture<SingleFamily<u32>> = capsule.freeze(1);
    let mut second: FrozenFuture<SingleFamily<u32>> = capsule.freeze(2);

    assert!(matches!(first.poll(&mut slot), Polled::Pending));
    // a second deposit while one datum is still frozen is refused
    assert!(matches!(second.poll(&mut slot), Polled::Violation));
    // and the frozen datum is untouched
    assert_eq!(slot.take(), Some(1));
}

#[test]
fn third_inspection_fails_loudly() {
    let mut capsule: TimeCapsule<SingleFamily<u32>> = TimeCapsule::new();
    let mut slot: State<SingleFamily<u32>> = State::default();
    let mut fut: FrozenFuture<SingleFamily<u32>> = capsule.freeze(3);

    assert!(matches!(fut.poll(&mut slot), Polled::Pending));
    let datum: u32 = slot.take().unwrap();
    slot.put(datum);
    assert!(matches!(fut.poll(&mut slot), Polled::Ready(3)));
    assert!(matches!(fut.poll(&mut slot), Polled::Violation));
}

/// Hands the driver a suspension object it has already exhausted against
/// a slot of its own, breaking the freeze contract.
struct Exhausting;

impl Computation<SingleFamily<u32>> for Exhausting {
    fn resume(
        &mut self,
        capsule: &mut TimeCapsule<SingleFamily<u32>>,
        _input: Option<u32>,
    ) -> Resumed<SingleFamily<u32>> {
        let mut private_slot: State<SingleFamily<u32>> = State::default();
        let mut fut: FrozenFuture<SingleFamily<u32>> = capsule.freeze(5);
        let _ = fut.poll(&mut private_slot);
        let _ = private_slot.take();
        let _ = fut.poll(&mut private_slot);
        Resumed::Suspended(fut)
    }
}

#[test]
fn stale_suspension_poisons_the_scope() {
    let mut scope = BoxScope::new(Exhausting);

    assert_eq!(
        scope.enter(|x: u32| (x, Some(x))),
        Err(EnterError::Violation)
    );
    assert!(scope.is_poisoned());
    assert_eq!(
        scope.enter(|x: u32| (x, Some(x))),
        Err(EnterError::Poisoned)
    );
}
