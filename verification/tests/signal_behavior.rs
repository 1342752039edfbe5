use on_demand_sync::bounded::BoundedStateSignal;
use on_demand_sync::errors::CapacityExceeded;
use on_demand_sync::signal::StateSignal;
use on_demand_sync::signal::StateValue;
use on_demand_sync::signal::WaitOutcome;
use on_demand_sync::single_slot::SingleSlotSignal;

#[test]
fn publish_wakes_every_registered_waiter() {
    let mut signal = StateSignal::new();
    assert_eq!(
        signal.wait_until_changed(StateValue::NotReady, 1),
        WaitOutcome::Pending
    );
    assert_eq!(
        signal.wait_until_changed(StateValue::NotReady, 2),
        WaitOutcome::Pending
    );
    assert_eq!(
        signal.wait_until_changed(StateValue::NotReady, 3),
        WaitOutcome::Pending
    );
    assert_eq!(signal.waiter_count(), 3);

    let woken = signal.publish(StateValue::Ready(1));
    assert_eq!(woken, vec![1, 2, 3]);
    assert_eq!(signal.waiter_count(), 0);

    // each resumed task re-reads the state and finds it changed
    for token in woken {
        assert_eq!(
            signal.wait_until_changed(StateValue::NotReady, token),
            WaitOutcome::Ready
        );
    }
}

#[test]
fn changed_state_returns_ready_without_queueing() {
    let mut signal = StateSignal::new();
    let woken = signal.publish(StateValue::Ready(7));
    assert!(woken.is_empty());
    assert_eq!(signal.current_state(), StateValue::Ready(7));
    assert_eq!(
        signal.wait_until_changed(StateValue::NotReady, 5),
        WaitOutcome::Ready
    );
    assert_eq!(signal.waiter_count(), 0);
}

#[test]
fn equal_snapshot_queues_the_waiter() {
    let mut signal = StateSignal::new();
    let snapshot = signal.current_state();
    assert_eq!(signal.wait_until_changed(snapshot, 9), WaitOutcome::Pending);
    assert_eq!(signal.waiter_count(), 1);
}

#[test]
fn cancel_wait_removes_token_and_is_idempotent() {
    let mut signal = StateSignal::new();
    signal.wait_until_changed(StateValue::NotReady, 1);
    signal.wait_until_changed(StateValue::NotReady, 2);
    signal.cancel_wait(1);
    assert_eq!(signal.waiter_count(), 1);
    // cancelling again, or cancelling an unknown token, changes nothing
    signal.cancel_wait(1);
    signal.cancel_wait(42);
    assert_eq!(signal.waiter_count(), 1);

    let woken = signal.publish(StateValue::Ready(1));
    assert_eq!(woken, vec![2]);
}

#[test]
fn single_slot_loses_first_waiter() {
    // the documented defect of the single-slot variant: the second
    // registration overwrites the first, which is then never woken
    let mut signal = SingleSlotSignal::new();
    assert_eq!(
        signal.wait_until_changed(StateValue::NotReady, 7),
        WaitOutcome::Pending
    );
    assert_eq!(
        signal.wait_until_changed(StateValue::NotReady, 8),
        WaitOutcome::Pending
    );
    let woken = signal.publish(StateValue::Ready(1));
    assert_eq!(woken, Some(8));
    assert_eq!(signal.publish(StateValue::Ready(2)), None);
}

#[test]
fn single_slot_cancel_empties_only_matching_token() {
    let mut signal = SingleSlotSignal::new();
    signal.wait_until_changed(StateValue::NotReady, 7);
    signal.cancel_wait(9);
    assert_eq!(signal.publish(StateValue::Ready(1)), Some(7));
    signal.wait_until_changed(StateValue::NotReady, 7);
    signal.cancel_wait(7);
    assert_eq!(signal.publish(StateValue::Ready(2)), None);
}

#[test]
fn bounded_signal_accepts_up_to_capacity() {
    let mut signal = BoundedStateSignal::new(2);
    assert_eq!(
        signal.wait_until_changed(StateValue::NotReady, 1),
        Ok(WaitOutcome::Pending)
    );
    assert_eq!(
        signal.wait_until_changed(StateValue::NotReady, 2),
        Ok(WaitOutcome::Pending)
    );
    let woken = signal.publish(StateValue::Ready(1));
    assert_eq!(woken, vec![1, 2]);
}

#[test]
fn bounded_signal_reports_capacity_exceeded() {
    let mut signal = BoundedStateSignal::new(2);
    signal.wait_until_changed(StateValue::NotReady, 1).unwrap();
    signal.wait_until_changed(StateValue::NotReady, 2).unwrap();
    assert_eq!(
        signal.wait_until_changed(StateValue::NotReady, 3),
        Err(CapacityExceeded)
    );
    // a changed state is still reported without needing a slot
    assert_eq!(
        signal.wait_until_changed(StateValue::Ready(9), 3),
        Ok(WaitOutcome::Ready)
    );
}

#[test]
fn bounded_cancel_frees_a_slot() {
    let mut signal = BoundedStateSignal::new(2);
    signal.wait_until_changed(StateValue::NotReady, 1).unwrap();
    signal.wait_until_changed(StateValue::NotReady, 2).unwrap();
    signal.cancel_wait(1);
    assert_eq!(
        signal.wait_until_changed(StateValue::NotReady, 3),
        Ok(WaitOutcome::Pending)
    );
    let woken = signal.publish(StateValue::Ready(1));
    assert_eq!(woken, vec![2, 3]);
}
