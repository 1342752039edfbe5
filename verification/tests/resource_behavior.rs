use on_demand_sync::errors::TimedOut;
use on_demand_sync::lock::AcquireStep;
use on_demand_sync::resource::CancelOutcome;
use on_demand_sync::resource::Level;
use on_demand_sync::resource::OnDemandResource;
use on_demand_sync::resource::OutputConfig;
use on_demand_sync::resource::Speed;

fn test_config() -> OutputConfig {
    OutputConfig { pin: 0, level: Level::Low, speed: Speed::Low }
}

#[test]
fn first_acquire_constructs_the_payload() {
    let mut resource = OnDemandResource::new(test_config());
    assert!(!resource.payload_present());
    assert_eq!(resource.reference_count(), 0);

    assert_eq!(resource.begin_acquire(1), AcquireStep::Granted);
    assert_eq!(resource.reference_count(), 1);
    assert!(!resource.payload_present());

    let guard = resource.complete_acquire(1);
    assert!(resource.payload_present());
    assert_eq!(resource.output_level(), Level::Low);

    assert_eq!(resource.release(guard), None);
    assert_eq!(resource.reference_count(), 0);
    assert!(!resource.payload_present());
}

#[test]
fn toggle_flips_the_level() {
    let mut resource = OnDemandResource::new(test_config());
    resource.begin_acquire(1);
    let guard = resource.complete_acquire(1);
    assert_eq!(resource.output_level(), Level::Low);
    resource.toggle(&guard);
    assert_eq!(resource.output_level(), Level::High);
    resource.toggle(&guard);
    assert_eq!(resource.output_level(), Level::Low);
    resource.release(guard);
}

#[test]
fn three_simultaneous_acquires_construct_once() {
    // three tasks start acquiring before any completes: the count reaches
    // three, one construction happens, and the payload is destroyed exactly
    // once, on the release that takes the count from one to zero
    let mut resource = OnDemandResource::new(test_config());
    assert_eq!(resource.begin_acquire(1), AcquireStep::Granted);
    assert_eq!(resource.begin_acquire(2), AcquireStep::Queued);
    assert_eq!(resource.begin_acquire(3), AcquireStep::Queued);
    assert_eq!(resource.reference_count(), 3);

    let guard1 = resource.complete_acquire(1);
    assert!(resource.payload_present());
    // leave a mark: a reconstruction would reset the level to Low
    resource.toggle(&guard1);
    assert_eq!(resource.output_level(), Level::High);

    let woken = resource.release(guard1);
    assert_eq!(woken, Some(2));
    assert_eq!(resource.reference_count(), 2);
    assert!(resource.payload_present());

    let guard2 = resource.complete_acquire(2);
    // still the same payload: completing did not construct a second one
    assert_eq!(resource.output_level(), Level::High);
    let woken = resource.release(guard2);
    assert_eq!(woken, Some(3));
    assert_eq!(resource.reference_count(), 1);
    assert!(resource.payload_present());

    let guard3 = resource.complete_acquire(3);
    assert_eq!(resource.output_level(), Level::High);
    let woken = resource.release(guard3);
    assert_eq!(woken, None);
    assert_eq!(resource.reference_count(), 0);
    assert!(!resource.payload_present());
}

#[test]
fn payload_cycle_repeats_with_fresh_construction() {
    // empty -> present -> empty, twice: each cycle constructs exactly once,
    // and a new cycle starts from the configured level again
    let mut resource = OnDemandResource::new(test_config());

    resource.begin_acquire(1);
    let guard = resource.complete_acquire(1);
    resource.toggle(&guard);
    assert_eq!(resource.output_level(), Level::High);
    resource.release(guard);
    assert!(!resource.payload_present());

    resource.begin_acquire(2);
    let guard = resource.complete_acquire(2);
    assert!(resource.payload_present());
    assert_eq!(resource.output_level(), Level::Low);
    resource.release(guard);
    assert!(!resource.payload_present());
}

#[test]
fn cancel_before_grant_restores_the_reference_count() {
    // task A holds the guard; task B's acquisition is cancelled while it
    // waits for the lock: the count returns to what it was before B's
    // attempt and the queue keeps no dangling entry
    let mut resource = OnDemandResource::new(test_config());
    resource.begin_acquire(1);
    let guard = resource.complete_acquire(1);
    let count_before = resource.reference_count();

    assert_eq!(resource.begin_acquire(2), AcquireStep::Queued);
    assert_eq!(resource.reference_count(), count_before + 1);
    let outcome = resource.cancel_acquire(2);
    assert!(matches!(outcome, CancelOutcome::Dequeued));
    assert_eq!(resource.reference_count(), count_before);

    // no dangling entry: releasing wakes nobody
    assert_eq!(resource.release(guard), None);
    assert_eq!(resource.reference_count(), 0);
}

#[test]
fn timeout_while_waiting_reports_timed_out() {
    // task A holds the guard far longer than task B is willing to wait;
    // B's wait expires, B withdraws its request and reports the timeout,
    // and the count returns to the value it had before B's attempt
    let mut resource = OnDemandResource::new(test_config());
    resource.begin_acquire(1);
    let guard = resource.complete_acquire(1);
    let count_before = resource.reference_count();

    let deadline_steps: u32 = 20;
    let hold_steps: u32 = 100;
    let mut outcome: Result<(), TimedOut> = Ok(());
    if resource.begin_acquire(2) == AcquireStep::Queued {
        let mut elapsed: u32 = 0;
        while elapsed < hold_steps {
            if elapsed == deadline_steps {
                // the wait expired before the lock was granted
                match resource.cancel_acquire(2) {
                    CancelOutcome::Dequeued => {
                        outcome = Err(TimedOut);
                    }
                    CancelOutcome::Released(_) => {
                        unreachable!("the lock is held by task 1 throughout");
                    }
                }
                break;
            }
            elapsed += 1;
        }
    }

    assert_eq!(outcome, Err(TimedOut));
    assert_eq!(resource.reference_count(), count_before);
    assert_eq!(resource.release(guard), None);
}

#[test]
fn cancel_after_grant_releases_the_abandoned_lock() {
    // the deterministic race rule: if the cancelled acquisition had already
    // been granted the lock, the grant is released at once, and the next
    // waiter is woken
    let mut resource = OnDemandResource::new(test_config());
    resource.begin_acquire(1);
    let guard = resource.complete_acquire(1);
    resource.begin_acquire(2);
    resource.begin_acquire(3);
    assert_eq!(resource.release(guard), Some(2));

    // task 2 is cancelled just as it was granted
    let outcome = resource.cancel_acquire(2);
    assert!(matches!(outcome, CancelOutcome::Released(Some(3))));
    assert_eq!(resource.reference_count(), 1);

    let guard3 = resource.complete_acquire(3);
    assert_eq!(resource.release(guard3), None);
    assert_eq!(resource.reference_count(), 0);
    assert!(!resource.payload_present());
}

#[test]
fn reference_count_matches_outstanding_acquisitions() {
    // at every observation point the count equals the number of started,
    // not-yet-resolved acquisitions
    let mut resource = OnDemandResource::new(test_config());
    assert_eq!(resource.reference_count(), 0);
    resource.begin_acquire(1);
    assert_eq!(resource.reference_count(), 1);
    resource.begin_acquire(2);
    assert_eq!(resource.reference_count(), 2);
    let guard = resource.complete_acquire(1);
    assert_eq!(resource.reference_count(), 2);
    resource.release(guard);
    assert_eq!(resource.reference_count(), 1);
    let guard = resource.complete_acquire(2);
    resource.release(guard);
    assert_eq!(resource.reference_count(), 0);
}
