use evm_arb_service::route::{cooldown_open, scan_guard, PnLTracker, ScanGuard};

#[test]
fn tracker_counts_losses_and_success_clears_them() {
    let mut t = PnLTracker::new();
    assert_eq!(t.consec_losses, 0);
    assert!(t.last_loss_ts.is_none());
    t.on_loss();
    assert_eq!(t.consec_losses, 1);
    assert!(t.last_loss_ts.is_some());
    t.on_loss();
    t.on_loss();
    assert_eq!(t.consec_losses, 3);
    t.on_success();
    assert_eq!(t.consec_losses, 0);
    assert!(t.last_loss_ts.is_none());
    t.on_loss();
    assert_eq!(t.consec_losses, 1);
}

#[test]
fn tracker_count_saturates() {
    let mut t = PnLTracker { consec_losses: u32::MAX - 1, last_loss_ts: None };
    t.on_loss();
    assert_eq!(t.consec_losses, u32::MAX);
    t.on_loss();
    assert_eq!(t.consec_losses, u32::MAX);
}

#[test]
fn cooldown_is_on_right_after_a_loss_and_off_without_window() {
    let mut t = PnLTracker::new();
    assert!(!t.should_cooldown(3600));
    t.on_loss();
    assert!(t.should_cooldown(3600));
    assert!(!t.should_cooldown(0));
    t.on_success();
    assert!(!t.should_cooldown(3600));
    assert_eq!(t.since_last_loss(), None);
}

#[test]
fn cooldown_ends_when_the_window_has_passed() {
    let mut t = PnLTracker::new();
    t.on_loss();
    let started = std::time::Instant::now();
    while started.elapsed() < std::time::Duration::from_millis(1100) {
        std::hint::spin_loop();
    }
    assert!(!t.should_cooldown(1));
    assert!(t.should_cooldown(3600));
    assert!(t.since_last_loss().unwrap() >= 1_100_000_000);
}

#[test]
fn cooldown_open_by_elapsed_time() {
    let sec = 1_000_000_000u128;
    assert!(cooldown_open(1, Some(0), 30));
    assert!(cooldown_open(1, Some(30 * sec - 1), 30));
    assert!(!cooldown_open(1, Some(30 * sec), 30));
    assert!(!cooldown_open(1, Some(31 * sec), 30));
    assert!(!cooldown_open(0, Some(0), 30));
    assert!(!cooldown_open(3, None, 30));
    assert!(!cooldown_open(3, Some(0), 0));
    assert!(cooldown_open(u32::MAX, Some(u64::MAX as u128 * sec - 1), u64::MAX));
}

#[test]
fn guard_is_closed_only_while_the_window_is_open() {
    let sec = 1_000_000_000u128;
    assert_eq!(scan_guard(0, None, 30, 3), ScanGuard::Proceed);
    assert_eq!(scan_guard(1, Some(31 * sec), 30, 3), ScanGuard::Proceed);
    assert_eq!(scan_guard(2, Some(30 * sec), 30, 3), ScanGuard::Proceed);
    // below the maximum a recent loss is a cooldown
    assert_eq!(scan_guard(1, Some(10 * sec + 5), 30, 3), ScanGuard::Cooldown { remaining_sec: 20 });
    assert_eq!(scan_guard(1, Some(0), 30, 3), ScanGuard::Cooldown { remaining_sec: 30 });
    assert_eq!(scan_guard(2, Some(29 * sec), 30, 3), ScanGuard::Cooldown { remaining_sec: 1 });
    // at the maximum and above it is the tripped breaker
    assert_eq!(scan_guard(3, Some(0), 30, 3), ScanGuard::Tripped { remaining_sec: 30 });
    assert_eq!(scan_guard(5, Some(29 * sec), 30, 3), ScanGuard::Tripped { remaining_sec: 1 });
    assert_eq!(scan_guard(3, Some(30 * sec - 1), 30, 3), ScanGuard::Tripped { remaining_sec: 1 });
    assert_eq!(scan_guard(1, Some(0), 30, 0), ScanGuard::Tripped { remaining_sec: 30 });
    // the breaker recovers by time alone, whatever the count
    assert_eq!(scan_guard(3, Some(30 * sec), 30, 3), ScanGuard::Proceed);
    assert_eq!(scan_guard(4, Some(31 * sec), 30, 3), ScanGuard::Proceed);
    assert_eq!(scan_guard(u32::MAX, Some(31 * sec), 30, 3), ScanGuard::Proceed);
    // a count at the maximum with no loss to recover from: tripped
    assert_eq!(scan_guard(0, None, 60, 0), ScanGuard::Tripped { remaining_sec: 60 });
    assert_eq!(scan_guard(0, None, 0, 0), ScanGuard::Tripped { remaining_sec: 0 });
    assert_eq!(scan_guard(3, None, 30, 3), ScanGuard::Tripped { remaining_sec: 30 });
    // below the maximum, no loss on record: open
    assert_eq!(scan_guard(0, None, 30, 1), ScanGuard::Proceed);
    assert_eq!(scan_guard(2, None, 30, 3), ScanGuard::Proceed);
    // a window of no length has passed with the loss itself
    assert_eq!(scan_guard(3, Some(0), 0, 3), ScanGuard::Proceed);
    assert_eq!(scan_guard(5, Some(0), 0, 3), ScanGuard::Proceed);
    assert_eq!(scan_guard(9, Some(0), 0, 0), ScanGuard::Proceed);
}

#[test]
fn breaker_with_a_maximum_of_zero_is_tripped_from_the_start() {
    let mut t = PnLTracker::new();
    assert_eq!(t.guard(60, 0), ScanGuard::Tripped { remaining_sec: 60 });
    assert_eq!(t.guard(0, 0), ScanGuard::Tripped { remaining_sec: 0 });
    assert_eq!(t.guard(60, 1), ScanGuard::Proceed);
    t.on_loss();
    assert!(matches!(t.guard(60, 0), ScanGuard::Tripped { remaining_sec } if remaining_sec >= 59));
    t.on_success();
    assert_eq!(t.guard(60, 0), ScanGuard::Tripped { remaining_sec: 60 });
}

#[test]
fn breaker_trips_after_exactly_the_configured_losses() {
    let max = 3u32;
    let mut t = PnLTracker::new();
    assert_eq!(t.guard(3600, max), ScanGuard::Proceed);
    for _ in 0..max - 1 {
        t.on_loss();
    }
    assert!(matches!(t.guard(3600, max), ScanGuard::Cooldown { remaining_sec } if remaining_sec > 3590));
    t.on_loss();
    assert!(matches!(t.guard(3600, max), ScanGuard::Tripped { remaining_sec } if remaining_sec > 3590));
    // a window of no length closes nothing
    assert_eq!(t.guard(0, max), ScanGuard::Proceed);
    t.on_success();
    assert_eq!(t.consec_losses, 0);
    assert_eq!(t.guard(0, max), ScanGuard::Proceed);
    assert_eq!(t.guard(3600, max), ScanGuard::Proceed);
}

#[test]
fn breaker_recovers_once_the_window_has_passed() {
    let max = 2u32;
    let mut t = PnLTracker::new();
    t.on_loss();
    t.on_loss();
    assert!(matches!(t.guard(1, max), ScanGuard::Tripped { .. }));
    let started = std::time::Instant::now();
    while started.elapsed() < std::time::Duration::from_millis(1100) {
        std::hint::spin_loop();
    }
    // nothing happened but time passing
    assert_eq!(t.guard(1, max), ScanGuard::Proceed);
    // the count is as it was, so one more loss trips the breaker again
    assert_eq!(t.consec_losses, 2);
    t.on_loss();
    assert_eq!(t.consec_losses, 3);
    assert!(matches!(t.guard(1, max), ScanGuard::Tripped { .. }));
}
