use facewinunlock::governor::{can_retry, set_last_send_time, Governor};
use facewinunlock::limits::MAX_RETRY;

#[test]
fn new_governor_is_clear() {
    let g = Governor::new();
    assert_eq!(g.fail_count, 0);
    assert_eq!(g.last_attempt, 0);
    assert!(!g.is_locked_out());
}

#[test]
fn first_trigger_is_permitted_and_stamped() {
    let mut g = Governor::new();
    assert!(g.permit(20_000, 10_000));
    assert_eq!(g.last_attempt, 20_000);
    assert_eq!(g.fail_count, 0);
}

#[test]
fn second_trigger_within_delay_is_refused() {
    let mut g = Governor::new();
    assert!(g.permit(20_000, 10_000));
    assert!(!g.permit(29_999, 10_000));
    assert_eq!(g.last_attempt, 20_000);
}

#[test]
fn trigger_exactly_at_delay_is_permitted() {
    let mut g = Governor::new();
    assert!(g.permit(20_000, 10_000));
    assert!(g.permit(30_000, 10_000));
    assert_eq!(g.last_attempt, 30_000);
}

#[test]
fn of_two_close_triggers_only_one_passes() {
    for gap in [0u128, 1, 500, 9_999] {
        let mut g = Governor::new();
        let first = g.permit(50_000, 10_000);
        let second = g.permit(50_000 + gap, 10_000);
        assert!(first);
        assert!(!second);
    }
}

#[test]
fn clock_that_runs_backwards_is_refused() {
    let mut g = Governor::new();
    assert!(g.permit(50_000, 10_000));
    assert!(!g.permit(10_000, 10_000));
    assert_eq!(g.last_attempt, 50_000);
}

#[test]
fn negative_delay_counts_as_ten_seconds() {
    let mut g = Governor::new();
    assert!(g.permit(50_000, -1));
    assert!(!g.permit(59_999, -1));
    assert!(g.permit(60_000, -1));
}

#[test]
fn zero_delay_permits_at_once() {
    let mut g = Governor::new();
    assert!(g.permit(0, 0));
    assert!(g.permit(0, 0));
}

#[test]
fn lockout_refuses_every_trigger_until_success() {
    let mut g = Governor::new();
    for _ in 0..MAX_RETRY {
        g.record_failure();
    }
    assert_eq!(g.fail_count, 3);
    assert!(g.is_locked_out());
    let before = g;
    for now in [0u128, 10_000, 1_000_000, u128::MAX] {
        assert!(!g.permit(now, 0));
        assert!(!g.permit(now, 10_000));
        assert_eq!(g, before);
    }
    g.record_success();
    assert_eq!(g.fail_count, 0);
    assert!(!g.is_locked_out());
    assert!(g.permit(1_000_000, 10_000));
}

#[test]
fn failure_count_stops_at_ceiling() {
    let mut g = Governor::new();
    for _ in 0..10 {
        g.record_failure();
    }
    assert_eq!(g.fail_count, MAX_RETRY);
}

#[test]
fn two_failures_do_not_lock_out() {
    let mut g = Governor::new();
    g.record_failure();
    g.record_failure();
    assert_eq!(g.fail_count, 2);
    assert!(g.permit(10_000, 10_000));
}

#[test]
fn reset_clears_count_and_keeps_time() {
    let mut g = Governor { fail_count: 2, last_attempt: 77 };
    g.reset();
    assert_eq!(g, Governor { fail_count: 0, last_attempt: 77 });
}

#[test]
fn stamp_sets_time_only() {
    let mut g = Governor { fail_count: 2, last_attempt: 77 };
    g.stamp(99);
    assert_eq!(g, Governor { fail_count: 2, last_attempt: 99 });
}

#[test]
fn spacing_gate_ignores_lockout() {
    let mut g = Governor { fail_count: 3, last_attempt: 0 };
    assert!(g.spacing_gate(10_000, 10_000));
    assert_eq!(g.last_attempt, 10_000);
    assert!(!g.spacing_gate(10_001, 10_000));
}

#[test]
fn can_retry_uses_the_clock() {
    let mut g = Governor::new();
    assert!(can_retry(&mut g, 10_000));
    assert!(g.last_attempt > 1_600_000_000_000);
    let stamped = g.last_attempt;
    assert!(!can_retry(&mut g, 3_600_000));
    assert_eq!(g.last_attempt, stamped);
    assert_eq!(g.fail_count, 0);
}

#[test]
fn set_last_send_time_stamps_the_present() {
    let mut g = Governor { fail_count: 1, last_attempt: 0 };
    set_last_send_time(&mut g);
    assert!(g.last_attempt > 1_600_000_000_000);
    assert_eq!(g.fail_count, 1);
    assert!(!can_retry(&mut g, 3_600_000));
}

#[test]
fn can_retry_is_owed_where_the_clock_cannot_decide() {
    let mut g = Governor::new();
    assert!(can_retry(&mut g, 0));
    assert!(g.last_attempt > 1_600_000_000_000);
    assert_eq!(g.fail_count, 0);

    let mut g = Governor { fail_count: 2, last_attempt: u128::MAX };
    let before = g;
    assert!(!can_retry(&mut g, 1));
    assert!(!can_retry(&mut g, -1));
    assert_eq!(g, before);
}
