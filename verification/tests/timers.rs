//! The timer registry: reprogramming decisions, firing order, staleness.

use glazier::timer::TimerRegistry;

#[test]
fn reprogram_iff_new_deadline_is_earliest() {
    let mut reg = TimerRegistry::new();
    // First timer: nothing was pending, so the source is programmed.
    let (_t1, r1) = reg.request_timer(1_000, 100);
    assert_eq!(r1, Some(900));
    // A later deadline leaves the source alone.
    let (_t2, r2) = reg.request_timer(2_000, 100);
    assert_eq!(r2, None);
    // An equal deadline is not strictly earlier: no reprogram.
    let (_t3, r3) = reg.request_timer(1_000, 100);
    assert_eq!(r3, None);
    // A strictly earlier deadline reprograms.
    let (_t4, r4) = reg.request_timer(400, 100);
    assert_eq!(r4, Some(300));
    assert_eq!(reg.next_deadline(), Some(400));
}

#[test]
fn past_deadline_fires_immediately_with_zero_timeout() {
    let mut reg = TimerRegistry::new();
    let (_t, r) = reg.request_timer(500, 800);
    assert_eq!(r, Some(0), "a deadline already passed must not block");
}

#[test]
fn timers_fire_in_deadline_order_with_ties_in_insertion_order() {
    let mut reg = TimerRegistry::new();
    let (t_late, _) = reg.request_timer(3_000, 0);
    let (t_early, _) = reg.request_timer(1_000, 0);
    let (t_tie_first, _) = reg.request_timer(2_000, 0);
    let (t_tie_second, _) = reg.request_timer(2_000, 0);

    assert_eq!(reg.pop_due(10_000), Some(t_early));
    assert_eq!(reg.pop_due(10_000), Some(t_tie_first));
    assert_eq!(reg.pop_due(10_000), Some(t_tie_second));
    assert_eq!(reg.pop_due(10_000), Some(t_late));
    assert_eq!(reg.pop_due(10_000), None);
}

#[test]
fn pop_due_leaves_future_timers_pending() {
    let mut reg = TimerRegistry::new();
    let (t_due, _) = reg.request_timer(100, 0);
    let (t_future, _) = reg.request_timer(5_000, 0);
    assert_eq!(reg.pop_due(200), Some(t_due));
    assert_eq!(reg.pop_due(200), None, "the future timer is not due yet");
    assert!(reg.is_pending(t_future));
    assert!(!reg.is_pending(t_due), "a fired token is stale");
    assert_eq!(reg.len(), 1);
}

#[test]
fn tokens_are_never_reused() {
    let mut reg = TimerRegistry::new();
    let (t1, _) = reg.request_timer(10, 0);
    let (t2, _) = reg.request_timer(10, 0);
    let (t3, _) = reg.request_timer(5, 0);
    assert_ne!(t1.into_raw(), t2.into_raw());
    assert_ne!(t2.into_raw(), t3.into_raw());
    assert_ne!(t1.into_raw(), t3.into_raw());
}
