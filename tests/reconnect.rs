use gorlami::{ReconnectScheduler, ReconnectTimer};

#[test]
fn arm_gives_one_timer_with_the_interval() {
    let mut s = ReconnectScheduler::new();
    assert!(!s.is_pending());
    let t = s.arm(true, 2).unwrap();
    assert_eq!(t.delay_secs, 2);
    assert!(s.is_pending());
    assert_eq!(s.arm(true, 2), None);
    assert_eq!(s.arm(true, 7), None);
}

#[test]
fn disabled_reconnect_arms_nothing() {
    let mut s = ReconnectScheduler::new();
    assert_eq!(s.arm(false, 2), None);
    assert!(!s.is_pending());
}

#[test]
fn timer_fires_once_and_stale_tickets_do_nothing() {
    let mut s = ReconnectScheduler::new();
    let first: ReconnectTimer = s.arm(true, 1).unwrap();
    assert!(!s.fire(first.ticket.wrapping_add(1)));
    assert!(s.fire(first.ticket));
    assert!(!s.fire(first.ticket));
    let second = s.arm(true, 1).unwrap();
    assert_ne!(first.ticket, second.ticket);
    assert!(!s.fire(first.ticket));
    s.cancel();
    assert!(!s.is_pending());
    assert!(!s.fire(second.ticket));
}
