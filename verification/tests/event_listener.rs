use irq_core::event_listener::EventListener;

#[test]
fn waiter_stays_pending_without_trigger_or_cancel() {
    let mut l = EventListener::new();
    let h = l.subscribe();
    // No spurious wake: the waiter is still pending and no trigger has fired.
    assert_eq!(l.pending_len(), 1);
    assert_eq!(l.pending_ids(), vec![h.id]);
    assert!(!l.fired_since(&h));
}

#[test]
fn trigger_wakes_all_subscribed_in_order_exactly_once() {
    let mut l = EventListener::new();
    let h1 = l.subscribe();
    let h2 = l.subscribe();
    let h3 = l.subscribe();
    let woken = l.trigger();
    assert_eq!(woken, vec![h1.id, h2.id, h3.id]);
    // Each waiter was woken exactly once: it appears once in the wake list
    // and the set is cleared, so a second trigger wakes nobody.
    assert_eq!(l.pending_len(), 0);
    assert_eq!(l.trigger(), Vec::<u64>::new());
}

#[test]
fn trigger_with_no_waiters_is_noop() {
    let mut l = EventListener::new();
    assert_eq!(l.trigger(), Vec::<u64>::new());
    assert_eq!(l.pending_len(), 0);
}

#[test]
fn late_subscriber_sees_no_retroactive_trigger() {
    let mut l = EventListener::new();
    let _ = l.trigger();
    // Edge-triggered: a waiter subscribing after a trigger stays pending.
    let h = l.subscribe();
    assert_eq!(l.pending_len(), 1);
    assert!(!l.fired_since(&h));
}

#[test]
fn fired_since_detects_trigger_after_subscription() {
    let mut l = EventListener::new();
    let h = l.subscribe();
    assert!(!l.fired_since(&h));
    let woken = l.trigger();
    assert_eq!(woken, vec![h.id]);
    assert!(l.fired_since(&h));
}

#[test]
fn cancel_removes_only_that_waiter() {
    let mut l = EventListener::new();
    let h1 = l.subscribe();
    let h2 = l.subscribe();
    let h3 = l.subscribe();
    assert!(l.cancel(&h2));
    assert_eq!(l.pending_ids(), vec![h1.id, h3.id]);
    // The cancelled waiter is never woken; the others still are.
    let woken = l.trigger();
    assert_eq!(woken, vec![h1.id, h3.id]);
}

#[test]
fn cancel_is_idempotent_and_safe_after_trigger() {
    let mut l = EventListener::new();
    let h = l.subscribe();
    let _ = l.trigger();
    // The trigger already removed the waiter; cancelling removes nothing.
    assert!(!l.cancel(&h));
    let mut l2 = EventListener::new();
    let g = l2.subscribe();
    assert!(l2.cancel(&g));
    assert!(!l2.cancel(&g));
}
