use engine_bridge::rejection::{RejectionEvent, RejectionTracker};

#[test]
fn reject_then_late_handler_leaves_no_entry() {
    let mut tracker = RejectionTracker::new();
    tracker.observe(11, RejectionEvent::RejectedWithNoHandler { error: 900 });
    assert!(tracker.is_unhandled(11));
    assert_eq!(tracker.rejection_reason(11), Some(900));
    tracker.observe(11, RejectionEvent::HandlerAddedAfterReject);
    assert!(!tracker.is_unhandled(11));
    assert_eq!(tracker.rejection_reason(11), None);
    assert_eq!(tracker.unhandled_count(), 0);
}

#[test]
fn settled_notifications_are_noops() {
    let mut tracker = RejectionTracker::new();
    tracker.observe(7, RejectionEvent::RejectedWithNoHandler { error: 1 });
    // A rejection notification on an already-settled value must not insert
    // or duplicate an entry for another identity, nor disturb this one.
    tracker.observe(7, RejectionEvent::RejectAfterResolved);
    tracker.observe(7, RejectionEvent::ResolveAfterResolved);
    assert_eq!(tracker.unhandled_count(), 1);
    assert_eq!(tracker.rejection_reason(7), Some(1));

    tracker.observe(8, RejectionEvent::RejectAfterResolved);
    tracker.observe(8, RejectionEvent::ResolveAfterResolved);
    assert!(!tracker.is_unhandled(8));
    assert_eq!(tracker.unhandled_count(), 1);
}

#[test]
fn late_handler_without_entry_changes_nothing() {
    let mut tracker = RejectionTracker::new();
    tracker.observe(3, RejectionEvent::HandlerAddedAfterReject);
    assert_eq!(tracker.unhandled_count(), 0);
    assert!(!tracker.is_unhandled(3));
}

#[test]
fn rerejection_updates_the_stored_reason() {
    let mut tracker = RejectionTracker::new();
    tracker.observe(2, RejectionEvent::RejectedWithNoHandler { error: 10 });
    tracker.observe(2, RejectionEvent::RejectedWithNoHandler { error: 20 });
    assert_eq!(tracker.unhandled_count(), 1);
    assert_eq!(tracker.rejection_reason(2), Some(20));
}

#[test]
fn independent_identities_do_not_interfere() {
    let mut tracker = RejectionTracker::new();
    tracker.observe(1, RejectionEvent::RejectedWithNoHandler { error: 100 });
    tracker.observe(2, RejectionEvent::RejectedWithNoHandler { error: 200 });
    tracker.observe(1, RejectionEvent::HandlerAddedAfterReject);
    assert!(!tracker.is_unhandled(1));
    assert!(tracker.is_unhandled(2));
    assert_eq!(tracker.rejection_reason(2), Some(200));
}
