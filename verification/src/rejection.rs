//! Rejection tracker: which deferred guest values are currently rejected
//! with no handler attached.
//!
//! The tracker is an observer of the four notifications the engine emits
//! about a deferred value, keyed by the value's engine-assigned identity.
//! An entry in the map is the single source of truth for "this deferred
//! value is an unhandled rejection right now": it is inserted when a value
//! is rejected before any handler exists, removed when a handler is attached
//! after the rejection, and the two notifications about already-settled
//! values are deliberate no-ops, so no entry is ever leaked on a redundant
//! transition. Identities are meaningful only while an entry is open for
//! them; the engine may reuse an identity once the value has been collected.

use vstd::prelude::*;
use vstd::hash_map::HashMapWithView;

verus! {

broadcast use vstd::std_specs::hash::group_hash_axioms;

/// One notification from the engine about a deferred value. The identity of
/// the value travels beside the event, not inside it.
#[derive(Clone, Copy, Debug)]
pub enum RejectionEvent {
    /// The value was rejected and no handler is attached; `error` is the
    /// engine handle of the rejection reason to retain.
    RejectedWithNoHandler { error: u64 },
    /// A handler was attached after the value had been rejected; the stored
    /// reason is released.
    HandlerAddedAfterReject,
    /// A rejection notification for a value that was already settled.
    RejectAfterResolved,
    /// A resolution notification for a value that was already settled.
    /// Deliberately not even worth a warning: the engine is known to send
    /// this benign double-notification.
    ResolveAfterResolved,
}

/// The transition rule of the tracker: how one event changes the map from
/// promise identity to retained rejection reason.
pub open spec fn apply_rejection_event(
    m: Map<u64, u64>,
    promise_id: u64,
    event: RejectionEvent,
) -> Map<u64, u64> {
    match event {
        RejectionEvent::RejectedWithNoHandler { error } => m.insert(promise_id, error),
        RejectionEvent::HandlerAddedAfterReject => m.remove(promise_id),
        RejectionEvent::RejectAfterResolved => m,
        RejectionEvent::ResolveAfterResolved => m,
    }
}

/// The transition rules applied in order to a run of events on one identity.
pub open spec fn apply_rejection_events(
    m: Map<u64, u64>,
    promise_id: u64,
    events: Seq<RejectionEvent>,
) -> Map<u64, u64>
    decreases events.len(),
{
    if events.len() == 0 {
        m
    } else {
        apply_rejection_events(
            apply_rejection_event(m, promise_id, events[0]),
            promise_id,
            events.drop_first(),
        )
    }
}

/// The tracker itself: a map from the identity of a deferred value to the
/// engine handle of its rejection reason, present exactly while the value is
/// unhandled-and-rejected.
pub struct RejectionTracker {
    pub pending: HashMapWithView<u64, u64>,
}

impl View for RejectionTracker {
    type V = Map<u64, u64>;

    open spec fn view(&self) -> Map<u64, u64> {
        self.pending@
    }
}

impl RejectionTracker {
    pub fn new() -> (r: Self)
        ensures
            r@ == Map::<u64, u64>::empty(),
    {
        RejectionTracker { pending: HashMapWithView::new() }
    }

    /// Feeds one engine notification about `promise_id` through the
    /// transition rules. Redundant transitions (a late handler with no entry
    /// open, any notification about an already-settled value) change nothing.
    pub fn observe(&mut self, promise_id: u64, event: RejectionEvent)
        ensures
            final(self)@ == apply_rejection_event(old(self)@, promise_id, event),
    {
        match event {
            RejectionEvent::RejectedWithNoHandler { error } => {
                self.pending.insert(promise_id, error);
            }
            RejectionEvent::HandlerAddedAfterReject => {
                let removed = self.pending.remove(&promise_id);
                if removed.is_none() {
                    proof {
                        assert(old(self)@.remove(promise_id) =~= old(self)@);
                    }
                }
            }
            RejectionEvent::RejectAfterResolved => {}
            RejectionEvent::ResolveAfterResolved => {}
        }
    }

    /// Whether `promise_id` is currently an unhandled rejection.
    pub fn is_unhandled(&self, promise_id: u64) -> (b: bool)
        ensures
            b == self@.contains_key(promise_id),
    {
        self.pending.contains_key(&promise_id)
    }

    /// The retained rejection reason for `promise_id`, if an entry is open.
    pub fn rejection_reason(&self, promise_id: u64) -> (r: Option<u64>)
        ensures
            match r {
                Some(error) => self@.contains_key(promise_id) && error == self@[promise_id],
                None => !self@.contains_key(promise_id),
            },
    {
        match self.pending.get(&promise_id) {
            Some(error) => Some(*error),
            None => None,
        }
    }

    /// How many deferred values are unhandled rejections right now.
    pub fn unhandled_count(&self) -> (n: usize)
        ensures
            n == self@.len(),
    {
        self.pending.len()
    }
}

/// Law: a rejection with no handler followed by a late handler attachment
/// leaves no entry for that identity, whatever was tracked before.
pub proof fn lemma_reject_then_late_handler(m: Map<u64, u64>, promise_id: u64, error: u64)
    ensures
        !apply_rejection_events(
            m,
            promise_id,
            seq![
                RejectionEvent::RejectedWithNoHandler { error },
                RejectionEvent::HandlerAddedAfterReject,
            ],
        ).contains_key(promise_id),
        apply_rejection_events(
            m,
            promise_id,
            seq![
                RejectionEvent::RejectedWithNoHandler { error },
                RejectionEvent::HandlerAddedAfterReject,
            ],
        ) == m.remove(promise_id),
{
    let events = seq![
        RejectionEvent::RejectedWithNoHandler { error },
        RejectionEvent::HandlerAddedAfterReject,
    ];
    let m1 = m.insert(promise_id, error);
    let rest = events.drop_first();
    assert(rest =~= seq![RejectionEvent::HandlerAddedAfterReject]);
    assert(apply_rejection_events(m, promise_id, events) == apply_rejection_events(
        m1,
        promise_id,
        rest,
    ));
    let m2 = m1.remove(promise_id);
    assert(rest[0] == RejectionEvent::HandlerAddedAfterReject);
    assert(apply_rejection_events(m1, promise_id, rest) == apply_rejection_events(
        m2,
        promise_id,
        rest.drop_first(),
    ));
    assert(rest.drop_first().len() == 0);
    assert(apply_rejection_events(m2, promise_id, rest.drop_first()) == m2);
    assert(m1.remove(promise_id) =~= m.remove(promise_id));
}

/// Law: both notifications about an already-settled value are no-ops; in
/// particular a second rejection notification after the value has settled
/// neither re-inserts nor duplicates an entry.
pub proof fn lemma_settled_notifications_are_noops(m: Map<u64, u64>, promise_id: u64)
    ensures
        apply_rejection_event(m, promise_id, RejectionEvent::RejectAfterResolved) == m,
        apply_rejection_event(m, promise_id, RejectionEvent::ResolveAfterResolved) == m,
{
}

/// Law: a late handler attachment for an identity with no open entry changes
/// nothing, so the redundant path leaks no entry.
pub proof fn lemma_late_handler_without_entry(m: Map<u64, u64>, promise_id: u64)
    requires
        !m.contains_key(promise_id),
    ensures
        apply_rejection_event(m, promise_id, RejectionEvent::HandlerAddedAfterReject) == m,
{
    assert(m.remove(promise_id) =~= m);
}

proof fn lemma_apply_events_snoc(
    m: Map<u64, u64>,
    promise_id: u64,
    events: Seq<RejectionEvent>,
    event: RejectionEvent,
)
    ensures
        apply_rejection_events(m, promise_id, events.push(event)) == apply_rejection_event(
            apply_rejection_events(m, promise_id, events),
            promise_id,
            event,
        ),
    decreases events.len(),
{
    let stepped = apply_rejection_event(m, promise_id, event);
    if events.len() == 0 {
        assert(events.push(event)[0] == event);
        assert(events.push(event).drop_first() =~= Seq::<RejectionEvent>::empty());
        assert(apply_rejection_events(stepped, promise_id, Seq::<RejectionEvent>::empty())
            == stepped);
        assert(apply_rejection_events(m, promise_id, events) == m);
    } else {
        assert(events.push(event)[0] == events[0]);
        assert(events.push(event).drop_first() =~= events.drop_first().push(event));
        let m0 = apply_rejection_event(m, promise_id, events[0]);
        lemma_apply_events_snoc(m0, promise_id, events.drop_first(), event);
        assert(apply_rejection_events(m, promise_id, events.push(event))
            == apply_rejection_events(m0, promise_id, events.drop_first().push(event)));
        assert(apply_rejection_events(m, promise_id, events) == apply_rejection_events(
            m0,
            promise_id,
            events.drop_first(),
        ));
    }
}

/// Law: after any run of events on one identity, the entry's final state is
/// decided by the run's last insertion or removal: a run ending in a
/// no-handler rejection leaves the entry open with that reason, and a run
/// ending in a late handler attachment leaves no entry, whatever was tracked
/// before and whatever came earlier in the run.
pub proof fn lemma_final_event_decides_membership(
    m: Map<u64, u64>,
    promise_id: u64,
    events: Seq<RejectionEvent>,
)
    requires
        events.len() > 0,
    ensures
        events.last() matches RejectionEvent::RejectedWithNoHandler { error } ==> ({
            let after = apply_rejection_events(m, promise_id, events);
            after.contains_key(promise_id) && after[promise_id] == error
        }),
        events.last() is HandlerAddedAfterReject ==> !apply_rejection_events(
            m,
            promise_id,
            events,
        ).contains_key(promise_id),
{
    assert(events =~= events.drop_last().push(events.last()));
    lemma_apply_events_snoc(m, promise_id, events.drop_last(), events.last());
}

/// Law: a run made only of notifications about already-settled values
/// leaves the tracker exactly as it was; redundant transitions accumulate to
/// nothing.
pub proof fn lemma_settled_run_is_noop(
    m: Map<u64, u64>,
    promise_id: u64,
    events: Seq<RejectionEvent>,
)
    requires
        forall|i: int|
            0 <= i < events.len() ==> (#[trigger] events[i] is RejectAfterResolved || events[i]
                is ResolveAfterResolved),
    ensures
        apply_rejection_events(m, promise_id, events) == m,
    decreases events.len(),
{
    if events.len() > 0 {
        assert(events[0] is RejectAfterResolved || events[0] is ResolveAfterResolved);
        lemma_settled_run_is_noop(m, promise_id, events.drop_first());
    }
}

} // verus!
