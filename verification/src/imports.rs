//! Dynamic import resolver: correlates in-flight "load module by specifier"
//! requests with the completion the host later delivers for each of them.
//!
//! Every request is assigned the next value of a strictly increasing
//! counter, so an import id is unique for the life of the context and never
//! reused. The map from id to the engine handle of the deferred value's
//! resolver holds exactly the requests whose completion has not arrived yet;
//! a completion consumes its entry, and a completion for an unknown or
//! already-consumed id is a protocol violation that must not crash: it is a
//! no-op that leaves the map untouched.

use vstd::prelude::*;
use vstd::hash_map::HashMapWithView;

verus! {

broadcast use vstd::std_specs::hash::group_hash_axioms;

/// In-flight dynamic module-load requests of one execution context.
pub struct DynamicImportResolver {
    /// The id the next request will receive; strictly increasing, never
    /// reused within the context.
    pub next_import_id: u64,
    /// Maps each in-flight import id to the engine handle of the resolver
    /// that settles the deferred value handed to the guest.
    pub pending: HashMapWithView<u64, u64>,
}

impl View for DynamicImportResolver {
    type V = Map<u64, u64>;

    open spec fn view(&self) -> Map<u64, u64> {
        self.pending@
    }
}

impl DynamicImportResolver {
    /// Every in-flight id was issued by the counter, so it lies below the
    /// counter's next value.
    pub open spec fn wf(self) -> bool {
        forall|id: u64| self@.contains_key(id) ==> id < self.next_import_id
    }

    pub fn new() -> (r: Self)
        ensures
            r@ == Map::<u64, u64>::empty(),
            r.next_import_id == 0,
            r.wf(),
    {
        DynamicImportResolver { next_import_id: 0, pending: HashMapWithView::new() }
    }

    /// Opens a new dynamic import: issues the next id and records the
    /// resolver handle under it until the host completes the request. The
    /// issued id was never in flight before, and ids grow strictly with
    /// issuance order.
    pub fn request_import(&mut self, resolver_handle: u64) -> (import_id: u64)
        requires
            old(self).wf(),
            old(self).next_import_id < u64::MAX,
        ensures
            final(self).wf(),
            import_id == old(self).next_import_id,
            !old(self)@.contains_key(import_id),
            final(self).next_import_id == old(self).next_import_id + 1,
            final(self)@ == old(self)@.insert(import_id, resolver_handle),
    {
        let import_id: u64 = self.next_import_id;
        self.next_import_id = self.next_import_id + 1;
        self.pending.insert(import_id, resolver_handle);
        proof {
            assert forall|id: u64| self@.contains_key(id) implies id < self.next_import_id by {
                if id != import_id {
                    assert(old(self)@.contains_key(id));
                }
            }
        }
        import_id
    }

    /// Consumes the entry for `import_id` and hands back its resolver
    /// handle, exactly once per issued id. An unknown or already-consumed id
    /// yields `None` and leaves the resolver untouched.
    pub fn complete_import(&mut self, import_id: u64) -> (r: Option<u64>)
        requires
            old(self).wf(),
        ensures
            final(self).wf(),
            final(self).next_import_id == old(self).next_import_id,
            match r {
                Some(resolver_handle) => old(self)@.contains_key(import_id) && resolver_handle
                    == old(self)@[import_id] && final(self)@ == old(self)@.remove(import_id),
                None => !old(self)@.contains_key(import_id) && final(self)@ == old(self)@,
            },
    {
        let removed = self.pending.remove(&import_id);
        proof {
            if removed is None {
                assert(old(self)@.remove(import_id) =~= old(self)@);
            }
            assert forall|id: u64| self@.contains_key(id) implies id < self.next_import_id by {
                assert(old(self)@.contains_key(id));
            }
        }
        removed
    }

    /// Whether a request with this id is still awaiting its completion.
    pub fn is_in_flight(&self, import_id: u64) -> (b: bool)
        ensures
            b == self@.contains_key(import_id),
    {
        self.pending.contains_key(&import_id)
    }
}

/// The run of ids a burst of `count` requests receives when the counter
/// stands at `first`: consecutive values starting there.
pub open spec fn issued_ids(first: u64, count: nat) -> Seq<u64> {
    Seq::new(count, |i: int| (first + i) as u64)
}

/// Law: the ids issued during a burst of requests are strictly increasing in
/// issuance order, and so pairwise distinct.
pub proof fn lemma_burst_ids_distinct(first: u64, count: nat)
    requires
        first + count <= u64::MAX,
    ensures
        forall|i: int, j: int|
            0 <= i < j < count ==> issued_ids(first, count)[i] < issued_ids(first, count)[j],
        forall|i: int, j: int|
            0 <= i < j < count ==> issued_ids(first, count)[i] != issued_ids(first, count)[j],
{
}

} // verus!
