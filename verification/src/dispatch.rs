//! Operation dispatch: the registration table of numeric operation ids and
//! the tagged outcome of one dispatch call.
//!
//! The table is built once at host startup and then fixed; how the host
//! populates it is host wiring, the bridge only routes by id. A dispatch
//! call has exactly three outcomes: an immediate response buffer, a pending
//! completion that will arrive on the completion channel tagged with the
//! operation id, or an exception raised into the guest engine. Nothing is
//! ever signalled by an ambiguous empty return.

use vstd::prelude::*;
use crate::buffer::ResponseBuffer;

verus! {

/// What the invoked host operation reported back to the bridge. The
/// operation itself decides, by its own logic, which of these it is.
#[derive(Debug, PartialEq, Eq)]
pub enum OpResult {
    /// The operation completed synchronously with these output bytes.
    Sync(Vec<u8>),
    /// The operation spawned host-side work; `(op_id, bytes)` will be pushed
    /// through the completion channel later.
    Async,
    /// The operation raised an exception into the guest engine; the guest
    /// sees it through the engine's own exception state, not through the
    /// return value.
    Raised,
}

/// The outcome of one dispatch call as the guest sees it.
#[derive(Debug, PartialEq, Eq)]
pub enum DispatchOutcome {
    /// A synchronous result, already placed in a response buffer.
    Immediate(ResponseBuffer),
    /// The operation is asynchronous; its completion arrives later on the
    /// completion channel, tagged with the operation id.
    Pending,
    /// An exception is pending in the guest engine.
    Raised,
}

/// The fixed table of operation ids registered at startup.
pub struct OpTable {
    pub ids: Vec<u32>,
}

impl OpTable {
    /// Whether an operation with this id is registered.
    pub open spec fn spec_registered(self, op_id: u32) -> bool {
        self.ids@.contains(op_id)
    }

    pub fn new() -> (r: Self)
        ensures
            r.ids@ == Seq::<u32>::empty(),
    {
        let r = OpTable { ids: Vec::new() };
        proof {
            assert(r.ids@ =~= Seq::<u32>::empty());
        }
        r
    }

    /// Adds one operation id to the table; part of the startup wiring.
    pub fn register(&mut self, op_id: u32)
        ensures
            final(self).ids@ == old(self).ids@.push(op_id),
            final(self).spec_registered(op_id),
    {
        self.ids.push(op_id);
        proof {
            assert(self.ids@.last() == op_id);
        }
    }

    /// Whether an operation with this id is registered.
    pub fn is_registered(&self, op_id: u32) -> (b: bool)
        ensures
            b == self.spec_registered(op_id),
    {
        let mut i: usize = 0;
        while i < self.ids.len()
            invariant
                i <= self.ids@.len(),
                forall|j: int| 0 <= j < i ==> self.ids@[j] != op_id,
            decreases self.ids@.len() - i,
        {
            if self.ids[i] == op_id {
                return true;
            }
            i = i + 1;
        }
        false
    }
}

} // verus!
