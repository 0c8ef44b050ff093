//! Buffer arbiter: a single-slot cache for small synchronous responses.
//!
//! Responses no larger than [`SHARED_RESPONSE_BUF_SIZE`] are written into one
//! shared backing allocation that is created the first time it is needed and
//! then reused, overwriting its contents, for every later small response.
//! Larger responses always get a fresh allocation of exactly their size. The
//! guest must consume a shared response before the next dispatch call returns
//! a value into the slot; that aliasing window is the documented price of
//! avoiding per-call allocation on the small-response hot path.

use vstd::prelude::*;
use vstd::pervasive::VecAdditionalExecFns;

verus! {

/// Byte-size threshold of the shared response slot. Responses of at most this
/// many bytes reuse the shared slot; larger ones are freshly allocated.
pub const SHARED_RESPONSE_BUF_SIZE: usize = 1024;

/// Descriptor of one response buffer as handed back to the guest. It reports
/// the logical size actually written even when the backing allocation is the
/// larger fixed-size shared slot.
#[derive(Debug, PartialEq, Eq)]
pub enum ResponseBuffer {
    /// The response occupies the first `len` bytes of the arbiter's shared
    /// slot. `reused` records whether the slot already existed before this
    /// response was written (false exactly when this response created it).
    Shared { len: usize, reused: bool },
    /// The response has a fresh backing allocation of exactly its size.
    Owned { bytes: Vec<u8> },
}

/// Everything one call of [`BufferArbiter::acquire`] does: how the arbiter
/// steps from `pre` to `post` when it places the bytes `data` into the
/// response `r`.
pub open spec fn acquire_post(
    pre: BufferArbiter,
    post: BufferArbiter,
    data: Seq<u8>,
    r: ResponseBuffer,
) -> bool {
    &&& post.wf()
    &&& post.response_view(r) == data
    &&& data.len() > SHARED_RESPONSE_BUF_SIZE ==> {
        &&& r matches ResponseBuffer::Owned { bytes } && bytes@ == data
        &&& post == pre
    }
    &&& data.len() <= SHARED_RESPONSE_BUF_SIZE ==> {
        &&& (r matches ResponseBuffer::Shared { len, reused } && len == data.len() && reused
            == pre.slot_allocated())
        &&& post.slot_allocated()
        &&& pre.slot_allocated() ==> post.slot->0@.skip(data.len() as int) == pre.slot->0@.skip(
            data.len() as int,
        )
    }
}

/// Owner of the shared response slot. One arbiter belongs to one execution
/// context and lives as long as it does.
pub struct BufferArbiter {
    /// The shared backing allocation; `None` until the first small response
    /// is written, then `Some` of exactly `SHARED_RESPONSE_BUF_SIZE` bytes
    /// for the rest of the arbiter's life.
    pub slot: Option<Vec<u8>>,
}

impl BufferArbiter {
    /// The slot, once created, always has exactly the fixed threshold size.
    pub open spec fn wf(self) -> bool {
        self.slot matches Some(s) ==> s@.len() == SHARED_RESPONSE_BUF_SIZE
    }

    /// Whether the shared backing allocation exists yet.
    pub open spec fn slot_allocated(self) -> bool {
        self.slot is Some
    }

    /// The bytes that a response descriptor issued by this arbiter denotes.
    pub open spec fn response_view(self, r: ResponseBuffer) -> Seq<u8> {
        match r {
            ResponseBuffer::Shared { len, .. } => self.slot->0@.subrange(0, len as int),
            ResponseBuffer::Owned { bytes } => bytes@,
        }
    }

    pub fn new() -> (r: Self)
        ensures
            r.wf(),
            !r.slot_allocated(),
    {
        BufferArbiter { slot: None }
    }

    /// Places one response into a buffer: a fresh allocation when it is
    /// larger than the shared-slot threshold, otherwise the shared slot,
    /// created on first use and reused (contents overwritten) afterwards.
    pub fn acquire(&mut self, data: &Vec<u8>) -> (r: ResponseBuffer)
        requires
            old(self).wf(),
        ensures
            acquire_post(*old(self), *final(self), data@, r),
    {
        if data.len() > SHARED_RESPONSE_BUF_SIZE {
            let mut bytes: Vec<u8> = Vec::new();
            bytes.extend_from_slice(data.as_slice());
            assert(bytes@ =~= data@);
            ResponseBuffer::Owned { bytes }
        } else {
            let reused: bool = self.slot.is_some();
            let mut slot: Vec<u8> = match self.slot.take() {
                Some(s) => s,
                None => vec![0u8; SHARED_RESPONSE_BUF_SIZE],
            };
            let ghost slot0: Seq<u8> = slot@;
            let mut i: usize = 0;
            while i < data.len()
                invariant
                    i <= data@.len() <= SHARED_RESPONSE_BUF_SIZE,
                    slot@.len() == SHARED_RESPONSE_BUF_SIZE,
                    slot0.len() == SHARED_RESPONSE_BUF_SIZE,
                    slot@.subrange(0, i as int) == data@.subrange(0, i as int),
                    slot@.skip(data@.len() as int) == slot0.skip(data@.len() as int),
                decreases data@.len() - i,
            {
                let ghost before: Seq<u8> = slot@;
                slot.set(i, data[i]);
                assert(slot@.subrange(0, (i + 1) as int) =~= data@.subrange(0, (i + 1) as int));
                assert(slot@.skip(data@.len() as int) =~= before.skip(data@.len() as int));
                i = i + 1;
            }
            self.slot = Some(slot);
            let r = ResponseBuffer::Shared { len: data.len(), reused };
            assert(self.response_view(r) =~= data@);
            r
        }
    }

    /// Copies the bytes a response denotes out into an owned vector; what a
    /// guest does when it drains a response before the slot is reused.
    pub fn read_response(&self, r: &ResponseBuffer) -> (out: Vec<u8>)
        requires
            self.wf(),
            (r matches ResponseBuffer::Shared { len, .. } ==> self.slot_allocated() && len
                <= SHARED_RESPONSE_BUF_SIZE),
        ensures
            out@ == self.response_view(*r),
    {
        match r {
            ResponseBuffer::Shared { len, .. } => {
                let slot: &Vec<u8> = self.slot.as_ref().unwrap();
                let mut out: Vec<u8> = Vec::new();
                let mut i: usize = 0;
                while i < *len
                    invariant
                        i <= *len <= SHARED_RESPONSE_BUF_SIZE,
                        slot == self.slot->0,
                        slot@.len() == SHARED_RESPONSE_BUF_SIZE,
                        out@ == slot@.subrange(0, i as int),
                    decreases *len - i,
                {
                    out.push(slot[i]);
                    assert(out@ =~= slot@.subrange(0, (i + 1) as int));
                    i = i + 1;
                }
                out
            }
            ResponseBuffer::Owned { bytes } => {
                let mut out: Vec<u8> = Vec::new();
                out.extend_from_slice(bytes.as_slice());
                assert(out@ =~= bytes@);
                out
            }
        }
    }
}

/// Law: for responses at or below the threshold, consecutive acquisitions
/// share one backing slot: the first call makes sure the slot exists, and
/// the second call reuses that same slot rather than allocating. For a
/// response above the threshold the buffer is a fresh allocation of its own
/// and the slot is left untouched.
pub proof fn lemma_small_responses_reuse_slot(
    a0: BufferArbiter,
    a1: BufferArbiter,
    a2: BufferArbiter,
    d1: Seq<u8>,
    d2: Seq<u8>,
    r1: ResponseBuffer,
    r2: ResponseBuffer,
)
    requires
        d1.len() <= SHARED_RESPONSE_BUF_SIZE,
        d2.len() <= SHARED_RESPONSE_BUF_SIZE,
        acquire_post(a0, a1, d1, r1),
        acquire_post(a1, a2, d2, r2),
    ensures
        a1.slot_allocated(),
        a2.slot_allocated(),
        r2 matches ResponseBuffer::Shared { reused, .. } && reused,
{
}

/// Law: a response larger than the threshold never goes through the shared
/// slot: it is an owned buffer holding exactly the response bytes, and the
/// arbiter (in particular the slot) is exactly as it was.
pub proof fn lemma_large_response_fresh(
    a0: BufferArbiter,
    a1: BufferArbiter,
    d: Seq<u8>,
    r: ResponseBuffer,
)
    requires
        d.len() > SHARED_RESPONSE_BUF_SIZE,
        acquire_post(a0, a1, d, r),
    ensures
        r matches ResponseBuffer::Owned { bytes } && bytes@ == d,
        a1 == a0,
{
}

} // verus!
