//! The execution context: one instance of the bridge bound to one running
//! engine instance.
//!
//! The context owns the single completion-channel registration, the shared
//! response slot, the rejection tracker, the dynamic-import resolver, the
//! module registry and the last captured diagnostic. It is created at
//! engine-instance startup, driven from the single logical thread that owns
//! that engine's turn, and torn down with the instance; pending imports are
//! simply dropped at teardown.

use vstd::prelude::*;
use crate::buffer::{BufferArbiter, acquire_post};
use crate::diagnostic::{EngineMessage, encode_message, frame_encodes, frame_is_synthetic};
use crate::dispatch::{DispatchOutcome, OpResult, OpTable};
use crate::imports::DynamicImportResolver;
use crate::modules::ModuleRegistry;
use crate::rejection::RejectionTracker;
use crate::wire::{lemma_record_round_trip, serialize_record, spec_parse_record_exact};

verus! {

/// A guest-visible error of the bridge itself.
#[derive(Clone, Copy, Debug, PartialEq, Eq)]
pub enum BridgeError {
    /// A completion channel was already registered for this context;
    /// registering a second one is a programming error and leaves the first
    /// registration in place.
    ChannelAlreadyRegistered,
}

/// One bridge instance, exclusively owned by the host-side driver of one
/// engine instance.
pub struct ExecutionContext {
    /// The registered completion-channel callback handle; at most one for
    /// the context's whole life.
    pub channel: Option<u64>,
    /// The shared response slot for small synchronous results.
    pub arbiter: BufferArbiter,
    /// Which deferred values are currently unhandled rejections.
    pub rejections: RejectionTracker,
    /// In-flight dynamic module-load requests.
    pub imports: DynamicImportResolver,
    /// All modules registered for this engine instance.
    pub modules: ModuleRegistry,
    /// The operation ids the host registered at startup.
    pub ops: OpTable,
    /// The serialized record of the last captured engine diagnostic.
    pub last_diagnostic: Option<Vec<u8>>,
}

impl ExecutionContext {
    pub open spec fn wf(self) -> bool {
        &&& self.arbiter.wf()
        &&& self.imports.wf()
        &&& self.modules.wf()
    }

    /// Everything of the context except the response slot is as it was;
    /// dispatch touches nothing but the slot.
    pub open spec fn only_arbiter_changed(pre: Self, post: Self) -> bool {
        &&& post.channel == pre.channel
        &&& post.rejections@ == pre.rejections@
        &&& post.imports == pre.imports
        &&& post.modules@ == pre.modules@
        &&& post.ops == pre.ops
        &&& post.last_diagnostic == pre.last_diagnostic
    }

    /// A fresh context for a newly started engine instance: nothing
    /// registered, nothing pending, no slot allocated yet.
    pub fn new(ops: OpTable) -> (r: Self)
        ensures
            r.wf(),
            r.channel is None,
            !r.arbiter.slot_allocated(),
            r.rejections@ == Map::<u64, u64>::empty(),
            r.imports@ == Map::<u64, u64>::empty(),
            r.imports.next_import_id == 0,
            r.modules@ == Seq::<crate::modules::ModuleInfoView>::empty(),
            r.ops == ops,
            r.last_diagnostic is None,
    {
        ExecutionContext {
            channel: None,
            arbiter: BufferArbiter::new(),
            rejections: RejectionTracker::new(),
            imports: DynamicImportResolver::new(),
            modules: ModuleRegistry::new(),
            ops,
            last_diagnostic: None,
        }
    }

    /// Registers the single guest callback that receives every asynchronous
    /// completion. A second registration fails without replacing the first:
    /// re-registration is a programming error the guest gets to see.
    pub fn register_completion_channel(&mut self, callback: u64) -> (r: Result<(), BridgeError>)
        ensures
            match r {
                Ok(()) => old(self).channel is None && *final(self) == (ExecutionContext {
                    channel: Some(callback),
                    ..*old(self)
                }),
                Err(BridgeError::ChannelAlreadyRegistered) => old(self).channel is Some
                    && *final(self) == *old(self),
            },
    {
        if self.channel.is_some() {
            Err(BridgeError::ChannelAlreadyRegistered)
        } else {
            self.channel = Some(callback);
            Ok(())
        }
    }

    /// The handle every completion must be delivered through, once the
    /// guest has registered it.
    pub fn completion_channel(&self) -> (r: Option<u64>)
        ensures
            r == self.channel,
    {
        self.channel
    }

    /// One dispatch call from the guest: `op_id` names the operation,
    /// `control` is the guest's control buffer and `aux` its optional
    /// pinned auxiliary buffer (both belong to the operation, the bridge
    /// only routes them), and `op_output` is what the matched operation
    /// reported when it was invoked with `(control, aux)`.
    ///
    /// An unregistered id leaves an exception pending in the guest. A
    /// synchronous result is placed into a response buffer through the
    /// shared-slot arbiter; an asynchronous operation yields `Pending` and
    /// its bytes arrive later on the completion channel; an operation that
    /// raised reports `Raised`. Nothing else of the context moves.
    pub fn dispatch(
        &mut self,
        op_id: u32,
        control: &Vec<u8>,
        aux: Option<&Vec<u8>>,
        op_output: OpResult,
    ) -> (r: DispatchOutcome)
        requires
            old(self).wf(),
        ensures
            final(self).wf(),
            Self::only_arbiter_changed(*old(self), *final(self)),
            !old(self).ops.spec_registered(op_id) ==> r is Raised && final(self).arbiter == old(
                self,
            ).arbiter,
            old(self).ops.spec_registered(op_id) ==> match op_output {
                OpResult::Sync(bytes) => (r matches DispatchOutcome::Immediate(buf)
                    && acquire_post(old(self).arbiter, final(self).arbiter, bytes@, buf)),
                OpResult::Async => r is Pending && final(self).arbiter == old(self).arbiter,
                OpResult::Raised => r is Raised && final(self).arbiter == old(self).arbiter,
            },
    {
        let _ = aux;
        let _ = control;
        if !self.ops.is_registered(op_id) {
            return DispatchOutcome::Raised;
        }
        match op_output {
            OpResult::Sync(bytes) => {
                let buf = self.arbiter.acquire(&bytes);
                DispatchOutcome::Immediate(buf)
            }
            OpResult::Async => DispatchOutcome::Pending,
            OpResult::Raised => DispatchOutcome::Raised,
        }
    }

    /// Captures one engine diagnostic as the context's last diagnostic: the
    /// message is encoded into a record, the record serialized, and the
    /// bytes stored. Parsing the stored bytes yields a record that carries
    /// the message's texts, locations and frames exactly as the encoder
    /// states. Every fatal engine-level error is routed through here before
    /// teardown, so the host always holds a structured final diagnostic.
    pub fn capture_diagnostic(&mut self, msg: &EngineMessage)
        requires
            old(self).wf(),
        ensures
            final(self).wf(),
            final(self).channel == old(self).channel,
            final(self).arbiter == old(self).arbiter,
            final(self).rejections@ == old(self).rejections@,
            final(self).imports == old(self).imports,
            final(self).modules@ == old(self).modules@,
            final(self).ops == old(self).ops,
            final(self).last_diagnostic matches Some(bytes) && (spec_parse_record_exact(bytes@)
                matches Some(v) && {
                &&& v.message == msg.message@
                &&& v.resource_name == msg.resource_name@
                &&& v.source_line == msg.source_line@
                &&& v.line_number == msg.line_number
                &&& v.start_position == msg.start_position
                &&& v.end_position == msg.end_position
                &&& v.error_level == msg.error_level
                &&& v.start_column == msg.start_column
                &&& v.end_column == msg.end_column
                &&& v.is_shared_cross_origin == msg.is_shared_cross_origin
                &&& v.is_opaque == msg.is_opaque
                &&& (msg.stack matches Some(stack) ==> v.frames.len() == stack@.len() && (forall|
                    i: int,
                |
                    0 <= i < stack@.len() ==> frame_encodes(v.frames[i], stack@[i])))
                &&& (msg.stack is None ==> v.frames.len() == 1 && frame_is_synthetic(
                    v.frames[0],
                    *msg,
                ))
            }),
    {
        let record = encode_message(msg);
        let bytes = serialize_record(&record);
        proof {
            lemma_record_round_trip(record@);
        }
        self.last_diagnostic = Some(bytes);
    }
}

} // verus!
