//! Diagnostic encoder: turns an engine exception or diagnostic message into
//! a structured record the host can log or forward.
//!
//! The encoder is a pure, stateless transformation. It copies the message
//! text, source location and flags, and flattens the stack trace into an
//! ordered run of frames. A frame whose script name the engine could not
//! supply gets a fixed placeholder instead, and a message with no stack
//! trace at all still yields a single synthetic frame built from the
//! message's own location fields, so downstream consumers never have to
//! special-case the no-stack-trace shape.

use vstd::prelude::*;

verus! {

/// The placeholder script name for a frame whose script the engine did not
/// name.
pub const UNKNOWN_SCRIPT_NAME: &'static str = "<unknown>";

/// One stack frame as read out of the engine's stack trace.
#[derive(Clone, Debug, PartialEq, Eq)]
pub struct EngineFrame {
    pub line: u64,
    pub column: u64,
    /// The enclosing function's name, when the engine knows one.
    pub function_name: Option<String>,
    /// The script name or source URL, when the engine knows one.
    pub script_name: Option<String>,
    pub is_eval: bool,
    pub is_constructor: bool,
    /// True for a frame inside the engine itself.
    pub is_internal: bool,
}

/// An engine exception or diagnostic message, as the plain values the
/// encoder reads from it.
#[derive(Clone, Debug, PartialEq, Eq)]
pub struct EngineMessage {
    pub message: String,
    pub resource_name: String,
    pub source_line: String,
    pub line_number: u64,
    pub start_position: u64,
    pub end_position: u64,
    pub error_level: u64,
    pub start_column: u64,
    pub end_column: u64,
    pub is_shared_cross_origin: bool,
    pub is_opaque: bool,
    /// The stack trace, when the engine captured one.
    pub stack: Option<Vec<EngineFrame>>,
}

/// One encoded stack frame of a diagnostic record.
#[derive(Clone, Debug, PartialEq, Eq)]
pub struct StackFrame {
    pub line: u64,
    pub column: u64,
    /// Present only when the engine named the enclosing function.
    pub function_name: Option<String>,
    /// The script name, or the fixed placeholder when unavailable.
    pub script_name: String,
    pub is_eval: bool,
    pub is_constructor: bool,
    pub is_internal: bool,
}

/// Mathematical image of one encoded stack frame.
pub ghost struct FrameView {
    pub line: u64,
    pub column: u64,
    pub function_name: Option<Seq<char>>,
    pub script_name: Seq<char>,
    pub is_eval: bool,
    pub is_constructor: bool,
    pub is_internal: bool,
}

impl View for StackFrame {
    type V = FrameView;

    open spec fn view(&self) -> FrameView {
        FrameView {
            line: self.line,
            column: self.column,
            function_name: match self.function_name {
                Some(s) => Some(s@),
                None => None,
            },
            script_name: self.script_name@,
            is_eval: self.is_eval,
            is_constructor: self.is_constructor,
            is_internal: self.is_internal,
        }
    }
}

impl DeepView for StackFrame {
    type V = FrameView;

    open spec fn deep_view(&self) -> FrameView {
        self.view()
    }
}

/// The structured, serializable record of one engine diagnostic.
#[derive(Clone, Debug, PartialEq, Eq)]
pub struct DiagnosticRecord {
    pub message: String,
    pub resource_name: String,
    pub source_line: String,
    pub line_number: u64,
    pub start_position: u64,
    pub end_position: u64,
    pub error_level: u64,
    pub start_column: u64,
    pub end_column: u64,
    pub is_shared_cross_origin: bool,
    pub is_opaque: bool,
    /// The stack frames in their original order; never empty, thanks to the
    /// synthetic frame for stack-less messages.
    pub frames: Vec<StackFrame>,
}

/// Mathematical image of a diagnostic record.
pub ghost struct RecordView {
    pub message: Seq<char>,
    pub resource_name: Seq<char>,
    pub source_line: Seq<char>,
    pub line_number: u64,
    pub start_position: u64,
    pub end_position: u64,
    pub error_level: u64,
    pub start_column: u64,
    pub end_column: u64,
    pub is_shared_cross_origin: bool,
    pub is_opaque: bool,
    pub frames: Seq<FrameView>,
}

impl View for DiagnosticRecord {
    type V = RecordView;

    open spec fn view(&self) -> RecordView {
        RecordView {
            message: self.message@,
            resource_name: self.resource_name@,
            source_line: self.source_line@,
            line_number: self.line_number,
            start_position: self.start_position,
            end_position: self.end_position,
            error_level: self.error_level,
            start_column: self.start_column,
            end_column: self.end_column,
            is_shared_cross_origin: self.is_shared_cross_origin,
            is_opaque: self.is_opaque,
            frames: self.frames.deep_view(),
        }
    }
}

/// How one encoded frame relates to the engine frame it came from: every
/// field carried over, with the placeholder standing in for a missing
/// script name.
pub open spec fn frame_encodes(out: FrameView, f: EngineFrame) -> bool {
    &&& out.line == f.line
    &&& out.column == f.column
    &&& (match (out.function_name, f.function_name) {
        (Some(a), Some(b)) => a == b@,
        (None, None) => true,
        _ => false,
    })
    &&& (match f.script_name {
        Some(s) => out.script_name == s@,
        None => out.script_name == UNKNOWN_SCRIPT_NAME@,
    })
    &&& out.is_eval == f.is_eval
    &&& out.is_constructor == f.is_constructor
    &&& out.is_internal == f.is_internal
}

/// The single frame synthesized for a message without a stack trace: the
/// message's own location fields, mirroring the real-frame shape.
pub open spec fn frame_is_synthetic(out: FrameView, msg: EngineMessage) -> bool {
    &&& out.line == msg.line_number
    &&& out.column == msg.start_column
    &&& out.function_name is None
    &&& out.script_name == msg.resource_name@
    &&& !out.is_eval
    &&& !out.is_constructor
    &&& !out.is_internal
}

/// Encodes one engine message into a diagnostic record. Every text and
/// location field is carried over unchanged; the frames are the stack trace
/// in its original order, or the one synthetic frame when the engine
/// captured no stack trace.
pub fn encode_message(msg: &EngineMessage) -> (r: DiagnosticRecord)
    ensures
        r@.message == msg.message@,
        r@.resource_name == msg.resource_name@,
        r@.source_line == msg.source_line@,
        r@.line_number == msg.line_number,
        r@.start_position == msg.start_position,
        r@.end_position == msg.end_position,
        r@.error_level == msg.error_level,
        r@.start_column == msg.start_column,
        r@.end_column == msg.end_column,
        r@.is_shared_cross_origin == msg.is_shared_cross_origin,
        r@.is_opaque == msg.is_opaque,
        msg.stack matches Some(stack) ==> r@.frames.len() == stack@.len() && (forall|i: int|
            0 <= i < stack@.len() ==> frame_encodes(r@.frames[i], stack@[i])),
        msg.stack is None ==> r@.frames.len() == 1 && frame_is_synthetic(r@.frames[0], *msg),
{
    let frames: Vec<StackFrame> = match &msg.stack {
        Some(stack) => {
            let mut frames: Vec<StackFrame> = Vec::new();
            let mut i: usize = 0;
            while i < stack.len()
                invariant
                    i <= stack@.len(),
                    frames@.len() == i,
                    forall|j: int| 0 <= j < i ==> frame_encodes(frames.deep_view()[j], stack@[j]),
                decreases stack@.len() - i,
            {
                let f = &stack[i];
                let function_name: Option<String> = match &f.function_name {
                    Some(name) => Some(name.clone()),
                    None => None,
                };
                let script_name: String = match &f.script_name {
                    Some(name) => name.clone(),
                    None => UNKNOWN_SCRIPT_NAME.to_owned(),
                };
                let out = StackFrame {
                    line: f.line,
                    column: f.column,
                    function_name,
                    script_name,
                    is_eval: f.is_eval,
                    is_constructor: f.is_constructor,
                    is_internal: f.is_internal,
                };
                assert(frame_encodes(out@, stack@[i as int]));
                frames.push(out);
                i = i + 1;
            }
            frames
        }
        None => {
            let out = StackFrame {
                line: msg.line_number,
                column: msg.start_column,
                function_name: None,
                script_name: msg.resource_name.clone(),
                is_eval: false,
                is_constructor: false,
                is_internal: false,
            };
            let mut frames: Vec<StackFrame> = Vec::new();
            frames.push(out);
            frames
        }
    };
    DiagnosticRecord {
        message: msg.message.clone(),
        resource_name: msg.resource_name.clone(),
        source_line: msg.source_line.clone(),
        line_number: msg.line_number,
        start_position: msg.start_position,
        end_position: msg.end_position,
        error_level: msg.error_level,
        start_column: msg.start_column,
        end_column: msg.end_column,
        is_shared_cross_origin: msg.is_shared_cross_origin,
        is_opaque: msg.is_opaque,
        frames,
    }
}

} // verus!
