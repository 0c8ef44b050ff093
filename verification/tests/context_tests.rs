use engine_bridge::buffer::ResponseBuffer;
use engine_bridge::context::{BridgeError, ExecutionContext};
use engine_bridge::diagnostic::{EngineFrame, EngineMessage};
use engine_bridge::dispatch::{DispatchOutcome, OpResult, OpTable};
use engine_bridge::wire::deserialize_record;

fn ops_with(ids: &[u32]) -> OpTable {
    let mut ops = OpTable::new();
    for id in ids {
        ops.register(*id);
    }
    ops
}

#[test]
fn registering_the_completion_channel_twice_fails_and_keeps_the_first() {
    let mut ctx = ExecutionContext::new(OpTable::new());
    assert_eq!(ctx.register_completion_channel(41), Ok(()));
    assert_eq!(ctx.completion_channel(), Some(41));
    assert_eq!(
        ctx.register_completion_channel(42),
        Err(BridgeError::ChannelAlreadyRegistered)
    );
    assert_eq!(ctx.completion_channel(), Some(41), "the first registration stays");
}

#[test]
fn sync_echo_dispatch_returns_an_immediate_equal_buffer() {
    let mut ctx = ExecutionContext::new(ops_with(&[5]));
    let control: Vec<u8> = vec![0, 1, 2, 3, 4, 5, 6, 7, 8, 9];
    // Operation 5 is synchronous and echoes its control buffer; the test
    // plays the host side and hands the bridge the operation's output.
    let outcome = ctx.dispatch(5, &control, None, OpResult::Sync(control.clone()));
    match outcome {
        DispatchOutcome::Immediate(buf) => {
            assert!(matches!(buf, ResponseBuffer::Shared { len: 10, .. }));
            assert_eq!(ctx.arbiter.read_response(&buf), control);
        }
        _ => panic!("a synchronous operation must produce an immediate response"),
    }
}

#[test]
fn async_dispatch_is_pending() {
    let mut ctx = ExecutionContext::new(ops_with(&[5]));
    let outcome = ctx.dispatch(5, &vec![1u8], None, OpResult::Async);
    assert_eq!(outcome, DispatchOutcome::Pending);
}

#[test]
fn raising_dispatch_reports_raised() {
    let mut ctx = ExecutionContext::new(ops_with(&[5]));
    let outcome = ctx.dispatch(5, &vec![1u8], None, OpResult::Raised);
    assert_eq!(outcome, DispatchOutcome::Raised);
}

#[test]
fn unknown_op_id_raises_without_touching_the_slot() {
    let mut ctx = ExecutionContext::new(ops_with(&[5]));
    let outcome = ctx.dispatch(6, &vec![1u8], None, OpResult::Sync(vec![1u8]));
    assert_eq!(outcome, DispatchOutcome::Raised);
    assert!(ctx.arbiter.slot.is_none());
}

#[test]
fn captured_diagnostic_parses_back_to_the_message() {
    let mut ctx = ExecutionContext::new(OpTable::new());
    let msg = EngineMessage {
        message: "boom".to_owned(),
        resource_name: "main.mod".to_owned(),
        source_line: "throw boom".to_owned(),
        line_number: 3,
        start_position: 14,
        end_position: 18,
        error_level: 8,
        start_column: 6,
        end_column: 10,
        is_shared_cross_origin: false,
        is_opaque: true,
        stack: Some(vec![EngineFrame {
            line: 3,
            column: 6,
            function_name: Some("f".to_owned()),
            script_name: Some("main.mod".to_owned()),
            is_eval: false,
            is_constructor: false,
            is_internal: false,
        }]),
    };
    ctx.capture_diagnostic(&msg);
    let bytes = ctx.last_diagnostic.clone().expect("a diagnostic was captured");
    let rec = deserialize_record(&bytes).expect("stored bytes parse");
    assert_eq!(rec.message, "boom");
    assert_eq!(rec.resource_name, "main.mod");
    assert_eq!(rec.frames.len(), 1);
    assert_eq!(rec.frames[0].line, 3);
}

#[test]
fn empty_sync_response_is_an_immediate_empty_buffer() {
    let mut ctx = ExecutionContext::new(ops_with(&[5]));
    let outcome = ctx.dispatch(5, &vec![1u8], None, OpResult::Sync(Vec::new()));
    match outcome {
        DispatchOutcome::Immediate(buf) => {
            assert!(matches!(buf, ResponseBuffer::Shared { len: 0, .. }));
            assert_eq!(ctx.arbiter.read_response(&buf), Vec::<u8>::new());
        }
        _ => panic!("an empty synchronous result is still an immediate response"),
    }
}
