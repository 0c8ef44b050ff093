use engine_bridge::diagnostic::{
    encode_message, DiagnosticRecord, EngineFrame, EngineMessage, StackFrame, UNKNOWN_SCRIPT_NAME,
};
use engine_bridge::wire::{deserialize_record, serialize_record};

fn frame(line: u64, column: u64, function_name: Option<&str>, script_name: Option<&str>) -> EngineFrame {
    EngineFrame {
        line,
        column,
        function_name: function_name.map(|s| s.to_owned()),
        script_name: script_name.map(|s| s.to_owned()),
        is_eval: false,
        is_constructor: false,
        is_internal: false,
    }
}

fn three_frame_message() -> EngineMessage {
    EngineMessage {
        message: "TypeError: x is not a function".to_owned(),
        resource_name: "app.mod".to_owned(),
        source_line: "x();".to_owned(),
        line_number: 12,
        start_position: 140,
        end_position: 143,
        error_level: 8,
        start_column: 0,
        end_column: 3,
        is_shared_cross_origin: false,
        is_opaque: true,
        stack: Some(vec![
            frame(12, 0, Some("inner"), Some("app.mod")),
            frame(30, 4, None, Some("lib.mod")),
            frame(7, 2, Some("main"), None),
        ]),
    }
}

#[test]
fn encoding_carries_every_field_and_frame_order() {
    let msg = three_frame_message();
    let rec = encode_message(&msg);
    assert_eq!(rec.message, msg.message);
    assert_eq!(rec.resource_name, msg.resource_name);
    assert_eq!(rec.source_line, msg.source_line);
    assert_eq!(rec.line_number, 12);
    assert_eq!(rec.error_level, 8);
    assert_eq!(rec.frames.len(), 3);
    assert_eq!(rec.frames[0].function_name.as_deref(), Some("inner"));
    assert_eq!(rec.frames[1].function_name, None);
    assert_eq!(rec.frames[1].script_name, "lib.mod");
    assert_eq!(
        rec.frames[2].script_name, UNKNOWN_SCRIPT_NAME,
        "a missing script name becomes the placeholder"
    );
}

#[test]
fn message_without_stack_gets_one_synthetic_frame() {
    let mut msg = three_frame_message();
    msg.stack = None;
    let rec = encode_message(&msg);
    assert_eq!(rec.frames.len(), 1);
    let synthetic = &rec.frames[0];
    assert_eq!(synthetic.line, msg.line_number);
    assert_eq!(synthetic.column, msg.start_column);
    assert_eq!(synthetic.script_name, msg.resource_name);
    assert_eq!(synthetic.function_name, None);
    assert!(!synthetic.is_eval && !synthetic.is_constructor && !synthetic.is_internal);
}

#[test]
fn serialized_three_frame_diagnostic_round_trips() {
    let msg = three_frame_message();
    let rec = encode_message(&msg);
    let bytes = serialize_record(&rec);
    let back = deserialize_record(&bytes).expect("the serializer's output parses");
    assert_eq!(back.message, rec.message);
    assert_eq!(back.resource_name, rec.resource_name);
    assert_eq!(back.frames.len(), 3);
    for i in 0..3 {
        assert_eq!(back.frames[i].line, rec.frames[i].line);
        assert_eq!(back.frames[i].column, rec.frames[i].column);
    }
    assert_eq!(back, rec, "parsing recovers the record exactly");
}

#[test]
fn non_ascii_text_survives_the_round_trip() {
    let rec = DiagnosticRecord {
        message: "非対応の操作 → ошибка".to_owned(),
        resource_name: "m.mod".to_owned(),
        source_line: "värde".to_owned(),
        line_number: 1,
        start_position: 2,
        end_position: 3,
        error_level: 4,
        start_column: 5,
        end_column: 6,
        is_shared_cross_origin: true,
        is_opaque: false,
        frames: vec![StackFrame {
            line: 9,
            column: 8,
            function_name: Some("λ".to_owned()),
            script_name: "m.mod".to_owned(),
            is_eval: true,
            is_constructor: true,
            is_internal: true,
        }],
    };
    let bytes = serialize_record(&rec);
    assert_eq!(deserialize_record(&bytes), Some(rec));
}

#[test]
fn trailing_bytes_are_refused() {
    let rec = encode_message(&three_frame_message());
    let mut bytes = serialize_record(&rec);
    bytes.push(0);
    assert_eq!(deserialize_record(&bytes), None);
}

#[test]
fn truncated_bytes_are_refused() {
    let rec = encode_message(&three_frame_message());
    let mut bytes = serialize_record(&rec);
    bytes.pop();
    assert_eq!(deserialize_record(&bytes), None);
}

#[test]
fn corrupt_flag_byte_is_refused() {
    let rec = DiagnosticRecord {
        message: String::new(),
        resource_name: String::new(),
        source_line: String::new(),
        line_number: 0,
        start_position: 0,
        end_position: 0,
        error_level: 0,
        start_column: 0,
        end_column: 0,
        is_shared_cross_origin: false,
        is_opaque: false,
        frames: Vec::new(),
    };
    let mut bytes = serialize_record(&rec);
    // The two flag bytes sit right before the eight-byte frame count.
    let flag_at = bytes.len() - 8 - 2;
    bytes[flag_at] = 7;
    assert_eq!(deserialize_record(&bytes), None);
}

#[test]
fn invalid_utf8_in_a_text_field_is_refused() {
    let rec = DiagnosticRecord {
        message: "ab".to_owned(),
        resource_name: String::new(),
        source_line: String::new(),
        line_number: 0,
        start_position: 0,
        end_position: 0,
        error_level: 0,
        start_column: 0,
        end_column: 0,
        is_shared_cross_origin: false,
        is_opaque: false,
        frames: Vec::new(),
    };
    let mut bytes = serialize_record(&rec);
    // The message bytes follow its eight-byte length prefix.
    bytes[8] = 0xff;
    bytes[9] = 0xfe;
    assert_eq!(deserialize_record(&bytes), None);
}
