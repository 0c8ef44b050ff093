use engine_bridge::eval::{
    eval_report, module_origin, script_origin, ErrorInfo, EvalReport, ScriptOutcome,
    BRIDGE_SCRIPT_ID,
};

#[test]
fn compile_failure_fills_only_the_error_slot() {
    let report = eval_report(ScriptOutcome::CompileFailed { thrown_is_native: true });
    assert_eq!(
        report,
        EvalReport {
            has_result: false,
            error: Some(ErrorInfo { is_compile_error: true, is_native_error: true }),
        }
    );
}

#[test]
fn run_failure_fills_only_the_error_slot() {
    let report = eval_report(ScriptOutcome::RunFailed { thrown_is_native: false });
    assert_eq!(
        report,
        EvalReport {
            has_result: false,
            error: Some(ErrorInfo { is_compile_error: false, is_native_error: false }),
        }
    );
}

#[test]
fn completion_fills_only_the_result_slot() {
    let report = eval_report(ScriptOutcome::Completed);
    assert_eq!(report, EvalReport { has_result: true, error: None });
}

#[test]
fn origins_differ_only_in_the_module_flag() {
    let script = script_origin("a.src".to_owned());
    let module = module_origin("a.src".to_owned());
    assert!(!script.is_module);
    assert!(module.is_module);
    assert_eq!(script.script_id, BRIDGE_SCRIPT_ID);
    assert_eq!(script.resource_name, module.resource_name);
    assert_eq!(script.line_offset, 0);
    assert_eq!(script.column_offset, 0);
    assert!(script.opaque && module.opaque);
    assert!(!script.is_wasm && !module.is_wasm);
    assert_eq!(script.source_map_url, module.source_map_url);
}
