//! Script origins and the shape of a host-initiated evaluation's result.
//!
//! Compiling and running a script is the engine's work; what belongs to the
//! bridge is the fixed origin settings a compilation is given and the exact
//! report handed back to the guest: a result slot and an error slot, of
//! which always exactly one is filled.

use vstd::prelude::*;

verus! {

/// The origin settings a script or module compilation is created with.
#[derive(Clone, Debug, PartialEq, Eq)]
pub struct OriginSettings {
    /// Name of the resource the source text came from.
    pub resource_name: String,
    pub line_offset: u64,
    pub column_offset: u64,
    pub shared_cross_origin: bool,
    pub script_id: u64,
    pub source_map_url: String,
    pub opaque: bool,
    pub is_wasm: bool,
    /// True for a module compilation, false for a classic script.
    pub is_module: bool,
}

/// The fixed script id every bridge-made compilation carries.
pub const BRIDGE_SCRIPT_ID: u64 = 123;

/// The origin settings for a classic script compilation.
pub fn script_origin(resource_name: String) -> (r: OriginSettings)
    ensures
        r.resource_name == resource_name,
        r.line_offset == 0 && r.column_offset == 0,
        !r.shared_cross_origin,
        r.script_id == BRIDGE_SCRIPT_ID,
        r.source_map_url@ == "source_map_url"@,
        r.opaque,
        !r.is_wasm,
        !r.is_module,
{
    OriginSettings {
        resource_name,
        line_offset: 0,
        column_offset: 0,
        shared_cross_origin: false,
        script_id: BRIDGE_SCRIPT_ID,
        source_map_url: "source_map_url".to_owned(),
        opaque: true,
        is_wasm: false,
        is_module: false,
    }
}

/// The origin settings for a module compilation: as for a classic script,
/// except that the module flag is set.
pub fn module_origin(resource_name: String) -> (r: OriginSettings)
    ensures
        r.resource_name == resource_name,
        r.line_offset == 0 && r.column_offset == 0,
        !r.shared_cross_origin,
        r.script_id == BRIDGE_SCRIPT_ID,
        r.source_map_url@ == "source_map_url"@,
        r.opaque,
        !r.is_wasm,
        r.is_module,
{
    OriginSettings {
        resource_name,
        line_offset: 0,
        column_offset: 0,
        shared_cross_origin: false,
        script_id: BRIDGE_SCRIPT_ID,
        source_map_url: "source_map_url".to_owned(),
        opaque: true,
        is_wasm: false,
        is_module: true,
    }
}

/// How one host-initiated evaluation went inside the engine. The engine
/// reports which phase failed, if any, and whether the thrown value was a
/// native error object.
#[derive(Clone, Copy, Debug)]
pub enum ScriptOutcome {
    /// Compilation threw; nothing ran.
    CompileFailed { thrown_is_native: bool },
    /// Compilation succeeded but running the script threw.
    RunFailed { thrown_is_native: bool },
    /// The script ran to completion and produced a value.
    Completed,
}

/// The error half of an evaluation report.
#[derive(Clone, Copy, Debug, PartialEq, Eq)]
pub struct ErrorInfo {
    /// True when the failure happened during compilation.
    pub is_compile_error: bool,
    /// True when the thrown value was a native error object.
    pub is_native_error: bool,
}

/// What the guest receives for one evaluation: a flag that says whether the
/// result slot is filled, and the error slot. Exactly one of the two sides
/// is ever filled.
#[derive(Clone, Copy, Debug, PartialEq, Eq)]
pub struct EvalReport {
    /// True when the evaluation produced a value for the result slot.
    pub has_result: bool,
    /// Filled exactly when the evaluation failed.
    pub error: Option<ErrorInfo>,
}

/// Builds the report the guest gets for one evaluation outcome: a failure
/// fills only the error slot, recording the failing phase and whether the
/// thrown value was native; success fills only the result slot.
pub fn eval_report(outcome: ScriptOutcome) -> (r: EvalReport)
    ensures
        r.has_result == (outcome is Completed),
        r.error is Some == !(outcome is Completed),
        outcome matches ScriptOutcome::CompileFailed { thrown_is_native } ==> (r.error == Some(
            ErrorInfo { is_compile_error: true, is_native_error: thrown_is_native },
        )),
        outcome matches ScriptOutcome::RunFailed { thrown_is_native } ==> (r.error == Some(
            ErrorInfo { is_compile_error: false, is_native_error: thrown_is_native },
        )),
{
    match outcome {
        ScriptOutcome::CompileFailed { thrown_is_native } => EvalReport {
            has_result: false,
            error: Some(ErrorInfo { is_compile_error: true, is_native_error: thrown_is_native }),
        },
        ScriptOutcome::RunFailed { thrown_is_native } => EvalReport {
            has_result: false,
            error: Some(ErrorInfo { is_compile_error: false, is_native_error: thrown_is_native }),
        },
        ScriptOutcome::Completed => EvalReport { has_result: true, error: None },
    }
}

} // verus!
