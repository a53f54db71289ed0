//! Condition system for OVSM
//!
//! Full Common Lisp condition handling and restart system.
//! Error handling, warnings, conditions, and restarts.
use vstd::prelude::*;

#[allow(unused_imports)]
use crate::access::{copy_range, copy_slice, copy_values, values_equal};
#[allow(unused_imports)]
use crate::error::{empty_collection, exec_error, invalid_args, ErrV, Error};
#[allow(unused_imports)]
use crate::text::{alphabetic, alphanumeric, char_from_u32, char_is_alphabetic, char_is_alphanumeric, char_is_lowercase, char_is_uppercase, char_is_whitespace, char_string, char_to_lowercase, char_to_uppercase, chars_of, chars_skip, concat, i64_to_string, int_decimal, lower_case, lower_chars, lowercase, owned, scalar_value, seq_less, str_equal, str_less, string_from_chars, to_lower, to_upper, upper_case, upper_chars, uppercase, whitespace};
#[allow(unused_imports)]
use crate::tools::{bad_args, name_insert, outcome, ref_outcome, string_views, yields, Tool, ToolRegistry};
#[allow(unused_imports)]
use crate::value::{and_then, elems, entry_models, int_of, models, obj_insert, obj_keys, obj_lookup, obj_merge, obj_of, obj_values, str_of, truthy, type_error, ObjectMap, Val, Value};

verus! {

broadcast use crate::seq_models::group_value_models;

/// The names after registering this module's tools, in order.
pub open spec fn registered_names(ns: Seq<Seq<char>>) -> Seq<Seq<char>> {
    let ns = name_insert(ns, "ERROR"@);
    let ns = name_insert(ns, "CERROR"@);
    let ns = name_insert(ns, "HANDLER-BIND"@);
    let ns = name_insert(ns, "HANDLER-CASE"@);
    let ns = name_insert(ns, "IGNORE-ERRORS"@);
    let ns = name_insert(ns, "WITH-SIMPLE-RESTART"@);
    let ns = name_insert(ns, "RESTART-CASE"@);
    let ns = name_insert(ns, "RESTART-BIND"@);
    let ns = name_insert(ns, "INVOKE-RESTART"@);
    let ns = name_insert(ns, "FIND-RESTART"@);
    let ns = name_insert(ns, "COMPUTE-RESTARTS"@);
    let ns = name_insert(ns, "MAKE-CONDITION"@);
    let ns = name_insert(ns, "CONDITION-TYPE"@);
    let ns = name_insert(ns, "SIMPLE-CONDITION-FORMAT-CONTROL"@);
    let ns = name_insert(ns, "SIMPLE-CONDITION-FORMAT-ARGUMENTS"@);
    let ns = name_insert(ns, "SIMPLE-ERROR"@);
    let ns = name_insert(ns, "SIMPLE-WARNING"@);
    let ns = name_insert(ns, "TYPE-ERROR"@);
    let ns = name_insert(ns, "PROGRAM-ERROR"@);
    let ns = name_insert(ns, "CONTROL-ERROR"@);
    let ns = name_insert(ns, "STREAM-ERROR"@);
    let ns = name_insert(ns, "FILE-ERROR"@);
    let ns = name_insert(ns, "ARITHMETIC-ERROR"@);
    let ns = name_insert(ns, "DIVISION-BY-ZERO"@);
    let ns = name_insert(ns, "FLOATING-POINT-OVERFLOW"@);
    let ns = name_insert(ns, "FLOATING-POINT-UNDERFLOW"@);
    let ns = name_insert(ns, "CONDITION-P"@);
    let ns = name_insert(ns, "ERROR-P"@);
    let ns = name_insert(ns, "WARNING-P"@);
    let ns = name_insert(ns, "RESTART-NAME"@);
    let ns = name_insert(ns, "INVOKE-RESTART-INTERACTIVELY"@);
    let ns = name_insert(ns, "ABORT"@);
    let ns = name_insert(ns, "CONTINUE"@);
    let ns = name_insert(ns, "STORE-VALUE"@);
    let ns = name_insert(ns, "USE-VALUE"@);
    let ns = name_insert(ns, "MUFFLE-WARNING"@);
    let ns = name_insert(ns, "CHECK-TYPE"@);
    let ns = name_insert(ns, "DEFINE-CONDITION"@);
    let ns = name_insert(ns, "WITH-CONDITION-RESTARTS"@);
    let ns = name_insert(ns, "RESTART-CASE-ASSOCIATE"@);
    let ns = name_insert(ns, "SIMPLE-CONDITION-P"@);
    let ns = name_insert(ns, "SERIOUS-CONDITION-P"@);
    let ns = name_insert(ns, "CELL-ERROR-NAME"@);
    let ns = name_insert(ns, "UNBOUND-VARIABLE"@);
    let ns = name_insert(ns, "UNDEFINED-FUNCTION"@);
    let ns = name_insert(ns, "STORAGE-CONDITION"@);
    let ns = name_insert(ns, "SIGNAL"@);
    let ns = name_insert(ns, "SIGNAL-CONDITION"@);
    let ns = name_insert(ns, "ASSERT"@);
    let ns = name_insert(ns, "WARN"@);
    let ns = name_insert(ns, "BREAK"@);
    let ns = name_insert(ns, "INVOKE-DEBUGGER"@);
    ns
}

/// Register the tools of this module: those the library holds, then those
/// the application supplies, each under its name: `signal_tool` under SIGNAL, `signal_condition_tool` under SIGNAL-CONDITION, `assert_tool` under ASSERT, `warn_tool` under WARN, `break_tool` under BREAK, `invoke_debugger_tool` under INVOKE-DEBUGGER.
pub fn register<TSignal: Tool + 'static, TSignalCondition: Tool + 'static, TAssert: Tool + 'static, TWarn: Tool + 'static, TBreak: Tool + 'static, TInvokeDebugger: Tool + 'static>(registry: &mut ToolRegistry, signal_tool: TSignal, signal_condition_tool: TSignalCondition, assert_tool: TAssert, warn_tool: TWarn, break_tool: TBreak, invoke_debugger_tool: TInvokeDebugger)
    requires
        signal_tool.names_itself() ==> signal_tool.spec_name() == "SIGNAL"@,
        signal_condition_tool.names_itself() ==> signal_condition_tool.spec_name() == "SIGNAL-CONDITION"@,
        assert_tool.names_itself() ==> assert_tool.spec_name() == "ASSERT"@,
        warn_tool.names_itself() ==> warn_tool.spec_name() == "WARN"@,
        break_tool.names_itself() ==> break_tool.spec_name() == "BREAK"@,
        invoke_debugger_tool.names_itself() ==> invoke_debugger_tool.spec_name() == "INVOKE-DEBUGGER"@,
    ensures
        final(registry).names() == registered_names(old(registry).names()),
{
    registry.register(ErrorTool);
    registry.register(CerrorTool);
    registry.register(HandlerBindTool);
    registry.register(HandlerCaseTool);
    registry.register(IgnoreErrorsTool);
    registry.register(WithSimpleRestartTool);
    registry.register(RestartCaseTool);
    registry.register(RestartBindTool);
    registry.register(InvokeRestartTool);
    registry.register(FindRestartTool);
    registry.register(ComputeRestartsTool);
    registry.register(MakeConditionTool);
    registry.register(ConditionTypeTool);
    registry.register(SimpleConditionFormatControlTool);
    registry.register(SimpleConditionFormatArgumentsTool);
    registry.register(SimpleErrorTool);
    registry.register(SimpleWarningTool);
    registry.register(TypeErrorTool);
    registry.register(ProgramErrorTool);
    registry.register(ControlErrorTool);
    registry.register(StreamErrorTool);
    registry.register(FileErrorTool);
    registry.register(ArithmeticErrorTool);
    registry.register(DivisionByZeroTool);
    registry.register(FloatingPointOverflowTool);
    registry.register(FloatingPointUnderflowTool);
    registry.register(ConditionPTool);
    registry.register(ErrorPTool);
    registry.register(WarningPTool);
    registry.register(RestartNameTool);
    registry.register(InvokeRestartInteractivelyTool);
    registry.register(AbortTool);
    registry.register(ContinueTool);
    registry.register(StorValueTool);
    registry.register(UseValueTool);
    registry.register(MuffleWarningTool);
    registry.register(CheckTypeTool);
    registry.register(DefineConditionTool);
    registry.register(WithConditionRestartsTool);
    registry.register(RestartCaseAssociateTool);
    registry.register(SimpleConditionPTool);
    registry.register(SeriousConditionPTool);
    registry.register(CellErrorNameTool);
    registry.register(UnboundVariableTool);
    registry.register(UndefinedFunctionTool);
    registry.register(StorageConditionTool);
    registry.place(owned("SIGNAL"), signal_tool);
    registry.place(owned("SIGNAL-CONDITION"), signal_condition_tool);
    registry.place(owned("ASSERT"), assert_tool);
    registry.place(owned("WARN"), warn_tool);
    registry.place(owned("BREAK"), break_tool);
    registry.place(owned("INVOKE-DEBUGGER"), invoke_debugger_tool);
}

/// Bind condition handlers
pub struct HandlerBindTool;

impl Tool for HandlerBindTool {
    open spec fn names_itself(&self) -> bool {
        true
    }

    open spec fn spec_name(&self) -> Seq<char> {
        "HANDLER-BIND"@
    }

    open spec fn admits(&self, args: Seq<Val>) -> bool {
        true
    }

    fn name(&self) -> &str {
        "HANDLER-BIND"
    }

    fn description(&self) -> (r: &str)
        ensures
            r@ == "Bind condition handlers"@,
    {
        "Bind condition handlers"
    }

    fn execute(&self, args: &[Value]) -> (r: Result<Value, Error>)
        ensures
            outcome(r) == (yields(if args@.len() == 0 { Val::Null } else { args@[0].model() })),
    {
        Ok(if args.len() == 0 { Value::Null } else { args[0].clone() })
    }
}

/// Handle conditions with cases
pub struct HandlerCaseTool;

impl Tool for HandlerCaseTool {
    open spec fn names_itself(&self) -> bool {
        true
    }

    open spec fn spec_name(&self) -> Seq<char> {
        "HANDLER-CASE"@
    }

    open spec fn admits(&self, args: Seq<Val>) -> bool {
        true
    }

    fn name(&self) -> &str {
        "HANDLER-CASE"
    }

    fn description(&self) -> (r: &str)
        ensures
            r@ == "Handle conditions with cases"@,
    {
        "Handle conditions with cases"
    }

    fn execute(&self, args: &[Value]) -> (r: Result<Value, Error>)
        ensures
            outcome(r) == (yields(if args@.len() == 0 { Val::Null } else { args@[0].model() })),
    {
        Ok(if args.len() == 0 { Value::Null } else { args[0].clone() })
    }
}

/// Suppress errors
pub struct IgnoreErrorsTool;

impl Tool for IgnoreErrorsTool {
    open spec fn names_itself(&self) -> bool {
        true
    }

    open spec fn spec_name(&self) -> Seq<char> {
        "IGNORE-ERRORS"@
    }

    open spec fn admits(&self, args: Seq<Val>) -> bool {
        true
    }

    fn name(&self) -> &str {
        "IGNORE-ERRORS"
    }

    fn description(&self) -> (r: &str)
        ensures
            r@ == "Suppress errors"@,
    {
        "Suppress errors"
    }

    fn execute(&self, args: &[Value]) -> (r: Result<Value, Error>)
        ensures
            outcome(r) == (yields(if args@.len() == 0 { Val::Null } else { args@[0].model() })),
    {
        Ok(if args.len() == 0 { Value::Null } else { args[0].clone() })
    }
}

/// Provide simple restart
pub struct WithSimpleRestartTool;

impl Tool for WithSimpleRestartTool {
    open spec fn names_itself(&self) -> bool {
        true
    }

    open spec fn spec_name(&self) -> Seq<char> {
        "WITH-SIMPLE-RESTART"@
    }

    open spec fn admits(&self, args: Seq<Val>) -> bool {
        true
    }

    fn name(&self) -> &str {
        "WITH-SIMPLE-RESTART"
    }

    fn description(&self) -> (r: &str)
        ensures
            r@ == "Provide simple restart"@,
    {
        "Provide simple restart"
    }

    fn execute(&self, args: &[Value]) -> (r: Result<Value, Error>)
        ensures
            outcome(r) == (yields(if args@.len() == 0 { Val::Null } else { args@[0].model() })),
    {
        Ok(if args.len() == 0 { Value::Null } else { args[0].clone() })
    }
}

/// Define restarts
pub struct RestartCaseTool;

impl Tool for RestartCaseTool {
    open spec fn names_itself(&self) -> bool {
        true
    }

    open spec fn spec_name(&self) -> Seq<char> {
        "RESTART-CASE"@
    }

    open spec fn admits(&self, args: Seq<Val>) -> bool {
        true
    }

    fn name(&self) -> &str {
        "RESTART-CASE"
    }

    fn description(&self) -> (r: &str)
        ensures
            r@ == "Define restarts"@,
    {
        "Define restarts"
    }

    fn execute(&self, args: &[Value]) -> (r: Result<Value, Error>)
        ensures
            outcome(r) == (yields(if args@.len() == 0 { Val::Null } else { args@[0].model() })),
    {
        Ok(if args.len() == 0 { Value::Null } else { args[0].clone() })
    }
}

/// Bind restarts
pub struct RestartBindTool;

impl Tool for RestartBindTool {
    open spec fn names_itself(&self) -> bool {
        true
    }

    open spec fn spec_name(&self) -> Seq<char> {
        "RESTART-BIND"@
    }

    open spec fn admits(&self, args: Seq<Val>) -> bool {
        true
    }

    fn name(&self) -> &str {
        "RESTART-BIND"
    }

    fn description(&self) -> (r: &str)
        ensures
            r@ == "Bind restarts"@,
    {
        "Bind restarts"
    }

    fn execute(&self, args: &[Value]) -> (r: Result<Value, Error>)
        ensures
            outcome(r) == (yields(if args@.len() == 0 { Val::Null } else { args@[0].model() })),
    {
        Ok(if args.len() == 0 { Value::Null } else { args[0].clone() })
    }
}

/// Invoke named restart
pub struct InvokeRestartTool;

impl Tool for InvokeRestartTool {
    open spec fn names_itself(&self) -> bool {
        true
    }

    open spec fn spec_name(&self) -> Seq<char> {
        "INVOKE-RESTART"@
    }

    open spec fn admits(&self, args: Seq<Val>) -> bool {
        true
    }

    fn name(&self) -> &str {
        "INVOKE-RESTART"
    }

    fn description(&self) -> (r: &str)
        ensures
            r@ == "Invoke named restart"@,
    {
        "Invoke named restart"
    }

    fn execute(&self, args: &[Value]) -> (r: Result<Value, Error>)
        ensures
            outcome(r) == (yields(if args@.len() == 0 { Val::Null } else { args@[0].model() })),
    {
        Ok(if args.len() == 0 { Value::Null } else { args[0].clone() })
    }
}

/// Find restart by name
pub struct FindRestartTool;

impl Tool for FindRestartTool {
    open spec fn names_itself(&self) -> bool {
        true
    }

    open spec fn spec_name(&self) -> Seq<char> {
        "FIND-RESTART"@
    }

    open spec fn admits(&self, args: Seq<Val>) -> bool {
        true
    }

    fn name(&self) -> &str {
        "FIND-RESTART"
    }

    fn description(&self) -> (r: &str)
        ensures
            r@ == "Find restart by name"@,
    {
        "Find restart by name"
    }

    fn execute(&self, args: &[Value]) -> (r: Result<Value, Error>)
        ensures
            outcome(r) == (yields(if args@.len() == 0 { Val::Null } else { args@[0].model() })),
    {
        Ok(if args.len() == 0 { Value::Null } else { args[0].clone() })
    }
}

/// Create condition object
pub struct MakeConditionTool;

impl Tool for MakeConditionTool {
    open spec fn names_itself(&self) -> bool {
        true
    }

    open spec fn spec_name(&self) -> Seq<char> {
        "MAKE-CONDITION"@
    }

    open spec fn admits(&self, args: Seq<Val>) -> bool {
        true
    }

    fn name(&self) -> &str {
        "MAKE-CONDITION"
    }

    fn description(&self) -> (r: &str)
        ensures
            r@ == "Create condition object"@,
    {
        "Create condition object"
    }

    fn execute(&self, args: &[Value]) -> (r: Result<Value, Error>)
        ensures
            outcome(r) == (yields(if args@.len() == 0 { Val::Null } else { args@[0].model() })),
    {
        Ok(if args.len() == 0 { Value::Null } else { args[0].clone() })
    }
}

/// Get condition type
pub struct ConditionTypeTool;

impl Tool for ConditionTypeTool {
    open spec fn names_itself(&self) -> bool {
        true
    }

    open spec fn spec_name(&self) -> Seq<char> {
        "CONDITION-TYPE"@
    }

    open spec fn admits(&self, args: Seq<Val>) -> bool {
        true
    }

    fn name(&self) -> &str {
        "CONDITION-TYPE"
    }

    fn description(&self) -> (r: &str)
        ensures
            r@ == "Get condition type"@,
    {
        "Get condition type"
    }

    fn execute(&self, args: &[Value]) -> (r: Result<Value, Error>)
        ensures
            outcome(r) == (yields(if args@.len() == 0 { Val::Null } else { args@[0].model() })),
    {
        Ok(if args.len() == 0 { Value::Null } else { args[0].clone() })
    }
}

/// Get format string
pub struct SimpleConditionFormatControlTool;

impl Tool for SimpleConditionFormatControlTool {
    open spec fn names_itself(&self) -> bool {
        true
    }

    open spec fn spec_name(&self) -> Seq<char> {
        "SIMPLE-CONDITION-FORMAT-CONTROL"@
    }

    open spec fn admits(&self, args: Seq<Val>) -> bool {
        true
    }

    fn name(&self) -> &str {
        "SIMPLE-CONDITION-FORMAT-CONTROL"
    }

    fn description(&self) -> (r: &str)
        ensures
            r@ == "Get format string"@,
    {
        "Get format string"
    }

    fn execute(&self, args: &[Value]) -> (r: Result<Value, Error>)
        ensures
            outcome(r) == (yields(if args@.len() == 0 { Val::Null } else { args@[0].model() })),
    {
        Ok(if args.len() == 0 { Value::Null } else { args[0].clone() })
    }
}

/// Basic error type
pub struct SimpleErrorTool;

impl Tool for SimpleErrorTool {
    open spec fn names_itself(&self) -> bool {
        true
    }

    open spec fn spec_name(&self) -> Seq<char> {
        "SIMPLE-ERROR"@
    }

    open spec fn admits(&self, args: Seq<Val>) -> bool {
        true
    }

    fn name(&self) -> &str {
        "SIMPLE-ERROR"
    }

    fn description(&self) -> (r: &str)
        ensures
            r@ == "Basic error type"@,
    {
        "Basic error type"
    }

    fn execute(&self, args: &[Value]) -> (r: Result<Value, Error>)
        ensures
            outcome(r) == (yields(if args@.len() == 0 { Val::Null } else { args@[0].model() })),
    {
        Ok(if args.len() == 0 { Value::Null } else { args[0].clone() })
    }
}

/// Basic warning type
pub struct SimpleWarningTool;

impl Tool for SimpleWarningTool {
    open spec fn names_itself(&self) -> bool {
        true
    }

    open spec fn spec_name(&self) -> Seq<char> {
        "SIMPLE-WARNING"@
    }

    open spec fn admits(&self, args: Seq<Val>) -> bool {
        true
    }

    fn name(&self) -> &str {
        "SIMPLE-WARNING"
    }

    fn description(&self) -> (r: &str)
        ensures
            r@ == "Basic warning type"@,
    {
        "Basic warning type"
    }

    fn execute(&self, args: &[Value]) -> (r: Result<Value, Error>)
        ensures
            outcome(r) == (yields(if args@.len() == 0 { Val::Null } else { args@[0].model() })),
    {
        Ok(if args.len() == 0 { Value::Null } else { args[0].clone() })
    }
}

/// Type mismatch error
pub struct TypeErrorTool;

impl Tool for TypeErrorTool {
    open spec fn names_itself(&self) -> bool {
        true
    }

    open spec fn spec_name(&self) -> Seq<char> {
        "TYPE-ERROR"@
    }

    open spec fn admits(&self, args: Seq<Val>) -> bool {
        true
    }

    fn name(&self) -> &str {
        "TYPE-ERROR"
    }

    fn description(&self) -> (r: &str)
        ensures
            r@ == "Type mismatch error"@,
    {
        "Type mismatch error"
    }

    fn execute(&self, args: &[Value]) -> (r: Result<Value, Error>)
        ensures
            outcome(r) == (yields(if args@.len() == 0 { Val::Null } else { args@[0].model() })),
    {
        Ok(if args.len() == 0 { Value::Null } else { args[0].clone() })
    }
}

/// Program error
pub struct ProgramErrorTool;

impl Tool for ProgramErrorTool {
    open spec fn names_itself(&self) -> bool {
        true
    }

    open spec fn spec_name(&self) -> Seq<char> {
        "PROGRAM-ERROR"@
    }

    open spec fn admits(&self, args: Seq<Val>) -> bool {
        true
    }

    fn name(&self) -> &str {
        "PROGRAM-ERROR"
    }

    fn description(&self) -> (r: &str)
        ensures
            r@ == "Program error"@,
    {
        "Program error"
    }

    fn execute(&self, args: &[Value]) -> (r: Result<Value, Error>)
        ensures
            outcome(r) == (yields(if args@.len() == 0 { Val::Null } else { args@[0].model() })),
    {
        Ok(if args.len() == 0 { Value::Null } else { args[0].clone() })
    }
}

/// Control flow error
pub struct ControlErrorTool;

impl Tool for ControlErrorTool {
    open spec fn names_itself(&self) -> bool {
        true
    }

    open spec fn spec_name(&self) -> Seq<char> {
        "CONTROL-ERROR"@
    }

    open spec fn admits(&self, args: Seq<Val>) -> bool {
        true
    }

    fn name(&self) -> &str {
        "CONTROL-ERROR"
    }

    fn description(&self) -> (r: &str)
        ensures
            r@ == "Control flow error"@,
    {
        "Control flow error"
    }

    fn execute(&self, args: &[Value]) -> (r: Result<Value, Error>)
        ensures
            outcome(r) == (yields(if args@.len() == 0 { Val::Null } else { args@[0].model() })),
    {
        Ok(if args.len() == 0 { Value::Null } else { args[0].clone() })
    }
}

/// Stream operation error
pub struct StreamErrorTool;

impl Tool for StreamErrorTool {
    open spec fn names_itself(&self) -> bool {
        true
    }

    open spec fn spec_name(&self) -> Seq<char> {
        "STREAM-ERROR"@
    }

    open spec fn admits(&self, args: Seq<Val>) -> bool {
        true
    }

    fn name(&self) -> &str {
        "STREAM-ERROR"
    }

    fn description(&self) -> (r: &str)
        ensures
            r@ == "Stream operation error"@,
    {
        "Stream operation error"
    }

    fn execute(&self, args: &[Value]) -> (r: Result<Value, Error>)
        ensures
            outcome(r) == (yields(if args@.len() == 0 { Val::Null } else { args@[0].model() })),
    {
        Ok(if args.len() == 0 { Value::Null } else { args[0].clone() })
    }
}

/// File operation error
pub struct FileErrorTool;

impl Tool for FileErrorTool {
    open spec fn names_itself(&self) -> bool {
        true
    }

    open spec fn spec_name(&self) -> Seq<char> {
        "FILE-ERROR"@
    }

    open spec fn admits(&self, args: Seq<Val>) -> bool {
        true
    }

    fn name(&self) -> &str {
        "FILE-ERROR"
    }

    fn description(&self) -> (r: &str)
        ensures
            r@ == "File operation error"@,
    {
        "File operation error"
    }

    fn execute(&self, args: &[Value]) -> (r: Result<Value, Error>)
        ensures
            outcome(r) == (yields(if args@.len() == 0 { Val::Null } else { args@[0].model() })),
    {
        Ok(if args.len() == 0 { Value::Null } else { args[0].clone() })
    }
}

/// Math error
pub struct ArithmeticErrorTool;

impl Tool for ArithmeticErrorTool {
    open spec fn names_itself(&self) -> bool {
        true
    }

    open spec fn spec_name(&self) -> Seq<char> {
        "ARITHMETIC-ERROR"@
    }

    open spec fn admits(&self, args: Seq<Val>) -> bool {
        true
    }

    fn name(&self) -> &str {
        "ARITHMETIC-ERROR"
    }

    fn description(&self) -> (r: &str)
        ensures
            r@ == "Math error"@,
    {
        "Math error"
    }

    fn execute(&self, args: &[Value]) -> (r: Result<Value, Error>)
        ensures
            outcome(r) == (yields(if args@.len() == 0 { Val::Null } else { args@[0].model() })),
    {
        Ok(if args.len() == 0 { Value::Null } else { args[0].clone() })
    }
}

/// Division by zero
pub struct DivisionByZeroTool;

impl Tool for DivisionByZeroTool {
    open spec fn names_itself(&self) -> bool {
        true
    }

    open spec fn spec_name(&self) -> Seq<char> {
        "DIVISION-BY-ZERO"@
    }

    open spec fn admits(&self, args: Seq<Val>) -> bool {
        true
    }

    fn name(&self) -> &str {
        "DIVISION-BY-ZERO"
    }

    fn description(&self) -> (r: &str)
        ensures
            r@ == "Division by zero"@,
    {
        "Division by zero"
    }

    fn execute(&self, args: &[Value]) -> (r: Result<Value, Error>)
        ensures
            outcome(r) == (yields(if args@.len() == 0 { Val::Null } else { args@[0].model() })),
    {
        Ok(if args.len() == 0 { Value::Null } else { args[0].clone() })
    }
}

/// Float overflow
pub struct FloatingPointOverflowTool;

impl Tool for FloatingPointOverflowTool {
    open spec fn names_itself(&self) -> bool {
        true
    }

    open spec fn spec_name(&self) -> Seq<char> {
        "FLOATING-POINT-OVERFLOW"@
    }

    open spec fn admits(&self, args: Seq<Val>) -> bool {
        true
    }

    fn name(&self) -> &str {
        "FLOATING-POINT-OVERFLOW"
    }

    fn description(&self) -> (r: &str)
        ensures
            r@ == "Float overflow"@,
    {
        "Float overflow"
    }

    fn execute(&self, args: &[Value]) -> (r: Result<Value, Error>)
        ensures
            outcome(r) == (yields(if args@.len() == 0 { Val::Null } else { args@[0].model() })),
    {
        Ok(if args.len() == 0 { Value::Null } else { args[0].clone() })
    }
}

/// Float underflow
pub struct FloatingPointUnderflowTool;

impl Tool for FloatingPointUnderflowTool {
    open spec fn names_itself(&self) -> bool {
        true
    }

    open spec fn spec_name(&self) -> Seq<char> {
        "FLOATING-POINT-UNDERFLOW"@
    }

    open spec fn admits(&self, args: Seq<Val>) -> bool {
        true
    }

    fn name(&self) -> &str {
        "FLOATING-POINT-UNDERFLOW"
    }

    fn description(&self) -> (r: &str)
        ensures
            r@ == "Float underflow"@,
    {
        "Float underflow"
    }

    fn execute(&self, args: &[Value]) -> (r: Result<Value, Error>)
        ensures
            outcome(r) == (yields(if args@.len() == 0 { Val::Null } else { args@[0].model() })),
    {
        Ok(if args.len() == 0 { Value::Null } else { args[0].clone() })
    }
}

/// Check if condition
pub struct ConditionPTool;

impl Tool for ConditionPTool {
    open spec fn names_itself(&self) -> bool {
        true
    }

    open spec fn spec_name(&self) -> Seq<char> {
        "CONDITION-P"@
    }

    open spec fn admits(&self, args: Seq<Val>) -> bool {
        true
    }

    fn name(&self) -> &str {
        "CONDITION-P"
    }

    fn description(&self) -> (r: &str)
        ensures
            r@ == "Check if condition"@,
    {
        "Check if condition"
    }

    fn execute(&self, args: &[Value]) -> (r: Result<Value, Error>)
        ensures
            outcome(r) == (yields(if args@.len() == 0 { Val::Null } else { args@[0].model() })),
    {
        Ok(if args.len() == 0 { Value::Null } else { args[0].clone() })
    }
}

/// Check if error
pub struct ErrorPTool;

impl Tool for ErrorPTool {
    open spec fn names_itself(&self) -> bool {
        true
    }

    open spec fn spec_name(&self) -> Seq<char> {
        "ERROR-P"@
    }

    open spec fn admits(&self, args: Seq<Val>) -> bool {
        true
    }

    fn name(&self) -> &str {
        "ERROR-P"
    }

    fn description(&self) -> (r: &str)
        ensures
            r@ == "Check if error"@,
    {
        "Check if error"
    }

    fn execute(&self, args: &[Value]) -> (r: Result<Value, Error>)
        ensures
            outcome(r) == (yields(if args@.len() == 0 { Val::Null } else { args@[0].model() })),
    {
        Ok(if args.len() == 0 { Value::Null } else { args[0].clone() })
    }
}

/// Check if warning
pub struct WarningPTool;

impl Tool for WarningPTool {
    open spec fn names_itself(&self) -> bool {
        true
    }

    open spec fn spec_name(&self) -> Seq<char> {
        "WARNING-P"@
    }

    open spec fn admits(&self, args: Seq<Val>) -> bool {
        true
    }

    fn name(&self) -> &str {
        "WARNING-P"
    }

    fn description(&self) -> (r: &str)
        ensures
            r@ == "Check if warning"@,
    {
        "Check if warning"
    }

    fn execute(&self, args: &[Value]) -> (r: Result<Value, Error>)
        ensures
            outcome(r) == (yields(if args@.len() == 0 { Val::Null } else { args@[0].model() })),
    {
        Ok(if args.len() == 0 { Value::Null } else { args[0].clone() })
    }
}

/// Get restart name
pub struct RestartNameTool;

impl Tool for RestartNameTool {
    open spec fn names_itself(&self) -> bool {
        true
    }

    open spec fn spec_name(&self) -> Seq<char> {
        "RESTART-NAME"@
    }

    open spec fn admits(&self, args: Seq<Val>) -> bool {
        true
    }

    fn name(&self) -> &str {
        "RESTART-NAME"
    }

    fn description(&self) -> (r: &str)
        ensures
            r@ == "Get restart name"@,
    {
        "Get restart name"
    }

    fn execute(&self, args: &[Value]) -> (r: Result<Value, Error>)
        ensures
            outcome(r) == (yields(if args@.len() == 0 { Val::Null } else { args@[0].model() })),
    {
        Ok(if args.len() == 0 { Value::Null } else { args[0].clone() })
    }
}

/// Invoke restart interactively
pub struct InvokeRestartInteractivelyTool;

impl Tool for InvokeRestartInteractivelyTool {
    open spec fn names_itself(&self) -> bool {
        true
    }

    open spec fn spec_name(&self) -> Seq<char> {
        "INVOKE-RESTART-INTERACTIVELY"@
    }

    open spec fn admits(&self, args: Seq<Val>) -> bool {
        true
    }

    fn name(&self) -> &str {
        "INVOKE-RESTART-INTERACTIVELY"
    }

    fn description(&self) -> (r: &str)
        ensures
            r@ == "Invoke restart interactively"@,
    {
        "Invoke restart interactively"
    }

    fn execute(&self, args: &[Value]) -> (r: Result<Value, Error>)
        ensures
            outcome(r) == (yields(if args@.len() == 0 { Val::Null } else { args@[0].model() })),
    {
        Ok(if args.len() == 0 { Value::Null } else { args[0].clone() })
    }
}

/// Abort to toplevel
pub struct AbortTool;

impl Tool for AbortTool {
    open spec fn names_itself(&self) -> bool {
        true
    }

    open spec fn spec_name(&self) -> Seq<char> {
        "ABORT"@
    }

    open spec fn admits(&self, args: Seq<Val>) -> bool {
        true
    }

    fn name(&self) -> &str {
        "ABORT"
    }

    fn description(&self) -> (r: &str)
        ensures
            r@ == "Abort to toplevel"@,
    {
        "Abort to toplevel"
    }

    fn execute(&self, args: &[Value]) -> (r: Result<Value, Error>)
        ensures
            outcome(r) == (yields(if args@.len() == 0 { Val::Null } else { args@[0].model() })),
    {
        Ok(if args.len() == 0 { Value::Null } else { args[0].clone() })
    }
}

/// Continue from error
pub struct ContinueTool;

impl Tool for ContinueTool {
    open spec fn names_itself(&self) -> bool {
        true
    }

    open spec fn spec_name(&self) -> Seq<char> {
        "CONTINUE"@
    }

    open spec fn admits(&self, args: Seq<Val>) -> bool {
        true
    }

    fn name(&self) -> &str {
        "CONTINUE"
    }

    fn description(&self) -> (r: &str)
        ensures
            r@ == "Continue from error"@,
    {
        "Continue from error"
    }

    fn execute(&self, args: &[Value]) -> (r: Result<Value, Error>)
        ensures
            outcome(r) == (yields(if args@.len() == 0 { Val::Null } else { args@[0].model() })),
    {
        Ok(if args.len() == 0 { Value::Null } else { args[0].clone() })
    }
}

/// Store value restart
pub struct StorValueTool;

impl Tool for StorValueTool {
    open spec fn names_itself(&self) -> bool {
        true
    }

    open spec fn spec_name(&self) -> Seq<char> {
        "STORE-VALUE"@
    }

    open spec fn admits(&self, args: Seq<Val>) -> bool {
        true
    }

    fn name(&self) -> &str {
        "STORE-VALUE"
    }

    fn description(&self) -> (r: &str)
        ensures
            r@ == "Store value restart"@,
    {
        "Store value restart"
    }

    fn execute(&self, args: &[Value]) -> (r: Result<Value, Error>)
        ensures
            outcome(r) == (yields(if args@.len() == 0 { Val::Null } else { args@[0].model() })),
    {
        Ok(if args.len() == 0 { Value::Null } else { args[0].clone() })
    }
}

/// Use value restart
pub struct UseValueTool;

impl Tool for UseValueTool {
    open spec fn names_itself(&self) -> bool {
        true
    }

    open spec fn spec_name(&self) -> Seq<char> {
        "USE-VALUE"@
    }

    open spec fn admits(&self, args: Seq<Val>) -> bool {
        true
    }

    fn name(&self) -> &str {
        "USE-VALUE"
    }

    fn description(&self) -> (r: &str)
        ensures
            r@ == "Use value restart"@,
    {
        "Use value restart"
    }

    fn execute(&self, args: &[Value]) -> (r: Result<Value, Error>)
        ensures
            outcome(r) == (yields(if args@.len() == 0 { Val::Null } else { args@[0].model() })),
    {
        Ok(if args.len() == 0 { Value::Null } else { args[0].clone() })
    }
}

/// SIMPLE-CONDITION-FORMAT-ARGUMENTS - Get format args
pub struct SimpleConditionFormatArgumentsTool;

impl Tool for SimpleConditionFormatArgumentsTool {
    open spec fn names_itself(&self) -> bool {
        true
    }

    open spec fn spec_name(&self) -> Seq<char> {
        "SIMPLE-CONDITION-FORMAT-ARGUMENTS"@
    }

    open spec fn admits(&self, args: Seq<Val>) -> bool {
        true
    }

    fn name(&self) -> &str {
        "SIMPLE-CONDITION-FORMAT-ARGUMENTS"
    }

    fn description(&self) -> (r: &str)
        ensures
            r@ == "Get format args"@,
    {
        "Get format args"
    }

    fn execute(&self, args: &[Value]) -> (r: Result<Value, Error>)
        ensures
            outcome(r) == (yields(if args@.len() == 0 { Val::Arr(Seq::<Val>::empty()) } else { if args@.len() == 1 { args@[0].model() } else { Val::Arr(models(args@)) } })),
    {
        Ok(if args.len() == 0 { Value::Array(Vec::new()) } else { if args.len() == 1 { args[0].clone() } else { Value::Array(copy_slice(args)) } })
    }
}

/// MUFFLE-WARNING - Suppress warning signal
pub struct MuffleWarningTool;

impl Tool for MuffleWarningTool {
    open spec fn names_itself(&self) -> bool {
        true
    }

    open spec fn spec_name(&self) -> Seq<char> {
        "MUFFLE-WARNING"@
    }

    open spec fn admits(&self, args: Seq<Val>) -> bool {
        true
    }

    fn name(&self) -> &str {
        "MUFFLE-WARNING"
    }

    fn description(&self) -> (r: &str)
        ensures
            r@ == "Suppress warning from being displayed"@,
    {
        "Suppress warning from being displayed"
    }

    fn execute(&self, args: &[Value]) -> (r: Result<Value, Error>)
        ensures
            outcome(r) == (yields(Val::Null)),
    {
        Ok(Value::Null)
    }
}

/// DEFINE-CONDITION - Define condition type
pub struct DefineConditionTool;

impl Tool for DefineConditionTool {
    open spec fn names_itself(&self) -> bool {
        true
    }

    open spec fn spec_name(&self) -> Seq<char> {
        "DEFINE-CONDITION"@
    }

    open spec fn admits(&self, args: Seq<Val>) -> bool {
        true
    }

    fn name(&self) -> &str {
        "DEFINE-CONDITION"
    }

    fn description(&self) -> (r: &str)
        ensures
            r@ == "Define new condition type"@,
    {
        "Define new condition type"
    }

    fn execute(&self, args: &[Value]) -> (r: Result<Value, Error>)
        ensures
            outcome(r) == (yields(if args@.len() == 0 { Val::Null } else { args@[0].model() })),
    {
        Ok(if args.len() == 0 { Value::Null } else { args[0].clone() })
    }
}

/// WITH-CONDITION-RESTARTS - Associate restarts with condition
pub struct WithConditionRestartsTool;

impl Tool for WithConditionRestartsTool {
    open spec fn names_itself(&self) -> bool {
        true
    }

    open spec fn spec_name(&self) -> Seq<char> {
        "WITH-CONDITION-RESTARTS"@
    }

    open spec fn admits(&self, args: Seq<Val>) -> bool {
        true
    }

    fn name(&self) -> &str {
        "WITH-CONDITION-RESTARTS"
    }

    fn description(&self) -> (r: &str)
        ensures
            r@ == "Associate restarts with condition"@,
    {
        "Associate restarts with condition"
    }

    fn execute(&self, args: &[Value]) -> (r: Result<Value, Error>)
        ensures
            outcome(r) == (yields(if args@.len() > 2 { args@[args@.len() - 1].model() } else { Val::Null })),
    {
        Ok(if args.len() > 2 { args[args.len() - 1].clone() } else { Value::Null })
    }
}

/// RESTART-CASE-ASSOCIATE - Associate restart with condition
pub struct RestartCaseAssociateTool;

impl Tool for RestartCaseAssociateTool {
    open spec fn names_itself(&self) -> bool {
        true
    }

    open spec fn spec_name(&self) -> Seq<char> {
        "RESTART-CASE-ASSOCIATE"@
    }

    open spec fn admits(&self, args: Seq<Val>) -> bool {
        true
    }

    fn name(&self) -> &str {
        "RESTART-CASE-ASSOCIATE"
    }

    fn description(&self) -> (r: &str)
        ensures
            r@ == "Associate restart with condition in RESTART-CASE"@,
    {
        "Associate restart with condition in RESTART-CASE"
    }

    fn execute(&self, args: &[Value]) -> (r: Result<Value, Error>)
        ensures
            outcome(r) == (yields(if args@.len() == 0 { Val::Null } else { args@[0].model() })),
    {
        Ok(if args.len() == 0 { Value::Null } else { args[0].clone() })
    }
}

/// SIMPLE-CONDITION-P - Check if simple condition
pub struct SimpleConditionPTool;

impl Tool for SimpleConditionPTool {
    open spec fn names_itself(&self) -> bool {
        true
    }

    open spec fn spec_name(&self) -> Seq<char> {
        "SIMPLE-CONDITION-P"@
    }

    open spec fn admits(&self, args: Seq<Val>) -> bool {
        true
    }

    fn name(&self) -> &str {
        "SIMPLE-CONDITION-P"
    }

    fn description(&self) -> (r: &str)
        ensures
            r@ == "Check if condition is simple condition"@,
    {
        "Check if condition is simple condition"
    }

    fn execute(&self, args: &[Value]) -> (r: Result<Value, Error>)
        ensures
            outcome(r) == (yields(Val::Bool(!(args@.len() == 0)))),
    {
        Ok(Value::Bool(!(args.len() == 0)))
    }
}

/// SERIOUS-CONDITION-P - Check if serious condition
pub struct SeriousConditionPTool;

impl Tool for SeriousConditionPTool {
    open spec fn names_itself(&self) -> bool {
        true
    }

    open spec fn spec_name(&self) -> Seq<char> {
        "SERIOUS-CONDITION-P"@
    }

    open spec fn admits(&self, args: Seq<Val>) -> bool {
        true
    }

    fn name(&self) -> &str {
        "SERIOUS-CONDITION-P"
    }

    fn description(&self) -> (r: &str)
        ensures
            r@ == "Check if condition is serious"@,
    {
        "Check if condition is serious"
    }

    fn execute(&self, args: &[Value]) -> (r: Result<Value, Error>)
        ensures
            outcome(r) == (yields(Val::Bool(!(args@.len() == 0)))),
    {
        Ok(Value::Bool(!(args.len() == 0)))
    }
}

/// CELL-ERROR-NAME - Get unbound variable name
pub struct CellErrorNameTool;

impl Tool for CellErrorNameTool {
    open spec fn names_itself(&self) -> bool {
        true
    }

    open spec fn spec_name(&self) -> Seq<char> {
        "CELL-ERROR-NAME"@
    }

    open spec fn admits(&self, args: Seq<Val>) -> bool {
        true
    }

    fn name(&self) -> &str {
        "CELL-ERROR-NAME"
    }

    fn description(&self) -> (r: &str)
        ensures
            r@ == "Get name from cell-error condition"@,
    {
        "Get name from cell-error condition"
    }

    fn execute(&self, args: &[Value]) -> (r: Result<Value, Error>)
        ensures
            outcome(r) == (yields(if args@.len() == 0 { Val::Null } else { args@[0].model() })),
    {
        Ok(if args.len() == 0 { Value::Null } else { args[0].clone() })
    }
}

/// The message of a condition tool: its first argument (a string), or `default`.
pub open spec fn message_arg(a: Seq<Val>, default: Seq<char>) -> Result<Seq<char>, ErrV> {
    if a.len() == 0 {
        Ok(default)
    } else {
        str_of(a[0])
    }
}

/// The name or message of a tool that reads a string first argument leniently:
/// that string, or `default` when it is missing or not a string.
pub open spec fn lenient_text(a: Seq<Val>, default: Seq<char>) -> Seq<char> {
    if a.len() > 0 && a[0] is Str {
        a[0]->Str_0
    } else {
        default
    }
}

fn message_arg_exec<'a>(args: &'a [Value], default: &'a str) -> (r: Result<&'a str, Error>)
    ensures
        match r {
            Ok(s) => message_arg(models(args@), default@) == Ok::<Seq<char>, ErrV>(s@),
            Err(e) => message_arg(models(args@), default@) == Err::<Seq<char>, ErrV>(e@),
        },
{
    if args.len() == 0 {
        Ok(default)
    } else {
        args[0].as_string()
    }
}

fn lenient_text_exec<'a>(args: &'a [Value], default: &'a str) -> (r: &'a str)
    ensures
        r@ == lenient_text(models(args@), default@),
{
    if args.len() > 0 {
        match &args[0] {
            Value::String(s) => {
                return s.as_str();
            },
            _ => {},
        }
    }
    default
}

/// The line that WARN writes to standard error.
pub fn warning_line(args: &[Value]) -> (r: Result<String, Error>)
    ensures
        match r {
            Ok(s) => message_arg(models(args@), "Warning"@) matches Ok(m) && s@ == "WARNING: "@ + m,
            Err(e) => message_arg(models(args@), "Warning"@) == Err::<Seq<char>, ErrV>(e@),
        },
{
    let msg = message_arg_exec(args, "Warning")?;
    Ok(concat("WARNING: ", msg))
}

/// The line that BREAK writes to standard error.
pub fn break_line(args: &[Value]) -> (r: String)
    ensures
        r@ == "BREAK: "@ + lenient_text(models(args@), "Break"@),
{
    concat("BREAK: ", lenient_text_exec(args, "Break"))
}

/// The line that INVOKE-DEBUGGER writes to standard error.
pub fn debugger_line(args: &[Value]) -> (r: String)
    ensures
        r@ == "DEBUGGER: "@ + lenient_text(models(args@), "Debugger invoked"@),
{
    concat("DEBUGGER: ", lenient_text_exec(args, "Debugger invoked"))
}

/// ERROR - Signal error
pub struct ErrorTool;

impl Tool for ErrorTool {
    open spec fn names_itself(&self) -> bool {
        true
    }

    open spec fn spec_name(&self) -> Seq<char> {
        "ERROR"@
    }

    open spec fn admits(&self, args: Seq<Val>) -> bool {
        true
    }

    fn name(&self) -> &str {
        "ERROR"
    }

    fn description(&self) -> (r: &str)
        ensures
            r@ == "Signal an error condition"@,
    {
        "Signal an error condition"
    }

    fn execute(&self, args: &[Value]) -> (r: Result<Value, Error>)
        ensures
            outcome(r) == (match message_arg(models(args@), "Error"@) {
                Err(e) => Err::<Val, ErrV>(e),
                Ok(m) => Err(ErrV::ToolExecutionError { tool: "ERROR"@, reason: m }),
            }),
    {
        let msg = message_arg_exec(args, "Error")?;
        Err(exec_error("ERROR", msg))
    }
}



/// CERROR - Continuable error
pub struct CerrorTool;

impl Tool for CerrorTool {
    open spec fn names_itself(&self) -> bool {
        true
    }

    open spec fn spec_name(&self) -> Seq<char> {
        "CERROR"@
    }

    open spec fn admits(&self, args: Seq<Val>) -> bool {
        true
    }

    fn name(&self) -> &str {
        "CERROR"
    }

    fn description(&self) -> (r: &str)
        ensures
            r@ == "Signal continuable error"@,
    {
        "Signal continuable error"
    }

    fn execute(&self, args: &[Value]) -> (r: Result<Value, Error>)
        ensures
            outcome(r) == (match message_arg(models(args@), "Continuable error"@) {
                Err(e) => Err(e),
                Ok(m) => yields(Val::Str("CERROR: "@ + m)),
            }),
    {
        let msg = message_arg_exec(args, "Continuable error")?;
        Ok(Value::String(concat("CERROR: ", msg)))
    }
}



/// COMPUTE-RESTARTS - List available restarts
pub struct ComputeRestartsTool;

impl Tool for ComputeRestartsTool {
    open spec fn names_itself(&self) -> bool {
        true
    }

    open spec fn spec_name(&self) -> Seq<char> {
        "COMPUTE-RESTARTS"@
    }

    open spec fn admits(&self, args: Seq<Val>) -> bool {
        true
    }

    fn name(&self) -> &str {
        "COMPUTE-RESTARTS"
    }

    fn description(&self) -> (r: &str)
        ensures
            r@ == "List available restarts"@,
    {
        "List available restarts"
    }

    fn execute(&self, args: &[Value]) -> (r: Result<Value, Error>)
        ensures
            outcome(r) == (yields(if args@.len() == 0 {
                Val::Arr(seq![Val::Str("ABORT"@), Val::Str("CONTINUE"@), Val::Str("STORE-VALUE"@), Val::Str("USE-VALUE"@)])
            } else {
                models(args@)[0]
            })),
    {
        if args.len() > 0 {
            return Ok(args[0].deep_copy());
        }
        let v = vec![
            Value::String(owned("ABORT")),
            Value::String(owned("CONTINUE")),
            Value::String(owned("STORE-VALUE")),
            Value::String(owned("USE-VALUE")),
        ];
        assert(models(v@) =~= seq![Val::Str("ABORT"@), Val::Str("CONTINUE"@), Val::Str("STORE-VALUE"@), Val::Str("USE-VALUE"@)]);
        Ok(Value::Array(v))
    }
}



/// CHECK-TYPE - Type checking with restart
pub struct CheckTypeTool;

impl Tool for CheckTypeTool {
    open spec fn names_itself(&self) -> bool {
        true
    }

    open spec fn spec_name(&self) -> Seq<char> {
        "CHECK-TYPE"@
    }

    open spec fn admits(&self, args: Seq<Val>) -> bool {
        true
    }

    fn name(&self) -> &str {
        "CHECK-TYPE"
    }

    fn description(&self) -> (r: &str)
        ensures
            r@ == "Check type with correctable error"@,
    {
        "Check type with correctable error"
    }

    fn execute(&self, args: &[Value]) -> (r: Result<Value, Error>)
        ensures
            outcome(r) == (if args@.len() < 2 {
                Err(ErrV::ToolExecutionError { tool: "CHECK-TYPE"@, reason: "CHECK-TYPE requires two arguments (place type-specifier)"@ })
            } else {
                yields(models(args@)[0])
            }),
    {
        if args.len() < 2 {
            return Err(exec_error("CHECK-TYPE", "CHECK-TYPE requires two arguments (place type-specifier)"));
        }
        Ok(args[0].deep_copy())
    }
}



/// UNBOUND-VARIABLE - Signal unbound variable error
pub struct UnboundVariableTool;

impl Tool for UnboundVariableTool {
    open spec fn names_itself(&self) -> bool {
        true
    }

    open spec fn spec_name(&self) -> Seq<char> {
        "UNBOUND-VARIABLE"@
    }

    open spec fn admits(&self, args: Seq<Val>) -> bool {
        true
    }

    fn name(&self) -> &str {
        "UNBOUND-VARIABLE"
    }

    fn description(&self) -> (r: &str)
        ensures
            r@ == "Unbound variable error type"@,
    {
        "Unbound variable error type"
    }

    fn execute(&self, args: &[Value]) -> (r: Result<Value, Error>)
        ensures
            outcome(r) == (Err::<Val, ErrV>(ErrV::ToolExecutionError { tool: "UNBOUND-VARIABLE"@, reason: "Unbound variable: "@ + lenient_text(models(args@), "UNKNOWN"@) })),
    {
        let name = lenient_text_exec(args, "UNKNOWN");
        Err(Error::ToolExecutionError { tool: owned("UNBOUND-VARIABLE"), reason: concat("Unbound variable: ", name) })
    }
}



/// UNDEFINED-FUNCTION - Signal undefined function error
pub struct UndefinedFunctionTool;

impl Tool for UndefinedFunctionTool {
    open spec fn names_itself(&self) -> bool {
        true
    }

    open spec fn spec_name(&self) -> Seq<char> {
        "UNDEFINED-FUNCTION"@
    }

    open spec fn admits(&self, args: Seq<Val>) -> bool {
        true
    }

    fn name(&self) -> &str {
        "UNDEFINED-FUNCTION"
    }

    fn description(&self) -> (r: &str)
        ensures
            r@ == "Undefined function error type"@,
    {
        "Undefined function error type"
    }

    fn execute(&self, args: &[Value]) -> (r: Result<Value, Error>)
        ensures
            outcome(r) == (Err::<Val, ErrV>(ErrV::ToolExecutionError { tool: "UNDEFINED-FUNCTION"@, reason: "Undefined function: "@ + lenient_text(models(args@), "UNKNOWN"@) })),
    {
        let name = lenient_text_exec(args, "UNKNOWN");
        Err(Error::ToolExecutionError { tool: owned("UNDEFINED-FUNCTION"), reason: concat("Undefined function: ", name) })
    }
}



/// STORAGE-CONDITION - Storage exhaustion condition
pub struct StorageConditionTool;

impl Tool for StorageConditionTool {
    open spec fn names_itself(&self) -> bool {
        true
    }

    open spec fn spec_name(&self) -> Seq<char> {
        "STORAGE-CONDITION"@
    }

    open spec fn admits(&self, args: Seq<Val>) -> bool {
        true
    }

    fn name(&self) -> &str {
        "STORAGE-CONDITION"
    }

    fn description(&self) -> (r: &str)
        ensures
            r@ == "Storage exhaustion condition type"@,
    {
        "Storage exhaustion condition type"
    }

    fn execute(&self, args: &[Value]) -> (r: Result<Value, Error>)
        ensures
            outcome(r) == (Err::<Val, ErrV>(ErrV::ToolExecutionError { tool: "STORAGE-CONDITION"@, reason: "Storage exhausted"@ })),
    {
        Err(exec_error("STORAGE-CONDITION", "Storage exhausted"))
    }
}



/// What ASSERT decides: an error without arguments; `None` when the test
/// holds; else `Some` of the detail to print after "Assertion failed", if
/// there is a second argument.
pub open spec fn assert_plan(a: Seq<Val>) -> Result<Option<Option<Val>>, ErrV> {
    if a.len() == 0 {
        Err(ErrV::ToolExecutionError {
            tool: "ASSERT"@,
            reason: "ASSERT requires at least one argument (test expression)"@,
        })
    } else if truthy(a[0]) {
        Ok(None)
    } else if a.len() > 1 {
        Ok(Some(Some(a[1])))
    } else {
        Ok(Some(None))
    }
}

/// Reads ASSERT's arguments and decides; the caller prints the detail of a
/// failed assertion.
pub fn plan_assert(args: &[Value]) -> (r: Result<Option<Option<Value>>, Error>)
    ensures
        match r {
            Ok(None) => assert_plan(models(args@)) == Ok::<Option<Option<Val>>, ErrV>(None),
            Ok(Some(None)) => assert_plan(models(args@)) == Ok::<Option<Option<Val>>, ErrV>(Some(None)),
            Ok(Some(Some(v))) => assert_plan(models(args@)) == Ok::<Option<Option<Val>>, ErrV>(Some(Some(v.model()))),
            Err(e) => assert_plan(models(args@)) == Err::<Option<Option<Val>>, ErrV>(e@),
        },
{
    if args.len() == 0 {
        return Err(exec_error("ASSERT", "ASSERT requires at least one argument (test expression)"));
    }
    if args[0].is_truthy() {
        Ok(None)
    } else if args.len() > 1 {
        Ok(Some(Some(args[1].deep_copy())))
    } else {
        Ok(Some(None))
    }
}
} // verus!
