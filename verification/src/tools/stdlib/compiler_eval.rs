//! Compiler and evaluation functions for OVSM
//!
//! Compilation, evaluation, compiler macros, and declaration handling.
//! Provides Common Lisp-style compile-time and run-time evaluation capabilities.
use vstd::prelude::*;

#[allow(unused_imports)]
use crate::access::{copy_range, copy_slice, copy_values, values_equal};
#[allow(unused_imports)]
use crate::error::{empty_collection, exec_error, invalid_args, ErrV, Error};
#[allow(unused_imports)]
use crate::text::{alphabetic, alphanumeric, char_from_u32, char_is_alphabetic, char_is_alphanumeric, char_is_lowercase, char_is_uppercase, char_is_whitespace, char_string, char_to_lowercase, char_to_uppercase, chars_of, chars_skip, concat, i64_to_string, int_decimal, lower_case, lower_chars, lowercase, owned, scalar_value, seq_less, str_equal, str_less, string_from_chars, to_lower, to_upper, upper_case, upper_chars, uppercase, whitespace};
#[allow(unused_imports)]
use crate::tools::{bad_args, name_insert, outcome, ref_outcome, string_views, yields, Tool, ToolRegistry};
#[allow(unused_imports)]
use crate::value::{and_then, elems, entry_models, int_of, models, obj_insert, obj_keys, obj_lookup, obj_merge, obj_of, obj_values, str_of, truthy, type_error, ObjectMap, Val, Value};

verus! {

broadcast use crate::seq_models::group_value_models;

/// The names after registering this module's tools, in order.
pub open spec fn registered_names(ns: Seq<Seq<char>>) -> Seq<Seq<char>> {
    let ns = name_insert(ns, "COMPILE"@);
    let ns = name_insert(ns, "COMPILE-FILE"@);
    let ns = name_insert(ns, "COMPILE-FILE-PATHNAME"@);
    let ns = name_insert(ns, "COMPILED-FUNCTION-P"@);
    let ns = name_insert(ns, "LOAD"@);
    let ns = name_insert(ns, "REQUIRE"@);
    let ns = name_insert(ns, "PROVIDE"@);
    let ns = name_insert(ns, "EVAL"@);
    let ns = name_insert(ns, "EVAL-WHEN"@);
    let ns = name_insert(ns, "CONSTANTP"@);
    let ns = name_insert(ns, "DEFINE-COMPILER-MACRO"@);
    let ns = name_insert(ns, "PROCLAIM"@);
    let ns = name_insert(ns, "DECLAIM"@);
    let ns = name_insert(ns, "DECLARE"@);
    let ns = name_insert(ns, "THE"@);
    let ns = name_insert(ns, "SPECIAL"@);
    let ns = name_insert(ns, "INLINE"@);
    let ns = name_insert(ns, "NOTINLINE"@);
    let ns = name_insert(ns, "OPTIMIZE"@);
    let ns = name_insert(ns, "SPEED"@);
    let ns = name_insert(ns, "SAFETY"@);
    let ns = name_insert(ns, "DEBUG"@);
    let ns = name_insert(ns, "SPACE"@);
    let ns = name_insert(ns, "COMPILATION-SPEED"@);
    let ns = name_insert(ns, "SYMBOL-FUNCTION"@);
    let ns = name_insert(ns, "FBOUNDP"@);
    let ns = name_insert(ns, "FMAKUNBOUND"@);
    let ns = name_insert(ns, "DISASSEMBLE"@);
    let ns = name_insert(ns, "COMPILER-MACRO-FUNCTION"@);
    let ns = name_insert(ns, "MACRO-FUNCTION"@);
    ns
}

/// Register the tools of this module: those the library holds, then those
/// the application supplies, each under its name: `disassemble_tool` under DISASSEMBLE, `compiler_macro_function_tool` under COMPILER-MACRO-FUNCTION, `macro_function_tool` under MACRO-FUNCTION.
pub fn register<TDisassemble: Tool + 'static, TCompilerMacroFunction: Tool + 'static, TMacroFunction: Tool + 'static>(registry: &mut ToolRegistry, disassemble_tool: TDisassemble, compiler_macro_function_tool: TCompilerMacroFunction, macro_function_tool: TMacroFunction)
    requires
        disassemble_tool.names_itself() ==> disassemble_tool.spec_name() == "DISASSEMBLE"@,
        compiler_macro_function_tool.names_itself() ==> compiler_macro_function_tool.spec_name() == "COMPILER-MACRO-FUNCTION"@,
        macro_function_tool.names_itself() ==> macro_function_tool.spec_name() == "MACRO-FUNCTION"@,
    ensures
        final(registry).names() == registered_names(old(registry).names()),
{
    registry.register(CompileTool);
    registry.register(CompileFileTool);
    registry.register(CompileFilePathnameTool);
    registry.register(CompiledFunctionPTool);
    registry.register(LoadTool);
    registry.register(RequireTool);
    registry.register(ProvideTool);
    registry.register(EvalTool);
    registry.register(EvalWhenTool);
    registry.register(ConstantpTool);
    registry.register(DefineCompilerMacroTool);
    registry.register(ProclaimTool);
    registry.register(DeclaimTool);
    registry.register(DeclareTool);
    registry.register(TheTool);
    registry.register(SpecialTool);
    registry.register(InlineTool);
    registry.register(NotinlineTool);
    registry.register(OptimizeTool);
    registry.register(SpeedTool);
    registry.register(SafetyTool);
    registry.register(DebugTool);
    registry.register(SpaceTool);
    registry.register(CompilationSpeedTool);
    registry.register(SymbolFunctionTool);
    registry.register(FboundpTool);
    registry.register(FmakunboundTool);
    registry.place(owned("DISASSEMBLE"), disassemble_tool);
    registry.place(owned("COMPILER-MACRO-FUNCTION"), compiler_macro_function_tool);
    registry.place(owned("MACRO-FUNCTION"), macro_function_tool);
}

/// COMPILE - Compile function
pub struct CompileTool;

impl Tool for CompileTool {
    open spec fn names_itself(&self) -> bool {
        true
    }

    open spec fn spec_name(&self) -> Seq<char> {
        "COMPILE"@
    }

    open spec fn admits(&self, args: Seq<Val>) -> bool {
        true
    }

    fn name(&self) -> &str {
        "COMPILE"
    }

    fn description(&self) -> (r: &str)
        ensures
            r@ == "Compile function definition"@,
    {
        "Compile function definition"
    }

    fn execute(&self, args: &[Value]) -> (r: Result<Value, Error>)
        ensures
            outcome(r) == (yields(if args@.len() == 0 { Val::Null } else { args@[0].model() })),
    {
        Ok(if args.len() == 0 { Value::Null } else { args[0].clone() })
    }
}

/// COMPILED-FUNCTION-P - Check if function is compiled
pub struct CompiledFunctionPTool;

impl Tool for CompiledFunctionPTool {
    open spec fn names_itself(&self) -> bool {
        true
    }

    open spec fn spec_name(&self) -> Seq<char> {
        "COMPILED-FUNCTION-P"@
    }

    open spec fn admits(&self, args: Seq<Val>) -> bool {
        true
    }

    fn name(&self) -> &str {
        "COMPILED-FUNCTION-P"
    }

    fn description(&self) -> (r: &str)
        ensures
            r@ == "Check if function is compiled"@,
    {
        "Check if function is compiled"
    }

    fn execute(&self, args: &[Value]) -> (r: Result<Value, Error>)
        ensures
            outcome(r) == (yields(Val::Bool(true))),
    {
        Ok(Value::Bool(true))
    }
}

/// LOAD - Load Lisp file
pub struct LoadTool;

impl Tool for LoadTool {
    open spec fn names_itself(&self) -> bool {
        true
    }

    open spec fn spec_name(&self) -> Seq<char> {
        "LOAD"@
    }

    open spec fn admits(&self, args: Seq<Val>) -> bool {
        true
    }

    fn name(&self) -> &str {
        "LOAD"
    }

    fn description(&self) -> (r: &str)
        ensures
            r@ == "Load and execute Lisp file"@,
    {
        "Load and execute Lisp file"
    }

    fn execute(&self, args: &[Value]) -> (r: Result<Value, Error>)
        ensures
            outcome(r) == (if args@.len() == 0 { bad_args("UNKNOWN"@, "LOAD requires filename"@) } else { yields(Val::Bool(true)) }),
    {
        if args.len() == 0 {
            return Err(invalid_args("UNKNOWN", "LOAD requires filename"));
        }
        Ok(Value::Bool(true))
    }
}

/// REQUIRE - Require module
pub struct RequireTool;

impl Tool for RequireTool {
    open spec fn names_itself(&self) -> bool {
        true
    }

    open spec fn spec_name(&self) -> Seq<char> {
        "REQUIRE"@
    }

    open spec fn admits(&self, args: Seq<Val>) -> bool {
        true
    }

    fn name(&self) -> &str {
        "REQUIRE"
    }

    fn description(&self) -> (r: &str)
        ensures
            r@ == "Require and load module"@,
    {
        "Require and load module"
    }

    fn execute(&self, args: &[Value]) -> (r: Result<Value, Error>)
        ensures
            outcome(r) == (yields(if args@.len() == 0 { Val::Null } else { args@[0].model() })),
    {
        Ok(if args.len() == 0 { Value::Null } else { args[0].clone() })
    }
}

/// PROVIDE - Provide module
pub struct ProvideTool;

impl Tool for ProvideTool {
    open spec fn names_itself(&self) -> bool {
        true
    }

    open spec fn spec_name(&self) -> Seq<char> {
        "PROVIDE"@
    }

    open spec fn admits(&self, args: Seq<Val>) -> bool {
        true
    }

    fn name(&self) -> &str {
        "PROVIDE"
    }

    fn description(&self) -> (r: &str)
        ensures
            r@ == "Mark module as provided"@,
    {
        "Mark module as provided"
    }

    fn execute(&self, args: &[Value]) -> (r: Result<Value, Error>)
        ensures
            outcome(r) == (yields(if args@.len() == 0 { Val::Null } else { args@[0].model() })),
    {
        Ok(if args.len() == 0 { Value::Null } else { args[0].clone() })
    }
}

/// EVAL - Evaluate expression
pub struct EvalTool;

impl Tool for EvalTool {
    open spec fn names_itself(&self) -> bool {
        true
    }

    open spec fn spec_name(&self) -> Seq<char> {
        "EVAL"@
    }

    open spec fn admits(&self, args: Seq<Val>) -> bool {
        true
    }

    fn name(&self) -> &str {
        "EVAL"
    }

    fn description(&self) -> (r: &str)
        ensures
            r@ == "Evaluate Lisp expression"@,
    {
        "Evaluate Lisp expression"
    }

    fn execute(&self, args: &[Value]) -> (r: Result<Value, Error>)
        ensures
            outcome(r) == (yields(if args@.len() == 0 { Val::Null } else { args@[0].model() })),
    {
        Ok(if args.len() == 0 { Value::Null } else { args[0].clone() })
    }
}

/// EVAL-WHEN - Conditional evaluation
pub struct EvalWhenTool;

impl Tool for EvalWhenTool {
    open spec fn names_itself(&self) -> bool {
        true
    }

    open spec fn spec_name(&self) -> Seq<char> {
        "EVAL-WHEN"@
    }

    open spec fn admits(&self, args: Seq<Val>) -> bool {
        true
    }

    fn name(&self) -> &str {
        "EVAL-WHEN"
    }

    fn description(&self) -> (r: &str)
        ensures
            r@ == "Conditionally evaluate at compile/load/execute time"@,
    {
        "Conditionally evaluate at compile/load/execute time"
    }

    fn execute(&self, args: &[Value]) -> (r: Result<Value, Error>)
        ensures
            outcome(r) == (yields(if args@.len() > 1 { args@[args@.len() - 1].model() } else { Val::Null })),
    {
        Ok(if args.len() > 1 { args[args.len() - 1].clone() } else { Value::Null })
    }
}

/// DEFINE-COMPILER-MACRO - Define compiler macro
pub struct DefineCompilerMacroTool;

impl Tool for DefineCompilerMacroTool {
    open spec fn names_itself(&self) -> bool {
        true
    }

    open spec fn spec_name(&self) -> Seq<char> {
        "DEFINE-COMPILER-MACRO"@
    }

    open spec fn admits(&self, args: Seq<Val>) -> bool {
        true
    }

    fn name(&self) -> &str {
        "DEFINE-COMPILER-MACRO"
    }

    fn description(&self) -> (r: &str)
        ensures
            r@ == "Define compiler macro"@,
    {
        "Define compiler macro"
    }

    fn execute(&self, args: &[Value]) -> (r: Result<Value, Error>)
        ensures
            outcome(r) == (yields(if args@.len() == 0 { Val::Null } else { args@[0].model() })),
    {
        Ok(if args.len() == 0 { Value::Null } else { args[0].clone() })
    }
}

/// PROCLAIM - Proclaim declaration globally
pub struct ProclaimTool;

impl Tool for ProclaimTool {
    open spec fn names_itself(&self) -> bool {
        true
    }

    open spec fn spec_name(&self) -> Seq<char> {
        "PROCLAIM"@
    }

    open spec fn admits(&self, args: Seq<Val>) -> bool {
        true
    }

    fn name(&self) -> &str {
        "PROCLAIM"
    }

    fn description(&self) -> (r: &str)
        ensures
            r@ == "Make global declaration"@,
    {
        "Make global declaration"
    }

    fn execute(&self, args: &[Value]) -> (r: Result<Value, Error>)
        ensures
            outcome(r) == (yields(if args@.len() == 0 { Val::Null } else { args@[0].model() })),
    {
        Ok(if args.len() == 0 { Value::Null } else { args[0].clone() })
    }
}

/// DECLAIM - Declare at compile time
pub struct DeclaimTool;

impl Tool for DeclaimTool {
    open spec fn names_itself(&self) -> bool {
        true
    }

    open spec fn spec_name(&self) -> Seq<char> {
        "DECLAIM"@
    }

    open spec fn admits(&self, args: Seq<Val>) -> bool {
        true
    }

    fn name(&self) -> &str {
        "DECLAIM"
    }

    fn description(&self) -> (r: &str)
        ensures
            r@ == "Make compile-time declaration"@,
    {
        "Make compile-time declaration"
    }

    fn execute(&self, args: &[Value]) -> (r: Result<Value, Error>)
        ensures
            outcome(r) == (yields(if args@.len() == 0 { Val::Null } else { args@[0].model() })),
    {
        Ok(if args.len() == 0 { Value::Null } else { args[0].clone() })
    }
}

/// DECLARE - Local declaration
pub struct DeclareTool;

impl Tool for DeclareTool {
    open spec fn names_itself(&self) -> bool {
        true
    }

    open spec fn spec_name(&self) -> Seq<char> {
        "DECLARE"@
    }

    open spec fn admits(&self, args: Seq<Val>) -> bool {
        true
    }

    fn name(&self) -> &str {
        "DECLARE"
    }

    fn description(&self) -> (r: &str)
        ensures
            r@ == "Make local declaration"@,
    {
        "Make local declaration"
    }

    fn execute(&self, args: &[Value]) -> (r: Result<Value, Error>)
        ensures
            outcome(r) == (yields(if args@.len() == 0 { Val::Null } else { args@[0].model() })),
    {
        Ok(if args.len() == 0 { Value::Null } else { args[0].clone() })
    }
}

/// THE - Type assertion
pub struct TheTool;

impl Tool for TheTool {
    open spec fn names_itself(&self) -> bool {
        true
    }

    open spec fn spec_name(&self) -> Seq<char> {
        "THE"@
    }

    open spec fn admits(&self, args: Seq<Val>) -> bool {
        true
    }

    fn name(&self) -> &str {
        "THE"
    }

    fn description(&self) -> (r: &str)
        ensures
            r@ == "Assert value type"@,
    {
        "Assert value type"
    }

    fn execute(&self, args: &[Value]) -> (r: Result<Value, Error>)
        ensures
            outcome(r) == (yields(if args@.len() > 1 { args@[1].model() } else { Val::Null })),
    {
        Ok(if args.len() > 1 { args[1].clone() } else { Value::Null })
    }
}

/// SPECIAL - Special variable declaration
pub struct SpecialTool;

impl Tool for SpecialTool {
    open spec fn names_itself(&self) -> bool {
        true
    }

    open spec fn spec_name(&self) -> Seq<char> {
        "SPECIAL"@
    }

    open spec fn admits(&self, args: Seq<Val>) -> bool {
        true
    }

    fn name(&self) -> &str {
        "SPECIAL"
    }

    fn description(&self) -> (r: &str)
        ensures
            r@ == "Declare special variable"@,
    {
        "Declare special variable"
    }

    fn execute(&self, args: &[Value]) -> (r: Result<Value, Error>)
        ensures
            outcome(r) == (yields(if args@.len() == 0 { Val::Null } else { args@[0].model() })),
    {
        Ok(if args.len() == 0 { Value::Null } else { args[0].clone() })
    }
}

/// INLINE - Inline function declaration
pub struct InlineTool;

impl Tool for InlineTool {
    open spec fn names_itself(&self) -> bool {
        true
    }

    open spec fn spec_name(&self) -> Seq<char> {
        "INLINE"@
    }

    open spec fn admits(&self, args: Seq<Val>) -> bool {
        true
    }

    fn name(&self) -> &str {
        "INLINE"
    }

    fn description(&self) -> (r: &str)
        ensures
            r@ == "Declare function for inlining"@,
    {
        "Declare function for inlining"
    }

    fn execute(&self, args: &[Value]) -> (r: Result<Value, Error>)
        ensures
            outcome(r) == (yields(if args@.len() == 0 { Val::Null } else { args@[0].model() })),
    {
        Ok(if args.len() == 0 { Value::Null } else { args[0].clone() })
    }
}

/// NOTINLINE - Not-inline function declaration
pub struct NotinlineTool;

impl Tool for NotinlineTool {
    open spec fn names_itself(&self) -> bool {
        true
    }

    open spec fn spec_name(&self) -> Seq<char> {
        "NOTINLINE"@
    }

    open spec fn admits(&self, args: Seq<Val>) -> bool {
        true
    }

    fn name(&self) -> &str {
        "NOTINLINE"
    }

    fn description(&self) -> (r: &str)
        ensures
            r@ == "Declare function not for inlining"@,
    {
        "Declare function not for inlining"
    }

    fn execute(&self, args: &[Value]) -> (r: Result<Value, Error>)
        ensures
            outcome(r) == (yields(if args@.len() == 0 { Val::Null } else { args@[0].model() })),
    {
        Ok(if args.len() == 0 { Value::Null } else { args[0].clone() })
    }
}

/// SPEED - Speed optimization level
pub struct SpeedTool;

impl Tool for SpeedTool {
    open spec fn names_itself(&self) -> bool {
        true
    }

    open spec fn spec_name(&self) -> Seq<char> {
        "SPEED"@
    }

    open spec fn admits(&self, args: Seq<Val>) -> bool {
        true
    }

    fn name(&self) -> &str {
        "SPEED"
    }

    fn description(&self) -> (r: &str)
        ensures
            r@ == "Speed optimization level"@,
    {
        "Speed optimization level"
    }

    fn execute(&self, args: &[Value]) -> (r: Result<Value, Error>)
        ensures
            outcome(r) == (yields(if args@.len() == 0 { Val::Int(1) } else { args@[0].model() })),
    {
        Ok(if args.len() == 0 { Value::Int(1) } else { args[0].clone() })
    }
}

/// SAFETY - Safety optimization level
pub struct SafetyTool;

impl Tool for SafetyTool {
    open spec fn names_itself(&self) -> bool {
        true
    }

    open spec fn spec_name(&self) -> Seq<char> {
        "SAFETY"@
    }

    open spec fn admits(&self, args: Seq<Val>) -> bool {
        true
    }

    fn name(&self) -> &str {
        "SAFETY"
    }

    fn description(&self) -> (r: &str)
        ensures
            r@ == "Safety optimization level"@,
    {
        "Safety optimization level"
    }

    fn execute(&self, args: &[Value]) -> (r: Result<Value, Error>)
        ensures
            outcome(r) == (yields(if args@.len() == 0 { Val::Int(1) } else { args@[0].model() })),
    {
        Ok(if args.len() == 0 { Value::Int(1) } else { args[0].clone() })
    }
}

/// DEBUG - Debug optimization level
pub struct DebugTool;

impl Tool for DebugTool {
    open spec fn names_itself(&self) -> bool {
        true
    }

    open spec fn spec_name(&self) -> Seq<char> {
        "DEBUG"@
    }

    open spec fn admits(&self, args: Seq<Val>) -> bool {
        true
    }

    fn name(&self) -> &str {
        "DEBUG"
    }

    fn description(&self) -> (r: &str)
        ensures
            r@ == "Debug optimization level"@,
    {
        "Debug optimization level"
    }

    fn execute(&self, args: &[Value]) -> (r: Result<Value, Error>)
        ensures
            outcome(r) == (yields(if args@.len() == 0 { Val::Int(1) } else { args@[0].model() })),
    {
        Ok(if args.len() == 0 { Value::Int(1) } else { args[0].clone() })
    }
}

/// SPACE - Space optimization level
pub struct SpaceTool;

impl Tool for SpaceTool {
    open spec fn names_itself(&self) -> bool {
        true
    }

    open spec fn spec_name(&self) -> Seq<char> {
        "SPACE"@
    }

    open spec fn admits(&self, args: Seq<Val>) -> bool {
        true
    }

    fn name(&self) -> &str {
        "SPACE"
    }

    fn description(&self) -> (r: &str)
        ensures
            r@ == "Space optimization level"@,
    {
        "Space optimization level"
    }

    fn execute(&self, args: &[Value]) -> (r: Result<Value, Error>)
        ensures
            outcome(r) == (yields(if args@.len() == 0 { Val::Int(1) } else { args@[0].model() })),
    {
        Ok(if args.len() == 0 { Value::Int(1) } else { args[0].clone() })
    }
}

/// COMPILATION-SPEED - Compilation speed level
pub struct CompilationSpeedTool;

impl Tool for CompilationSpeedTool {
    open spec fn names_itself(&self) -> bool {
        true
    }

    open spec fn spec_name(&self) -> Seq<char> {
        "COMPILATION-SPEED"@
    }

    open spec fn admits(&self, args: Seq<Val>) -> bool {
        true
    }

    fn name(&self) -> &str {
        "COMPILATION-SPEED"
    }

    fn description(&self) -> (r: &str)
        ensures
            r@ == "Compilation speed level"@,
    {
        "Compilation speed level"
    }

    fn execute(&self, args: &[Value]) -> (r: Result<Value, Error>)
        ensures
            outcome(r) == (yields(if args@.len() == 0 { Val::Int(1) } else { args@[0].model() })),
    {
        Ok(if args.len() == 0 { Value::Int(1) } else { args[0].clone() })
    }
}

/// SYMBOL-FUNCTION - Get function bound to symbol
pub struct SymbolFunctionTool;

impl Tool for SymbolFunctionTool {
    open spec fn names_itself(&self) -> bool {
        true
    }

    open spec fn spec_name(&self) -> Seq<char> {
        "SYMBOL-FUNCTION"@
    }

    open spec fn admits(&self, args: Seq<Val>) -> bool {
        true
    }

    fn name(&self) -> &str {
        "SYMBOL-FUNCTION"
    }

    fn description(&self) -> (r: &str)
        ensures
            r@ == "Get function bound to symbol"@,
    {
        "Get function bound to symbol"
    }

    fn execute(&self, args: &[Value]) -> (r: Result<Value, Error>)
        ensures
            outcome(r) == (yields(if args@.len() == 0 { Val::Null } else { args@[0].model() })),
    {
        Ok(if args.len() == 0 { Value::Null } else { args[0].clone() })
    }
}

/// FBOUNDP - Check if function bound
pub struct FboundpTool;

impl Tool for FboundpTool {
    open spec fn names_itself(&self) -> bool {
        true
    }

    open spec fn spec_name(&self) -> Seq<char> {
        "FBOUNDP"@
    }

    open spec fn admits(&self, args: Seq<Val>) -> bool {
        true
    }

    fn name(&self) -> &str {
        "FBOUNDP"
    }

    fn description(&self) -> (r: &str)
        ensures
            r@ == "Check if symbol has function binding"@,
    {
        "Check if symbol has function binding"
    }

    fn execute(&self, args: &[Value]) -> (r: Result<Value, Error>)
        ensures
            outcome(r) == (yields(Val::Bool(!(args@.len() == 0)))),
    {
        Ok(Value::Bool(!(args.len() == 0)))
    }
}

/// FMAKUNBOUND - Unbind function
pub struct FmakunboundTool;

impl Tool for FmakunboundTool {
    open spec fn names_itself(&self) -> bool {
        true
    }

    open spec fn spec_name(&self) -> Seq<char> {
        "FMAKUNBOUND"@
    }

    open spec fn admits(&self, args: Seq<Val>) -> bool {
        true
    }

    fn name(&self) -> &str {
        "FMAKUNBOUND"
    }

    fn description(&self) -> (r: &str)
        ensures
            r@ == "Remove function binding from symbol"@,
    {
        "Remove function binding from symbol"
    }

    fn execute(&self, args: &[Value]) -> (r: Result<Value, Error>)
        ensures
            outcome(r) == (yields(if args@.len() == 0 { Val::Null } else { args@[0].model() })),
    {
        Ok(if args.len() == 0 { Value::Null } else { args[0].clone() })
    }
}

use crate::tools::stdlib::objects::merge_into;
use crate::tools::stdlib::strings::{replace_all, replace_all_exec};

/// The object that COMPILE-FILE answers for a source path.
pub open spec fn compile_report(path: Seq<char>) -> Seq<(Seq<char>, Val)> {
    let o = obj_insert(Seq::empty(), "source"@, Val::Str(path));
    let o = obj_insert(o, "output"@, Val::Str(replace_all(path, ".lisp"@, ".fasl"@)));
    let o = obj_insert(o, "success"@, Val::Bool(true));
    let o = obj_insert(o, "warnings"@, Val::Arr(Seq::empty()));
    obj_insert(o, "errors"@, Val::Arr(Seq::empty()))
}

fn fasl_path(path: &str) -> (r: String)
    ensures
        r@ == replace_all(path@, ".lisp"@, ".fasl"@),
{
    let out = replace_all_exec(&chars_of(path), &chars_of(".lisp"), &chars_of(".fasl"));
    string_from_chars(&out)
}

/// The default optimization settings.
pub open spec fn default_optimize() -> Seq<(Seq<char>, Val)> {
    let o = obj_insert(Seq::empty(), "speed"@, Val::Int(1));
    let o = obj_insert(o, "safety"@, Val::Int(1));
    let o = obj_insert(o, "debug"@, Val::Int(1));
    let o = obj_insert(o, "space"@, Val::Int(1));
    obj_insert(o, "compilation-speed"@, Val::Int(1))
}

/// The settings after merging in each object argument in turn (others are skipped).
pub open spec fn optimize_settings(a: Seq<Val>) -> Seq<(Seq<char>, Val)>
    decreases a.len(),
{
    if a.len() == 0 {
        default_optimize()
    } else {
        let o = optimize_settings(a.drop_last());
        match a.last() {
            Val::Obj(t) => obj_merge(o, t),
            _ => o,
        }
    }
}

/// COMPILE-FILE - Compile file
pub struct CompileFileTool;

impl Tool for CompileFileTool {
    open spec fn names_itself(&self) -> bool {
        true
    }

    open spec fn spec_name(&self) -> Seq<char> {
        "COMPILE-FILE"@
    }

    open spec fn admits(&self, args: Seq<Val>) -> bool {
        true
    }

    fn name(&self) -> &str {
        "COMPILE-FILE"
    }

    fn description(&self) -> (r: &str)
        ensures
            r@ == "Compile Lisp source file"@,
    {
        "Compile Lisp source file"
    }

    fn execute(&self, args: &[Value]) -> (r: Result<Value, Error>)
        ensures
            outcome(r) == (if args@.len() == 0 { bad_args("UNKNOWN"@, "COMPILE-FILE requires filename"@) } else {
                match models(args@)[0] {
                    Val::Str(path) => yields(Val::Obj(compile_report(path))),
                    _ => Err(ErrV::TypeError { expected: "valid argument"@, got: "invalid"@ }),
                }
            }),
    {
        if args.len() == 0 {
            return Err(invalid_args("UNKNOWN", "COMPILE-FILE requires filename"));
        }
        match &args[0] {
            Value::String(path) => {
                let mut m = ObjectMap::new();
                m.insert(owned("source"), Value::String(owned(path.as_str())));
                m.insert(owned("output"), Value::String(fasl_path(path.as_str())));
                m.insert(owned("success"), Value::Bool(true));
                let w: Vec<Value> = Vec::new();
                let e: Vec<Value> = Vec::new();
                assert(models(w@) =~= Seq::<Val>::empty());
                assert(models(e@) =~= Seq::<Val>::empty());
                m.insert(owned("warnings"), Value::Array(w));
                m.insert(owned("errors"), Value::Array(e));
                Ok(Value::Object(m))
            },
            _ => Err(Error::TypeError { expected: owned("valid argument"), got: owned("invalid") }),
        }
    }
}



/// COMPILE-FILE-PATHNAME - Get compiled file pathname
pub struct CompileFilePathnameTool;

impl Tool for CompileFilePathnameTool {
    open spec fn names_itself(&self) -> bool {
        true
    }

    open spec fn spec_name(&self) -> Seq<char> {
        "COMPILE-FILE-PATHNAME"@
    }

    open spec fn admits(&self, args: Seq<Val>) -> bool {
        true
    }

    fn name(&self) -> &str {
        "COMPILE-FILE-PATHNAME"
    }

    fn description(&self) -> (r: &str)
        ensures
            r@ == "Get pathname for compiled file"@,
    {
        "Get pathname for compiled file"
    }

    fn execute(&self, args: &[Value]) -> (r: Result<Value, Error>)
        ensures
            outcome(r) == (if args@.len() == 0 { bad_args("UNKNOWN"@, "COMPILE-FILE-PATHNAME requires filename"@) } else {
                match models(args@)[0] {
                    Val::Str(path) => yields(Val::Str(replace_all(path, ".lisp"@, ".fasl"@))),
                    _ => Err(ErrV::TypeError { expected: "valid argument"@, got: "invalid"@ }),
                }
            }),
    {
        if args.len() == 0 {
            return Err(invalid_args("UNKNOWN", "COMPILE-FILE-PATHNAME requires filename"));
        }
        match &args[0] {
            Value::String(path) => Ok(Value::String(fasl_path(path.as_str()))),
            _ => Err(Error::TypeError { expected: owned("valid argument"), got: owned("invalid") }),
        }
    }
}



/// CONSTANTP - Check if expression is constant
pub struct ConstantpTool;

impl Tool for ConstantpTool {
    open spec fn names_itself(&self) -> bool {
        true
    }

    open spec fn spec_name(&self) -> Seq<char> {
        "CONSTANTP"@
    }

    open spec fn admits(&self, args: Seq<Val>) -> bool {
        true
    }

    fn name(&self) -> &str {
        "CONSTANTP"
    }

    fn description(&self) -> (r: &str)
        ensures
            r@ == "Check if expression is constant"@,
    {
        "Check if expression is constant"
    }

    fn execute(&self, args: &[Value]) -> (r: Result<Value, Error>)
        ensures
            outcome(r) == (yields(Val::Bool(args@.len() > 0 && match models(args@)[0] {
                Val::Int(_) | Val::Float(_) | Val::Str(_) | Val::Bool(_) | Val::Null => true,
                _ => false,
            }))),
    {
        if args.len() == 0 {
            return Ok(Value::Bool(false));
        }
        match &args[0] {
            Value::Int(_) | Value::Float(_) | Value::String(_) | Value::Bool(_) | Value::Null => Ok(Value::Bool(true)),
            _ => Ok(Value::Bool(false)),
        }
    }
}



/// OPTIMIZE - Optimization declaration
pub struct OptimizeTool;

impl Tool for OptimizeTool {
    open spec fn names_itself(&self) -> bool {
        true
    }

    open spec fn spec_name(&self) -> Seq<char> {
        "OPTIMIZE"@
    }

    open spec fn admits(&self, args: Seq<Val>) -> bool {
        true
    }

    fn name(&self) -> &str {
        "OPTIMIZE"
    }

    fn description(&self) -> (r: &str)
        ensures
            r@ == "Declare optimization settings"@,
    {
        "Declare optimization settings"
    }

    fn execute(&self, args: &[Value]) -> (r: Result<Value, Error>)
        ensures
            outcome(r) == (yields(Val::Obj(optimize_settings(models(args@))))),
    {
        let ghost a = models(args@);
        let mut m = ObjectMap::new();
        m.insert(owned("speed"), Value::Int(1));
        m.insert(owned("safety"), Value::Int(1));
        m.insert(owned("debug"), Value::Int(1));
        m.insert(owned("space"), Value::Int(1));
        m.insert(owned("compilation-speed"), Value::Int(1));
        let mut i: usize = 0;
        assert(a.take(0) =~= Seq::<Val>::empty());
        while i < args.len()
            invariant
                a == models(args@),
                i <= args@.len(),
                m.model() == optimize_settings(a.take(i as int)),
            decreases args.len() - i,
        {
            assert(a.take(i + 1).drop_last() =~= a.take(i as int));
            assert(a.take(i + 1).last() == args@[i as int].model());
            match &args[i] {
                Value::Object(t) => {
                    m = merge_into(m, t);
                },
                _ => {},
            }
            i = i + 1;
        }
        assert(a.take(i as int) =~= a);
        Ok(Value::Object(m))
    }
}



/// DISASSEMBLE's answer for a function of the given printed name: its name,
/// three placeholder instructions, and that no disassembly is available.
pub open spec fn disassembly_model(name: Seq<char>) -> Val {
    let es = obj_insert(Seq::empty(), "function"@, Val::Str(name));
    let es = obj_insert(es, "instructions"@, Val::Arr(seq![Val::Str("PUSH"@), Val::Str("CALL"@), Val::Str("RET"@)]));
    let es = obj_insert(es, "available"@, Val::Bool(false));
    let es = obj_insert(es, "message"@, Val::Str("Disassembly not available for "@ + name));
    Val::Obj(es)
}

/// DISASSEMBLE's answer for a function of the given printed name.
pub fn disassembly(name: &str) -> (r: Value)
    ensures
        r.model() == disassembly_model(name@),
{
    let mut m = ObjectMap::new();
    m.insert(owned("function"), Value::String(owned(name)));
    let v = vec![Value::String(owned("PUSH")), Value::String(owned("CALL")), Value::String(owned("RET"))];
    assert(models(v@) =~= seq![Val::Str("PUSH"@), Val::Str("CALL"@), Val::Str("RET"@)]);
    m.insert(owned("instructions"), Value::Array(v));
    m.insert(owned("available"), Value::Bool(false));
    m.insert(owned("message"), Value::String(concat("Disassembly not available for ", name)));
    Value::Object(m)
}

/// COMPILER-MACRO-FUNCTION's answer for a function of the given printed name.
pub open spec fn compiler_macro_model(name: Seq<char>) -> Val {
    let es = obj_insert(Seq::empty(), "name"@, Val::Str(name));
    let es = obj_insert(es, "defined"@, Val::Bool(false));
    let es = obj_insert(es, "type"@, Val::Str("compiler-macro"@));
    let es = obj_insert(es, "parameters"@, Val::Arr(Seq::empty()));
    Val::Obj(es)
}

/// COMPILER-MACRO-FUNCTION's answer for a function of the given printed name.
pub fn compiler_macro_info(name: &str) -> (r: Value)
    ensures
        r.model() == compiler_macro_model(name@),
{
    let mut m = ObjectMap::new();
    m.insert(owned("name"), Value::String(owned(name)));
    m.insert(owned("defined"), Value::Bool(false));
    m.insert(owned("type"), Value::String(owned("compiler-macro")));
    let v: Vec<Value> = Vec::new();
    assert(models(v@) =~= Seq::<Val>::empty());
    m.insert(owned("parameters"), Value::Array(v));
    Value::Object(m)
}

/// MACRO-FUNCTION's answer for a symbol of the given printed name.
pub open spec fn macro_model(name: Seq<char>) -> Val {
    let es = obj_insert(Seq::empty(), "symbol"@, Val::Str(name));
    let es = obj_insert(es, "defined"@, Val::Bool(false));
    let es = obj_insert(es, "type"@, Val::Str("macro"@));
    let es = obj_insert(es, "parameters"@, Val::Arr(Seq::empty()));
    let es = obj_insert(es, "body"@, Val::Null);
    Val::Obj(es)
}

/// MACRO-FUNCTION's answer for a symbol of the given printed name.
pub fn macro_info(name: &str) -> (r: Value)
    ensures
        r.model() == macro_model(name@),
{
    let mut m = ObjectMap::new();
    m.insert(owned("symbol"), Value::String(owned(name)));
    m.insert(owned("defined"), Value::Bool(false));
    m.insert(owned("type"), Value::String(owned("macro")));
    let v: Vec<Value> = Vec::new();
    assert(models(v@) =~= Seq::<Val>::empty());
    m.insert(owned("parameters"), Value::Array(v));
    m.insert(owned("body"), Value::Null);
    Value::Object(m)
}
} // verus!
