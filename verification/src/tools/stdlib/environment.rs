//! Environment introspection for OVSM
//!
//! Runtime environment access and introspection.
//! Variable bindings, function bindings, declarations, and macroexpansion.
use vstd::prelude::*;

#[allow(unused_imports)]
use crate::access::{copy_range, copy_slice, copy_values, values_equal};
#[allow(unused_imports)]
use crate::error::{empty_collection, exec_error, invalid_args, ErrV, Error};
#[allow(unused_imports)]
use crate::text::{alphabetic, alphanumeric, char_from_u32, char_is_alphabetic, char_is_alphanumeric, char_is_lowercase, char_is_uppercase, char_is_whitespace, char_string, char_to_lowercase, char_to_uppercase, chars_of, chars_skip, concat, i64_to_string, int_decimal, lower_case, lower_chars, lowercase, owned, scalar_value, seq_less, str_equal, str_less, string_from_chars, to_lower, to_upper, upper_case, upper_chars, uppercase, whitespace};
#[allow(unused_imports)]
use crate::tools::{bad_args, name_insert, outcome, ref_outcome, string_views, yields, Tool, ToolRegistry};
#[allow(unused_imports)]
use crate::value::{and_then, elems, entry_models, int_of, models, obj_insert, obj_keys, obj_lookup, obj_merge, obj_of, obj_values, str_of, truthy, type_error, ObjectMap, Val, Value};

verus! {

broadcast use crate::seq_models::group_value_models;

/// The names after registering this module's tools, in order.
pub open spec fn registered_names(ns: Seq<Seq<char>>) -> Seq<Seq<char>> {
    let ns = name_insert(ns, "MACROEXPAND"@);
    let ns = name_insert(ns, "MACROEXPAND-1"@);
    let ns = name_insert(ns, "COMPILER-MACROEXPAND"@);
    let ns = name_insert(ns, "COMPILER-MACROEXPAND-1"@);
    let ns = name_insert(ns, "VARIABLE-INFORMATION"@);
    let ns = name_insert(ns, "FUNCTION-INFORMATION"@);
    let ns = name_insert(ns, "DECLARATION-INFORMATION"@);
    let ns = name_insert(ns, "AUGMENT-ENVIRONMENT"@);
    let ns = name_insert(ns, "PARSE-MACRO"@);
    let ns = name_insert(ns, "ENCLOSE"@);
    let ns = name_insert(ns, "DEFINE-DECLARATION"@);
    let ns = name_insert(ns, "GET-ENVIRONMENT"@);
    let ns = name_insert(ns, "ENVIRONMENT-P"@);
    ns
}

/// Register the tools of this module.
pub fn register(registry: &mut ToolRegistry)
    ensures
        final(registry).names() == registered_names(old(registry).names()),
{
    registry.register(MacroexpandTool);
    registry.register(Macroexpand1Tool);
    registry.register(CompilerMacroexpandTool);
    registry.register(CompilerMacroexpand1Tool);
    registry.register(VariableInformationTool);
    registry.register(FunctionInformationTool);
    registry.register(DeclarationInformationTool);
    registry.register(AugmentEnvironmentTool);
    registry.register(ParseMacroTool);
    registry.register(EncloseTool);
    registry.register(DefineDeclarationTool);
    registry.register(GetEnvironmentTool);
    registry.register(EnvironmentPTool);
}

/// MACROEXPAND - Expand macro once
pub struct MacroexpandTool;

impl Tool for MacroexpandTool {
    open spec fn names_itself(&self) -> bool {
        true
    }

    open spec fn spec_name(&self) -> Seq<char> {
        "MACROEXPAND"@
    }

    open spec fn admits(&self, args: Seq<Val>) -> bool {
        true
    }

    fn name(&self) -> &str {
        "MACROEXPAND"
    }

    fn description(&self) -> (r: &str)
        ensures
            r@ == "Expand macro form once"@,
    {
        "Expand macro form once"
    }

    fn execute(&self, args: &[Value]) -> (r: Result<Value, Error>)
        ensures
            outcome(r) == (if args@.len() == 0 { yields(Val::Arr(seq![Val::Null, Val::Bool(false)])) } else { yields(Val::Arr(seq![args@[0].model(), Val::Bool(false)])) }),
    {
        if args.len() == 0 {
            return Ok({
            let items = vec![Value::Null, Value::Bool(false)];
            assert(models(items@) =~= seq![Val::Null, Val::Bool(false)]);
            Value::Array(items)
        });
        }
        Ok({
            let items = vec![args[0].clone(), Value::Bool(false)];
            assert(models(items@) =~= seq![args@[0].model(), Val::Bool(false)]);
            Value::Array(items)
        })
    }
}

/// MACROEXPAND-1 - Expand macro one step
pub struct Macroexpand1Tool;

impl Tool for Macroexpand1Tool {
    open spec fn names_itself(&self) -> bool {
        true
    }

    open spec fn spec_name(&self) -> Seq<char> {
        "MACROEXPAND-1"@
    }

    open spec fn admits(&self, args: Seq<Val>) -> bool {
        true
    }

    fn name(&self) -> &str {
        "MACROEXPAND-1"
    }

    fn description(&self) -> (r: &str)
        ensures
            r@ == "Expand macro form one step"@,
    {
        "Expand macro form one step"
    }

    fn execute(&self, args: &[Value]) -> (r: Result<Value, Error>)
        ensures
            outcome(r) == (if args@.len() == 0 { yields(Val::Arr(seq![Val::Null, Val::Bool(false)])) } else { yields(Val::Arr(seq![args@[0].model(), Val::Bool(false)])) }),
    {
        if args.len() == 0 {
            return Ok({
            let items = vec![Value::Null, Value::Bool(false)];
            assert(models(items@) =~= seq![Val::Null, Val::Bool(false)]);
            Value::Array(items)
        });
        }
        Ok({
            let items = vec![args[0].clone(), Value::Bool(false)];
            assert(models(items@) =~= seq![args@[0].model(), Val::Bool(false)]);
            Value::Array(items)
        })
    }
}

/// COMPILER-MACROEXPAND - Expand compiler macro
pub struct CompilerMacroexpandTool;

impl Tool for CompilerMacroexpandTool {
    open spec fn names_itself(&self) -> bool {
        true
    }

    open spec fn spec_name(&self) -> Seq<char> {
        "COMPILER-MACROEXPAND"@
    }

    open spec fn admits(&self, args: Seq<Val>) -> bool {
        true
    }

    fn name(&self) -> &str {
        "COMPILER-MACROEXPAND"
    }

    fn description(&self) -> (r: &str)
        ensures
            r@ == "Expand compiler macro"@,
    {
        "Expand compiler macro"
    }

    fn execute(&self, args: &[Value]) -> (r: Result<Value, Error>)
        ensures
            outcome(r) == (if args@.len() == 0 { yields(Val::Arr(seq![Val::Null, Val::Bool(false)])) } else { yields(Val::Arr(seq![args@[0].model(), Val::Bool(false)])) }),
    {
        if args.len() == 0 {
            return Ok({
            let items = vec![Value::Null, Value::Bool(false)];
            assert(models(items@) =~= seq![Val::Null, Val::Bool(false)]);
            Value::Array(items)
        });
        }
        Ok({
            let items = vec![args[0].clone(), Value::Bool(false)];
            assert(models(items@) =~= seq![args@[0].model(), Val::Bool(false)]);
            Value::Array(items)
        })
    }
}

/// COMPILER-MACROEXPAND-1 - Expand compiler macro one step
pub struct CompilerMacroexpand1Tool;

impl Tool for CompilerMacroexpand1Tool {
    open spec fn names_itself(&self) -> bool {
        true
    }

    open spec fn spec_name(&self) -> Seq<char> {
        "COMPILER-MACROEXPAND-1"@
    }

    open spec fn admits(&self, args: Seq<Val>) -> bool {
        true
    }

    fn name(&self) -> &str {
        "COMPILER-MACROEXPAND-1"
    }

    fn description(&self) -> (r: &str)
        ensures
            r@ == "Expand compiler macro one step"@,
    {
        "Expand compiler macro one step"
    }

    fn execute(&self, args: &[Value]) -> (r: Result<Value, Error>)
        ensures
            outcome(r) == (if args@.len() == 0 { yields(Val::Arr(seq![Val::Null, Val::Bool(false)])) } else { yields(Val::Arr(seq![args@[0].model(), Val::Bool(false)])) }),
    {
        if args.len() == 0 {
            return Ok({
            let items = vec![Value::Null, Value::Bool(false)];
            assert(models(items@) =~= seq![Val::Null, Val::Bool(false)]);
            Value::Array(items)
        });
        }
        Ok({
            let items = vec![args[0].clone(), Value::Bool(false)];
            assert(models(items@) =~= seq![args@[0].model(), Val::Bool(false)]);
            Value::Array(items)
        })
    }
}

/// PARSE-MACRO - Parse macro lambda list
pub struct ParseMacroTool;

impl Tool for ParseMacroTool {
    open spec fn names_itself(&self) -> bool {
        true
    }

    open spec fn spec_name(&self) -> Seq<char> {
        "PARSE-MACRO"@
    }

    open spec fn admits(&self, args: Seq<Val>) -> bool {
        true
    }

    fn name(&self) -> &str {
        "PARSE-MACRO"
    }

    fn description(&self) -> (r: &str)
        ensures
            r@ == "Parse macro lambda list"@,
    {
        "Parse macro lambda list"
    }

    fn execute(&self, args: &[Value]) -> (r: Result<Value, Error>)
        ensures
            outcome(r) == (if args@.len() == 0 { bad_args("PARSE-MACRO"@, "Expected 1 argument: macro lambda list"@) } else { yields(args@[0].model()) }),
    {
        if args.len() == 0 {
            return Err(invalid_args("PARSE-MACRO", "Expected 1 argument: macro lambda list"));
        }
        Ok(args[0].clone())
    }
}

/// ENCLOSE - Create lexical closure
pub struct EncloseTool;

impl Tool for EncloseTool {
    open spec fn names_itself(&self) -> bool {
        true
    }

    open spec fn spec_name(&self) -> Seq<char> {
        "ENCLOSE"@
    }

    open spec fn admits(&self, args: Seq<Val>) -> bool {
        true
    }

    fn name(&self) -> &str {
        "ENCLOSE"
    }

    fn description(&self) -> (r: &str)
        ensures
            r@ == "Create lexical closure in environment"@,
    {
        "Create lexical closure in environment"
    }

    fn execute(&self, args: &[Value]) -> (r: Result<Value, Error>)
        ensures
            outcome(r) == (if args@.len() == 0 { bad_args("ENCLOSE"@, "Expected at least 1 argument: lambda expression"@) } else { yields(args@[0].model()) }),
    {
        if args.len() == 0 {
            return Err(invalid_args("ENCLOSE", "Expected at least 1 argument: lambda expression"));
        }
        Ok(args[0].clone())
    }
}

/// GET-ENVIRONMENT - Get current environment
pub struct GetEnvironmentTool;

impl Tool for GetEnvironmentTool {
    open spec fn names_itself(&self) -> bool {
        true
    }

    open spec fn spec_name(&self) -> Seq<char> {
        "GET-ENVIRONMENT"@
    }

    open spec fn admits(&self, args: Seq<Val>) -> bool {
        true
    }

    fn name(&self) -> &str {
        "GET-ENVIRONMENT"
    }

    fn description(&self) -> (r: &str)
        ensures
            r@ == "Get current lexical environment"@,
    {
        "Get current lexical environment"
    }

    fn execute(&self, args: &[Value]) -> (r: Result<Value, Error>)
        ensures
            outcome(r) == (yields(Val::Obj(Seq::<(Seq<char>, Val)>::empty()))),
    {
        Ok(Value::Object(ObjectMap::new()))
    }
}

use crate::tools::stdlib::documentation::string_checked;

/// A three-element information array: binding type, whether local, and no declarations.
pub open spec fn info_triple(kind: Seq<char>, local: bool) -> Val {
    Val::Arr(seq![Val::Str(kind), Val::Bool(local), Val::Arr(Seq::empty())])
}

fn info_triple_exec(kind: &str, local: bool) -> (r: Value)
    ensures
        r.model() == info_triple(kind@, local),
{
    let empty: Vec<Value> = Vec::new();
    assert(models(empty@) =~= Seq::<Val>::empty());
    let v = vec![Value::String(owned(kind)), Value::Bool(local), Value::Array(empty)];
    assert(models(v@) =~= seq![Val::Str(kind@), Val::Bool(local), Val::Arr(Seq::empty())]);
    Value::Array(v)
}

fn name_checked(tool: &str, count_reason: &str, type_reason: &str, args: &[Value]) -> (r: Result<(), Error>)
    ensures
        match r {
            Ok(_) => args@.len() >= 1 && models(args@)[0] is Str,
            Err(e) => e@ == (if args@.len() < 1 {
                ErrV::InvalidArguments { tool: tool@, reason: count_reason@ }
            } else {
                ErrV::InvalidArguments { tool: tool@, reason: type_reason@ }
            }) && !(args@.len() >= 1 && models(args@)[0] is Str),
        },
{
    if args.len() < 1 {
        return Err(invalid_args(tool, count_reason));
    }
    if !matches!(args[0], Value::String(_)) {
        return Err(invalid_args(tool, type_reason));
    }
    Ok(())
}

/// VARIABLE-INFORMATION - Get variable information from environment
pub struct VariableInformationTool;

impl Tool for VariableInformationTool {
    open spec fn names_itself(&self) -> bool {
        true
    }

    open spec fn spec_name(&self) -> Seq<char> {
        "VARIABLE-INFORMATION"@
    }

    open spec fn admits(&self, args: Seq<Val>) -> bool {
        true
    }

    fn name(&self) -> &str {
        "VARIABLE-INFORMATION"
    }

    fn description(&self) -> (r: &str)
        ensures
            r@ == "Get variable binding information"@,
    {
        "Get variable binding information"
    }

    fn execute(&self, args: &[Value]) -> (r: Result<Value, Error>)
        ensures
            outcome(r) == (string_checked("VARIABLE-INFORMATION"@, models(args@), 1, "Expected at least 1 argument: variable name"@, 0,
                "variable name must be a string"@, info_triple("LEXICAL"@, true))),
    {
        name_checked("VARIABLE-INFORMATION", "Expected at least 1 argument: variable name", "variable name must be a string", args)?;
        Ok(info_triple_exec("LEXICAL", true))
    }
}



/// FUNCTION-INFORMATION - Get function information from environment
pub struct FunctionInformationTool;

impl Tool for FunctionInformationTool {
    open spec fn names_itself(&self) -> bool {
        true
    }

    open spec fn spec_name(&self) -> Seq<char> {
        "FUNCTION-INFORMATION"@
    }

    open spec fn admits(&self, args: Seq<Val>) -> bool {
        true
    }

    fn name(&self) -> &str {
        "FUNCTION-INFORMATION"
    }

    fn description(&self) -> (r: &str)
        ensures
            r@ == "Get function binding information"@,
    {
        "Get function binding information"
    }

    fn execute(&self, args: &[Value]) -> (r: Result<Value, Error>)
        ensures
            outcome(r) == (string_checked("FUNCTION-INFORMATION"@, models(args@), 1, "Expected at least 1 argument: function name"@, 0,
                "function name must be a string"@, info_triple("FUNCTION"@, false))),
    {
        name_checked("FUNCTION-INFORMATION", "Expected at least 1 argument: function name", "function name must be a string", args)?;
        Ok(info_triple_exec("FUNCTION", false))
    }
}



/// DECLARATION-INFORMATION - Get declaration information
pub struct DeclarationInformationTool;

impl Tool for DeclarationInformationTool {
    open spec fn names_itself(&self) -> bool {
        true
    }

    open spec fn spec_name(&self) -> Seq<char> {
        "DECLARATION-INFORMATION"@
    }

    open spec fn admits(&self, args: Seq<Val>) -> bool {
        true
    }

    fn name(&self) -> &str {
        "DECLARATION-INFORMATION"
    }

    fn description(&self) -> (r: &str)
        ensures
            r@ == "Get declaration information from environment"@,
    {
        "Get declaration information from environment"
    }

    fn execute(&self, args: &[Value]) -> (r: Result<Value, Error>)
        ensures
            outcome(r) == (string_checked("DECLARATION-INFORMATION"@, models(args@), 1, "Expected at least 1 argument: declaration name"@, 0,
                "declaration name must be a string"@, Val::Null)),
    {
        name_checked("DECLARATION-INFORMATION", "Expected at least 1 argument: declaration name", "declaration name must be a string", args)?;
        Ok(Value::Null)
    }
}



/// DEFINE-DECLARATION - Define new declaration
pub struct DefineDeclarationTool;

impl Tool for DefineDeclarationTool {
    open spec fn names_itself(&self) -> bool {
        true
    }

    open spec fn spec_name(&self) -> Seq<char> {
        "DEFINE-DECLARATION"@
    }

    open spec fn admits(&self, args: Seq<Val>) -> bool {
        true
    }

    fn name(&self) -> &str {
        "DEFINE-DECLARATION"
    }

    fn description(&self) -> (r: &str)
        ensures
            r@ == "Define new declaration type"@,
    {
        "Define new declaration type"
    }

    fn execute(&self, args: &[Value]) -> (r: Result<Value, Error>)
        ensures
            outcome(r) == (if args@.len() < 1 { bad_args("DEFINE-DECLARATION"@, "Expected at least 1 argument: declaration name"@) }
            else if !(models(args@)[0] is Str) { bad_args("DEFINE-DECLARATION"@, "declaration name must be a string"@) }
            else { yields(models(args@)[0]) }),
    {
        name_checked("DEFINE-DECLARATION", "Expected at least 1 argument: declaration name", "declaration name must be a string", args)?;
        Ok(args[0].deep_copy())
    }
}



/// AUGMENT-ENVIRONMENT - Create augmented environment
pub struct AugmentEnvironmentTool;

impl Tool for AugmentEnvironmentTool {
    open spec fn names_itself(&self) -> bool {
        true
    }

    open spec fn spec_name(&self) -> Seq<char> {
        "AUGMENT-ENVIRONMENT"@
    }

    open spec fn admits(&self, args: Seq<Val>) -> bool {
        true
    }

    fn name(&self) -> &str {
        "AUGMENT-ENVIRONMENT"
    }

    fn description(&self) -> (r: &str)
        ensures
            r@ == "Create environment with additional bindings"@,
    {
        "Create environment with additional bindings"
    }

    fn execute(&self, args: &[Value]) -> (r: Result<Value, Error>)
        ensures
            outcome(r) == (if args@.len() < 1 { bad_args("AUGMENT-ENVIRONMENT"@, "Expected at least 1 argument: base environment"@) }
            else if !(models(args@)[0] is Obj) { bad_args("AUGMENT-ENVIRONMENT"@, "base environment must be an object"@) }
            else { yields(Val::Obj(Seq::empty())) }),
    {
        if args.len() < 1 {
            return Err(invalid_args("AUGMENT-ENVIRONMENT", "Expected at least 1 argument: base environment"));
        }
        if !matches!(args[0], Value::Object(_)) {
            return Err(invalid_args("AUGMENT-ENVIRONMENT", "base environment must be an object"));
        }
        Ok(Value::Object(ObjectMap::new()))
    }
}



/// ENVIRONMENT-P - Check if environment object
pub struct EnvironmentPTool;

impl Tool for EnvironmentPTool {
    open spec fn names_itself(&self) -> bool {
        true
    }

    open spec fn spec_name(&self) -> Seq<char> {
        "ENVIRONMENT-P"@
    }

    open spec fn admits(&self, args: Seq<Val>) -> bool {
        true
    }

    fn name(&self) -> &str {
        "ENVIRONMENT-P"
    }

    fn description(&self) -> (r: &str)
        ensures
            r@ == "Check if object is environment"@,
    {
        "Check if object is environment"
    }

    fn execute(&self, args: &[Value]) -> (r: Result<Value, Error>)
        ensures
            outcome(r) == (yields(Val::Bool(args@.len() > 0 && models(args@)[0] is Obj))),
    {
        if args.len() == 0 {
            return Ok(Value::Bool(false));
        }
        Ok(Value::Bool(matches!(args[0], Value::Object(_))))
    }
}


} // verus!
