//! Documentation system for Solisp
//!
//! Documentation strings and introspection.
//! Provides Common Lisp DOCUMENTATION accessor system.
use vstd::prelude::*;

#[allow(unused_imports)]
use crate::access::{copy_range, copy_slice, copy_values, values_equal};
#[allow(unused_imports)]
use crate::error::{empty_collection, exec_error, invalid_args, ErrV, Error};
#[allow(unused_imports)]
use crate::text::{alphabetic, alphanumeric, char_from_u32, char_is_alphabetic, char_is_alphanumeric, char_is_lowercase, char_is_uppercase, char_is_whitespace, char_string, char_to_lowercase, char_to_uppercase, chars_of, chars_skip, concat, i64_to_string, int_decimal, lower_case, lower_chars, lowercase, owned, scalar_value, seq_less, str_equal, str_less, string_from_chars, to_lower, to_upper, upper_case, upper_chars, uppercase, whitespace};
#[allow(unused_imports)]
use crate::tools::{bad_args, name_insert, outcome, ref_outcome, string_views, yields, Tool, ToolRegistry};
#[allow(unused_imports)]
use crate::value::{and_then, elems, entry_models, int_of, models, obj_insert, obj_keys, obj_lookup, obj_merge, obj_of, obj_values, str_of, truthy, type_error, ObjectMap, Val, Value};

verus! {

broadcast use crate::seq_models::group_value_models;

/// The names after registering this module's tools, in order.
pub open spec fn registered_names(ns: Seq<Seq<char>>) -> Seq<Seq<char>> {
    let ns = name_insert(ns, "DOCUMENTATION"@);
    let ns = name_insert(ns, "SET-DOCUMENTATION"@);
    let ns = name_insert(ns, "FUNCTION-DOCUMENTATION"@);
    let ns = name_insert(ns, "VARIABLE-DOCUMENTATION"@);
    let ns = name_insert(ns, "TYPE-DOCUMENTATION"@);
    ns
}

/// Register the tools of this module.
pub fn register(registry: &mut ToolRegistry)
    ensures
        final(registry).names() == registered_names(old(registry).names()),
{
    registry.register(DocumentationTool);
    registry.register(SetDocumentationTool);
    registry.register(FunctionDocumentationTool);
    registry.register(VariableDocumentationTool);
    registry.register(TypeDocumentationTool);
}

/// The result of a tool that checks that its argument `i` is a string and answers `ok`.
pub open spec fn string_checked(tool: Seq<char>, a: Seq<Val>, n: int, count_reason: Seq<char>, i: int, type_reason: Seq<char>, ok: Val) -> Result<Val, ErrV> {
    if a.len() < n {
        bad_args(tool, count_reason)
    } else if !(a[i] is Str) {
        bad_args(tool, type_reason)
    } else {
        yields(ok)
    }
}

/// DOCUMENTATION - Get documentation string
pub struct DocumentationTool;

impl Tool for DocumentationTool {
    open spec fn names_itself(&self) -> bool {
        true
    }

    open spec fn spec_name(&self) -> Seq<char> {
        "DOCUMENTATION"@
    }

    open spec fn admits(&self, args: Seq<Val>) -> bool {
        true
    }

    fn name(&self) -> &str {
        "DOCUMENTATION"
    }

    fn description(&self) -> (r: &str)
        ensures
            r@ == "Get documentation string for object"@,
    {
        "Get documentation string for object"
    }

    fn execute(&self, args: &[Value]) -> (r: Result<Value, Error>)
        ensures
            outcome(r) == (string_checked("DOCUMENTATION"@, models(args@), 2, "Expected 2 arguments: object and doc-type"@, 1,
                "doc-type (arg 2) must be a string (FUNCTION, VARIABLE, TYPE, etc.)"@, Val::Str("No documentation available."@))),
    {
        if args.len() < 2 {
            return Err(invalid_args("DOCUMENTATION", "Expected 2 arguments: object and doc-type"));
        }
        if !matches!(args[1], Value::String(_)) {
            return Err(invalid_args("DOCUMENTATION", "doc-type (arg 2) must be a string (FUNCTION, VARIABLE, TYPE, etc.)"));
        }
        Ok(Value::String(owned("No documentation available.")))
    }
}



/// SET-DOCUMENTATION - Set documentation string
pub struct SetDocumentationTool;

impl Tool for SetDocumentationTool {
    open spec fn names_itself(&self) -> bool {
        true
    }

    open spec fn spec_name(&self) -> Seq<char> {
        "SET-DOCUMENTATION"@
    }

    open spec fn admits(&self, args: Seq<Val>) -> bool {
        true
    }

    fn name(&self) -> &str {
        "SET-DOCUMENTATION"
    }

    fn description(&self) -> (r: &str)
        ensures
            r@ == "Set documentation string for object"@,
    {
        "Set documentation string for object"
    }

    fn execute(&self, args: &[Value]) -> (r: Result<Value, Error>)
        ensures
            outcome(r) == (if args@.len() < 3 { bad_args("SET-DOCUMENTATION"@, "Expected 3 arguments: object, doc-type, and documentation string"@) }
            else if !(models(args@)[1] is Str) { bad_args("SET-DOCUMENTATION"@, "doc-type (arg 2) must be a string"@) }
            else if !(models(args@)[2] is Str) { bad_args("SET-DOCUMENTATION"@, "documentation (arg 3) must be a string"@) }
            else { yields(models(args@)[2]) }),
    {
        if args.len() < 3 {
            return Err(invalid_args("SET-DOCUMENTATION", "Expected 3 arguments: object, doc-type, and documentation string"));
        }
        if !matches!(args[1], Value::String(_)) {
            return Err(invalid_args("SET-DOCUMENTATION", "doc-type (arg 2) must be a string"));
        }
        if !matches!(args[2], Value::String(_)) {
            return Err(invalid_args("SET-DOCUMENTATION", "documentation (arg 3) must be a string"));
        }
        Ok(args[2].deep_copy())
    }
}



/// FUNCTION-DOCUMENTATION - Get function documentation
pub struct FunctionDocumentationTool;

impl Tool for FunctionDocumentationTool {
    open spec fn names_itself(&self) -> bool {
        true
    }

    open spec fn spec_name(&self) -> Seq<char> {
        "FUNCTION-DOCUMENTATION"@
    }

    open spec fn admits(&self, args: Seq<Val>) -> bool {
        true
    }

    fn name(&self) -> &str {
        "FUNCTION-DOCUMENTATION"
    }

    fn description(&self) -> (r: &str)
        ensures
            r@ == "Get function documentation"@,
    {
        "Get function documentation"
    }

    fn execute(&self, args: &[Value]) -> (r: Result<Value, Error>)
        ensures
            outcome(r) == (string_checked("FUNCTION-DOCUMENTATION"@, models(args@), 1, "Expected 1 argument: function name"@, 0,
                "function name must be a string"@, Val::Str("No documentation available."@))),
    {
        if args.len() < 1 {
            return Err(invalid_args("FUNCTION-DOCUMENTATION", "Expected 1 argument: function name"));
        }
        if !matches!(args[0], Value::String(_)) {
            return Err(invalid_args("FUNCTION-DOCUMENTATION", "function name must be a string"));
        }
        Ok(Value::String(owned("No documentation available.")))
    }
}



/// VARIABLE-DOCUMENTATION - Get variable documentation
pub struct VariableDocumentationTool;

impl Tool for VariableDocumentationTool {
    open spec fn names_itself(&self) -> bool {
        true
    }

    open spec fn spec_name(&self) -> Seq<char> {
        "VARIABLE-DOCUMENTATION"@
    }

    open spec fn admits(&self, args: Seq<Val>) -> bool {
        true
    }

    fn name(&self) -> &str {
        "VARIABLE-DOCUMENTATION"
    }

    fn description(&self) -> (r: &str)
        ensures
            r@ == "Get variable documentation"@,
    {
        "Get variable documentation"
    }

    fn execute(&self, args: &[Value]) -> (r: Result<Value, Error>)
        ensures
            outcome(r) == (string_checked("VARIABLE-DOCUMENTATION"@, models(args@), 1, "Expected 1 argument: variable name"@, 0,
                "variable name must be a string"@, Val::Str("No documentation available."@))),
    {
        if args.len() < 1 {
            return Err(invalid_args("VARIABLE-DOCUMENTATION", "Expected 1 argument: variable name"));
        }
        if !matches!(args[0], Value::String(_)) {
            return Err(invalid_args("VARIABLE-DOCUMENTATION", "variable name must be a string"));
        }
        Ok(Value::String(owned("No documentation available.")))
    }
}



/// TYPE-DOCUMENTATION - Get type documentation
pub struct TypeDocumentationTool;

impl Tool for TypeDocumentationTool {
    open spec fn names_itself(&self) -> bool {
        true
    }

    open spec fn spec_name(&self) -> Seq<char> {
        "TYPE-DOCUMENTATION"@
    }

    open spec fn admits(&self, args: Seq<Val>) -> bool {
        true
    }

    fn name(&self) -> &str {
        "TYPE-DOCUMENTATION"
    }

    fn description(&self) -> (r: &str)
        ensures
            r@ == "Get type documentation"@,
    {
        "Get type documentation"
    }

    fn execute(&self, args: &[Value]) -> (r: Result<Value, Error>)
        ensures
            outcome(r) == (string_checked("TYPE-DOCUMENTATION"@, models(args@), 1, "Expected 1 argument: type name"@, 0,
                "type name must be a string"@, Val::Str("No documentation available."@))),
    {
        if args.len() < 1 {
            return Err(invalid_args("TYPE-DOCUMENTATION", "Expected 1 argument: type name"));
        }
        if !matches!(args[0], Value::String(_)) {
            return Err(invalid_args("TYPE-DOCUMENTATION", "type name must be a string"));
        }
        Ok(Value::String(owned("No documentation available.")))
    }
}


} // verus!
