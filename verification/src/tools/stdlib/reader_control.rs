//! Reader control for Solisp
//!
//! Read-time evaluation, reader dispatch, and custom syntax.
//! Provides Common Lisp reader customization capabilities.
use vstd::prelude::*;

#[allow(unused_imports)]
use crate::access::{copy_range, copy_slice, copy_values, values_equal};
#[allow(unused_imports)]
use crate::error::{empty_collection, exec_error, invalid_args, ErrV, Error};
#[allow(unused_imports)]
use crate::text::{alphabetic, alphanumeric, char_from_u32, char_is_alphabetic, char_is_alphanumeric, char_is_lowercase, char_is_uppercase, char_is_whitespace, char_string, char_to_lowercase, char_to_uppercase, chars_of, chars_skip, concat, i64_to_string, int_decimal, lower_case, lower_chars, lowercase, owned, scalar_value, seq_less, str_equal, str_less, string_from_chars, to_lower, to_upper, upper_case, upper_chars, uppercase, whitespace};
#[allow(unused_imports)]
use crate::tools::{bad_args, name_insert, outcome, ref_outcome, string_views, yields, Tool, ToolRegistry};
#[allow(unused_imports)]
use crate::value::{and_then, elems, entry_models, int_of, models, obj_insert, obj_keys, obj_lookup, obj_merge, obj_of, obj_values, str_of, truthy, type_error, ObjectMap, Val, Value};

verus! {

broadcast use crate::seq_models::group_value_models;

/// The names after registering this module's tools, in order.
pub open spec fn registered_names(ns: Seq<Seq<char>>) -> Seq<Seq<char>> {
    let ns = name_insert(ns, "#."@);
    let ns = name_insert(ns, "#,"@);
    let ns = name_insert(ns, "GET-DISPATCH-MACRO-CHARACTER"@);
    let ns = name_insert(ns, "SET-DISPATCH-MACRO-CHARACTER"@);
    let ns = name_insert(ns, "MAKE-DISPATCH-MACRO-CHARACTER"@);
    let ns = name_insert(ns, "*READ-BASE*"@);
    let ns = name_insert(ns, "*READ-DEFAULT-FLOAT-FORMAT*"@);
    let ns = name_insert(ns, "*READ-EVAL*"@);
    let ns = name_insert(ns, "*READ-SUPPRESS*"@);
    let ns = name_insert(ns, "COPY-READTABLE"@);
    let ns = name_insert(ns, "READTABLEP"@);
    let ns = name_insert(ns, "READTABLE-CASE"@);
    ns
}

/// Register the tools of this module.
pub fn register(registry: &mut ToolRegistry)
    ensures
        final(registry).names() == registered_names(old(registry).names()),
{
    registry.register(ReadTimeEvalTool);
    registry.register(LoadTimeEvalTool);
    registry.register(GetDispatchMacroCharacterTool);
    registry.register(SetDispatchMacroCharacterTool);
    registry.register(MakeDispatchMacroCharacterTool);
    registry.register(ReadBaseTool);
    registry.register(ReadDefaultFloatFormatTool);
    registry.register(ReadEvalTool);
    registry.register(ReadSuppressTool);
    registry.register(CopyReadtableTool);
    registry.register(ReadtablepTool);
    registry.register(ReadtableCaseTool);
}

/// #. - Read-time evaluation
pub struct ReadTimeEvalTool;

impl Tool for ReadTimeEvalTool {
    open spec fn names_itself(&self) -> bool {
        true
    }

    open spec fn spec_name(&self) -> Seq<char> {
        "#."@
    }

    open spec fn admits(&self, args: Seq<Val>) -> bool {
        true
    }

    fn name(&self) -> &str {
        "#."
    }

    fn description(&self) -> (r: &str)
        ensures
            r@ == "Evaluate form at read time"@,
    {
        "Evaluate form at read time"
    }

    fn execute(&self, args: &[Value]) -> (r: Result<Value, Error>)
        ensures
            outcome(r) == (if args@.len() == 0 { bad_args("#."@, "Expected form to evaluate"@) } else { yields(args@[0].model()) }),
    {
        if args.len() == 0 {
            return Err(invalid_args("#.", "Expected form to evaluate"));
        }
        Ok(args[0].clone())
    }
}

/// #, - Load-time evaluation
pub struct LoadTimeEvalTool;

impl Tool for LoadTimeEvalTool {
    open spec fn names_itself(&self) -> bool {
        true
    }

    open spec fn spec_name(&self) -> Seq<char> {
        "#,"@
    }

    open spec fn admits(&self, args: Seq<Val>) -> bool {
        true
    }

    fn name(&self) -> &str {
        "#,"
    }

    fn description(&self) -> (r: &str)
        ensures
            r@ == "Evaluate form at load time"@,
    {
        "Evaluate form at load time"
    }

    fn execute(&self, args: &[Value]) -> (r: Result<Value, Error>)
        ensures
            outcome(r) == (if args@.len() == 0 { bad_args("#,"@, "Expected form to evaluate"@) } else { yields(args@[0].model()) }),
    {
        if args.len() == 0 {
            return Err(invalid_args("#,", "Expected form to evaluate"));
        }
        Ok(args[0].clone())
    }
}

/// GET-DISPATCH-MACRO-CHARACTER - Get dispatch macro
pub struct GetDispatchMacroCharacterTool;

impl Tool for GetDispatchMacroCharacterTool {
    open spec fn names_itself(&self) -> bool {
        true
    }

    open spec fn spec_name(&self) -> Seq<char> {
        "GET-DISPATCH-MACRO-CHARACTER"@
    }

    open spec fn admits(&self, args: Seq<Val>) -> bool {
        true
    }

    fn name(&self) -> &str {
        "GET-DISPATCH-MACRO-CHARACTER"
    }

    fn description(&self) -> (r: &str)
        ensures
            r@ == "Get dispatch macro character function"@,
    {
        "Get dispatch macro character function"
    }

    fn execute(&self, args: &[Value]) -> (r: Result<Value, Error>)
        ensures
            outcome(r) == (if args@.len() < 2 { bad_args("GET-DISPATCH-MACRO-CHARACTER"@, "Expected dispatch character and sub-character"@) } else { yields(Val::Arr(Seq::<Val>::empty())) }),
    {
        if args.len() < 2 {
            return Err(invalid_args("GET-DISPATCH-MACRO-CHARACTER", "Expected dispatch character and sub-character"));
        }
        Ok(Value::Array(Vec::new()))
    }
}

/// SET-DISPATCH-MACRO-CHARACTER - Set dispatch macro
pub struct SetDispatchMacroCharacterTool;

impl Tool for SetDispatchMacroCharacterTool {
    open spec fn names_itself(&self) -> bool {
        true
    }

    open spec fn spec_name(&self) -> Seq<char> {
        "SET-DISPATCH-MACRO-CHARACTER"@
    }

    open spec fn admits(&self, args: Seq<Val>) -> bool {
        true
    }

    fn name(&self) -> &str {
        "SET-DISPATCH-MACRO-CHARACTER"
    }

    fn description(&self) -> (r: &str)
        ensures
            r@ == "Set dispatch macro character function"@,
    {
        "Set dispatch macro character function"
    }

    fn execute(&self, args: &[Value]) -> (r: Result<Value, Error>)
        ensures
            outcome(r) == (if args@.len() < 3 { bad_args("SET-DISPATCH-MACRO-CHARACTER"@, "Expected dispatch character, sub-character, and function"@) } else { yields(Val::Bool(true)) }),
    {
        if args.len() < 3 {
            return Err(invalid_args("SET-DISPATCH-MACRO-CHARACTER", "Expected dispatch character, sub-character, and function"));
        }
        Ok(Value::Bool(true))
    }
}

/// MAKE-DISPATCH-MACRO-CHARACTER - Create dispatch character
pub struct MakeDispatchMacroCharacterTool;

impl Tool for MakeDispatchMacroCharacterTool {
    open spec fn names_itself(&self) -> bool {
        true
    }

    open spec fn spec_name(&self) -> Seq<char> {
        "MAKE-DISPATCH-MACRO-CHARACTER"@
    }

    open spec fn admits(&self, args: Seq<Val>) -> bool {
        true
    }

    fn name(&self) -> &str {
        "MAKE-DISPATCH-MACRO-CHARACTER"
    }

    fn description(&self) -> (r: &str)
        ensures
            r@ == "Make character a dispatch macro character"@,
    {
        "Make character a dispatch macro character"
    }

    fn execute(&self, args: &[Value]) -> (r: Result<Value, Error>)
        ensures
            outcome(r) == (if args@.len() == 0 { bad_args("MAKE-DISPATCH-MACRO-CHARACTER"@, "Expected character argument"@) } else { yields(Val::Bool(true)) }),
    {
        if args.len() == 0 {
            return Err(invalid_args("MAKE-DISPATCH-MACRO-CHARACTER", "Expected character argument"));
        }
        Ok(Value::Bool(true))
    }
}

/// *READ-BASE* - Input radix
pub struct ReadBaseTool;

impl Tool for ReadBaseTool {
    open spec fn names_itself(&self) -> bool {
        true
    }

    open spec fn spec_name(&self) -> Seq<char> {
        "*READ-BASE*"@
    }

    open spec fn admits(&self, args: Seq<Val>) -> bool {
        true
    }

    fn name(&self) -> &str {
        "*READ-BASE*"
    }

    fn description(&self) -> (r: &str)
        ensures
            r@ == "Radix for reading integers"@,
    {
        "Radix for reading integers"
    }

    fn execute(&self, args: &[Value]) -> (r: Result<Value, Error>)
        ensures
            outcome(r) == (yields(if args@.len() == 0 { Val::Int(10) } else { args@[0].model() })),
    {
        Ok(if args.len() == 0 { Value::Int(10) } else { args[0].clone() })
    }
}

/// *READ-DEFAULT-FLOAT-FORMAT* - Default float format
pub struct ReadDefaultFloatFormatTool;

impl Tool for ReadDefaultFloatFormatTool {
    open spec fn names_itself(&self) -> bool {
        true
    }

    open spec fn spec_name(&self) -> Seq<char> {
        "*READ-DEFAULT-FLOAT-FORMAT*"@
    }

    open spec fn admits(&self, args: Seq<Val>) -> bool {
        true
    }

    fn name(&self) -> &str {
        "*READ-DEFAULT-FLOAT-FORMAT*"
    }

    fn description(&self) -> (r: &str)
        ensures
            r@ == "Default float type for reading"@,
    {
        "Default float type for reading"
    }

    fn execute(&self, args: &[Value]) -> (r: Result<Value, Error>)
        ensures
            outcome(r) == (yields(if args@.len() == 0 { Val::Str("SINGLE-FLOAT"@) } else { args@[0].model() })),
    {
        Ok(if args.len() == 0 { Value::String(owned("SINGLE-FLOAT")) } else { args[0].clone() })
    }
}

/// *READ-EVAL* - Allow #. reader macro
pub struct ReadEvalTool;

impl Tool for ReadEvalTool {
    open spec fn names_itself(&self) -> bool {
        true
    }

    open spec fn spec_name(&self) -> Seq<char> {
        "*READ-EVAL*"@
    }

    open spec fn admits(&self, args: Seq<Val>) -> bool {
        true
    }

    fn name(&self) -> &str {
        "*READ-EVAL*"
    }

    fn description(&self) -> (r: &str)
        ensures
            r@ == "Allow read-time evaluation"@,
    {
        "Allow read-time evaluation"
    }

    fn execute(&self, args: &[Value]) -> (r: Result<Value, Error>)
        ensures
            outcome(r) == (yields(if args@.len() == 0 { Val::Bool(true) } else { args@[0].model() })),
    {
        Ok(if args.len() == 0 { Value::Bool(true) } else { args[0].clone() })
    }
}

/// *READ-SUPPRESS* - Suppress reading
pub struct ReadSuppressTool;

impl Tool for ReadSuppressTool {
    open spec fn names_itself(&self) -> bool {
        true
    }

    open spec fn spec_name(&self) -> Seq<char> {
        "*READ-SUPPRESS*"@
    }

    open spec fn admits(&self, args: Seq<Val>) -> bool {
        true
    }

    fn name(&self) -> &str {
        "*READ-SUPPRESS*"
    }

    fn description(&self) -> (r: &str)
        ensures
            r@ == "Suppress reading and return NIL"@,
    {
        "Suppress reading and return NIL"
    }

    fn execute(&self, args: &[Value]) -> (r: Result<Value, Error>)
        ensures
            outcome(r) == (yields(if args@.len() == 0 { Val::Bool(false) } else { args@[0].model() })),
    {
        Ok(if args.len() == 0 { Value::Bool(false) } else { args[0].clone() })
    }
}

/// READTABLE-CASE - Get/set readtable case
pub struct ReadtableCaseTool;

impl Tool for ReadtableCaseTool {
    open spec fn names_itself(&self) -> bool {
        true
    }

    open spec fn spec_name(&self) -> Seq<char> {
        "READTABLE-CASE"@
    }

    open spec fn admits(&self, args: Seq<Val>) -> bool {
        true
    }

    fn name(&self) -> &str {
        "READTABLE-CASE"
    }

    fn description(&self) -> (r: &str)
        ensures
            r@ == "Get or set readtable case mode"@,
    {
        "Get or set readtable case mode"
    }

    fn execute(&self, args: &[Value]) -> (r: Result<Value, Error>)
        ensures
            outcome(r) == (yields(if args@.len() == 0 { Val::Str(":UPCASE"@) } else { if args@.len() == 1 { Val::Str(":UPCASE"@) } else { args@[1].model() } })),
    {
        Ok(if args.len() == 0 { Value::String(owned(":UPCASE")) } else { if args.len() == 1 { Value::String(owned(":UPCASE")) } else { args[1].clone() } })
    }
}

/// COPY-READTABLE - Copy readtable
pub struct CopyReadtableTool;

impl Tool for CopyReadtableTool {
    open spec fn names_itself(&self) -> bool {
        true
    }

    open spec fn spec_name(&self) -> Seq<char> {
        "COPY-READTABLE"@
    }

    open spec fn admits(&self, args: Seq<Val>) -> bool {
        true
    }

    fn name(&self) -> &str {
        "COPY-READTABLE"
    }

    fn description(&self) -> (r: &str)
        ensures
            r@ == "Copy readtable"@,
    {
        "Copy readtable"
    }

    fn execute(&self, args: &[Value]) -> (r: Result<Value, Error>)
        ensures
            outcome(r) == (yields(Val::Obj(Seq::empty()))),
    {
        Ok(Value::Object(ObjectMap::new()))
    }
}



/// READTABLEP - Check if readtable
pub struct ReadtablepTool;

impl Tool for ReadtablepTool {
    open spec fn names_itself(&self) -> bool {
        true
    }

    open spec fn spec_name(&self) -> Seq<char> {
        "READTABLEP"@
    }

    open spec fn admits(&self, args: Seq<Val>) -> bool {
        true
    }

    fn name(&self) -> &str {
        "READTABLEP"
    }

    fn description(&self) -> (r: &str)
        ensures
            r@ == "Check if object is readtable"@,
    {
        "Check if object is readtable"
    }

    fn execute(&self, args: &[Value]) -> (r: Result<Value, Error>)
        ensures
            outcome(r) == (if args@.len() == 0 { bad_args("READTABLEP"@, "Expected object argument"@) } else {
                yields(Val::Bool(models(args@)[0] is Obj))
            }),
    {
        if args.len() == 0 {
            return Err(invalid_args("READTABLEP", "Expected object argument"));
        }
        Ok(Value::Bool(matches!(args[0], Value::Object(_))))
    }
}


} // verus!
