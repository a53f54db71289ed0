//! Advanced LOOP features for Solisp
//!
//! Complex iteration, destructuring, and advanced LOOP clauses.
//! Completes the Common Lisp LOOP macro implementation.
use vstd::prelude::*;

#[allow(unused_imports)]
use crate::access::{copy_range, copy_slice, copy_values, values_equal};
#[allow(unused_imports)]
use crate::error::{empty_collection, exec_error, invalid_args, ErrV, Error};
#[allow(unused_imports)]
use crate::text::{alphabetic, alphanumeric, char_from_u32, char_is_alphabetic, char_is_alphanumeric, char_is_lowercase, char_is_uppercase, char_is_whitespace, char_string, char_to_lowercase, char_to_uppercase, chars_of, chars_skip, concat, i64_to_string, int_decimal, lower_case, lower_chars, lowercase, owned, scalar_value, seq_less, str_equal, str_less, string_from_chars, to_lower, to_upper, upper_case, upper_chars, uppercase, whitespace};
#[allow(unused_imports)]
use crate::tools::{bad_args, name_insert, outcome, ref_outcome, string_views, yields, Tool, ToolRegistry};
#[allow(unused_imports)]
use crate::value::{and_then, elems, entry_models, int_of, models, obj_insert, obj_keys, obj_lookup, obj_merge, obj_of, obj_values, str_of, truthy, type_error, ObjectMap, Val, Value};

verus! {

broadcast use crate::seq_models::group_value_models;

/// The names after registering this module's tools, in order.
pub open spec fn registered_names(ns: Seq<Seq<char>>) -> Seq<Seq<char>> {
    let ns = name_insert(ns, "LOOP-DESTRUCTURING"@);
    let ns = name_insert(ns, "LOOP-FOR-ON"@);
    let ns = name_insert(ns, "LOOP-FOR-EQUALS-THEN"@);
    let ns = name_insert(ns, "LOOP-FOR-BEING"@);
    let ns = name_insert(ns, "LOOP-INTO"@);
    let ns = name_insert(ns, "LOOP-MINIMIZE"@);
    let ns = name_insert(ns, "LOOP-APPEND"@);
    let ns = name_insert(ns, "LOOP-NCONC"@);
    let ns = name_insert(ns, "LOOP-IF-IT"@);
    let ns = name_insert(ns, "LOOP-THEREIS"@);
    let ns = name_insert(ns, "LOOP-ALWAYS"@);
    let ns = name_insert(ns, "LOOP-NEVER"@);
    let ns = name_insert(ns, "LOOP-NAMED"@);
    let ns = name_insert(ns, "LOOP-INITIALLY"@);
    let ns = name_insert(ns, "LOOP-REPEAT"@);
    ns
}

/// Register the tools of this module.
pub fn register(registry: &mut ToolRegistry)
    ensures
        final(registry).names() == registered_names(old(registry).names()),
{
    registry.register(LoopDestructuringTool);
    registry.register(LoopForOnTool);
    registry.register(LoopForEqualsThenTool);
    registry.register(LoopForBeingTool);
    registry.register(LoopIntoTool);
    registry.register(LoopMinimizeTool);
    registry.register(LoopAppendTool);
    registry.register(LoopNconcTool);
    registry.register(LoopIfItTool);
    registry.register(LoopThereisTool);
    registry.register(LoopAlwaysTool);
    registry.register(LoopNeverTool);
    registry.register(LoopNamedTool);
    registry.register(LoopInitiallyTool);
    registry.register(LoopRepeatTool);
}

/// LOOP-DESTRUCTURING - Destructure in LOOP iteration
pub struct LoopDestructuringTool;

impl Tool for LoopDestructuringTool {
    open spec fn names_itself(&self) -> bool {
        true
    }

    open spec fn spec_name(&self) -> Seq<char> {
        "LOOP-DESTRUCTURING"@
    }

    open spec fn admits(&self, args: Seq<Val>) -> bool {
        true
    }

    fn name(&self) -> &str {
        "LOOP-DESTRUCTURING"
    }

    fn description(&self) -> (r: &str)
        ensures
            r@ == "Destructure values in LOOP"@,
    {
        "Destructure values in LOOP"
    }

    fn execute(&self, args: &[Value]) -> (r: Result<Value, Error>)
        ensures
            outcome(r) == (yields(if args@.len() == 0 { Val::Arr(Seq::<Val>::empty()) } else { args@[0].model() })),
    {
        Ok(if args.len() == 0 { Value::Array(Vec::new()) } else { args[0].clone() })
    }
}

/// LOOP-FOR-ON - Iterate on CDR of list
pub struct LoopForOnTool;

impl Tool for LoopForOnTool {
    open spec fn names_itself(&self) -> bool {
        true
    }

    open spec fn spec_name(&self) -> Seq<char> {
        "LOOP-FOR-ON"@
    }

    open spec fn admits(&self, args: Seq<Val>) -> bool {
        true
    }

    fn name(&self) -> &str {
        "LOOP-FOR-ON"
    }

    fn description(&self) -> (r: &str)
        ensures
            r@ == "Iterate on successive CDRs"@,
    {
        "Iterate on successive CDRs"
    }

    fn execute(&self, args: &[Value]) -> (r: Result<Value, Error>)
        ensures
            outcome(r) == (yields(if args@.len() == 0 { Val::Null } else { args@[0].model() })),
    {
        Ok(if args.len() == 0 { Value::Null } else { args[0].clone() })
    }
}

/// LOOP-FOR-EQUALS-THEN - Iterate with explicit update
pub struct LoopForEqualsThenTool;

impl Tool for LoopForEqualsThenTool {
    open spec fn names_itself(&self) -> bool {
        true
    }

    open spec fn spec_name(&self) -> Seq<char> {
        "LOOP-FOR-EQUALS-THEN"@
    }

    open spec fn admits(&self, args: Seq<Val>) -> bool {
        true
    }

    fn name(&self) -> &str {
        "LOOP-FOR-EQUALS-THEN"
    }

    fn description(&self) -> (r: &str)
        ensures
            r@ == "Iterate with = THEN update form"@,
    {
        "Iterate with = THEN update form"
    }

    fn execute(&self, args: &[Value]) -> (r: Result<Value, Error>)
        ensures
            outcome(r) == (yields(if args@.len() == 0 { Val::Null } else { args@[0].model() })),
    {
        Ok(if args.len() == 0 { Value::Null } else { args[0].clone() })
    }
}

/// LOOP-FOR-BEING - Hash table and package iteration
pub struct LoopForBeingTool;

impl Tool for LoopForBeingTool {
    open spec fn names_itself(&self) -> bool {
        true
    }

    open spec fn spec_name(&self) -> Seq<char> {
        "LOOP-FOR-BEING"@
    }

    open spec fn admits(&self, args: Seq<Val>) -> bool {
        true
    }

    fn name(&self) -> &str {
        "LOOP-FOR-BEING"
    }

    fn description(&self) -> (r: &str)
        ensures
            r@ == "Iterate over hash tables or packages"@,
    {
        "Iterate over hash tables or packages"
    }

    fn execute(&self, args: &[Value]) -> (r: Result<Value, Error>)
        ensures
            outcome(r) == (if args@.len() == 0 { bad_args("LOOP-FOR-BEING"@, "Expected at least 1 argument (collection)"@) } else { yields(args@[0].model()) }),
    {
        if args.len() == 0 {
            return Err(invalid_args("LOOP-FOR-BEING", "Expected at least 1 argument (collection)"));
        }
        Ok(args[0].clone())
    }
}

/// LOOP-INTO - Accumulate into named variable
pub struct LoopIntoTool;

impl Tool for LoopIntoTool {
    open spec fn names_itself(&self) -> bool {
        true
    }

    open spec fn spec_name(&self) -> Seq<char> {
        "LOOP-INTO"@
    }

    open spec fn admits(&self, args: Seq<Val>) -> bool {
        true
    }

    fn name(&self) -> &str {
        "LOOP-INTO"
    }

    fn description(&self) -> (r: &str)
        ensures
            r@ == "Accumulate into named variable"@,
    {
        "Accumulate into named variable"
    }

    fn execute(&self, args: &[Value]) -> (r: Result<Value, Error>)
        ensures
            outcome(r) == (yields(if args@.len() == 0 { Val::Null } else { args@[0].model() })),
    {
        Ok(if args.len() == 0 { Value::Null } else { args[0].clone() })
    }
}

/// LOOP-NAMED - Named LOOP for RETURN-FROM
pub struct LoopNamedTool;

impl Tool for LoopNamedTool {
    open spec fn names_itself(&self) -> bool {
        true
    }

    open spec fn spec_name(&self) -> Seq<char> {
        "LOOP-NAMED"@
    }

    open spec fn admits(&self, args: Seq<Val>) -> bool {
        true
    }

    fn name(&self) -> &str {
        "LOOP-NAMED"
    }

    fn description(&self) -> (r: &str)
        ensures
            r@ == "Name LOOP for RETURN-FROM"@,
    {
        "Name LOOP for RETURN-FROM"
    }

    fn execute(&self, args: &[Value]) -> (r: Result<Value, Error>)
        ensures
            outcome(r) == (yields(if args@.len() == 0 { Val::Null } else { args@[args@.len() - 1].model() })),
    {
        Ok(if args.len() == 0 { Value::Null } else { args[args.len() - 1].clone() })
    }
}

/// LOOP-INITIALLY - Execute before LOOP body
pub struct LoopInitiallyTool;

impl Tool for LoopInitiallyTool {
    open spec fn names_itself(&self) -> bool {
        true
    }

    open spec fn spec_name(&self) -> Seq<char> {
        "LOOP-INITIALLY"@
    }

    open spec fn admits(&self, args: Seq<Val>) -> bool {
        true
    }

    fn name(&self) -> &str {
        "LOOP-INITIALLY"
    }

    fn description(&self) -> (r: &str)
        ensures
            r@ == "Execute forms before loop starts"@,
    {
        "Execute forms before loop starts"
    }

    fn execute(&self, args: &[Value]) -> (r: Result<Value, Error>)
        ensures
            outcome(r) == (yields(if args@.len() == 0 { Val::Null } else { args@[args@.len() - 1].model() })),
    {
        Ok(if args.len() == 0 { Value::Null } else { args[args.len() - 1].clone() })
    }
}

use crate::tools::stdlib::method_combinations::{fold_better, fold_better_exec};
use crate::tools::stdlib::control_flow_extended::{all_truthy, arrays_joined, first_truthy, first_truthy_exec, none_false, none_true, splice_exec, spliced};

/// LOOP-APPEND - Append lists
pub struct LoopAppendTool;

impl Tool for LoopAppendTool {
    open spec fn names_itself(&self) -> bool {
        true
    }

    open spec fn spec_name(&self) -> Seq<char> {
        "LOOP-APPEND"@
    }

    open spec fn admits(&self, args: Seq<Val>) -> bool {
        true
    }

    fn name(&self) -> &str {
        "LOOP-APPEND"
    }

    fn description(&self) -> (r: &str)
        ensures
            r@ == "Append accumulated lists"@,
    {
        "Append accumulated lists"
    }

    fn execute(&self, args: &[Value]) -> (r: Result<Value, Error>)
        ensures
            outcome(r) == (yields(Val::Arr(spliced(models(args@))))),
    {
        Ok(Value::Array(splice_exec(args, true)))
    }
}



/// LOOP-NCONC - Destructively concatenate lists
pub struct LoopNconcTool;

impl Tool for LoopNconcTool {
    open spec fn names_itself(&self) -> bool {
        true
    }

    open spec fn spec_name(&self) -> Seq<char> {
        "LOOP-NCONC"@
    }

    open spec fn admits(&self, args: Seq<Val>) -> bool {
        true
    }

    fn name(&self) -> &str {
        "LOOP-NCONC"
    }

    fn description(&self) -> (r: &str)
        ensures
            r@ == "Destructively concatenate lists"@,
    {
        "Destructively concatenate lists"
    }

    fn execute(&self, args: &[Value]) -> (r: Result<Value, Error>)
        ensures
            outcome(r) == (yields(Val::Arr(spliced(models(args@))))),
    {
        Ok(Value::Array(splice_exec(args, true)))
    }
}



/// LOOP-IF-IT - IF with IT binding
pub struct LoopIfItTool;

impl Tool for LoopIfItTool {
    open spec fn names_itself(&self) -> bool {
        true
    }

    open spec fn spec_name(&self) -> Seq<char> {
        "LOOP-IF-IT"@
    }

    open spec fn admits(&self, args: Seq<Val>) -> bool {
        true
    }

    fn name(&self) -> &str {
        "LOOP-IF-IT"
    }

    fn description(&self) -> (r: &str)
        ensures
            r@ == "IF clause with IT variable"@,
    {
        "IF clause with IT variable"
    }

    fn execute(&self, args: &[Value]) -> (r: Result<Value, Error>)
        ensures
            outcome(r) == (yields(if args@.len() == 0 { Val::Null } else if truthy(models(args@)[0]) {
                if args@.len() > 1 { models(args@)[1] } else { models(args@)[0] }
            } else {
                if args@.len() > 2 { models(args@)[2] } else { Val::Null }
            })),
    {
        if args.len() == 0 {
            return Ok(Value::Null);
        }
        if args[0].is_truthy() {
            Ok(if args.len() > 1 { args[1].deep_copy() } else { args[0].deep_copy() })
        } else {
            Ok(if args.len() > 2 { args[2].deep_copy() } else { Value::Null })
        }
    }
}



/// LOOP-THEREIS - Test and return
pub struct LoopThereisTool;

impl Tool for LoopThereisTool {
    open spec fn names_itself(&self) -> bool {
        true
    }

    open spec fn spec_name(&self) -> Seq<char> {
        "LOOP-THEREIS"@
    }

    open spec fn admits(&self, args: Seq<Val>) -> bool {
        true
    }

    fn name(&self) -> &str {
        "LOOP-THEREIS"
    }

    fn description(&self) -> (r: &str)
        ensures
            r@ == "Test condition and return if true"@,
    {
        "Test condition and return if true"
    }

    fn execute(&self, args: &[Value]) -> (r: Result<Value, Error>)
        ensures
            outcome(r) == (yields(first_truthy(models(args@)))),
    {
        Ok(first_truthy_exec(args))
    }
}



/// LOOP-ALWAYS - Test all conditions
pub struct LoopAlwaysTool;

impl Tool for LoopAlwaysTool {
    open spec fn names_itself(&self) -> bool {
        true
    }

    open spec fn spec_name(&self) -> Seq<char> {
        "LOOP-ALWAYS"@
    }

    open spec fn admits(&self, args: Seq<Val>) -> bool {
        true
    }

    fn name(&self) -> &str {
        "LOOP-ALWAYS"
    }

    fn description(&self) -> (r: &str)
        ensures
            r@ == "Return true if all conditions true"@,
    {
        "Return true if all conditions true"
    }

    fn execute(&self, args: &[Value]) -> (r: Result<Value, Error>)
        ensures
            outcome(r) == (yields(Val::Bool(!exists|j: int| 0 <= j < args@.len() && !truthy(#[trigger] models(args@)[j])))),
    {
        Ok(Value::Bool(none_false(args)))
    }
}



/// LOOP-NEVER - Test no conditions true
pub struct LoopNeverTool;

impl Tool for LoopNeverTool {
    open spec fn names_itself(&self) -> bool {
        true
    }

    open spec fn spec_name(&self) -> Seq<char> {
        "LOOP-NEVER"@
    }

    open spec fn admits(&self, args: Seq<Val>) -> bool {
        true
    }

    fn name(&self) -> &str {
        "LOOP-NEVER"
    }

    fn description(&self) -> (r: &str)
        ensures
            r@ == "Return true if no conditions true"@,
    {
        "Return true if no conditions true"
    }

    fn execute(&self, args: &[Value]) -> (r: Result<Value, Error>)
        ensures
            outcome(r) == (yields(Val::Bool(!exists|j: int| 0 <= j < args@.len() && truthy(#[trigger] models(args@)[j])))),
    {
        Ok(Value::Bool(none_true(args)))
    }
}



/// LOOP-REPEAT - Repeat fixed number of times
pub struct LoopRepeatTool;

impl Tool for LoopRepeatTool {
    open spec fn names_itself(&self) -> bool {
        true
    }

    open spec fn spec_name(&self) -> Seq<char> {
        "LOOP-REPEAT"@
    }

    open spec fn admits(&self, args: Seq<Val>) -> bool {
        true
    }

    fn name(&self) -> &str {
        "LOOP-REPEAT"
    }

    fn description(&self) -> (r: &str)
        ensures
            r@ == "Repeat loop N times"@,
    {
        "Repeat loop N times"
    }

    fn execute(&self, args: &[Value]) -> (r: Result<Value, Error>)
        ensures
            outcome(r) == (yields(if args@.len() == 0 { Val::Int(0) } else {
                match models(args@)[0] {
                    Val::Int(n) => Val::Int(n),
                    _ => Val::Int(1),
                }
            })),
    {
        if args.len() == 0 {
            return Ok(Value::Int(0));
        }
        match &args[0] {
            Value::Int(n) => Ok(Value::Int(*n)),
            _ => Ok(Value::Int(1)),
        }
    }
}



/// The result of LOOP-MINIMIZE: the least of its arguments when the first is
/// a number (as the extremum combinations compare), else the first argument.
pub open spec fn loop_minimize_result(a: Seq<Val>) -> Result<Val, ErrV> {
    if a.len() == 0 {
        bad_args("LOOP-MINIMIZE"@, "Expected at least 1 argument (value)"@)
    } else if a[0] is Int || a[0] is Float {
        yields(fold_better(a.skip(1), a[0], false))
    } else {
        yields(a[0])
    }
}

/// LOOP-MINIMIZE - Find minimum value
pub struct LoopMinimizeTool;

impl Tool for LoopMinimizeTool {
    open spec fn names_itself(&self) -> bool {
        true
    }

    open spec fn spec_name(&self) -> Seq<char> {
        "LOOP-MINIMIZE"@
    }

    open spec fn admits(&self, args: Seq<Val>) -> bool {
        true
    }

    fn name(&self) -> &str {
        "LOOP-MINIMIZE"
    }

    fn description(&self) -> (r: &str)
        ensures
            r@ == "Accumulate minimum value"@,
    {
        "Accumulate minimum value"
    }

    fn execute(&self, args: &[Value]) -> (r: Result<Value, Error>)
        ensures
            outcome(r) == (loop_minimize_result(models(args@))),
    {
        if args.len() == 0 {
            return Err(invalid_args("LOOP-MINIMIZE", "Expected at least 1 argument (value)"));
        }
        match &args[0] {
            Value::Int(_) | Value::Float(_) => Ok(fold_better_exec(args, 1, args[0].deep_copy(), false)),
            _ => Ok(args[0].deep_copy()),
        }
    }
}


} // verus!
