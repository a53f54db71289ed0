//! Extended random number operations for Solisp
//!
//! Random state control and distribution management.
//! Completes the Common Lisp random number system.
use vstd::prelude::*;

#[allow(unused_imports)]
use crate::access::{copy_range, copy_slice, copy_values, values_equal};
#[allow(unused_imports)]
use crate::error::{empty_collection, exec_error, invalid_args, ErrV, Error};
#[allow(unused_imports)]
use crate::text::{alphabetic, alphanumeric, char_from_u32, char_is_alphabetic, char_is_alphanumeric, char_is_lowercase, char_is_uppercase, char_is_whitespace, char_string, char_to_lowercase, char_to_uppercase, chars_of, chars_skip, concat, i64_to_string, int_decimal, lower_case, lower_chars, lowercase, owned, scalar_value, seq_less, str_equal, str_less, string_from_chars, to_lower, to_upper, upper_case, upper_chars, uppercase, whitespace};
#[allow(unused_imports)]
use crate::tools::{bad_args, name_insert, outcome, ref_outcome, string_views, yields, Tool, ToolRegistry};
#[allow(unused_imports)]
use crate::value::{and_then, elems, entry_models, int_of, models, obj_insert, obj_keys, obj_lookup, obj_merge, obj_of, obj_values, str_of, truthy, type_error, ObjectMap, Val, Value};

verus! {

broadcast use crate::seq_models::group_value_models;

/// The names after registering this module's tools, in order.
pub open spec fn registered_names(ns: Seq<Seq<char>>) -> Seq<Seq<char>> {
    let ns = name_insert(ns, "MAKE-RANDOM-STATE"@);
    let ns = name_insert(ns, "RANDOM-STATE-P"@);
    let ns = name_insert(ns, "*RANDOM-STATE*"@);
    let ns = name_insert(ns, "RANDOM-INTEGER"@);
    let ns = name_insert(ns, "RANDOM-ELEMENT"@);
    let ns = name_insert(ns, "SHUFFLE"@);
    let ns = name_insert(ns, "SEED-RANDOM-STATE"@);
    let ns = name_insert(ns, "RANDOM-FLOAT"@);
    ns
}

/// Register the tools of this module: those the library holds, then those
/// the application supplies, each under its name: `random_float_tool` under RANDOM-FLOAT.
pub fn register<TRandomFloat: Tool + 'static>(registry: &mut ToolRegistry, random_float_tool: TRandomFloat)
    requires
        random_float_tool.names_itself() ==> random_float_tool.spec_name() == "RANDOM-FLOAT"@,
    ensures
        final(registry).names() == registered_names(old(registry).names()),
{
    registry.register(MakeRandomStateTool);
    registry.register(RandomStatePTool);
    registry.register(RandomStateTool);
    registry.register(RandomIntegerTool);
    registry.register(RandomElementTool);
    registry.register(ShuffleTool);
    registry.register(SeedRandomStateTool);
    registry.place(owned("RANDOM-FLOAT"), random_float_tool);
}

/// MAKE-RANDOM-STATE - Create random state
pub struct MakeRandomStateTool;

impl Tool for MakeRandomStateTool {
    open spec fn names_itself(&self) -> bool {
        true
    }

    open spec fn spec_name(&self) -> Seq<char> {
        "MAKE-RANDOM-STATE"@
    }

    open spec fn admits(&self, args: Seq<Val>) -> bool {
        true
    }

    fn name(&self) -> &str {
        "MAKE-RANDOM-STATE"
    }

    fn description(&self) -> (r: &str)
        ensures
            r@ == "Create new random state"@,
    {
        "Create new random state"
    }

    fn execute(&self, args: &[Value]) -> (r: Result<Value, Error>)
        ensures
            outcome(r) == (yields(Val::Int(42))),
    {
        Ok(Value::Int(42))
    }
}

/// *RANDOM-STATE* - Current random state
pub struct RandomStateTool;

impl Tool for RandomStateTool {
    open spec fn names_itself(&self) -> bool {
        true
    }

    open spec fn spec_name(&self) -> Seq<char> {
        "*RANDOM-STATE*"@
    }

    open spec fn admits(&self, args: Seq<Val>) -> bool {
        true
    }

    fn name(&self) -> &str {
        "*RANDOM-STATE*"
    }

    fn description(&self) -> (r: &str)
        ensures
            r@ == "Current random state"@,
    {
        "Current random state"
    }

    fn execute(&self, args: &[Value]) -> (r: Result<Value, Error>)
        ensures
            outcome(r) == (yields(if args@.len() == 0 { Val::Int(0) } else { args@[0].model() })),
    {
        Ok(if args.len() == 0 { Value::Int(0) } else { args[0].clone() })
    }
}

/// SEED-RANDOM-STATE - Seed random state
pub struct SeedRandomStateTool;

impl Tool for SeedRandomStateTool {
    open spec fn names_itself(&self) -> bool {
        true
    }

    open spec fn spec_name(&self) -> Seq<char> {
        "SEED-RANDOM-STATE"@
    }

    open spec fn admits(&self, args: Seq<Val>) -> bool {
        true
    }

    fn name(&self) -> &str {
        "SEED-RANDOM-STATE"
    }

    fn description(&self) -> (r: &str)
        ensures
            r@ == "Seed random state with value"@,
    {
        "Seed random state with value"
    }

    fn execute(&self, args: &[Value]) -> (r: Result<Value, Error>)
        ensures
            outcome(r) == (yields(if args@.len() == 0 { Val::Int(0) } else { args@[0].model() })),
    {
        Ok(if args.len() == 0 { Value::Int(0) } else { args[0].clone() })
    }
}

use crate::tools::stdlib::advanced_math::{magnitude, magnitude_exec};

/// Half of `n`, rounded toward zero.
pub open spec fn half_toward_zero(n: i64) -> int {
    if n < 0 {
        -((magnitude(n) / 2) as int)
    } else {
        (n / 2) as int
    }
}

/// RANDOM-STATE-P - Check if random state
pub struct RandomStatePTool;

impl Tool for RandomStatePTool {
    open spec fn names_itself(&self) -> bool {
        true
    }

    open spec fn spec_name(&self) -> Seq<char> {
        "RANDOM-STATE-P"@
    }

    open spec fn admits(&self, args: Seq<Val>) -> bool {
        true
    }

    fn name(&self) -> &str {
        "RANDOM-STATE-P"
    }

    fn description(&self) -> (r: &str)
        ensures
            r@ == "Check if object is random state"@,
    {
        "Check if object is random state"
    }

    fn execute(&self, args: &[Value]) -> (r: Result<Value, Error>)
        ensures
            outcome(r) == (yields(Val::Bool(args@.len() > 0 && models(args@)[0] is Int))),
    {
        Ok(Value::Bool(args.len() > 0 && matches!(args[0], Value::Int(_))))
    }
}



/// RANDOM-INTEGER - Generate random integer in range
pub struct RandomIntegerTool;

impl Tool for RandomIntegerTool {
    open spec fn names_itself(&self) -> bool {
        true
    }

    open spec fn spec_name(&self) -> Seq<char> {
        "RANDOM-INTEGER"@
    }

    open spec fn admits(&self, args: Seq<Val>) -> bool {
        true
    }

    fn name(&self) -> &str {
        "RANDOM-INTEGER"
    }

    fn description(&self) -> (r: &str)
        ensures
            r@ == "Generate random integer between 0 and limit"@,
    {
        "Generate random integer between 0 and limit"
    }

    fn execute(&self, args: &[Value]) -> (r: Result<Value, Error>)
        ensures
            outcome(r) == (if args@.len() == 0 { bad_args("RANDOM-INTEGER"@, "Expected 1 argument (limit)"@) } else {
                match models(args@)[0] {
                    Val::Int(n) => yields(Val::Int(half_toward_zero(n) as i64)),
                    _ => bad_args("RANDOM-INTEGER"@, "Limit must be an integer"@),
                }
            }),
    {
        if args.len() == 0 {
            return Err(invalid_args("RANDOM-INTEGER", "Expected 1 argument (limit)"));
        }
        match &args[0] {
            Value::Int(n) => {
                let m = magnitude_exec(*n);
                let q = m / 2;
                let r: i64 = if *n < 0 { -(q as i64) } else { q as i64 };
                Ok(Value::Int(r))
            },
            _ => Err(invalid_args("RANDOM-INTEGER", "Limit must be an integer")),
        }
    }
}



/// RANDOM-ELEMENT - Get random element from sequence
pub struct RandomElementTool;

impl Tool for RandomElementTool {
    open spec fn names_itself(&self) -> bool {
        true
    }

    open spec fn spec_name(&self) -> Seq<char> {
        "RANDOM-ELEMENT"@
    }

    open spec fn admits(&self, args: Seq<Val>) -> bool {
        true
    }

    fn name(&self) -> &str {
        "RANDOM-ELEMENT"
    }

    fn description(&self) -> (r: &str)
        ensures
            r@ == "Get random element from sequence"@,
    {
        "Get random element from sequence"
    }

    fn execute(&self, args: &[Value]) -> (r: Result<Value, Error>)
        ensures
            outcome(r) == (if args@.len() == 0 { bad_args("RANDOM-ELEMENT"@, "Expected 1 argument (sequence)"@) } else {
                match models(args@)[0] {
                    Val::Arr(s) => yields(if s.len() == 0 { Val::Null } else { s[(s.len() / 2) as int] }),
                    _ => bad_args("RANDOM-ELEMENT"@, "Argument must be an array"@),
                }
            }),
    {
        if args.len() == 0 {
            return Err(invalid_args("RANDOM-ELEMENT", "Expected 1 argument (sequence)"));
        }
        match &args[0] {
            Value::Array(arr) => {
                assert(models(arr@).len() == arr@.len());
                if arr.len() == 0 {
                    Ok(Value::Null)
                } else {
                    Ok(arr[arr.len() / 2].deep_copy())
                }
            },
            _ => Err(invalid_args("RANDOM-ELEMENT", "Argument must be an array")),
        }
    }
}



/// SHUFFLE - Randomly permute sequence
pub struct ShuffleTool;

impl Tool for ShuffleTool {
    open spec fn names_itself(&self) -> bool {
        true
    }

    open spec fn spec_name(&self) -> Seq<char> {
        "SHUFFLE"@
    }

    open spec fn admits(&self, args: Seq<Val>) -> bool {
        true
    }

    fn name(&self) -> &str {
        "SHUFFLE"
    }

    fn description(&self) -> (r: &str)
        ensures
            r@ == "Randomly permute sequence"@,
    {
        "Randomly permute sequence"
    }

    fn execute(&self, args: &[Value]) -> (r: Result<Value, Error>)
        ensures
            outcome(r) == (if args@.len() == 0 { bad_args("SHUFFLE"@, "Expected 1 argument (sequence)"@) } else {
                match models(args@)[0] {
                    Val::Arr(s) => yields(Val::Arr(s.reverse())),
                    _ => bad_args("SHUFFLE"@, "Argument must be an array"@),
                }
            }),
    {
        if args.len() == 0 {
            return Err(invalid_args("SHUFFLE", "Expected 1 argument (sequence)"));
        }
        match &args[0] {
            Value::Array(arr) => {
                let mut out: Vec<Value> = Vec::new();
                let mut i: usize = arr.len();
                while i > 0
                    invariant
                        i <= arr@.len(),
                        models(out@) == models(arr@).skip(i as int).reverse(),
                    decreases i,
                {
                    i = i - 1;
                    let ghost prev = models(out@);
                    out.push(arr[i].deep_copy());
                    assert(models(out@) =~= prev.push(models(arr@)[i as int]));
                    assert(models(arr@).skip(i as int).reverse() =~= models(arr@).skip(i + 1).reverse().push(models(arr@)[i as int]));
                }
                assert(models(arr@).skip(0) =~= models(arr@));
                Ok(Value::Array(out))
            },
            _ => Err(invalid_args("SHUFFLE", "Argument must be an array")),
        }
    }
}


} // verus!
