//! Statistical tools
use vstd::prelude::*;

#[allow(unused_imports)]
use crate::access::{copy_range, copy_slice, copy_values, values_equal};
#[allow(unused_imports)]
use crate::error::{empty_collection, exec_error, invalid_args, ErrV, Error};
#[allow(unused_imports)]
use crate::text::{alphabetic, alphanumeric, char_from_u32, char_is_alphabetic, char_is_alphanumeric, char_is_lowercase, char_is_uppercase, char_is_whitespace, char_string, char_to_lowercase, char_to_uppercase, chars_of, chars_skip, concat, i64_to_string, int_decimal, lower_case, lower_chars, lowercase, owned, scalar_value, seq_less, str_equal, str_less, string_from_chars, to_lower, to_upper, upper_case, upper_chars, uppercase, whitespace};
#[allow(unused_imports)]
use crate::tools::{bad_args, name_insert, outcome, ref_outcome, string_views, yields, Tool, ToolRegistry};
#[allow(unused_imports)]
use crate::value::{and_then, elems, entry_models, int_of, models, obj_insert, obj_keys, obj_lookup, obj_merge, obj_of, obj_values, str_of, truthy, type_error, ObjectMap, Val, Value};

verus! {

broadcast use crate::seq_models::group_value_models;

/// The names after registering this module's tools, in order.
pub open spec fn registered_names(ns: Seq<Seq<char>>) -> Seq<Seq<char>> {
    let ns = name_insert(ns, "MIN"@);
    let ns = name_insert(ns, "MAX"@);
    let ns = name_insert(ns, "MEAN"@);
    let ns = name_insert(ns, "MEDIAN"@);
    let ns = name_insert(ns, "STDDEV"@);
    ns
}

/// Register the tools of this module: those the library holds, then those
/// the application supplies, each under its name: `mean_tool` under MEAN, `median_tool` under MEDIAN, `std_dev_tool` under STDDEV.
pub fn register<TMean: Tool + 'static, TMedian: Tool + 'static, TStdDev: Tool + 'static>(registry: &mut ToolRegistry, mean_tool: TMean, median_tool: TMedian, std_dev_tool: TStdDev)
    requires
        mean_tool.names_itself() ==> mean_tool.spec_name() == "MEAN"@,
        median_tool.names_itself() ==> median_tool.spec_name() == "MEDIAN"@,
        std_dev_tool.names_itself() ==> std_dev_tool.spec_name() == "STDDEV"@,
    ensures
        final(registry).names() == registered_names(old(registry).names()),
{
    registry.register(MinTool);
    registry.register(MaxTool);
    registry.place(owned("MEAN"), mean_tool);
    registry.place(owned("MEDIAN"), median_tool);
    registry.place(owned("STDDEV"), std_dev_tool);
}

use crate::tools::stdlib::numeric::{extreme_all, extreme_bits_exec};

/// The result of MIN (or, with `greatest`, MAX): the extreme number of a
/// non-empty array, as a float.
pub open spec fn array_extreme_result(tool: Seq<char>, a: Seq<Val>, greatest: bool) -> Result<Val, ErrV> {
    if a.len() == 0 {
        bad_args(tool, "Expected array argument"@)
    } else {
        match elems(a[0]) {
            Err(e) => Err(e),
            Ok(s) => if s.len() == 0 {
                Err(ErrV::EmptyCollection { operation: tool })
            } else {
                match extreme_all(s, greatest) {
                    Err(e) => Err(e),
                    Ok(b) => yields(Val::Float(b)),
                }
            },
        }
    }
}

fn array_extreme_exec(tool: &str, args: &[Value], greatest: bool) -> (r: Result<Value, Error>)
    ensures
        outcome(r) == array_extreme_result(tool@, models(args@), greatest),
{
    if args.len() == 0 {
        return Err(invalid_args(tool, "Expected array argument"));
    }
    let collection = args[0].as_array()?;
    if collection.len() == 0 {
        return Err(empty_collection(tool));
    }
    let b = extreme_bits_exec(collection.as_slice(), greatest)?;
    Ok(Value::Float(b))
}

/// Tool for finding the minimum value in a collection
/// 
/// Usage: `MIN(array) -> number`
/// Example: `MIN([5, 2, 8, 1])` returns `1.0`
pub struct MinTool;

impl Tool for MinTool {
    open spec fn names_itself(&self) -> bool {
        true
    }

    open spec fn spec_name(&self) -> Seq<char> {
        "MIN"@
    }

    open spec fn admits(&self, args: Seq<Val>) -> bool {
        true
    }

    fn name(&self) -> &str {
        "MIN"
    }

    fn description(&self) -> (r: &str)
        ensures
            r@ == "Find minimum value"@,
    {
        "Find minimum value"
    }

    fn execute(&self, args: &[Value]) -> (r: Result<Value, Error>)
        ensures
            outcome(r) == (array_extreme_result("MIN"@, models(args@), false)),
    {
        array_extreme_exec("MIN", args, false)
    }
}



/// Tool for finding the maximum value in a collection
/// 
/// Usage: `MAX(array) -> number`
/// Example: `MAX([5, 2, 8, 1])` returns `8.0`
pub struct MaxTool;

impl Tool for MaxTool {
    open spec fn names_itself(&self) -> bool {
        true
    }

    open spec fn spec_name(&self) -> Seq<char> {
        "MAX"@
    }

    open spec fn admits(&self, args: Seq<Val>) -> bool {
        true
    }

    fn name(&self) -> &str {
        "MAX"
    }

    fn description(&self) -> (r: &str)
        ensures
            r@ == "Find maximum value"@,
    {
        "Find maximum value"
    }

    fn execute(&self, args: &[Value]) -> (r: Result<Value, Error>)
        ensures
            outcome(r) == (array_extreme_result("MAX"@, models(args@), true)),
    {
        array_extreme_exec("MAX", args, true)
    }
}


} // verus!
