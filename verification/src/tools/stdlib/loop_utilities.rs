//! Loop utility functions for Solisp
//!
//! Simplified loop utilities instead of full LOOP macro implementation.
//! Provides functional programming alternatives to complex loop constructs.
use vstd::prelude::*;

#[allow(unused_imports)]
use crate::access::{copy_range, copy_slice, copy_values, values_equal};
#[allow(unused_imports)]
use crate::error::{empty_collection, exec_error, invalid_args, ErrV, Error};
#[allow(unused_imports)]
use crate::text::{alphabetic, alphanumeric, char_from_u32, char_is_alphabetic, char_is_alphanumeric, char_is_lowercase, char_is_uppercase, char_is_whitespace, char_string, char_to_lowercase, char_to_uppercase, chars_of, chars_skip, concat, i64_to_string, int_decimal, lower_case, lower_chars, lowercase, owned, scalar_value, seq_less, str_equal, str_less, string_from_chars, to_lower, to_upper, upper_case, upper_chars, uppercase, whitespace};
#[allow(unused_imports)]
use crate::tools::{bad_args, name_insert, outcome, ref_outcome, string_views, yields, Tool, ToolRegistry};
#[allow(unused_imports)]
use crate::value::{and_then, elems, entry_models, int_of, models, obj_insert, obj_keys, obj_lookup, obj_merge, obj_of, obj_values, str_of, truthy, type_error, ObjectMap, Val, Value};

verus! {

broadcast use crate::seq_models::group_value_models;

/// The names after registering this module's tools, in order.
pub open spec fn registered_names(ns: Seq<Seq<char>>) -> Seq<Seq<char>> {
    let ns = name_insert(ns, "LOOP-COLLECT"@);
    let ns = name_insert(ns, "LOOP-APPEND"@);
    let ns = name_insert(ns, "LOOP-COUNT"@);
    let ns = name_insert(ns, "LOOP-MAXIMIZE"@);
    let ns = name_insert(ns, "LOOP-MINIMIZE"@);
    let ns = name_insert(ns, "LOOP-REPEAT"@);
    let ns = name_insert(ns, "LOOP-WHILE"@);
    let ns = name_insert(ns, "LOOP-SUM"@);
    ns
}

/// Register the tools of this module: those the library holds, then those
/// the application supplies, each under its name: `loop_sum_tool` under LOOP-SUM.
pub fn register<TLoopSum: Tool + 'static>(registry: &mut ToolRegistry, loop_sum_tool: TLoopSum)
    requires
        loop_sum_tool.names_itself() ==> loop_sum_tool.spec_name() == "LOOP-SUM"@,
    ensures
        final(registry).names() == registered_names(old(registry).names()),
{
    registry.register(LoopCollectTool);
    registry.register(LoopAppendTool);
    registry.register(LoopCountTool);
    registry.register(LoopMaximizeTool);
    registry.register(LoopMinimizeTool);
    registry.register(LoopRepeatTool);
    registry.register(LoopWhileTool);
    registry.place(owned("LOOP-SUM"), loop_sum_tool);
}

use crate::float_bits::{float_lt, float_lt_exec, int_to_float_bits, int_to_float_bits_exec};
use crate::tools::stdlib::control_flow_extended::{splice_exec, spliced};
use crate::tools::stdlib::arrays::{filled, size_admitted};

/// What LOOP-COLLECT and LOOP-WHILE return: an array first argument itself,
/// else all the arguments as an array.
pub open spec fn collected(a: Seq<Val>) -> Val {
    if a.len() == 0 {
        Val::Arr(Seq::empty())
    } else {
        match a[0] {
            Val::Arr(_) => a[0],
            _ => Val::Arr(a),
        }
    }
}

fn collected_exec(args: &[Value]) -> (r: Value)
    ensures
        r.model() == collected(models(args@)),
{
    if args.len() == 0 {
        return Value::Array(Vec::new());
    }
    match &args[0] {
        Value::Array(_) => args[0].deep_copy(),
        _ => Value::Array(copy_slice(args)),
    }
}

/// Whether LOOP-COUNT counts a value: true, or a non-zero integer.
pub open spec fn counted(v: Val) -> bool {
    v == Val::Bool(true) || (v is Int && v->Int_0 != 0)
}

/// How many elements of `s` LOOP-COUNT counts.
pub open spec fn count_counted(s: Seq<Val>) -> nat
    decreases s.len(),
{
    if s.len() == 0 {
        0
    } else {
        count_counted(s.drop_last()) + if counted(s.last()) { 1nat } else { 0nat }
    }
}

/// LOOP-COLLECT - Collect values from iteration
pub struct LoopCollectTool;

impl Tool for LoopCollectTool {
    open spec fn names_itself(&self) -> bool {
        true
    }

    open spec fn spec_name(&self) -> Seq<char> {
        "LOOP-COLLECT"@
    }

    open spec fn admits(&self, args: Seq<Val>) -> bool {
        true
    }

    fn name(&self) -> &str {
        "LOOP-COLLECT"
    }

    fn description(&self) -> (r: &str)
        ensures
            r@ == "Collect values into a list (same as MAPCAR)"@,
    {
        "Collect values into a list (same as MAPCAR)"
    }

    fn execute(&self, args: &[Value]) -> (r: Result<Value, Error>)
        ensures
            outcome(r) == (yields(collected(models(args@)))),
    {
        Ok(collected_exec(args))
    }
}



/// LOOP-WHILE - Execute while condition is true (returns array of values)
pub struct LoopWhileTool;

impl Tool for LoopWhileTool {
    open spec fn names_itself(&self) -> bool {
        true
    }

    open spec fn spec_name(&self) -> Seq<char> {
        "LOOP-WHILE"@
    }

    open spec fn admits(&self, args: Seq<Val>) -> bool {
        true
    }

    fn name(&self) -> &str {
        "LOOP-WHILE"
    }

    fn description(&self) -> (r: &str)
        ensures
            r@ == "Helper for while loops (returns input array)"@,
    {
        "Helper for while loops (returns input array)"
    }

    fn execute(&self, args: &[Value]) -> (r: Result<Value, Error>)
        ensures
            outcome(r) == (yields(collected(models(args@)))),
    {
        Ok(collected_exec(args))
    }
}



/// LOOP-APPEND - Append lists during iteration
pub struct LoopAppendTool;

impl Tool for LoopAppendTool {
    open spec fn names_itself(&self) -> bool {
        true
    }

    open spec fn spec_name(&self) -> Seq<char> {
        "LOOP-APPEND"@
    }

    open spec fn admits(&self, args: Seq<Val>) -> bool {
        true
    }

    fn name(&self) -> &str {
        "LOOP-APPEND"
    }

    fn description(&self) -> (r: &str)
        ensures
            r@ == "Append multiple lists"@,
    {
        "Append multiple lists"
    }

    fn execute(&self, args: &[Value]) -> (r: Result<Value, Error>)
        ensures
            outcome(r) == (yields(Val::Arr(spliced(models(args@))))),
    {
        Ok(Value::Array(splice_exec(args, true)))
    }
}



/// LOOP-COUNT - Count elements satisfying predicate
pub struct LoopCountTool;

impl Tool for LoopCountTool {
    open spec fn names_itself(&self) -> bool {
        true
    }

    open spec fn spec_name(&self) -> Seq<char> {
        "LOOP-COUNT"@
    }

    open spec fn admits(&self, args: Seq<Val>) -> bool {
        true
    }

    fn name(&self) -> &str {
        "LOOP-COUNT"
    }

    fn description(&self) -> (r: &str)
        ensures
            r@ == "Count truthy values in array"@,
    {
        "Count truthy values in array"
    }

    fn execute(&self, args: &[Value]) -> (r: Result<Value, Error>)
        ensures
            outcome(r) == (if args@.len() == 0 { yields(Val::Int(0)) } else {
                match elems(models(args@)[0]) {
                    Err(e) => Err(e),
                    Ok(s) => yields(Val::Int(count_counted(s) as i64)),
                }
            }),
    {
        if args.len() == 0 {
            return Ok(Value::Int(0));
        }
        let arr = args[0].as_array()?;
        let ghost s = models(arr@);
        let mut count: usize = 0;
        let mut i: usize = 0;
        assert(s.take(0) =~= Seq::<Val>::empty());
        while i < arr.len()
            invariant
                s == models(arr@),
                i <= arr@.len(),
                count <= i,
                count == count_counted(s.take(i as int)),
            decreases arr.len() - i,
        {
            assert(s.take(i + 1).drop_last() =~= s.take(i as int));
            assert(s.take(i + 1).last() == arr@[i as int].model());
            let c = match &arr[i] {
                Value::Bool(b) => *b,
                Value::Int(n) => *n != 0,
                _ => false,
            };
            if c {
                count = count + 1;
            }
            i = i + 1;
        }
        assert(s.take(i as int) =~= s);
        Ok(Value::Int(count as i64))
    }
}



/// LOOP-REPEAT - Repeat value N times
pub struct LoopRepeatTool;

impl Tool for LoopRepeatTool {
    open spec fn names_itself(&self) -> bool {
        true
    }

    open spec fn spec_name(&self) -> Seq<char> {
        "LOOP-REPEAT"@
    }

    open spec fn admits(&self, args: Seq<Val>) -> bool {
        size_admitted(args, 1)
    }

    fn name(&self) -> &str {
        "LOOP-REPEAT"
    }

    fn description(&self) -> (r: &str)
        ensures
            r@ == "Repeat value N times, return array"@,
    {
        "Repeat value N times, return array"
    }

    fn execute(&self, args: &[Value]) -> (r: Result<Value, Error>)
        ensures
            outcome(r) == (if args@.len() < 2 { bad_args("LOOP-REPEAT"@, "Expected value and count arguments"@) } else {
                match int_of(models(args@)[1]) {
                    Err(e) => Err(e),
                    Ok(n) => yields(Val::Arr(Seq::new((n as usize) as nat, |i: int| models(args@)[0]))),
                }
            }),
    {
        if args.len() < 2 {
            return Err(invalid_args("LOOP-REPEAT", "Expected value and count arguments"));
        }
        let count = args[1].as_int()? as usize;
        Ok(Value::Array(filled(count, &args[0])))
    }
}



/// What LOOP-MAXIMIZE and LOOP-MINIMIZE keep while scanning an array: the
/// extreme integer, the extreme as a float, whether a float was met, and
/// whether any number was.
pub struct Extremes {
    pub int_best: i64,
    pub float_best: u64,
    pub has_float: bool,
    pub found: bool,
}

/// The bits of the greatest finite `f64`, and of its negation.
pub open spec fn float_max_bits(greatest: bool) -> u64 {
    if greatest { 0xffef_ffff_ffff_ffffu64 } else { 0x7fef_ffff_ffff_ffffu64 }
}

/// One step of the scan over the value `v`; non-numbers leave it as it is.
pub open spec fn extremes_step(x: Extremes, v: Val, greatest: bool) -> Extremes {
    match v {
        Val::Int(n) => {
            let f = int_to_float_bits(n as int);
            Extremes {
                int_best: if (greatest && n > x.int_best) || (!greatest && n < x.int_best) { n } else { x.int_best },
                float_best: if (greatest && float_lt(x.float_best, f)) || (!greatest && float_lt(f, x.float_best)) { f } else { x.float_best },
                has_float: x.has_float,
                found: true,
            }
        },
        Val::Float(f) => Extremes {
            int_best: x.int_best,
            float_best: if (greatest && float_lt(x.float_best, f)) || (!greatest && float_lt(f, x.float_best)) { f } else { x.float_best },
            has_float: true,
            found: true,
        },
        _ => x,
    }
}

/// The scan over the values of `a`, in order.
pub open spec fn extremes_of(a: Seq<Val>, greatest: bool) -> Extremes
    decreases a.len(),
{
    if a.len() == 0 {
        Extremes { int_best: if greatest { i64::MIN } else { i64::MAX }, float_best: float_max_bits(greatest), has_float: false, found: false }
    } else {
        extremes_step(extremes_of(a.drop_last(), greatest), a.last(), greatest)
    }
}

/// The result of LOOP-MAXIMIZE (with `greatest`) or LOOP-MINIMIZE: null
/// without an argument or a number in the array, a float when a float was
/// met, else the extreme integer.
pub open spec fn loop_extreme_result(a: Seq<Val>, greatest: bool) -> Result<Val, ErrV> {
    if a.len() == 0 {
        yields(Val::Null)
    } else {
        match elems(a[0]) {
            Err(e) => Err(e),
            Ok(s) => {
                let x = extremes_of(s, greatest);
                yields(if !x.found { Val::Null } else if x.has_float { Val::Float(x.float_best) } else { Val::Int(x.int_best) })
            },
        }
    }
}

fn loop_extreme_exec(args: &[Value], greatest: bool) -> (r: Result<Value, Error>)
    ensures
        outcome(r) == loop_extreme_result(models(args@), greatest),
{
    if args.len() == 0 {
        return Ok(Value::Null);
    }
    let arr = args[0].as_array()?;
    let ghost s = models(arr@);
    let mut int_best: i64 = if greatest { i64::MIN } else { i64::MAX };
    let mut float_best: u64 = if greatest { 0xffef_ffff_ffff_ffffu64 } else { 0x7fef_ffff_ffff_ffffu64 };
    let mut has_float = false;
    let mut found = false;
    let mut i: usize = 0;
    while i < arr.len()
        invariant
            s == models(arr@),
            i <= arr@.len(),
            extremes_of(s.take(i as int), greatest) == (Extremes { int_best, float_best, has_float, found }),
        decreases arr.len() - i,
    {
        assert(s.take(i as int + 1).drop_last() =~= s.take(i as int));
        assert(s[i as int] == arr@[i as int].model());
        match &arr[i] {
            Value::Int(n) => {
                found = true;
                if (greatest && *n > int_best) || (!greatest && *n < int_best) {
                    int_best = *n;
                }
                let f = int_to_float_bits_exec(*n);
                if (greatest && float_lt_exec(float_best, f)) || (!greatest && float_lt_exec(f, float_best)) {
                    float_best = f;
                }
            },
            Value::Float(f) => {
                found = true;
                has_float = true;
                if (greatest && float_lt_exec(float_best, *f)) || (!greatest && float_lt_exec(*f, float_best)) {
                    float_best = *f;
                }
            },
            _ => {},
        }
        i = i + 1;
    }
    assert(s.take(i as int) =~= s);
    if !found {
        Ok(Value::Null)
    } else if has_float {
        Ok(Value::Float(float_best))
    } else {
        Ok(Value::Int(int_best))
    }
}

/// LOOP-MAXIMIZE - Find maximum value
pub struct LoopMaximizeTool;

impl Tool for LoopMaximizeTool {
    open spec fn names_itself(&self) -> bool {
        true
    }

    open spec fn spec_name(&self) -> Seq<char> {
        "LOOP-MAXIMIZE"@
    }

    open spec fn admits(&self, args: Seq<Val>) -> bool {
        true
    }

    fn name(&self) -> &str {
        "LOOP-MAXIMIZE"
    }

    fn description(&self) -> (r: &str)
        ensures
            r@ == "Find maximum value in array"@,
    {
        "Find maximum value in array"
    }

    fn execute(&self, args: &[Value]) -> (r: Result<Value, Error>)
        ensures
            outcome(r) == (loop_extreme_result(models(args@), true)),
    {
        loop_extreme_exec(args, true)
    }
}



/// LOOP-MINIMIZE - Find minimum value
pub struct LoopMinimizeTool;

impl Tool for LoopMinimizeTool {
    open spec fn names_itself(&self) -> bool {
        true
    }

    open spec fn spec_name(&self) -> Seq<char> {
        "LOOP-MINIMIZE"@
    }

    open spec fn admits(&self, args: Seq<Val>) -> bool {
        true
    }

    fn name(&self) -> &str {
        "LOOP-MINIMIZE"
    }

    fn description(&self) -> (r: &str)
        ensures
            r@ == "Find minimum value in array"@,
    {
        "Find minimum value in array"
    }

    fn execute(&self, args: &[Value]) -> (r: Result<Value, Error>)
        ensures
            outcome(r) == (loop_extreme_result(models(args@), false)),
    {
        loop_extreme_exec(args, false)
    }
}


} // verus!
