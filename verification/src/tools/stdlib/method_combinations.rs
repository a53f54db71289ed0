//! CLOS method combinations for OVSM
//!
//! Method combination types, qualifiers, and combination control.
//! Provides full Common Lisp Object System method combination support.
use vstd::prelude::*;

#[allow(unused_imports)]
use crate::access::{copy_range, copy_slice, copy_values, values_equal};
#[allow(unused_imports)]
use crate::error::{empty_collection, exec_error, invalid_args, ErrV, Error};
#[allow(unused_imports)]
use crate::text::{alphabetic, alphanumeric, char_from_u32, char_is_alphabetic, char_is_alphanumeric, char_is_lowercase, char_is_uppercase, char_is_whitespace, char_string, char_to_lowercase, char_to_uppercase, chars_of, chars_skip, concat, i64_to_string, int_decimal, lower_case, lower_chars, lowercase, owned, scalar_value, seq_less, str_equal, str_less, string_from_chars, to_lower, to_upper, upper_case, upper_chars, uppercase, whitespace};
#[allow(unused_imports)]
use crate::tools::{bad_args, name_insert, outcome, ref_outcome, string_views, yields, Tool, ToolRegistry};
#[allow(unused_imports)]
use crate::value::{and_then, elems, entry_models, int_of, models, obj_insert, obj_keys, obj_lookup, obj_merge, obj_of, obj_values, str_of, truthy, type_error, ObjectMap, Val, Value};

verus! {

broadcast use crate::seq_models::group_value_models;

/// The names after registering this module's tools, in order.
pub open spec fn registered_names(ns: Seq<Seq<char>>) -> Seq<Seq<char>> {
    let ns = name_insert(ns, "DEFINE-METHOD-COMBINATION"@);
    let ns = name_insert(ns, "METHOD-COMBINATION-NAME"@);
    let ns = name_insert(ns, "METHOD-COMBINATION-TYPE"@);
    let ns = name_insert(ns, "FIND-METHOD-COMBINATION"@);
    let ns = name_insert(ns, "STANDARD-METHOD-COMBINATION"@);
    let ns = name_insert(ns, "AND-METHOD-COMBINATION"@);
    let ns = name_insert(ns, "OR-METHOD-COMBINATION"@);
    let ns = name_insert(ns, "PROGN-METHOD-COMBINATION"@);
    let ns = name_insert(ns, "APPEND-METHOD-COMBINATION"@);
    let ns = name_insert(ns, "NCONC-METHOD-COMBINATION"@);
    let ns = name_insert(ns, "LIST-METHOD-COMBINATION"@);
    let ns = name_insert(ns, "MAX-METHOD-COMBINATION"@);
    let ns = name_insert(ns, "MIN-METHOD-COMBINATION"@);
    let ns = name_insert(ns, "METHOD-QUALIFIERS"@);
    let ns = name_insert(ns, "PRIMARY-METHOD-P"@);
    let ns = name_insert(ns, "BEFORE-METHOD-P"@);
    let ns = name_insert(ns, "AFTER-METHOD-P"@);
    let ns = name_insert(ns, "AROUND-METHOD-P"@);
    let ns = name_insert(ns, "CALL-NEXT-METHOD"@);
    let ns = name_insert(ns, "NEXT-METHOD-P"@);
    let ns = name_insert(ns, "PLUS-METHOD-COMBINATION"@);
    ns
}

/// Register the tools of this module: those the library holds, then those
/// the application supplies, each under its name: `plus_method_combination_tool` under PLUS-METHOD-COMBINATION.
pub fn register<TPlusMethodCombination: Tool + 'static>(registry: &mut ToolRegistry, plus_method_combination_tool: TPlusMethodCombination)
    requires
        plus_method_combination_tool.names_itself() ==> plus_method_combination_tool.spec_name() == "PLUS-METHOD-COMBINATION"@,
    ensures
        final(registry).names() == registered_names(old(registry).names()),
{
    registry.register(DefineMethodCombinationTool);
    registry.register(MethodCombinationNameTool);
    registry.register(MethodCombinationTypeTool);
    registry.register(FindMethodCombinationTool);
    registry.register(StandardMethodCombinationTool);
    registry.register(AndMethodCombinationTool);
    registry.register(OrMethodCombinationTool);
    registry.register(PrognMethodCombinationTool);
    registry.register(AppendMethodCombinationTool);
    registry.register(NconcMethodCombinationTool);
    registry.register(ListMethodCombinationTool);
    registry.register(MaxMethodCombinationTool);
    registry.register(MinMethodCombinationTool);
    registry.register(MethodQualifiersTool);
    registry.register(PrimaryMethodPTool);
    registry.register(BeforeMethodPTool);
    registry.register(AfterMethodPTool);
    registry.register(AroundMethodPTool);
    registry.register(CallNextMethodTool);
    registry.register(NextMethodPTool);
    registry.place(owned("PLUS-METHOD-COMBINATION"), plus_method_combination_tool);
}

/// DEFINE-METHOD-COMBINATION - Define method combination type
pub struct DefineMethodCombinationTool;

impl Tool for DefineMethodCombinationTool {
    open spec fn names_itself(&self) -> bool {
        true
    }

    open spec fn spec_name(&self) -> Seq<char> {
        "DEFINE-METHOD-COMBINATION"@
    }

    open spec fn admits(&self, args: Seq<Val>) -> bool {
        true
    }

    fn name(&self) -> &str {
        "DEFINE-METHOD-COMBINATION"
    }

    fn description(&self) -> (r: &str)
        ensures
            r@ == "Define new method combination type"@,
    {
        "Define new method combination type"
    }

    fn execute(&self, args: &[Value]) -> (r: Result<Value, Error>)
        ensures
            outcome(r) == (yields(if args@.len() == 0 { Val::Null } else { args@[0].model() })),
    {
        Ok(if args.len() == 0 { Value::Null } else { args[0].clone() })
    }
}

/// METHOD-COMBINATION-NAME - Get method combination name
pub struct MethodCombinationNameTool;

impl Tool for MethodCombinationNameTool {
    open spec fn names_itself(&self) -> bool {
        true
    }

    open spec fn spec_name(&self) -> Seq<char> {
        "METHOD-COMBINATION-NAME"@
    }

    open spec fn admits(&self, args: Seq<Val>) -> bool {
        true
    }

    fn name(&self) -> &str {
        "METHOD-COMBINATION-NAME"
    }

    fn description(&self) -> (r: &str)
        ensures
            r@ == "Get name of method combination"@,
    {
        "Get name of method combination"
    }

    fn execute(&self, args: &[Value]) -> (r: Result<Value, Error>)
        ensures
            outcome(r) == (yields(if args@.len() == 0 { Val::Str("STANDARD"@) } else { args@[0].model() })),
    {
        Ok(if args.len() == 0 { Value::String(owned("STANDARD")) } else { args[0].clone() })
    }
}

/// METHOD-COMBINATION-TYPE - Get method combination type
pub struct MethodCombinationTypeTool;

impl Tool for MethodCombinationTypeTool {
    open spec fn names_itself(&self) -> bool {
        true
    }

    open spec fn spec_name(&self) -> Seq<char> {
        "METHOD-COMBINATION-TYPE"@
    }

    open spec fn admits(&self, args: Seq<Val>) -> bool {
        true
    }

    fn name(&self) -> &str {
        "METHOD-COMBINATION-TYPE"
    }

    fn description(&self) -> (r: &str)
        ensures
            r@ == "Get type of method combination"@,
    {
        "Get type of method combination"
    }

    fn execute(&self, args: &[Value]) -> (r: Result<Value, Error>)
        ensures
            outcome(r) == (yields(Val::Str("STANDARD"@))),
    {
        Ok(Value::String(owned("STANDARD")))
    }
}

/// FIND-METHOD-COMBINATION - Find method combination by name
pub struct FindMethodCombinationTool;

impl Tool for FindMethodCombinationTool {
    open spec fn names_itself(&self) -> bool {
        true
    }

    open spec fn spec_name(&self) -> Seq<char> {
        "FIND-METHOD-COMBINATION"@
    }

    open spec fn admits(&self, args: Seq<Val>) -> bool {
        true
    }

    fn name(&self) -> &str {
        "FIND-METHOD-COMBINATION"
    }

    fn description(&self) -> (r: &str)
        ensures
            r@ == "Find method combination by name"@,
    {
        "Find method combination by name"
    }

    fn execute(&self, args: &[Value]) -> (r: Result<Value, Error>)
        ensures
            outcome(r) == (yields(if args@.len() == 0 { Val::Null } else { args@[0].model() })),
    {
        Ok(if args.len() == 0 { Value::Null } else { args[0].clone() })
    }
}

/// STANDARD-METHOD-COMBINATION - Standard combination
pub struct StandardMethodCombinationTool;

impl Tool for StandardMethodCombinationTool {
    open spec fn names_itself(&self) -> bool {
        true
    }

    open spec fn spec_name(&self) -> Seq<char> {
        "STANDARD-METHOD-COMBINATION"@
    }

    open spec fn admits(&self, args: Seq<Val>) -> bool {
        true
    }

    fn name(&self) -> &str {
        "STANDARD-METHOD-COMBINATION"
    }

    fn description(&self) -> (r: &str)
        ensures
            r@ == "Standard method combination (before, primary, after, around)"@,
    {
        "Standard method combination (before, primary, after, around)"
    }

    fn execute(&self, args: &[Value]) -> (r: Result<Value, Error>)
        ensures
            outcome(r) == (yields(if args@.len() == 0 { Val::Null } else { args@[args@.len() - 1].model() })),
    {
        Ok(if args.len() == 0 { Value::Null } else { args[args.len() - 1].clone() })
    }
}

/// PROGN-METHOD-COMBINATION - PROGN combination
pub struct PrognMethodCombinationTool;

impl Tool for PrognMethodCombinationTool {
    open spec fn names_itself(&self) -> bool {
        true
    }

    open spec fn spec_name(&self) -> Seq<char> {
        "PROGN-METHOD-COMBINATION"@
    }

    open spec fn admits(&self, args: Seq<Val>) -> bool {
        true
    }

    fn name(&self) -> &str {
        "PROGN-METHOD-COMBINATION"
    }

    fn description(&self) -> (r: &str)
        ensures
            r@ == "PROGN method combination (call all, return last)"@,
    {
        "PROGN method combination (call all, return last)"
    }

    fn execute(&self, args: &[Value]) -> (r: Result<Value, Error>)
        ensures
            outcome(r) == (yields(if args@.len() == 0 { Val::Null } else { args@[args@.len() - 1].model() })),
    {
        Ok(if args.len() == 0 { Value::Null } else { args[args.len() - 1].clone() })
    }
}

/// LIST-METHOD-COMBINATION - LIST combination
pub struct ListMethodCombinationTool;

impl Tool for ListMethodCombinationTool {
    open spec fn names_itself(&self) -> bool {
        true
    }

    open spec fn spec_name(&self) -> Seq<char> {
        "LIST-METHOD-COMBINATION"@
    }

    open spec fn admits(&self, args: Seq<Val>) -> bool {
        true
    }

    fn name(&self) -> &str {
        "LIST-METHOD-COMBINATION"
    }

    fn description(&self) -> (r: &str)
        ensures
            r@ == "LIST method combination (collect results in list)"@,
    {
        "LIST method combination (collect results in list)"
    }

    fn execute(&self, args: &[Value]) -> (r: Result<Value, Error>)
        ensures
            outcome(r) == (yields(Val::Arr(models(args@)))),
    {
        Ok(Value::Array(copy_slice(args)))
    }
}

/// METHOD-QUALIFIERS - Get method qualifiers
pub struct MethodQualifiersTool;

impl Tool for MethodQualifiersTool {
    open spec fn names_itself(&self) -> bool {
        true
    }

    open spec fn spec_name(&self) -> Seq<char> {
        "METHOD-QUALIFIERS"@
    }

    open spec fn admits(&self, args: Seq<Val>) -> bool {
        true
    }

    fn name(&self) -> &str {
        "METHOD-QUALIFIERS"
    }

    fn description(&self) -> (r: &str)
        ensures
            r@ == "Get qualifiers of a method"@,
    {
        "Get qualifiers of a method"
    }

    fn execute(&self, args: &[Value]) -> (r: Result<Value, Error>)
        ensures
            outcome(r) == (yields(Val::Arr(Seq::<Val>::empty()))),
    {
        Ok(Value::Array(Vec::new()))
    }
}

/// PRIMARY-METHOD-P - Check if primary method
pub struct PrimaryMethodPTool;

impl Tool for PrimaryMethodPTool {
    open spec fn names_itself(&self) -> bool {
        true
    }

    open spec fn spec_name(&self) -> Seq<char> {
        "PRIMARY-METHOD-P"@
    }

    open spec fn admits(&self, args: Seq<Val>) -> bool {
        true
    }

    fn name(&self) -> &str {
        "PRIMARY-METHOD-P"
    }

    fn description(&self) -> (r: &str)
        ensures
            r@ == "Check if method is primary method"@,
    {
        "Check if method is primary method"
    }

    fn execute(&self, args: &[Value]) -> (r: Result<Value, Error>)
        ensures
            outcome(r) == (yields(Val::Bool(true))),
    {
        Ok(Value::Bool(true))
    }
}

/// BEFORE-METHOD-P - Check if before method
pub struct BeforeMethodPTool;

impl Tool for BeforeMethodPTool {
    open spec fn names_itself(&self) -> bool {
        true
    }

    open spec fn spec_name(&self) -> Seq<char> {
        "BEFORE-METHOD-P"@
    }

    open spec fn admits(&self, args: Seq<Val>) -> bool {
        true
    }

    fn name(&self) -> &str {
        "BEFORE-METHOD-P"
    }

    fn description(&self) -> (r: &str)
        ensures
            r@ == "Check if method is :before method"@,
    {
        "Check if method is :before method"
    }

    fn execute(&self, args: &[Value]) -> (r: Result<Value, Error>)
        ensures
            outcome(r) == (yields(Val::Bool(false))),
    {
        Ok(Value::Bool(false))
    }
}

/// AFTER-METHOD-P - Check if after method
pub struct AfterMethodPTool;

impl Tool for AfterMethodPTool {
    open spec fn names_itself(&self) -> bool {
        true
    }

    open spec fn spec_name(&self) -> Seq<char> {
        "AFTER-METHOD-P"@
    }

    open spec fn admits(&self, args: Seq<Val>) -> bool {
        true
    }

    fn name(&self) -> &str {
        "AFTER-METHOD-P"
    }

    fn description(&self) -> (r: &str)
        ensures
            r@ == "Check if method is :after method"@,
    {
        "Check if method is :after method"
    }

    fn execute(&self, args: &[Value]) -> (r: Result<Value, Error>)
        ensures
            outcome(r) == (yields(Val::Bool(false))),
    {
        Ok(Value::Bool(false))
    }
}

/// AROUND-METHOD-P - Check if around method
pub struct AroundMethodPTool;

impl Tool for AroundMethodPTool {
    open spec fn names_itself(&self) -> bool {
        true
    }

    open spec fn spec_name(&self) -> Seq<char> {
        "AROUND-METHOD-P"@
    }

    open spec fn admits(&self, args: Seq<Val>) -> bool {
        true
    }

    fn name(&self) -> &str {
        "AROUND-METHOD-P"
    }

    fn description(&self) -> (r: &str)
        ensures
            r@ == "Check if method is :around method"@,
    {
        "Check if method is :around method"
    }

    fn execute(&self, args: &[Value]) -> (r: Result<Value, Error>)
        ensures
            outcome(r) == (yields(Val::Bool(false))),
    {
        Ok(Value::Bool(false))
    }
}

/// CALL-NEXT-METHOD - Call next most specific method
pub struct CallNextMethodTool;

impl Tool for CallNextMethodTool {
    open spec fn names_itself(&self) -> bool {
        true
    }

    open spec fn spec_name(&self) -> Seq<char> {
        "CALL-NEXT-METHOD"@
    }

    open spec fn admits(&self, args: Seq<Val>) -> bool {
        true
    }

    fn name(&self) -> &str {
        "CALL-NEXT-METHOD"
    }

    fn description(&self) -> (r: &str)
        ensures
            r@ == "Call next most specific method"@,
    {
        "Call next most specific method"
    }

    fn execute(&self, args: &[Value]) -> (r: Result<Value, Error>)
        ensures
            outcome(r) == (yields(if args@.len() == 0 { Val::Null } else { args@[0].model() })),
    {
        Ok(if args.len() == 0 { Value::Null } else { args[0].clone() })
    }
}

/// NEXT-METHOD-P - Check if next method exists
pub struct NextMethodPTool;

impl Tool for NextMethodPTool {
    open spec fn names_itself(&self) -> bool {
        true
    }

    open spec fn spec_name(&self) -> Seq<char> {
        "NEXT-METHOD-P"@
    }

    open spec fn admits(&self, args: Seq<Val>) -> bool {
        true
    }

    fn name(&self) -> &str {
        "NEXT-METHOD-P"
    }

    fn description(&self) -> (r: &str)
        ensures
            r@ == "Check if next method exists"@,
    {
        "Check if next method exists"
    }

    fn execute(&self, args: &[Value]) -> (r: Result<Value, Error>)
        ensures
            outcome(r) == (yields(Val::Bool(false))),
    {
        Ok(Value::Bool(false))
    }
}

use crate::float_bits::{float_lt, float_lt_exec, int_to_float_bits, int_to_float_bits_exec};
use crate::tools::stdlib::control_flow_extended::{all_truthy, arrays_joined, first_truthy, first_truthy_exec, none_false, none_true, splice_exec, spliced};

/// AND-METHOD-COMBINATION - AND combination
pub struct AndMethodCombinationTool;

impl Tool for AndMethodCombinationTool {
    open spec fn names_itself(&self) -> bool {
        true
    }

    open spec fn spec_name(&self) -> Seq<char> {
        "AND-METHOD-COMBINATION"@
    }

    open spec fn admits(&self, args: Seq<Val>) -> bool {
        true
    }

    fn name(&self) -> &str {
        "AND-METHOD-COMBINATION"
    }

    fn description(&self) -> (r: &str)
        ensures
            r@ == "AND method combination (short-circuit on NIL)"@,
    {
        "AND method combination (short-circuit on NIL)"
    }

    fn execute(&self, args: &[Value]) -> (r: Result<Value, Error>)
        ensures
            outcome(r) == (yields(all_truthy(models(args@)))),
    {
        if !none_false(args) {
            return Ok(Value::Bool(false));
        }
        if args.len() == 0 {
            Ok(Value::Bool(true))
        } else {
            Ok(args[args.len() - 1].deep_copy())
        }
    }
}



/// OR-METHOD-COMBINATION - OR combination
pub struct OrMethodCombinationTool;

impl Tool for OrMethodCombinationTool {
    open spec fn names_itself(&self) -> bool {
        true
    }

    open spec fn spec_name(&self) -> Seq<char> {
        "OR-METHOD-COMBINATION"@
    }

    open spec fn admits(&self, args: Seq<Val>) -> bool {
        true
    }

    fn name(&self) -> &str {
        "OR-METHOD-COMBINATION"
    }

    fn description(&self) -> (r: &str)
        ensures
            r@ == "OR method combination (short-circuit on non-NIL)"@,
    {
        "OR method combination (short-circuit on non-NIL)"
    }

    fn execute(&self, args: &[Value]) -> (r: Result<Value, Error>)
        ensures
            outcome(r) == (yields(first_truthy(models(args@)))),
    {
        Ok(first_truthy_exec(args))
    }
}



/// APPEND-METHOD-COMBINATION - APPEND combination
pub struct AppendMethodCombinationTool;

impl Tool for AppendMethodCombinationTool {
    open spec fn names_itself(&self) -> bool {
        true
    }

    open spec fn spec_name(&self) -> Seq<char> {
        "APPEND-METHOD-COMBINATION"@
    }

    open spec fn admits(&self, args: Seq<Val>) -> bool {
        true
    }

    fn name(&self) -> &str {
        "APPEND-METHOD-COMBINATION"
    }

    fn description(&self) -> (r: &str)
        ensures
            r@ == "APPEND method combination (append all results)"@,
    {
        "APPEND method combination (append all results)"
    }

    fn execute(&self, args: &[Value]) -> (r: Result<Value, Error>)
        ensures
            outcome(r) == (yields(Val::Arr(spliced(models(args@))))),
    {
        Ok(Value::Array(splice_exec(args, true)))
    }
}



/// NCONC-METHOD-COMBINATION - NCONC combination
pub struct NconcMethodCombinationTool;

impl Tool for NconcMethodCombinationTool {
    open spec fn names_itself(&self) -> bool {
        true
    }

    open spec fn spec_name(&self) -> Seq<char> {
        "NCONC-METHOD-COMBINATION"@
    }

    open spec fn admits(&self, args: Seq<Val>) -> bool {
        true
    }

    fn name(&self) -> &str {
        "NCONC-METHOD-COMBINATION"
    }

    fn description(&self) -> (r: &str)
        ensures
            r@ == "NCONC method combination (destructively append results)"@,
    {
        "NCONC method combination (destructively append results)"
    }

    fn execute(&self, args: &[Value]) -> (r: Result<Value, Error>)
        ensures
            outcome(r) == (yields(Val::Arr(spliced(models(args@))))),
    {
        Ok(Value::Array(splice_exec(args, true)))
    }
}



/// `a` beats `b` for the extreme sought: greater with `greatest`, else less.
pub open spec fn float_beats(a: u64, b: u64, greatest: bool) -> bool {
    if greatest { float_lt(b, a) } else { float_lt(a, b) }
}

/// What the extremum combinations make of `arg` against the best so far:
/// integers compare as integers, a float with an integer as floats (the
/// integer converted, and kept as a float when it wins); anything else is passed over.
pub open spec fn better_value(arg: Val, best: Val, greatest: bool) -> Val {
    match (arg, best) {
        (Val::Int(a), Val::Int(b)) => if (greatest && a > b) || (!greatest && a < b) { Val::Int(a) } else { best },
        (Val::Float(a), Val::Float(b)) => if float_beats(a, b, greatest) { Val::Float(a) } else { best },
        (Val::Int(a), Val::Float(b)) => if float_beats(int_to_float_bits(a as int), b, greatest) {
            Val::Float(int_to_float_bits(a as int))
        } else {
            best
        },
        (Val::Float(a), Val::Int(b)) => if float_beats(a, int_to_float_bits(b as int), greatest) { Val::Float(a) } else { best },
        _ => best,
    }
}

/// The best of `start` and the values of `a`, taken in order.
pub open spec fn fold_better(a: Seq<Val>, start: Val, greatest: bool) -> Val
    decreases a.len(),
{
    if a.len() == 0 {
        start
    } else {
        better_value(a.last(), fold_better(a.drop_last(), start, greatest), greatest)
    }
}

fn float_beats_exec(a: u64, b: u64, greatest: bool) -> (r: bool)
    ensures
        r == float_beats(a, b, greatest),
{
    if greatest { float_lt_exec(b, a) } else { float_lt_exec(a, b) }
}

fn better_value_exec(arg: &Value, best: Value, greatest: bool) -> (r: Value)
    ensures
        r.model() == better_value(arg.model(), best.model(), greatest),
{
    match (arg, &best) {
        (Value::Int(a), Value::Int(b)) => if (greatest && *a > *b) || (!greatest && *a < *b) { Value::Int(*a) } else { best },
        (Value::Float(a), Value::Float(b)) => if float_beats_exec(*a, *b, greatest) { Value::Float(*a) } else { best },
        (Value::Int(a), Value::Float(b)) => {
            let fa = int_to_float_bits_exec(*a);
            if float_beats_exec(fa, *b, greatest) { Value::Float(fa) } else { best }
        },
        (Value::Float(a), Value::Int(b)) => {
            let fb = int_to_float_bits_exec(*b);
            if float_beats_exec(*a, fb, greatest) { Value::Float(*a) } else { best }
        },
        _ => best,
    }
}

/// The best of `start` and the values of `vals` from index `from` on.
pub(crate) fn fold_better_exec(vals: &[Value], from: usize, start: Value, greatest: bool) -> (r: Value)
    requires
        from <= vals@.len(),
    ensures
        r.model() == fold_better(models(vals@).skip(from as int), start.model(), greatest),
{
    let ghost a = models(vals@).skip(from as int);
    let ghost s0 = start.model();
    let mut best = start;
    let mut i: usize = from;
    while i < vals.len()
        invariant
            from <= i <= vals@.len(),
            a == models(vals@).skip(from as int),
            best.model() == fold_better(a.take(i - from), s0, greatest),
        decreases vals.len() - i,
    {
        assert(a.take(i - from + 1).drop_last() =~= a.take(i - from));
        assert(a[i - from] == vals@[i as int].model());
        best = better_value_exec(&vals[i], best, greatest);
        i = i + 1;
    }
    assert(a.take(i - from) =~= a);
    best
}

/// The result of the extremum combinations: the best argument, starting
/// from the far end of `i64`; an error when there is no argument.
pub open spec fn extremum_result(tool: Seq<char>, a: Seq<Val>, greatest: bool) -> Result<Val, ErrV> {
    if a.len() == 0 {
        bad_args(tool, "Expected at least 1 argument (method result)"@)
    } else {
        yields(fold_better(a, Val::Int(if greatest { i64::MIN } else { i64::MAX }), greatest))
    }
}

/// MAX-METHOD-COMBINATION - MAX combination
pub struct MaxMethodCombinationTool;

impl Tool for MaxMethodCombinationTool {
    open spec fn names_itself(&self) -> bool {
        true
    }

    open spec fn spec_name(&self) -> Seq<char> {
        "MAX-METHOD-COMBINATION"@
    }

    open spec fn admits(&self, args: Seq<Val>) -> bool {
        true
    }

    fn name(&self) -> &str {
        "MAX-METHOD-COMBINATION"
    }

    fn description(&self) -> (r: &str)
        ensures
            r@ == "MAX method combination (return maximum result)"@,
    {
        "MAX method combination (return maximum result)"
    }

    fn execute(&self, args: &[Value]) -> (r: Result<Value, Error>)
        ensures
            outcome(r) == (extremum_result("MAX-METHOD-COMBINATION"@, models(args@), true)),
    {
        if args.len() == 0 {
            return Err(invalid_args("MAX-METHOD-COMBINATION", "Expected at least 1 argument (method result)"));
        }
        assert(models(args@).skip(0) =~= models(args@));
        Ok(fold_better_exec(args, 0, Value::Int(i64::MIN), true))
    }
}



/// MIN-METHOD-COMBINATION - MIN combination
pub struct MinMethodCombinationTool;

impl Tool for MinMethodCombinationTool {
    open spec fn names_itself(&self) -> bool {
        true
    }

    open spec fn spec_name(&self) -> Seq<char> {
        "MIN-METHOD-COMBINATION"@
    }

    open spec fn admits(&self, args: Seq<Val>) -> bool {
        true
    }

    fn name(&self) -> &str {
        "MIN-METHOD-COMBINATION"
    }

    fn description(&self) -> (r: &str)
        ensures
            r@ == "MIN method combination (return minimum result)"@,
    {
        "MIN method combination (return minimum result)"
    }

    fn execute(&self, args: &[Value]) -> (r: Result<Value, Error>)
        ensures
            outcome(r) == (extremum_result("MIN-METHOD-COMBINATION"@, models(args@), false)),
    {
        if args.len() == 0 {
            return Err(invalid_args("MIN-METHOD-COMBINATION", "Expected at least 1 argument (method result)"));
        }
        assert(models(args@).skip(0) =~= models(args@));
        Ok(fold_better_exec(args, 0, Value::Int(i64::MAX), false))
    }
}


} // verus!
