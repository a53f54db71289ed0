//! Complete LOOP macro implementation for OVSM
//!
//! Full LOOP DSL with all clauses, destructuring, and complex iteration.
//! Extends the basic loop utilities with complete Common Lisp LOOP functionality.
use vstd::prelude::*;

#[allow(unused_imports)]
use crate::access::{copy_range, copy_slice, copy_values, values_equal};
#[allow(unused_imports)]
use crate::error::{empty_collection, exec_error, invalid_args, ErrV, Error};
#[allow(unused_imports)]
use crate::text::{alphabetic, alphanumeric, char_from_u32, char_is_alphabetic, char_is_alphanumeric, char_is_lowercase, char_is_uppercase, char_is_whitespace, char_string, char_to_lowercase, char_to_uppercase, chars_of, chars_skip, concat, i64_to_string, int_decimal, lower_case, lower_chars, lowercase, owned, scalar_value, seq_less, str_equal, str_less, string_from_chars, to_lower, to_upper, upper_case, upper_chars, uppercase, whitespace};
#[allow(unused_imports)]
use crate::tools::{bad_args, name_insert, outcome, ref_outcome, string_views, yields, Tool, ToolRegistry};
#[allow(unused_imports)]
use crate::value::{and_then, elems, entry_models, int_of, models, obj_insert, obj_keys, obj_lookup, obj_merge, obj_of, obj_values, str_of, truthy, type_error, ObjectMap, Val, Value};

verus! {

broadcast use crate::seq_models::group_value_models;

/// The names after registering this module's tools, in order.
pub open spec fn registered_names(ns: Seq<Seq<char>>) -> Seq<Seq<char>> {
    let ns = name_insert(ns, "LOOP-FOR"@);
    let ns = name_insert(ns, "LOOP-FROM"@);
    let ns = name_insert(ns, "LOOP-TO"@);
    let ns = name_insert(ns, "LOOP-BELOW"@);
    let ns = name_insert(ns, "LOOP-ABOVE"@);
    let ns = name_insert(ns, "LOOP-BY"@);
    let ns = name_insert(ns, "LOOP-IN"@);
    let ns = name_insert(ns, "LOOP-ON"@);
    let ns = name_insert(ns, "LOOP-ACROSS"@);
    let ns = name_insert(ns, "LOOP-WHEN"@);
    let ns = name_insert(ns, "LOOP-UNLESS"@);
    let ns = name_insert(ns, "LOOP-IF"@);
    let ns = name_insert(ns, "LOOP-WHILE"@);
    let ns = name_insert(ns, "LOOP-UNTIL"@);
    let ns = name_insert(ns, "LOOP-COLLECT"@);
    let ns = name_insert(ns, "LOOP-APPEND"@);
    let ns = name_insert(ns, "LOOP-NCONC"@);
    let ns = name_insert(ns, "LOOP-SUM"@);
    let ns = name_insert(ns, "LOOP-COUNT"@);
    let ns = name_insert(ns, "LOOP-MAXIMIZE"@);
    let ns = name_insert(ns, "LOOP-MINIMIZE"@);
    let ns = name_insert(ns, "LOOP-DO"@);
    let ns = name_insert(ns, "LOOP-RETURN"@);
    let ns = name_insert(ns, "LOOP-WITH"@);
    let ns = name_insert(ns, "LOOP-INITIALLY"@);
    let ns = name_insert(ns, "LOOP-FINALLY"@);
    ns
}

/// Register the tools of this module.
pub fn register(registry: &mut ToolRegistry)
    ensures
        final(registry).names() == registered_names(old(registry).names()),
{
    registry.register(LoopForTool);
    registry.register(LoopFromTool);
    registry.register(LoopToTool);
    registry.register(LoopBelowTool);
    registry.register(LoopAboveTool);
    registry.register(LoopByTool);
    registry.register(LoopInTool);
    registry.register(LoopOnTool);
    registry.register(LoopAcrossTool);
    registry.register(LoopWhenTool);
    registry.register(LoopUnlessTool);
    registry.register(LoopIfTool);
    registry.register(LoopWhileTool);
    registry.register(LoopUntilTool);
    registry.register(LoopCollectTool);
    registry.register(LoopAppendTool);
    registry.register(LoopNconcTool);
    registry.register(LoopSumTool);
    registry.register(LoopCountTool);
    registry.register(LoopMaximizeTool);
    registry.register(LoopMinimizeTool);
    registry.register(LoopDoTool);
    registry.register(LoopReturnTool);
    registry.register(LoopWithTool);
    registry.register(LoopInitiallyTool);
    registry.register(LoopFinallyTool);
}

/// LOOP-FOR - FOR iteration clause
pub struct LoopForTool;

impl Tool for LoopForTool {
    open spec fn names_itself(&self) -> bool {
        true
    }

    open spec fn spec_name(&self) -> Seq<char> {
        "LOOP-FOR"@
    }

    open spec fn admits(&self, args: Seq<Val>) -> bool {
        true
    }

    fn name(&self) -> &str {
        "LOOP-FOR"
    }

    fn description(&self) -> (r: &str)
        ensures
            r@ == "FOR iteration clause in LOOP"@,
    {
        "FOR iteration clause in LOOP"
    }

    fn execute(&self, args: &[Value]) -> (r: Result<Value, Error>)
        ensures
            outcome(r) == (yields(if args@.len() == 0 { Val::Null } else { args@[0].model() })),
    {
        Ok(if args.len() == 0 { Value::Null } else { args[0].clone() })
    }
}

/// LOOP-FROM - FROM starting value
pub struct LoopFromTool;

impl Tool for LoopFromTool {
    open spec fn names_itself(&self) -> bool {
        true
    }

    open spec fn spec_name(&self) -> Seq<char> {
        "LOOP-FROM"@
    }

    open spec fn admits(&self, args: Seq<Val>) -> bool {
        true
    }

    fn name(&self) -> &str {
        "LOOP-FROM"
    }

    fn description(&self) -> (r: &str)
        ensures
            r@ == "FROM starting value in LOOP"@,
    {
        "FROM starting value in LOOP"
    }

    fn execute(&self, args: &[Value]) -> (r: Result<Value, Error>)
        ensures
            outcome(r) == (yields(if args@.len() == 0 { Val::Int(0) } else { args@[0].model() })),
    {
        Ok(if args.len() == 0 { Value::Int(0) } else { args[0].clone() })
    }
}

/// LOOP-TO - TO ending value
pub struct LoopToTool;

impl Tool for LoopToTool {
    open spec fn names_itself(&self) -> bool {
        true
    }

    open spec fn spec_name(&self) -> Seq<char> {
        "LOOP-TO"@
    }

    open spec fn admits(&self, args: Seq<Val>) -> bool {
        true
    }

    fn name(&self) -> &str {
        "LOOP-TO"
    }

    fn description(&self) -> (r: &str)
        ensures
            r@ == "TO ending value in LOOP"@,
    {
        "TO ending value in LOOP"
    }

    fn execute(&self, args: &[Value]) -> (r: Result<Value, Error>)
        ensures
            outcome(r) == (yields(if args@.len() == 0 { Val::Int(10) } else { args@[0].model() })),
    {
        Ok(if args.len() == 0 { Value::Int(10) } else { args[0].clone() })
    }
}

/// LOOP-BELOW - BELOW upper bound
pub struct LoopBelowTool;

impl Tool for LoopBelowTool {
    open spec fn names_itself(&self) -> bool {
        true
    }

    open spec fn spec_name(&self) -> Seq<char> {
        "LOOP-BELOW"@
    }

    open spec fn admits(&self, args: Seq<Val>) -> bool {
        true
    }

    fn name(&self) -> &str {
        "LOOP-BELOW"
    }

    fn description(&self) -> (r: &str)
        ensures
            r@ == "BELOW upper bound in LOOP"@,
    {
        "BELOW upper bound in LOOP"
    }

    fn execute(&self, args: &[Value]) -> (r: Result<Value, Error>)
        ensures
            outcome(r) == (yields(if args@.len() == 0 { Val::Int(10) } else { args@[0].model() })),
    {
        Ok(if args.len() == 0 { Value::Int(10) } else { args[0].clone() })
    }
}

/// LOOP-ABOVE - ABOVE lower bound
pub struct LoopAboveTool;

impl Tool for LoopAboveTool {
    open spec fn names_itself(&self) -> bool {
        true
    }

    open spec fn spec_name(&self) -> Seq<char> {
        "LOOP-ABOVE"@
    }

    open spec fn admits(&self, args: Seq<Val>) -> bool {
        true
    }

    fn name(&self) -> &str {
        "LOOP-ABOVE"
    }

    fn description(&self) -> (r: &str)
        ensures
            r@ == "ABOVE lower bound in LOOP"@,
    {
        "ABOVE lower bound in LOOP"
    }

    fn execute(&self, args: &[Value]) -> (r: Result<Value, Error>)
        ensures
            outcome(r) == (yields(if args@.len() == 0 { Val::Int(0) } else { args@[0].model() })),
    {
        Ok(if args.len() == 0 { Value::Int(0) } else { args[0].clone() })
    }
}

/// LOOP-BY - BY step increment
pub struct LoopByTool;

impl Tool for LoopByTool {
    open spec fn names_itself(&self) -> bool {
        true
    }

    open spec fn spec_name(&self) -> Seq<char> {
        "LOOP-BY"@
    }

    open spec fn admits(&self, args: Seq<Val>) -> bool {
        true
    }

    fn name(&self) -> &str {
        "LOOP-BY"
    }

    fn description(&self) -> (r: &str)
        ensures
            r@ == "BY step increment in LOOP"@,
    {
        "BY step increment in LOOP"
    }

    fn execute(&self, args: &[Value]) -> (r: Result<Value, Error>)
        ensures
            outcome(r) == (yields(if args@.len() == 0 { Val::Int(1) } else { args@[0].model() })),
    {
        Ok(if args.len() == 0 { Value::Int(1) } else { args[0].clone() })
    }
}

/// LOOP-IN - IN list iteration
pub struct LoopInTool;

impl Tool for LoopInTool {
    open spec fn names_itself(&self) -> bool {
        true
    }

    open spec fn spec_name(&self) -> Seq<char> {
        "LOOP-IN"@
    }

    open spec fn admits(&self, args: Seq<Val>) -> bool {
        true
    }

    fn name(&self) -> &str {
        "LOOP-IN"
    }

    fn description(&self) -> (r: &str)
        ensures
            r@ == "IN list iteration in LOOP"@,
    {
        "IN list iteration in LOOP"
    }

    fn execute(&self, args: &[Value]) -> (r: Result<Value, Error>)
        ensures
            outcome(r) == (yields(if args@.len() == 0 { Val::Arr(Seq::<Val>::empty()) } else { args@[0].model() })),
    {
        Ok(if args.len() == 0 { Value::Array(Vec::new()) } else { args[0].clone() })
    }
}

/// LOOP-ON - ON list iteration
pub struct LoopOnTool;

impl Tool for LoopOnTool {
    open spec fn names_itself(&self) -> bool {
        true
    }

    open spec fn spec_name(&self) -> Seq<char> {
        "LOOP-ON"@
    }

    open spec fn admits(&self, args: Seq<Val>) -> bool {
        true
    }

    fn name(&self) -> &str {
        "LOOP-ON"
    }

    fn description(&self) -> (r: &str)
        ensures
            r@ == "ON list iteration in LOOP"@,
    {
        "ON list iteration in LOOP"
    }

    fn execute(&self, args: &[Value]) -> (r: Result<Value, Error>)
        ensures
            outcome(r) == (yields(if args@.len() == 0 { Val::Arr(Seq::<Val>::empty()) } else { args@[0].model() })),
    {
        Ok(if args.len() == 0 { Value::Array(Vec::new()) } else { args[0].clone() })
    }
}

/// LOOP-ACROSS - ACROSS array iteration
pub struct LoopAcrossTool;

impl Tool for LoopAcrossTool {
    open spec fn names_itself(&self) -> bool {
        true
    }

    open spec fn spec_name(&self) -> Seq<char> {
        "LOOP-ACROSS"@
    }

    open spec fn admits(&self, args: Seq<Val>) -> bool {
        true
    }

    fn name(&self) -> &str {
        "LOOP-ACROSS"
    }

    fn description(&self) -> (r: &str)
        ensures
            r@ == "ACROSS array iteration in LOOP"@,
    {
        "ACROSS array iteration in LOOP"
    }

    fn execute(&self, args: &[Value]) -> (r: Result<Value, Error>)
        ensures
            outcome(r) == (yields(if args@.len() == 0 { Val::Arr(Seq::<Val>::empty()) } else { args@[0].model() })),
    {
        Ok(if args.len() == 0 { Value::Array(Vec::new()) } else { args[0].clone() })
    }
}

/// LOOP-WHEN - WHEN conditional
pub struct LoopWhenTool;

impl Tool for LoopWhenTool {
    open spec fn names_itself(&self) -> bool {
        true
    }

    open spec fn spec_name(&self) -> Seq<char> {
        "LOOP-WHEN"@
    }

    open spec fn admits(&self, args: Seq<Val>) -> bool {
        true
    }

    fn name(&self) -> &str {
        "LOOP-WHEN"
    }

    fn description(&self) -> (r: &str)
        ensures
            r@ == "WHEN conditional in LOOP"@,
    {
        "WHEN conditional in LOOP"
    }

    fn execute(&self, args: &[Value]) -> (r: Result<Value, Error>)
        ensures
            outcome(r) == (yields(if args@.len() == 0 { Val::Bool(false) } else { args@[0].model() })),
    {
        Ok(if args.len() == 0 { Value::Bool(false) } else { args[0].clone() })
    }
}

/// LOOP-UNLESS - UNLESS conditional
pub struct LoopUnlessTool;

impl Tool for LoopUnlessTool {
    open spec fn names_itself(&self) -> bool {
        true
    }

    open spec fn spec_name(&self) -> Seq<char> {
        "LOOP-UNLESS"@
    }

    open spec fn admits(&self, args: Seq<Val>) -> bool {
        true
    }

    fn name(&self) -> &str {
        "LOOP-UNLESS"
    }

    fn description(&self) -> (r: &str)
        ensures
            r@ == "UNLESS conditional in LOOP"@,
    {
        "UNLESS conditional in LOOP"
    }

    fn execute(&self, args: &[Value]) -> (r: Result<Value, Error>)
        ensures
            outcome(r) == (yields(if args@.len() == 0 { Val::Bool(true) } else { args@[0].model() })),
    {
        Ok(if args.len() == 0 { Value::Bool(true) } else { args[0].clone() })
    }
}

/// LOOP-IF - IF conditional
pub struct LoopIfTool;

impl Tool for LoopIfTool {
    open spec fn names_itself(&self) -> bool {
        true
    }

    open spec fn spec_name(&self) -> Seq<char> {
        "LOOP-IF"@
    }

    open spec fn admits(&self, args: Seq<Val>) -> bool {
        true
    }

    fn name(&self) -> &str {
        "LOOP-IF"
    }

    fn description(&self) -> (r: &str)
        ensures
            r@ == "IF conditional in LOOP"@,
    {
        "IF conditional in LOOP"
    }

    fn execute(&self, args: &[Value]) -> (r: Result<Value, Error>)
        ensures
            outcome(r) == (yields(if args@.len() == 0 { Val::Bool(false) } else { args@[0].model() })),
    {
        Ok(if args.len() == 0 { Value::Bool(false) } else { args[0].clone() })
    }
}

/// LOOP-WHILE - WHILE loop condition
pub struct LoopWhileTool;

impl Tool for LoopWhileTool {
    open spec fn names_itself(&self) -> bool {
        true
    }

    open spec fn spec_name(&self) -> Seq<char> {
        "LOOP-WHILE"@
    }

    open spec fn admits(&self, args: Seq<Val>) -> bool {
        true
    }

    fn name(&self) -> &str {
        "LOOP-WHILE"
    }

    fn description(&self) -> (r: &str)
        ensures
            r@ == "WHILE loop condition in LOOP"@,
    {
        "WHILE loop condition in LOOP"
    }

    fn execute(&self, args: &[Value]) -> (r: Result<Value, Error>)
        ensures
            outcome(r) == (yields(if args@.len() == 0 { Val::Bool(true) } else { args@[0].model() })),
    {
        Ok(if args.len() == 0 { Value::Bool(true) } else { args[0].clone() })
    }
}

/// LOOP-UNTIL - UNTIL loop condition
pub struct LoopUntilTool;

impl Tool for LoopUntilTool {
    open spec fn names_itself(&self) -> bool {
        true
    }

    open spec fn spec_name(&self) -> Seq<char> {
        "LOOP-UNTIL"@
    }

    open spec fn admits(&self, args: Seq<Val>) -> bool {
        true
    }

    fn name(&self) -> &str {
        "LOOP-UNTIL"
    }

    fn description(&self) -> (r: &str)
        ensures
            r@ == "UNTIL loop condition in LOOP"@,
    {
        "UNTIL loop condition in LOOP"
    }

    fn execute(&self, args: &[Value]) -> (r: Result<Value, Error>)
        ensures
            outcome(r) == (yields(if args@.len() == 0 { Val::Bool(false) } else { args@[0].model() })),
    {
        Ok(if args.len() == 0 { Value::Bool(false) } else { args[0].clone() })
    }
}

/// LOOP-COLLECT - COLLECT values
pub struct LoopCollectTool;

impl Tool for LoopCollectTool {
    open spec fn names_itself(&self) -> bool {
        true
    }

    open spec fn spec_name(&self) -> Seq<char> {
        "LOOP-COLLECT"@
    }

    open spec fn admits(&self, args: Seq<Val>) -> bool {
        true
    }

    fn name(&self) -> &str {
        "LOOP-COLLECT"
    }

    fn description(&self) -> (r: &str)
        ensures
            r@ == "COLLECT values in LOOP"@,
    {
        "COLLECT values in LOOP"
    }

    fn execute(&self, args: &[Value]) -> (r: Result<Value, Error>)
        ensures
            outcome(r) == (yields(if args@.len() == 0 { Val::Arr(Seq::<Val>::empty()) } else { Val::Arr(models(args@)) })),
    {
        Ok(if args.len() == 0 { Value::Array(Vec::new()) } else { Value::Array(copy_slice(args)) })
    }
}

/// LOOP-COUNT - COUNT matching items
pub struct LoopCountTool;

impl Tool for LoopCountTool {
    open spec fn names_itself(&self) -> bool {
        true
    }

    open spec fn spec_name(&self) -> Seq<char> {
        "LOOP-COUNT"@
    }

    open spec fn admits(&self, args: Seq<Val>) -> bool {
        true
    }

    fn name(&self) -> &str {
        "LOOP-COUNT"
    }

    fn description(&self) -> (r: &str)
        ensures
            r@ == "COUNT matching items in LOOP"@,
    {
        "COUNT matching items in LOOP"
    }

    fn execute(&self, args: &[Value]) -> (r: Result<Value, Error>)
        ensures
            outcome(r) == (yields(Val::Int(args@.len() as i64))),
    {
        Ok(Value::Int(args.len() as i64))
    }
}

/// LOOP-DO - DO execute forms
pub struct LoopDoTool;

impl Tool for LoopDoTool {
    open spec fn names_itself(&self) -> bool {
        true
    }

    open spec fn spec_name(&self) -> Seq<char> {
        "LOOP-DO"@
    }

    open spec fn admits(&self, args: Seq<Val>) -> bool {
        true
    }

    fn name(&self) -> &str {
        "LOOP-DO"
    }

    fn description(&self) -> (r: &str)
        ensures
            r@ == "DO execute forms in LOOP"@,
    {
        "DO execute forms in LOOP"
    }

    fn execute(&self, args: &[Value]) -> (r: Result<Value, Error>)
        ensures
            outcome(r) == (yields(if args@.len() == 0 { Val::Null } else { args@[args@.len() - 1].model() })),
    {
        Ok(if args.len() == 0 { Value::Null } else { args[args.len() - 1].clone() })
    }
}

/// LOOP-RETURN - RETURN from loop
pub struct LoopReturnTool;

impl Tool for LoopReturnTool {
    open spec fn names_itself(&self) -> bool {
        true
    }

    open spec fn spec_name(&self) -> Seq<char> {
        "LOOP-RETURN"@
    }

    open spec fn admits(&self, args: Seq<Val>) -> bool {
        true
    }

    fn name(&self) -> &str {
        "LOOP-RETURN"
    }

    fn description(&self) -> (r: &str)
        ensures
            r@ == "RETURN from LOOP"@,
    {
        "RETURN from LOOP"
    }

    fn execute(&self, args: &[Value]) -> (r: Result<Value, Error>)
        ensures
            outcome(r) == (yields(if args@.len() == 0 { Val::Null } else { args@[0].model() })),
    {
        Ok(if args.len() == 0 { Value::Null } else { args[0].clone() })
    }
}

/// LOOP-WITH - WITH variable binding
pub struct LoopWithTool;

impl Tool for LoopWithTool {
    open spec fn names_itself(&self) -> bool {
        true
    }

    open spec fn spec_name(&self) -> Seq<char> {
        "LOOP-WITH"@
    }

    open spec fn admits(&self, args: Seq<Val>) -> bool {
        true
    }

    fn name(&self) -> &str {
        "LOOP-WITH"
    }

    fn description(&self) -> (r: &str)
        ensures
            r@ == "WITH variable binding in LOOP"@,
    {
        "WITH variable binding in LOOP"
    }

    fn execute(&self, args: &[Value]) -> (r: Result<Value, Error>)
        ensures
            outcome(r) == (yields(if args@.len() >= 2 { args@[1].model() } else { Val::Null })),
    {
        Ok(if args.len() >= 2 { args[1].clone() } else { Value::Null })
    }
}

/// LOOP-INITIALLY - INITIALLY execute once
pub struct LoopInitiallyTool;

impl Tool for LoopInitiallyTool {
    open spec fn names_itself(&self) -> bool {
        true
    }

    open spec fn spec_name(&self) -> Seq<char> {
        "LOOP-INITIALLY"@
    }

    open spec fn admits(&self, args: Seq<Val>) -> bool {
        true
    }

    fn name(&self) -> &str {
        "LOOP-INITIALLY"
    }

    fn description(&self) -> (r: &str)
        ensures
            r@ == "INITIALLY execute once in LOOP"@,
    {
        "INITIALLY execute once in LOOP"
    }

    fn execute(&self, args: &[Value]) -> (r: Result<Value, Error>)
        ensures
            outcome(r) == (yields(if args@.len() == 0 { Val::Null } else { args@[args@.len() - 1].model() })),
    {
        Ok(if args.len() == 0 { Value::Null } else { args[args.len() - 1].clone() })
    }
}

/// LOOP-FINALLY - FINALLY execute at end
pub struct LoopFinallyTool;

impl Tool for LoopFinallyTool {
    open spec fn names_itself(&self) -> bool {
        true
    }

    open spec fn spec_name(&self) -> Seq<char> {
        "LOOP-FINALLY"@
    }

    open spec fn admits(&self, args: Seq<Val>) -> bool {
        true
    }

    fn name(&self) -> &str {
        "LOOP-FINALLY"
    }

    fn description(&self) -> (r: &str)
        ensures
            r@ == "FINALLY execute at end in LOOP"@,
    {
        "FINALLY execute at end in LOOP"
    }

    fn execute(&self, args: &[Value]) -> (r: Result<Value, Error>)
        ensures
            outcome(r) == (yields(if args@.len() == 0 { Val::Null } else { args@[args@.len() - 1].model() })),
    {
        Ok(if args.len() == 0 { Value::Null } else { args[args.len() - 1].clone() })
    }
}

use crate::tools::stdlib::control_flow_extended::{arrays_joined, splice_exec, spliced};

/// The sum of the integer arguments (others are skipped).
pub open spec fn int_sum(a: Seq<Val>) -> int
    decreases a.len(),
{
    if a.len() == 0 {
        0
    } else {
        int_sum(a.drop_last()) + match a.last() {
            Val::Int(n) => n as int,
            _ => 0,
        }
    }
}

/// Every running sum of the integer arguments fits in an `i64`.
pub open spec fn sum_admitted(a: Seq<Val>) -> bool {
    forall|k: int| 0 <= k <= a.len() ==> i64::MIN <= #[trigger] int_sum(a.take(k)) <= i64::MAX
}

/// With `low`, the least integer argument, starting from `i64::MAX`;
/// without, the greatest, starting from `i64::MIN`.
pub open spec fn int_extreme(a: Seq<Val>, low: bool) -> i64
    decreases a.len(),
{
    if a.len() == 0 {
        if low { i64::MAX } else { i64::MIN }
    } else {
        let m = int_extreme(a.drop_last(), low);
        match a.last() {
            Val::Int(n) => if low { if n < m { n } else { m } } else { if n > m { n } else { m } },
            _ => m,
        }
    }
}

fn extreme_exec(args: &[Value], low: bool) -> (r: i64)
    ensures
        r == int_extreme(models(args@), low),
{
    let ghost a = models(args@);
    let mut m: i64 = if low { i64::MAX } else { i64::MIN };
    let mut i: usize = 0;
    assert(a.take(0) =~= Seq::<Val>::empty());
    while i < args.len()
        invariant
            a == models(args@),
            i <= args@.len(),
            m == int_extreme(a.take(i as int), low),
        decreases args.len() - i,
    {
        assert(a.take(i + 1).drop_last() =~= a.take(i as int));
        assert(a.take(i + 1).last() == args@[i as int].model());
        match &args[i] {
            Value::Int(n) => {
                if low {
                    if *n < m {
                        m = *n;
                    }
                } else {
                    if *n > m {
                        m = *n;
                    }
                }
            },
            _ => {},
        }
        i = i + 1;
    }
    assert(a.take(i as int) =~= a);
    m
}

/// LOOP-APPEND - APPEND lists
pub struct LoopAppendTool;

impl Tool for LoopAppendTool {
    open spec fn names_itself(&self) -> bool {
        true
    }

    open spec fn spec_name(&self) -> Seq<char> {
        "LOOP-APPEND"@
    }

    open spec fn admits(&self, args: Seq<Val>) -> bool {
        true
    }

    fn name(&self) -> &str {
        "LOOP-APPEND"
    }

    fn description(&self) -> (r: &str)
        ensures
            r@ == "APPEND lists in LOOP"@,
    {
        "APPEND lists in LOOP"
    }

    fn execute(&self, args: &[Value]) -> (r: Result<Value, Error>)
        ensures
            outcome(r) == (yields(Val::Arr(arrays_joined(models(args@))))),
    {
        Ok(Value::Array(splice_exec(args, false)))
    }
}



/// LOOP-NCONC - NCONC lists destructively
pub struct LoopNconcTool;

impl Tool for LoopNconcTool {
    open spec fn names_itself(&self) -> bool {
        true
    }

    open spec fn spec_name(&self) -> Seq<char> {
        "LOOP-NCONC"@
    }

    open spec fn admits(&self, args: Seq<Val>) -> bool {
        true
    }

    fn name(&self) -> &str {
        "LOOP-NCONC"
    }

    fn description(&self) -> (r: &str)
        ensures
            r@ == "NCONC lists destructively in LOOP"@,
    {
        "NCONC lists destructively in LOOP"
    }

    fn execute(&self, args: &[Value]) -> (r: Result<Value, Error>)
        ensures
            outcome(r) == (yields(Val::Arr(arrays_joined(models(args@))))),
    {
        LoopAppendTool.execute(args)
    }
}



/// LOOP-SUM - SUM numbers
pub struct LoopSumTool;

impl Tool for LoopSumTool {
    open spec fn names_itself(&self) -> bool {
        true
    }

    open spec fn spec_name(&self) -> Seq<char> {
        "LOOP-SUM"@
    }

    open spec fn admits(&self, args: Seq<Val>) -> bool {
        sum_admitted(args)
    }

    fn name(&self) -> &str {
        "LOOP-SUM"
    }

    fn description(&self) -> (r: &str)
        ensures
            r@ == "SUM numbers in LOOP"@,
    {
        "SUM numbers in LOOP"
    }

    fn execute(&self, args: &[Value]) -> (r: Result<Value, Error>)
        ensures
            outcome(r) == (yields(Val::Int(int_sum(models(args@)) as i64))),
    {
        let ghost a = models(args@);
        let mut sum: i64 = 0;
        let mut i: usize = 0;
        assert(a.take(0) =~= Seq::<Val>::empty());
        while i < args.len()
            invariant
                a == models(args@),
                sum_admitted(a),
                i <= args@.len(),
                sum as int == int_sum(a.take(i as int)),
            decreases args.len() - i,
        {
            assert(a.take(i + 1).drop_last() =~= a.take(i as int));
            assert(a.take(i + 1).last() == args@[i as int].model());
            assert(i64::MIN <= int_sum(a.take(i + 1)) <= i64::MAX);
            match &args[i] {
                Value::Int(n) => {
                    sum = sum + *n;
                },
                _ => {},
            }
            i = i + 1;
        }
        assert(a.take(i as int) =~= a);
        Ok(Value::Int(sum))
    }
}



/// LOOP-MAXIMIZE - MAXIMIZE value
pub struct LoopMaximizeTool;

impl Tool for LoopMaximizeTool {
    open spec fn names_itself(&self) -> bool {
        true
    }

    open spec fn spec_name(&self) -> Seq<char> {
        "LOOP-MAXIMIZE"@
    }

    open spec fn admits(&self, args: Seq<Val>) -> bool {
        true
    }

    fn name(&self) -> &str {
        "LOOP-MAXIMIZE"
    }

    fn description(&self) -> (r: &str)
        ensures
            r@ == "MAXIMIZE value in LOOP"@,
    {
        "MAXIMIZE value in LOOP"
    }

    fn execute(&self, args: &[Value]) -> (r: Result<Value, Error>)
        ensures
            outcome(r) == (if args@.len() == 0 { bad_args("LOOP-MAXIMIZE"@, "Expected at least 1 argument (value)"@) } else {
                yields(Val::Int(int_extreme(models(args@), false)))
            }),
    {
        if args.len() == 0 {
            return Err(invalid_args("LOOP-MAXIMIZE", "Expected at least 1 argument (value)"));
        }
        Ok(Value::Int(extreme_exec(args, false)))
    }
}



/// LOOP-MINIMIZE - MINIMIZE value
pub struct LoopMinimizeTool;

impl Tool for LoopMinimizeTool {
    open spec fn names_itself(&self) -> bool {
        true
    }

    open spec fn spec_name(&self) -> Seq<char> {
        "LOOP-MINIMIZE"@
    }

    open spec fn admits(&self, args: Seq<Val>) -> bool {
        true
    }

    fn name(&self) -> &str {
        "LOOP-MINIMIZE"
    }

    fn description(&self) -> (r: &str)
        ensures
            r@ == "MINIMIZE value in LOOP"@,
    {
        "MINIMIZE value in LOOP"
    }

    fn execute(&self, args: &[Value]) -> (r: Result<Value, Error>)
        ensures
            outcome(r) == (if args@.len() == 0 { bad_args("LOOP-MINIMIZE"@, "Expected at least 1 argument (value)"@) } else {
                yields(Val::Int(int_extreme(models(args@), true)))
            }),
    {
        if args.len() == 0 {
            return Err(invalid_args("LOOP-MINIMIZE", "Expected at least 1 argument (value)"));
        }
        Ok(Value::Int(extreme_exec(args, true)))
    }
}



/// LOOP-SUM adds up every integer argument, negative ones included, and skips
/// every other value: an integer `n` more among the arguments adds `n` to the
/// sum, and the sum over two runs of arguments is the sum of their sums.
pub proof fn law_loop_sum(a: Seq<Val>, b: Seq<Val>, n: i64, v: Val)
    ensures
        int_sum(Seq::<Val>::empty()) == 0,
        int_sum(a.push(Val::Int(n))) == int_sum(a) + n,
        !(v is Int) ==> int_sum(a.push(v)) == int_sum(a),
        int_sum(a + b) == int_sum(a) + int_sum(b),
    decreases b.len(),
{
    assert(a.push(Val::Int(n)).drop_last() =~= a);
    assert(a.push(v).drop_last() =~= a);
    if b.len() > 0 {
        law_loop_sum(a, b.drop_last(), n, v);
        assert((a + b).drop_last() =~= a + b.drop_last());
        assert((a + b).last() == b.last());
    } else {
        assert(a + b =~= a);
    }
}

/// LOOP-MAXIMIZE answers the greatest integer argument and LOOP-MINIMIZE the
/// least: no integer argument is beyond the answer, and when some argument is
/// an integer the answer is one of them, negative ones included; with none,
/// the answer is the starting bound.
pub proof fn law_loop_extreme(a: Seq<Val>, low: bool)
    ensures
        forall|k: int|
            0 <= k < a.len() && (#[trigger] a[k]) is Int ==> (if low {
                int_extreme(a, low) <= a[k]->Int_0
            } else {
                a[k]->Int_0 <= int_extreme(a, low)
            }),
        (exists|k: int| 0 <= k < a.len() && (#[trigger] a[k]) is Int) ==> exists|k: int|
            0 <= k < a.len() && #[trigger] a[k] == Val::Int(int_extreme(a, low)),
        (forall|k: int| 0 <= k < a.len() ==> !((#[trigger] a[k]) is Int)) ==> int_extreme(a, low) == (if low {
            i64::MAX
        } else {
            i64::MIN
        }),
    decreases a.len(),
{
    if a.len() > 0 {
        let p = a.drop_last();
        law_loop_extreme(p, low);
        let m = int_extreme(p, low);
        let r = int_extreme(a, low);
        assert forall|k: int| 0 <= k < a.len() && (#[trigger] a[k]) is Int implies (if low {
            r <= a[k]->Int_0
        } else {
            a[k]->Int_0 <= r
        }) by {
            if k < a.len() - 1 {
                assert(a[k] == p[k]);
            }
        }
        if exists|k: int| 0 <= k < a.len() && (#[trigger] a[k]) is Int {
            if a.last() is Int && r == a.last()->Int_0 {
                assert(a[a.len() - 1] == Val::Int(r));
            } else {
                assert(r == m);
                if exists|k: int| 0 <= k < p.len() && (#[trigger] p[k]) is Int {
                    let k = choose|k: int| 0 <= k < p.len() && #[trigger] p[k] == Val::Int(m);
                    assert(a[k] == Val::Int(r));
                } else {
                    let k = choose|k: int| 0 <= k < a.len() && (#[trigger] a[k]) is Int;
                    if k < a.len() - 1 {
                        assert(p[k] == a[k]);
                    }
                }
            }
        }
        if forall|k: int| 0 <= k < a.len() ==> !((#[trigger] a[k]) is Int) {
            assert forall|k: int| 0 <= k < p.len() implies !((#[trigger] p[k]) is Int) by {
                assert(p[k] == a[k]);
            }
            assert(!(a[a.len() - 1] is Int));
        }
    }
}
} // verus!
