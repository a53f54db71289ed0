//! Numeric comparison and conversion tools - Common Lisp compatible
use vstd::prelude::*;

#[allow(unused_imports)]
use crate::access::{copy_range, copy_slice, copy_values, values_equal};
#[allow(unused_imports)]
use crate::error::{empty_collection, exec_error, invalid_args, ErrV, Error};
#[allow(unused_imports)]
use crate::text::{alphabetic, alphanumeric, char_from_u32, char_is_alphabetic, char_is_alphanumeric, char_is_lowercase, char_is_uppercase, char_is_whitespace, char_string, char_to_lowercase, char_to_uppercase, chars_of, chars_skip, concat, i64_to_string, int_decimal, lower_case, lower_chars, lowercase, owned, scalar_value, seq_less, str_equal, str_less, string_from_chars, to_lower, to_upper, upper_case, upper_chars, uppercase, whitespace};
#[allow(unused_imports)]
use crate::tools::{bad_args, name_insert, outcome, ref_outcome, string_views, yields, Tool, ToolRegistry};
#[allow(unused_imports)]
use crate::value::{and_then, elems, entry_models, int_of, models, obj_insert, obj_keys, obj_lookup, obj_merge, obj_of, obj_values, str_of, truthy, type_error, ObjectMap, Val, Value};

verus! {

broadcast use crate::seq_models::group_value_models;

/// The names after registering this module's tools, in order.
pub open spec fn registered_names(ns: Seq<Seq<char>>) -> Seq<Seq<char>> {
    let ns = name_insert(ns, "="@);
    let ns = name_insert(ns, "/="@);
    let ns = name_insert(ns, "<"@);
    let ns = name_insert(ns, "<="@);
    let ns = name_insert(ns, ">"@);
    let ns = name_insert(ns, ">="@);
    let ns = name_insert(ns, "MINIMUM"@);
    let ns = name_insert(ns, "MAXIMUM"@);
    let ns = name_insert(ns, "FLOAT"@);
    let ns = name_insert(ns, "FLOOR"@);
    let ns = name_insert(ns, "CEILING"@);
    let ns = name_insert(ns, "ROUND"@);
    let ns = name_insert(ns, "RATIONALIZE"@);
    let ns = name_insert(ns, "NEGATE"@);
    let ns = name_insert(ns, "COERCE"@);
    let ns = name_insert(ns, "PARSE-NUMBER"@);
    let ns = name_insert(ns, "READ-FROM-STRING"@);
    let ns = name_insert(ns, "WRITE-TO-STRING"@);
    let ns = name_insert(ns, "PRINC-TO-STRING"@);
    let ns = name_insert(ns, "INCF"@);
    let ns = name_insert(ns, "DECF"@);
    let ns = name_insert(ns, "1+"@);
    let ns = name_insert(ns, "1-"@);
    let ns = name_insert(ns, "RECIPROCAL"@);
    ns
}

/// Register the tools of this module: those the library holds, then those
/// the application supplies, each under its name: `coerce_tool` under COERCE, `parse_number_tool` under PARSE-NUMBER, `read_from_string_tool` under READ-FROM-STRING, `write_to_string_tool` under WRITE-TO-STRING, `princ_to_string_tool` under PRINC-TO-STRING, `incf_tool` under INCF, `decf_tool` under DECF, `one_plus_tool` under 1+, `one_minus_tool` under 1-, `reciprocal_tool` under RECIPROCAL.
pub fn register<TCoerce: Tool + 'static, TParseNumber: Tool + 'static, TReadFromString: Tool + 'static, TWriteToString: Tool + 'static, TPrincToString: Tool + 'static, TIncf: Tool + 'static, TDecf: Tool + 'static, TOnePlus: Tool + 'static, TOneMinus: Tool + 'static, TReciprocal: Tool + 'static>(registry: &mut ToolRegistry, coerce_tool: TCoerce, parse_number_tool: TParseNumber, read_from_string_tool: TReadFromString, write_to_string_tool: TWriteToString, princ_to_string_tool: TPrincToString, incf_tool: TIncf, decf_tool: TDecf, one_plus_tool: TOnePlus, one_minus_tool: TOneMinus, reciprocal_tool: TReciprocal)
    requires
        coerce_tool.names_itself() ==> coerce_tool.spec_name() == "COERCE"@,
        parse_number_tool.names_itself() ==> parse_number_tool.spec_name() == "PARSE-NUMBER"@,
        read_from_string_tool.names_itself() ==> read_from_string_tool.spec_name() == "READ-FROM-STRING"@,
        write_to_string_tool.names_itself() ==> write_to_string_tool.spec_name() == "WRITE-TO-STRING"@,
        princ_to_string_tool.names_itself() ==> princ_to_string_tool.spec_name() == "PRINC-TO-STRING"@,
        incf_tool.names_itself() ==> incf_tool.spec_name() == "INCF"@,
        decf_tool.names_itself() ==> decf_tool.spec_name() == "DECF"@,
        one_plus_tool.names_itself() ==> one_plus_tool.spec_name() == "1+"@,
        one_minus_tool.names_itself() ==> one_minus_tool.spec_name() == "1-"@,
        reciprocal_tool.names_itself() ==> reciprocal_tool.spec_name() == "RECIPROCAL"@,
    ensures
        final(registry).names() == registered_names(old(registry).names()),
{
    registry.register(NumEqualTool);
    registry.register(NumNotEqualTool);
    registry.register(NumLessTool);
    registry.register(NumLessEqualTool);
    registry.register(NumGreaterTool);
    registry.register(NumGreaterEqualTool);
    registry.register(MinimumTool);
    registry.register(MaximumTool);
    registry.register(FloatTool);
    registry.register(FloorTool);
    registry.register(CeilingTool);
    registry.register(RoundTool);
    registry.register(RationalizeTool);
    registry.register(NegateTool);
    registry.place(owned("COERCE"), coerce_tool);
    registry.place(owned("PARSE-NUMBER"), parse_number_tool);
    registry.place(owned("READ-FROM-STRING"), read_from_string_tool);
    registry.place(owned("WRITE-TO-STRING"), write_to_string_tool);
    registry.place(owned("PRINC-TO-STRING"), princ_to_string_tool);
    registry.place(owned("INCF"), incf_tool);
    registry.place(owned("DECF"), decf_tool);
    registry.place(owned("1+"), one_plus_tool);
    registry.place(owned("1-"), one_minus_tool);
    registry.place(owned("RECIPROCAL"), reciprocal_tool);
}

/// RATIONALIZE - Convert to rational (returns float in Solisp)
pub struct RationalizeTool;

impl Tool for RationalizeTool {
    open spec fn names_itself(&self) -> bool {
        true
    }

    open spec fn spec_name(&self) -> Seq<char> {
        "RATIONALIZE"@
    }

    open spec fn admits(&self, args: Seq<Val>) -> bool {
        true
    }

    fn name(&self) -> &str {
        "RATIONALIZE"
    }

    fn description(&self) -> (r: &str)
        ensures
            r@ == "Convert to rational representation (returns value in Solisp)"@,
    {
        "Convert to rational representation (returns value in Solisp)"
    }

    fn execute(&self, args: &[Value]) -> (r: Result<Value, Error>)
        ensures
            outcome(r) == (if args@.len() == 0 { bad_args("RATIONALIZE"@, "Expected numeric argument"@) } else { yields(args@[0].model()) }),
    {
        if args.len() == 0 {
            return Err(invalid_args("RATIONALIZE", "Expected numeric argument"));
        }
        Ok(args[0].clone())
    }
}

use crate::tools::stdlib::strings::{char_values, char_values_exec};
use crate::value::kind_name_of;
use crate::float_bits::{
    law_int_float_round_trip, float_is_nan, ceil_to_i64, ceil_to_i64_exec, float_eq, float_eq_exec, float_le, float_le_exec, float_lt, float_lt_exec, float_to_i64,
    float_to_i64_exec, floor_to_i64, floor_to_i64_exec, number_bits, number_bits_exec, round_to_i64, round_to_i64_exec,
};

/// NEGATE on an integer argument needs its negation to fit in `i64`.
pub open spec fn negate_admitted(args: Seq<Val>) -> bool {
    args.len() > 0 && args[0] is Int ==> args[0]->Int_0 != i64::MIN
}

/// The bits of the negation of the `f64` with bit pattern `b`: the sign bit flipped.
pub open spec fn negated_bits(b: u64) -> u64 {
    b ^ 0x8000_0000_0000_0000u64
}

/// - (negation when single arg)
pub struct NegateTool;

impl Tool for NegateTool {
    open spec fn names_itself(&self) -> bool {
        true
    }

    open spec fn spec_name(&self) -> Seq<char> {
        "NEGATE"@
    }

    open spec fn admits(&self, args: Seq<Val>) -> bool {
        negate_admitted(args)
    }

    fn name(&self) -> &str {
        "NEGATE"
    }

    fn description(&self) -> (r: &str)
        ensures
            r@ == "Negate number (return -x)"@,
    {
        "Negate number (return -x)"
    }

    fn execute(&self, args: &[Value]) -> (r: Result<Value, Error>)
        ensures
            outcome(r) == (if args@.len() == 0 { bad_args("NEGATE"@, "Expected numeric argument"@) } else {
                match models(args@)[0] {
                    Val::Int(n) => yields(Val::Int((-n) as i64)),
                    Val::Float(b) => yields(Val::Float(negated_bits(b))),
                    v => Err(type_error("number"@, v)),
                }
            }),
    {
        if args.len() == 0 {
            return Err(invalid_args("NEGATE", "Expected numeric argument"));
        }
        match &args[0] {
            Value::Int(n) => Ok(Value::Int(-*n)),
            Value::Float(b) => Ok(Value::Float(*b ^ 0x8000_0000_0000_0000u64)),
            _ => Err(Error::TypeError { expected: owned("number"), got: args[0].kind_name() }),
        }
    }
}



/// The float that a one-number tool reads from its first argument, or the
/// error: none given, or not a number.
pub open spec fn float_arg(tool: Seq<char>, a: Seq<Val>) -> Result<u64, ErrV> {
    if a.len() == 0 {
        Err(ErrV::InvalidArguments { tool, reason: "Expected numeric argument"@ })
    } else {
        number_bits(a[0])
    }
}

/// The first argument of a one-number tool, as the bits of a float.
pub(crate) fn float_arg_exec(tool: &str, args: &[Value]) -> (r: Result<u64, Error>)
    ensures
        match r {
            Ok(b) => float_arg(tool@, models(args@)) == Ok::<u64, ErrV>(b),
            Err(e) => float_arg(tool@, models(args@)) == Err::<u64, ErrV>(e@),
        },
{
    if args.len() == 0 {
        return Err(invalid_args(tool, "Expected numeric argument"));
    }
    number_bits_exec(&args[0])
}

/// The result of a one-number tool that maps the float it reads by `f`.
pub open spec fn float_map(tool: Seq<char>, a: Seq<Val>, f: spec_fn(u64) -> Val) -> Result<Val, ErrV> {
    match float_arg(tool, a) {
        Err(e) => Err(e),
        Ok(b) => yields(f(b)),
    }
}

/// FLOAT - Convert to float
pub struct FloatTool;

impl Tool for FloatTool {
    open spec fn names_itself(&self) -> bool {
        true
    }

    open spec fn spec_name(&self) -> Seq<char> {
        "FLOAT"@
    }

    open spec fn admits(&self, args: Seq<Val>) -> bool {
        true
    }

    fn name(&self) -> &str {
        "FLOAT"
    }

    fn description(&self) -> (r: &str)
        ensures
            r@ == "Convert number to float"@,
    {
        "Convert number to float"
    }

    fn execute(&self, args: &[Value]) -> (r: Result<Value, Error>)
        ensures
            outcome(r) == (float_map("FLOAT"@, models(args@), |b: u64| Val::Float(b))),
    {
        let b = float_arg_exec("FLOAT", args)?;
        Ok(Value::Float(b))
    }
}



/// FLOOR - Floor and remainder
pub struct FloorTool;

impl Tool for FloorTool {
    open spec fn names_itself(&self) -> bool {
        true
    }

    open spec fn spec_name(&self) -> Seq<char> {
        "FLOOR"@
    }

    open spec fn admits(&self, args: Seq<Val>) -> bool {
        true
    }

    fn name(&self) -> &str {
        "FLOOR"
    }

    fn description(&self) -> (r: &str)
        ensures
            r@ == "Return floor of number (as integer)"@,
    {
        "Return floor of number (as integer)"
    }

    fn execute(&self, args: &[Value]) -> (r: Result<Value, Error>)
        ensures
            outcome(r) == (float_map("FLOOR"@, models(args@), |b: u64| Val::Int(floor_to_i64(b)))),
    {
        let b = float_arg_exec("FLOOR", args)?;
        Ok(Value::Int(floor_to_i64_exec(b)))
    }
}



/// CEILING - Ceiling function
pub struct CeilingTool;

impl Tool for CeilingTool {
    open spec fn names_itself(&self) -> bool {
        true
    }

    open spec fn spec_name(&self) -> Seq<char> {
        "CEILING"@
    }

    open spec fn admits(&self, args: Seq<Val>) -> bool {
        true
    }

    fn name(&self) -> &str {
        "CEILING"
    }

    fn description(&self) -> (r: &str)
        ensures
            r@ == "Return ceiling of number (as integer)"@,
    {
        "Return ceiling of number (as integer)"
    }

    fn execute(&self, args: &[Value]) -> (r: Result<Value, Error>)
        ensures
            outcome(r) == (float_map("CEILING"@, models(args@), |b: u64| Val::Int(ceil_to_i64(b)))),
    {
        let b = float_arg_exec("CEILING", args)?;
        Ok(Value::Int(ceil_to_i64_exec(b)))
    }
}



/// ROUND - Round to nearest integer
pub struct RoundTool;

impl Tool for RoundTool {
    open spec fn names_itself(&self) -> bool {
        true
    }

    open spec fn spec_name(&self) -> Seq<char> {
        "ROUND"@
    }

    open spec fn admits(&self, args: Seq<Val>) -> bool {
        true
    }

    fn name(&self) -> &str {
        "ROUND"
    }

    fn description(&self) -> (r: &str)
        ensures
            r@ == "Round to nearest integer"@,
    {
        "Round to nearest integer"
    }

    fn execute(&self, args: &[Value]) -> (r: Result<Value, Error>)
        ensures
            outcome(r) == (float_map("ROUND"@, models(args@), |b: u64| Val::Int(round_to_i64(b)))),
    {
        let b = float_arg_exec("ROUND", args)?;
        Ok(Value::Int(round_to_i64_exec(b)))
    }
}



/// How the numeric comparisons relate each number to the one they read it against.
pub enum Chain {
    /// `=`: every number equals the first.
    Same,
    /// `<`: each number is greater than the one before.
    Increasing,
    /// `<=`: no number is less than the one before.
    NonDecreasing,
    /// `>`: each number is less than the one before.
    Decreasing,
    /// `>=`: no number is greater than the one before.
    NonIncreasing,
}

/// The comparison finds `curr` out of line with `prev`, as the float
/// comparison of each tool does (a NaN fails every comparison).
pub open spec fn chain_breaks(c: Chain, prev: u64, curr: u64) -> bool {
    match c {
        Chain::Same => !float_eq(curr, prev),
        Chain::Increasing => float_le(curr, prev),
        Chain::NonDecreasing => float_lt(curr, prev),
        Chain::Decreasing => float_le(prev, curr),
        Chain::NonIncreasing => float_lt(prev, curr),
    }
}

fn chain_breaks_exec(c: &Chain, prev: u64, curr: u64) -> (r: bool)
    ensures
        r == chain_breaks(*c, prev, curr),
{
    match c {
        Chain::Same => !float_eq_exec(curr, prev),
        Chain::Increasing => float_le_exec(curr, prev),
        Chain::NonDecreasing => float_lt_exec(curr, prev),
        Chain::Decreasing => float_le_exec(prev, curr),
        Chain::NonIncreasing => float_lt_exec(prev, curr),
    }
}

/// Whether the numbers of `a` from index `i` on keep the chain, each read
/// against `prev` (the first number for `Same`, else the one before). A
/// non-number met before the chain breaks is an error.
pub open spec fn chain_from(c: Chain, a: Seq<Val>, i: int, prev: u64) -> Result<bool, ErrV>
    decreases a.len() - i,
{
    if i < 0 || i >= a.len() {
        Ok(true)
    } else {
        match number_bits(a[i]) {
            Err(e) => Err(e),
            Ok(curr) => if chain_breaks(c, prev, curr) {
                Ok(false)
            } else {
                chain_from(c, a, i + 1, if c is Same { prev } else { curr })
            },
        }
    }
}

/// The result of a numeric comparison over all its arguments.
pub open spec fn chain_result(tool: Seq<char>, c: Chain, a: Seq<Val>) -> Result<Val, ErrV> {
    if a.len() < 2 {
        bad_args(tool, "Expected at least 2 arguments"@)
    } else {
        match number_bits(a[0]) {
            Err(e) => Err(e),
            Ok(first) => match chain_from(c, a, 1, first) {
                Err(e) => Err(e),
                Ok(b) => yields(Val::Bool(b)),
            },
        }
    }
}

fn chain_exec(tool: &str, c: Chain, args: &[Value]) -> (r: Result<Value, Error>)
    ensures
        outcome(r) == chain_result(tool@, c, models(args@)),
{
    if args.len() < 2 {
        return Err(invalid_args(tool, "Expected at least 2 arguments"));
    }
    let first = number_bits_exec(&args[0])?;
    let ghost a = models(args@);
    let mut prev: u64 = first;
    let mut i: usize = 1;
    while i < args.len()
        invariant
            a == models(args@),
            1 <= i <= args@.len(),
            args@.len() >= 2,
            number_bits(a[0]) == Ok::<u64, ErrV>(first),
            chain_from(c, a, 1, first) == chain_from(c, a, i as int, prev),
        decreases args.len() - i,
    {
        assert(a[i as int] == args@[i as int].model());
        let curr = match number_bits_exec(&args[i]) {
            Ok(b) => b,
            Err(e) => {
                return Err(e);
            },
        };
        if chain_breaks_exec(&c, prev, curr) {
            return Ok(Value::Bool(false));
        }
        prev = match c {
            Chain::Same => prev,
            _ => curr,
        };
        i = i + 1;
    }
    Ok(Value::Bool(true))
}

/// = - Numeric equality (variadic)
pub struct NumEqualTool;

impl Tool for NumEqualTool {
    open spec fn names_itself(&self) -> bool {
        true
    }

    open spec fn spec_name(&self) -> Seq<char> {
        "="@
    }

    open spec fn admits(&self, args: Seq<Val>) -> bool {
        true
    }

    fn name(&self) -> &str {
        "="
    }

    fn description(&self) -> (r: &str)
        ensures
            r@ == "Check if all numbers are equal"@,
    {
        "Check if all numbers are equal"
    }

    fn execute(&self, args: &[Value]) -> (r: Result<Value, Error>)
        ensures
            outcome(r) == (chain_result("="@, Chain::Same, models(args@))),
    {
        chain_exec("=", Chain::Same, args)
    }
}



/// < - Numeric less than (variadic, monotonic)
pub struct NumLessTool;

impl Tool for NumLessTool {
    open spec fn names_itself(&self) -> bool {
        true
    }

    open spec fn spec_name(&self) -> Seq<char> {
        "<"@
    }

    open spec fn admits(&self, args: Seq<Val>) -> bool {
        true
    }

    fn name(&self) -> &str {
        "<"
    }

    fn description(&self) -> (r: &str)
        ensures
            r@ == "Check if numbers are in strictly increasing order"@,
    {
        "Check if numbers are in strictly increasing order"
    }

    fn execute(&self, args: &[Value]) -> (r: Result<Value, Error>)
        ensures
            outcome(r) == (chain_result("<"@, Chain::Increasing, models(args@))),
    {
        chain_exec("<", Chain::Increasing, args)
    }
}



/// <= - Numeric less than or equal (variadic, monotonic)
pub struct NumLessEqualTool;

impl Tool for NumLessEqualTool {
    open spec fn names_itself(&self) -> bool {
        true
    }

    open spec fn spec_name(&self) -> Seq<char> {
        "<="@
    }

    open spec fn admits(&self, args: Seq<Val>) -> bool {
        true
    }

    fn name(&self) -> &str {
        "<="
    }

    fn description(&self) -> (r: &str)
        ensures
            r@ == "Check if numbers are in non-decreasing order"@,
    {
        "Check if numbers are in non-decreasing order"
    }

    fn execute(&self, args: &[Value]) -> (r: Result<Value, Error>)
        ensures
            outcome(r) == (chain_result("<="@, Chain::NonDecreasing, models(args@))),
    {
        chain_exec("<=", Chain::NonDecreasing, args)
    }
}



/// > - Numeric greater than (variadic, monotonic)
pub struct NumGreaterTool;

impl Tool for NumGreaterTool {
    open spec fn names_itself(&self) -> bool {
        true
    }

    open spec fn spec_name(&self) -> Seq<char> {
        ">"@
    }

    open spec fn admits(&self, args: Seq<Val>) -> bool {
        true
    }

    fn name(&self) -> &str {
        ">"
    }

    fn description(&self) -> (r: &str)
        ensures
            r@ == "Check if numbers are in strictly decreasing order"@,
    {
        "Check if numbers are in strictly decreasing order"
    }

    fn execute(&self, args: &[Value]) -> (r: Result<Value, Error>)
        ensures
            outcome(r) == (chain_result(">"@, Chain::Decreasing, models(args@))),
    {
        chain_exec(">", Chain::Decreasing, args)
    }
}



/// >= - Numeric greater than or equal (variadic, monotonic)
pub struct NumGreaterEqualTool;

impl Tool for NumGreaterEqualTool {
    open spec fn names_itself(&self) -> bool {
        true
    }

    open spec fn spec_name(&self) -> Seq<char> {
        ">="@
    }

    open spec fn admits(&self, args: Seq<Val>) -> bool {
        true
    }

    fn name(&self) -> &str {
        ">="
    }

    fn description(&self) -> (r: &str)
        ensures
            r@ == "Check if numbers are in non-increasing order"@,
    {
        "Check if numbers are in non-increasing order"
    }

    fn execute(&self, args: &[Value]) -> (r: Result<Value, Error>)
        ensures
            outcome(r) == (chain_result(">="@, Chain::NonIncreasing, models(args@))),
    {
        chain_exec(">=", Chain::NonIncreasing, args)
    }
}



/// The numbers of `a` as floats, or the error of the first that is not one.
pub open spec fn numbers_bits(a: Seq<Val>) -> Result<Seq<u64>, ErrV>
    decreases a.len(),
{
    if a.len() == 0 {
        Ok(Seq::empty())
    } else {
        match numbers_bits(a.drop_last()) {
            Err(e) => Err(e),
            Ok(ns) => match number_bits(a.last()) {
                Err(e) => Err(e),
                Ok(b) => Ok(ns.push(b)),
            },
        }
    }
}

proof fn lemma_numbers_err(a: Seq<Val>, k: int)
    requires
        0 <= k <= a.len(),
        numbers_bits(a.take(k)) is Err,
    ensures
        numbers_bits(a) == numbers_bits(a.take(k)),
    decreases a.len() - k,
{
    if k < a.len() {
        assert(a.take(k + 1).drop_last() =~= a.take(k));
        lemma_numbers_err(a, k + 1);
    } else {
        assert(a.take(k) =~= a);
    }
}

/// No two of the floats are equal.
pub open spec fn all_different(ns: Seq<u64>) -> bool {
    forall|i: int, j: int| 0 <= i < j < ns.len() ==> !float_eq(#[trigger] ns[i], #[trigger] ns[j])
}

/// The result of `/=`: whether all the numbers differ.
pub open spec fn different_result(a: Seq<Val>) -> Result<Val, ErrV> {
    if a.len() < 2 {
        bad_args("/="@, "Expected at least 2 arguments"@)
    } else {
        match numbers_bits(a) {
            Err(e) => Err(e),
            Ok(ns) => yields(Val::Bool(all_different(ns))),
        }
    }
}

fn numbers_bits_exec(args: &[Value]) -> (r: Result<Vec<u64>, Error>)
    ensures
        match r {
            Ok(ns) => numbers_bits(models(args@)) == Ok::<Seq<u64>, ErrV>(ns@),
            Err(e) => numbers_bits(models(args@)) == Err::<Seq<u64>, ErrV>(e@),
        },
{
    let ghost a = models(args@);
    let mut out: Vec<u64> = Vec::new();
    let mut i: usize = 0;
    while i < args.len()
        invariant
            a == models(args@),
            i <= args@.len(),
            numbers_bits(a.take(i as int)) == Ok::<Seq<u64>, ErrV>(out@),
        decreases args.len() - i,
    {
        assert(a.take(i as int + 1).drop_last() =~= a.take(i as int));
        match number_bits_exec(&args[i]) {
            Ok(b) => out.push(b),
            Err(e) => {
                proof {
                    lemma_numbers_err(a, i as int + 1);
                }
                return Err(e);
            },
        }
        i = i + 1;
    }
    assert(a.take(i as int) =~= a);
    Ok(out)
}

/// /= - Numeric inequality (all different)
pub struct NumNotEqualTool;

impl Tool for NumNotEqualTool {
    open spec fn names_itself(&self) -> bool {
        true
    }

    open spec fn spec_name(&self) -> Seq<char> {
        "/="@
    }

    open spec fn admits(&self, args: Seq<Val>) -> bool {
        true
    }

    fn name(&self) -> &str {
        "/="
    }

    fn description(&self) -> (r: &str)
        ensures
            r@ == "Check if all numbers are different"@,
    {
        "Check if all numbers are different"
    }

    fn execute(&self, args: &[Value]) -> (r: Result<Value, Error>)
        ensures
            outcome(r) == (different_result(models(args@))),
    {
        if args.len() < 2 {
            return Err(invalid_args("/=", "Expected at least 2 arguments"));
        }
        let nums = numbers_bits_exec(args)?;
        let mut i: usize = 0;
        while i < nums.len()
            invariant
                args@.len() >= 2,
                numbers_bits(models(args@)) == Ok::<Seq<u64>, ErrV>(nums@),
                i <= nums@.len(),
                forall|x: int, y: int| 0 <= x < i && x < y < nums@.len() ==> !float_eq(#[trigger] nums@[x], #[trigger] nums@[y]),
            decreases nums.len() - i,
        {
            let mut j: usize = i + 1;
            while j < nums.len()
                invariant
                    args@.len() >= 2,
                    numbers_bits(models(args@)) == Ok::<Seq<u64>, ErrV>(nums@),
                    i < nums@.len(),
                    i + 1 <= j <= nums@.len(),
                    forall|x: int, y: int| 0 <= x < i && x < y < nums@.len() ==> !float_eq(#[trigger] nums@[x], #[trigger] nums@[y]),
                    forall|y: int| i < y < j ==> !float_eq(nums@[i as int], #[trigger] nums@[y]),
                decreases nums.len() - j,
            {
                if float_eq_exec(nums[i], nums[j]) {
                    assert(!all_different(nums@)) by {
                        assert(float_eq(nums@[i as int], nums@[j as int]));
                    }
                    return Ok(Value::Bool(false));
                }
                j = j + 1;
            }
            i = i + 1;
        }
        Ok(Value::Bool(true))
    }
}



/// The least (or, with `greatest`, the greatest) of the numbers of `a` from
/// index `i` on and `best`, keeping the earlier on a tie; a non-number is an error.
pub open spec fn extreme_from(a: Seq<Val>, i: int, best: u64, greatest: bool) -> Result<u64, ErrV>
    decreases a.len() - i,
{
    if i < 0 || i >= a.len() {
        Ok(best)
    } else {
        match number_bits(a[i]) {
            Err(e) => Err(e),
            Ok(v) => extreme_from(
                a,
                i + 1,
                if (greatest && float_lt(best, v)) || (!greatest && float_lt(v, best)) { v } else { best },
                greatest,
            ),
        }
    }
}

/// Every argument is an integer.
pub open spec fn all_ints(a: Seq<Val>) -> bool {
    forall|i: int| 0 <= i < a.len() ==> #[trigger] a[i] is Int
}

/// The result of MINIMUM (or, with `greatest`, MAXIMUM): the extreme number,
/// an integer when every argument is one.
pub open spec fn extreme_result(tool: Seq<char>, a: Seq<Val>, greatest: bool) -> Result<Val, ErrV> {
    if a.len() == 0 {
        bad_args(tool, "Expected at least one argument"@)
    } else {
        match extreme_all(a, greatest) {
            Err(e) => Err(e),
            Ok(best) => yields(if all_ints(a) { Val::Int(float_to_i64(best)) } else { Val::Float(best) }),
        }
    }
}

/// The extreme of all the numbers of a non-empty `a`, starting from the first.
pub open spec fn extreme_all(a: Seq<Val>, greatest: bool) -> Result<u64, ErrV> {
    match number_bits(a[0]) {
        Err(e) => Err(e),
        Ok(first) => extreme_from(a, 1, first, greatest),
    }
}

/// The extreme of the numbers of `vals`, read as floats.
pub(crate) fn extreme_bits_exec(vals: &[Value], greatest: bool) -> (r: Result<u64, Error>)
    requires
        vals@.len() > 0,
    ensures
        match r {
            Ok(b) => extreme_all(models(vals@), greatest) == Ok::<u64, ErrV>(b),
            Err(e) => extreme_all(models(vals@), greatest) == Err::<u64, ErrV>(e@),
        },
{
    let ghost a = models(vals@);
    let first = number_bits_exec(&vals[0])?;
    let mut best: u64 = first;
    let mut i: usize = 1;
    while i < vals.len()
        invariant
            a == models(vals@),
            1 <= i <= vals@.len(),
            number_bits(a[0]) == Ok::<u64, ErrV>(first),
            extreme_from(a, 1, first, greatest) == extreme_from(a, i as int, best, greatest),
        decreases vals.len() - i,
    {
        assert(a[i as int] == vals@[i as int].model());
        let v = match number_bits_exec(&vals[i]) {
            Ok(b) => b,
            Err(e) => {
                return Err(e);
            },
        };
        if (greatest && float_lt_exec(best, v)) || (!greatest && float_lt_exec(v, best)) {
            best = v;
        }
        i = i + 1;
    }
    Ok(best)
}

fn extreme_exec(tool: &str, args: &[Value], greatest: bool) -> (r: Result<Value, Error>)
    ensures
        outcome(r) == extreme_result(tool@, models(args@), greatest),
{
    if args.len() == 0 {
        return Err(invalid_args(tool, "Expected at least one argument"));
    }
    let ghost a = models(args@);
    let best = extreme_bits_exec(args, greatest)?;
    let mut ints = true;
    let mut j: usize = 0;
    while j < args.len()
        invariant
            a == models(args@),
            j <= args@.len(),
            ints == (forall|k: int| 0 <= k < j ==> #[trigger] a[k] is Int),
        decreases args.len() - j,
    {
        assert(a[j as int] == args@[j as int].model());
        if !matches!(args[j], Value::Int(_)) {
            ints = false;
        }
        j = j + 1;
    }
    if ints {
        Ok(Value::Int(float_to_i64_exec(best)))
    } else {
        Ok(Value::Float(best))
    }
}

/// MINIMUM - Return smallest value (Common Lisp alias for MIN)
pub struct MinimumTool;

impl Tool for MinimumTool {
    open spec fn names_itself(&self) -> bool {
        true
    }

    open spec fn spec_name(&self) -> Seq<char> {
        "MINIMUM"@
    }

    open spec fn admits(&self, args: Seq<Val>) -> bool {
        true
    }

    fn name(&self) -> &str {
        "MINIMUM"
    }

    fn description(&self) -> (r: &str)
        ensures
            r@ == "Return the smallest value (alias for MIN)"@,
    {
        "Return the smallest value (alias for MIN)"
    }

    fn execute(&self, args: &[Value]) -> (r: Result<Value, Error>)
        ensures
            outcome(r) == (extreme_result("MINIMUM"@, models(args@), false)),
    {
        extreme_exec("MINIMUM", args, false)
    }
}



/// MAXIMUM - Return largest value (Common Lisp alias for MAX)
pub struct MaximumTool;

impl Tool for MaximumTool {
    open spec fn names_itself(&self) -> bool {
        true
    }

    open spec fn spec_name(&self) -> Seq<char> {
        "MAXIMUM"@
    }

    open spec fn admits(&self, args: Seq<Val>) -> bool {
        true
    }

    fn name(&self) -> &str {
        "MAXIMUM"
    }

    fn description(&self) -> (r: &str)
        ensures
            r@ == "Return the largest value (alias for MAX)"@,
    {
        "Return the largest value (alias for MAX)"
    }

    fn execute(&self, args: &[Value]) -> (r: Result<Value, Error>)
        ensures
            outcome(r) == (extreme_result("MAXIMUM"@, models(args@), true)),
    {
        extreme_exec("MAXIMUM", args, true)
    }
}



/// What COERCE makes of its value: the coerced value, or, for the target
/// STRING, the value whose printed form is the result.
pub enum Coercion {
    Done(Value),
    Printed(Value),
}

/// The model of a [`Coercion`]: `(true, v)` for a coerced value, `(false, v)`
/// for a value to print.
pub open spec fn coercion_view(c: Coercion) -> (bool, Val) {
    match c {
        Coercion::Done(v) => (true, v.model()),
        Coercion::Printed(v) => (false, v.model()),
    }
}

/// What COERCE does with its arguments, or its error. The target type is
/// matched upper-cased; an unknown one is reported as it was given.
pub open spec fn coerce_plan(a: Seq<Val>) -> Result<(bool, Val), ErrV> {
    if a.len() < 2 {
        Err(ErrV::InvalidArguments { tool: "COERCE"@, reason: "Expected value and type"@ })
    } else {
        match str_of(a[1]) {
            Err(e) => Err(e),
            Ok(t) => {
                let u = uppercase(t);
                if u == "FLOAT"@ {
                    match number_bits(a[0]) {
                        Err(e) => Err(e),
                        Ok(b) => Ok((true, Val::Float(b))),
                    }
                } else if u == "INTEGER"@ {
                    match int_of(a[0]) {
                        Err(e) => Err(e),
                        Ok(n) => Ok((true, Val::Int(n))),
                    }
                } else if u == "STRING"@ {
                    Ok((false, a[0]))
                } else if u == "LIST"@ || u == "ARRAY"@ {
                    match a[0] {
                        Val::Arr(_) => Ok((true, a[0])),
                        Val::Str(s) => Ok((true, Val::Arr(char_values(s)))),
                        v => Err(ErrV::TypeError { expected: "coercible to array"@, got: kind_name_of(v) }),
                    }
                } else {
                    Err(ErrV::InvalidArguments { tool: "COERCE"@, reason: "Unknown type: "@ + t })
                }
            },
        }
    }
}

/// Reads COERCE's arguments and coerces, leaving to the caller only the
/// printing of a value coerced to a string.
pub fn plan_coerce(args: &[Value]) -> (r: Result<Coercion, Error>)
    ensures
        match r {
            Ok(c) => coerce_plan(models(args@)) == Ok::<(bool, Val), ErrV>(coercion_view(c)),
            Err(e) => coerce_plan(models(args@)) == Err::<(bool, Val), ErrV>(e@),
        },
{
    if args.len() < 2 {
        return Err(invalid_args("COERCE", "Expected value and type"));
    }
    let target = args[1].as_string()?;
    let u = to_upper(target);
    proof {
        reveal_strlit("FLOAT");
        reveal_strlit("INTEGER");
        reveal_strlit("STRING");
        reveal_strlit("LIST");
        reveal_strlit("ARRAY");
    }
    if str_equal(u.as_str(), "FLOAT") {
        let b = number_bits_exec(&args[0])?;
        Ok(Coercion::Done(Value::Float(b)))
    } else if str_equal(u.as_str(), "INTEGER") {
        let n = args[0].as_int()?;
        Ok(Coercion::Done(Value::Int(n)))
    } else if str_equal(u.as_str(), "STRING") {
        Ok(Coercion::Printed(args[0].deep_copy()))
    } else if str_equal(u.as_str(), "LIST") || str_equal(u.as_str(), "ARRAY") {
        match &args[0] {
            Value::Array(_) => Ok(Coercion::Done(args[0].deep_copy())),
            Value::String(s) => {
                let cs = chars_of(s.as_str());
                Ok(Coercion::Done(Value::Array(char_values_exec(&cs))))
            },
            _ => Err(Error::TypeError { expected: owned("coercible to array"), got: args[0].kind_name() }),
        }
    } else {
        Err(Error::InvalidArguments { tool: owned("COERCE"), reason: concat("Unknown type: ", target) })
    }
}

/// What a counting tool (1+, 1-, INCF, DECF) makes of its number: an integer
/// result, or a float (by its bits) with the step to add to it, or to take
/// from it, by float arithmetic.
pub enum Counted {
    Int(i64),
    Float(u64, i64),
}

/// The step of a counting tool: its second argument when it takes one and is
/// given one, else 1.
pub open spec fn count_step(a: Seq<Val>, takes_step: bool) -> Result<i64, ErrV> {
    if takes_step && a.len() > 1 {
        int_of(a[1])
    } else {
        Ok(1)
    }
}

/// What a counting tool makes of its arguments: an integer moved up or down
/// by the step, a float with its step, or the argument errors.
pub open spec fn count_plan(tool: Seq<char>, a: Seq<Val>, takes_step: bool, up: bool) -> Result<Counted, ErrV> {
    if a.len() == 0 {
        Err(ErrV::InvalidArguments { tool, reason: "Expected numeric argument"@ })
    } else {
        match count_step(a, takes_step) {
            Err(e) => Err(e),
            Ok(d) => match a[0] {
                Val::Int(n) => Ok(Counted::Int((if up { n + d } else { n - d }) as i64)),
                Val::Float(b) => Ok(Counted::Float(b, d)),
                _ => Err(type_error("number"@, a[0])),
            },
        }
    }
}

/// The counting tools overflow, as integer arithmetic does, when the moved
/// integer leaves `i64`.
pub open spec fn count_admitted(a: Seq<Val>, takes_step: bool, up: bool) -> bool {
    a.len() > 0 && a[0] is Int && count_step(a, takes_step) is Ok ==> {
        let n = a[0]->Int_0 as int;
        let d = count_step(a, takes_step)->Ok_0 as int;
        i64::MIN <= (if up { n + d } else { n - d }) <= i64::MAX
    }
}

/// Reads the arguments of a counting tool and moves an integer by its step;
/// a float is handed back with its step.
pub fn plan_count(tool: &str, args: &[Value], takes_step: bool, up: bool) -> (r: Result<Counted, Error>)
    requires
        count_admitted(models(args@), takes_step, up),
    ensures
        match r {
            Ok(c) => count_plan(tool@, models(args@), takes_step, up) == Ok::<Counted, ErrV>(c),
            Err(e) => count_plan(tool@, models(args@), takes_step, up) == Err::<Counted, ErrV>(e@),
        },
{
    if args.len() == 0 {
        return Err(Error::InvalidArguments { tool: owned(tool), reason: owned("Expected numeric argument") });
    }
    let d: i64 = if takes_step && args.len() > 1 {
        args[1].as_int()?
    } else {
        1
    };
    match &args[0] {
        Value::Int(n) => {
            if up {
                Ok(Counted::Int(*n + d))
            } else {
                Ok(Counted::Int(*n - d))
            }
        },
        Value::Float(b) => Ok(Counted::Float(*b, d)),
        _ => Err(Error::TypeError { expected: owned("number"), got: args[0].kind_name() }),
    }
}

/// The number a numeric value holds, as float bits.
pub open spec fn num(v: Val) -> u64 {
    number_bits(v)->Ok_0
}

/// `r` is not beyond `x`: with `greatest`, `x` is not greater than `r`;
/// without, `x` is not less than `r`.
pub open spec fn not_beyond(r: u64, x: u64, greatest: bool) -> bool {
    if greatest {
        !float_lt(r, x)
    } else {
        !float_lt(x, r)
    }
}

proof fn lemma_extreme_from(a: Seq<Val>, i: int, best: u64, greatest: bool)
    requires
        0 <= i <= a.len(),
        forall|k: int| 0 <= k < a.len() ==> number_bits(#[trigger] a[k]) is Ok,
    ensures
        extreme_from(a, i, best, greatest) is Ok,
        ({
            let r = extreme_from(a, i, best, greatest)->Ok_0;
            &&& (r == best || exists|k: int| i <= k < a.len() && r == #[trigger] num(a[k]))
            &&& forall|k: int| i <= k < a.len() ==> not_beyond(r, #[trigger] num(a[k]), greatest)
            &&& (r == best || (greatest && float_lt(best, r)) || (!greatest && float_lt(r, best)))
        }),
    decreases a.len() - i,
{
    if i < a.len() {
        assert(number_bits(a[i]) is Ok);
        let v = num(a[i]);
        let b2 = if (greatest && float_lt(best, v)) || (!greatest && float_lt(v, best)) { v } else { best };
        lemma_extreme_from(a, i + 1, b2, greatest);
        let r = extreme_from(a, i, best, greatest)->Ok_0;
        assert(r == extreme_from(a, i + 1, b2, greatest)->Ok_0);
        assert(not_beyond(r, num(a[i]), greatest));
        if r != b2 {
            let k = choose|k: int| i + 1 <= k < a.len() && r == #[trigger] num(a[k]);
            assert(i <= k < a.len() && r == num(a[k]));
        } else if b2 == v {
            assert(r == num(a[i]));
        }
    }
}

/// MINIMUM and MAXIMUM (and MIN and MAX) answer one of their numbers, and no
/// number is beyond it: none is less than the minimum, none is greater than
/// the maximum.
pub proof fn law_extreme_is_attained_and_bounds(a: Seq<Val>, greatest: bool)
    requires
        a.len() > 0,
        forall|k: int| 0 <= k < a.len() ==> number_bits(#[trigger] a[k]) is Ok,
    ensures
        extreme_all(a, greatest) is Ok,
        exists|k: int| 0 <= k < a.len() && extreme_all(a, greatest)->Ok_0 == #[trigger] num(a[k]),
        forall|k: int| 0 <= k < a.len() ==> not_beyond(extreme_all(a, greatest)->Ok_0, #[trigger] num(a[k]), greatest),
{
    assert(number_bits(a[0]) is Ok);
    let first = num(a[0]);
    lemma_extreme_from(a, 1, first, greatest);
    let r = extreme_all(a, greatest)->Ok_0;
    assert(not_beyond(r, num(a[0]), greatest));
    if r == first {
        assert(r == num(a[0]));
    }
}

/// Neighbouring numbers stand in the order a comparison asks (for `=`, each
/// number and the first): `<` increasing, `<=` not decreasing, `>` decreasing,
/// `>=` not increasing, `=` equal.
pub open spec fn in_order(c: Chain, x: u64, y: u64) -> bool {
    match c {
        Chain::Same => float_eq(x, y),
        Chain::Increasing => float_lt(x, y),
        Chain::NonDecreasing => float_le(x, y),
        Chain::Decreasing => float_lt(y, x),
        Chain::NonIncreasing => float_le(y, x),
    }
}

/// The number a comparison reads the number at `i` against.
pub open spec fn reference(c: Chain, i: int) -> int {
    if c is Same {
        0
    } else {
        i - 1
    }
}

/// Every number of `a` from index `i` on stands in order with its reference.
pub open spec fn in_order_from(c: Chain, a: Seq<Val>, i: int) -> bool {
    forall|j: int| i <= j < a.len() ==> in_order(c, num(a[reference(c, j)]), #[trigger] num(a[j]))
}

/// No number of `a` is a NaN.
pub open spec fn numbers_without_nan(a: Seq<Val>) -> bool {
    forall|k: int| 0 <= k < a.len() ==> number_bits(#[trigger] a[k]) is Ok && !float_is_nan(num(a[k]))
}

proof fn lemma_chain_from(c: Chain, a: Seq<Val>, i: int)
    requires
        1 <= i <= a.len(),
        numbers_without_nan(a),
    ensures
        chain_from(c, a, i, num(a[reference(c, i)])) == Ok::<bool, ErrV>(in_order_from(c, a, i)),
    decreases a.len() - i,
{
    if i < a.len() {
        assert(number_bits(a[i]) is Ok && !float_is_nan(num(a[i])));
        assert(number_bits(a[reference(c, i)]) is Ok && !float_is_nan(num(a[reference(c, i)])));
        let prev = num(a[reference(c, i)]);
        let curr = num(a[i]);
        assert(chain_breaks(c, prev, curr) == !in_order(c, prev, curr));
        lemma_chain_from(c, a, i + 1);
        assert(num(a[reference(c, i + 1)]) == (if c is Same { prev } else { curr }));
        if !chain_breaks(c, prev, curr) {
            assert(in_order_from(c, a, i) == in_order_from(c, a, i + 1));
        }
    }
}

/// On numbers without NaN, each comparison (=, <, <=, >, >=) answers true
/// exactly when every number stands in order with the one before it (for `=`,
/// equals the first): `>=` holds of equal neighbours, `>` does not.
pub proof fn law_comparison_chain(tool: Seq<char>, c: Chain, a: Seq<Val>)
    requires
        a.len() >= 2,
        numbers_without_nan(a),
    ensures
        chain_result(tool, c, a) == yields(Val::Bool(in_order_from(c, a, 1))),
{
    assert(number_bits(a[0]) is Ok);
    lemma_chain_from(c, a, 1);
    assert(num(a[reference(c, 1)]) == num(a[0]));
}

/// With integer arguments of at most 53 bits, MINIMUM and MAXIMUM answer an
/// integer, and it is one of the arguments.
pub proof fn law_extreme_of_integers(tool: Seq<char>, a: Seq<Val>, greatest: bool)
    requires
        a.len() > 0,
        forall|k: int|
            0 <= k < a.len() ==> (#[trigger] a[k]) is Int && -0x20_0000_0000_0000 <= a[k]->Int_0
                <= 0x20_0000_0000_0000,
    ensures
        extreme_result(tool, a, greatest) matches Ok(Val::Int(n)) && exists|k: int|
            0 <= k < a.len() && #[trigger] a[k] == Val::Int(n),
{
    assert forall|k: int| 0 <= k < a.len() implies number_bits(#[trigger] a[k]) is Ok by {
        assert(a[k] is Int);
    }
    law_extreme_is_attained_and_bounds(a, greatest);
    let k = choose|k: int| 0 <= k < a.len() && extreme_all(a, greatest)->Ok_0 == #[trigger] num(a[k]);
    assert(a[k] is Int);
    let n = a[k]->Int_0;
    law_int_float_round_trip(n as int);
    assert(all_ints(a));
    assert(a[k] == Val::Int(n));
}
} // verus!
