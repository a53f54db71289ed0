//! Advanced mathematical functions - Common Lisp compatible
use vstd::prelude::*;

#[allow(unused_imports)]
use crate::access::{copy_range, copy_slice, copy_values, values_equal};
#[allow(unused_imports)]
use crate::error::{empty_collection, exec_error, invalid_args, ErrV, Error};
#[allow(unused_imports)]
use crate::text::{alphabetic, alphanumeric, char_from_u32, char_is_alphabetic, char_is_alphanumeric, char_is_lowercase, char_is_uppercase, char_is_whitespace, char_string, char_to_lowercase, char_to_uppercase, chars_of, chars_skip, concat, i64_to_string, int_decimal, lower_case, lower_chars, lowercase, owned, scalar_value, seq_less, str_equal, str_less, string_from_chars, to_lower, to_upper, upper_case, upper_chars, uppercase, whitespace};
#[allow(unused_imports)]
use crate::tools::{bad_args, name_insert, outcome, ref_outcome, string_views, yields, Tool, ToolRegistry};
#[allow(unused_imports)]
use crate::value::{and_then, elems, entry_models, int_of, models, obj_insert, obj_keys, obj_lookup, obj_merge, obj_of, obj_values, str_of, truthy, type_error, ObjectMap, Val, Value};

verus! {

broadcast use crate::seq_models::group_value_models;

/// The names after registering this module's tools, in order.
pub open spec fn registered_names(ns: Seq<Seq<char>>) -> Seq<Seq<char>> {
    let ns = name_insert(ns, "TRUNCATE"@);
    let ns = name_insert(ns, "FTRUNCATE"@);
    let ns = name_insert(ns, "FFLOOR"@);
    let ns = name_insert(ns, "FCEILING"@);
    let ns = name_insert(ns, "FROUND"@);
    let ns = name_insert(ns, "GCD"@);
    let ns = name_insert(ns, "LCM"@);
    let ns = name_insert(ns, "ISQRT"@);
    let ns = name_insert(ns, "LOGAND"@);
    let ns = name_insert(ns, "LOGIOR"@);
    let ns = name_insert(ns, "LOGXOR"@);
    let ns = name_insert(ns, "LOGNOT"@);
    let ns = name_insert(ns, "ASH"@);
    let ns = name_insert(ns, "LSH"@);
    let ns = name_insert(ns, "SIGNUM"@);
    let ns = name_insert(ns, "CONJUGATE"@);
    let ns = name_insert(ns, "PHASE"@);
    let ns = name_insert(ns, "RATIONAL"@);
    let ns = name_insert(ns, "NUMERATOR"@);
    let ns = name_insert(ns, "DENOMINATOR"@);
    let ns = name_insert(ns, "PI"@);
    let ns = name_insert(ns, "E"@);
    let ns = name_insert(ns, "SIN"@);
    let ns = name_insert(ns, "COS"@);
    let ns = name_insert(ns, "TAN"@);
    let ns = name_insert(ns, "ASIN"@);
    let ns = name_insert(ns, "ACOS"@);
    let ns = name_insert(ns, "ATAN"@);
    let ns = name_insert(ns, "ATAN2"@);
    let ns = name_insert(ns, "SINH"@);
    let ns = name_insert(ns, "COSH"@);
    let ns = name_insert(ns, "TANH"@);
    let ns = name_insert(ns, "ASINH"@);
    let ns = name_insert(ns, "ACOSH"@);
    let ns = name_insert(ns, "ATANH"@);
    let ns = name_insert(ns, "EXP"@);
    let ns = name_insert(ns, "LOG"@);
    let ns = name_insert(ns, "LOG10"@);
    let ns = name_insert(ns, "LOG2"@);
    let ns = name_insert(ns, "EXPT"@);
    let ns = name_insert(ns, "MOD"@);
    let ns = name_insert(ns, "REM"@);
    ns
}

/// Register the tools of this module: those the library holds, then those
/// the application supplies, each under its name: `sin_tool` under SIN, `cos_tool` under COS, `tan_tool` under TAN, `asin_tool` under ASIN, `acos_tool` under ACOS, `atan_tool` under ATAN, `atan2_tool` under ATAN2, `sinh_tool` under SINH, `cosh_tool` under COSH, `tanh_tool` under TANH, `asinh_tool` under ASINH, `acosh_tool` under ACOSH, `atanh_tool` under ATANH, `exp_tool` under EXP, `log_tool` under LOG, `log10_tool` under LOG10, `log2_tool` under LOG2, `expt_tool` under EXPT, `mod_tool` under MOD, `rem_tool` under REM.
pub fn register<TSin: Tool + 'static, TCos: Tool + 'static, TTan: Tool + 'static, TAsin: Tool + 'static, TAcos: Tool + 'static, TAtan: Tool + 'static, TAtan2: Tool + 'static, TSinh: Tool + 'static, TCosh: Tool + 'static, TTanh: Tool + 'static, TAsinh: Tool + 'static, TAcosh: Tool + 'static, TAtanh: Tool + 'static, TExp: Tool + 'static, TLog: Tool + 'static, TLog10: Tool + 'static, TLog2: Tool + 'static, TExpt: Tool + 'static, TMod: Tool + 'static, TRem: Tool + 'static>(registry: &mut ToolRegistry, sin_tool: TSin, cos_tool: TCos, tan_tool: TTan, asin_tool: TAsin, acos_tool: TAcos, atan_tool: TAtan, atan2_tool: TAtan2, sinh_tool: TSinh, cosh_tool: TCosh, tanh_tool: TTanh, asinh_tool: TAsinh, acosh_tool: TAcosh, atanh_tool: TAtanh, exp_tool: TExp, log_tool: TLog, log10_tool: TLog10, log2_tool: TLog2, expt_tool: TExpt, mod_tool: TMod, rem_tool: TRem)
    requires
        sin_tool.names_itself() ==> sin_tool.spec_name() == "SIN"@,
        cos_tool.names_itself() ==> cos_tool.spec_name() == "COS"@,
        tan_tool.names_itself() ==> tan_tool.spec_name() == "TAN"@,
        asin_tool.names_itself() ==> asin_tool.spec_name() == "ASIN"@,
        acos_tool.names_itself() ==> acos_tool.spec_name() == "ACOS"@,
        atan_tool.names_itself() ==> atan_tool.spec_name() == "ATAN"@,
        atan2_tool.names_itself() ==> atan2_tool.spec_name() == "ATAN2"@,
        sinh_tool.names_itself() ==> sinh_tool.spec_name() == "SINH"@,
        cosh_tool.names_itself() ==> cosh_tool.spec_name() == "COSH"@,
        tanh_tool.names_itself() ==> tanh_tool.spec_name() == "TANH"@,
        asinh_tool.names_itself() ==> asinh_tool.spec_name() == "ASINH"@,
        acosh_tool.names_itself() ==> acosh_tool.spec_name() == "ACOSH"@,
        atanh_tool.names_itself() ==> atanh_tool.spec_name() == "ATANH"@,
        exp_tool.names_itself() ==> exp_tool.spec_name() == "EXP"@,
        log_tool.names_itself() ==> log_tool.spec_name() == "LOG"@,
        log10_tool.names_itself() ==> log10_tool.spec_name() == "LOG10"@,
        log2_tool.names_itself() ==> log2_tool.spec_name() == "LOG2"@,
        expt_tool.names_itself() ==> expt_tool.spec_name() == "EXPT"@,
        mod_tool.names_itself() ==> mod_tool.spec_name() == "MOD"@,
        rem_tool.names_itself() ==> rem_tool.spec_name() == "REM"@,
    ensures
        final(registry).names() == registered_names(old(registry).names()),
{
    registry.register(TruncateTool);
    registry.register(FtruncateTool);
    registry.register(FfloorTool);
    registry.register(FceilingTool);
    registry.register(FroundTool);
    registry.register(GcdTool);
    registry.register(LcmTool);
    registry.register(IsqrtTool);
    registry.register(LogandTool);
    registry.register(LogiorTool);
    registry.register(LogxorTool);
    registry.register(LognotTool);
    registry.register(AshTool);
    registry.register(LshTool);
    registry.register(SignumTool);
    registry.register(ConjugateTool);
    registry.register(PhaseToolMath);
    registry.register(RationalTool);
    registry.register(NumeratorTool);
    registry.register(DenominatorTool);
    registry.register(PiTool);
    registry.register(ETool);
    registry.place(owned("SIN"), sin_tool);
    registry.place(owned("COS"), cos_tool);
    registry.place(owned("TAN"), tan_tool);
    registry.place(owned("ASIN"), asin_tool);
    registry.place(owned("ACOS"), acos_tool);
    registry.place(owned("ATAN"), atan_tool);
    registry.place(owned("ATAN2"), atan2_tool);
    registry.place(owned("SINH"), sinh_tool);
    registry.place(owned("COSH"), cosh_tool);
    registry.place(owned("TANH"), tanh_tool);
    registry.place(owned("ASINH"), asinh_tool);
    registry.place(owned("ACOSH"), acosh_tool);
    registry.place(owned("ATANH"), atanh_tool);
    registry.place(owned("EXP"), exp_tool);
    registry.place(owned("LOG"), log_tool);
    registry.place(owned("LOG10"), log10_tool);
    registry.place(owned("LOG2"), log2_tool);
    registry.place(owned("EXPT"), expt_tool);
    registry.place(owned("MOD"), mod_tool);
    registry.place(owned("REM"), rem_tool);
}

/// CONJUGATE - Complex conjugate (for real numbers, returns same)
pub struct ConjugateTool;

impl Tool for ConjugateTool {
    open spec fn names_itself(&self) -> bool {
        true
    }

    open spec fn spec_name(&self) -> Seq<char> {
        "CONJUGATE"@
    }

    open spec fn admits(&self, args: Seq<Val>) -> bool {
        true
    }

    fn name(&self) -> &str {
        "CONJUGATE"
    }

    fn description(&self) -> (r: &str)
        ensures
            r@ == "Return complex conjugate (identity for real numbers)"@,
    {
        "Return complex conjugate (identity for real numbers)"
    }

    fn execute(&self, args: &[Value]) -> (r: Result<Value, Error>)
        ensures
            outcome(r) == (if args@.len() == 0 { bad_args("CONJUGATE"@, "Expected numeric argument"@) } else { yields(args@[0].model()) }),
    {
        if args.len() == 0 {
            return Err(invalid_args("CONJUGATE", "Expected numeric argument"));
        }
        Ok(args[0].clone())
    }
}

/// RATIONAL - Convert to rational (in Solisp, returns float)
pub struct RationalTool;

impl Tool for RationalTool {
    open spec fn names_itself(&self) -> bool {
        true
    }

    open spec fn spec_name(&self) -> Seq<char> {
        "RATIONAL"@
    }

    open spec fn admits(&self, args: Seq<Val>) -> bool {
        true
    }

    fn name(&self) -> &str {
        "RATIONAL"
    }

    fn description(&self) -> (r: &str)
        ensures
            r@ == "Convert to rational representation (returns float in Solisp)"@,
    {
        "Convert to rational representation (returns float in Solisp)"
    }

    fn execute(&self, args: &[Value]) -> (r: Result<Value, Error>)
        ensures
            outcome(r) == (if args@.len() == 0 { bad_args("RATIONAL"@, "Expected numeric argument"@) } else { yields(args@[0].model()) }),
    {
        if args.len() == 0 {
            return Err(invalid_args("RATIONAL", "Expected numeric argument"));
        }
        Ok(args[0].clone())
    }
}

/// NUMERATOR - Get numerator (for Solisp numbers, returns value)
pub struct NumeratorTool;

impl Tool for NumeratorTool {
    open spec fn names_itself(&self) -> bool {
        true
    }

    open spec fn spec_name(&self) -> Seq<char> {
        "NUMERATOR"@
    }

    open spec fn admits(&self, args: Seq<Val>) -> bool {
        true
    }

    fn name(&self) -> &str {
        "NUMERATOR"
    }

    fn description(&self) -> (r: &str)
        ensures
            r@ == "Get numerator (returns value for non-rational)"@,
    {
        "Get numerator (returns value for non-rational)"
    }

    fn execute(&self, args: &[Value]) -> (r: Result<Value, Error>)
        ensures
            outcome(r) == (if args@.len() == 0 { bad_args("NUMERATOR"@, "Expected numeric argument"@) } else { yields(args@[0].model()) }),
    {
        if args.len() == 0 {
            return Err(invalid_args("NUMERATOR", "Expected numeric argument"));
        }
        Ok(args[0].clone())
    }
}

/// DENOMINATOR - Get denominator (for Solisp numbers, returns 1)
pub struct DenominatorTool;

impl Tool for DenominatorTool {
    open spec fn names_itself(&self) -> bool {
        true
    }

    open spec fn spec_name(&self) -> Seq<char> {
        "DENOMINATOR"@
    }

    open spec fn admits(&self, args: Seq<Val>) -> bool {
        true
    }

    fn name(&self) -> &str {
        "DENOMINATOR"
    }

    fn description(&self) -> (r: &str)
        ensures
            r@ == "Get denominator (returns 1 for non-rational)"@,
    {
        "Get denominator (returns 1 for non-rational)"
    }

    fn execute(&self, args: &[Value]) -> (r: Result<Value, Error>)
        ensures
            outcome(r) == (if args@.len() == 0 { bad_args("DENOMINATOR"@, "Expected numeric argument"@) } else { yields(Val::Int(1)) }),
    {
        if args.len() == 0 {
            return Err(invalid_args("DENOMINATOR", "Expected numeric argument"));
        }
        Ok(Value::Int(1))
    }
}

use crate::float_bits::{float_is_nan, float_is_nan_exec, float_lt, float_lt_exec, float_to_i64, float_to_i64_exec, round_float_exec, rounded_float, rounding_whole, Rounding};
use crate::tools::stdlib::numeric::{float_arg_exec, float_map};
use vstd::arithmetic::div_mod::lemma_fundamental_div_mod_converse;
/// A bitwise operation folded over integer arguments.
pub enum LogOp {
    And,
    Ior,
    Xor,
}

/// One step of a bitwise fold.
pub open spec fn log_step(op: LogOp, acc: i64, x: i64) -> i64 {
    match op {
        LogOp::And => acc & x,
        LogOp::Ior => acc | x,
        LogOp::Xor => acc ^ x,
    }
}

/// Folds `op` over the integers of `rest`, starting from `acc`; the first
/// non-integer is an error.
pub open spec fn log_fold(op: LogOp, acc: i64, rest: Seq<Val>) -> Result<Val, ErrV>
    decreases rest.len(),
{
    if rest.len() == 0 {
        Ok(Val::Int(acc))
    } else {
        match int_of(rest[0]) {
            Err(e) => Err(e),
            Ok(x) => log_fold(op, log_step(op, acc, x), rest.drop_first()),
        }
    }
}

/// The result of a bitwise fold tool: `empty` without arguments.
pub open spec fn log_result(op: LogOp, empty: i64, args: Seq<Val>) -> Result<Val, ErrV> {
    if args.len() == 0 {
        Ok(Val::Int(empty))
    } else {
        match int_of(args[0]) {
            Err(e) => Err(e),
            Ok(x) => log_fold(op, x, args.skip(1)),
        }
    }
}

fn log_result_exec(op: LogOp, empty: i64, args: &[Value]) -> (r: Result<Value, Error>)
    ensures
        outcome(r) == log_result(op, empty, models(args@)),
{
    if args.len() == 0 {
        return Ok(Value::Int(empty));
    }
    let ghost a = models(args@);
    let mut result = args[0].as_int()?;
    let mut i: usize = 1;
    while i < args.len()
        invariant
            1 <= i <= args@.len(),
            a == models(args@),
            a.len() >= 1,
            log_result(op, empty, a) == log_fold(op, result, a.skip(i as int)),
        decreases args.len() - i,
    {
        assert(a.skip(i as int)[0] == a[i as int]);
        assert(a.skip(i as int).drop_first() =~= a.skip(i + 1));
        let x = args[i].as_int()?;
        result = match op {
            LogOp::And => result & x,
            LogOp::Ior => result | x,
            LogOp::Xor => result ^ x,
        };
        i = i + 1;
    }
    assert(a.skip(i as int).len() == 0);
    Ok(Value::Int(result))
}

/// The bit pattern of the `f64` -1.0.
pub open spec fn minus_one_bits() -> u64 {
    0xbff0_0000_0000_0000u64
}

/// The bit pattern of the `f64` 1.0.
pub open spec fn one_bits() -> u64 {
    0x3ff0_0000_0000_0000u64
}

/// `f < 0.0` for the `f64` with bit pattern `b`: not NaN, sign set, not a zero.
pub open spec fn float_below_zero(b: u64) -> bool {
    !float_is_nan(b) && (b >> 63u64) == 1 && b & 0x7fff_ffff_ffff_ffffu64 != 0
}

/// `f > 0.0` for the `f64` with bit pattern `b`: not NaN, sign clear, not zero.
pub open spec fn float_above_zero(b: u64) -> bool {
    !float_is_nan(b) && (b >> 63u64) == 0 && b != 0
}

/// A shift count, when both arguments are integers, is less than the width
/// of `i64` in either direction (Rust panics otherwise).
pub open spec fn shift_admitted(args: Seq<Val>) -> bool {
    args.len() >= 2 ==> match (args[0], args[1]) {
        (Val::Int(_), Val::Int(c)) => -64 < c < 64,
        _ => true,
    }
}

/// LOGAND - Bitwise AND
pub struct LogandTool;

impl Tool for LogandTool {
    open spec fn names_itself(&self) -> bool {
        true
    }

    open spec fn spec_name(&self) -> Seq<char> {
        "LOGAND"@
    }

    open spec fn admits(&self, args: Seq<Val>) -> bool {
        true
    }

    fn name(&self) -> &str {
        "LOGAND"
    }

    fn description(&self) -> (r: &str)
        ensures
            r@ == "Bitwise AND"@,
    {
        "Bitwise AND"
    }

    fn execute(&self, args: &[Value]) -> (r: Result<Value, Error>)
        ensures
            outcome(r) == (log_result(LogOp::And, -1i64, models(args@))),
    {
        log_result_exec(LogOp::And, -1, args)
    }
}



/// LOGIOR - Bitwise OR
pub struct LogiorTool;

impl Tool for LogiorTool {
    open spec fn names_itself(&self) -> bool {
        true
    }

    open spec fn spec_name(&self) -> Seq<char> {
        "LOGIOR"@
    }

    open spec fn admits(&self, args: Seq<Val>) -> bool {
        true
    }

    fn name(&self) -> &str {
        "LOGIOR"
    }

    fn description(&self) -> (r: &str)
        ensures
            r@ == "Bitwise OR"@,
    {
        "Bitwise OR"
    }

    fn execute(&self, args: &[Value]) -> (r: Result<Value, Error>)
        ensures
            outcome(r) == (log_result(LogOp::Ior, 0, models(args@))),
    {
        log_result_exec(LogOp::Ior, 0, args)
    }
}



/// LOGXOR - Bitwise XOR
pub struct LogxorTool;

impl Tool for LogxorTool {
    open spec fn names_itself(&self) -> bool {
        true
    }

    open spec fn spec_name(&self) -> Seq<char> {
        "LOGXOR"@
    }

    open spec fn admits(&self, args: Seq<Val>) -> bool {
        true
    }

    fn name(&self) -> &str {
        "LOGXOR"
    }

    fn description(&self) -> (r: &str)
        ensures
            r@ == "Bitwise XOR"@,
    {
        "Bitwise XOR"
    }

    fn execute(&self, args: &[Value]) -> (r: Result<Value, Error>)
        ensures
            outcome(r) == (log_result(LogOp::Xor, 0, models(args@))),
    {
        log_result_exec(LogOp::Xor, 0, args)
    }
}



/// LOGNOT - Bitwise NOT
pub struct LognotTool;

impl Tool for LognotTool {
    open spec fn names_itself(&self) -> bool {
        true
    }

    open spec fn spec_name(&self) -> Seq<char> {
        "LOGNOT"@
    }

    open spec fn admits(&self, args: Seq<Val>) -> bool {
        true
    }

    fn name(&self) -> &str {
        "LOGNOT"
    }

    fn description(&self) -> (r: &str)
        ensures
            r@ == "Bitwise NOT (one's complement)"@,
    {
        "Bitwise NOT (one's complement)"
    }

    fn execute(&self, args: &[Value]) -> (r: Result<Value, Error>)
        ensures
            outcome(r) == (if args@.len() == 0 { bad_args("LOGNOT"@, "Expected integer argument"@) } else {
                match int_of(args@[0].model()) {
                    Err(e) => Err(e),
                    Ok(n) => yields(Val::Int((-1 - n) as i64)),
                }
            }),
    {
        if args.len() == 0 {
            return Err(invalid_args("LOGNOT", "Expected integer argument"));
        }
        let n = args[0].as_int()?;
        let k: i64 = !n;
        assert(k == -1 - n) by (bit_vector)
            requires
                k == !n,
        ;
        Ok(Value::Int(k))
    }
}



/// ASH - Arithmetic shift
pub struct AshTool;

impl Tool for AshTool {
    open spec fn names_itself(&self) -> bool {
        true
    }

    open spec fn spec_name(&self) -> Seq<char> {
        "ASH"@
    }

    open spec fn admits(&self, args: Seq<Val>) -> bool {
        shift_admitted(args)
    }

    fn name(&self) -> &str {
        "ASH"
    }

    fn description(&self) -> (r: &str)
        ensures
            r@ == "Arithmetic shift left (positive) or right (negative)"@,
    {
        "Arithmetic shift left (positive) or right (negative)"
    }

    fn execute(&self, args: &[Value]) -> (r: Result<Value, Error>)
        ensures
            outcome(r) == (if args@.len() < 2 { bad_args("ASH"@, "Expected integer and shift count"@) } else {
                match (int_of(args@[0].model()), int_of(args@[1].model())) {
                    (Err(e), _) => Err(e),
                    (Ok(_), Err(e)) => Err(e),
                    (Ok(n), Ok(c)) => yields(Val::Int(if c >= 0 { n << (c as u32) } else { n >> ((-c) as u32) })),
                }
            }),
    {
        if args.len() < 2 {
            return Err(invalid_args("ASH", "Expected integer and shift count"));
        }
        let n = args[0].as_int()?;
        let count = args[1].as_int()?;
        let result = if count >= 0 { n << (count as u32) } else { n >> ((-count) as u32) };
        Ok(Value::Int(result))
    }
}



/// LSH - Logical shift
pub struct LshTool;

impl Tool for LshTool {
    open spec fn names_itself(&self) -> bool {
        true
    }

    open spec fn spec_name(&self) -> Seq<char> {
        "LSH"@
    }

    open spec fn admits(&self, args: Seq<Val>) -> bool {
        shift_admitted(args)
    }

    fn name(&self) -> &str {
        "LSH"
    }

    fn description(&self) -> (r: &str)
        ensures
            r@ == "Logical shift left (positive) or right (negative)"@,
    {
        "Logical shift left (positive) or right (negative)"
    }

    fn execute(&self, args: &[Value]) -> (r: Result<Value, Error>)
        ensures
            outcome(r) == (if args@.len() < 2 { bad_args("LSH"@, "Expected integer and shift count"@) } else {
                match (int_of(args@[0].model()), int_of(args@[1].model())) {
                    (Err(e), _) => Err(e),
                    (Ok(_), Err(e)) => Err(e),
                    (Ok(n), Ok(c)) => yields(Val::Int(
                        if c >= 0 { ((n as u64) << (c as u32)) as i64 } else { ((n as u64) >> ((-c) as u32)) as i64 })),
                }
            }),
    {
        if args.len() < 2 {
            return Err(invalid_args("LSH", "Expected integer and shift count"));
        }
        let n = args[0].as_int()? as u64;
        let count = args[1].as_int()?;
        let result = if count >= 0 { (n << (count as u32)) as i64 } else { (n >> ((-count) as u32)) as i64 };
        Ok(Value::Int(result))
    }
}



/// SIGNUM - Sign of number (-1, 0, or 1)
pub struct SignumTool;

impl Tool for SignumTool {
    open spec fn names_itself(&self) -> bool {
        true
    }

    open spec fn spec_name(&self) -> Seq<char> {
        "SIGNUM"@
    }

    open spec fn admits(&self, args: Seq<Val>) -> bool {
        true
    }

    fn name(&self) -> &str {
        "SIGNUM"
    }

    fn description(&self) -> (r: &str)
        ensures
            r@ == "Return sign of number (-1, 0, or 1)"@,
    {
        "Return sign of number (-1, 0, or 1)"
    }

    fn execute(&self, args: &[Value]) -> (r: Result<Value, Error>)
        ensures
            outcome(r) == (if args@.len() == 0 { bad_args("SIGNUM"@, "Expected numeric argument"@) } else {
                match args@[0].model() {
                    Val::Int(n) => yields(Val::Int(if n < 0 { -1i64 } else if n > 0 { 1i64 } else { 0i64 })),
                    Val::Float(b) => yields(Val::Float(
                        if float_below_zero(b) { minus_one_bits() } else if float_above_zero(b) { one_bits() } else { 0 })),
                    v => Err(type_error("number"@, v)),
                }
            }),
    {
        if args.len() == 0 {
            return Err(invalid_args("SIGNUM", "Expected numeric argument"));
        }
        match &args[0] {
            Value::Int(n) => {
                let sign: i64 = if *n < 0 {
                    -1
                } else if *n > 0 {
                    1
                } else {
                    0
                };
                Ok(Value::Int(sign))
            },
            Value::Float(b) => {
                let bits: u64 = *b;
                let nan = float_is_nan_exec(bits);
                let below = !nan && (bits >> 63u64) == 1 && bits & 0x7fff_ffff_ffff_ffffu64 != 0;
                let above = !nan && (bits >> 63u64) == 0 && bits != 0;
                let sign: u64 = if below {
                    0xbff0_0000_0000_0000u64
                } else if above {
                    0x3ff0_0000_0000_0000u64
                } else {
                    0
                };
                Ok(Value::Float(sign))
            },
            _ => Err(Error::TypeError { expected: owned("number"), got: args[0].kind_name() }),
        }
    }
}



/// PI - Mathematical constant π
pub struct PiTool;

impl Tool for PiTool {
    open spec fn names_itself(&self) -> bool {
        true
    }

    open spec fn spec_name(&self) -> Seq<char> {
        "PI"@
    }

    open spec fn admits(&self, args: Seq<Val>) -> bool {
        true
    }

    fn name(&self) -> &str {
        "PI"
    }

    fn description(&self) -> (r: &str)
        ensures
            r@ == "Mathematical constant π (pi)"@,
    {
        "Mathematical constant π (pi)"
    }

    fn execute(&self, args: &[Value]) -> (r: Result<Value, Error>)
        ensures
            outcome(r) == (yields(Val::Float(0x4009_21fb_5444_2d18u64))),
    {
        Ok(Value::Float(0x4009_21fb_5444_2d18u64))
    }
}



/// E - Mathematical constant e (Euler's number)
pub struct ETool;

impl Tool for ETool {
    open spec fn names_itself(&self) -> bool {
        true
    }

    open spec fn spec_name(&self) -> Seq<char> {
        "E"@
    }

    open spec fn admits(&self, args: Seq<Val>) -> bool {
        true
    }

    fn name(&self) -> &str {
        "E"
    }

    fn description(&self) -> (r: &str)
        ensures
            r@ == "Mathematical constant e (Euler's number)"@,
    {
        "Mathematical constant e (Euler's number)"
    }

    fn execute(&self, args: &[Value]) -> (r: Result<Value, Error>)
        ensures
            outcome(r) == (yields(Val::Float(0x4005_bf0a_8b14_5769u64))),
    {
        Ok(Value::Float(0x4005_bf0a_8b14_5769u64))
    }
}



/// Euclid's greatest common divisor of two naturals (`gcd(0, 0) == 0`).
pub open spec fn gcd_nat(x: nat, y: nat) -> nat
    decreases y,
{
    if y == 0 {
        x
    } else {
        gcd_nat(y, x % y)
    }
}

/// The absolute value of an integer.
pub open spec fn magnitude(a: i64) -> nat {
    if a < 0 {
        (-(a as int)) as nat
    } else {
        a as nat
    }
}

/// The greatest common divisor of two integers, by their absolute values.
pub open spec fn gcd_of(a: i64, b: i64) -> nat {
    gcd_nat(magnitude(a), magnitude(b))
}

/// Whether GCD's machine-integer Euclid steps on `a` and `b` stay in range:
/// they overflow exactly when the absolute value of `i64::MIN` or its
/// remainder by -1 would be taken.
pub open spec fn gcd_ok(a: i64, b: i64) -> bool {
    !((a == i64::MIN && (b == 0 || b == -1)) || (b == i64::MIN && (a == 0 || a == -1 || a == i64::MIN)))
}

pub proof fn lemma_gcd_bounds(x: nat, y: nat)
    ensures
        y > 0 ==> gcd_nat(x, y) <= y,
        x > 0 ==> gcd_nat(x, y) <= x,
        (x > 0 || y > 0) ==> gcd_nat(x, y) > 0,
    decreases y,
{
    if y > 0 {
        let r = x % y;
        assert(r < y) by (nonlinear_arith)
            requires
                y > 0,
                r == x % y,
        ;
        assert(x < y ==> r == x) by (nonlinear_arith)
            requires
                y > 0,
                r == x % y,
        ;
        lemma_gcd_bounds(y, r);
    }
}

proof fn lemma_gcd_fits(a: i64, b: i64)
    requires
        gcd_ok(a, b),
    ensures
        gcd_of(a, b) <= i64::MAX,
{
    let x = magnitude(a);
    let y = magnitude(b);
    lemma_gcd_bounds(x, y);
    if a == i64::MIN {
        assert(y > 0 && y <= i64::MAX);
    } else if b == i64::MIN {
        assert(x > 0 && x <= i64::MAX);
        let r = x % y;
        assert(r == x) by (nonlinear_arith)
            requires
                y > 0,
                x < y,
                r == x % y,
        ;
        lemma_gcd_bounds(y, r);
    } else {
        assert(x <= i64::MAX && y <= i64::MAX);
    }
}

pub(crate) fn magnitude_exec(a: i64) -> (m: u64)
    ensures
        m == magnitude(a),
{
    if a < 0 {
        (-(a as i128)) as u64
    } else {
        a as u64
    }
}

/// GCD of two integers.
pub fn gcd_i64(a: i64, b: i64) -> (r: i64)
    requires
        gcd_ok(a, b),
    ensures
        r as int == gcd_of(a, b),
{
    let mut x = magnitude_exec(a);
    let mut y = magnitude_exec(b);
    while y != 0
        invariant
            gcd_nat(x as nat, y as nat) == gcd_of(a, b),
        decreases y,
    {
        let r = x % y;
        x = y;
        y = r;
    }
    proof {
        lemma_gcd_fits(a, b);
    }
    x as i64
}

/// Whether LCM's steps on `a` and `b` stay in range.
pub open spec fn lcm_ok(a: i64, b: i64) -> bool {
    a == 0 || b == 0 || (a != i64::MIN && b != i64::MIN && (magnitude(a) / gcd_of(a, b)) * magnitude(b) <= i64::MAX)
}

/// LCM of two integers: zero when either is zero.
pub open spec fn lcm_of(a: i64, b: i64) -> int {
    if a == 0 || b == 0 {
        0
    } else {
        ((magnitude(a) / gcd_of(a, b)) * magnitude(b)) as int
    }
}

/// LCM of two integers.
pub fn lcm_i64(a: i64, b: i64) -> (r: i64)
    requires
        lcm_ok(a, b),
    ensures
        r as int == lcm_of(a, b),
{
    if a == 0 || b == 0 {
        return 0;
    }
    let g = gcd_i64(a, b);
    proof {
        lemma_gcd_bounds(magnitude(a), magnitude(b));
    }
    let ma = magnitude_exec(a) as i64;
    let mb = magnitude_exec(b) as i64;
    let q = ma / g;
    q * mb
}

/// GCD folded over the integer arguments (0 for none, the absolute value for
/// one); the first non-integer is an error.
pub open spec fn gcd_all(s: Seq<Val>) -> Result<i64, ErrV>
    decreases s.len(),
{
    if s.len() == 0 {
        Ok(0)
    } else if s.len() == 1 {
        match int_of(s[0]) {
            Err(e) => Err(e),
            Ok(x) => Ok(gcd_of(x, 0) as i64),
        }
    } else {
        match gcd_all(s.drop_last()) {
            Err(e) => Err(e),
            Ok(g) => match int_of(s.last()) {
                Err(e) => Err(e),
                Ok(x) => Ok(gcd_of(g, x) as i64),
            },
        }
    }
}

/// No step of the GCD fold over `s` overflows.
pub open spec fn gcd_admitted(s: Seq<Val>) -> bool
    decreases s.len(),
{
    if s.len() == 0 {
        true
    } else if s.len() == 1 {
        match int_of(s[0]) {
            Ok(x) => gcd_ok(x, 0),
            Err(_) => true,
        }
    } else {
        gcd_admitted(s.drop_last()) && match (gcd_all(s.drop_last()), int_of(s.last())) {
            (Ok(g), Ok(x)) => gcd_ok(g, x),
            _ => true,
        }
    }
}

/// LCM folded over the integer arguments (1 for none, the absolute value for
/// one); the first non-integer is an error.
pub open spec fn lcm_all(s: Seq<Val>) -> Result<i64, ErrV>
    decreases s.len(),
{
    if s.len() == 0 {
        Ok(1)
    } else if s.len() == 1 {
        match int_of(s[0]) {
            Err(e) => Err(e),
            Ok(x) => Ok(lcm_of(x, 1) as i64),
        }
    } else {
        match lcm_all(s.drop_last()) {
            Err(e) => Err(e),
            Ok(g) => match int_of(s.last()) {
                Err(e) => Err(e),
                Ok(x) => Ok(lcm_of(g, x) as i64),
            },
        }
    }
}

/// No step of the LCM fold over `s` overflows.
pub open spec fn lcm_admitted(s: Seq<Val>) -> bool
    decreases s.len(),
{
    if s.len() == 0 {
        true
    } else if s.len() == 1 {
        match int_of(s[0]) {
            Ok(x) => lcm_ok(x, 1),
            Err(_) => true,
        }
    } else {
        lcm_admitted(s.drop_last()) && match (lcm_all(s.drop_last()), int_of(s.last())) {
            (Ok(g), Ok(x)) => lcm_ok(g, x),
            _ => true,
        }
    }
}

proof fn lemma_admitted_prefix(s: Seq<Val>, k: int, lcm: bool)
    requires
        0 <= k <= s.len(),
        if lcm { lcm_admitted(s) } else { gcd_admitted(s) },
    ensures
        if lcm { lcm_admitted(s.take(k)) } else { gcd_admitted(s.take(k)) },
    decreases s.len() - k,
{
    if k < s.len() {
        lemma_admitted_prefix(s, k + 1, lcm);
        assert(s.take(k + 1).drop_last() =~= s.take(k));
    } else {
        assert(s.take(k) =~= s);
    }
}

proof fn lemma_fold_err(s: Seq<Val>, k: int, lcm: bool)
    requires
        1 <= k <= s.len(),
        if lcm { lcm_all(s.take(k)) is Err } else { gcd_all(s.take(k)) is Err },
    ensures
        if lcm { lcm_all(s) == lcm_all(s.take(k)) } else { gcd_all(s) == gcd_all(s.take(k)) },
    decreases s.len() - k,
{
    if k < s.len() {
        assert(s.take(k + 1).drop_last() =~= s.take(k));
        lemma_fold_err(s, k + 1, lcm);
    } else {
        assert(s.take(k) =~= s);
    }
}

fn fold_exec(args: &[Value], lcm: bool) -> (r: Result<Value, Error>)
    requires
        args@.len() > 0,
        if lcm { lcm_admitted(models(args@)) } else { gcd_admitted(models(args@)) },
    ensures
        outcome(r) == (match (if lcm { lcm_all(models(args@)) } else { gcd_all(models(args@)) }) {
            Ok(v) => yields(Val::Int(v)),
            Err(e) => Err(e),
        }),
{
    let ghost a = models(args@);
    assert(a.take(1) =~= seq![a[0]]);
    let first = match args[0].as_int() {
        Ok(x) => x,
        Err(e) => {
            proof {
                lemma_fold_err(a, 1, lcm);
            }
            return Err(e);
        },
    };
    proof {
        lemma_admitted_prefix(a, 1, lcm);
        assert(a.take(1)[0] == a[0]);
    }
    let mut acc = if lcm { lcm_i64(first, 1) } else { gcd_i64(first, 0) };
    let mut i: usize = 1;
    while i < args.len()
        invariant
            a == models(args@),
            1 <= i <= args@.len(),
            if lcm { lcm_admitted(a) } else { gcd_admitted(a) },
            (if lcm { lcm_all(a.take(i as int)) } else { gcd_all(a.take(i as int)) }) == Ok::<i64, ErrV>(acc),
        decreases args.len() - i,
    {
        proof {
            lemma_admitted_prefix(a, i + 1, lcm);
            assert(a.take(i + 1).drop_last() =~= a.take(i as int));
            assert(a.take(i + 1).last() == args@[i as int].model());
        }
        let x = match args[i].as_int() {
            Ok(x) => x,
            Err(e) => {
                proof {
                    lemma_fold_err(a, i + 1, lcm);
                }
                return Err(e);
            },
        };
        if lcm {
            acc = lcm_i64(acc, x);
        } else {
            acc = gcd_i64(acc, x);
        }
        i = i + 1;
    }
    assert(a.take(i as int) =~= a);
    Ok(Value::Int(acc))
}

/// MOD on two integers: the remainder of floor division, which takes the
/// sign of the divisor, or an error for a zero divisor.
pub open spec fn mod_result(a: i64, b: i64) -> Result<Val, ErrV> {
    if b == 0 {
        Err(ErrV::ToolExecutionError { tool: "MOD"@, reason: "Division by zero"@ })
    } else {
        yields(Val::Int(floor_mod(a as int, b as int) as i64))
    }
}

/// `a` less `b` times the floor of `a / b`: zero or of the sign of `b`, and
/// smaller than `b` in magnitude.
pub open spec fn floor_mod(a: int, b: int) -> int {
    let r = a % b;
    if r != 0 && b < 0 {
        r + b
    } else {
        r
    }
}

/// REM on two integers: the remainder of truncating division, with the sign
/// of the dividend, or an error for a zero divisor.
pub open spec fn rem_result(a: i64, b: i64) -> Result<Val, ErrV> {
    if b == 0 {
        Err(ErrV::ToolExecutionError { tool: "REM"@, reason: "Division by zero"@ })
    } else {
        let r = magnitude(a) % magnitude(b);
        yields(Val::Int((if a < 0 { -(r as int) } else { r as int }) as i64))
    }
}

/// The integer case of MOD.
pub fn mod_ints(a: i64, b: i64) -> (r: Result<Value, Error>)
    requires
        !(a == i64::MIN && b == -1),
    ensures
        outcome(r) == mod_result(a, b),
{
    if b == 0 {
        return Err(exec_error("MOD", "Division by zero"));
    }
    let m = a.checked_rem_euclid(b).unwrap();
    let r: i64 = if m != 0 && b < 0 {
        m + b
    } else {
        m
    };
    Ok(Value::Int(r))
}

/// The integer case of REM.
pub fn rem_ints(a: i64, b: i64) -> (r: Result<Value, Error>)
    requires
        !(a == i64::MIN && b == -1),
    ensures
        outcome(r) == rem_result(a, b),
{
    if b == 0 {
        return Err(exec_error("REM", "Division by zero"));
    }
    let m = a.checked_rem(b);
    Ok(Value::Int(m.unwrap()))
}

/// `r` is the integer square root of `n`: the largest integer whose square is at most `n`.
pub open spec fn is_isqrt(n: int, r: int) -> bool {
    0 <= r && r * r <= n && n < (r + 1) * (r + 1)
}

/// The integer square root of `n` (floor of its square root).
pub open spec fn isqrt_of(n: int) -> int {
    choose|r: int| is_isqrt(n, r)
}

/// A number has at most one integer square root.
pub proof fn lemma_isqrt_unique(n: int, a: int, b: int)
    requires
        is_isqrt(n, a),
        is_isqrt(n, b),
    ensures
        a == b,
{
    if a < b {
        assert((a + 1) * (a + 1) <= b * b) by (nonlinear_arith)
            requires
                0 <= a,
                a + 1 <= b,
        ;
    } else if b < a {
        assert((b + 1) * (b + 1) <= a * a) by (nonlinear_arith)
            requires
                0 <= b,
                b + 1 <= a,
        ;
    }
}

/// The integer square root of a non-negative `n`, by bisection.
pub fn isqrt_exec(n: i64) -> (r: i64)
    requires
        n >= 0,
    ensures
        r == isqrt_of(n as int),
        is_isqrt(n as int, r as int),
{
    let m: u128 = n as u128;
    let mut lo: u128 = 0;
    let mut hi: u128 = 3037000500;
    assert(3037000500u128 * 3037000500u128 > 0x7fff_ffff_ffff_ffffu128);
    while hi - lo > 1
        invariant
            lo < hi <= 3037000500,
            lo * lo <= m,
            m < hi * hi,
            m == n as u128,
        decreases hi - lo,
    {
        let mid: u128 = lo + (hi - lo) / 2;
        assert(mid * mid <= 3037000500u128 * 3037000500u128) by (nonlinear_arith)
            requires
                mid <= 3037000500u128,
        ;
        if mid * mid <= m {
            lo = mid;
        } else {
            hi = mid;
        }
    }
    assert(is_isqrt(n as int, lo as int));
    proof {
        lemma_isqrt_unique(n as int, lo as int, isqrt_of(n as int));
    }
    lo as i64
}

/// ISQRT - Integer square root
pub struct IsqrtTool;

impl Tool for IsqrtTool {
    open spec fn names_itself(&self) -> bool {
        true
    }

    open spec fn spec_name(&self) -> Seq<char> {
        "ISQRT"@
    }

    open spec fn admits(&self, args: Seq<Val>) -> bool {
        true
    }

    fn name(&self) -> &str {
        "ISQRT"
    }

    fn description(&self) -> (r: &str)
        ensures
            r@ == "Compute integer square root (floor of sqrt)"@,
    {
        "Compute integer square root (floor of sqrt)"
    }

    fn execute(&self, args: &[Value]) -> (r: Result<Value, Error>)
        ensures
            outcome(r) == (if args@.len() == 0 {
                bad_args("ISQRT"@, "Expected numeric argument"@)
            } else {
                match int_of(models(args@)[0]) {
                    Err(e) => Err(e),
                    Ok(n) => if n < 0 {
                        bad_args("ISQRT"@, "Cannot compute square root of negative number"@)
                    } else {
                        yields(Val::Int(isqrt_of(n as int) as i64))
                    },
                }
            }),
    {
        if args.len() == 0 {
            return Err(invalid_args("ISQRT", "Expected numeric argument"));
        }
        let n = args[0].as_int()?;
        if n < 0 {
            return Err(invalid_args("ISQRT", "Cannot compute square root of negative number"));
        }
        Ok(Value::Int(isqrt_exec(n)))
    }
}



/// GCD - Greatest common divisor
pub struct GcdTool;

impl Tool for GcdTool {
    open spec fn names_itself(&self) -> bool {
        true
    }

    open spec fn spec_name(&self) -> Seq<char> {
        "GCD"@
    }

    open spec fn admits(&self, args: Seq<Val>) -> bool {
        gcd_admitted(args)
    }

    fn name(&self) -> &str {
        "GCD"
    }

    fn description(&self) -> (r: &str)
        ensures
            r@ == "Compute greatest common divisor"@,
    {
        "Compute greatest common divisor"
    }

    fn execute(&self, args: &[Value]) -> (r: Result<Value, Error>)
        ensures
            outcome(r) == (if args@.len() == 0 { yields(Val::Int(0)) } else {
                match gcd_all(models(args@)) {
                    Ok(v) => yields(Val::Int(v)),
                    Err(e) => Err(e),
                }
            }),
    {
        if args.len() == 0 {
            return Ok(Value::Int(0));
        }
        fold_exec(args, false)
    }
}



/// LCM - Least common multiple
pub struct LcmTool;

impl Tool for LcmTool {
    open spec fn names_itself(&self) -> bool {
        true
    }

    open spec fn spec_name(&self) -> Seq<char> {
        "LCM"@
    }

    open spec fn admits(&self, args: Seq<Val>) -> bool {
        lcm_admitted(args)
    }

    fn name(&self) -> &str {
        "LCM"
    }

    fn description(&self) -> (r: &str)
        ensures
            r@ == "Compute least common multiple"@,
    {
        "Compute least common multiple"
    }

    fn execute(&self, args: &[Value]) -> (r: Result<Value, Error>)
        ensures
            outcome(r) == (if args@.len() == 0 { yields(Val::Int(1)) } else {
                match lcm_all(models(args@)) {
                    Ok(v) => yields(Val::Int(v)),
                    Err(e) => Err(e),
                }
            }),
    {
        if args.len() == 0 {
            return Ok(Value::Int(1));
        }
        fold_exec(args, true)
    }
}



/// `d` times `k`.
pub open spec fn times(d: int, k: int) -> int {
    d * k
}

/// Whether `d` divides `x`: `x` is `d` times some integer.
pub open spec fn divides(d: int, x: int) -> bool {
    exists|k: int| #[trigger] times(d, k) == x
}

proof fn lemma_gcd_nat_divides(x: nat, y: nat, d: int)
    ensures
        divides(gcd_nat(x, y) as int, x as int),
        divides(gcd_nat(x, y) as int, y as int),
        divides(d, x as int) && divides(d, y as int) ==> divides(d, gcd_nat(x, y) as int),
    decreases y,
{
    let g = gcd_nat(x, y) as int;
    if y == 0 {
        assert(times(g, 1) == x as int);
        assert(times(g, 0) == 0);
        if divides(d, x as int) {
            let m = choose|m: int| #[trigger] times(d, m) == x as int;
            assert(times(d, m) == g);
        }
    } else {
        let r = x % y;
        let q = x / y;
        assert(x == q * y + r) by (nonlinear_arith)
            requires
                y > 0,
                r == x % y,
                q == x / y,
        ;
        assert(r < y) by (nonlinear_arith)
            requires
                y > 0,
                r == x % y,
        ;
        lemma_gcd_nat_divides(y, r, d);
        let k1 = choose|k: int| #[trigger] times(g, k) == y as int;
        let k2 = choose|k: int| #[trigger] times(g, k) == r as int;
        assert(times(g, q * k1 + k2) == x as int) by (nonlinear_arith)
            requires
                g * k1 == y as int,
                g * k2 == r as int,
                x == q * y + r,
                times(g, q * k1 + k2) == g * (q * k1 + k2),
        ;
        if divides(d, x as int) && divides(d, y as int) {
            let m = choose|m: int| #[trigger] times(d, m) == x as int;
            let n = choose|n: int| #[trigger] times(d, n) == y as int;
            assert(times(d, m - q * n) == r as int) by (nonlinear_arith)
                requires
                    d * m == x as int,
                    d * n == y as int,
                    x == q * y + r,
                    times(d, m - q * n) == d * (m - q * n),
            ;
        }
    }
}

/// GCD answers the greatest common divisor of its arguments: the result
/// divides both, and every common divisor of both divides it.
pub proof fn law_gcd_is_greatest_common_divisor(a: i64, b: i64, d: int)
    ensures
        divides(gcd_of(a, b) as int, a as int),
        divides(gcd_of(a, b) as int, b as int),
        divides(d, a as int) && divides(d, b as int) ==> divides(d, gcd_of(a, b) as int),
{
    let x = magnitude(a);
    let y = magnitude(b);
    let g = gcd_of(a, b) as int;
    lemma_gcd_nat_divides(x, y, d);
    let k1 = choose|k: int| #[trigger] times(g, k) == x as int;
    let k2 = choose|k: int| #[trigger] times(g, k) == y as int;
    assert(times(g, -k1) == -(x as int)) by (nonlinear_arith)
        requires
            g * k1 == x as int,
            times(g, -k1) == g * (-k1),
    ;
    assert(times(g, -k2) == -(y as int)) by (nonlinear_arith)
        requires
            g * k2 == y as int,
            times(g, -k2) == g * (-k2),
    ;
    if divides(d, a as int) && divides(d, b as int) {
        let m = choose|m: int| #[trigger] times(d, m) == a as int;
        let n = choose|n: int| #[trigger] times(d, n) == b as int;
        assert(times(d, -m) == -(a as int)) by (nonlinear_arith)
            requires
                d * m == a as int,
                times(d, -m) == d * (-m),
        ;
        assert(times(d, -n) == -(b as int)) by (nonlinear_arith)
            requires
                d * n == b as int,
                times(d, -n) == d * (-n),
        ;
        assert(divides(d, x as int));
        assert(divides(d, y as int));
    }
}

proof fn lemma_divides_negate(d: int, m: int)
    requires
        divides(d, m),
    ensures
        divides(d, -m),
        divides(-d, m),
{
    let k = choose|k: int| #[trigger] times(d, k) == m;
    assert(times(d, -k) == -m) by (nonlinear_arith)
        requires
            d * k == m,
            times(d, -k) == d * (-k),
    ;
    assert(times(-d, -k) == m) by (nonlinear_arith)
        requires
            d * k == m,
            times(-d, -k) == (-d) * (-k),
    ;
}

proof fn lemma_divides_trans(a: int, b: int, c: int)
    requires
        divides(a, b),
        divides(b, c),
    ensures
        divides(a, c),
{
    let k = choose|k: int| #[trigger] times(a, k) == b;
    let j = choose|j: int| #[trigger] times(b, j) == c;
    assert(times(a, k * j) == c) by (nonlinear_arith)
        requires
            a * k == b,
            b * j == c,
            times(a, k * j) == a * (k * j),
    ;
}

/// The absolute value of an integer.
pub open spec fn abs_int(m: int) -> int {
    if m < 0 {
        -m
    } else {
        m
    }
}

proof fn lemma_divides_abs(d: int, m: int)
    ensures
        divides(d, m) <==> divides(abs_int(d), abs_int(m)),
{
    if divides(d, m) {
        lemma_divides_negate(d, m);
        lemma_divides_negate(d, -m);
        lemma_divides_negate(-d, m);
    }
    if divides(abs_int(d), abs_int(m)) {
        let e = abs_int(d);
        let n = abs_int(m);
        lemma_divides_negate(e, n);
        lemma_divides_negate(e, -n);
        lemma_divides_negate(-e, n);
    }
}

proof fn lemma_mod_scale(k: int, x: int, y: int)
    requires
        k > 0,
        y > 0,
        x >= 0,
    ensures
        (k * x) % (k * y) == k * (x % y),
{
    let q = x / y;
    let r = x % y;
    assert(x == q * y + r && 0 <= r < y) by (nonlinear_arith)
        requires
            y > 0,
            q == x / y,
            r == x % y,
    ;
    assert(k * x == q * (k * y) + k * r && 0 <= k * r < k * y) by (nonlinear_arith)
        requires
            x == q * y + r,
            0 <= r < y,
            k > 0,
    ;
    lemma_fundamental_div_mod_converse(k * x, k * y, q, k * r);
}

proof fn lemma_gcd_scale(k: nat, x: nat, y: nat)
    ensures
        gcd_nat(k * x, k * y) == k * gcd_nat(x, y),
    decreases y,
{
    if y == 0 {
        assert(k * y == 0) by (nonlinear_arith)
            requires
                y == 0,
        ;
    } else if k == 0 {
        assert(k * x == 0 && k * y == 0) by (nonlinear_arith)
            requires
                k == 0,
        ;
    } else {
        assert(k * y > 0) by (nonlinear_arith)
            requires
                k > 0,
                y > 0,
        ;
        lemma_mod_scale(k as int, x as int, y as int);
        let r = x % y;
        assert(r < y) by (nonlinear_arith)
            requires
                y > 0,
                r == x % y,
        ;
        lemma_gcd_scale(k, y, r);
        assert((k * x) % (k * y) == k * r);
    }
}

/// LCM of two integers is their least common multiple: both divide it, and
/// it divides every common multiple of both.
proof fn lemma_lcm_pair(a: i64, b: i64, m: int)
    ensures
        divides(a as int, lcm_of(a, b)),
        divides(b as int, lcm_of(a, b)),
        divides(a as int, m) && divides(b as int, m) ==> divides(lcm_of(a, b), m),
{
    if a == 0 || b == 0 {
        assert(times(a as int, 0) == 0);
        assert(times(b as int, 0) == 0);
        if divides(a as int, m) && divides(b as int, m) {
            let k = choose|k: int| #[trigger] times(0, k) == m;
            assert(m == 0);
            assert(times(0, 0) == 0);
        }
    } else {
        let x = magnitude(a);
        let y = magnitude(b);
        lemma_gcd_bounds(x, y);
        let g = gcd_nat(x, y);
        lemma_gcd_nat_divides(x, y, 0);
        let p = choose|k: int| #[trigger] times(g as int, k) == x as int;
        let q = choose|k: int| #[trigger] times(g as int, k) == y as int;
        lemma_fundamental_div_mod_converse(x as int, g as int, p, 0);
        let l = lcm_of(a, b);
        assert(l == p * (y as int));
        assert(times(y as int, p) == l);
        assert(times(x as int, q) == l) by (nonlinear_arith)
            requires
                g * p == x as int,
                g * q == y as int,
                l == p * (y as int),
                times(x as int, q) == (x as int) * q,
        ;
        assert(abs_int(a as int) == x && abs_int(b as int) == y && abs_int(l) == l);
        lemma_divides_abs(a as int, l);
        lemma_divides_abs(b as int, l);
        if divides(a as int, m) && divides(b as int, m) {
            lemma_divides_abs(a as int, m);
            lemma_divides_abs(b as int, m);
            let mm = abs_int(m);
            let s = choose|k: int| #[trigger] times(x as int, k) == mm;
            let t = choose|k: int| #[trigger] times(y as int, k) == mm;
            assert(mm >= 0);
            let mn = mm as nat;
            assert(times((x * y) as int, s) == (mn * y) as int) by (nonlinear_arith)
                requires
                    (x as int) * s == mm,
                    mn == mm,
                    times((x * y) as int, s) == ((x * y) as int) * s,
            ;
            assert(times((x * y) as int, t) == (mn * x) as int) by (nonlinear_arith)
                requires
                    (y as int) * t == mm,
                    mn == mm,
                    times((x * y) as int, t) == ((x * y) as int) * t,
            ;
            lemma_gcd_nat_divides(mn * x, mn * y, (x * y) as int);
            lemma_gcd_scale(mn, x, y);
            let u = choose|k: int| #[trigger] times((x * y) as int, k) == (mn * g) as int;
            assert(times(l, u) == mm) by (nonlinear_arith)
                requires
                    ((x * y) as int) * u == (mn * g) as int,
                    g * p == x as int,
                    g * q == y as int,
                    l == p * (y as int),
                    g > 0,
                    mn == mm,
                    times(l, u) == l * u,
            ;
            lemma_divides_abs(l, m);
        }
    }
}

/// Every argument of `s` is an integer.
pub open spec fn all_int_args(s: Seq<Val>) -> bool {
    forall|k: int| 0 <= k < s.len() ==> (#[trigger] s[k]) is Int
}

/// LCM answers the least common multiple of its integer arguments: every
/// argument divides the result, and the result divides every common multiple
/// of them.
pub proof fn law_lcm_is_least_common_multiple(s: Seq<Val>, m: int)
    requires
        s.len() > 0,
        all_int_args(s),
        lcm_admitted(s),
    ensures
        lcm_all(s) is Ok,
        forall|k: int| 0 <= k < s.len() ==> divides((#[trigger] s[k])->Int_0 as int, lcm_all(s)->Ok_0 as int),
        (forall|k: int| 0 <= k < s.len() ==> divides((#[trigger] s[k])->Int_0 as int, m)) ==> divides(
            lcm_all(s)->Ok_0 as int,
            m,
        ),
    decreases s.len(),
{
    if s.len() == 1 {
        let x = s[0]->Int_0;
        lemma_lcm_pair(x, 1, m);
        assert(lcm_ok(x, 1));
        lemma_gcd_bounds(magnitude(x), 1);
        assert(0 <= lcm_of(x, 1) <= i64::MAX);
        assert(times(1, m) == m);
    } else {
        let p = s.drop_last();
        assert(all_int_args(p)) by {
            assert forall|k: int| 0 <= k < p.len() implies (#[trigger] p[k]) is Int by {
                assert(p[k] == s[k]);
            }
        }
        law_lcm_is_least_common_multiple(p, m);
        let g = lcm_all(p)->Ok_0;
        assert(s[s.len() - 1] is Int);
        let x = s.last()->Int_0;
        assert(lcm_ok(g, x));
        lemma_gcd_bounds(magnitude(g), magnitude(x));
        assert(0 <= lcm_of(g, x) <= i64::MAX);
        let l = lcm_all(s)->Ok_0;
        assert(l as int == lcm_of(g, x));
        lemma_lcm_pair(g, x, m);
        assert forall|k: int| 0 <= k < s.len() implies divides((#[trigger] s[k])->Int_0 as int, l as int) by {
            if k < s.len() - 1 {
                assert(p[k] == s[k]);
                lemma_divides_trans(s[k]->Int_0 as int, g as int, l as int);
            }
        }
        if forall|k: int| 0 <= k < s.len() ==> divides((#[trigger] s[k])->Int_0 as int, m) {
            assert forall|k: int| 0 <= k < p.len() implies divides((#[trigger] p[k])->Int_0 as int, m) by {
                assert(p[k] == s[k]);
            }
            assert(divides(s[s.len() - 1]->Int_0 as int, m));
        }
    }
}

/// GCD answers the greatest common divisor of its integer arguments: the
/// result divides every argument, and every common divisor of them divides
/// the result.
pub proof fn law_gcd_of_arguments(s: Seq<Val>, d: int)
    requires
        s.len() > 0,
        all_int_args(s),
        gcd_admitted(s),
    ensures
        gcd_all(s) is Ok,
        forall|k: int| 0 <= k < s.len() ==> divides(gcd_all(s)->Ok_0 as int, (#[trigger] s[k])->Int_0 as int),
        (forall|k: int| 0 <= k < s.len() ==> divides(d, (#[trigger] s[k])->Int_0 as int)) ==> divides(
            d,
            gcd_all(s)->Ok_0 as int,
        ),
    decreases s.len(),
{
    if s.len() == 1 {
        let x = s[0]->Int_0;
        assert(gcd_ok(x, 0));
        lemma_gcd_fits(x, 0);
        law_gcd_is_greatest_common_divisor(x, 0, d);
        assert(times(d, 0) == 0);
    } else {
        let p = s.drop_last();
        assert(all_int_args(p)) by {
            assert forall|k: int| 0 <= k < p.len() implies (#[trigger] p[k]) is Int by {
                assert(p[k] == s[k]);
            }
        }
        law_gcd_of_arguments(p, d);
        let g = gcd_all(p)->Ok_0;
        assert(s[s.len() - 1] is Int);
        let x = s.last()->Int_0;
        assert(gcd_ok(g, x));
        lemma_gcd_fits(g, x);
        let r = gcd_all(s)->Ok_0;
        assert(r as int == gcd_of(g, x));
        law_gcd_is_greatest_common_divisor(g, x, d);
        assert forall|k: int| 0 <= k < s.len() implies divides(r as int, (#[trigger] s[k])->Int_0 as int) by {
            if k < s.len() - 1 {
                assert(p[k] == s[k]);
                lemma_divides_trans(r as int, g as int, s[k]->Int_0 as int);
            }
        }
        if forall|k: int| 0 <= k < s.len() ==> divides(d, (#[trigger] s[k])->Int_0 as int) {
            assert forall|k: int| 0 <= k < p.len() implies divides(d, (#[trigger] p[k])->Int_0 as int) by {
                assert(p[k] == s[k]);
            }
            assert(divides(d, s[s.len() - 1]->Int_0 as int));
        }
    }
}

/// The bit pattern of the `f64` nearest to pi.
pub open spec fn pi_bits() -> u64 {
    0x4009_21fb_5444_2d18u64
}

/// TRUNCATE - Truncate toward zero, return quotient and remainder
pub struct TruncateTool;

impl Tool for TruncateTool {
    open spec fn names_itself(&self) -> bool {
        true
    }

    open spec fn spec_name(&self) -> Seq<char> {
        "TRUNCATE"@
    }

    open spec fn admits(&self, args: Seq<Val>) -> bool {
        true
    }

    fn name(&self) -> &str {
        "TRUNCATE"
    }

    fn description(&self) -> (r: &str)
        ensures
            r@ == "Truncate toward zero"@,
    {
        "Truncate toward zero"
    }

    fn execute(&self, args: &[Value]) -> (r: Result<Value, Error>)
        ensures
            outcome(r) == (float_map("TRUNCATE"@, models(args@), |b: u64| Val::Int(float_to_i64(b)))),
    {
        let b = float_arg_exec("TRUNCATE", args)?;
        Ok(Value::Int(float_to_i64_exec(b)))
    }
}



/// PHASE - Phase angle (for real numbers, 0 or pi)
pub struct PhaseToolMath;

impl Tool for PhaseToolMath {
    open spec fn names_itself(&self) -> bool {
        true
    }

    open spec fn spec_name(&self) -> Seq<char> {
        "PHASE"@
    }

    open spec fn admits(&self, args: Seq<Val>) -> bool {
        true
    }

    fn name(&self) -> &str {
        "PHASE"
    }

    fn description(&self) -> (r: &str)
        ensures
            r@ == "Return phase angle (0 for positive, pi for negative)"@,
    {
        "Return phase angle (0 for positive, pi for negative)"
    }

    fn execute(&self, args: &[Value]) -> (r: Result<Value, Error>)
        ensures
            outcome(r) == (float_map("PHASE"@, models(args@), |b: u64| Val::Float(if float_lt(b, 0) { pi_bits() } else { 0 }))),
    {
        let b = float_arg_exec("PHASE", args)?;
        let phase: u64 = if float_lt_exec(b, 0) { 0x4009_21fb_5444_2d18u64 } else { 0 };
        Ok(Value::Float(phase))
    }
}



/// FTRUNCATE - Float truncate
pub struct FtruncateTool;

impl Tool for FtruncateTool {
    open spec fn names_itself(&self) -> bool {
        true
    }

    open spec fn spec_name(&self) -> Seq<char> {
        "FTRUNCATE"@
    }

    open spec fn admits(&self, args: Seq<Val>) -> bool {
        true
    }

    fn name(&self) -> &str {
        "FTRUNCATE"
    }

    fn description(&self) -> (r: &str)
        ensures
            r@ == "Truncate toward zero, return float"@,
    {
        "Truncate toward zero, return float"
    }

    fn execute(&self, args: &[Value]) -> (r: Result<Value, Error>)
        ensures
            outcome(r) == (float_map("FTRUNCATE"@, models(args@), |b: u64| Val::Float(rounded_float(b, rounding_whole(Rounding::Trunc, b))))),
    {
        let b = float_arg_exec("FTRUNCATE", args)?;
        Ok(Value::Float(round_float_exec(&Rounding::Trunc, b)))
    }
}



/// FFLOOR - Float floor
pub struct FfloorTool;

impl Tool for FfloorTool {
    open spec fn names_itself(&self) -> bool {
        true
    }

    open spec fn spec_name(&self) -> Seq<char> {
        "FFLOOR"@
    }

    open spec fn admits(&self, args: Seq<Val>) -> bool {
        true
    }

    fn name(&self) -> &str {
        "FFLOOR"
    }

    fn description(&self) -> (r: &str)
        ensures
            r@ == "Floor function, return float"@,
    {
        "Floor function, return float"
    }

    fn execute(&self, args: &[Value]) -> (r: Result<Value, Error>)
        ensures
            outcome(r) == (float_map("FFLOOR"@, models(args@), |b: u64| Val::Float(rounded_float(b, rounding_whole(Rounding::Floor, b))))),
    {
        let b = float_arg_exec("FFLOOR", args)?;
        Ok(Value::Float(round_float_exec(&Rounding::Floor, b)))
    }
}



/// FCEILING - Float ceiling
pub struct FceilingTool;

impl Tool for FceilingTool {
    open spec fn names_itself(&self) -> bool {
        true
    }

    open spec fn spec_name(&self) -> Seq<char> {
        "FCEILING"@
    }

    open spec fn admits(&self, args: Seq<Val>) -> bool {
        true
    }

    fn name(&self) -> &str {
        "FCEILING"
    }

    fn description(&self) -> (r: &str)
        ensures
            r@ == "Ceiling function, return float"@,
    {
        "Ceiling function, return float"
    }

    fn execute(&self, args: &[Value]) -> (r: Result<Value, Error>)
        ensures
            outcome(r) == (float_map("FCEILING"@, models(args@), |b: u64| Val::Float(rounded_float(b, rounding_whole(Rounding::Ceil, b))))),
    {
        let b = float_arg_exec("FCEILING", args)?;
        Ok(Value::Float(round_float_exec(&Rounding::Ceil, b)))
    }
}



/// FROUND - Float round
pub struct FroundTool;

impl Tool for FroundTool {
    open spec fn names_itself(&self) -> bool {
        true
    }

    open spec fn spec_name(&self) -> Seq<char> {
        "FROUND"@
    }

    open spec fn admits(&self, args: Seq<Val>) -> bool {
        true
    }

    fn name(&self) -> &str {
        "FROUND"
    }

    fn description(&self) -> (r: &str)
        ensures
            r@ == "Round to nearest integer, return float"@,
    {
        "Round to nearest integer, return float"
    }

    fn execute(&self, args: &[Value]) -> (r: Result<Value, Error>)
        ensures
            outcome(r) == (float_map("FROUND"@, models(args@), |b: u64| Val::Float(rounded_float(b, rounding_whole(Rounding::Nearest, b))))),
    {
        let b = float_arg_exec("FROUND", args)?;
        Ok(Value::Float(round_float_exec(&Rounding::Nearest, b)))
    }
}


} // verus!
