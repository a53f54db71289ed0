use solisp_tools::float_bits::{
    ceil_to_i64_exec, float_eq_exec, float_lt_exec, float_to_i64_exec, floor_to_i64_exec, int_to_float_bits_exec,
    round_float_exec, round_to_i64_exec, Rounding,
};
use solisp_tools::tools::stdlib::advanced_math::{FfloorTool, FroundTool, PhaseToolMath, TruncateTool};
use solisp_tools::tools::stdlib::format::{FormatBTool, FormatDTool, FormatOTool, FormatXTool};
use solisp_tools::tools::stdlib::loop_advanced::LoopMinimizeTool as RunningMinimumTool;
use solisp_tools::tools::stdlib::loop_utilities::{LoopMaximizeTool, LoopMinimizeTool};
use solisp_tools::tools::stdlib::method_combinations::{MaxMethodCombinationTool, MinMethodCombinationTool};
use solisp_tools::tools::stdlib::numeric::{
    CeilingTool, FloatTool, FloorTool, MaximumTool, MinimumTool, NumEqualTool, NumGreaterEqualTool, NumGreaterTool,
    NumLessEqualTool, NumLessTool, NumNotEqualTool, RoundTool,
};
use solisp_tools::tools::stdlib::statistics::{MaxTool, MinTool};
use solisp_tools::tools::Tool;
use solisp_tools::value::Value;

fn i(n: i64) -> Value {
    Value::Int(n)
}

fn f(x: f64) -> Value {
    Value::Float(x.to_bits())
}

fn s(x: &str) -> Value {
    Value::String(x.to_string())
}

fn samples() -> Vec<f64> {
    vec![
        0.0, -0.0, 0.3, -0.3, 0.5, -0.5, 0.7, -0.7, 1.0, -1.0, 1.5, -1.5, 2.5, -2.5, 3.49, -3.51, 1e-310, -1e-310,
        123456.789, -98765.4321, 4503599627370495.5, -4503599627370495.5, 9007199254740993.0, 1e18, -1e18,
        9.223372036854775e18, -9.223372036854775e18, 9.3e18, -9.3e18, 1e300, -1e300, f64::MAX, f64::MIN,
        f64::INFINITY, f64::NEG_INFINITY, f64::NAN, -f64::NAN, f64::MIN_POSITIVE, f64::EPSILON,
    ]
}

#[test]
fn float_to_integer_conversions_agree_with_the_hardware() {
    for x in samples() {
        let b = x.to_bits();
        assert_eq!(float_to_i64_exec(b), x as i64, "as i64 of {}", x);
        assert_eq!(floor_to_i64_exec(b), x.floor() as i64, "floor of {}", x);
        assert_eq!(ceil_to_i64_exec(b), x.ceil() as i64, "ceil of {}", x);
        assert_eq!(round_to_i64_exec(b), x.round() as i64, "round of {}", x);
    }
}

#[test]
fn integer_to_float_conversion_agrees_with_the_hardware() {
    let mut ns: Vec<i64> = vec![
        0, 1, -1, 2, 3, 7, 1 << 52, (1 << 53) - 1, 1 << 53, (1 << 53) + 1, (1 << 53) + 2, (1 << 53) + 3,
        (1 << 54) + 2, (1 << 54) + 6, (1 << 62) + 511, (1 << 62) + 512, (1 << 62) + 513, (1 << 62) + 1536,
        i64::MAX, i64::MIN, i64::MIN + 1, -(1 << 53) - 1, 123_456_789_123_456_789, -987_654_321_987_654_321,
    ];
    let mut x: u64 = 0x9e37_79b9_7f4a_7c15;
    for _ in 0..2000 {
        x ^= x << 13;
        x ^= x >> 7;
        x ^= x << 17;
        ns.push(x as i64);
        ns.push((x >> (x % 64)) as i64);
    }
    for n in ns {
        assert_eq!(int_to_float_bits_exec(n), (n as f64).to_bits(), "{} as f64", n);
    }
}

#[test]
fn float_comparisons_agree_with_the_hardware() {
    let xs = samples();
    for a in &xs {
        for b in &xs {
            assert_eq!(float_lt_exec(a.to_bits(), b.to_bits()), a < b, "{} < {}", a, b);
            assert_eq!(float_eq_exec(a.to_bits(), b.to_bits()), a == b, "{} == {}", a, b);
        }
    }
}

#[test]
fn number_tools() {
    assert_eq!(FloatTool.execute(&[i(3)]).unwrap(), f(3.0));
    assert_eq!(FloorTool.execute(&[f(-2.5)]).unwrap(), i(-3));
    assert_eq!(CeilingTool.execute(&[f(-2.5)]).unwrap(), i(-2));
    assert_eq!(RoundTool.execute(&[f(-2.5)]).unwrap(), i(-3));
    assert_eq!(RoundTool.execute(&[i(i64::MAX)]).unwrap(), i(i64::MAX));
    assert_eq!(TruncateTool.execute(&[f(-7.9)]).unwrap(), i(-7));
    assert_eq!(PhaseToolMath.execute(&[f(-0.5)]).unwrap(), f(std::f64::consts::PI));
    assert_eq!(PhaseToolMath.execute(&[i(4)]).unwrap(), f(0.0));
    assert!(FloorTool.execute(&[s("x")]).is_err());
    assert!(FloatTool.execute(&[]).is_err());
}

#[test]
fn numeric_comparisons() {
    assert_eq!(NumLessTool.execute(&[i(1), f(1.5), i(2)]).unwrap(), Value::Bool(true));
    assert_eq!(NumLessTool.execute(&[i(1), i(1)]).unwrap(), Value::Bool(false));
    assert_eq!(NumLessEqualTool.execute(&[i(1), i(1), f(2.0)]).unwrap(), Value::Bool(true));
    assert_eq!(NumGreaterTool.execute(&[i(3), i(2), f(-1.0)]).unwrap(), Value::Bool(true));
    assert_eq!(NumGreaterEqualTool.execute(&[i(3), i(4)]).unwrap(), Value::Bool(false));
    assert_eq!(NumEqualTool.execute(&[i(2), f(2.0), i(2)]).unwrap(), Value::Bool(true));
    assert_eq!(NumEqualTool.execute(&[f(f64::NAN), f(f64::NAN)]).unwrap(), Value::Bool(false));
    // A NaN never compares greater or equal, so `<` does not stop at it.
    assert_eq!(NumLessTool.execute(&[i(5), f(f64::NAN)]).unwrap(), Value::Bool(true));
    // The comparison stops at the first break, before reading later arguments.
    assert_eq!(NumLessTool.execute(&[i(2), i(1), s("x")]).unwrap(), Value::Bool(false));
    assert!(NumLessTool.execute(&[i(1), i(2), s("x")]).is_err());
    assert!(NumLessTool.execute(&[i(1)]).is_err());
    assert_eq!(NumNotEqualTool.execute(&[i(1), f(2.0), i(3)]).unwrap(), Value::Bool(true));
    assert_eq!(NumNotEqualTool.execute(&[f(0.0), f(-0.0)]).unwrap(), Value::Bool(false));
    assert!(NumNotEqualTool.execute(&[i(1), i(1), s("x")]).is_err());
}

#[test]
fn extremes() {
    assert_eq!(MinimumTool.execute(&[i(4), i(-2), i(9)]).unwrap(), i(-2));
    assert_eq!(MaximumTool.execute(&[i(4), f(9.5), i(9)]).unwrap(), f(9.5));
    assert_eq!(MaximumTool.execute(&[i(i64::MAX), i(1)]).unwrap(), i(i64::MAX));
    assert!(MinimumTool.execute(&[]).is_err());

    assert_eq!(MaxMethodCombinationTool.execute(&[i(3), f(2.5), i(7)]).unwrap(), i(7));
    assert_eq!(MaxMethodCombinationTool.execute(&[f(2.5), i(7)]).unwrap(), f(7.0));
    assert_eq!(MinMethodCombinationTool.execute(&[s("x"), i(-4), i(2)]).unwrap(), i(-4));
    assert!(MinMethodCombinationTool.execute(&[]).is_err());

    assert_eq!(RunningMinimumTool.execute(&[i(5), i(3), f(4.0)]).unwrap(), i(3));
    assert_eq!(RunningMinimumTool.execute(&[s("a"), i(3)]).unwrap(), s("a"));

    let arr = Value::Array(vec![i(5), s("x"), i(-2), i(8)]);
    assert_eq!(LoopMaximizeTool.execute(&[arr.clone()]).unwrap(), i(8));
    assert_eq!(LoopMinimizeTool.execute(&[arr]).unwrap(), i(-2));
    assert_eq!(LoopMaximizeTool.execute(&[Value::Array(vec![i(1), f(0.5)])]).unwrap(), f(1.0));
    assert_eq!(LoopMaximizeTool.execute(&[Value::Array(vec![s("x")])]).unwrap(), Value::Null);
    assert_eq!(LoopMinimizeTool.execute(&[]).unwrap(), Value::Null);
}

#[test]
fn integer_directives() {
    assert_eq!(FormatDTool.execute(&[i(-42)]).unwrap(), s("-42"));
    assert_eq!(FormatDTool.execute(&[f(-42.9)]).unwrap(), s("-42"));
    assert_eq!(FormatXTool.execute(&[i(255)]).unwrap(), s("ff"));
    assert_eq!(FormatXTool.execute(&[i(-1)]).unwrap(), s(&format!("{:x}", -1i64)));
    assert_eq!(FormatOTool.execute(&[i(8)]).unwrap(), s("10"));
    assert_eq!(FormatBTool.execute(&[i(5)]).unwrap(), s("101"));
    assert_eq!(FormatBTool.execute(&[i(0)]).unwrap(), s("0"));
    assert_eq!(FormatBTool.execute(&[i(i64::MIN)]).unwrap(), s(&format!("{:b}", i64::MIN)));
    assert!(FormatDTool.execute(&[]).is_err());
    match FormatXTool.execute(&[s("x")]) {
        Err(solisp_tools::error::Error::InvalidArguments { tool, reason }) => {
            assert_eq!(tool, "FORMAT");
            assert_eq!(reason, "~X requires numeric argument");
        }
        other => panic!("unexpected {:?}", other),
    }
}

#[test]
fn test_min_max() {
    let arr = Value::Array(vec![Value::Int(5), Value::Int(2), Value::Int(8), Value::Int(1)]);

    let min_tool = MinTool;
    assert_eq!(min_tool.execute(std::slice::from_ref(&arr)).unwrap(), Value::Float(1.0f64.to_bits()));

    let max_tool = MaxTool;
    assert_eq!(max_tool.execute(&[arr]).unwrap(), Value::Float(8.0f64.to_bits()));
}

#[test]
fn min_and_max_of_arrays_report_their_errors() {
    match MinTool.execute(&[Value::Array(vec![])]) {
        Err(solisp_tools::error::Error::EmptyCollection { operation }) => assert_eq!(operation, "MIN"),
        other => panic!("unexpected {:?}", other),
    }
    assert!(MaxTool.execute(&[]).is_err());
    assert!(MaxTool.execute(&[Value::Array(vec![i(1), s("x")])]).is_err());
    assert_eq!(MaxTool.execute(&[Value::Array(vec![f(-0.5), i(-1)])]).unwrap(), f(-0.5));
}

#[test]
fn float_valued_roundings_agree_with_the_hardware() {
    for x in samples() {
        let b = x.to_bits();
        let cases = [
            (round_float_exec(&Rounding::Trunc, b), x.trunc()),
            (round_float_exec(&Rounding::Floor, b), x.floor()),
            (round_float_exec(&Rounding::Ceil, b), x.ceil()),
            (round_float_exec(&Rounding::Nearest, b), x.round()),
        ];
        for (got, want) in cases {
            if want.is_nan() {
                assert!(f64::from_bits(got).is_nan(), "NaN from {}", x);
            } else {
                assert_eq!(got, want.to_bits(), "rounding {}", x);
            }
        }
    }
    assert_eq!(FfloorTool.execute(&[f(-0.25)]).unwrap(), f(-1.0));
    assert_eq!(FroundTool.execute(&[f(-0.25)]).unwrap(), f(-0.0));
    assert_eq!(FroundTool.execute(&[i(7)]).unwrap(), f(7.0));
}

#[test]
fn integers_of_53_bits_survive_float_and_truncate() {
    for n in [0i64, 1, -1, 12345, -(1 << 53), 1 << 53, (1 << 53) - 1, -987_654_321] {
        let x = FloatTool.execute(&[i(n)]).unwrap();
        assert_eq!(TruncateTool.execute(&[x]).unwrap(), i(n));
    }
    // One more bit and the round trip loses the low bit.
    let x = FloatTool.execute(&[i((1 << 53) + 1)]).unwrap();
    assert_eq!(TruncateTool.execute(&[x]).unwrap(), i(1 << 53));
}
