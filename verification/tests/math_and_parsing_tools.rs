use solisp_tools::error::Error;
use solisp_tools::tools::stdlib::advanced_math::{gcd_i64, lcm_i64, mod_ints, rem_ints, GcdTool, LcmTool};
use solisp_tools::tools::stdlib::conditions::{warning_line, ErrorTool};
use solisp_tools::tools::stdlib::parsing::{
    Base58DecodeTool, Base58EncodeTool, Base64DecodeTool, Base64EncodeTool, HexDecodeTool, HexEncodeTool, ParseCsvTool,
    ParseIntTool, UrlParseTool,
};
use solisp_tools::tools::stdlib::numeric::NegateTool;
use solisp_tools::tools::Tool;
use solisp_tools::value::Value;

fn s(x: &str) -> Value {
    Value::String(x.to_string())
}

fn i(n: i64) -> Value {
    Value::Int(n)
}

fn bytes(b: &[u8]) -> Value {
    Value::Array(b.iter().map(|x| Value::Int(*x as i64)).collect())
}

#[test]
fn gcd_and_lcm() {
    assert_eq!(GcdTool.execute(&[i(12), i(18), i(-8)]).unwrap(), i(2));
    assert_eq!(GcdTool.execute(&[]).unwrap(), i(0));
    assert_eq!(GcdTool.execute(&[i(-7)]).unwrap(), i(7));
    assert_eq!(GcdTool.execute(&[i(-4), i(6)]).unwrap(), i(2));
    assert_eq!(LcmTool.execute(&[i(-5)]).unwrap(), i(5));
    assert_eq!(LcmTool.execute(&[i(4), i(6)]).unwrap(), i(12));
    assert_eq!(LcmTool.execute(&[i(-4), i(6)]).unwrap(), i(12));
    assert_eq!(LcmTool.execute(&[]).unwrap(), i(1));
    assert_eq!(gcd_i64(i64::MIN, 6), 2);
    assert_eq!(lcm_i64(0, 5), 0);
    match GcdTool.execute(&[i(4), s("x")]) {
        Err(Error::TypeError { expected, .. }) => assert_eq!(expected, "int"),
        other => panic!("unexpected {:?}", other),
    }
}

#[test]
fn mod_and_rem_signs() {
    assert_eq!(mod_ints(-7, 3).unwrap(), i(2));
    assert_eq!(rem_ints(-7, 3).unwrap(), i(-1));
    assert_eq!(mod_ints(7, -3).unwrap(), i(-2));
    assert_eq!(mod_ints(7, -2).unwrap(), i(-1));
    assert_eq!(mod_ints(-7, 2).unwrap(), i(1));
    assert_eq!(mod_ints(6, -3).unwrap(), i(0));
    assert_eq!(rem_ints(7, -3).unwrap(), i(1));
    match mod_ints(1, 0) {
        Err(Error::ToolExecutionError { tool, reason }) => {
            assert_eq!(tool, "MOD");
            assert_eq!(reason, "Division by zero");
        }
        other => panic!("unexpected {:?}", other),
    }
}

#[test]
fn error_tool_and_warning_line() {
    match ErrorTool.execute(&[s("boom")]) {
        Err(Error::ToolExecutionError { tool, reason }) => {
            assert_eq!(tool, "ERROR");
            assert_eq!(reason, "boom");
        }
        other => panic!("unexpected {:?}", other),
    }
    assert_eq!(warning_line(&[]).unwrap(), "WARNING: Warning");
}

#[test]
fn hex_round_trip() {
    assert_eq!(HexEncodeTool.execute(&[bytes(&[0xde, 0xad, 0x01])]).unwrap(), s("dead01"));
    assert_eq!(HexEncodeTool.execute(&[bytes(&[0xab]), Value::Bool(true)]).unwrap(), s("0xab"));
    assert_eq!(HexDecodeTool.execute(&[s("0xdead01")]).unwrap(), bytes(&[0xde, 0xad, 0x01]));
    match HexDecodeTool.execute(&[s("zz")]) {
        Err(Error::ToolExecutionError { tool, reason }) => {
            assert_eq!(tool, "hex-decode");
            assert!(reason.starts_with("Failed to decode hex: "));
        }
        other => panic!("unexpected {:?}", other),
    }
}

#[test]
fn base58_and_base64_round_trip() {
    let b58 = Base58EncodeTool.execute(&[bytes(b"hello")]).unwrap();
    assert_eq!(b58, s("Cn8eVZg"));
    assert_eq!(Base58DecodeTool.execute(&[b58]).unwrap(), bytes(b"hello"));
    let b64 = Base64EncodeTool.execute(&[bytes(b"hi!")]).unwrap();
    assert_eq!(b64, s("aGkh"));
    assert_eq!(Base64DecodeTool.execute(&[b64]).unwrap(), bytes(b"hi!"));
    assert!(Base64DecodeTool.execute(&[s("@@@")]).is_err());
}

#[test]
fn url_and_integer_parsing() {
    let u = UrlParseTool.execute(&[s("https://example.com:8080/a/b?x=1#frag")]).unwrap();
    match u {
        Value::Object(m) => {
            assert_eq!(m.get("scheme"), Some(&s("https")));
            assert_eq!(m.get("host"), Some(&s("example.com")));
            assert_eq!(m.get("port"), Some(&i(8080)));
            assert_eq!(m.get("path"), Some(&s("/a/b")));
            assert_eq!(m.get("query"), Some(&s("x=1")));
            assert_eq!(m.get("fragment"), Some(&s("frag")));
        }
        other => panic!("unexpected {:?}", other),
    }
    assert!(UrlParseTool.execute(&[s("not a url")]).is_err());
    assert_eq!(ParseIntTool.execute(&[s("ff"), i(16)]).unwrap(), i(255));
    assert_eq!(ParseIntTool.execute(&[s("-42")]).unwrap(), i(-42));
    match ParseIntTool.execute(&[s("4x")]) {
        Err(Error::ToolExecutionError { tool, reason }) => {
            assert_eq!(tool, "parse-int");
            assert!(reason.starts_with("Failed to parse integer: "));
        }
        other => panic!("unexpected {:?}", other),
    }
}

#[test]
fn csv_records_become_objects() {
    let r = ParseCsvTool.execute(&[s("name,age\nAlice,30\nBob,25\n")]).unwrap();
    match r {
        Value::Array(rows) => {
            assert_eq!(rows.len(), 2);
            match &rows[1] {
                Value::Object(m) => {
                    assert_eq!(m.get("name"), Some(&s("Bob")));
                    assert_eq!(m.get("age"), Some(&s("25")));
                }
                other => panic!("unexpected {:?}", other),
            }
        }
        other => panic!("unexpected {:?}", other),
    }
    let r = ParseCsvTool.execute(&[s("a;b\n1;2\n"), s(";")]).unwrap();
    match r {
        Value::Array(rows) => assert_eq!(rows.len(), 1),
        other => panic!("unexpected {:?}", other),
    }
}

#[test]
fn negate_integers_and_floats() {
    assert_eq!(NegateTool.execute(&[i(5)]).unwrap(), i(-5));
    assert_eq!(NegateTool.execute(&[i(i64::MAX)]).unwrap(), i(-i64::MAX));
    assert_eq!(NegateTool.execute(&[Value::Float(2.5f64.to_bits())]).unwrap(), Value::Float((-2.5f64).to_bits()));
    assert_eq!(NegateTool.execute(&[Value::Float(0.0f64.to_bits())]).unwrap(), Value::Float((-0.0f64).to_bits()));
    match NegateTool.execute(&[s("x")]) {
        Err(Error::TypeError { expected, got }) => {
            assert_eq!(expected, "number");
            assert_eq!(got, "string");
        }
        other => panic!("unexpected {:?}", other),
    }
    assert!(NegateTool.execute(&[]).is_err());
}

#[test]
fn base64_padding_of_each_remainder() {
    assert_eq!(Base64EncodeTool.execute(&[bytes(b"")]).unwrap(), s(""));
    assert_eq!(Base64EncodeTool.execute(&[bytes(b"M")]).unwrap(), s("TQ=="));
    assert_eq!(Base64EncodeTool.execute(&[bytes(b"Ma")]).unwrap(), s("TWE="));
    assert_eq!(Base64EncodeTool.execute(&[bytes(b"Man")]).unwrap(), s("TWFu"));
    assert_eq!(Base64EncodeTool.execute(&[bytes(&[0xfb, 0xff])]).unwrap(), s("+/8="));
}
