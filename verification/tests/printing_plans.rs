use solisp_tools::error::Error;
use solisp_tools::tools::stdlib::compiler_eval::{disassembly, macro_info};
use solisp_tools::tools::stdlib::conditions::plan_assert;
use solisp_tools::tools::stdlib::format::{plan_format, FormatPiece};
use solisp_tools::tools::stdlib::numeric::{plan_coerce, Coercion};
use solisp_tools::tools::stdlib::strings::{fill_braces_exec, plain_text_exec};
use solisp_tools::value::Value;

fn s(x: &str) -> Value {
    Value::String(x.to_string())
}

fn i(n: i64) -> Value {
    Value::Int(n)
}

/// The text of the pieces, with floats and shown values marked.
fn text(pieces: &[FormatPiece]) -> String {
    pieces
        .iter()
        .map(|p| match p {
            FormatPiece::Text(t) => t.clone(),
            FormatPiece::Shown(v) => format!("<{:?}>", v),
            FormatPiece::Fixed(b) => format!("<F{}>", f64::from_bits(*b)),
            FormatPiece::Exponent(b) => format!("<E{}>", f64::from_bits(*b)),
        })
        .collect()
}

#[test]
fn format_directives() {
    let p = plan_format("x=~a, hex ~X~%~~ ~S ~c~T!", &[s("hi"), i(255), s("q"), i(955)]).unwrap();
    assert_eq!(text(&p), "x=hi, hex ff\n~ \"q\" λ    !");
    let p = plan_format("~D and ~* then ~D", &[i(1), i(2), i(3)]).unwrap();
    assert_eq!(text(&p), "1 and  then 3");
    let p = plan_format("~A ~F ~E", &[i(7), i(2), Value::Float(1.5f64.to_bits())]).unwrap();
    assert_eq!(text(&p), "<Int(7)> <F2> <E1.5>");
    let p = plan_format("~Q~A and ~A", &[s("only")]).unwrap();
    assert_eq!(text(&p), "~Qonly and ");
    let p = plan_format("end~", &[]).unwrap();
    assert_eq!(text(&p), "end");
    match plan_format("~D", &[s("x")]) {
        Err(Error::InvalidArguments { tool, reason }) => {
            assert_eq!(tool, "FORMAT");
            assert_eq!(reason, "~D requires numeric argument");
        }
        other => panic!("unexpected {:?}", other.map(|p| text(&p))),
    }
}

#[test]
fn placeholders_and_plain_text() {
    let r = vec!["World".to_string(), "{}".to_string(), "x".to_string()];
    assert_eq!(fill_braces_exec("Hello {}! {} {}", &r[..1]), "Hello World! {} {}");
    // A rendering holding a placeholder is filled by the next rendering.
    assert_eq!(fill_braces_exec("a{}b", &r[1..]), "axb");
    assert_eq!(fill_braces_exec("none", &r), "none");
    assert_eq!(plain_text_exec(&i(-3)), Some("-3".to_string()));
    assert_eq!(plain_text_exec(&Value::Bool(false)), Some("false".to_string()));
    assert_eq!(plain_text_exec(&Value::Null), Some("null".to_string()));
    assert_eq!(plain_text_exec(&Value::Float(1.0f64.to_bits())), None);
}

#[test]
fn coercions() {
    match plan_coerce(&[i(3), s("float")]).unwrap() {
        Coercion::Done(v) => assert_eq!(v, Value::Float(3.0f64.to_bits())),
        _ => panic!("expected a float"),
    }
    match plan_coerce(&[s("ab"), s("List")]).unwrap() {
        Coercion::Done(v) => assert_eq!(v, Value::Array(vec![s("a"), s("b")])),
        _ => panic!("expected a list"),
    }
    assert!(matches!(plan_coerce(&[i(3), s("string")]).unwrap(), Coercion::Printed(Value::Int(3))));
    match plan_coerce(&[i(3), s("vector")]) {
        Err(Error::InvalidArguments { reason, .. }) => assert_eq!(reason, "Unknown type: vector"),
        _ => panic!("expected an error"),
    }
    assert!(matches!(plan_coerce(&[i(3), s("array")]), Err(Error::TypeError { .. })));
    assert!(plan_coerce(&[i(3)]).is_err());
}

#[test]
fn assertions_and_macro_answers() {
    assert!(matches!(plan_assert(&[Value::Bool(true)]), Ok(None)));
    assert!(matches!(plan_assert(&[i(0)]), Ok(Some(None))));
    assert!(matches!(plan_assert(&[i(0), s("why")]), Ok(Some(Some(Value::String(_))))));
    assert!(plan_assert(&[]).is_err());
    match disassembly("f") {
        Value::Object(m) => {
            assert_eq!(m.get("message"), Some(&s("Disassembly not available for f")));
            assert_eq!(m.get("available"), Some(&Value::Bool(false)));
        }
        other => panic!("unexpected {:?}", other),
    }
    match macro_info("m") {
        Value::Object(m) => assert_eq!(m.get("body"), Some(&Value::Null)),
        other => panic!("unexpected {:?}", other),
    }
}
