use solisp_tools::error::Error;
use solisp_tools::tools::stdlib::characters::{
    AlphaCharPTool, AlphanumericPTool, CharEqualITool, CharLessITool, CharNameTool, CharacterpTool, DigitCharPTool,
    LowerCasePTool, NameCharTool, UpperCasePTool, WhitespacePTool,
};
use solisp_tools::tools::Tool;
use solisp_tools::value::Value;

fn s(x: &str) -> Value {
    Value::String(x.to_string())
}

fn t() -> Value {
    Value::Bool(true)
}

fn f() -> Value {
    Value::Bool(false)
}

#[test]
fn character_classes_follow_unicode() {
    assert_eq!(AlphaCharPTool.execute(&[s("é")]).unwrap(), t());
    assert_eq!(AlphaCharPTool.execute(&[s("7")]).unwrap(), f());
    assert_eq!(AlphanumericPTool.execute(&[s("٣")]).unwrap(), t());
    assert_eq!(AlphanumericPTool.execute(&[s("-")]).unwrap(), f());
    assert_eq!(WhitespacePTool.execute(&[s("\u{2003}")]).unwrap(), t());
    assert_eq!(WhitespacePTool.execute(&[s("x")]).unwrap(), f());
    assert_eq!(UpperCasePTool.execute(&[s("Ä")]).unwrap(), t());
    assert_eq!(UpperCasePTool.execute(&[s("ä")]).unwrap(), f());
    assert_eq!(LowerCasePTool.execute(&[s("ß")]).unwrap(), t());
    assert_eq!(DigitCharPTool.execute(&[s("5")]).unwrap(), t());
    assert_eq!(CharacterpTool.execute(&[s("ab")]).unwrap(), f());
    assert_eq!(CharacterpTool.execute(&[Value::Int(1)]).unwrap(), f());
    match AlphaCharPTool.execute(&[s("")]) {
        Err(Error::InvalidArguments { reason, .. }) => assert_eq!(reason, "Empty string"),
        other => panic!("unexpected {:?}", other),
    }
}

#[test]
fn case_insensitive_comparisons_and_names() {
    assert_eq!(CharEqualITool.execute(&[s("Ä"), s("ä")]).unwrap(), t());
    assert_eq!(CharEqualITool.execute(&[s("a"), s("b")]).unwrap(), f());
    assert_eq!(CharLessITool.execute(&[s("a"), s("B"), s("c")]).unwrap(), t());
    assert_eq!(CharNameTool.execute(&[s(" ")]).unwrap(), s("Space"));
    assert_eq!(CharNameTool.execute(&[s("a")]).unwrap(), Value::Null);
    assert_eq!(NameCharTool.execute(&[s("NEWLINE")]).unwrap(), s("\n"));
    assert_eq!(NameCharTool.execute(&[s("bell")]).unwrap(), Value::Null);
}

#[test]
fn char_name_round_trip() {
    for c in [" ", "\n", "\t", "\r", "\0"] {
        let name = CharNameTool.execute(&[s(c)]).unwrap();
        assert_eq!(NameCharTool.execute(&[name.clone()]).unwrap(), s(c));
        if let Value::String(n) = name {
            assert_eq!(NameCharTool.execute(&[s(&n.to_uppercase())]).unwrap(), s(c));
        }
    }
    assert_eq!(NameCharTool.execute(&[s("SPACE")]).unwrap(), s(" "));
    assert_eq!(CharNameTool.execute(&[s("a")]).unwrap(), Value::Null);
    assert_eq!(NameCharTool.execute(&[s("bell")]).unwrap(), Value::Null);
}
