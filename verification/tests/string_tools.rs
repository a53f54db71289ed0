use solisp_tools::error::Error;
use solisp_tools::tools::stdlib::strings::{
    BothCasePTool, CharAtTool, CharCodeTool, CharTool, CodeCharTool, ConcatenateTool, CountOccurrencesTool, EndsWithTool,
    ListToStringTool, MakeStringTool, NstringCapitalizeTool, PositionTool, ReplaceAllTool, ReplaceTool, ReverseTool,
    SearchTool, StringCapitalizeTool, StringContainsTool, StringDowncaseTool, StringEqualp, StringGreaterTool,
    StringJoinTool, StringLengthTool, StringLessTool, StringLesspTool, StringNotEqualTool, StringSplitTool,
    StringStartsWithTool, StringToListTool, StringTrimTool, StringLeftTrimTool, StringRightTrimTool, StringUpcasePTool,
    StringUpcaseTool, SubseqTool, SubstringTool,
};
use solisp_tools::tools::Tool;
use solisp_tools::value::Value;

fn s(x: &str) -> Value {
    Value::String(x.to_string())
}

fn arr(v: Vec<Value>) -> Value {
    Value::Array(v)
}

#[test]
fn upcase_and_downcase_follow_unicode() {
    assert_eq!(StringUpcaseTool.execute(&[s("straße")]).unwrap(), s("STRASSE"));
    assert_eq!(StringDowncaseTool.execute(&[s("HeLLo")]).unwrap(), s("hello"));
    match StringUpcaseTool.execute(&[]) {
        Err(Error::InvalidArguments { tool, reason }) => {
            assert_eq!(tool, "STRING-UPCASE");
            assert_eq!(reason, "Expected string argument");
        }
        other => panic!("unexpected {:?}", other),
    }
    match StringUpcaseTool.execute(&[Value::Int(3)]) {
        Err(Error::TypeError { expected, got }) => {
            assert_eq!(expected, "string");
            assert_eq!(got, "int");
        }
        other => panic!("unexpected {:?}", other),
    }
}

#[test]
fn capitalize_words() {
    assert_eq!(StringCapitalizeTool.execute(&[s("hello wORLD  x")]).unwrap(), s("Hello World  X"));
    assert_eq!(NstringCapitalizeTool.execute(&[s("hello WORLD")]).unwrap(), s("Hello WORLD"));
    assert_eq!(NstringCapitalizeTool.execute(&[s("")]).unwrap(), s(""));
}

#[test]
fn trimming() {
    assert_eq!(StringTrimTool.execute(&[s("  a b \t\n")]).unwrap(), s("a b"));
    assert_eq!(StringLeftTrimTool.execute(&[s("  a b  ")]).unwrap(), s("a b  "));
    assert_eq!(StringRightTrimTool.execute(&[s("  a b  ")]).unwrap(), s("  a b"));
    assert_eq!(StringTrimTool.execute(&[s("   ")]).unwrap(), s(""));
}

#[test]
fn subseq_on_strings_and_arrays() {
    assert_eq!(SubseqTool.execute(&[s("héllo"), Value::Int(1), Value::Int(3)]).unwrap(), s("él"));
    assert_eq!(SubseqTool.execute(&[s("hello"), Value::Int(2)]).unwrap(), s("llo"));
    assert_eq!(
        SubstringTool.execute(&[arr(vec![Value::Int(1), Value::Int(2), Value::Int(3)]), Value::Int(1)]).unwrap(),
        arr(vec![Value::Int(2), Value::Int(3)])
    );
    match SubseqTool.execute(&[s("abc"), Value::Int(2), Value::Int(1)]) {
        Err(Error::InvalidArguments { tool, reason }) => {
            assert_eq!(tool, "SUBSEQ");
            assert_eq!(reason, "Invalid subsequence bounds");
        }
        other => panic!("unexpected {:?}", other),
    }
    match SubseqTool.execute(&[Value::Int(5), Value::Int(0)]) {
        Err(Error::TypeError { expected, got }) => {
            assert_eq!(expected, "string or array");
            assert_eq!(got, "int");
        }
        other => panic!("unexpected {:?}", other),
    }
}

#[test]
fn char_access() {
    assert_eq!(CharAtTool.execute(&[s("abc"), Value::Int(1)]).unwrap(), s("b"));
    match CharAtTool.execute(&[s("abc"), Value::Int(3)]) {
        Err(Error::IndexOutOfBounds { index, length }) => {
            assert_eq!(index, 3);
            assert_eq!(length, 3);
        }
        other => panic!("unexpected {:?}", other),
    }
    match CharTool.execute(&[s("abc"), Value::Int(7)]) {
        Err(Error::InvalidArguments { tool, reason }) => {
            assert_eq!(tool, "CHAR");
            assert_eq!(reason, "Index 7 out of bounds");
        }
        other => panic!("unexpected {:?}", other),
    }
}

#[test]
fn comparisons() {
    assert_eq!(StringLessTool.execute(&[s("apple"), s("banana")]).unwrap(), Value::Bool(true));
    assert_eq!(StringLessTool.execute(&[s("b"), s("a")]).unwrap(), Value::Bool(false));
    assert_eq!(StringLessTool.execute(&[s("ab"), s("abc")]).unwrap(), Value::Bool(true));
    assert_eq!(StringGreaterTool.execute(&[s("Z"), s("a")]).unwrap(), Value::Bool(false));
    assert_eq!(StringLesspTool.execute(&[s("Z"), s("a")]).unwrap(), Value::Bool(false));
    assert_eq!(StringLesspTool.execute(&[s("a"), s("Z")]).unwrap(), Value::Bool(true));
    assert_eq!(StringEqualp.execute(&[s("HeLLo"), s("hello")]).unwrap(), Value::Bool(true));
    assert_eq!(StringNotEqualTool.execute(&[s("a"), s("a")]).unwrap(), Value::Bool(false));
}

#[test]
fn make_string_and_concatenate() {
    assert_eq!(MakeStringTool.execute(&[Value::Int(3), s("xy")]).unwrap(), s("xxx"));
    assert_eq!(MakeStringTool.execute(&[Value::Int(2)]).unwrap(), s("  "));
    assert_eq!(ConcatenateTool.execute(&[s("ab"), s("cd")]).unwrap(), s("abcd"));
    assert_eq!(
        ConcatenateTool.execute(&[arr(vec![Value::Int(1)]), arr(vec![Value::Int(2)])]).unwrap(),
        arr(vec![Value::Int(1), Value::Int(2)])
    );
    assert_eq!(ConcatenateTool.execute(&[]).unwrap(), s(""));
    match ConcatenateTool.execute(&[s("a"), Value::Int(1)]) {
        Err(Error::TypeError { expected, got }) => {
            assert_eq!(expected, "all strings or all arrays");
            assert_eq!(got, "mixed types");
        }
        other => panic!("unexpected {:?}", other),
    }
}

#[test]
fn char_codes() {
    assert_eq!(CharCodeTool.execute(&[s("A")]).unwrap(), Value::Int(65));
    assert_eq!(CodeCharTool.execute(&[Value::Int(955)]).unwrap(), s("λ"));
    match CodeCharTool.execute(&[Value::Int(0xD800)]) {
        Err(Error::InvalidArguments { reason, .. }) => assert_eq!(reason, "Invalid Unicode code point: 55296"),
        other => panic!("unexpected {:?}", other),
    }
    match CharCodeTool.execute(&[s("")]) {
        Err(Error::InvalidArguments { reason, .. }) => assert_eq!(reason, "Empty string"),
        other => panic!("unexpected {:?}", other),
    }
}

#[test]
fn searching_reports_byte_offsets() {
    assert_eq!(SearchTool.execute(&[s("lo"), s("hello")]).unwrap(), Value::Int(3));
    assert_eq!(SearchTool.execute(&[s("z"), s("hello")]).unwrap(), Value::Null);
    assert_eq!(SearchTool.execute(&[s("b"), s("éb")]).unwrap(), Value::Int(2));
    assert_eq!(PositionTool.execute(&[s("l"), s("hello")]).unwrap(), Value::Int(2));
    assert_eq!(CountOccurrencesTool.execute(&[s("aa"), s("aaaaa")]).unwrap(), Value::Int(2));
    assert_eq!(CountOccurrencesTool.execute(&[s(""), s("abc")]).unwrap(), Value::Int(0));
    assert_eq!(StringContainsTool.execute(&[s("hello"), s("ell")]).unwrap(), Value::Bool(true));
    assert_eq!(StringStartsWithTool.execute(&[s("hello"), s("he")]).unwrap(), Value::Bool(true));
    assert_eq!(EndsWithTool.execute(&[s("hello"), s("lo")]).unwrap(), Value::Bool(true));
    assert_eq!(EndsWithTool.execute(&[s("lo"), s("hello")]).unwrap(), Value::Bool(false));
}

#[test]
fn replacing() {
    assert_eq!(ReplaceTool.execute(&[s("a-b-c"), s("-"), s("+")]).unwrap(), s("a+b-c"));
    assert_eq!(ReplaceAllTool.execute(&[s("a-b-c"), s("-"), s("+")]).unwrap(), s("a+b+c"));
    assert_eq!(ReplaceAllTool.execute(&[s("aaa"), s("aa"), s("b")]).unwrap(), s("ba"));
    assert_eq!(ReplaceAllTool.execute(&[s("ab"), s(""), s("-")]).unwrap(), s("-a-b-"));
    assert_eq!(ReplaceTool.execute(&[s("ab"), s(""), s("-")]).unwrap(), s("-ab"));
}

#[test]
fn reverse_length_and_lists() {
    assert_eq!(ReverseTool.execute(&[s("abc")]).unwrap(), s("cba"));
    assert_eq!(StringLengthTool.execute(&[s("héllo")]).unwrap(), Value::Int(6));
    assert_eq!(StringToListTool.execute(&[s("ab")]).unwrap(), arr(vec![s("a"), s("b")]));
    assert_eq!(ListToStringTool.execute(&[arr(vec![s("a"), s("bc")])]).unwrap(), s("abc"));
    assert_eq!(BothCasePTool.execute(&[s("aB")]).unwrap(), Value::Bool(true));
    assert_eq!(StringUpcasePTool.execute(&[s("AB1")]).unwrap(), Value::Bool(true));
    assert_eq!(StringUpcasePTool.execute(&[s("123")]).unwrap(), Value::Bool(false));
}

#[test]
fn split_then_join_gives_the_string_back() {
    let parts = StringSplitTool.execute(&[s("a,b,,c"), s(",")]).unwrap();
    assert_eq!(parts, arr(vec![s("a"), s("b"), s(""), s("c")]));
    let joined = StringJoinTool.execute(&[parts, s(",")]).unwrap();
    assert_eq!(joined, s("a,b,,c"));
    assert_eq!(StringSplitTool.execute(&[s("ab"), s("")]).unwrap(), arr(vec![s("a"), s("b")]));
    match StringJoinTool.execute(&[arr(vec![s("a"), Value::Int(1)]), s(",")]) {
        Err(Error::TypeError { got, .. }) => assert_eq!(got, "int"),
        other => panic!("unexpected {:?}", other),
    }
}
