use solisp_tools::error::Error;
use solisp_tools::tools::stdlib::hash_tables::{
    AlistToHashTableTool, GethashTool, HashTableCountTool, HashTableEqualPTool, HashTableKeysTool, HashTableUpdateTool,
    MergeHashTablesTool,
};
use solisp_tools::tools::stdlib::lists_advanced::{LastNTool, LdiffTool, NthconseTool, RplaTool, RpldTool, TailpTool};
use solisp_tools::tools::stdlib::multiple_values::{GetfTool, PushnewTool};
use solisp_tools::tools::stdlib::sequences_advanced::{MismatchTool, SearchSubsequenceTool};
use solisp_tools::tools::Tool;
use solisp_tools::value::{ObjectMap, Value};

fn s(x: &str) -> Value {
    Value::String(x.to_string())
}

fn i(n: i64) -> Value {
    Value::Int(n)
}

fn arr(v: Vec<Value>) -> Value {
    Value::Array(v)
}

fn table(pairs: &[(&str, i64)]) -> Value {
    let mut m = ObjectMap::new();
    for (k, v) in pairs {
        m.insert(k.to_string(), Value::Int(*v));
    }
    Value::Object(m)
}

#[test]
fn update_then_gethash_reads_the_written_value() {
    let t = table(&[("a", 1)]);
    let t2 = HashTableUpdateTool.execute(&[t, s("b"), i(2)]).unwrap();
    assert_eq!(GethashTool.execute(&[s("b"), t2.clone()]).unwrap(), i(2));
    assert_eq!(GethashTool.execute(&[s("a"), t2.clone()]).unwrap(), i(1));
    assert_eq!(GethashTool.execute(&[s("z"), t2.clone(), i(9)]).unwrap(), i(9));
    assert_eq!(HashTableCountTool.execute(&[t2.clone()]).unwrap(), i(2));
    let t3 = HashTableUpdateTool.execute(&[t2, s("a"), i(5)]).unwrap();
    assert_eq!(HashTableCountTool.execute(&[t3.clone()]).unwrap(), i(2));
    assert_eq!(GethashTool.execute(&[s("a"), t3]).unwrap(), i(5));
}

#[test]
fn merge_later_tables_override() {
    let merged = MergeHashTablesTool.execute(&[table(&[("a", 1), ("b", 2)]), table(&[("b", 3)])]).unwrap();
    assert_eq!(GethashTool.execute(&[s("a"), merged.clone()]).unwrap(), i(1));
    assert_eq!(GethashTool.execute(&[s("b"), merged.clone()]).unwrap(), i(3));
    assert_eq!(HashTableKeysTool.execute(&[merged]).unwrap(), arr(vec![s("a"), s("b")]));
    match MergeHashTablesTool.execute(&[table(&[]), i(1)]) {
        Err(Error::TypeError { expected, got }) => {
            assert_eq!(expected, "object");
            assert_eq!(got, "int");
        }
        other => panic!("unexpected {:?}", other),
    }
}

#[test]
fn alist_round_trip_and_equality() {
    let alist = arr(vec![arr(vec![s("x"), i(1)]), i(7), arr(vec![s("y"), i(2)])]);
    let t = AlistToHashTableTool.execute(&[alist]).unwrap();
    assert_eq!(HashTableEqualPTool.execute(&[t.clone(), table(&[("y", 2), ("x", 1)])]).unwrap(), Value::Bool(true));
    assert_eq!(HashTableEqualPTool.execute(&[t, table(&[("x", 1)])]).unwrap(), Value::Bool(false));
    match GethashTool.execute(&[s("k")]) {
        Err(Error::InvalidArguments { tool, .. }) => assert_eq!(tool, "GETHASH"),
        other => panic!("unexpected {:?}", other),
    }
}

#[test]
fn list_surgery() {
    let l = arr(vec![i(1), i(2), i(3), i(4)]);
    assert_eq!(LdiffTool.execute(&[l.clone(), arr(vec![i(3), i(4)])]).unwrap(), arr(vec![i(1), i(2)]));
    assert_eq!(TailpTool.execute(&[arr(vec![i(3), i(4)]), l.clone()]).unwrap(), Value::Bool(true));
    assert_eq!(LastNTool.execute(&[l.clone(), i(2)]).unwrap(), arr(vec![i(3), i(4)]));
    assert_eq!(LastNTool.execute(&[l.clone(), i(9)]).unwrap(), l.clone());
    assert_eq!(NthconseTool.execute(&[i(1), l.clone(), s("x")]).unwrap(), arr(vec![i(1), s("x"), i(3), i(4)]));
    match NthconseTool.execute(&[i(4), l.clone(), s("x")]) {
        Err(Error::IndexOutOfBounds { index, length }) => {
            assert_eq!(index, 4);
            assert_eq!(length, 4);
        }
        other => panic!("unexpected {:?}", other),
    }
    assert_eq!(RpldTool.execute(&[l.clone(), arr(vec![i(9)])]).unwrap(), arr(vec![i(1), i(9)]));
    match RplaTool.execute(&[arr(vec![]), i(1)]) {
        Err(Error::EmptyCollection { operation }) => assert_eq!(operation, "RPLA"),
        other => panic!("unexpected {:?}", other),
    }
}

#[test]
fn sequences_and_plists() {
    let a = arr(vec![i(1), i(2), i(3)]);
    assert_eq!(MismatchTool.execute(&[a.clone(), arr(vec![i(1), i(5), i(3)])]).unwrap(), i(1));
    assert_eq!(MismatchTool.execute(&[a.clone(), arr(vec![i(1), i(2)])]).unwrap(), i(2));
    assert_eq!(MismatchTool.execute(&[a.clone(), a.clone()]).unwrap(), Value::Null);
    assert_eq!(SearchSubsequenceTool.execute(&[arr(vec![i(2), i(3)]), a.clone()]).unwrap(), i(1));
    assert_eq!(SearchSubsequenceTool.execute(&[arr(vec![i(3), i(2)]), a.clone()]).unwrap(), Value::Null);
    let plist = arr(vec![s("a"), i(1), s("b"), i(2)]);
    assert_eq!(GetfTool.execute(&[plist.clone(), s("b")]).unwrap(), i(2));
    assert_eq!(GetfTool.execute(&[plist, s("c"), i(0)]).unwrap(), i(0));
    assert_eq!(PushnewTool.execute(&[i(2), a.clone()]).unwrap(), a.clone());
    assert_eq!(PushnewTool.execute(&[i(0), a]).unwrap(), arr(vec![i(0), i(1), i(2), i(3)]));
}
