use solisp_tools::sorting::{sorts_before_exec, stable_sort_values};
use solisp_tools::tools::stdlib::lists_advanced::{SortByTool, StableSortTool};
use solisp_tools::tools::stdlib::sequences_advanced::{SortByKeyTool, StableSortByKeyTool};
use solisp_tools::tools::Tool;
use solisp_tools::value::Value;

fn i(n: i64) -> Value {
    Value::Int(n)
}

fn f(x: f64) -> Value {
    Value::Float(x.to_bits())
}

fn s(x: &str) -> Value {
    Value::String(x.to_string())
}

#[test]
fn integers_and_strings_come_out_in_order() {
    let out = StableSortTool.execute(&[Value::Array(vec![i(3), i(-1), i(2), i(-1)])]).unwrap();
    assert_eq!(out, Value::Array(vec![i(-1), i(-1), i(2), i(3)]));
    let out = SortByTool.execute(&[Value::Array(vec![s("pear"), s("Apple"), s("apple"), s("äpfel")])]).unwrap();
    assert_eq!(out, Value::Array(vec![s("Apple"), s("apple"), s("pear"), s("äpfel")]));
}

#[test]
fn floats_order_by_value_and_zeros_keep_their_order() {
    let out = stable_sort_values(&[f(2.5), f(0.0), f(-1.0), f(-0.0), f(f64::INFINITY), f(f64::NEG_INFINITY)]);
    assert_eq!(out, vec![f(f64::NEG_INFINITY), f(-1.0), f(0.0), f(-0.0), f(2.5), f(f64::INFINITY)]);
    assert!(sorts_before_exec(&f(-2.0), &f(-1.5)));
    assert!(!sorts_before_exec(&f(f64::NAN), &f(1.0)));
    assert!(!sorts_before_exec(&f(1.0), &f(f64::NAN)));
}

#[test]
fn equal_elements_keep_their_order() {
    // Values of different kinds compare equal, so they never pass each other.
    let out = StableSortTool.execute(&[Value::Array(vec![Value::Null, i(1), Value::Bool(true)])]).unwrap();
    assert_eq!(out, Value::Array(vec![Value::Null, i(1), Value::Bool(true)]));
    let out = stable_sort_values(&[f(0.0), f(-0.0), f(0.0)]);
    assert_eq!(out, vec![f(0.0), f(-0.0), f(0.0)]);
}

#[test]
fn sorting_errors_and_sequences() {
    assert!(StableSortTool.execute(&[]).is_err());
    assert!(SortByTool.execute(&[i(1)]).is_err());
    assert_eq!(SortByKeyTool.execute(&[]).unwrap(), Value::Array(vec![]));
    assert_eq!(SortByKeyTool.execute(&[s("cba")]).unwrap(), s("cba"));
    assert_eq!(
        StableSortByKeyTool.execute(&[Value::Array(vec![s("b"), s("a")])]).unwrap(),
        Value::Array(vec![s("a"), s("b")])
    );
}
