use solisp_tools::error::Error;
use solisp_tools::tools::stdlib::advanced_math::gcd_i64;
use solisp_tools::tools::stdlib::objects::merge_into;
use solisp_tools::tools::{Tool, ToolRegistry};
use solisp_tools::value::{ObjectMap, Value};

struct Named(&'static str);

impl Tool for Named {
    fn name(&self) -> &str {
        self.0
    }

    fn description(&self) -> &str {
        "named test tool"
    }

    fn execute(&self, _args: &[Value]) -> Result<Value, Error> {
        Ok(Value::String(self.0.to_string()))
    }
}

#[test]
fn register_then_found_and_replaced() {
    let mut r = ToolRegistry::empty();
    r.register(Named("beta"));
    r.register(Named("Alpha"));
    assert!(r.has("beta"));
    assert_eq!(r.count(), 2);
    r.register(Named("beta"));
    assert_eq!(r.count(), 2);
    assert_eq!(r.list_tools(), vec!["Alpha".to_string(), "beta".to_string()]);
    let t = r.get("ALPHA").unwrap();
    assert_eq!(t.name(), "Alpha");
    assert_eq!(r.get("beta").unwrap().name(), "beta");
    assert_eq!(r.get("Alpha").unwrap().execute(&[]).unwrap(), Value::String("Alpha".to_string()));
    match r.get("gamma") {
        Err(Error::UndefinedTool { name }) => assert_eq!(name, "gamma"),
        Ok(_) => panic!("unexpected tool"),
        Err(e) => panic!("unexpected {:?}", e),
    }
}

#[test]
fn insert_then_lookup() {
    let mut m = ObjectMap::new();
    m.insert("k".to_string(), Value::Int(1));
    m.insert("j".to_string(), Value::Int(2));
    m.insert("k".to_string(), Value::Int(3));
    assert_eq!(m.get("k"), Some(&Value::Int(3)));
    assert_eq!(m.get("j"), Some(&Value::Int(2)));
    assert_eq!(m.len(), 2);
    assert_eq!(m.get("x"), None);
}

#[test]
fn merge_prefers_later_values() {
    let mut a = ObjectMap::new();
    a.insert("x".to_string(), Value::Int(1));
    a.insert("y".to_string(), Value::Int(2));
    let mut b = ObjectMap::new();
    b.insert("y".to_string(), Value::Int(20));
    b.insert("z".to_string(), Value::Int(30));
    let m = merge_into(a, &b);
    assert_eq!(m.get("x"), Some(&Value::Int(1)));
    assert_eq!(m.get("y"), Some(&Value::Int(20)));
    assert_eq!(m.get("z"), Some(&Value::Int(30)));
}

#[test]
fn gcd_divides_both() {
    let g = gcd_i64(84, -36);
    assert_eq!(g, 12);
    assert_eq!(84 % g, 0);
    assert_eq!(-36 % g, 0);
}
