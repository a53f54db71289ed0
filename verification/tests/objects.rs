use solisp_tools::tools::stdlib::objects::{AssocTool, GetTool, HasKeyTool, KeysTool, MergeTool, ValuesTool};
use solisp_tools::tools::Tool;
use solisp_tools::value::{ObjectMap, Value};

#[test]
fn test_keys() {
    let tool = KeysTool;
    let mut map = ObjectMap::new();
    map.insert("name".to_string(), Value::String("Alice".to_string()));
    map.insert("age".to_string(), Value::Int(30));

    let obj = Value::object(map);
    let result = tool.execute(&[obj]).unwrap();

    match result {
        Value::Array(keys) => {
            assert_eq!(keys.len(), 2);
            assert!(keys.contains(&Value::String("name".to_string())));
            assert!(keys.contains(&Value::String("age".to_string())));
        }
        _ => panic!("Expected array"),
    }
}

#[test]
fn test_values() {
    let tool = ValuesTool;
    let mut map = ObjectMap::new();
    map.insert("name".to_string(), Value::String("Alice".to_string()));
    map.insert("age".to_string(), Value::Int(30));

    let obj = Value::object(map);
    let result = tool.execute(&[obj]).unwrap();

    match result {
        Value::Array(values) => {
            assert_eq!(values.len(), 2);
        }
        _ => panic!("Expected array"),
    }
}

#[test]
fn test_get() {
    let tool = GetTool;
    let mut map = ObjectMap::new();
    map.insert("name".to_string(), Value::String("Alice".to_string()));

    let obj = Value::object(map);
    let key = Value::String("name".to_string());
    let result = tool.execute(&[obj.clone(), key]).unwrap();

    assert_eq!(result, Value::String("Alice".to_string()));

    // Test missing key
    let missing_key = Value::String("missing".to_string());
    let result = tool.execute(&[obj, missing_key]).unwrap();
    assert_eq!(result, Value::Null);
}

#[test]
fn test_assoc() {
    let tool = AssocTool;
    let mut map = ObjectMap::new();
    map.insert("name".to_string(), Value::String("Alice".to_string()));

    let obj = Value::object(map);
    let key = Value::String("age".to_string());
    let value = Value::Int(30);

    let result = tool.execute(&[obj, key, value]).unwrap();

    match result {
        Value::Object(m) => {
            assert_eq!(m.len(), 2);
            assert_eq!(m.get("age"), Some(&Value::Int(30)));
        }
        _ => panic!("Expected object"),
    }
}

#[test]
fn test_has_key() {
    let tool = HasKeyTool;
    let mut map = ObjectMap::new();
    map.insert("name".to_string(), Value::String("Alice".to_string()));

    let obj = Value::object(map);

    let key = Value::String("name".to_string());
    let result = tool.execute(&[obj.clone(), key]).unwrap();
    assert_eq!(result, Value::Bool(true));

    let missing = Value::String("missing".to_string());
    let result = tool.execute(&[obj, missing]).unwrap();
    assert_eq!(result, Value::Bool(false));
}

#[test]
fn test_merge() {
    let tool = MergeTool;

    let mut map1 = ObjectMap::new();
    map1.insert("name".to_string(), Value::String("Alice".to_string()));
    map1.insert("age".to_string(), Value::Int(30));

    let mut map2 = ObjectMap::new();
    map2.insert("age".to_string(), Value::Int(31)); // Override
    map2.insert("city".to_string(), Value::String("NYC".to_string())); // New

    let obj1 = Value::object(map1);
    let obj2 = Value::object(map2);

    let result = tool.execute(&[obj1, obj2]).unwrap();

    match result {
        Value::Object(m) => {
            assert_eq!(m.len(), 3);
            assert_eq!(m.get("age"), Some(&Value::Int(31))); // Overridden
            assert_eq!(m.get("city"), Some(&Value::String("NYC".to_string())));
            // Added
        }
        _ => panic!("Expected object"),
    }
}
