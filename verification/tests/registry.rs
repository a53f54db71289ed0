use solisp_tools::error::Error;
use solisp_tools::tools::{Tool, ToolArguments, ToolRegistry};
use solisp_tools::value::Value;

struct TestTool;

impl Tool for TestTool {
    fn name(&self) -> &str {
        "TEST"
    }

    fn description(&self) -> &str {
        "A test tool"
    }

    fn execute(&self, args: &[Value]) -> Result<Value, Error> {
        if args.is_empty() {
            Ok(Value::Int(42))
        } else {
            Ok(args[0].clone())
        }
    }

    fn arity(&self) -> Option<usize> {
        None
    }
}

#[test]
fn test_tool_registration() {
    let mut registry = ToolRegistry::empty();
    registry.register(TestTool);

    assert!(registry.has("TEST"));
    assert!(!registry.has("UNKNOWN"));
}

#[test]
fn test_tool_execution() {
    let tool = TestTool;
    let result = tool.execute(&[]).unwrap();
    assert_eq!(result, Value::Int(42));

    let result = tool.execute(&[Value::String("hello".to_string())]).unwrap();
    assert_eq!(result, Value::String("hello".to_string()));
}

#[test]
fn test_tool_arguments() {
    let mut args = ToolArguments::new();
    args.positional.push(Value::Int(10));
    args.positional.push(Value::Int(20));
    args.named
        .insert("x".to_string(), Value::String("test".to_string()));

    assert_eq!(*args.get_positional(0).unwrap(), Value::Int(10));
    assert_eq!(*args.get_positional(1).unwrap(), Value::Int(20));
    assert_eq!(
        *args.get_named("x").unwrap(),
        Value::String("test".to_string())
    );
}
