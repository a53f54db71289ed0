use solisp_tools::error::Error;
use solisp_tools::tools::stdlib::advanced_math::IsqrtTool;
use solisp_tools::tools::stdlib::format::plan_format_call;
use solisp_tools::tools::stdlib::llm::{
    anthropic_answer, anthropic_request, ollama_answer, ollama_request, openai_answer, openai_request, osvm_answer,
    osvm_request, service_status, LlmQuery, Provider, Temperature,
};
use solisp_tools::tools::stdlib::numeric::{plan_count, Counted};
use solisp_tools::tools::stdlib::pathnames::{DirectoryNamestringTool, PathnameDirectoryTool, PathnameNameTool, PathnameTypeTool};
use solisp_tools::tools::Tool;
use solisp_tools::value::{ObjectMap, Value};

fn s(x: &str) -> Value {
    Value::String(x.to_string())
}

fn obj(entries: Vec<(&str, Value)>) -> Value {
    Value::Object(ObjectMap { entries: entries.into_iter().map(|(k, v)| (k.to_string(), v)).collect() })
}

fn query(provider: Provider, system: Option<&str>, temperature: Option<Temperature>, max_tokens: Option<usize>) -> LlmQuery {
    LlmQuery {
        provider,
        prompt: "Hi".to_string(),
        model: None,
        system: system.map(|x| x.to_string()),
        temperature,
        max_tokens,
        url: None,
        api_key: None,
    }
}

fn user(text: &str) -> Value {
    obj(vec![("role", s("user")), ("content", s(text))])
}

#[test]
fn anthropic_body_and_answer() {
    let q = query(Provider::Anthropic, Some("Be brief"), Some(Temperature::Int(1)), None);
    let body = anthropic_request(&q, "m1");
    assert_eq!(
        body,
        obj(vec![
            ("model", s("m1")),
            ("messages", Value::Array(vec![user("Hi")])),
            ("max_tokens", Value::Int(1024)),
            ("system", s("Be brief")),
            ("temperature", Value::Float(1.0f64.to_bits())),
        ])
    );
    let q = query(Provider::Anthropic, None, None, Some(50));
    assert_eq!(
        anthropic_request(&q, "m1"),
        obj(vec![("model", s("m1")), ("messages", Value::Array(vec![user("Hi")])), ("max_tokens", Value::Int(50))])
    );
    let reply = obj(vec![
        ("content", Value::Array(vec![obj(vec![("type", s("text")), ("text", s("Hello"))])])),
        ("usage", obj(vec![("input_tokens", Value::Int(3)), ("output_tokens", Value::Int(7))])),
    ]);
    assert_eq!(
        anthropic_answer(&reply, "m1"),
        obj(vec![
            ("response", s("Hello")),
            ("model", s("m1")),
            ("provider", s("anthropic")),
            ("input_tokens", Value::Int(3)),
            ("output_tokens", Value::Int(7)),
        ])
    );
    assert_eq!(
        anthropic_answer(&Value::Null, "m1"),
        obj(vec![("response", s("")), ("model", s("m1")), ("provider", s("anthropic"))])
    );
}

#[test]
fn openai_body_and_answer() {
    let q = query(Provider::OpenAi, Some("sys"), Some(Temperature::Float(0.5f64.to_bits())), Some(10));
    assert_eq!(
        openai_request(&q, "gpt"),
        obj(vec![
            ("model", s("gpt")),
            ("messages", Value::Array(vec![obj(vec![("role", s("system")), ("content", s("sys"))]), user("Hi")])),
            ("temperature", Value::Float(0.5f64.to_bits())),
            ("max_tokens", Value::Int(10)),
        ])
    );
    let reply = obj(vec![
        ("choices", Value::Array(vec![obj(vec![("message", obj(vec![("content", s("Yes"))]))])])),
        ("usage", obj(vec![("total_tokens", Value::Int(12))])),
    ]);
    assert_eq!(
        openai_answer(&reply, "gpt"),
        obj(vec![("response", s("Yes")), ("model", s("gpt")), ("provider", s("openai")), ("total_tokens", Value::Int(12))])
    );
}

#[test]
fn ollama_and_osvm_bodies_and_answers() {
    let q = query(Provider::Ollama, Some("sys"), Some(Temperature::Int(2)), Some(5));
    assert_eq!(
        ollama_request(&q, "llama"),
        obj(vec![
            ("model", s("llama")),
            ("prompt", s("Hi")),
            ("stream", Value::Bool(false)),
            ("system", s("sys")),
            ("options", obj(vec![("temperature", Value::Float(2.0f64.to_bits()))])),
        ])
    );
    let reply = obj(vec![("response", s("ok")), ("done_reason", s("stop")), ("total_duration", Value::Int(99))]);
    assert_eq!(
        ollama_answer(&reply, "llama"),
        obj(vec![
            ("response", s("ok")),
            ("model", s("llama")),
            ("provider", s("ollama")),
            ("done_reason", s("stop")),
            ("duration_ns", Value::Int(99)),
        ])
    );
    assert_eq!(osvm_request(&query(Provider::Osvm, None, None, None)), obj(vec![("message", s("Hi"))]));
    assert_eq!(osvm_answer("plain".to_string()), obj(vec![("response", s("plain")), ("provider", s("osvm"))]));
}

#[test]
fn service_status_errors() {
    assert!(service_status("Anthropic", true, "200 OK", "").is_ok());
    match service_status("Anthropic", false, "401 Unauthorized", "bad key") {
        Err(Error::ToolExecutionError { tool, reason }) => {
            assert_eq!(tool, "llm-query");
            assert_eq!(reason, "Anthropic error (401 Unauthorized): bad key");
        },
        other => panic!("unexpected {:?}", other),
    }
}

#[test]
fn integer_square_roots() {
    assert_eq!(IsqrtTool.execute(&[Value::Int(17)]).unwrap(), Value::Int(4));
    assert_eq!(IsqrtTool.execute(&[Value::Int(16)]).unwrap(), Value::Int(4));
    assert_eq!(IsqrtTool.execute(&[Value::Int(15)]).unwrap(), Value::Int(3));
    assert_eq!(IsqrtTool.execute(&[Value::Int(0)]).unwrap(), Value::Int(0));
    assert_eq!(IsqrtTool.execute(&[Value::Int(i64::MAX)]).unwrap(), Value::Int(3037000499));
    assert!(matches!(IsqrtTool.execute(&[Value::Int(-1)]), Err(Error::InvalidArguments { .. })));
    assert!(matches!(IsqrtTool.execute(&[]), Err(Error::InvalidArguments { .. })));
}

#[test]
fn counting_steps() {
    assert!(matches!(plan_count("INCF", &[Value::Int(5), Value::Int(3)], true, true), Ok(Counted::Int(8))));
    assert!(matches!(plan_count("DECF", &[Value::Int(5)], true, false), Ok(Counted::Int(4))));
    assert!(matches!(plan_count("1+", &[Value::Int(5), Value::Int(3)], false, true), Ok(Counted::Int(6))));
    let b = 2.5f64.to_bits();
    assert!(matches!(plan_count("1-", &[Value::Float(b)], false, false), Ok(Counted::Float(x, 1)) if x == b));
    assert!(matches!(plan_count("1+", &[s("a")], false, true), Err(Error::TypeError { .. })));
    assert!(matches!(plan_count("INCF", &[], true, true), Err(Error::InvalidArguments { .. })));
}

#[test]
fn format_call_arguments() {
    assert!(matches!(plan_format_call(&[]), Err(Error::InvalidArguments { .. })));
    assert_eq!(plan_format_call(&[s("plain")]).unwrap().len(), 5);
    assert!(plan_format_call(&[Value::Null, s("~A"), Value::Int(5)]).is_ok());
    assert!(plan_format_call(&[Value::Null, s("~D"), Value::Int(5)]).is_err());
    assert!(matches!(plan_format_call(&[Value::Null, Value::Int(1)]), Err(Error::TypeError { .. })));
}

#[test]
fn plain_path_components() {
    assert_eq!(PathnameNameTool.execute(&[s("archive.tar.gz")]).unwrap(), s("archive.tar"));
    assert_eq!(PathnameTypeTool.execute(&[s("archive.tar.gz")]).unwrap(), s("gz"));
    assert_eq!(PathnameTypeTool.execute(&[s(".profile")]).unwrap(), Value::Null);
    assert_eq!(PathnameDirectoryTool.execute(&[s("notes")]).unwrap(), s(""));
    assert_eq!(PathnameDirectoryTool.execute(&[s("")]).unwrap(), Value::Null);
    assert_eq!(DirectoryNamestringTool.execute(&[s("notes")]).unwrap(), s(""));
}
