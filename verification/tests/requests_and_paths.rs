use solisp_tools::error::Error;
use solisp_tools::tools::stdlib::format::FormatSkipTool;
use solisp_tools::tools::stdlib::introspection::ClassOfTool;
use solisp_tools::tools::stdlib::io_basic::{ReadCharTool, ReadLineTool};
use solisp_tools::tools::stdlib::lists_advanced::{SublisTool, TreeEqualTool};
use solisp_tools::tools::stdlib::llm::{default_model, default_url, plan_llm_query, Provider, Temperature};
use solisp_tools::tools::stdlib::network::{plan_http_get, plan_http_post, plan_json_rpc, response_object, rpc_outcome, HttpBody};
use solisp_tools::tools::stdlib::pathnames::{
    DirectoryNamestringTool, EnoughNamestringTool, FileNamestringTool, MergePathnamesTool, PathnameNameTool, PathnameTypeTool,
};
use solisp_tools::tools::stdlib::streams::{PeekCharTool, ReadByteTool};
use solisp_tools::tools::Tool;
use solisp_tools::value::{ObjectMap, Value};

fn s(x: &str) -> Value {
    Value::String(x.to_string())
}

fn arr(v: Vec<Value>) -> Value {
    Value::Array(v)
}

fn reason_of(e: Error) -> String {
    match e {
        Error::InvalidArguments { reason, .. } => reason,
        other => panic!("unexpected error {:?}", other),
    }
}

#[test]
fn test_invalid_provider() {
    let args = vec![s("invalid"), s("test prompt")];
    let result = plan_llm_query(&args);
    assert!(result.is_err());
    let reason = reason_of(result.err().unwrap());
    assert!(reason.contains("Unknown provider"));
    assert_eq!(reason, "Unknown provider 'invalid'. Use 'ollama', 'openai', 'anthropic', or 'osvm'");
}

#[test]
fn test_missing_args() {
    let args = vec![s("ollama")];
    let result = plan_llm_query(&args);
    assert!(result.is_err());
}

#[test]
fn llm_query_reads_provider_case_insensitively_and_its_options() {
    let mut opts = ObjectMap::new();
    opts.insert("model".to_string(), s("llama3"));
    opts.insert("max-tokens".to_string(), Value::Int(64));
    opts.insert("temperature".to_string(), Value::Int(1));
    opts.insert("system".to_string(), Value::Int(5));
    let q = plan_llm_query(&[s("OpenAI"), s("hi"), Value::Object(opts)]).unwrap();
    assert!(matches!(q.provider, Provider::OpenAi));
    assert_eq!(q.prompt, "hi");
    assert_eq!(q.model.as_deref(), Some("llama3"));
    assert_eq!(q.max_tokens, Some(64));
    assert!(matches!(q.temperature, Some(Temperature::Int(1))));
    assert_eq!(q.system, None);
    assert_eq!(q.url, None);
    assert_eq!(default_url(&q.provider), "https://api.openai.com/v1/chat/completions");
    assert_eq!(default_model(&Provider::Ollama), Some("smollm2:latest"));
    assert_eq!(default_model(&Provider::Osvm), None);
}

#[test]
fn llm_query_rejects_a_non_string_prompt() {
    let e = plan_llm_query(&[s("osvm"), Value::Int(3)]).err().unwrap();
    assert_eq!(reason_of(e), "Expected string prompt, got int");
}

#[test]
fn http_requests_take_url_body_and_string_headers() {
    let mut headers = ObjectMap::new();
    headers.insert("Accept".to_string(), s("text/plain"));
    headers.insert("X-Count".to_string(), Value::Int(2));
    let get = plan_http_get(&[s("http://example.org"), Value::Object(headers)]).unwrap();
    assert_eq!(get.url, "http://example.org");
    assert_eq!(get.headers, vec![("Accept".to_string(), "text/plain".to_string())]);
    assert!(matches!(get.body, HttpBody::Empty));

    let post = plan_http_post(&[s("http://example.org"), s("payload")]).unwrap();
    assert!(matches!(post.body, HttpBody::Text(ref t) if t == "payload"));

    let e = plan_http_post(&[s("http://example.org")]).err().unwrap();
    assert_eq!(reason_of(e), "Expected url and body, got 1 arguments");
    let e = plan_http_post(&[s("u"), Value::Int(1)]).err().unwrap();
    assert_eq!(reason_of(e), "Expected string or object body, got int");
    let e = plan_http_get(&[Value::Null]).err().unwrap();
    assert_eq!(reason_of(e), "Expected string url, got null");
}

#[test]
fn json_rpc_calls_and_replies() {
    let c = plan_json_rpc(&[s("http://node"), s("getSlot"), arr(vec![Value::Int(1)])]).unwrap();
    assert_eq!(c.url, "http://node");
    assert_eq!(c.method, "getSlot");
    assert_eq!(c.params, vec![Value::Int(1)]);
    let c = plan_json_rpc(&[s("http://node"), s("getSlot")]).unwrap();
    assert!(c.params.is_empty());
    let e = plan_json_rpc(&[s("http://node"), s("m"), Value::Int(1)]).err().unwrap();
    assert_eq!(reason_of(e), "Expected array params, got int");

    assert_eq!(rpc_outcome(None, Some(Value::Int(7))).unwrap(), Value::Int(7));
    match rpc_outcome(Some("{\"code\":-1}".to_string()), None) {
        Err(Error::ToolExecutionError { reason, .. }) => assert_eq!(reason, "JSON-RPC error: {\"code\":-1}"),
        other => panic!("unexpected {:?}", other),
    }
    assert!(rpc_outcome(None, None).is_err());

    match response_object(200, "ok".to_string()) {
        Value::Object(m) => {
            assert_eq!(m.get("status"), Some(&Value::Int(200)));
            assert_eq!(m.get("body"), Some(&s("ok")));
        }
        other => panic!("unexpected {:?}", other),
    }
}

#[test]
fn class_of_names_each_kind() {
    let t = ClassOfTool;
    assert_eq!(t.execute(&[]).unwrap(), s("NULL"));
    assert_eq!(t.execute(&[Value::Int(1)]).unwrap(), s("INTEGER"));
    assert_eq!(t.execute(&[Value::Bool(true)]).unwrap(), s("BOOLEAN"));
    assert_eq!(t.execute(&[s("x")]).unwrap(), s("STRING"));
    assert_eq!(t.execute(&[arr(vec![])]).unwrap(), s("LIST"));
    assert_eq!(t.execute(&[Value::Object(ObjectMap::new())]).unwrap(), s("STANDARD-OBJECT"));
    assert_eq!(FormatSkipTool.execute(&[s("ignored")]).unwrap(), s(""));
}

#[test]
fn reading_lines_chars_and_bytes() {
    assert_eq!(ReadLineTool.execute(&[s("first\r\nsecond")]).unwrap(), s("first"));
    assert_eq!(ReadLineTool.execute(&[s("only")]).unwrap(), s("only"));
    assert_eq!(ReadLineTool.execute(&[s("")]).unwrap(), s(""));
    assert!(ReadLineTool.execute(&[]).is_err());
    assert_eq!(ReadCharTool.execute(&[s("éa")]).unwrap(), s("é"));
    assert_eq!(reason_of(ReadCharTool.execute(&[s("")]).err().unwrap()), "String is empty");
    assert_eq!(ReadByteTool.execute(&[s("é")]).unwrap(), Value::Int(0xC3));
    assert_eq!(reason_of(ReadByteTool.execute(&[s("")]).err().unwrap()), "End of stream");
    assert_eq!(PeekCharTool.execute(&[s("")]).unwrap(), Value::Null);
    assert_eq!(PeekCharTool.execute(&[Value::Int(1)]).unwrap(), Value::Null);
}

#[test]
fn pathname_parts() {
    let p = s("/home/user/notes.txt");
    assert_eq!(PathnameNameTool.execute(&[p.clone()]).unwrap(), s("notes"));
    assert_eq!(PathnameTypeTool.execute(&[p.clone()]).unwrap(), s("txt"));
    assert_eq!(FileNamestringTool.execute(&[p.clone()]).unwrap(), s("notes.txt"));
    assert_eq!(DirectoryNamestringTool.execute(&[p.clone()]).unwrap(), s("/home/user/"));
    assert_eq!(DirectoryNamestringTool.execute(&[s("/")]).unwrap(), s(""));
    assert_eq!(PathnameTypeTool.execute(&[s("/home/user/README")]).unwrap(), Value::Null);
    assert_eq!(MergePathnamesTool.execute(&[s("b.txt"), s("/tmp")]).unwrap(), s("/tmp/b.txt"));
    assert_eq!(MergePathnamesTool.execute(&[s("/etc/b.txt"), s("/tmp")]).unwrap(), s("/etc/b.txt"));
    assert_eq!(EnoughNamestringTool.execute(&[p.clone(), s("/home")]).unwrap(), s("user/notes.txt"));
    assert_eq!(EnoughNamestringTool.execute(&[p, s("/var")]).unwrap(), s("/home/user/notes.txt"));
}

#[test]
fn tree_equality_and_substitution() {
    let mut a = ObjectMap::new();
    a.insert("a".to_string(), Value::Int(1));
    a.insert("b".to_string(), arr(vec![Value::Int(2)]));
    let mut b = ObjectMap::new();
    b.insert("b".to_string(), arr(vec![Value::Int(2)]));
    b.insert("a".to_string(), Value::Int(1));
    let t = TreeEqualTool;
    assert_eq!(t.execute(&[Value::Object(a), Value::Object(b)]).unwrap(), Value::Bool(true));
    assert_eq!(
        t.execute(&[arr(vec![Value::Int(1), arr(vec![])]), arr(vec![Value::Int(1), arr(vec![Value::Null])])]).unwrap(),
        Value::Bool(false)
    );

    let alist = arr(vec![arr(vec![s("x"), Value::Int(10)]), arr(vec![s("y")])]);
    let tree = arr(vec![s("x"), arr(vec![s("y"), s("x")]), Value::Int(3)]);
    assert_eq!(
        SublisTool.execute(&[alist, tree]).unwrap(),
        arr(vec![Value::Int(10), arr(vec![s("y"), Value::Int(10)]), Value::Int(3)])
    );
}
