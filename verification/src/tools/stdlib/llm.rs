//! LLM (Large Language Model) operations for Solisp
//!
//! Provides integration with LLM APIs (Ollama, OpenAI, Anthropic) for AI-powered agents.
//! The library reads and checks a query's arguments, builds each service's
//! request body and reads its reply; sending the request is left to the caller.
use vstd::prelude::*;

use crate::error::{ErrV, Error};
use crate::text::{lowercase, owned, str_equal, to_lower, concat};
use crate::float_bits::{int_to_float_bits, int_to_float_bits_exec};
use crate::value::{entry_models, kind_name_of, models, obj_lookup, ObjectMap, Val, Value};

verus! {

broadcast use crate::seq_models::group_value_models;

/// The LLM services a query can go to.
pub enum Provider {
    Ollama,
    OpenAi,
    Anthropic,
    Osvm,
}

/// A sampling temperature as the options gave it: a float (by its bits) or an integer.
pub enum Temperature {
    Float(u64),
    Int(i64),
}

/// A checked LLM query: where it goes, the prompt, and the options read from
/// the options object.
pub struct LlmQuery {
    pub provider: Provider,
    pub prompt: String,
    pub model: Option<String>,
    pub system: Option<String>,
    pub temperature: Option<Temperature>,
    pub max_tokens: Option<usize>,
    pub url: Option<String>,
    pub api_key: Option<String>,
}

/// The model of an [`LlmQuery`].
pub struct LlmQueryModel {
    pub provider: Provider,
    pub prompt: Seq<char>,
    pub model: Option<Seq<char>>,
    pub system: Option<Seq<char>>,
    pub temperature: Option<Temperature>,
    pub max_tokens: Option<usize>,
    pub url: Option<Seq<char>>,
    pub api_key: Option<Seq<char>>,
}

/// The model of an optional string.
pub open spec fn opt_chars(o: Option<String>) -> Option<Seq<char>> {
    match o {
        Some(s) => Some(s@),
        None => None,
    }
}

impl View for LlmQuery {
    type V = LlmQueryModel;

    open spec fn view(&self) -> LlmQueryModel {
        LlmQueryModel {
            provider: self.provider,
            prompt: self.prompt@,
            model: opt_chars(self.model),
            system: opt_chars(self.system),
            temperature: self.temperature,
            max_tokens: self.max_tokens,
            url: opt_chars(self.url),
            api_key: opt_chars(self.api_key),
        }
    }
}

/// The provider a lower-cased name selects.
pub open spec fn provider_named(name: Seq<char>) -> Option<Provider> {
    if name == "ollama"@ {
        Some(Provider::Ollama)
    } else if name == "openai"@ {
        Some(Provider::OpenAi)
    } else if name == "anthropic"@ {
        Some(Provider::Anthropic)
    } else if name == "osvm"@ {
        Some(Provider::Osvm)
    } else {
        None
    }
}

/// A string option: the string bound to `key`, if it is one.
pub open spec fn string_option(opts: Seq<(Seq<char>, Val)>, key: Seq<char>) -> Option<Seq<char>> {
    match obj_lookup(opts, key) {
        Some(Val::Str(s)) => Some(s),
        _ => None,
    }
}

/// The temperature option: a float or an integer bound to `temperature`.
pub open spec fn temperature_option(opts: Seq<(Seq<char>, Val)>) -> Option<Temperature> {
    match obj_lookup(opts, "temperature"@) {
        Some(Val::Float(b)) => Some(Temperature::Float(b)),
        Some(Val::Int(i)) => Some(Temperature::Int(i)),
        _ => None,
    }
}

/// The token limit option: an integer bound to `max-tokens`, as a `usize`.
pub open spec fn max_tokens_option(opts: Seq<(Seq<char>, Val)>) -> Option<usize> {
    match obj_lookup(opts, "max-tokens"@) {
        Some(Val::Int(i)) => Some(i as usize),
        _ => None,
    }
}

/// The query that `llm-query` makes of its arguments, or the error it reports.
pub open spec fn llm_plan(a: Seq<Val>) -> Result<LlmQueryModel, ErrV> {
    if a.len() < 2 {
        Err(ErrV::InvalidArguments { tool: "llm-query"@, reason: "Expected at least provider and prompt"@ })
    } else if !(a[0] is Str) {
        Err(ErrV::InvalidArguments { tool: "llm-query"@, reason: "Expected string provider, got "@ + kind_name_of(a[0]) })
    } else if !(a[1] is Str) {
        Err(ErrV::InvalidArguments { tool: "llm-query"@, reason: "Expected string prompt, got "@ + kind_name_of(a[1]) })
    } else {
        let name = lowercase(a[0]->Str_0);
        let opts = if a.len() > 2 && a[2] is Obj { a[2]->Obj_0 } else { Seq::empty() };
        match provider_named(name) {
            None => Err(ErrV::InvalidArguments {
                tool: "llm-query"@,
                reason: "Unknown provider '"@ + name + "'. Use 'ollama', 'openai', 'anthropic', or 'osvm'"@,
            }),
            Some(p) => Ok(LlmQueryModel {
                provider: p,
                prompt: a[1]->Str_0,
                model: string_option(opts, "model"@),
                system: string_option(opts, "system"@),
                temperature: temperature_option(opts),
                max_tokens: max_tokens_option(opts),
                url: string_option(opts, "url"@),
                api_key: string_option(opts, "api-key"@),
            }),
        }
    }
}

fn string_option_exec(opts: &ObjectMap, key: &str) -> (r: Option<String>)
    ensures
        opt_chars(r) == string_option(opts.model(), key@),
{
    match opts.get(key) {
        Some(Value::String(s)) => Some(owned(s.as_str())),
        _ => None,
    }
}

fn provider_exec(name: &str) -> (r: Option<Provider>)
    ensures
        r == provider_named(name@),
{
    proof {
        reveal_strlit("ollama");
        reveal_strlit("openai");
        reveal_strlit("anthropic");
        reveal_strlit("osvm");
    }
    if str_equal(name, "ollama") {
        Some(Provider::Ollama)
    } else if str_equal(name, "openai") {
        Some(Provider::OpenAi)
    } else if str_equal(name, "anthropic") {
        Some(Provider::Anthropic)
    } else if str_equal(name, "osvm") {
        Some(Provider::Osvm)
    } else {
        None
    }
}

/// Reads and checks the arguments of `llm-query`: the provider (matched
/// case-insensitively), the prompt, and the options object when there is one.
pub fn plan_llm_query(args: &[Value]) -> (r: Result<LlmQuery, Error>)
    ensures
        match r {
            Ok(q) => llm_plan(models(args@)) == Ok::<LlmQueryModel, ErrV>(q@),
            Err(e) => llm_plan(models(args@)) == Err::<LlmQueryModel, ErrV>(e@),
        },
{
    if args.len() < 2 {
        return Err(Error::InvalidArguments {
            tool: owned("llm-query"),
            reason: owned("Expected at least provider and prompt"),
        });
    }
    let provider_name = match &args[0] {
        Value::String(s) => to_lower(s.as_str()),
        _ => {
            return Err(Error::InvalidArguments {
                tool: owned("llm-query"),
                reason: concat("Expected string provider, got ", args[0].kind_name().as_str()),
            });
        },
    };
    let prompt = match &args[1] {
        Value::String(s) => owned(s.as_str()),
        _ => {
            return Err(Error::InvalidArguments {
                tool: owned("llm-query"),
                reason: concat("Expected string prompt, got ", args[1].kind_name().as_str()),
            });
        },
    };
    let empty = ObjectMap::new();
    let opts: &ObjectMap = if args.len() > 2 {
        match &args[2] {
            Value::Object(o) => o,
            _ => &empty,
        }
    } else {
        &empty
    };
    let provider = match provider_exec(provider_name.as_str()) {
        Some(p) => p,
        None => {
            let head = concat("Unknown provider '", provider_name.as_str());
            return Err(Error::InvalidArguments {
                tool: owned("llm-query"),
                reason: concat(head.as_str(), "'. Use 'ollama', 'openai', 'anthropic', or 'osvm'"),
            });
        },
    };
    let temperature = match opts.get("temperature") {
        Some(Value::Float(b)) => Some(Temperature::Float(*b)),
        Some(Value::Int(i)) => Some(Temperature::Int(*i)),
        _ => None,
    };
    let max_tokens = match opts.get("max-tokens") {
        Some(Value::Int(i)) => Some(*i as usize),
        _ => None,
    };
    Ok(LlmQuery {
        provider,
        prompt,
        model: string_option_exec(opts, "model"),
        system: string_option_exec(opts, "system"),
        temperature,
        max_tokens,
        url: string_option_exec(opts, "url"),
        api_key: string_option_exec(opts, "api-key"),
    })
}

/// The endpoint a provider is queried at when the options name none.
pub fn default_url(p: &Provider) -> (r: &'static str)
    ensures
        r@ == (match p {
            Provider::Ollama => "http://localhost:11434/api/generate"@,
            Provider::OpenAi => "https://api.openai.com/v1/chat/completions"@,
            Provider::Anthropic => "https://api.anthropic.com/v1/messages"@,
            Provider::Osvm => "https://osvm.ai/api/getAnswer"@,
        }),
{
    match p {
        Provider::Ollama => "http://localhost:11434/api/generate",
        Provider::OpenAi => "https://api.openai.com/v1/chat/completions",
        Provider::Anthropic => "https://api.anthropic.com/v1/messages",
        Provider::Osvm => "https://osvm.ai/api/getAnswer",
    }
}

/// The model a provider is asked for when the options name none. OSVM.ai
/// takes no model; for Anthropic the library names no default, so a query to
/// it must name its model.
pub fn default_model(p: &Provider) -> (r: Option<&'static str>)
    ensures
        match p {
            Provider::Ollama => r matches Some(m) && m@ == "smollm2:latest"@,
            Provider::OpenAi => r matches Some(m) && m@ == "gpt-4o-mini"@,
            Provider::Anthropic => r is None,
            Provider::Osvm => r is None,
        },
{
    match p {
        Provider::Ollama => Some("smollm2:latest"),
        Provider::OpenAi => Some("gpt-4o-mini"),
        Provider::Anthropic => None,
        Provider::Osvm => None,
    }
}

/// One entry when the value is there, none otherwise.
pub open spec fn opt_entry(k: Seq<char>, v: Option<Val>) -> Seq<(Seq<char>, Val)> {
    match v {
        Some(x) => seq![(k, x)],
        None => Seq::empty(),
    }
}

/// An optional string as an optional string value.
pub open spec fn opt_str_val(o: Option<Seq<char>>) -> Option<Val> {
    match o {
        Some(s) => Some(Val::Str(s)),
        None => None,
    }
}

/// The JSON number a temperature is sent as: the float itself, or the
/// integer converted to a float.
pub open spec fn temperature_val(t: Temperature) -> Val {
    match t {
        Temperature::Float(b) => Val::Float(b),
        Temperature::Int(i) => Val::Float(int_to_float_bits(i as int)),
    }
}

/// An optional temperature as an optional value.
pub open spec fn opt_temperature_val(t: Option<Temperature>) -> Option<Val> {
    match t {
        Some(x) => Some(temperature_val(x)),
        None => None,
    }
}

/// A token limit as the integer it is sent as.
pub open spec fn tokens_val(n: usize) -> Val {
    Val::Int(n as i64)
}

/// The token limit sent to Anthropic: the options' limit, else 1024.
pub open spec fn anthropic_tokens(m: Option<usize>) -> Val {
    match m {
        Some(n) => tokens_val(n),
        None => Val::Int(1024),
    }
}

/// A chat message with a role and its content.
pub open spec fn message(role: Seq<char>, content: Seq<char>) -> Val {
    Val::Obj(seq![("role"@, Val::Str(role)), ("content"@, Val::Str(content))])
}

/// The request body sent to Anthropic: the model, the prompt as the one user
/// message, the token limit (1024 when the options give none), and the
/// system prompt and temperature when the options give them.
pub open spec fn anthropic_body(q: LlmQueryModel, model: Seq<char>) -> Val {
    Val::Obj(
        seq![
            ("model"@, Val::Str(model)),
            ("messages"@, Val::Arr(seq![message("user"@, q.prompt)])),
            ("max_tokens"@, anthropic_tokens(q.max_tokens)),
        ] + opt_entry("system"@, opt_str_val(q.system)) + opt_entry(
            "temperature"@,
            opt_temperature_val(q.temperature),
        ),
    )
}

/// The messages sent to OpenAI: the system prompt first when there is one,
/// then the prompt as the user message.
pub open spec fn openai_messages(q: LlmQueryModel) -> Seq<Val> {
    match q.system {
        Some(sys) => seq![message("system"@, sys), message("user"@, q.prompt)],
        None => seq![message("user"@, q.prompt)],
    }
}

/// The request body sent to OpenAI: the model, the messages, and the
/// temperature and token limit when the options give them.
pub open spec fn openai_body(q: LlmQueryModel, model: Seq<char>) -> Val {
    Val::Obj(
        seq![("model"@, Val::Str(model)), ("messages"@, Val::Arr(openai_messages(q)))]
            + opt_entry("temperature"@, opt_temperature_val(q.temperature)) + opt_entry(
            "max_tokens"@,
            match q.max_tokens {
                Some(n) => Some(tokens_val(n)),
                None => None,
            },
        ),
    )
}

/// The request body sent to Ollama: the model, the prompt, no streaming, the
/// system prompt when given, and the temperature under `options` when given.
/// Ollama is sent no token limit.
pub open spec fn ollama_body(q: LlmQueryModel, model: Seq<char>) -> Val {
    Val::Obj(
        seq![("model"@, Val::Str(model)), ("prompt"@, Val::Str(q.prompt)), ("stream"@, Val::Bool(false))]
            + opt_entry("system"@, opt_str_val(q.system)) + opt_entry(
            "options"@,
            match q.temperature {
                Some(t) => Some(Val::Obj(seq![("temperature"@, temperature_val(t))])),
                None => None,
            },
        ),
    )
}

/// The request body sent to OSVM.ai: the prompt as the message.
pub open spec fn osvm_body(q: LlmQueryModel) -> Val {
    Val::Obj(seq![("message"@, Val::Str(q.prompt))])
}

/// The value under `k` of an object value; nothing for other values.
pub open spec fn field(v: Option<Val>, k: Seq<char>) -> Option<Val> {
    match v {
        Some(Val::Obj(o)) => obj_lookup(o, k),
        _ => None,
    }
}

/// The first element of an array value; nothing for other values and empty arrays.
pub open spec fn first_item(v: Option<Val>) -> Option<Val> {
    match v {
        Some(Val::Arr(a)) => if a.len() > 0 {
            Some(a[0])
        } else {
            None
        },
        _ => None,
    }
}

/// The text of a string value; the empty string for anything else.
pub open spec fn text_or_empty(v: Option<Val>) -> Seq<char> {
    match v {
        Some(Val::Str(s)) => s,
        _ => ""@,
    }
}

/// An integer value, kept; anything else dropped.
pub open spec fn int_only(v: Option<Val>) -> Option<Val> {
    match v {
        Some(Val::Int(i)) => Some(Val::Int(i)),
        _ => None,
    }
}

/// The answer object's first three entries: the reply text, the model and the provider.
pub open spec fn answer_head(text: Seq<char>, model: Seq<char>, provider: Seq<char>) -> Seq<(Seq<char>, Val)> {
    seq![("response"@, Val::Str(text)), ("model"@, Val::Str(model)), ("provider"@, Val::Str(provider))]
}

/// What a query to Anthropic answers, read from its reply: the text of the
/// first content block, the model, and the input and output token counts
/// when the reply's usage gives them.
pub open spec fn anthropic_result(reply: Val, model: Seq<char>) -> Val {
    let usage = field(Some(reply), "usage"@);
    Val::Obj(
        answer_head(text_or_empty(field(first_item(field(Some(reply), "content"@)), "text"@)), model, "anthropic"@)
            + opt_entry("input_tokens"@, int_only(field(usage, "input_tokens"@)))
            + opt_entry("output_tokens"@, int_only(field(usage, "output_tokens"@))),
    )
}

/// What a query to OpenAI answers, read from its reply: the content of the
/// first choice's message, the model, and the total token count when the
/// reply's usage gives it.
pub open spec fn openai_result(reply: Val, model: Seq<char>) -> Val {
    Val::Obj(
        answer_head(
            text_or_empty(field(field(first_item(field(Some(reply), "choices"@)), "message"@), "content"@)),
            model,
            "openai"@,
        ) + opt_entry("total_tokens"@, int_only(field(field(Some(reply), "usage"@), "total_tokens"@))),
    )
}

/// What a query to Ollama answers, read from its reply: the response text,
/// the model, and the reason it stopped and its duration when the reply gives them.
pub open spec fn ollama_result(reply: Val, model: Seq<char>) -> Val {
    Val::Obj(
        answer_head(text_or_empty(field(Some(reply), "response"@)), model, "ollama"@)
            + opt_entry("done_reason"@, match field(Some(reply), "done_reason"@) {
                Some(Val::Str(s)) => Some(Val::Str(s)),
                _ => None,
            })
            + opt_entry("duration_ns"@, int_only(field(Some(reply), "total_duration"@))),
    )
}

/// What a query to OSVM.ai answers: its reply text as it came, and the provider.
pub open spec fn osvm_result(text: Seq<char>) -> Val {
    Val::Obj(seq![("response"@, Val::Str(text)), ("provider"@, Val::Str("osvm"@))])
}

/// The model of an optional borrowed value.
pub open spec fn opt_model(o: Option<&Value>) -> Option<Val> {
    match o {
        Some(v) => Some(v.model()),
        None => None,
    }
}

fn field_exec<'a>(v: Option<&'a Value>, k: &str) -> (r: Option<&'a Value>)
    ensures
        opt_model(r) == field(opt_model(v), k@),
{
    match v {
        Some(Value::Object(o)) => o.get(k),
        _ => None,
    }
}

fn first_exec<'a>(v: Option<&'a Value>) -> (r: Option<&'a Value>)
    ensures
        opt_model(r) == first_item(opt_model(v)),
{
    match v {
        Some(Value::Array(a)) => if a.len() > 0 {
            Some(&a[0])
        } else {
            None
        },
        _ => None,
    }
}

fn text_exec(v: Option<&Value>) -> (r: String)
    ensures
        r@ == text_or_empty(opt_model(v)),
{
    proof {
        reveal_strlit("");
    }
    match v {
        Some(Value::String(s)) => owned(s.as_str()),
        _ => owned(""),
    }
}

fn push_int(es: &mut Vec<(String, Value)>, k: &str, v: Option<&Value>)
    ensures
        entry_models(final(es)@) == entry_models(old(es)@) + opt_entry(k@, int_only(opt_model(v))),
{
    match v {
        Some(Value::Int(i)) => {
            let ghost before = old(es)@;
            es.push((owned(k), Value::Int(*i)));
            assert(entry_models(es@) =~= entry_models(before) + seq![(k@, Val::Int(*i))]);
        },
        _ => {
            assert(entry_models(es@) =~= entry_models(old(es)@) + Seq::<(Seq<char>, Val)>::empty());
        },
    }
}

fn answer_entries(text: String, model: &str, provider: &str) -> (r: Vec<(String, Value)>)
    ensures
        entry_models(r@) == answer_head(text@, model@, provider@),
{
    let mut es: Vec<(String, Value)> = Vec::new();
    es.push((owned("response"), Value::String(text)));
    es.push((owned("model"), Value::String(owned(model))));
    es.push((owned("provider"), Value::String(owned(provider))));
    proof {
        reveal_strlit("response");
        reveal_strlit("model");
        reveal_strlit("provider");
    }
    assert(entry_models(es@) =~= answer_head(es@[0].1.model()->Str_0, model@, provider@));
    es
}

/// Reads what a query to Anthropic answers from its reply.
pub fn anthropic_answer(reply: &Value, model: &str) -> (r: Value)
    ensures
        r.model() == anthropic_result(reply.model(), model@),
{
    let content = field_exec(Some(reply), "content");
    let text = text_exec(field_exec(first_exec(content), "text"));
    let mut es = answer_entries(text, model, "anthropic");
    let usage = field_exec(Some(reply), "usage");
    push_int(&mut es, "input_tokens", field_exec(usage, "input_tokens"));
    push_int(&mut es, "output_tokens", field_exec(usage, "output_tokens"));
    Value::Object(ObjectMap { entries: es })
}

/// Reads what a query to OpenAI answers from its reply.
pub fn openai_answer(reply: &Value, model: &str) -> (r: Value)
    ensures
        r.model() == openai_result(reply.model(), model@),
{
    let choice = first_exec(field_exec(Some(reply), "choices"));
    let text = text_exec(field_exec(field_exec(choice, "message"), "content"));
    let mut es = answer_entries(text, model, "openai");
    push_int(&mut es, "total_tokens", field_exec(field_exec(Some(reply), "usage"), "total_tokens"));
    Value::Object(ObjectMap { entries: es })
}

/// Reads what a query to Ollama answers from its reply.
pub fn ollama_answer(reply: &Value, model: &str) -> (r: Value)
    ensures
        r.model() == ollama_result(reply.model(), model@),
{
    let text = text_exec(field_exec(Some(reply), "response"));
    let mut es = answer_entries(text, model, "ollama");
    let ghost head = entry_models(es@);
    match field_exec(Some(reply), "done_reason") {
        Some(Value::String(s)) => {
            es.push((owned("done_reason"), Value::String(owned(s.as_str()))));
            proof {
                reveal_strlit("done_reason");
            }
            assert(entry_models(es@) =~= head + seq![("done_reason"@, Val::Str(s@))]);
        },
        _ => {
            assert(entry_models(es@) =~= head + Seq::<(Seq<char>, Val)>::empty());
        },
    }
    push_int(&mut es, "duration_ns", field_exec(Some(reply), "total_duration"));
    Value::Object(ObjectMap { entries: es })
}

/// What a query to OSVM.ai answers: its reply text as it came.
pub fn osvm_answer(text: String) -> (r: Value)
    ensures
        r.model() == osvm_result(text@),
{
    let mut es: Vec<(String, Value)> = Vec::new();
    es.push((owned("response"), Value::String(text)));
    es.push((owned("provider"), Value::String(owned("osvm"))));
    proof {
        reveal_strlit("response");
        reveal_strlit("provider");
        reveal_strlit("osvm");
    }
    assert(entry_models(es@) =~= seq![("response"@, Val::Str(text@)), ("provider"@, Val::Str("osvm"@))]);
    Value::Object(ObjectMap { entries: es })
}

fn temperature_exec(t: &Temperature) -> (r: Value)
    ensures
        r.model() == temperature_val(*t),
{
    match t {
        Temperature::Float(b) => Value::Float(*b),
        Temperature::Int(i) => Value::Float(int_to_float_bits_exec(*i)),
    }
}

fn message_exec(role: &str, content: &str) -> (r: Value)
    ensures
        r.model() == message(role@, content@),
{
    let mut es: Vec<(String, Value)> = Vec::new();
    es.push((owned("role"), Value::String(owned(role))));
    es.push((owned("content"), Value::String(owned(content))));
    proof {
        reveal_strlit("role");
        reveal_strlit("content");
    }
    assert(entry_models(es@) =~= seq![("role"@, Val::Str(role@)), ("content"@, Val::Str(content@))]);
    Value::Object(ObjectMap { entries: es })
}

fn push_entry(es: &mut Vec<(String, Value)>, k: &str, v: Value)
    ensures
        entry_models(final(es)@) == entry_models(old(es)@).push((k@, v.model())),
{
    let ghost before = old(es)@;
    let ghost vm = v.model();
    es.push((owned(k), v));
    assert(entry_models(es@) =~= entry_models(before).push((k@, vm)));
}

fn push_opt_str(es: &mut Vec<(String, Value)>, k: &str, v: &Option<String>)
    ensures
        entry_models(final(es)@) == entry_models(old(es)@) + opt_entry(k@, opt_str_val(opt_chars(*v))),
{
    match v {
        Some(s) => push_entry(es, k, Value::String(owned(s.as_str()))),
        None => {
            assert(entry_models(es@) =~= entry_models(old(es)@) + Seq::<(Seq<char>, Val)>::empty());
        },
    }
}

fn push_opt_temperature(es: &mut Vec<(String, Value)>, k: &str, t: &Option<Temperature>)
    ensures
        entry_models(final(es)@) == entry_models(old(es)@) + opt_entry(k@, opt_temperature_val(*t)),
{
    match t {
        Some(x) => push_entry(es, k, temperature_exec(x)),
        None => {
            assert(entry_models(es@) =~= entry_models(old(es)@) + Seq::<(Seq<char>, Val)>::empty());
        },
    }
}

/// The request body a query sends to Anthropic, for the given model.
pub fn anthropic_request(q: &LlmQuery, model: &str) -> (b: Value)
    ensures
        b.model() == anthropic_body(q@, model@),
{
    proof {
        reveal_strlit("model");
        reveal_strlit("messages");
        reveal_strlit("max_tokens");
        reveal_strlit("user");
    }
    let mut msgs: Vec<Value> = Vec::new();
    msgs.push(message_exec("user", q.prompt.as_str()));
    assert(models(msgs@) =~= seq![message("user"@, q.prompt@)]);
    let mut es: Vec<(String, Value)> = Vec::new();
    push_entry(&mut es, "model", Value::String(owned(model)));
    push_entry(&mut es, "messages", Value::Array(msgs));
    let tokens = match q.max_tokens {
        Some(n) => Value::Int(n as i64),
        None => Value::Int(1024),
    };
    push_entry(&mut es, "max_tokens", tokens);
    assert(entry_models(es@) =~= seq![
        ("model"@, Val::Str(model@)),
        ("messages"@, Val::Arr(seq![message("user"@, q@.prompt)])),
        ("max_tokens"@, anthropic_tokens(q@.max_tokens)),
    ]);
    push_opt_str(&mut es, "system", &q.system);
    push_opt_temperature(&mut es, "temperature", &q.temperature);
    Value::Object(ObjectMap { entries: es })
}

/// The request body a query sends to OpenAI, for the given model.
pub fn openai_request(q: &LlmQuery, model: &str) -> (b: Value)
    ensures
        b.model() == openai_body(q@, model@),
{
    proof {
        reveal_strlit("model");
        reveal_strlit("messages");
        reveal_strlit("max_tokens");
        reveal_strlit("user");
        reveal_strlit("system");
    }
    let mut msgs: Vec<Value> = Vec::new();
    match &q.system {
        Some(sys) => msgs.push(message_exec("system", sys.as_str())),
        None => {},
    }
    msgs.push(message_exec("user", q.prompt.as_str()));
    assert(models(msgs@) =~= openai_messages(q@));
    let mut es: Vec<(String, Value)> = Vec::new();
    push_entry(&mut es, "model", Value::String(owned(model)));
    push_entry(&mut es, "messages", Value::Array(msgs));
    assert(entry_models(es@) =~= seq![("model"@, Val::Str(model@)), ("messages"@, Val::Arr(openai_messages(q@)))]);
    push_opt_temperature(&mut es, "temperature", &q.temperature);
    let ghost mid = entry_models(es@);
    match q.max_tokens {
        Some(n) => {
            push_entry(&mut es, "max_tokens", Value::Int(n as i64));
            assert(entry_models(es@) =~= mid + seq![("max_tokens"@, tokens_val(n))]);
        },
        None => {
            assert(entry_models(es@) =~= mid + Seq::<(Seq<char>, Val)>::empty());
        },
    }
    Value::Object(ObjectMap { entries: es })
}

/// The request body a query sends to Ollama, for the given model.
pub fn ollama_request(q: &LlmQuery, model: &str) -> (b: Value)
    ensures
        b.model() == ollama_body(q@, model@),
{
    proof {
        reveal_strlit("model");
        reveal_strlit("prompt");
        reveal_strlit("stream");
        reveal_strlit("options");
        reveal_strlit("temperature");
    }
    let mut es: Vec<(String, Value)> = Vec::new();
    push_entry(&mut es, "model", Value::String(owned(model)));
    push_entry(&mut es, "prompt", Value::String(owned(q.prompt.as_str())));
    push_entry(&mut es, "stream", Value::Bool(false));
    assert(entry_models(es@) =~= seq![("model"@, Val::Str(model@)), ("prompt"@, Val::Str(q@.prompt)), ("stream"@, Val::Bool(false))]);
    push_opt_str(&mut es, "system", &q.system);
    let ghost mid = entry_models(es@);
    match &q.temperature {
        Some(t) => {
            let mut inner: Vec<(String, Value)> = Vec::new();
            push_entry(&mut inner, "temperature", temperature_exec(t));
            proof {
                assert(entry_models(inner@) =~= seq![("temperature"@, temperature_val(*t))]);
            }
            push_entry(&mut es, "options", Value::Object(ObjectMap { entries: inner }));
            assert(entry_models(es@) =~= mid + seq![("options"@, Val::Obj(seq![("temperature"@, temperature_val(*t))]))]);
        },
        None => {
            assert(entry_models(es@) =~= mid + Seq::<(Seq<char>, Val)>::empty());
        },
    }
    Value::Object(ObjectMap { entries: es })
}

/// The request body a query sends to OSVM.ai.
pub fn osvm_request(q: &LlmQuery) -> (b: Value)
    ensures
        b.model() == osvm_body(q@),
{
    let mut es: Vec<(String, Value)> = Vec::new();
    push_entry(&mut es, "message", Value::String(owned(q.prompt.as_str())));
    proof {
        reveal_strlit("message");
    }
    Value::Object(ObjectMap { entries: es })
}

/// The error a service's reply brings when its status is not a success:
/// `"<service> error (<status>): <reply text>"`; none when it is.
pub fn service_status(service: &str, ok: bool, status: &str, text: &str) -> (r: Result<(), Error>)
    ensures
        ok ==> r is Ok,
        !ok ==> (r matches Err(e) && e@ == ErrV::ToolExecutionError {
            tool: "llm-query"@,
            reason: service@ + " error ("@ + status@ + "): "@ + text@,
        }),
{
    if ok {
        Ok(())
    } else {
        let a = concat(service, " error (");
        let b = concat(a.as_str(), status);
        let c = concat(b.as_str(), "): ");
        let reason = concat(c.as_str(), text);
        Err(Error::ToolExecutionError { tool: owned("llm-query"), reason })
    }
}

} // verus!
