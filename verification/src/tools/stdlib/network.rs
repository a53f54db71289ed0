//! Network operations for Solisp
//!
//! Provides HTTP, WebSocket, and JSON-RPC functionality for blockchain integration.
//! The library checks a request's arguments and reads the reply; sending it
//! is left to the caller.
use vstd::prelude::*;

use crate::error::{ErrV, Error};
use crate::text::{concat, decimal, owned, u64_to_string};
use crate::value::{kind_name_of, models, obj_insert, ObjectMap, Val, Value};
use crate::access::copy_values;

verus! {

broadcast use crate::seq_models::group_value_models;

/// The headers of a request: the entries of a headers object whose values
/// are strings, in order.
pub open spec fn string_headers(h: Seq<(Seq<char>, Val)>) -> Seq<(Seq<char>, Seq<char>)>
    decreases h.len(),
{
    if h.len() == 0 {
        Seq::empty()
    } else {
        let rest = string_headers(h.drop_last());
        match h.last().1 {
            Val::Str(v) => rest.push((h.last().0, v)),
            _ => rest,
        }
    }
}

/// The headers that an optional headers argument gives: none unless it is an object.
pub open spec fn headers_of(a: Seq<Val>, i: int) -> Seq<(Seq<char>, Seq<char>)> {
    if a.len() > i && a[i] is Obj {
        string_headers(a[i]->Obj_0)
    } else {
        Seq::empty()
    }
}

/// The views of header pairs.
pub open spec fn header_views(v: Seq<(String, String)>) -> Seq<(Seq<char>, Seq<char>)> {
    Seq::new(v.len(), |i: int| (v[i].0@, v[i].1@))
}

fn headers_exec(args: &[Value], i: usize) -> (r: Vec<(String, String)>)
    ensures
        header_views(r@) == headers_of(models(args@), i as int),
{
    let mut out: Vec<(String, String)> = Vec::new();
    if i < args.len() {
        match &args[i] {
            Value::Object(h) => {
                let ghost s = h.model();
                let mut k: usize = 0;
                assert(s.take(0) =~= Seq::<(Seq<char>, Val)>::empty());
                assert(header_views(out@) =~= Seq::<(Seq<char>, Seq<char>)>::empty());
                while k < h.entries.len()
                    invariant
                        s == h.model(),
                        k <= h.entries@.len(),
                        header_views(out@) == string_headers(s.take(k as int)),
                    decreases h.entries.len() - k,
                {
                    assert(s.take(k + 1).drop_last() =~= s.take(k as int));
                    assert(s.take(k + 1).last() == (h.entries@[k as int].0@, h.entries@[k as int].1.model()));
                    let ghost prev = header_views(out@);
                    match &h.entries[k].1 {
                        Value::String(v) => {
                            out.push((owned(h.entries[k].0.as_str()), owned(v.as_str())));
                            assert(header_views(out@) =~= prev.push((h.entries@[k as int].0@, v@)));
                        },
                        _ => {},
                    }
                    k = k + 1;
                }
                assert(s.take(k as int) =~= s);
            },
            _ => {
                assert(header_views(out@) =~= Seq::<(Seq<char>, Seq<char>)>::empty());
            },
        }
    } else {
        assert(header_views(out@) =~= Seq::<(Seq<char>, Seq<char>)>::empty());
    }
    out
}

/// What goes in the body of a POST request.
pub enum HttpBody {
    /// No body (a GET request).
    Empty,
    /// A text body, sent as it is.
    Text(String),
    /// An object, sent as JSON.
    Json(Value),
}

/// A checked HTTP request.
pub struct HttpRequest {
    pub url: String,
    pub headers: Vec<(String, String)>,
    pub body: HttpBody,
}

/// The model of an [`HttpBody`].
pub enum HttpBodyModel {
    Empty,
    Text(Seq<char>),
    Json(Val),
}

/// The model of an [`HttpRequest`].
pub struct HttpRequestModel {
    pub url: Seq<char>,
    pub headers: Seq<(Seq<char>, Seq<char>)>,
    pub body: HttpBodyModel,
}

impl View for HttpRequest {
    type V = HttpRequestModel;

    open spec fn view(&self) -> HttpRequestModel {
        HttpRequestModel {
            url: self.url@,
            headers: header_views(self.headers@),
            body: match self.body {
                HttpBody::Empty => HttpBodyModel::Empty,
                HttpBody::Text(t) => HttpBodyModel::Text(t@),
                HttpBody::Json(v) => HttpBodyModel::Json(v.model()),
            },
        }
    }
}

/// The error a network tool reports for a missing or mistyped argument.
pub open spec fn net_error(tool: Seq<char>, reason: Seq<char>) -> ErrV {
    ErrV::InvalidArguments { tool, reason }
}

/// The request that `http-get` makes of its arguments, or the error it reports.
pub open spec fn http_get_plan(a: Seq<Val>) -> Result<HttpRequestModel, ErrV> {
    if a.len() == 0 {
        Err(net_error("http-get"@, "Expected url and optional headers"@))
    } else if !(a[0] is Str) {
        Err(net_error("http-get"@, "Expected string url, got "@ + kind_name_of(a[0])))
    } else {
        Ok(HttpRequestModel { url: a[0]->Str_0, headers: headers_of(a, 1), body: HttpBodyModel::Empty })
    }
}

/// The request that `http-post` makes of its arguments, or the error it reports.
pub open spec fn http_post_plan(a: Seq<Val>) -> Result<HttpRequestModel, ErrV> {
    if a.len() < 2 {
        Err(net_error("http-post"@, "Expected url and body, got "@ + decimal(a.len()) + " arguments"@))
    } else if !(a[0] is Str) {
        Err(net_error("http-post"@, "Expected string url, got "@ + kind_name_of(a[0])))
    } else {
        match a[1] {
            Val::Str(t) => Ok(HttpRequestModel { url: a[0]->Str_0, headers: headers_of(a, 2), body: HttpBodyModel::Text(t) }),
            Val::Obj(_) => Ok(HttpRequestModel { url: a[0]->Str_0, headers: headers_of(a, 2), body: HttpBodyModel::Json(a[1]) }),
            _ => Err(net_error("http-post"@, "Expected string or object body, got "@ + kind_name_of(a[1]))),
        }
    }
}

/// Reads and checks the arguments of `http-get`: the URL and the string
/// headers of an optional headers object.
pub fn plan_http_get(args: &[Value]) -> (r: Result<HttpRequest, Error>)
    ensures
        match r {
            Ok(q) => http_get_plan(models(args@)) == Ok::<HttpRequestModel, ErrV>(q@),
            Err(e) => http_get_plan(models(args@)) == Err::<HttpRequestModel, ErrV>(e@),
        },
{
    if args.len() == 0 {
        return Err(Error::InvalidArguments { tool: owned("http-get"), reason: owned("Expected url and optional headers") });
    }
    let url = match &args[0] {
        Value::String(s) => owned(s.as_str()),
        _ => {
            return Err(Error::InvalidArguments {
                tool: owned("http-get"),
                reason: concat("Expected string url, got ", args[0].kind_name().as_str()),
            });
        },
    };
    Ok(HttpRequest { url, headers: headers_exec(args, 1), body: HttpBody::Empty })
}

/// Reads and checks the arguments of `http-post`: the URL, the body (a
/// string, or an object to send as JSON) and the string headers of an
/// optional headers object.
pub fn plan_http_post(args: &[Value]) -> (r: Result<HttpRequest, Error>)
    ensures
        match r {
            Ok(q) => http_post_plan(models(args@)) == Ok::<HttpRequestModel, ErrV>(q@),
            Err(e) => http_post_plan(models(args@)) == Err::<HttpRequestModel, ErrV>(e@),
        },
{
    if args.len() < 2 {
        let n = u64_to_string(args.len() as u64);
        let head = concat("Expected url and body, got ", n.as_str());
        return Err(Error::InvalidArguments { tool: owned("http-post"), reason: concat(head.as_str(), " arguments") });
    }
    let url = match &args[0] {
        Value::String(s) => owned(s.as_str()),
        _ => {
            return Err(Error::InvalidArguments {
                tool: owned("http-post"),
                reason: concat("Expected string url, got ", args[0].kind_name().as_str()),
            });
        },
    };
    let body = match &args[1] {
        Value::String(s) => HttpBody::Text(owned(s.as_str())),
        Value::Object(_) => HttpBody::Json(args[1].deep_copy()),
        _ => {
            return Err(Error::InvalidArguments {
                tool: owned("http-post"),
                reason: concat("Expected string or object body, got ", args[1].kind_name().as_str()),
            });
        },
    };
    Ok(HttpRequest { url, headers: headers_exec(args, 2), body })
}

/// A checked JSON-RPC call: the endpoint, the method and its parameters.
pub struct RpcCall {
    pub url: String,
    pub method: String,
    pub params: Vec<Value>,
}

/// The call that `json-rpc` makes of its arguments, or the error it reports.
pub open spec fn rpc_plan(a: Seq<Val>) -> Result<(Seq<char>, Seq<char>, Seq<Val>), ErrV> {
    if a.len() < 2 {
        Err(net_error("json-rpc"@, "Expected url and method, got "@ + decimal(a.len()) + " arguments"@))
    } else if !(a[0] is Str) {
        Err(net_error("json-rpc"@, "Expected string url, got "@ + kind_name_of(a[0])))
    } else if !(a[1] is Str) {
        Err(net_error("json-rpc"@, "Expected string method, got "@ + kind_name_of(a[1])))
    } else if a.len() > 2 {
        match a[2] {
            Val::Arr(p) => Ok((a[0]->Str_0, a[1]->Str_0, p)),
            _ => Err(net_error("json-rpc"@, "Expected array params, got "@ + kind_name_of(a[2]))),
        }
    } else {
        Ok((a[0]->Str_0, a[1]->Str_0, Seq::empty()))
    }
}

/// Reads and checks the arguments of `json-rpc`: the URL, the method name,
/// and the parameters (an array, none when missing).
pub fn plan_json_rpc(args: &[Value]) -> (r: Result<RpcCall, Error>)
    ensures
        match r {
            Ok(c) => rpc_plan(models(args@)) == Ok::<(Seq<char>, Seq<char>, Seq<Val>), ErrV>((c.url@, c.method@, models(c.params@))),
            Err(e) => rpc_plan(models(args@)) == Err::<(Seq<char>, Seq<char>, Seq<Val>), ErrV>(e@),
        },
{
    if args.len() < 2 {
        let n = u64_to_string(args.len() as u64);
        let head = concat("Expected url and method, got ", n.as_str());
        return Err(Error::InvalidArguments { tool: owned("json-rpc"), reason: concat(head.as_str(), " arguments") });
    }
    let url = match &args[0] {
        Value::String(s) => owned(s.as_str()),
        _ => {
            return Err(Error::InvalidArguments {
                tool: owned("json-rpc"),
                reason: concat("Expected string url, got ", args[0].kind_name().as_str()),
            });
        },
    };
    let method = match &args[1] {
        Value::String(s) => owned(s.as_str()),
        _ => {
            return Err(Error::InvalidArguments {
                tool: owned("json-rpc"),
                reason: concat("Expected string method, got ", args[1].kind_name().as_str()),
            });
        },
    };
    let params = if args.len() > 2 {
        match &args[2] {
            Value::Array(p) => copy_values(p),
            _ => {
                return Err(Error::InvalidArguments {
                    tool: owned("json-rpc"),
                    reason: concat("Expected array params, got ", args[2].kind_name().as_str()),
                });
            },
        }
    } else {
        let v: Vec<Value> = Vec::new();
        assert(models(v@) =~= Seq::<Val>::empty());
        v
    };
    Ok(RpcCall { url, method, params })
}

/// The object an HTTP tool answers: the status code and the body text.
pub fn response_object(status: u16, body: String) -> (r: Value)
    ensures
        r.model() == Val::Obj(obj_insert(obj_insert(Seq::empty(), "status"@, Val::Int(status as i64)), "body"@, Val::Str(body@))),
{
    let mut m = ObjectMap::new();
    m.insert(owned("status"), Value::Int(status as i64));
    m.insert(owned("body"), Value::String(body));
    Value::Object(m)
}

/// What `json-rpc` answers for a parsed reply: an error when the reply
/// carries one (given by its JSON text) or lacks a result, else the result.
pub fn rpc_outcome(error_text: Option<String>, result: Option<Value>) -> (r: Result<Value, Error>)
    ensures
        match error_text {
            Some(t) => r matches Err(e) && e@ == (ErrV::ToolExecutionError { tool: "json-rpc"@, reason: "JSON-RPC error: "@ + t@ }),
            None => match result {
                Some(v) => r matches Ok(w) && w.model() == v.model(),
                None => r matches Err(e) && e@ == (ErrV::ToolExecutionError {
                    tool: "json-rpc"@,
                    reason: "JSON-RPC response missing 'result' field"@,
                }),
            },
        },
{
    match error_text {
        Some(t) => Err(Error::ToolExecutionError { tool: owned("json-rpc"), reason: concat("JSON-RPC error: ", t.as_str()) }),
        None => match result {
            Some(v) => Ok(v),
            None => Err(Error::ToolExecutionError {
                tool: owned("json-rpc"),
                reason: owned("JSON-RPC response missing 'result' field"),
            }),
        },
    }
}

} // verus!
