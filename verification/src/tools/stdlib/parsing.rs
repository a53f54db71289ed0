//! Parsing tools for OVSM - JSON, Base58, Base64, URLs, and more
use vstd::prelude::*;

#[allow(unused_imports)]
use crate::access::{copy_range, copy_slice, copy_values, values_equal};
#[allow(unused_imports)]
use crate::error::{empty_collection, exec_error, invalid_args, ErrV, Error};
#[allow(unused_imports)]
use crate::text::{alphabetic, alphanumeric, char_from_u32, char_is_alphabetic, char_is_alphanumeric, char_is_lowercase, char_is_uppercase, char_is_whitespace, char_string, char_to_lowercase, char_to_uppercase, chars_of, chars_skip, concat, i64_to_string, int_decimal, lower_case, lower_chars, lowercase, owned, scalar_value, seq_less, str_equal, str_less, string_from_chars, to_lower, to_upper, upper_case, upper_chars, uppercase, whitespace};
#[allow(unused_imports)]
use crate::tools::{bad_args, name_insert, outcome, ref_outcome, string_views, yields, Tool, ToolRegistry};
#[allow(unused_imports)]
use crate::value::{and_then, elems, entry_models, int_of, models, obj_insert, obj_keys, obj_lookup, obj_merge, obj_of, obj_values, str_of, truthy, type_error, ObjectMap, Val, Value};

verus! {

broadcast use crate::seq_models::group_value_models;

/// The names after registering this module's tools, in order.
pub open spec fn registered_names(ns: Seq<Seq<char>>) -> Seq<Seq<char>> {
    let ns = name_insert(ns, "base58-decode"@);
    let ns = name_insert(ns, "base58-encode"@);
    let ns = name_insert(ns, "base64-decode"@);
    let ns = name_insert(ns, "base64-encode"@);
    let ns = name_insert(ns, "hex-decode"@);
    let ns = name_insert(ns, "hex-encode"@);
    let ns = name_insert(ns, "parse-url"@);
    let ns = name_insert(ns, "parse-int"@);
    let ns = name_insert(ns, "parse-csv"@);
    let ns = name_insert(ns, "parse-json"@);
    let ns = name_insert(ns, "json-stringify"@);
    let ns = name_insert(ns, "parse-float"@);
    ns
}

/// Register the tools of this module: those the library holds, then those
/// the application supplies, each under its name: `json_parse_tool` under parse-json, `json_stringify_tool` under json-stringify, `parse_float_tool` under parse-float.
pub fn register<TJsonParse: Tool + 'static, TJsonStringify: Tool + 'static, TParseFloat: Tool + 'static>(registry: &mut ToolRegistry, json_parse_tool: TJsonParse, json_stringify_tool: TJsonStringify, parse_float_tool: TParseFloat)
    requires
        json_parse_tool.names_itself() ==> json_parse_tool.spec_name() == "parse-json"@,
        json_stringify_tool.names_itself() ==> json_stringify_tool.spec_name() == "json-stringify"@,
        parse_float_tool.names_itself() ==> parse_float_tool.spec_name() == "parse-float"@,
    ensures
        final(registry).names() == registered_names(old(registry).names()),
{
    registry.register(Base58DecodeTool);
    registry.register(Base58EncodeTool);
    registry.register(Base64DecodeTool);
    registry.register(Base64EncodeTool);
    registry.register(HexDecodeTool);
    registry.register(HexEncodeTool);
    registry.register(UrlParseTool);
    registry.register(ParseIntTool);
    registry.register(ParseCsvTool);
    registry.place(owned("parse-json"), json_parse_tool);
    registry.place(owned("json-stringify"), json_stringify_tool);
    registry.place(owned("parse-float"), parse_float_tool);
}

use base64::Engine;

/// What `bs58::decode(s).into_vec()` gives: the bytes, or the error's message.
pub uninterp spec fn base58_decoding(s: Seq<char>) -> Result<Seq<u8>, Seq<char>>;

/// What `bs58::encode(b).into_string()` gives.
pub uninterp spec fn base58_encoding(b: Seq<u8>) -> Seq<char>;

/// What the standard engine's `decode` of the `base64` crate gives: the bytes,
/// or the error's message.
pub uninterp spec fn base64_decoding(s: Seq<char>) -> Result<Seq<u8>, Seq<char>>;

/// The character of a 6-bit value in the standard Base64 alphabet.
pub open spec fn base64_digit(v: int) -> char {
    if v < 26 {
        ((65 + v) as u8) as char
    } else if v < 52 {
        ((71 + v) as u8) as char
    } else if v < 62 {
        ((v - 4) as u8) as char
    } else if v == 62 {
        '+'
    } else {
        '/'
    }
}

/// Standard Base64 with padding: each group of three bytes gives four
/// characters, six bits each, high bits first; a last group of one or two
/// bytes gives two or three characters and is padded with `=` to four.
pub open spec fn base64_standard(b: Seq<u8>) -> Seq<char>
    decreases b.len(),
{
    if b.len() == 0 {
        Seq::empty()
    } else if b.len() == 1 {
        seq![base64_digit((b[0] as int) / 4), base64_digit(((b[0] as int) % 4) * 16), '=', '=']
    } else if b.len() == 2 {
        seq![
            base64_digit((b[0] as int) / 4),
            base64_digit(((b[0] as int) % 4) * 16 + (b[1] as int) / 16),
            base64_digit(((b[1] as int) % 16) * 4),
            '=',
        ]
    } else {
        seq![
            base64_digit((b[0] as int) / 4),
            base64_digit(((b[0] as int) % 4) * 16 + (b[1] as int) / 16),
            base64_digit(((b[1] as int) % 16) * 4 + (b[2] as int) / 64),
            base64_digit((b[2] as int) % 64),
        ] + base64_standard(b.subrange(3, b.len() as int))
    }
}

/// What `hex::decode` gives: the bytes, or the error's message.
pub uninterp spec fn hex_decoding(s: Seq<char>) -> Result<Seq<u8>, Seq<char>>;

/// What `url::Url::parse` gives: the parts of the URL, or the error's message.
pub uninterp spec fn url_parsing(s: Seq<char>) -> Result<UrlModel, Seq<char>>;

/// What the `csv` crate reads from a text with a delimiter: the header fields
/// and the records' fields, or where reading failed and the error's message.
pub uninterp spec fn csv_reading(s: Seq<char>, delimiter: u8) -> Result<(Seq<Seq<char>>, Seq<Seq<Seq<char>>>), CsvFailureModel>;

/// What `i64::from_str_radix` gives: the integer, or the error's message.
pub uninterp spec fn radix_parsing(s: Seq<char>, radix: u32) -> Result<i64, Seq<char>>;

/// The lower-case hexadecimal digit of `d < 16`.
pub open spec fn hex_digit(d: u8) -> char {
    if d < 10 {
        ((('0' as u8) + d) as u8) as char
    } else {
        ((('a' as u8) + d - 10) as u8) as char
    }
}

/// Two lower-case hexadecimal digits per byte, high nibble first.
pub open spec fn hex_lower(b: Seq<u8>) -> Seq<char>
    decreases b.len(),
{
    if b.len() == 0 {
        Seq::empty()
    } else {
        seq![hex_digit(b[0] / 16), hex_digit(b[0] % 16)] + hex_lower(b.drop_first())
    }
}

/// The parts of a parsed URL.
pub struct UrlParts {
    pub scheme: String,
    pub host: Option<String>,
    pub port: Option<u16>,
    pub path: String,
    pub query: Option<String>,
    pub fragment: Option<String>,
}

/// The model of [`UrlParts`].
pub struct UrlModel {
    pub scheme: Seq<char>,
    pub host: Option<Seq<char>>,
    pub port: Option<u16>,
    pub path: Seq<char>,
    pub query: Option<Seq<char>>,
    pub fragment: Option<Seq<char>>,
}

/// The model of an optional string.
pub open spec fn opt_view(o: Option<String>) -> Option<Seq<char>> {
    match o {
        Some(s) => Some(s@),
        None => None,
    }
}

impl View for UrlParts {
    type V = UrlModel;

    open spec fn view(&self) -> UrlModel {
        UrlModel {
            scheme: self.scheme@,
            host: opt_view(self.host),
            port: self.port,
            path: self.path@,
            query: opt_view(self.query),
            fragment: opt_view(self.fragment),
        }
    }
}

/// Where reading a CSV text failed, with the error's message.
pub enum CsvFailure {
    Headers(String),
    Record(String),
}

/// The model of [`CsvFailure`].
pub enum CsvFailureModel {
    Headers(Seq<char>),
    Record(Seq<char>),
}

impl View for CsvFailure {
    type V = CsvFailureModel;

    open spec fn view(&self) -> CsvFailureModel {
        match self {
            CsvFailure::Headers(m) => CsvFailureModel::Headers(m@),
            CsvFailure::Record(m) => CsvFailureModel::Record(m@),
        }
    }
}

/// The model of a result of bytes or a message.
pub open spec fn bytes_result(r: Result<Vec<u8>, String>) -> Result<Seq<u8>, Seq<char>> {
    match r {
        Ok(v) => Ok(v@),
        Err(m) => Err(m@),
    }
}

/// `bs58::decode(s).into_vec()`, its error given by its message.
#[verifier::external_body]
fn base58_decode(s: &str) -> (r: Result<Vec<u8>, String>)
    ensures
        bytes_result(r) == base58_decoding(s@),
{
    bs58::decode(s).into_vec().map_err(|e| e.to_string())
}

/// `bs58::encode(b).into_string()`.
#[verifier::external_body]
fn base58_encode(b: &Vec<u8>) -> (s: String)
    ensures
        s@ == base58_encoding(b@),
{
    bs58::encode(b).into_string()
}

/// `base64::engine::general_purpose::STANDARD.decode(s)`, its error given by its message.
#[verifier::external_body]
fn base64_decode(s: &str) -> (r: Result<Vec<u8>, String>)
    ensures
        bytes_result(r) == base64_decoding(s@),
{
    base64::engine::general_purpose::STANDARD.decode(s).map_err(|e| e.to_string())
}

/// `base64::engine::general_purpose::STANDARD.encode(b)`: the standard
/// alphabet with padding.
#[verifier::external_body]
fn base64_encode(b: &Vec<u8>) -> (s: String)
    ensures
        s@ == base64_standard(b@),
{
    base64::engine::general_purpose::STANDARD.encode(b)
}

/// `hex::decode(s)`, its error given by its message.
#[verifier::external_body]
fn hex_decode(s: &str) -> (r: Result<Vec<u8>, String>)
    ensures
        bytes_result(r) == hex_decoding(s@),
{
    hex::decode(s).map_err(|e| e.to_string())
}

/// `hex::encode(b)`: two lower-case hexadecimal digits per byte.
#[verifier::external_body]
fn hex_encode(b: &Vec<u8>) -> (s: String)
    ensures
        s@ == hex_lower(b@),
{
    hex::encode(b)
}

/// `url::Url::parse(s)` and the parts that the URL tool reads of it, its error
/// given by its message.
#[verifier::external_body]
fn url_parse(s: &str) -> (r: Result<UrlParts, String>)
    ensures
        match r {
            Ok(p) => url_parsing(s@) == Ok::<UrlModel, Seq<char>>(p@),
            Err(m) => url_parsing(s@) == Err::<UrlModel, Seq<char>>(m@),
        },
{
    let url = url::Url::parse(s).map_err(|e| e.to_string())?;
    Ok(UrlParts {
        scheme: url.scheme().to_string(),
        host: url.host_str().map(|h| h.to_string()),
        port: url.port(),
        path: url.path().to_string(),
        query: url.query().map(|q| q.to_string()),
        fragment: url.fragment().map(|f| f.to_string()),
    })
}

/// The model of a CSV reading.
pub open spec fn csv_result(r: Result<(Vec<String>, Vec<Vec<String>>), CsvFailure>) -> Result<(Seq<Seq<char>>, Seq<Seq<Seq<char>>>), CsvFailureModel> {
    match r {
        Ok((h, rs)) => Ok((string_views(h@), Seq::new(rs@.len(), |i: int| string_views(rs@[i]@)))),
        Err(f) => Err(f@),
    }
}

/// A `csv::ReaderBuilder` with the delimiter reading the text: its header
/// record and its records, as fields, or where it failed and the error's message.
#[verifier::external_body]
fn csv_read(s: &str, delimiter: u8) -> (r: Result<(Vec<String>, Vec<Vec<String>>), CsvFailure>)
    ensures
        csv_result(r) == csv_reading(s@, delimiter),
{
    let mut reader = csv::ReaderBuilder::new().delimiter(delimiter).from_reader(s.as_bytes());
    let headers = reader.headers().map_err(|e| CsvFailure::Headers(e.to_string()))?;
    let headers: Vec<String> = headers.iter().map(|h| h.to_string()).collect();
    let records: Result<Vec<Vec<String>>, CsvFailure> = reader
        .records()
        .map(|r| r.map(|rec| rec.iter().map(|f| f.to_string()).collect()).map_err(|e| CsvFailure::Record(e.to_string())))
        .collect();
    Ok((headers, records?))
}

/// `i64::from_str_radix(s, radix)` of std, its error given by its message.
#[verifier::external_body]
fn parse_radix(s: &str, radix: u32) -> (r: Result<i64, String>)
    requires
        2 <= radix <= 36,
    ensures
        match r {
            Ok(n) => radix_parsing(s@, radix) == Ok::<i64, Seq<char>>(n),
            Err(m) => radix_parsing(s@, radix) == Err::<i64, Seq<char>>(m@),
        },
{
    i64::from_str_radix(s, radix).map_err(|e| e.to_string())
}

/// The bytes of an array: its integers, each cut to its low eight bits; other elements are skipped.
pub open spec fn byte_list(s: Seq<Val>) -> Seq<u8>
    decreases s.len(),
{
    if s.len() == 0 {
        Seq::empty()
    } else {
        let rest = byte_list(s.drop_last());
        match s.last() {
            Val::Int(n) => rest.push(n as u8),
            _ => rest,
        }
    }
}

/// An array of the bytes, each as an integer.
pub open spec fn byte_values(b: Seq<u8>) -> Seq<Val> {
    Seq::new(b.len(), |i: int| Val::Int(b[i] as i64))
}

fn bytes_of(arr: &Vec<Value>) -> (r: Vec<u8>)
    ensures
        r@ == byte_list(models(arr@)),
{
    let ghost a = models(arr@);
    let mut out: Vec<u8> = Vec::new();
    let mut i: usize = 0;
    while i < arr.len()
        invariant
            i <= arr@.len(),
            a == models(arr@),
            a.len() == arr@.len(),
            out@ == byte_list(a.take(i as int)),
        decreases arr.len() - i,
    {
        assert(a.take(i + 1).drop_last() =~= a.take(i as int));
        assert(a.take(i + 1).last() == arr@[i as int].model());
        match &arr[i] {
            Value::Int(n) => out.push(*n as u8),
            _ => {},
        }
        i = i + 1;
    }
    assert(a.take(i as int) =~= a);
    out
}

fn values_of_bytes(b: &Vec<u8>) -> (r: Vec<Value>)
    ensures
        models(r@) == byte_values(b@),
{
    let mut out: Vec<Value> = Vec::new();
    let mut i: usize = 0;
    while i < b.len()
        invariant
            i <= b@.len(),
            out@.len() == i,
            forall|j: int| 0 <= j < i ==> #[trigger] out@[j].model() == Val::Int(b@[j] as i64),
        decreases b.len() - i,
    {
        out.push(Value::Int(b[i] as i64));
        i = i + 1;
    }
    assert(models(out@) =~= byte_values(b@));
    out
}

/// The result of a decoding tool for a decoding result `d`.
pub open spec fn decoded(tool: Seq<char>, prefix: Seq<char>, d: Result<Seq<u8>, Seq<char>>) -> Result<Val, ErrV> {
    match d {
        Ok(b) => yields(Val::Arr(byte_values(b))),
        Err(m) => Err(ErrV::ToolExecutionError { tool, reason: prefix + m }),
    }
}

fn decoded_exec(tool: &str, prefix: &str, d: Result<Vec<u8>, String>) -> (r: Result<Value, Error>)
    ensures
        outcome(r) == decoded(tool@, prefix@, bytes_result(d)),
{
    match d {
        Ok(b) => Ok(Value::Array(values_of_bytes(&b))),
        Err(m) => Err(Error::ToolExecutionError { tool: owned(tool), reason: concat(prefix, m.as_str()) }),
    }
}

/// The text without a leading `0x`.
pub open spec fn strip_hex_prefix(s: Seq<char>) -> Seq<char> {
    if s.len() >= 2 && s[0] == '0' && s[1] == 'x' {
        s.skip(2)
    } else {
        s
    }
}

/// The fields of a record as an object keyed by the headers; fields past the
/// last header are dropped, and a repeated header keeps the later field.
pub open spec fn record_object(headers: Seq<Seq<char>>, fields: Seq<Seq<char>>) -> Seq<(Seq<char>, Val)>
    decreases fields.len(),
{
    if fields.len() == 0 {
        Seq::empty()
    } else {
        let rest = record_object(headers, fields.drop_last());
        let i = fields.len() - 1;
        if i < headers.len() {
            obj_insert(rest, headers[i], Val::Str(fields.last()))
        } else {
            rest
        }
    }
}

/// The object of the URL parts, in the order the URL tool inserts them.
pub open spec fn url_object(p: UrlModel) -> Seq<(Seq<char>, Val)> {
    let o = obj_insert(Seq::empty(), "scheme"@, Val::Str(p.scheme));
    let o = obj_insert(o, "host"@, match p.host { Some(h) => Val::Str(h), None => Val::Null });
    let o = obj_insert(o, "port"@, match p.port { Some(n) => Val::Int(n as i64), None => Val::Null });
    let o = obj_insert(o, "path"@, Val::Str(p.path));
    let o = obj_insert(o, "query"@, match p.query { Some(q) => Val::Str(q), None => Val::Null });
    obj_insert(o, "fragment"@, match p.fragment { Some(f) => Val::Str(f), None => Val::Null })
}

fn opt_string_value(o: Option<String>) -> (r: Value)
    ensures
        r.model() == (match opt_view(o) { Some(s) => Val::Str(s), None => Val::Null }),
{
    match o {
        Some(s) => Value::String(s),
        None => Value::Null,
    }
}

fn record_object_exec(headers: &Vec<String>, fields: &Vec<String>) -> (m: ObjectMap)
    ensures
        m.model() == record_object(string_views(headers@), string_views(fields@)),
{
    let ghost hs = string_views(headers@);
    let ghost fs = string_views(fields@);
    let mut obj = ObjectMap::new();
    let mut i: usize = 0;
    while i < fields.len()
        invariant
            i <= fields@.len(),
            hs == string_views(headers@),
            fs == string_views(fields@),
            obj.model() == record_object(hs, fs.take(i as int)),
        decreases fields.len() - i,
    {
        assert(fs.take(i + 1).drop_last() =~= fs.take(i as int));
        assert(fs.take(i + 1).last() == fields@[i as int]@);
        if i < headers.len() {
            obj.insert(headers[i].clone(), Value::String(fields[i].clone()));
        }
        i = i + 1;
    }
    assert(fs.take(i as int) =~= fs);
    obj
}

/// The delimiter of the CSV tool: the first character of a string second argument, else a comma.
pub open spec fn csv_delimiter(args: Seq<Val>) -> char {
    if args.len() > 1 {
        match args[1] {
            Val::Str(s) => if s.len() > 0 { s[0] } else { ',' },
            _ => ',',
        }
    } else {
        ','
    }
}

/// The radix of the integer tool, when given as an integer, is one that std accepts.
pub open spec fn radix_admitted(args: Seq<Val>) -> bool {
    args.len() > 1 ==> match args[1] {
        Val::Int(b) => 2 <= (b as u32) <= 36,
        _ => true,
    }
}

/// Decode a Base58 string to a byte array
pub struct Base58DecodeTool;

impl Tool for Base58DecodeTool {
    open spec fn names_itself(&self) -> bool {
        true
    }

    open spec fn spec_name(&self) -> Seq<char> {
        "base58-decode"@
    }

    open spec fn admits(&self, args: Seq<Val>) -> bool {
        true
    }

    fn name(&self) -> &str {
        "base58-decode"
    }

    fn description(&self) -> (r: &str)
        ensures
            r@ == "Decode a Base58 string to a byte array"@,
    {
        "Decode a Base58 string to a byte array"
    }

    fn execute(&self, args: &[Value]) -> (r: Result<Value, Error>)
        ensures
            outcome(r) == (if args@.len() == 0 { bad_args("base58-decode"@, "Expected 1 argument (Base58 string)"@) } else {
                match str_of(args@[0].model()) {
                    Err(e) => Err(e),
                    Ok(s) => decoded("base58-decode"@, "Failed to decode Base58: "@, base58_decoding(s)),
                }
            }),
    {
        if args.len() == 0 {
            return Err(invalid_args("base58-decode", "Expected 1 argument (Base58 string)"));
        }
        let encoded = args[0].as_string()?;
        decoded_exec("base58-decode", "Failed to decode Base58: ", base58_decode(encoded))
    }
}



/// Encode a byte array to a Base58 string
pub struct Base58EncodeTool;

impl Tool for Base58EncodeTool {
    open spec fn names_itself(&self) -> bool {
        true
    }

    open spec fn spec_name(&self) -> Seq<char> {
        "base58-encode"@
    }

    open spec fn admits(&self, args: Seq<Val>) -> bool {
        true
    }

    fn name(&self) -> &str {
        "base58-encode"
    }

    fn description(&self) -> (r: &str)
        ensures
            r@ == "Encode a byte array to a Base58 string"@,
    {
        "Encode a byte array to a Base58 string"
    }

    fn execute(&self, args: &[Value]) -> (r: Result<Value, Error>)
        ensures
            outcome(r) == (if args@.len() == 0 { bad_args("base58-encode"@, "Expected 1 argument (byte array)"@) } else {
                match elems(args@[0].model()) {
                    Err(e) => Err(e),
                    Ok(a) => yields(Val::Str(base58_encoding(byte_list(a)))),
                }
            }),
    {
        if args.len() == 0 {
            return Err(invalid_args("base58-encode", "Expected 1 argument (byte array)"));
        }
        let bytes = args[0].as_array()?;
        let byte_vec = bytes_of(bytes);
        Ok(Value::String(base58_encode(&byte_vec)))
    }
}



/// Decode a Base64 string to a byte array
pub struct Base64DecodeTool;

impl Tool for Base64DecodeTool {
    open spec fn names_itself(&self) -> bool {
        true
    }

    open spec fn spec_name(&self) -> Seq<char> {
        "base64-decode"@
    }

    open spec fn admits(&self, args: Seq<Val>) -> bool {
        true
    }

    fn name(&self) -> &str {
        "base64-decode"
    }

    fn description(&self) -> (r: &str)
        ensures
            r@ == "Decode a Base64 string to a byte array"@,
    {
        "Decode a Base64 string to a byte array"
    }

    fn execute(&self, args: &[Value]) -> (r: Result<Value, Error>)
        ensures
            outcome(r) == (if args@.len() == 0 { bad_args("base64-decode"@, "Expected 1 argument (Base64 string)"@) } else {
                match str_of(args@[0].model()) {
                    Err(e) => Err(e),
                    Ok(s) => decoded("base64-decode"@, "Failed to decode Base64: "@, base64_decoding(s)),
                }
            }),
    {
        if args.len() == 0 {
            return Err(invalid_args("base64-decode", "Expected 1 argument (Base64 string)"));
        }
        let encoded = args[0].as_string()?;
        decoded_exec("base64-decode", "Failed to decode Base64: ", base64_decode(encoded))
    }
}



/// Encode a byte array to a Base64 string
pub struct Base64EncodeTool;

impl Tool for Base64EncodeTool {
    open spec fn names_itself(&self) -> bool {
        true
    }

    open spec fn spec_name(&self) -> Seq<char> {
        "base64-encode"@
    }

    open spec fn admits(&self, args: Seq<Val>) -> bool {
        true
    }

    fn name(&self) -> &str {
        "base64-encode"
    }

    fn description(&self) -> (r: &str)
        ensures
            r@ == "Encode a byte array to a Base64 string"@,
    {
        "Encode a byte array to a Base64 string"
    }

    fn execute(&self, args: &[Value]) -> (r: Result<Value, Error>)
        ensures
            outcome(r) == (if args@.len() == 0 { bad_args("base64-encode"@, "Expected 1 argument (byte array)"@) } else {
                match elems(args@[0].model()) {
                    Err(e) => Err(e),
                    Ok(a) => yields(Val::Str(base64_standard(byte_list(a)))),
                }
            }),
    {
        if args.len() == 0 {
            return Err(invalid_args("base64-encode", "Expected 1 argument (byte array)"));
        }
        let bytes = args[0].as_array()?;
        let byte_vec = bytes_of(bytes);
        Ok(Value::String(base64_encode(&byte_vec)))
    }
}



/// Decode a hexadecimal string to a byte array
pub struct HexDecodeTool;

impl Tool for HexDecodeTool {
    open spec fn names_itself(&self) -> bool {
        true
    }

    open spec fn spec_name(&self) -> Seq<char> {
        "hex-decode"@
    }

    open spec fn admits(&self, args: Seq<Val>) -> bool {
        true
    }

    fn name(&self) -> &str {
        "hex-decode"
    }

    fn description(&self) -> (r: &str)
        ensures
            r@ == "Decode a hexadecimal string to a byte array"@,
    {
        "Decode a hexadecimal string to a byte array"
    }

    fn execute(&self, args: &[Value]) -> (r: Result<Value, Error>)
        ensures
            outcome(r) == (if args@.len() == 0 { bad_args("hex-decode"@, "Expected 1 argument (hex string)"@) } else {
                match str_of(args@[0].model()) {
                    Err(e) => Err(e),
                    Ok(s) => decoded("hex-decode"@, "Failed to decode hex: "@, hex_decoding(strip_hex_prefix(s))),
                }
            }),
    {
        if args.len() == 0 {
            return Err(invalid_args("hex-decode", "Expected 1 argument (hex string)"));
        }
        let hex_str = args[0].as_string()?;
        let cs = chars_of(hex_str);
        let stripped = if cs.len() >= 2 && cs[0] == '0' && cs[1] == 'x' {
            let rest = chars_skip(&cs, 2);
            string_from_chars(&rest)
        } else {
            owned(hex_str)
        };
        decoded_exec("hex-decode", "Failed to decode hex: ", hex_decode(stripped.as_str()))
    }
}



/// Encode a byte array to a hexadecimal string
pub struct HexEncodeTool;

impl Tool for HexEncodeTool {
    open spec fn names_itself(&self) -> bool {
        true
    }

    open spec fn spec_name(&self) -> Seq<char> {
        "hex-encode"@
    }

    open spec fn admits(&self, args: Seq<Val>) -> bool {
        true
    }

    fn name(&self) -> &str {
        "hex-encode"
    }

    fn description(&self) -> (r: &str)
        ensures
            r@ == "Encode a byte array to a hexadecimal string"@,
    {
        "Encode a byte array to a hexadecimal string"
    }

    fn execute(&self, args: &[Value]) -> (r: Result<Value, Error>)
        ensures
            outcome(r) == (if args@.len() == 0 { bad_args("hex-encode"@, "Expected 1 argument (byte array)"@) } else {
                match elems(args@[0].model()) {
                    Err(e) => Err(e),
                    Ok(a) => yields(Val::Str(
                        if args@.len() > 1 { "0x"@ + hex_lower(byte_list(a)) } else { hex_lower(byte_list(a)) })),
                }
            }),
    {
        if args.len() == 0 {
            return Err(invalid_args("hex-encode", "Expected 1 argument (byte array)"));
        }
        let bytes = args[0].as_array()?;
        let prefix = args.len() > 1;
        let byte_vec = bytes_of(bytes);
        let encoded = hex_encode(&byte_vec);
        let result = if prefix { concat("0x", encoded.as_str()) } else { encoded };
        Ok(Value::String(result))
    }
}



/// Parse a URL string into components
pub struct UrlParseTool;

impl Tool for UrlParseTool {
    open spec fn names_itself(&self) -> bool {
        true
    }

    open spec fn spec_name(&self) -> Seq<char> {
        "parse-url"@
    }

    open spec fn admits(&self, args: Seq<Val>) -> bool {
        true
    }

    fn name(&self) -> &str {
        "parse-url"
    }

    fn description(&self) -> (r: &str)
        ensures
            r@ == "Parse a URL string into components"@,
    {
        "Parse a URL string into components"
    }

    fn execute(&self, args: &[Value]) -> (r: Result<Value, Error>)
        ensures
            outcome(r) == (if args@.len() == 0 { bad_args("parse-url"@, "Expected 1 argument (URL string)"@) } else {
                match str_of(args@[0].model()) {
                    Err(e) => Err(e),
                    Ok(s) => match url_parsing(s) {
                        Ok(p) => yields(Val::Obj(url_object(p))),
                        Err(m) => Err(ErrV::ToolExecutionError { tool: "parse-url"@, reason: "Failed to parse URL: "@ + m }),
                    },
                }
            }),
    {
        if args.len() == 0 {
            return Err(invalid_args("parse-url", "Expected 1 argument (URL string)"));
        }
        let url_str = args[0].as_string()?;
        let url = match url_parse(url_str) {
            Ok(u) => u,
            Err(m) => {
                return Err(Error::ToolExecutionError { tool: owned("parse-url"), reason: concat("Failed to parse URL: ", m.as_str()) });
            },
        };
        let ghost p = url@;
        let mut result = ObjectMap::new();
        result.insert(owned("scheme"), Value::String(url.scheme));
        result.insert(owned("host"), opt_string_value(url.host));
        let port = match url.port {
            Some(n) => Value::Int(n as i64),
            None => Value::Null,
        };
        result.insert(owned("port"), port);
        result.insert(owned("path"), Value::String(url.path));
        result.insert(owned("query"), opt_string_value(url.query));
        result.insert(owned("fragment"), opt_string_value(url.fragment));
        Ok(Value::object(result))
    }
}



/// Parse a string to an integer
pub struct ParseIntTool;

impl Tool for ParseIntTool {
    open spec fn names_itself(&self) -> bool {
        true
    }

    open spec fn spec_name(&self) -> Seq<char> {
        "parse-int"@
    }

    open spec fn admits(&self, args: Seq<Val>) -> bool {
        radix_admitted(args)
    }

    fn name(&self) -> &str {
        "parse-int"
    }

    fn description(&self) -> (r: &str)
        ensures
            r@ == "Parse a string to an integer"@,
    {
        "Parse a string to an integer"
    }

    fn execute(&self, args: &[Value]) -> (r: Result<Value, Error>)
        ensures
            outcome(r) == (if args@.len() == 0 { bad_args("parse-int"@, "Expected 1 argument (string to parse)"@) } else {
                match str_of(args@[0].model()) {
                    Err(e) => Err(e),
                    Ok(s) => {
                        let base: Result<u32, ErrV> = if args@.len() > 1 {
                            match int_of(args@[1].model()) { Ok(b) => Ok(b as u32), Err(e) => Err(e) }
                        } else {
                            Ok(10u32)
                        };
                        match base {
                            Err(e) => Err(e),
                            Ok(b) => match radix_parsing(s, b) {
                                Ok(n) => yields(Val::Int(n)),
                                Err(m) => Err(ErrV::ToolExecutionError { tool: "parse-int"@, reason: "Failed to parse integer: "@ + m }),
                            },
                        }
                    },
                }
            }),
    {
        if args.len() == 0 {
            return Err(invalid_args("parse-int", "Expected 1 argument (string to parse)"));
        }
        let s = args[0].as_string()?;
        let base: u32 = if args.len() > 1 { args[1].as_int()? as u32 } else { 10 };
        match parse_radix(s, base) {
            Ok(n) => Ok(Value::Int(n)),
            Err(m) => Err(Error::ToolExecutionError { tool: owned("parse-int"), reason: concat("Failed to parse integer: ", m.as_str()) }),
        }
    }
}



/// Parse a CSV string into an array of objects
pub struct ParseCsvTool;

impl Tool for ParseCsvTool {
    open spec fn names_itself(&self) -> bool {
        true
    }

    open spec fn spec_name(&self) -> Seq<char> {
        "parse-csv"@
    }

    open spec fn admits(&self, args: Seq<Val>) -> bool {
        true
    }

    fn name(&self) -> &str {
        "parse-csv"
    }

    fn description(&self) -> (r: &str)
        ensures
            r@ == "Parse a CSV string into an array of objects"@,
    {
        "Parse a CSV string into an array of objects"
    }

    fn execute(&self, args: &[Value]) -> (r: Result<Value, Error>)
        ensures
            outcome(r) == (if args@.len() == 0 { bad_args("parse-csv"@, "Expected 1 argument (CSV string)"@) } else {
                match str_of(args@[0].model()) {
                    Err(e) => Err(e),
                    Ok(s) => match csv_reading(s, csv_delimiter(models(args@)) as u8) {
                        Ok((h, rs)) => yields(Val::Arr(Seq::new(rs.len(), |i: int| Val::Obj(record_object(h, rs[i]))))),
                        Err(CsvFailureModel::Headers(m)) => Err(ErrV::ToolExecutionError { tool: "parse-csv"@, reason: "Failed to read CSV headers: "@ + m }),
                        Err(CsvFailureModel::Record(m)) => Err(ErrV::ToolExecutionError { tool: "parse-csv"@, reason: "Failed to read CSV record: "@ + m }),
                    },
                }
            }),
    {
        if args.len() == 0 {
            return Err(invalid_args("parse-csv", "Expected 1 argument (CSV string)"));
        }
        let csv_str = args[0].as_string()?;
        let delimiter: char = if args.len() > 1 {
            match &args[1] {
                Value::String(d) => if d.as_str().unicode_len() > 0 { d.as_str().get_char(0) } else { ',' },
                _ => ',',
            }
        } else {
            ','
        };
        assert(delimiter == csv_delimiter(models(args@)));
        let (headers, records) = match csv_read(csv_str, delimiter as u8) {
            Ok(t) => t,
            Err(CsvFailure::Headers(m)) => {
                return Err(Error::ToolExecutionError { tool: owned("parse-csv"), reason: concat("Failed to read CSV headers: ", m.as_str()) });
            },
            Err(CsvFailure::Record(m)) => {
                return Err(Error::ToolExecutionError { tool: owned("parse-csv"), reason: concat("Failed to read CSV record: ", m.as_str()) });
            },
        };
        let ghost h = string_views(headers@);
        let ghost rs = Seq::new(records@.len(), |i: int| string_views(records@[i]@));
        let mut result: Vec<Value> = Vec::new();
        let mut i: usize = 0;
        while i < records.len()
            invariant
                i <= records@.len(),
                h == string_views(headers@),
                rs == Seq::new(records@.len(), |i: int| string_views(records@[i]@)),
                result@.len() == i,
                forall|j: int| 0 <= j < i ==> #[trigger] result@[j].model() == Val::Obj(record_object(h, rs[j])),
            decreases records.len() - i,
        {
            let obj = record_object_exec(&headers, &records[i]);
            result.push(Value::Object(obj));
            i = i + 1;
        }
        assert(models(result@) =~= Seq::new(rs.len(), |i: int| Val::Obj(record_object(h, rs[i]))));
        Ok(Value::Array(result))
    }
}


} // verus!
