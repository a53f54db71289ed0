//! Stream operations for Solisp
//!
//! Simplified stream implementation for Solisp. Unlike full Common Lisp streams,
//! OVSM streams are lightweight wrappers around strings and data structures.
use vstd::prelude::*;

#[allow(unused_imports)]
use crate::access::{copy_range, copy_slice, copy_values, values_equal};
#[allow(unused_imports)]
use crate::error::{empty_collection, exec_error, invalid_args, ErrV, Error};
#[allow(unused_imports)]
use crate::text::{alphabetic, alphanumeric, char_from_u32, char_is_alphabetic, char_is_alphanumeric, char_is_lowercase, char_is_uppercase, char_is_whitespace, char_string, char_to_lowercase, char_to_uppercase, chars_of, chars_skip, concat, i64_to_string, int_decimal, lower_case, lower_chars, lowercase, owned, scalar_value, seq_less, str_equal, str_less, string_from_chars, to_lower, to_upper, upper_case, upper_chars, uppercase, whitespace};
#[allow(unused_imports)]
use crate::tools::{bad_args, name_insert, outcome, ref_outcome, string_views, yields, Tool, ToolRegistry};
#[allow(unused_imports)]
use crate::value::{and_then, elems, entry_models, int_of, models, obj_insert, obj_keys, obj_lookup, obj_merge, obj_of, obj_values, str_of, truthy, type_error, ObjectMap, Val, Value};

verus! {

broadcast use crate::seq_models::group_value_models;

/// The names after registering this module's tools, in order.
pub open spec fn registered_names(ns: Seq<Seq<char>>) -> Seq<Seq<char>> {
    let ns = name_insert(ns, "MAKE-STRING-INPUT-STREAM"@);
    let ns = name_insert(ns, "MAKE-STRING-OUTPUT-STREAM"@);
    let ns = name_insert(ns, "GET-OUTPUT-STREAM-STRING"@);
    let ns = name_insert(ns, "STREAM-ELEMENT-TYPE"@);
    let ns = name_insert(ns, "INPUT-STREAM-P"@);
    let ns = name_insert(ns, "OUTPUT-STREAM-P"@);
    let ns = name_insert(ns, "INTERACTIVE-STREAM-P"@);
    let ns = name_insert(ns, "OPEN-STREAM-P"@);
    let ns = name_insert(ns, "LISTEN"@);
    let ns = name_insert(ns, "CLEAR-INPUT"@);
    let ns = name_insert(ns, "FINISH-OUTPUT"@);
    let ns = name_insert(ns, "FORCE-OUTPUT"@);
    let ns = name_insert(ns, "CLEAR-OUTPUT"@);
    let ns = name_insert(ns, "READ-BYTE"@);
    let ns = name_insert(ns, "WRITE-BYTE"@);
    let ns = name_insert(ns, "READ-SEQUENCE"@);
    let ns = name_insert(ns, "WRITE-SEQUENCE"@);
    let ns = name_insert(ns, "WITH-OPEN-STREAM"@);
    let ns = name_insert(ns, "STREAM-EXTERNAL-FORMAT"@);
    let ns = name_insert(ns, "STREAMP"@);
    let ns = name_insert(ns, "STREAM-ERROR-STREAM"@);
    let ns = name_insert(ns, "PEEK-CHAR"@);
    let ns = name_insert(ns, "UNREAD-CHAR"@);
    let ns = name_insert(ns, "READ-CHAR-NO-HANG"@);
    let ns = name_insert(ns, "STREAM-LINE-COLUMN"@);
    ns
}

/// Register the tools of this module.
pub fn register(registry: &mut ToolRegistry)
    ensures
        final(registry).names() == registered_names(old(registry).names()),
{
    registry.register(MakeStringInputStreamTool);
    registry.register(MakeStringOutputStreamTool);
    registry.register(GetOutputStreamStringTool);
    registry.register(StreamElementTypeTool);
    registry.register(InputStreamPTool);
    registry.register(OutputStreamPTool);
    registry.register(InteractiveStreamPTool);
    registry.register(OpenStreamPTool);
    registry.register(ListenTool);
    registry.register(ClearInputTool);
    registry.register(FinishOutputTool);
    registry.register(ForceOutputTool);
    registry.register(ClearOutputTool);
    registry.register(ReadByteTool);
    registry.register(WriteByteTool);
    registry.register(ReadSequenceTool);
    registry.register(WriteSequenceTool);
    registry.register(WithOpenStreamTool);
    registry.register(StreamExternalFormatTool);
    registry.register(StreampTool);
    registry.register(StreamErrorStreamTool);
    registry.register(PeekCharTool);
    registry.register(UnreadCharTool);
    registry.register(ReadCharNoHangTool);
    registry.register(StreamLineColumnTool);
}

/// MAKE-STRING-INPUT-STREAM - Create input stream from string
pub struct MakeStringInputStreamTool;

impl Tool for MakeStringInputStreamTool {
    open spec fn names_itself(&self) -> bool {
        true
    }

    open spec fn spec_name(&self) -> Seq<char> {
        "MAKE-STRING-INPUT-STREAM"@
    }

    open spec fn admits(&self, args: Seq<Val>) -> bool {
        true
    }

    fn name(&self) -> &str {
        "MAKE-STRING-INPUT-STREAM"
    }

    fn description(&self) -> (r: &str)
        ensures
            r@ == "Create input stream from string"@,
    {
        "Create input stream from string"
    }

    fn execute(&self, args: &[Value]) -> (r: Result<Value, Error>)
        ensures
            outcome(r) == (if args@.len() == 0 { bad_args("MAKE-STRING-INPUT-STREAM"@, "Expected string argument"@) } else { yields(args@[0].model()) }),
    {
        if args.len() == 0 {
            return Err(invalid_args("MAKE-STRING-INPUT-STREAM", "Expected string argument"));
        }
        Ok(args[0].clone())
    }
}

/// GET-OUTPUT-STREAM-STRING - Get string from output stream
pub struct GetOutputStreamStringTool;

impl Tool for GetOutputStreamStringTool {
    open spec fn names_itself(&self) -> bool {
        true
    }

    open spec fn spec_name(&self) -> Seq<char> {
        "GET-OUTPUT-STREAM-STRING"@
    }

    open spec fn admits(&self, args: Seq<Val>) -> bool {
        true
    }

    fn name(&self) -> &str {
        "GET-OUTPUT-STREAM-STRING"
    }

    fn description(&self) -> (r: &str)
        ensures
            r@ == "Get string from output stream"@,
    {
        "Get string from output stream"
    }

    fn execute(&self, args: &[Value]) -> (r: Result<Value, Error>)
        ensures
            outcome(r) == (if args@.len() == 0 { bad_args("GET-OUTPUT-STREAM-STRING"@, "Expected stream argument"@) } else { yields(args@[0].model()) }),
    {
        if args.len() == 0 {
            return Err(invalid_args("GET-OUTPUT-STREAM-STRING", "Expected stream argument"));
        }
        Ok(args[0].clone())
    }
}

/// STREAM-ELEMENT-TYPE - Get element type (always :default)
pub struct StreamElementTypeTool;

impl Tool for StreamElementTypeTool {
    open spec fn names_itself(&self) -> bool {
        true
    }

    open spec fn spec_name(&self) -> Seq<char> {
        "STREAM-ELEMENT-TYPE"@
    }

    open spec fn admits(&self, args: Seq<Val>) -> bool {
        true
    }

    fn name(&self) -> &str {
        "STREAM-ELEMENT-TYPE"
    }

    fn description(&self) -> (r: &str)
        ensures
            r@ == "Get stream element type"@,
    {
        "Get stream element type"
    }

    fn execute(&self, args: &[Value]) -> (r: Result<Value, Error>)
        ensures
            outcome(r) == (yields(Val::Str("CHARACTER"@))),
    {
        Ok(Value::String(owned("CHARACTER")))
    }
}

/// INTERACTIVE-STREAM-P - Check if interactive
pub struct InteractiveStreamPTool;

impl Tool for InteractiveStreamPTool {
    open spec fn names_itself(&self) -> bool {
        true
    }

    open spec fn spec_name(&self) -> Seq<char> {
        "INTERACTIVE-STREAM-P"@
    }

    open spec fn admits(&self, args: Seq<Val>) -> bool {
        true
    }

    fn name(&self) -> &str {
        "INTERACTIVE-STREAM-P"
    }

    fn description(&self) -> (r: &str)
        ensures
            r@ == "Check if stream is interactive"@,
    {
        "Check if stream is interactive"
    }

    fn execute(&self, args: &[Value]) -> (r: Result<Value, Error>)
        ensures
            outcome(r) == (yields(Val::Bool(false))),
    {
        Ok(Value::Bool(false))
    }
}

/// READ-SEQUENCE - Read sequence of bytes/chars
pub struct ReadSequenceTool;

impl Tool for ReadSequenceTool {
    open spec fn names_itself(&self) -> bool {
        true
    }

    open spec fn spec_name(&self) -> Seq<char> {
        "READ-SEQUENCE"@
    }

    open spec fn admits(&self, args: Seq<Val>) -> bool {
        true
    }

    fn name(&self) -> &str {
        "READ-SEQUENCE"
    }

    fn description(&self) -> (r: &str)
        ensures
            r@ == "Read sequence from stream"@,
    {
        "Read sequence from stream"
    }

    fn execute(&self, args: &[Value]) -> (r: Result<Value, Error>)
        ensures
            outcome(r) == (if args@.len() == 0 { bad_args("READ-SEQUENCE"@, "Expected stream argument"@) } else { yields(args@[0].model()) }),
    {
        if args.len() == 0 {
            return Err(invalid_args("READ-SEQUENCE", "Expected stream argument"));
        }
        Ok(args[0].clone())
    }
}

/// WITH-OPEN-STREAM - Execute with auto-close
pub struct WithOpenStreamTool;

impl Tool for WithOpenStreamTool {
    open spec fn names_itself(&self) -> bool {
        true
    }

    open spec fn spec_name(&self) -> Seq<char> {
        "WITH-OPEN-STREAM"@
    }

    open spec fn admits(&self, args: Seq<Val>) -> bool {
        true
    }

    fn name(&self) -> &str {
        "WITH-OPEN-STREAM"
    }

    fn description(&self) -> (r: &str)
        ensures
            r@ == "Execute with stream, auto-close"@,
    {
        "Execute with stream, auto-close"
    }

    fn execute(&self, args: &[Value]) -> (r: Result<Value, Error>)
        ensures
            outcome(r) == (if args@.len() == 0 { bad_args("WITH-OPEN-STREAM"@, "Expected stream and body arguments"@) } else { yields(Val::Arr(seq![args@[0].model()])) }),
    {
        if args.len() == 0 {
            return Err(invalid_args("WITH-OPEN-STREAM", "Expected stream and body arguments"));
        }
        Ok({
            let items = vec![args[0].clone()];
            assert(models(items@) =~= seq![args@[0].model()]);
            Value::Array(items)
        })
    }
}

/// STREAM-EXTERNAL-FORMAT - Get encoding
pub struct StreamExternalFormatTool;

impl Tool for StreamExternalFormatTool {
    open spec fn names_itself(&self) -> bool {
        true
    }

    open spec fn spec_name(&self) -> Seq<char> {
        "STREAM-EXTERNAL-FORMAT"@
    }

    open spec fn admits(&self, args: Seq<Val>) -> bool {
        true
    }

    fn name(&self) -> &str {
        "STREAM-EXTERNAL-FORMAT"
    }

    fn description(&self) -> (r: &str)
        ensures
            r@ == "Get stream encoding"@,
    {
        "Get stream encoding"
    }

    fn execute(&self, args: &[Value]) -> (r: Result<Value, Error>)
        ensures
            outcome(r) == (yields(Val::Str("UTF-8"@))),
    {
        Ok(Value::String(owned("UTF-8")))
    }
}

/// STREAM-LINE-COLUMN - Get current column number
pub struct StreamLineColumnTool;

impl Tool for StreamLineColumnTool {
    open spec fn names_itself(&self) -> bool {
        true
    }

    open spec fn spec_name(&self) -> Seq<char> {
        "STREAM-LINE-COLUMN"@
    }

    open spec fn admits(&self, args: Seq<Val>) -> bool {
        true
    }

    fn name(&self) -> &str {
        "STREAM-LINE-COLUMN"
    }

    fn description(&self) -> (r: &str)
        ensures
            r@ == "Get current column number in stream"@,
    {
        "Get current column number in stream"
    }

    fn execute(&self, args: &[Value]) -> (r: Result<Value, Error>)
        ensures
            outcome(r) == (yields(Val::Int(0))),
    {
        Ok(Value::Int(0))
    }
}

/// The first byte of the UTF-8 encoding of `c`.
pub open spec fn utf8_first_byte(c: char) -> int {
    let u = c as u32;
    if u < 0x80 {
        u as int
    } else if u < 0x800 {
        (0xC0 | (u >> 6)) as int
    } else if u < 0x10000 {
        (0xE0 | (u >> 12)) as int
    } else {
        (0xF0 | (u >> 18)) as int
    }
}

fn utf8_first_byte_exec(c: char) -> (b: i64)
    ensures
        b as int == utf8_first_byte(c),
{
    let u = c as u32;
    let r: u32 = if u < 0x80 {
        u
    } else if u < 0x800 {
        0xC0 | (u >> 6)
    } else if u < 0x10000 {
        0xE0 | (u >> 12)
    } else {
        0xF0 | (u >> 18)
    };
    r as i64
}

/// The first character of a string first argument, as a string, or null.
pub open spec fn peeked(a: Seq<Val>) -> Val {
    if a.len() > 0 && a[0] is Str && a[0]->Str_0.len() > 0 {
        Val::Str(seq![a[0]->Str_0[0]])
    } else {
        Val::Null
    }
}

fn peeked_exec(args: &[Value]) -> (r: Value)
    ensures
        r.model() == peeked(models(args@)),
{
    if args.len() > 0 {
        match &args[0] {
            Value::String(s) => {
                if s.as_str().unicode_len() > 0 {
                    return Value::String(char_string(s.as_str().get_char(0)));
                }
            },
            _ => {},
        }
    }
    Value::Null
}

/// Whether the first argument is a string.
pub open spec fn first_is_string(a: Seq<Val>) -> bool {
    a.len() > 0 && a[0] is Str
}

/// MAKE-STRING-OUTPUT-STREAM - Create output stream
pub struct MakeStringOutputStreamTool;

impl Tool for MakeStringOutputStreamTool {
    open spec fn names_itself(&self) -> bool {
        true
    }

    open spec fn spec_name(&self) -> Seq<char> {
        "MAKE-STRING-OUTPUT-STREAM"@
    }

    open spec fn admits(&self, args: Seq<Val>) -> bool {
        true
    }

    fn name(&self) -> &str {
        "MAKE-STRING-OUTPUT-STREAM"
    }

    fn description(&self) -> (r: &str)
        ensures
            r@ == "Create output stream (returns empty string)"@,
    {
        "Create output stream (returns empty string)"
    }

    fn execute(&self, args: &[Value]) -> (r: Result<Value, Error>)
        ensures
            outcome(r) == (yields(Val::Str(Seq::empty()))),
    {
        Ok(Value::String(String::new()))
    }
}



/// CLEAR-INPUT - Clear input buffer
pub struct ClearInputTool;

impl Tool for ClearInputTool {
    open spec fn names_itself(&self) -> bool {
        true
    }

    open spec fn spec_name(&self) -> Seq<char> {
        "CLEAR-INPUT"@
    }

    open spec fn admits(&self, args: Seq<Val>) -> bool {
        true
    }

    fn name(&self) -> &str {
        "CLEAR-INPUT"
    }

    fn description(&self) -> (r: &str)
        ensures
            r@ == "Clear input buffer (returns empty string)"@,
    {
        "Clear input buffer (returns empty string)"
    }

    fn execute(&self, args: &[Value]) -> (r: Result<Value, Error>)
        ensures
            outcome(r) == (yields(Val::Str(Seq::empty()))),
    {
        Ok(Value::String(String::new()))
    }
}



/// CLEAR-OUTPUT - Clear output buffer
pub struct ClearOutputTool;

impl Tool for ClearOutputTool {
    open spec fn names_itself(&self) -> bool {
        true
    }

    open spec fn spec_name(&self) -> Seq<char> {
        "CLEAR-OUTPUT"@
    }

    open spec fn admits(&self, args: Seq<Val>) -> bool {
        true
    }

    fn name(&self) -> &str {
        "CLEAR-OUTPUT"
    }

    fn description(&self) -> (r: &str)
        ensures
            r@ == "Clear output buffer"@,
    {
        "Clear output buffer"
    }

    fn execute(&self, args: &[Value]) -> (r: Result<Value, Error>)
        ensures
            outcome(r) == (yields(Val::Str(Seq::empty()))),
    {
        Ok(Value::String(String::new()))
    }
}



/// INPUT-STREAM-P - Check if input stream
pub struct InputStreamPTool;

impl Tool for InputStreamPTool {
    open spec fn names_itself(&self) -> bool {
        true
    }

    open spec fn spec_name(&self) -> Seq<char> {
        "INPUT-STREAM-P"@
    }

    open spec fn admits(&self, args: Seq<Val>) -> bool {
        true
    }

    fn name(&self) -> &str {
        "INPUT-STREAM-P"
    }

    fn description(&self) -> (r: &str)
        ensures
            r@ == "Check if value is input stream"@,
    {
        "Check if value is input stream"
    }

    fn execute(&self, args: &[Value]) -> (r: Result<Value, Error>)
        ensures
            outcome(r) == (yields(Val::Bool(first_is_string(models(args@))))),
    {
        Ok(Value::Bool(args.len() > 0 && matches!(args[0], Value::String(_))))
    }
}



/// OUTPUT-STREAM-P - Check if output stream
pub struct OutputStreamPTool;

impl Tool for OutputStreamPTool {
    open spec fn names_itself(&self) -> bool {
        true
    }

    open spec fn spec_name(&self) -> Seq<char> {
        "OUTPUT-STREAM-P"@
    }

    open spec fn admits(&self, args: Seq<Val>) -> bool {
        true
    }

    fn name(&self) -> &str {
        "OUTPUT-STREAM-P"
    }

    fn description(&self) -> (r: &str)
        ensures
            r@ == "Check if value is output stream"@,
    {
        "Check if value is output stream"
    }

    fn execute(&self, args: &[Value]) -> (r: Result<Value, Error>)
        ensures
            outcome(r) == (yields(Val::Bool(first_is_string(models(args@))))),
    {
        Ok(Value::Bool(args.len() > 0 && matches!(args[0], Value::String(_))))
    }
}



/// OPEN-STREAM-P - Check if stream is open
pub struct OpenStreamPTool;

impl Tool for OpenStreamPTool {
    open spec fn names_itself(&self) -> bool {
        true
    }

    open spec fn spec_name(&self) -> Seq<char> {
        "OPEN-STREAM-P"@
    }

    open spec fn admits(&self, args: Seq<Val>) -> bool {
        true
    }

    fn name(&self) -> &str {
        "OPEN-STREAM-P"
    }

    fn description(&self) -> (r: &str)
        ensures
            r@ == "Check if stream is open"@,
    {
        "Check if stream is open"
    }

    fn execute(&self, args: &[Value]) -> (r: Result<Value, Error>)
        ensures
            outcome(r) == (yields(Val::Bool(first_is_string(models(args@))))),
    {
        Ok(Value::Bool(args.len() > 0 && matches!(args[0], Value::String(_))))
    }
}



/// STREAMP - Check if value is a stream
pub struct StreampTool;

impl Tool for StreampTool {
    open spec fn names_itself(&self) -> bool {
        true
    }

    open spec fn spec_name(&self) -> Seq<char> {
        "STREAMP"@
    }

    open spec fn admits(&self, args: Seq<Val>) -> bool {
        true
    }

    fn name(&self) -> &str {
        "STREAMP"
    }

    fn description(&self) -> (r: &str)
        ensures
            r@ == "Check if value is a stream"@,
    {
        "Check if value is a stream"
    }

    fn execute(&self, args: &[Value]) -> (r: Result<Value, Error>)
        ensures
            outcome(r) == (yields(Val::Bool(first_is_string(models(args@))))),
    {
        Ok(Value::Bool(args.len() > 0 && matches!(args[0], Value::String(_))))
    }
}



/// LISTEN - Check if input available
pub struct ListenTool;

impl Tool for ListenTool {
    open spec fn names_itself(&self) -> bool {
        true
    }

    open spec fn spec_name(&self) -> Seq<char> {
        "LISTEN"@
    }

    open spec fn admits(&self, args: Seq<Val>) -> bool {
        true
    }

    fn name(&self) -> &str {
        "LISTEN"
    }

    fn description(&self) -> (r: &str)
        ensures
            r@ == "Check if input is available on stream"@,
    {
        "Check if input is available on stream"
    }

    fn execute(&self, args: &[Value]) -> (r: Result<Value, Error>)
        ensures
            outcome(r) == (yields(Val::Bool(first_is_string(models(args@)) && models(args@)[0]->Str_0.len() > 0))),
    {
        if args.len() == 0 {
            return Ok(Value::Bool(false));
        }
        match &args[0] {
            Value::String(s) => Ok(Value::Bool(s.as_str().unicode_len() > 0)),
            _ => Ok(Value::Bool(false)),
        }
    }
}



/// FINISH-OUTPUT - Ensure output flushed
pub struct FinishOutputTool;

impl Tool for FinishOutputTool {
    open spec fn names_itself(&self) -> bool {
        true
    }

    open spec fn spec_name(&self) -> Seq<char> {
        "FINISH-OUTPUT"@
    }

    open spec fn admits(&self, args: Seq<Val>) -> bool {
        true
    }

    fn name(&self) -> &str {
        "FINISH-OUTPUT"
    }

    fn description(&self) -> (r: &str)
        ensures
            r@ == "Ensure output is flushed"@,
    {
        "Ensure output is flushed"
    }

    fn execute(&self, args: &[Value]) -> (r: Result<Value, Error>)
        ensures
            outcome(r) == (yields(if args@.len() == 0 { Val::Null } else { models(args@)[0] })),
    {
        if args.len() == 0 {
            Ok(Value::Null)
        } else {
            Ok(args[0].deep_copy())
        }
    }
}



/// FORCE-OUTPUT - Force output flush
pub struct ForceOutputTool;

impl Tool for ForceOutputTool {
    open spec fn names_itself(&self) -> bool {
        true
    }

    open spec fn spec_name(&self) -> Seq<char> {
        "FORCE-OUTPUT"@
    }

    open spec fn admits(&self, args: Seq<Val>) -> bool {
        true
    }

    fn name(&self) -> &str {
        "FORCE-OUTPUT"
    }

    fn description(&self) -> (r: &str)
        ensures
            r@ == "Force output flush"@,
    {
        "Force output flush"
    }

    fn execute(&self, args: &[Value]) -> (r: Result<Value, Error>)
        ensures
            outcome(r) == (yields(if args@.len() == 0 { Val::Null } else { models(args@)[0] })),
    {
        if args.len() == 0 {
            Ok(Value::Null)
        } else {
            Ok(args[0].deep_copy())
        }
    }
}



/// STREAM-ERROR-STREAM - Get stream from stream-error
pub struct StreamErrorStreamTool;

impl Tool for StreamErrorStreamTool {
    open spec fn names_itself(&self) -> bool {
        true
    }

    open spec fn spec_name(&self) -> Seq<char> {
        "STREAM-ERROR-STREAM"@
    }

    open spec fn admits(&self, args: Seq<Val>) -> bool {
        true
    }

    fn name(&self) -> &str {
        "STREAM-ERROR-STREAM"
    }

    fn description(&self) -> (r: &str)
        ensures
            r@ == "Get stream from stream error"@,
    {
        "Get stream from stream error"
    }

    fn execute(&self, args: &[Value]) -> (r: Result<Value, Error>)
        ensures
            outcome(r) == (yields(if args@.len() == 0 { Val::Null } else { models(args@)[0] })),
    {
        if args.len() == 0 {
            Ok(Value::Null)
        } else {
            Ok(args[0].deep_copy())
        }
    }
}



/// READ-BYTE - Read byte from stream
pub struct ReadByteTool;

impl Tool for ReadByteTool {
    open spec fn names_itself(&self) -> bool {
        true
    }

    open spec fn spec_name(&self) -> Seq<char> {
        "READ-BYTE"@
    }

    open spec fn admits(&self, args: Seq<Val>) -> bool {
        true
    }

    fn name(&self) -> &str {
        "READ-BYTE"
    }

    fn description(&self) -> (r: &str)
        ensures
            r@ == "Read byte from stream (returns first byte)"@,
    {
        "Read byte from stream (returns first byte)"
    }

    fn execute(&self, args: &[Value]) -> (r: Result<Value, Error>)
        ensures
            outcome(r) == (if args@.len() == 0 { bad_args("READ-BYTE"@, "Expected stream argument"@) } else {
                match models(args@)[0] {
                    Val::Str(s) => if s.len() > 0 {
                        yields(Val::Int(utf8_first_byte(s[0]) as i64))
                    } else {
                        bad_args("READ-BYTE"@, "End of stream"@)
                    },
                    _ => bad_args("READ-BYTE"@, "Expected stream (string)"@),
                }
            }),
    {
        if args.len() == 0 {
            return Err(invalid_args("READ-BYTE", "Expected stream argument"));
        }
        match &args[0] {
            Value::String(s) => {
                if s.as_str().unicode_len() > 0 {
                    Ok(Value::Int(utf8_first_byte_exec(s.as_str().get_char(0))))
                } else {
                    Err(invalid_args("READ-BYTE", "End of stream"))
                }
            },
            _ => Err(invalid_args("READ-BYTE", "Expected stream (string)")),
        }
    }
}



/// WRITE-BYTE - Write byte to stream
pub struct WriteByteTool;

impl Tool for WriteByteTool {
    open spec fn names_itself(&self) -> bool {
        true
    }

    open spec fn spec_name(&self) -> Seq<char> {
        "WRITE-BYTE"@
    }

    open spec fn admits(&self, args: Seq<Val>) -> bool {
        true
    }

    fn name(&self) -> &str {
        "WRITE-BYTE"
    }

    fn description(&self) -> (r: &str)
        ensures
            r@ == "Write byte to stream"@,
    {
        "Write byte to stream"
    }

    fn execute(&self, args: &[Value]) -> (r: Result<Value, Error>)
        ensures
            outcome(r) == (if args@.len() < 2 { bad_args("WRITE-BYTE"@, "Expected byte and stream arguments"@) } else {
                match int_of(models(args@)[0]) {
                    Err(e) => Err(e),
                    Ok(n) => match str_of(models(args@)[1]) {
                        Err(e) => Err(e),
                        Ok(s) => yields(Val::Str(s.push(((n as u8) as u32) as char))),
                    },
                }
            }),
    {
        if args.len() < 2 {
            return Err(invalid_args("WRITE-BYTE", "Expected byte and stream arguments"));
        }
        let byte = args[0].as_int()? as u8;
        let stream = args[1].as_string()?;
        let c = match char_from_u32(byte as u32) {
            Some(c) => c,
            None => {
                assert(false);
                ' '
            },
        };
        assert(stream@ + seq![c] =~= stream@.push(c));
        Ok(Value::String(concat(stream, char_string(c).as_str())))
    }
}



/// WRITE-SEQUENCE - Write sequence to stream
pub struct WriteSequenceTool;

impl Tool for WriteSequenceTool {
    open spec fn names_itself(&self) -> bool {
        true
    }

    open spec fn spec_name(&self) -> Seq<char> {
        "WRITE-SEQUENCE"@
    }

    open spec fn admits(&self, args: Seq<Val>) -> bool {
        true
    }

    fn name(&self) -> &str {
        "WRITE-SEQUENCE"
    }

    fn description(&self) -> (r: &str)
        ensures
            r@ == "Write sequence to stream"@,
    {
        "Write sequence to stream"
    }

    fn execute(&self, args: &[Value]) -> (r: Result<Value, Error>)
        ensures
            outcome(r) == (if args@.len() < 2 { bad_args("WRITE-SEQUENCE"@, "Expected sequence and stream arguments"@) } else {
                match str_of(models(args@)[0]) {
                    Err(e) => Err(e),
                    Ok(seq) => match str_of(models(args@)[1]) {
                        Err(e) => Err(e),
                        Ok(stream) => yields(Val::Str(stream + seq)),
                    },
                }
            }),
    {
        if args.len() < 2 {
            return Err(invalid_args("WRITE-SEQUENCE", "Expected sequence and stream arguments"));
        }
        let sequence = args[0].as_string()?;
        let stream = args[1].as_string()?;
        Ok(Value::String(concat(stream, sequence)))
    }
}



/// UNREAD-CHAR - Push character back to stream
pub struct UnreadCharTool;

impl Tool for UnreadCharTool {
    open spec fn names_itself(&self) -> bool {
        true
    }

    open spec fn spec_name(&self) -> Seq<char> {
        "UNREAD-CHAR"@
    }

    open spec fn admits(&self, args: Seq<Val>) -> bool {
        true
    }

    fn name(&self) -> &str {
        "UNREAD-CHAR"
    }

    fn description(&self) -> (r: &str)
        ensures
            r@ == "Push character back to stream"@,
    {
        "Push character back to stream"
    }

    fn execute(&self, args: &[Value]) -> (r: Result<Value, Error>)
        ensures
            outcome(r) == (if args@.len() < 2 { bad_args("UNREAD-CHAR"@, "Expected character and stream arguments"@) } else {
                match str_of(models(args@)[0]) {
                    Err(e) => Err(e),
                    Ok(ch) => match str_of(models(args@)[1]) {
                        Err(e) => Err(e),
                        Ok(stream) => yields(Val::Str(ch + stream)),
                    },
                }
            }),
    {
        if args.len() < 2 {
            return Err(invalid_args("UNREAD-CHAR", "Expected character and stream arguments"));
        }
        let ch = args[0].as_string()?;
        let stream = args[1].as_string()?;
        Ok(Value::String(concat(ch, stream)))
    }
}



/// PEEK-CHAR - Peek at next character without consuming
pub struct PeekCharTool;

impl Tool for PeekCharTool {
    open spec fn names_itself(&self) -> bool {
        true
    }

    open spec fn spec_name(&self) -> Seq<char> {
        "PEEK-CHAR"@
    }

    open spec fn admits(&self, args: Seq<Val>) -> bool {
        true
    }

    fn name(&self) -> &str {
        "PEEK-CHAR"
    }

    fn description(&self) -> (r: &str)
        ensures
            r@ == "Peek at next character in stream"@,
    {
        "Peek at next character in stream"
    }

    fn execute(&self, args: &[Value]) -> (r: Result<Value, Error>)
        ensures
            outcome(r) == (if args@.len() == 0 { bad_args("PEEK-CHAR"@, "Expected stream argument"@) } else { yields(peeked(models(args@))) }),
    {
        if args.len() == 0 {
            return Err(invalid_args("PEEK-CHAR", "Expected stream argument"));
        }
        Ok(peeked_exec(args))
    }
}



/// READ-CHAR-NO-HANG - Non-blocking character read
pub struct ReadCharNoHangTool;

impl Tool for ReadCharNoHangTool {
    open spec fn names_itself(&self) -> bool {
        true
    }

    open spec fn spec_name(&self) -> Seq<char> {
        "READ-CHAR-NO-HANG"@
    }

    open spec fn admits(&self, args: Seq<Val>) -> bool {
        true
    }

    fn name(&self) -> &str {
        "READ-CHAR-NO-HANG"
    }

    fn description(&self) -> (r: &str)
        ensures
            r@ == "Non-blocking character read"@,
    {
        "Non-blocking character read"
    }

    fn execute(&self, args: &[Value]) -> (r: Result<Value, Error>)
        ensures
            outcome(r) == (yields(peeked(models(args@)))),
    {
        Ok(peeked_exec(args))
    }
}


} // verus!
