//! Extended I/O functions for OVSM
//!
//! Binary I/O, file positioning, and stream properties.
//! Provides Common Lisp-style advanced I/O capabilities.
use vstd::prelude::*;

#[allow(unused_imports)]
use crate::access::{copy_range, copy_slice, copy_values, values_equal};
#[allow(unused_imports)]
use crate::error::{empty_collection, exec_error, invalid_args, ErrV, Error};
#[allow(unused_imports)]
use crate::text::{alphabetic, alphanumeric, char_from_u32, char_is_alphabetic, char_is_alphanumeric, char_is_lowercase, char_is_uppercase, char_is_whitespace, char_string, char_to_lowercase, char_to_uppercase, chars_of, chars_skip, concat, i64_to_string, int_decimal, lower_case, lower_chars, lowercase, owned, scalar_value, seq_less, str_equal, str_less, string_from_chars, to_lower, to_upper, upper_case, upper_chars, uppercase, whitespace};
#[allow(unused_imports)]
use crate::tools::{bad_args, name_insert, outcome, ref_outcome, string_views, yields, Tool, ToolRegistry};
#[allow(unused_imports)]
use crate::value::{and_then, elems, entry_models, int_of, models, obj_insert, obj_keys, obj_lookup, obj_merge, obj_of, obj_values, str_of, truthy, type_error, ObjectMap, Val, Value};

verus! {

broadcast use crate::seq_models::group_value_models;

/// The names after registering this module's tools, in order.
pub open spec fn registered_names(ns: Seq<Seq<char>>) -> Seq<Seq<char>> {
    let ns = name_insert(ns, "READ-BYTE"@);
    let ns = name_insert(ns, "WRITE-BYTE"@);
    let ns = name_insert(ns, "READ-SEQUENCE"@);
    let ns = name_insert(ns, "WRITE-SEQUENCE"@);
    let ns = name_insert(ns, "FILE-POSITION"@);
    let ns = name_insert(ns, "FILE-LENGTH"@);
    let ns = name_insert(ns, "FILE-STRING-LENGTH"@);
    let ns = name_insert(ns, "STREAM-ELEMENT-TYPE"@);
    let ns = name_insert(ns, "INPUT-STREAM-P"@);
    let ns = name_insert(ns, "OUTPUT-STREAM-P"@);
    let ns = name_insert(ns, "INTERACTIVE-STREAM-P"@);
    let ns = name_insert(ns, "OPEN-STREAM-P"@);
    ns
}

/// Register the tools of this module.
pub fn register(registry: &mut ToolRegistry)
    ensures
        final(registry).names() == registered_names(old(registry).names()),
{
    registry.register(ReadByteTool);
    registry.register(WriteByteTool);
    registry.register(ReadSequenceTool);
    registry.register(WriteSequenceTool);
    registry.register(FilePositionTool);
    registry.register(FileLengthTool);
    registry.register(FileStringLengthTool);
    registry.register(StreamElementTypeTool);
    registry.register(InputStreamPTool);
    registry.register(OutputStreamPTool);
    registry.register(InteractiveStreamPTool);
    registry.register(OpenStreamPTool);
}

/// READ-BYTE - Read byte from stream
pub struct ReadByteTool;

impl Tool for ReadByteTool {
    open spec fn names_itself(&self) -> bool {
        true
    }

    open spec fn spec_name(&self) -> Seq<char> {
        "READ-BYTE"@
    }

    open spec fn admits(&self, args: Seq<Val>) -> bool {
        true
    }

    fn name(&self) -> &str {
        "READ-BYTE"
    }

    fn description(&self) -> (r: &str)
        ensures
            r@ == "Read single byte from binary stream"@,
    {
        "Read single byte from binary stream"
    }

    fn execute(&self, args: &[Value]) -> (r: Result<Value, Error>)
        ensures
            outcome(r) == (if args@.len() == 0 { bad_args("READ-BYTE"@, "Expected 1 argument (stream)"@) } else { yields(Val::Int(0)) }),
    {
        if args.len() == 0 {
            return Err(invalid_args("READ-BYTE", "Expected 1 argument (stream)"));
        }
        Ok(Value::Int(0))
    }
}

/// WRITE-BYTE - Write byte to stream
pub struct WriteByteTool;

impl Tool for WriteByteTool {
    open spec fn names_itself(&self) -> bool {
        true
    }

    open spec fn spec_name(&self) -> Seq<char> {
        "WRITE-BYTE"@
    }

    open spec fn admits(&self, args: Seq<Val>) -> bool {
        true
    }

    fn name(&self) -> &str {
        "WRITE-BYTE"
    }

    fn description(&self) -> (r: &str)
        ensures
            r@ == "Write single byte to binary stream"@,
    {
        "Write single byte to binary stream"
    }

    fn execute(&self, args: &[Value]) -> (r: Result<Value, Error>)
        ensures
            outcome(r) == (yields(if args@.len() == 0 { Val::Null } else { args@[0].model() })),
    {
        Ok(if args.len() == 0 { Value::Null } else { args[0].clone() })
    }
}

/// READ-SEQUENCE - Read sequence from stream
pub struct ReadSequenceTool;

impl Tool for ReadSequenceTool {
    open spec fn names_itself(&self) -> bool {
        true
    }

    open spec fn spec_name(&self) -> Seq<char> {
        "READ-SEQUENCE"@
    }

    open spec fn admits(&self, args: Seq<Val>) -> bool {
        true
    }

    fn name(&self) -> &str {
        "READ-SEQUENCE"
    }

    fn description(&self) -> (r: &str)
        ensures
            r@ == "Read sequence from stream"@,
    {
        "Read sequence from stream"
    }

    fn execute(&self, args: &[Value]) -> (r: Result<Value, Error>)
        ensures
            outcome(r) == (yields(if args@.len() == 0 { Val::Int(0) } else { Val::Int(0) })),
    {
        Ok(if args.len() == 0 { Value::Int(0) } else { Value::Int(0) })
    }
}

/// WRITE-SEQUENCE - Write sequence to stream
pub struct WriteSequenceTool;

impl Tool for WriteSequenceTool {
    open spec fn names_itself(&self) -> bool {
        true
    }

    open spec fn spec_name(&self) -> Seq<char> {
        "WRITE-SEQUENCE"@
    }

    open spec fn admits(&self, args: Seq<Val>) -> bool {
        true
    }

    fn name(&self) -> &str {
        "WRITE-SEQUENCE"
    }

    fn description(&self) -> (r: &str)
        ensures
            r@ == "Write sequence to stream"@,
    {
        "Write sequence to stream"
    }

    fn execute(&self, args: &[Value]) -> (r: Result<Value, Error>)
        ensures
            outcome(r) == (yields(if args@.len() == 0 { Val::Null } else { args@[0].model() })),
    {
        Ok(if args.len() == 0 { Value::Null } else { args[0].clone() })
    }
}

/// FILE-LENGTH - Get file length
pub struct FileLengthTool;

impl Tool for FileLengthTool {
    open spec fn names_itself(&self) -> bool {
        true
    }

    open spec fn spec_name(&self) -> Seq<char> {
        "FILE-LENGTH"@
    }

    open spec fn admits(&self, args: Seq<Val>) -> bool {
        true
    }

    fn name(&self) -> &str {
        "FILE-LENGTH"
    }

    fn description(&self) -> (r: &str)
        ensures
            r@ == "Get length of file"@,
    {
        "Get length of file"
    }

    fn execute(&self, args: &[Value]) -> (r: Result<Value, Error>)
        ensures
            outcome(r) == (if args@.len() == 0 { bad_args("FILE-LENGTH"@, "Expected 1 argument (stream)"@) } else { yields(Val::Int(0)) }),
    {
        if args.len() == 0 {
            return Err(invalid_args("FILE-LENGTH", "Expected 1 argument (stream)"));
        }
        Ok(Value::Int(0))
    }
}

/// STREAM-ELEMENT-TYPE - Get stream element type
pub struct StreamElementTypeTool;

impl Tool for StreamElementTypeTool {
    open spec fn names_itself(&self) -> bool {
        true
    }

    open spec fn spec_name(&self) -> Seq<char> {
        "STREAM-ELEMENT-TYPE"@
    }

    open spec fn admits(&self, args: Seq<Val>) -> bool {
        true
    }

    fn name(&self) -> &str {
        "STREAM-ELEMENT-TYPE"
    }

    fn description(&self) -> (r: &str)
        ensures
            r@ == "Get element type of stream"@,
    {
        "Get element type of stream"
    }

    fn execute(&self, args: &[Value]) -> (r: Result<Value, Error>)
        ensures
            outcome(r) == (if args@.len() == 0 { bad_args("STREAM-ELEMENT-TYPE"@, "Expected 1 argument (stream)"@) } else { yields(Val::Str("CHARACTER"@)) }),
    {
        if args.len() == 0 {
            return Err(invalid_args("STREAM-ELEMENT-TYPE", "Expected 1 argument (stream)"));
        }
        Ok(Value::String(owned("CHARACTER")))
    }
}

/// INPUT-STREAM-P - Check if input stream
pub struct InputStreamPTool;

impl Tool for InputStreamPTool {
    open spec fn names_itself(&self) -> bool {
        true
    }

    open spec fn spec_name(&self) -> Seq<char> {
        "INPUT-STREAM-P"@
    }

    open spec fn admits(&self, args: Seq<Val>) -> bool {
        true
    }

    fn name(&self) -> &str {
        "INPUT-STREAM-P"
    }

    fn description(&self) -> (r: &str)
        ensures
            r@ == "Check if stream is input stream"@,
    {
        "Check if stream is input stream"
    }

    fn execute(&self, args: &[Value]) -> (r: Result<Value, Error>)
        ensures
            outcome(r) == (if args@.len() == 0 { bad_args("INPUT-STREAM-P"@, "Expected 1 argument (stream)"@) } else { yields(Val::Bool(true)) }),
    {
        if args.len() == 0 {
            return Err(invalid_args("INPUT-STREAM-P", "Expected 1 argument (stream)"));
        }
        Ok(Value::Bool(true))
    }
}

/// OUTPUT-STREAM-P - Check if output stream
pub struct OutputStreamPTool;

impl Tool for OutputStreamPTool {
    open spec fn names_itself(&self) -> bool {
        true
    }

    open spec fn spec_name(&self) -> Seq<char> {
        "OUTPUT-STREAM-P"@
    }

    open spec fn admits(&self, args: Seq<Val>) -> bool {
        true
    }

    fn name(&self) -> &str {
        "OUTPUT-STREAM-P"
    }

    fn description(&self) -> (r: &str)
        ensures
            r@ == "Check if stream is output stream"@,
    {
        "Check if stream is output stream"
    }

    fn execute(&self, args: &[Value]) -> (r: Result<Value, Error>)
        ensures
            outcome(r) == (if args@.len() == 0 { bad_args("OUTPUT-STREAM-P"@, "Expected 1 argument (stream)"@) } else { yields(Val::Bool(true)) }),
    {
        if args.len() == 0 {
            return Err(invalid_args("OUTPUT-STREAM-P", "Expected 1 argument (stream)"));
        }
        Ok(Value::Bool(true))
    }
}

/// INTERACTIVE-STREAM-P - Check if interactive stream
pub struct InteractiveStreamPTool;

impl Tool for InteractiveStreamPTool {
    open spec fn names_itself(&self) -> bool {
        true
    }

    open spec fn spec_name(&self) -> Seq<char> {
        "INTERACTIVE-STREAM-P"@
    }

    open spec fn admits(&self, args: Seq<Val>) -> bool {
        true
    }

    fn name(&self) -> &str {
        "INTERACTIVE-STREAM-P"
    }

    fn description(&self) -> (r: &str)
        ensures
            r@ == "Check if stream is interactive"@,
    {
        "Check if stream is interactive"
    }

    fn execute(&self, args: &[Value]) -> (r: Result<Value, Error>)
        ensures
            outcome(r) == (if args@.len() == 0 { bad_args("INTERACTIVE-STREAM-P"@, "Expected 1 argument (stream)"@) } else { yields(Val::Bool(false)) }),
    {
        if args.len() == 0 {
            return Err(invalid_args("INTERACTIVE-STREAM-P", "Expected 1 argument (stream)"));
        }
        Ok(Value::Bool(false))
    }
}

/// OPEN-STREAM-P - Check if stream is open
pub struct OpenStreamPTool;

impl Tool for OpenStreamPTool {
    open spec fn names_itself(&self) -> bool {
        true
    }

    open spec fn spec_name(&self) -> Seq<char> {
        "OPEN-STREAM-P"@
    }

    open spec fn admits(&self, args: Seq<Val>) -> bool {
        true
    }

    fn name(&self) -> &str {
        "OPEN-STREAM-P"
    }

    fn description(&self) -> (r: &str)
        ensures
            r@ == "Check if stream is open"@,
    {
        "Check if stream is open"
    }

    fn execute(&self, args: &[Value]) -> (r: Result<Value, Error>)
        ensures
            outcome(r) == (if args@.len() == 0 { bad_args("OPEN-STREAM-P"@, "Expected 1 argument (stream)"@) } else { yields(Val::Bool(true)) }),
    {
        if args.len() == 0 {
            return Err(invalid_args("OPEN-STREAM-P", "Expected 1 argument (stream)"));
        }
        Ok(Value::Bool(true))
    }
}

use crate::tools::stdlib::strings::{byte_len_of, utf8_len};

/// FILE-POSITION - Get or set file position
pub struct FilePositionTool;

impl Tool for FilePositionTool {
    open spec fn names_itself(&self) -> bool {
        true
    }

    open spec fn spec_name(&self) -> Seq<char> {
        "FILE-POSITION"@
    }

    open spec fn admits(&self, args: Seq<Val>) -> bool {
        true
    }

    fn name(&self) -> &str {
        "FILE-POSITION"
    }

    fn description(&self) -> (r: &str)
        ensures
            r@ == "Get or set file position in stream"@,
    {
        "Get or set file position in stream"
    }

    fn execute(&self, args: &[Value]) -> (r: Result<Value, Error>)
        ensures
            outcome(r) == (yields(if args@.len() >= 2 { Val::Bool(true) } else { Val::Int(0) })),
    {
        if args.len() >= 2 {
            Ok(Value::Bool(true))
        } else {
            Ok(Value::Int(0))
        }
    }
}



/// FILE-STRING-LENGTH - Get string length in file
pub struct FileStringLengthTool;

impl Tool for FileStringLengthTool {
    open spec fn names_itself(&self) -> bool {
        true
    }

    open spec fn spec_name(&self) -> Seq<char> {
        "FILE-STRING-LENGTH"@
    }

    open spec fn admits(&self, args: Seq<Val>) -> bool {
        true
    }

    fn name(&self) -> &str {
        "FILE-STRING-LENGTH"
    }

    fn description(&self) -> (r: &str)
        ensures
            r@ == "Get length string would have in file"@,
    {
        "Get length string would have in file"
    }

    fn execute(&self, args: &[Value]) -> (r: Result<Value, Error>)
        ensures
            outcome(r) == (if args@.len() < 2 { bad_args("FILE-STRING-LENGTH"@, "Expected 2 arguments (stream, string)"@) } else {
                match models(args@)[1] {
                    Val::Str(s) => yields(Val::Int(utf8_len(s) as i64)),
                    _ => bad_args("FILE-STRING-LENGTH"@, "Second argument must be a string"@),
                }
            }),
    {
        if args.len() < 2 {
            return Err(invalid_args("FILE-STRING-LENGTH", "Expected 2 arguments (stream, string)"));
        }
        match &args[1] {
            Value::String(s) => Ok(Value::Int(byte_len_of(s.as_str()) as i64)),
            _ => Err(invalid_args("FILE-STRING-LENGTH", "Second argument must be a string")),
        }
    }
}


} // verus!
