//! Reader and Printer functions for OVSM
//!
//! Reader macros, print control variables, pretty printer, and read-print operations.
//! Provides Common Lisp-style reader and printer functionality.
use vstd::prelude::*;

#[allow(unused_imports)]
use crate::access::{copy_range, copy_slice, copy_values, values_equal};
#[allow(unused_imports)]
use crate::error::{empty_collection, exec_error, invalid_args, ErrV, Error};
#[allow(unused_imports)]
use crate::text::{alphabetic, alphanumeric, char_from_u32, char_is_alphabetic, char_is_alphanumeric, char_is_lowercase, char_is_uppercase, char_is_whitespace, char_string, char_to_lowercase, char_to_uppercase, chars_of, chars_skip, concat, i64_to_string, int_decimal, lower_case, lower_chars, lowercase, owned, scalar_value, seq_less, str_equal, str_less, string_from_chars, to_lower, to_upper, upper_case, upper_chars, uppercase, whitespace};
#[allow(unused_imports)]
use crate::tools::{bad_args, name_insert, outcome, ref_outcome, string_views, yields, Tool, ToolRegistry};
#[allow(unused_imports)]
use crate::value::{and_then, elems, entry_models, int_of, models, obj_insert, obj_keys, obj_lookup, obj_merge, obj_of, obj_values, str_of, truthy, type_error, ObjectMap, Val, Value};

verus! {

broadcast use crate::seq_models::group_value_models;

/// The names after registering this module's tools, in order.
pub open spec fn registered_names(ns: Seq<Seq<char>>) -> Seq<Seq<char>> {
    let ns = name_insert(ns, "READ-FROM-STRING"@);
    let ns = name_insert(ns, "READ-DELIMITED-LIST"@);
    let ns = name_insert(ns, "READ-PRESERVING-WHITESPACE"@);
    let ns = name_insert(ns, "READ-CHAR"@);
    let ns = name_insert(ns, "READ-CHAR-NO-HANG"@);
    let ns = name_insert(ns, "UNREAD-CHAR"@);
    let ns = name_insert(ns, "PEEK-CHAR"@);
    let ns = name_insert(ns, "LISTEN"@);
    let ns = name_insert(ns, "CLEAR-INPUT"@);
    let ns = name_insert(ns, "GET-MACRO-CHARACTER"@);
    let ns = name_insert(ns, "SET-MACRO-CHARACTER"@);
    let ns = name_insert(ns, "MAKE-DISPATCH-MACRO-CHARACTER"@);
    let ns = name_insert(ns, "GET-DISPATCH-MACRO-CHARACTER"@);
    let ns = name_insert(ns, "SET-DISPATCH-MACRO-CHARACTER"@);
    let ns = name_insert(ns, "READTABLE-CASE"@);
    let ns = name_insert(ns, "COPY-READTABLE"@);
    let ns = name_insert(ns, "WRITE-CHAR"@);
    let ns = name_insert(ns, "WRITE-STRING"@);
    let ns = name_insert(ns, "WRITE-LINE"@);
    let ns = name_insert(ns, "TERPRI"@);
    let ns = name_insert(ns, "FRESH-LINE"@);
    let ns = name_insert(ns, "FINISH-OUTPUT"@);
    let ns = name_insert(ns, "FORCE-OUTPUT"@);
    let ns = name_insert(ns, "CLEAR-OUTPUT"@);
    let ns = name_insert(ns, "WRITE-TO-STRING"@);
    let ns = name_insert(ns, "PRIN1-TO-STRING"@);
    let ns = name_insert(ns, "PRINC-TO-STRING"@);
    ns
}

/// Register the tools of this module: those the library holds, then those
/// the application supplies, each under its name: `write_to_string_tool` under WRITE-TO-STRING, `prin1_to_string_tool` under PRIN1-TO-STRING, `princ_to_string_tool` under PRINC-TO-STRING.
pub fn register<TWriteToString: Tool + 'static, TPrin1ToString: Tool + 'static, TPrincToString: Tool + 'static>(registry: &mut ToolRegistry, write_to_string_tool: TWriteToString, prin1_to_string_tool: TPrin1ToString, princ_to_string_tool: TPrincToString)
    requires
        write_to_string_tool.names_itself() ==> write_to_string_tool.spec_name() == "WRITE-TO-STRING"@,
        prin1_to_string_tool.names_itself() ==> prin1_to_string_tool.spec_name() == "PRIN1-TO-STRING"@,
        princ_to_string_tool.names_itself() ==> princ_to_string_tool.spec_name() == "PRINC-TO-STRING"@,
    ensures
        final(registry).names() == registered_names(old(registry).names()),
{
    registry.register(ReadFromStringTool);
    registry.register(ReadDelimitedListTool);
    registry.register(ReadPreservingWhitespaceTool);
    registry.register(ReadCharTool);
    registry.register(ReadCharNoHangTool);
    registry.register(UnreadCharTool);
    registry.register(PeekCharTool);
    registry.register(ListenTool);
    registry.register(ClearInputTool);
    registry.register(GetMacroCharacterTool);
    registry.register(SetMacroCharacterTool);
    registry.register(MakeDispatchMacroCharacterTool);
    registry.register(GetDispatchMacroCharacterTool);
    registry.register(SetDispatchMacroCharacterTool);
    registry.register(ReadtableCaseTool);
    registry.register(CopyReadtableTool);
    registry.register(WriteCharTool);
    registry.register(WriteStringTool);
    registry.register(WriteLineTool);
    registry.register(TerpriTool);
    registry.register(FreshLineTool);
    registry.register(FinishOutputTool);
    registry.register(ForceOutputTool);
    registry.register(ClearOutputTool);
    registry.place(owned("WRITE-TO-STRING"), write_to_string_tool);
    registry.place(owned("PRIN1-TO-STRING"), prin1_to_string_tool);
    registry.place(owned("PRINC-TO-STRING"), princ_to_string_tool);
}

/// READ-FROM-STRING - Read from string
pub struct ReadFromStringTool;

impl Tool for ReadFromStringTool {
    open spec fn names_itself(&self) -> bool {
        true
    }

    open spec fn spec_name(&self) -> Seq<char> {
        "READ-FROM-STRING"@
    }

    open spec fn admits(&self, args: Seq<Val>) -> bool {
        true
    }

    fn name(&self) -> &str {
        "READ-FROM-STRING"
    }

    fn description(&self) -> (r: &str)
        ensures
            r@ == "Read Lisp expression from string"@,
    {
        "Read Lisp expression from string"
    }

    fn execute(&self, args: &[Value]) -> (r: Result<Value, Error>)
        ensures
            outcome(r) == (if args@.len() == 0 { bad_args("READ-FROM-STRING"@, "Expected string argument"@) } else { yields(args@[0].model()) }),
    {
        if args.len() == 0 {
            return Err(invalid_args("READ-FROM-STRING", "Expected string argument"));
        }
        Ok(args[0].clone())
    }
}

/// READ-DELIMITED-LIST - Read list until delimiter
pub struct ReadDelimitedListTool;

impl Tool for ReadDelimitedListTool {
    open spec fn names_itself(&self) -> bool {
        true
    }

    open spec fn spec_name(&self) -> Seq<char> {
        "READ-DELIMITED-LIST"@
    }

    open spec fn admits(&self, args: Seq<Val>) -> bool {
        true
    }

    fn name(&self) -> &str {
        "READ-DELIMITED-LIST"
    }

    fn description(&self) -> (r: &str)
        ensures
            r@ == "Read list until delimiter character"@,
    {
        "Read list until delimiter character"
    }

    fn execute(&self, args: &[Value]) -> (r: Result<Value, Error>)
        ensures
            outcome(r) == (yields(Val::Arr(Seq::<Val>::empty()))),
    {
        Ok(Value::Array(Vec::new()))
    }
}

/// READ-PRESERVING-WHITESPACE - Read preserving whitespace
pub struct ReadPreservingWhitespaceTool;

impl Tool for ReadPreservingWhitespaceTool {
    open spec fn names_itself(&self) -> bool {
        true
    }

    open spec fn spec_name(&self) -> Seq<char> {
        "READ-PRESERVING-WHITESPACE"@
    }

    open spec fn admits(&self, args: Seq<Val>) -> bool {
        true
    }

    fn name(&self) -> &str {
        "READ-PRESERVING-WHITESPACE"
    }

    fn description(&self) -> (r: &str)
        ensures
            r@ == "Read without consuming trailing whitespace"@,
    {
        "Read without consuming trailing whitespace"
    }

    fn execute(&self, args: &[Value]) -> (r: Result<Value, Error>)
        ensures
            outcome(r) == (yields(if args@.len() == 0 { Val::Null } else { args@[0].model() })),
    {
        Ok(if args.len() == 0 { Value::Null } else { args[0].clone() })
    }
}

/// READ-CHAR - Read single character
pub struct ReadCharTool;

impl Tool for ReadCharTool {
    open spec fn names_itself(&self) -> bool {
        true
    }

    open spec fn spec_name(&self) -> Seq<char> {
        "READ-CHAR"@
    }

    open spec fn admits(&self, args: Seq<Val>) -> bool {
        true
    }

    fn name(&self) -> &str {
        "READ-CHAR"
    }

    fn description(&self) -> (r: &str)
        ensures
            r@ == "Read single character from stream"@,
    {
        "Read single character from stream"
    }

    fn execute(&self, args: &[Value]) -> (r: Result<Value, Error>)
        ensures
            outcome(r) == (yields(Val::Str(" "@))),
    {
        Ok(Value::String(owned(" ")))
    }
}

/// READ-CHAR-NO-HANG - Read char without waiting
pub struct ReadCharNoHangTool;

impl Tool for ReadCharNoHangTool {
    open spec fn names_itself(&self) -> bool {
        true
    }

    open spec fn spec_name(&self) -> Seq<char> {
        "READ-CHAR-NO-HANG"@
    }

    open spec fn admits(&self, args: Seq<Val>) -> bool {
        true
    }

    fn name(&self) -> &str {
        "READ-CHAR-NO-HANG"
    }

    fn description(&self) -> (r: &str)
        ensures
            r@ == "Read character without blocking"@,
    {
        "Read character without blocking"
    }

    fn execute(&self, args: &[Value]) -> (r: Result<Value, Error>)
        ensures
            outcome(r) == (yields(Val::Null)),
    {
        Ok(Value::Null)
    }
}

/// UNREAD-CHAR - Push character back to stream
pub struct UnreadCharTool;

impl Tool for UnreadCharTool {
    open spec fn names_itself(&self) -> bool {
        true
    }

    open spec fn spec_name(&self) -> Seq<char> {
        "UNREAD-CHAR"@
    }

    open spec fn admits(&self, args: Seq<Val>) -> bool {
        true
    }

    fn name(&self) -> &str {
        "UNREAD-CHAR"
    }

    fn description(&self) -> (r: &str)
        ensures
            r@ == "Push character back to input stream"@,
    {
        "Push character back to input stream"
    }

    fn execute(&self, args: &[Value]) -> (r: Result<Value, Error>)
        ensures
            outcome(r) == (yields(if args@.len() == 0 { Val::Null } else { args@[0].model() })),
    {
        Ok(if args.len() == 0 { Value::Null } else { args[0].clone() })
    }
}

/// PEEK-CHAR - Peek at next character
pub struct PeekCharTool;

impl Tool for PeekCharTool {
    open spec fn names_itself(&self) -> bool {
        true
    }

    open spec fn spec_name(&self) -> Seq<char> {
        "PEEK-CHAR"@
    }

    open spec fn admits(&self, args: Seq<Val>) -> bool {
        true
    }

    fn name(&self) -> &str {
        "PEEK-CHAR"
    }

    fn description(&self) -> (r: &str)
        ensures
            r@ == "Peek at next character without consuming"@,
    {
        "Peek at next character without consuming"
    }

    fn execute(&self, args: &[Value]) -> (r: Result<Value, Error>)
        ensures
            outcome(r) == (yields(Val::Str(" "@))),
    {
        Ok(Value::String(owned(" ")))
    }
}

/// LISTEN - Check if input available
pub struct ListenTool;

impl Tool for ListenTool {
    open spec fn names_itself(&self) -> bool {
        true
    }

    open spec fn spec_name(&self) -> Seq<char> {
        "LISTEN"@
    }

    open spec fn admits(&self, args: Seq<Val>) -> bool {
        true
    }

    fn name(&self) -> &str {
        "LISTEN"
    }

    fn description(&self) -> (r: &str)
        ensures
            r@ == "Check if input is available"@,
    {
        "Check if input is available"
    }

    fn execute(&self, args: &[Value]) -> (r: Result<Value, Error>)
        ensures
            outcome(r) == (yields(Val::Bool(false))),
    {
        Ok(Value::Bool(false))
    }
}

/// CLEAR-INPUT - Clear input buffer
pub struct ClearInputTool;

impl Tool for ClearInputTool {
    open spec fn names_itself(&self) -> bool {
        true
    }

    open spec fn spec_name(&self) -> Seq<char> {
        "CLEAR-INPUT"@
    }

    open spec fn admits(&self, args: Seq<Val>) -> bool {
        true
    }

    fn name(&self) -> &str {
        "CLEAR-INPUT"
    }

    fn description(&self) -> (r: &str)
        ensures
            r@ == "Clear input buffer"@,
    {
        "Clear input buffer"
    }

    fn execute(&self, args: &[Value]) -> (r: Result<Value, Error>)
        ensures
            outcome(r) == (yields(Val::Null)),
    {
        Ok(Value::Null)
    }
}

/// GET-MACRO-CHARACTER - Get reader macro function
pub struct GetMacroCharacterTool;

impl Tool for GetMacroCharacterTool {
    open spec fn names_itself(&self) -> bool {
        true
    }

    open spec fn spec_name(&self) -> Seq<char> {
        "GET-MACRO-CHARACTER"@
    }

    open spec fn admits(&self, args: Seq<Val>) -> bool {
        true
    }

    fn name(&self) -> &str {
        "GET-MACRO-CHARACTER"
    }

    fn description(&self) -> (r: &str)
        ensures
            r@ == "Get reader macro function for character"@,
    {
        "Get reader macro function for character"
    }

    fn execute(&self, args: &[Value]) -> (r: Result<Value, Error>)
        ensures
            outcome(r) == (if args@.len() == 0 { bad_args("GET-MACRO-CHARACTER"@, "Expected character argument"@) } else { yields(Val::Null) }),
    {
        if args.len() == 0 {
            return Err(invalid_args("GET-MACRO-CHARACTER", "Expected character argument"));
        }
        Ok(Value::Null)
    }
}

/// SET-MACRO-CHARACTER - Set reader macro function
pub struct SetMacroCharacterTool;

impl Tool for SetMacroCharacterTool {
    open spec fn names_itself(&self) -> bool {
        true
    }

    open spec fn spec_name(&self) -> Seq<char> {
        "SET-MACRO-CHARACTER"@
    }

    open spec fn admits(&self, args: Seq<Val>) -> bool {
        true
    }

    fn name(&self) -> &str {
        "SET-MACRO-CHARACTER"
    }

    fn description(&self) -> (r: &str)
        ensures
            r@ == "Set reader macro function for character"@,
    {
        "Set reader macro function for character"
    }

    fn execute(&self, args: &[Value]) -> (r: Result<Value, Error>)
        ensures
            outcome(r) == (if args@.len() < 2 { bad_args("SET-MACRO-CHARACTER"@, "Expected character and function arguments"@) } else { yields(args@[1].model()) }),
    {
        if args.len() < 2 {
            return Err(invalid_args("SET-MACRO-CHARACTER", "Expected character and function arguments"));
        }
        Ok(args[1].clone())
    }
}

/// MAKE-DISPATCH-MACRO-CHARACTER - Create dispatch macro
pub struct MakeDispatchMacroCharacterTool;

impl Tool for MakeDispatchMacroCharacterTool {
    open spec fn names_itself(&self) -> bool {
        true
    }

    open spec fn spec_name(&self) -> Seq<char> {
        "MAKE-DISPATCH-MACRO-CHARACTER"@
    }

    open spec fn admits(&self, args: Seq<Val>) -> bool {
        true
    }

    fn name(&self) -> &str {
        "MAKE-DISPATCH-MACRO-CHARACTER"
    }

    fn description(&self) -> (r: &str)
        ensures
            r@ == "Make character a dispatch macro"@,
    {
        "Make character a dispatch macro"
    }

    fn execute(&self, args: &[Value]) -> (r: Result<Value, Error>)
        ensures
            outcome(r) == (yields(if args@.len() == 0 { Val::Null } else { args@[0].model() })),
    {
        Ok(if args.len() == 0 { Value::Null } else { args[0].clone() })
    }
}

/// GET-DISPATCH-MACRO-CHARACTER - Get dispatch macro
pub struct GetDispatchMacroCharacterTool;

impl Tool for GetDispatchMacroCharacterTool {
    open spec fn names_itself(&self) -> bool {
        true
    }

    open spec fn spec_name(&self) -> Seq<char> {
        "GET-DISPATCH-MACRO-CHARACTER"@
    }

    open spec fn admits(&self, args: Seq<Val>) -> bool {
        true
    }

    fn name(&self) -> &str {
        "GET-DISPATCH-MACRO-CHARACTER"
    }

    fn description(&self) -> (r: &str)
        ensures
            r@ == "Get dispatch macro function"@,
    {
        "Get dispatch macro function"
    }

    fn execute(&self, args: &[Value]) -> (r: Result<Value, Error>)
        ensures
            outcome(r) == (yields(Val::Null)),
    {
        Ok(Value::Null)
    }
}

/// SET-DISPATCH-MACRO-CHARACTER - Set dispatch macro
pub struct SetDispatchMacroCharacterTool;

impl Tool for SetDispatchMacroCharacterTool {
    open spec fn names_itself(&self) -> bool {
        true
    }

    open spec fn spec_name(&self) -> Seq<char> {
        "SET-DISPATCH-MACRO-CHARACTER"@
    }

    open spec fn admits(&self, args: Seq<Val>) -> bool {
        true
    }

    fn name(&self) -> &str {
        "SET-DISPATCH-MACRO-CHARACTER"
    }

    fn description(&self) -> (r: &str)
        ensures
            r@ == "Set dispatch macro function"@,
    {
        "Set dispatch macro function"
    }

    fn execute(&self, args: &[Value]) -> (r: Result<Value, Error>)
        ensures
            outcome(r) == (yields(if args@.len() >= 3 { args@[2].model() } else { Val::Null })),
    {
        Ok(if args.len() >= 3 { args[2].clone() } else { Value::Null })
    }
}

/// READTABLE-CASE - Get readtable case mode
pub struct ReadtableCaseTool;

impl Tool for ReadtableCaseTool {
    open spec fn names_itself(&self) -> bool {
        true
    }

    open spec fn spec_name(&self) -> Seq<char> {
        "READTABLE-CASE"@
    }

    open spec fn admits(&self, args: Seq<Val>) -> bool {
        true
    }

    fn name(&self) -> &str {
        "READTABLE-CASE"
    }

    fn description(&self) -> (r: &str)
        ensures
            r@ == "Get or set readtable case mode"@,
    {
        "Get or set readtable case mode"
    }

    fn execute(&self, args: &[Value]) -> (r: Result<Value, Error>)
        ensures
            outcome(r) == (yields(Val::Str("UPCASE"@))),
    {
        Ok(Value::String(owned("UPCASE")))
    }
}

/// COPY-READTABLE - Copy readtable
pub struct CopyReadtableTool;

impl Tool for CopyReadtableTool {
    open spec fn names_itself(&self) -> bool {
        true
    }

    open spec fn spec_name(&self) -> Seq<char> {
        "COPY-READTABLE"@
    }

    open spec fn admits(&self, args: Seq<Val>) -> bool {
        true
    }

    fn name(&self) -> &str {
        "COPY-READTABLE"
    }

    fn description(&self) -> (r: &str)
        ensures
            r@ == "Copy readtable"@,
    {
        "Copy readtable"
    }

    fn execute(&self, args: &[Value]) -> (r: Result<Value, Error>)
        ensures
            outcome(r) == (yields(Val::Str("READTABLE"@))),
    {
        Ok(Value::String(owned("READTABLE")))
    }
}

/// WRITE-CHAR - Write single character
pub struct WriteCharTool;

impl Tool for WriteCharTool {
    open spec fn names_itself(&self) -> bool {
        true
    }

    open spec fn spec_name(&self) -> Seq<char> {
        "WRITE-CHAR"@
    }

    open spec fn admits(&self, args: Seq<Val>) -> bool {
        true
    }

    fn name(&self) -> &str {
        "WRITE-CHAR"
    }

    fn description(&self) -> (r: &str)
        ensures
            r@ == "Write single character to stream"@,
    {
        "Write single character to stream"
    }

    fn execute(&self, args: &[Value]) -> (r: Result<Value, Error>)
        ensures
            outcome(r) == (yields(if args@.len() == 0 { Val::Null } else { args@[0].model() })),
    {
        Ok(if args.len() == 0 { Value::Null } else { args[0].clone() })
    }
}

/// WRITE-STRING - Write string
pub struct WriteStringTool;

impl Tool for WriteStringTool {
    open spec fn names_itself(&self) -> bool {
        true
    }

    open spec fn spec_name(&self) -> Seq<char> {
        "WRITE-STRING"@
    }

    open spec fn admits(&self, args: Seq<Val>) -> bool {
        true
    }

    fn name(&self) -> &str {
        "WRITE-STRING"
    }

    fn description(&self) -> (r: &str)
        ensures
            r@ == "Write string to stream"@,
    {
        "Write string to stream"
    }

    fn execute(&self, args: &[Value]) -> (r: Result<Value, Error>)
        ensures
            outcome(r) == (yields(if args@.len() == 0 { Val::Null } else { args@[0].model() })),
    {
        Ok(if args.len() == 0 { Value::Null } else { args[0].clone() })
    }
}

/// WRITE-LINE - Write line
pub struct WriteLineTool;

impl Tool for WriteLineTool {
    open spec fn names_itself(&self) -> bool {
        true
    }

    open spec fn spec_name(&self) -> Seq<char> {
        "WRITE-LINE"@
    }

    open spec fn admits(&self, args: Seq<Val>) -> bool {
        true
    }

    fn name(&self) -> &str {
        "WRITE-LINE"
    }

    fn description(&self) -> (r: &str)
        ensures
            r@ == "Write line to stream"@,
    {
        "Write line to stream"
    }

    fn execute(&self, args: &[Value]) -> (r: Result<Value, Error>)
        ensures
            outcome(r) == (yields(if args@.len() == 0 { Val::Null } else { args@[0].model() })),
    {
        Ok(if args.len() == 0 { Value::Null } else { args[0].clone() })
    }
}

/// TERPRI - Output newline
pub struct TerpriTool;

impl Tool for TerpriTool {
    open spec fn names_itself(&self) -> bool {
        true
    }

    open spec fn spec_name(&self) -> Seq<char> {
        "TERPRI"@
    }

    open spec fn admits(&self, args: Seq<Val>) -> bool {
        true
    }

    fn name(&self) -> &str {
        "TERPRI"
    }

    fn description(&self) -> (r: &str)
        ensures
            r@ == "Output newline"@,
    {
        "Output newline"
    }

    fn execute(&self, args: &[Value]) -> (r: Result<Value, Error>)
        ensures
            outcome(r) == (yields(Val::Null)),
    {
        Ok(Value::Null)
    }
}

/// FRESH-LINE - Output newline if needed
pub struct FreshLineTool;

impl Tool for FreshLineTool {
    open spec fn names_itself(&self) -> bool {
        true
    }

    open spec fn spec_name(&self) -> Seq<char> {
        "FRESH-LINE"@
    }

    open spec fn admits(&self, args: Seq<Val>) -> bool {
        true
    }

    fn name(&self) -> &str {
        "FRESH-LINE"
    }

    fn description(&self) -> (r: &str)
        ensures
            r@ == "Output newline if not at line start"@,
    {
        "Output newline if not at line start"
    }

    fn execute(&self, args: &[Value]) -> (r: Result<Value, Error>)
        ensures
            outcome(r) == (yields(Val::Bool(true))),
    {
        Ok(Value::Bool(true))
    }
}

/// FINISH-OUTPUT - Finish output operations
pub struct FinishOutputTool;

impl Tool for FinishOutputTool {
    open spec fn names_itself(&self) -> bool {
        true
    }

    open spec fn spec_name(&self) -> Seq<char> {
        "FINISH-OUTPUT"@
    }

    open spec fn admits(&self, args: Seq<Val>) -> bool {
        true
    }

    fn name(&self) -> &str {
        "FINISH-OUTPUT"
    }

    fn description(&self) -> (r: &str)
        ensures
            r@ == "Finish all output operations"@,
    {
        "Finish all output operations"
    }

    fn execute(&self, args: &[Value]) -> (r: Result<Value, Error>)
        ensures
            outcome(r) == (yields(Val::Null)),
    {
        Ok(Value::Null)
    }
}

/// FORCE-OUTPUT - Force output flush
pub struct ForceOutputTool;

impl Tool for ForceOutputTool {
    open spec fn names_itself(&self) -> bool {
        true
    }

    open spec fn spec_name(&self) -> Seq<char> {
        "FORCE-OUTPUT"@
    }

    open spec fn admits(&self, args: Seq<Val>) -> bool {
        true
    }

    fn name(&self) -> &str {
        "FORCE-OUTPUT"
    }

    fn description(&self) -> (r: &str)
        ensures
            r@ == "Force output to be flushed"@,
    {
        "Force output to be flushed"
    }

    fn execute(&self, args: &[Value]) -> (r: Result<Value, Error>)
        ensures
            outcome(r) == (yields(Val::Null)),
    {
        Ok(Value::Null)
    }
}

/// CLEAR-OUTPUT - Clear output buffer
pub struct ClearOutputTool;

impl Tool for ClearOutputTool {
    open spec fn names_itself(&self) -> bool {
        true
    }

    open spec fn spec_name(&self) -> Seq<char> {
        "CLEAR-OUTPUT"@
    }

    open spec fn admits(&self, args: Seq<Val>) -> bool {
        true
    }

    fn name(&self) -> &str {
        "CLEAR-OUTPUT"
    }

    fn description(&self) -> (r: &str)
        ensures
            r@ == "Clear output buffer"@,
    {
        "Clear output buffer"
    }

    fn execute(&self, args: &[Value]) -> (r: Result<Value, Error>)
        ensures
            outcome(r) == (yields(Val::Null)),
    {
        Ok(Value::Null)
    }
}

} // verus!
