//! Basic I/O operations for OVSM
//!
//! This module implements Common Lisp's basic I/O functions including:
//! - Output functions (PRINT, PRIN1, PRINC, etc.)
//! - Input functions (READ, READ-LINE, READ-CHAR, etc.)
//! - File operations (OPEN, CLOSE, WITH-OPEN-FILE, etc.)
//! - String streams (WITH-OUTPUT-TO-STRING, WITH-INPUT-FROM-STRING)
//!
//! Implementation notes:
//! - File operations use Rust's std::fs and std::io
//! - Stream abstractions are simplified for OVSM's use case
//! - READ functions parse OVSM LISP syntax
//! - All operations return Result for error handling
use vstd::prelude::*;

#[allow(unused_imports)]
use crate::access::{copy_range, copy_slice, copy_values, values_equal};
#[allow(unused_imports)]
use crate::error::{empty_collection, exec_error, invalid_args, ErrV, Error};
#[allow(unused_imports)]
use crate::text::{alphabetic, alphanumeric, char_from_u32, char_is_alphabetic, char_is_alphanumeric, char_is_lowercase, char_is_uppercase, char_is_whitespace, char_string, char_to_lowercase, char_to_uppercase, chars_of, chars_skip, concat, i64_to_string, int_decimal, lower_case, lower_chars, lowercase, owned, scalar_value, seq_less, str_equal, str_less, string_from_chars, to_lower, to_upper, upper_case, upper_chars, uppercase, whitespace};
#[allow(unused_imports)]
use crate::tools::{bad_args, name_insert, outcome, ref_outcome, string_views, yields, Tool, ToolRegistry};
#[allow(unused_imports)]
use crate::value::{and_then, elems, entry_models, int_of, models, obj_insert, obj_keys, obj_lookup, obj_merge, obj_of, obj_values, str_of, truthy, type_error, ObjectMap, Val, Value};

verus! {

broadcast use crate::seq_models::group_value_models;

/// The names after registering this module's tools, in order.
pub open spec fn registered_names(ns: Seq<Seq<char>>) -> Seq<Seq<char>> {
    let ns = name_insert(ns, "READ"@);
    let ns = name_insert(ns, "READ-LINE"@);
    let ns = name_insert(ns, "READ-CHAR"@);
    let ns = name_insert(ns, "READ-FROM-STRING"@);
    let ns = name_insert(ns, "CLOSE"@);
    let ns = name_insert(ns, "WITH-INPUT-FROM-STRING"@);
    let ns = name_insert(ns, "PRINT"@);
    let ns = name_insert(ns, "PRIN1"@);
    let ns = name_insert(ns, "PRINC"@);
    let ns = name_insert(ns, "PPRINT"@);
    let ns = name_insert(ns, "WRITE"@);
    let ns = name_insert(ns, "WRITE-LINE"@);
    let ns = name_insert(ns, "WRITE-STRING"@);
    let ns = name_insert(ns, "TERPRI"@);
    let ns = name_insert(ns, "FRESH-LINE"@);
    let ns = name_insert(ns, "WITH-OPEN-FILE"@);
    let ns = name_insert(ns, "OPEN"@);
    let ns = name_insert(ns, "FILE-POSITION"@);
    let ns = name_insert(ns, "FILE-LENGTH"@);
    let ns = name_insert(ns, "WITH-OUTPUT-TO-STRING"@);
    ns
}

/// Register the tools of this module: those the library holds, then those
/// the application supplies, each under its name: `print_tool` under PRINT, `prin1_tool` under PRIN1, `princ_tool` under PRINC, `pprint_tool` under PPRINT, `write_tool` under WRITE, `write_line_tool` under WRITE-LINE, `write_string_tool` under WRITE-STRING, `terpri_tool` under TERPRI, `fresh_line_tool` under FRESH-LINE, `with_open_file_tool` under WITH-OPEN-FILE, `open_tool` under OPEN, `file_position_tool` under FILE-POSITION, `file_length_tool` under FILE-LENGTH, `with_output_to_string_tool` under WITH-OUTPUT-TO-STRING.
pub fn register<TPrint: Tool + 'static, TPrin1: Tool + 'static, TPrinc: Tool + 'static, TPprint: Tool + 'static, TWrite: Tool + 'static, TWriteLine: Tool + 'static, TWriteString: Tool + 'static, TTerpri: Tool + 'static, TFreshLine: Tool + 'static, TWithOpenFile: Tool + 'static, TOpen: Tool + 'static, TFilePosition: Tool + 'static, TFileLength: Tool + 'static, TWithOutputToString: Tool + 'static>(registry: &mut ToolRegistry, print_tool: TPrint, prin1_tool: TPrin1, princ_tool: TPrinc, pprint_tool: TPprint, write_tool: TWrite, write_line_tool: TWriteLine, write_string_tool: TWriteString, terpri_tool: TTerpri, fresh_line_tool: TFreshLine, with_open_file_tool: TWithOpenFile, open_tool: TOpen, file_position_tool: TFilePosition, file_length_tool: TFileLength, with_output_to_string_tool: TWithOutputToString)
    requires
        print_tool.names_itself() ==> print_tool.spec_name() == "PRINT"@,
        prin1_tool.names_itself() ==> prin1_tool.spec_name() == "PRIN1"@,
        princ_tool.names_itself() ==> princ_tool.spec_name() == "PRINC"@,
        pprint_tool.names_itself() ==> pprint_tool.spec_name() == "PPRINT"@,
        write_tool.names_itself() ==> write_tool.spec_name() == "WRITE"@,
        write_line_tool.names_itself() ==> write_line_tool.spec_name() == "WRITE-LINE"@,
        write_string_tool.names_itself() ==> write_string_tool.spec_name() == "WRITE-STRING"@,
        terpri_tool.names_itself() ==> terpri_tool.spec_name() == "TERPRI"@,
        fresh_line_tool.names_itself() ==> fresh_line_tool.spec_name() == "FRESH-LINE"@,
        with_open_file_tool.names_itself() ==> with_open_file_tool.spec_name() == "WITH-OPEN-FILE"@,
        open_tool.names_itself() ==> open_tool.spec_name() == "OPEN"@,
        file_position_tool.names_itself() ==> file_position_tool.spec_name() == "FILE-POSITION"@,
        file_length_tool.names_itself() ==> file_length_tool.spec_name() == "FILE-LENGTH"@,
        with_output_to_string_tool.names_itself() ==> with_output_to_string_tool.spec_name() == "WITH-OUTPUT-TO-STRING"@,
    ensures
        final(registry).names() == registered_names(old(registry).names()),
{
    registry.register(ReadTool);
    registry.register(ReadLineTool);
    registry.register(ReadCharTool);
    registry.register(ReadFromStringTool);
    registry.register(CloseTool);
    registry.register(WithInputFromStringTool);
    registry.place(owned("PRINT"), print_tool);
    registry.place(owned("PRIN1"), prin1_tool);
    registry.place(owned("PRINC"), princ_tool);
    registry.place(owned("PPRINT"), pprint_tool);
    registry.place(owned("WRITE"), write_tool);
    registry.place(owned("WRITE-LINE"), write_line_tool);
    registry.place(owned("WRITE-STRING"), write_string_tool);
    registry.place(owned("TERPRI"), terpri_tool);
    registry.place(owned("FRESH-LINE"), fresh_line_tool);
    registry.place(owned("WITH-OPEN-FILE"), with_open_file_tool);
    registry.place(owned("OPEN"), open_tool);
    registry.place(owned("FILE-POSITION"), file_position_tool);
    registry.place(owned("FILE-LENGTH"), file_length_tool);
    registry.place(owned("WITH-OUTPUT-TO-STRING"), with_output_to_string_tool);
}

/// CLOSE - Close stream (no-op in OVSM since we don't have persistent streams)
pub struct CloseTool;

impl Tool for CloseTool {
    open spec fn names_itself(&self) -> bool {
        true
    }

    open spec fn spec_name(&self) -> Seq<char> {
        "CLOSE"@
    }

    open spec fn admits(&self, args: Seq<Val>) -> bool {
        true
    }

    fn name(&self) -> &str {
        "CLOSE"
    }

    fn description(&self) -> (r: &str)
        ensures
            r@ == "Close stream (no-op in OVSM)"@,
    {
        "Close stream (no-op in OVSM)"
    }

    fn execute(&self, args: &[Value]) -> (r: Result<Value, Error>)
        ensures
            outcome(r) == (yields(Val::Bool(true))),
    {
        Ok(Value::Bool(true))
    }
}

/// WITH-INPUT-FROM-STRING - Create string input stream
pub struct WithInputFromStringTool;

impl Tool for WithInputFromStringTool {
    open spec fn names_itself(&self) -> bool {
        true
    }

    open spec fn spec_name(&self) -> Seq<char> {
        "WITH-INPUT-FROM-STRING"@
    }

    open spec fn admits(&self, args: Seq<Val>) -> bool {
        true
    }

    fn name(&self) -> &str {
        "WITH-INPUT-FROM-STRING"
    }

    fn description(&self) -> (r: &str)
        ensures
            r@ == "Create input stream from string"@,
    {
        "Create input stream from string"
    }

    fn execute(&self, args: &[Value]) -> (r: Result<Value, Error>)
        ensures
            outcome(r) == (if args@.len() == 0 { bad_args("WITH-INPUT-FROM-STRING"@, "Expected a string"@) } else { yields(args@[0].model()) }),
    {
        if args.len() == 0 {
            return Err(invalid_args("WITH-INPUT-FROM-STRING", "Expected a string"));
        }
        Ok(args[0].clone())
    }
}

use crate::tools::stdlib::strings::{first_string, first_string_exec, string_map, trim_both, trim_end_exec, trim_start_exec};

/// The index of the first `\n` in `s`, or its length.
pub open spec fn first_newline(s: Seq<char>) -> int
    decreases s.len(),
{
    if s.len() == 0 {
        0
    } else if s[0] == '\n' {
        0
    } else {
        1 + first_newline(s.drop_first())
    }
}

/// The first line of `s`, as `str::lines` yields it: up to the first `\n`,
/// without it and without a `\r` just before it; empty for an empty string.
pub open spec fn first_line(s: Seq<char>) -> Seq<char> {
    let i = first_newline(s);
    if i < s.len() && i > 0 && s[i - 1] == '\r' {
        s.take(i - 1)
    } else {
        s.take(i)
    }
}

proof fn lemma_first_newline(s: Seq<char>, i: int)
    requires
        0 <= i <= s.len(),
        forall|j: int| 0 <= j < i ==> s[j] != '\n',
        i == s.len() || s[i] == '\n',
    ensures
        first_newline(s) == i,
    decreases i,
{
    if i > 0 {
        let t = s.drop_first();
        assert forall|j: int| 0 <= j < i - 1 implies t[j] != '\n' by {
            assert(t[j] == s[j + 1]);
        }
        if i < s.len() {
            assert(t[i - 1] == s[i]);
        }
        lemma_first_newline(t, i - 1);
    }
}

fn first_line_exec(s: &str) -> (r: String)
    ensures
        r@ == first_line(s@),
{
    let cs = chars_of(s);
    let mut i: usize = 0;
    let mut done = false;
    while i < cs.len() && !done
        invariant
            cs@ == s@,
            i <= cs@.len(),
            forall|j: int| 0 <= j < i ==> cs@[j] != '\n',
            done ==> i < cs@.len() && cs@[i as int] == '\n',
        decreases cs.len() - i + (if done { 0int } else { 1int }),
    {
        if cs[i] == '\n' {
            done = true;
        } else {
            i = i + 1;
        }
    }
    proof {
        lemma_first_newline(s@, i as int);
    }
    let end = if i < cs.len() && i > 0 && cs[i - 1] == '\r' { i - 1 } else { i };
    let mut out: Vec<char> = Vec::new();
    let mut k: usize = 0;
    while k < end
        invariant
            end <= cs@.len(),
            k <= end,
            out@ == cs@.take(k as int),
        decreases end - k,
    {
        out.push(cs[k]);
        k = k + 1;
        assert(out@ =~= cs@.take(k as int));
    }
    string_from_chars(&out)
}

/// READ - Read S-expression from string
pub struct ReadTool;

impl Tool for ReadTool {
    open spec fn names_itself(&self) -> bool {
        true
    }

    open spec fn spec_name(&self) -> Seq<char> {
        "READ"@
    }

    open spec fn admits(&self, args: Seq<Val>) -> bool {
        true
    }

    fn name(&self) -> &str {
        "READ"
    }

    fn description(&self) -> (r: &str)
        ensures
            r@ == "Read S-expression from string"@,
    {
        "Read S-expression from string"
    }

    fn execute(&self, args: &[Value]) -> (r: Result<Value, Error>)
        ensures
            outcome(r) == (string_map(first_string("READ"@, "Expected a string to read from"@, models(args@)), |s: Seq<char>| Val::Str(trim_both(s)))),
    {
        let s = first_string_exec("READ", "Expected a string to read from", args)?;
        let t = trim_start_exec(s);
        Ok(Value::String(trim_end_exec(t.as_str())))
    }
}



/// READ-FROM-STRING - Read S-expression from string (alias of READ)
pub struct ReadFromStringTool;

impl Tool for ReadFromStringTool {
    open spec fn names_itself(&self) -> bool {
        true
    }

    open spec fn spec_name(&self) -> Seq<char> {
        "READ-FROM-STRING"@
    }

    open spec fn admits(&self, args: Seq<Val>) -> bool {
        true
    }

    fn name(&self) -> &str {
        "READ-FROM-STRING"
    }

    fn description(&self) -> (r: &str)
        ensures
            r@ == "Read S-expression from string"@,
    {
        "Read S-expression from string"
    }

    fn execute(&self, args: &[Value]) -> (r: Result<Value, Error>)
        ensures
            outcome(r) == (string_map(first_string("READ"@, "Expected a string to read from"@, models(args@)), |s: Seq<char>| Val::Str(trim_both(s)))),
    {
        ReadTool.execute(args)
    }
}



/// READ-LINE - Read line of text from string
pub struct ReadLineTool;

impl Tool for ReadLineTool {
    open spec fn names_itself(&self) -> bool {
        true
    }

    open spec fn spec_name(&self) -> Seq<char> {
        "READ-LINE"@
    }

    open spec fn admits(&self, args: Seq<Val>) -> bool {
        true
    }

    fn name(&self) -> &str {
        "READ-LINE"
    }

    fn description(&self) -> (r: &str)
        ensures
            r@ == "Read line of text from string"@,
    {
        "Read line of text from string"
    }

    fn execute(&self, args: &[Value]) -> (r: Result<Value, Error>)
        ensures
            outcome(r) == (string_map(first_string("READ-LINE"@, "Expected a string to read from"@, models(args@)), |s: Seq<char>| Val::Str(first_line(s)))),
    {
        let s = first_string_exec("READ-LINE", "Expected a string to read from", args)?;
        Ok(Value::String(first_line_exec(s)))
    }
}



/// READ-CHAR - Read single character from string
pub struct ReadCharTool;

impl Tool for ReadCharTool {
    open spec fn names_itself(&self) -> bool {
        true
    }

    open spec fn spec_name(&self) -> Seq<char> {
        "READ-CHAR"@
    }

    open spec fn admits(&self, args: Seq<Val>) -> bool {
        true
    }

    fn name(&self) -> &str {
        "READ-CHAR"
    }

    fn description(&self) -> (r: &str)
        ensures
            r@ == "Read single character from string"@,
    {
        "Read single character from string"
    }

    fn execute(&self, args: &[Value]) -> (r: Result<Value, Error>)
        ensures
            outcome(r) == (match first_string("READ-CHAR"@, "Expected a string to read from"@, models(args@)) {
                Err(e) => Err(e),
                Ok(s) => if s.len() == 0 {
                    bad_args("READ-CHAR"@, "String is empty"@)
                } else {
                    yields(Val::Str(seq![s[0]]))
                },
            }),
    {
        let s = first_string_exec("READ-CHAR", "Expected a string to read from", args)?;
        if s.unicode_len() == 0 {
            return Err(invalid_args("READ-CHAR", "String is empty"));
        }
        Ok(Value::String(char_string(s.get_char(0))))
    }
}


} // verus!
