//! Printer control for OVSM
//!
//! Pretty printing, print dispatch, and printer variables.
//! Provides Common Lisp-style output formatting control.
use vstd::prelude::*;

#[allow(unused_imports)]
use crate::access::{copy_range, copy_slice, copy_values, values_equal};
#[allow(unused_imports)]
use crate::error::{empty_collection, exec_error, invalid_args, ErrV, Error};
#[allow(unused_imports)]
use crate::text::{alphabetic, alphanumeric, char_from_u32, char_is_alphabetic, char_is_alphanumeric, char_is_lowercase, char_is_uppercase, char_is_whitespace, char_string, char_to_lowercase, char_to_uppercase, chars_of, chars_skip, concat, i64_to_string, int_decimal, lower_case, lower_chars, lowercase, owned, scalar_value, seq_less, str_equal, str_less, string_from_chars, to_lower, to_upper, upper_case, upper_chars, uppercase, whitespace};
#[allow(unused_imports)]
use crate::tools::{bad_args, name_insert, outcome, ref_outcome, string_views, yields, Tool, ToolRegistry};
#[allow(unused_imports)]
use crate::value::{and_then, elems, entry_models, int_of, models, obj_insert, obj_keys, obj_lookup, obj_merge, obj_of, obj_values, str_of, truthy, type_error, ObjectMap, Val, Value};

verus! {

broadcast use crate::seq_models::group_value_models;

/// The names after registering this module's tools, in order.
pub open spec fn registered_names(ns: Seq<Seq<char>>) -> Seq<Seq<char>> {
    let ns = name_insert(ns, "PPRINT-INDENT"@);
    let ns = name_insert(ns, "PPRINT-TAB"@);
    let ns = name_insert(ns, "PPRINT-LOGICAL-BLOCK"@);
    let ns = name_insert(ns, "PPRINT-POP"@);
    let ns = name_insert(ns, "PPRINT-EXIT-IF-LIST-EXHAUSTED"@);
    let ns = name_insert(ns, "SET-PPRINT-DISPATCH"@);
    let ns = name_insert(ns, "PPRINT-DISPATCH"@);
    let ns = name_insert(ns, "COPY-PPRINT-DISPATCH"@);
    let ns = name_insert(ns, "*PRINT-PRETTY*"@);
    let ns = name_insert(ns, "*PRINT-LEVEL*"@);
    let ns = name_insert(ns, "*PRINT-LENGTH*"@);
    let ns = name_insert(ns, "*PRINT-CIRCLE*"@);
    let ns = name_insert(ns, "*PRINT-ESCAPE*"@);
    let ns = name_insert(ns, "PPRINT"@);
    let ns = name_insert(ns, "PPRINT-NEWLINE"@);
    ns
}

/// Register the tools of this module: those the library holds, then those
/// the application supplies, each under its name: `pprint_tool` under PPRINT, `pprint_newline_tool` under PPRINT-NEWLINE.
pub fn register<TPprint: Tool + 'static, TPprintNewline: Tool + 'static>(registry: &mut ToolRegistry, pprint_tool: TPprint, pprint_newline_tool: TPprintNewline)
    requires
        pprint_tool.names_itself() ==> pprint_tool.spec_name() == "PPRINT"@,
        pprint_newline_tool.names_itself() ==> pprint_newline_tool.spec_name() == "PPRINT-NEWLINE"@,
    ensures
        final(registry).names() == registered_names(old(registry).names()),
{
    registry.register(PprintIndentTool);
    registry.register(PprintTabTool);
    registry.register(PprintLogicalBlockTool);
    registry.register(PprintPopTool);
    registry.register(PprintExitIfListExhaustedTool);
    registry.register(SetPprintDispatchTool);
    registry.register(PprintDispatchTool);
    registry.register(CopyPprintDispatchTool);
    registry.register(PrintPrettyTool);
    registry.register(PrintLevelTool);
    registry.register(PrintLengthTool);
    registry.register(PrintCircleTool);
    registry.register(PrintEscapeTool);
    registry.place(owned("PPRINT"), pprint_tool);
    registry.place(owned("PPRINT-NEWLINE"), pprint_newline_tool);
}

/// PPRINT-INDENT - Set pretty print indentation
pub struct PprintIndentTool;

impl Tool for PprintIndentTool {
    open spec fn names_itself(&self) -> bool {
        true
    }

    open spec fn spec_name(&self) -> Seq<char> {
        "PPRINT-INDENT"@
    }

    open spec fn admits(&self, args: Seq<Val>) -> bool {
        true
    }

    fn name(&self) -> &str {
        "PPRINT-INDENT"
    }

    fn description(&self) -> (r: &str)
        ensures
            r@ == "Set indentation for pretty printing"@,
    {
        "Set indentation for pretty printing"
    }

    fn execute(&self, args: &[Value]) -> (r: Result<Value, Error>)
        ensures
            outcome(r) == (yields(Val::Null)),
    {
        Ok(Value::Null)
    }
}

/// PPRINT-TAB - Pretty print tabulation
pub struct PprintTabTool;

impl Tool for PprintTabTool {
    open spec fn names_itself(&self) -> bool {
        true
    }

    open spec fn spec_name(&self) -> Seq<char> {
        "PPRINT-TAB"@
    }

    open spec fn admits(&self, args: Seq<Val>) -> bool {
        true
    }

    fn name(&self) -> &str {
        "PPRINT-TAB"
    }

    fn description(&self) -> (r: &str)
        ensures
            r@ == "Tab to column in pretty printing"@,
    {
        "Tab to column in pretty printing"
    }

    fn execute(&self, args: &[Value]) -> (r: Result<Value, Error>)
        ensures
            outcome(r) == (yields(Val::Null)),
    {
        Ok(Value::Null)
    }
}

/// PPRINT-LOGICAL-BLOCK - Pretty print logical block
pub struct PprintLogicalBlockTool;

impl Tool for PprintLogicalBlockTool {
    open spec fn names_itself(&self) -> bool {
        true
    }

    open spec fn spec_name(&self) -> Seq<char> {
        "PPRINT-LOGICAL-BLOCK"@
    }

    open spec fn admits(&self, args: Seq<Val>) -> bool {
        true
    }

    fn name(&self) -> &str {
        "PPRINT-LOGICAL-BLOCK"
    }

    fn description(&self) -> (r: &str)
        ensures
            r@ == "Create pretty printing logical block"@,
    {
        "Create pretty printing logical block"
    }

    fn execute(&self, args: &[Value]) -> (r: Result<Value, Error>)
        ensures
            outcome(r) == (yields(if args@.len() > 1 { args@[args@.len() - 1].model() } else { Val::Null })),
    {
        Ok(if args.len() > 1 { args[args.len() - 1].clone() } else { Value::Null })
    }
}

/// SET-PPRINT-DISPATCH - Set pretty print dispatch function
pub struct SetPprintDispatchTool;

impl Tool for SetPprintDispatchTool {
    open spec fn names_itself(&self) -> bool {
        true
    }

    open spec fn spec_name(&self) -> Seq<char> {
        "SET-PPRINT-DISPATCH"@
    }

    open spec fn admits(&self, args: Seq<Val>) -> bool {
        true
    }

    fn name(&self) -> &str {
        "SET-PPRINT-DISPATCH"
    }

    fn description(&self) -> (r: &str)
        ensures
            r@ == "Set pretty print dispatch for type"@,
    {
        "Set pretty print dispatch for type"
    }

    fn execute(&self, args: &[Value]) -> (r: Result<Value, Error>)
        ensures
            outcome(r) == (yields(Val::Null)),
    {
        Ok(Value::Null)
    }
}

/// PPRINT-DISPATCH - Get pretty print dispatch function
pub struct PprintDispatchTool;

impl Tool for PprintDispatchTool {
    open spec fn names_itself(&self) -> bool {
        true
    }

    open spec fn spec_name(&self) -> Seq<char> {
        "PPRINT-DISPATCH"@
    }

    open spec fn admits(&self, args: Seq<Val>) -> bool {
        true
    }

    fn name(&self) -> &str {
        "PPRINT-DISPATCH"
    }

    fn description(&self) -> (r: &str)
        ensures
            r@ == "Get pretty print dispatch for object"@,
    {
        "Get pretty print dispatch for object"
    }

    fn execute(&self, args: &[Value]) -> (r: Result<Value, Error>)
        ensures
            outcome(r) == (yields(Val::Null)),
    {
        Ok(Value::Null)
    }
}

/// COPY-PPRINT-DISPATCH - Copy pprint dispatch table
pub struct CopyPprintDispatchTool;

impl Tool for CopyPprintDispatchTool {
    open spec fn names_itself(&self) -> bool {
        true
    }

    open spec fn spec_name(&self) -> Seq<char> {
        "COPY-PPRINT-DISPATCH"@
    }

    open spec fn admits(&self, args: Seq<Val>) -> bool {
        true
    }

    fn name(&self) -> &str {
        "COPY-PPRINT-DISPATCH"
    }

    fn description(&self) -> (r: &str)
        ensures
            r@ == "Copy pretty print dispatch table"@,
    {
        "Copy pretty print dispatch table"
    }

    fn execute(&self, args: &[Value]) -> (r: Result<Value, Error>)
        ensures
            outcome(r) == (yields(Val::Null)),
    {
        Ok(Value::Null)
    }
}

/// *PRINT-PRETTY* - Enable pretty printing
pub struct PrintPrettyTool;

impl Tool for PrintPrettyTool {
    open spec fn names_itself(&self) -> bool {
        true
    }

    open spec fn spec_name(&self) -> Seq<char> {
        "*PRINT-PRETTY*"@
    }

    open spec fn admits(&self, args: Seq<Val>) -> bool {
        true
    }

    fn name(&self) -> &str {
        "*PRINT-PRETTY*"
    }

    fn description(&self) -> (r: &str)
        ensures
            r@ == "Control pretty printing"@,
    {
        "Control pretty printing"
    }

    fn execute(&self, args: &[Value]) -> (r: Result<Value, Error>)
        ensures
            outcome(r) == (yields(if args@.len() == 0 { Val::Bool(false) } else { args@[0].model() })),
    {
        Ok(if args.len() == 0 { Value::Bool(false) } else { args[0].clone() })
    }
}

/// *PRINT-LEVEL* - Maximum print depth
pub struct PrintLevelTool;

impl Tool for PrintLevelTool {
    open spec fn names_itself(&self) -> bool {
        true
    }

    open spec fn spec_name(&self) -> Seq<char> {
        "*PRINT-LEVEL*"@
    }

    open spec fn admits(&self, args: Seq<Val>) -> bool {
        true
    }

    fn name(&self) -> &str {
        "*PRINT-LEVEL*"
    }

    fn description(&self) -> (r: &str)
        ensures
            r@ == "Maximum nesting level to print"@,
    {
        "Maximum nesting level to print"
    }

    fn execute(&self, args: &[Value]) -> (r: Result<Value, Error>)
        ensures
            outcome(r) == (yields(if args@.len() == 0 { Val::Null } else { args@[0].model() })),
    {
        Ok(if args.len() == 0 { Value::Null } else { args[0].clone() })
    }
}

/// *PRINT-LENGTH* - Maximum list length to print
pub struct PrintLengthTool;

impl Tool for PrintLengthTool {
    open spec fn names_itself(&self) -> bool {
        true
    }

    open spec fn spec_name(&self) -> Seq<char> {
        "*PRINT-LENGTH*"@
    }

    open spec fn admits(&self, args: Seq<Val>) -> bool {
        true
    }

    fn name(&self) -> &str {
        "*PRINT-LENGTH*"
    }

    fn description(&self) -> (r: &str)
        ensures
            r@ == "Maximum list length to print"@,
    {
        "Maximum list length to print"
    }

    fn execute(&self, args: &[Value]) -> (r: Result<Value, Error>)
        ensures
            outcome(r) == (yields(if args@.len() == 0 { Val::Null } else { args@[0].model() })),
    {
        Ok(if args.len() == 0 { Value::Null } else { args[0].clone() })
    }
}

/// *PRINT-CIRCLE* - Print circular structures
pub struct PrintCircleTool;

impl Tool for PrintCircleTool {
    open spec fn names_itself(&self) -> bool {
        true
    }

    open spec fn spec_name(&self) -> Seq<char> {
        "*PRINT-CIRCLE*"@
    }

    open spec fn admits(&self, args: Seq<Val>) -> bool {
        true
    }

    fn name(&self) -> &str {
        "*PRINT-CIRCLE*"
    }

    fn description(&self) -> (r: &str)
        ensures
            r@ == "Detect and print circular structures"@,
    {
        "Detect and print circular structures"
    }

    fn execute(&self, args: &[Value]) -> (r: Result<Value, Error>)
        ensures
            outcome(r) == (yields(if args@.len() == 0 { Val::Bool(false) } else { args@[0].model() })),
    {
        Ok(if args.len() == 0 { Value::Bool(false) } else { args[0].clone() })
    }
}

/// *PRINT-ESCAPE* - Print escape characters
pub struct PrintEscapeTool;

impl Tool for PrintEscapeTool {
    open spec fn names_itself(&self) -> bool {
        true
    }

    open spec fn spec_name(&self) -> Seq<char> {
        "*PRINT-ESCAPE*"@
    }

    open spec fn admits(&self, args: Seq<Val>) -> bool {
        true
    }

    fn name(&self) -> &str {
        "*PRINT-ESCAPE*"
    }

    fn description(&self) -> (r: &str)
        ensures
            r@ == "Print escape characters for readability"@,
    {
        "Print escape characters for readability"
    }

    fn execute(&self, args: &[Value]) -> (r: Result<Value, Error>)
        ensures
            outcome(r) == (yields(if args@.len() == 0 { Val::Bool(true) } else { args@[0].model() })),
    {
        Ok(if args.len() == 0 { Value::Bool(true) } else { args[0].clone() })
    }
}

/// PPRINT-POP - Pop from pprint list
pub struct PprintPopTool;

impl Tool for PprintPopTool {
    open spec fn names_itself(&self) -> bool {
        true
    }

    open spec fn spec_name(&self) -> Seq<char> {
        "PPRINT-POP"@
    }

    open spec fn admits(&self, args: Seq<Val>) -> bool {
        true
    }

    fn name(&self) -> &str {
        "PPRINT-POP"
    }

    fn description(&self) -> (r: &str)
        ensures
            r@ == "Pop element from pretty print list"@,
    {
        "Pop element from pretty print list"
    }

    fn execute(&self, args: &[Value]) -> (r: Result<Value, Error>)
        ensures
            outcome(r) == (if args@.len() == 0 { bad_args("PPRINT-POP"@, "Expected 1 argument (list)"@) } else {
                yields(match models(args@)[0] {
                    Val::Arr(s) => if s.len() > 0 { s[0] } else { Val::Null },
                    v => v,
                })
            }),
    {
        if args.len() == 0 {
            return Err(invalid_args("PPRINT-POP", "Expected 1 argument (list)"));
        }
        match &args[0] {
            Value::Array(arr) => {
                assert(models(arr@).len() == arr@.len());
                if arr.len() > 0 { Ok(arr[0].deep_copy()) } else { Ok(Value::Null) }
            },
            v => Ok(v.deep_copy()),
        }
    }
}



/// PPRINT-EXIT-IF-LIST-EXHAUSTED - Exit if list empty
pub struct PprintExitIfListExhaustedTool;

impl Tool for PprintExitIfListExhaustedTool {
    open spec fn names_itself(&self) -> bool {
        true
    }

    open spec fn spec_name(&self) -> Seq<char> {
        "PPRINT-EXIT-IF-LIST-EXHAUSTED"@
    }

    open spec fn admits(&self, args: Seq<Val>) -> bool {
        true
    }

    fn name(&self) -> &str {
        "PPRINT-EXIT-IF-LIST-EXHAUSTED"
    }

    fn description(&self) -> (r: &str)
        ensures
            r@ == "Exit pretty print block if list exhausted"@,
    {
        "Exit pretty print block if list exhausted"
    }

    fn execute(&self, args: &[Value]) -> (r: Result<Value, Error>)
        ensures
            outcome(r) == (if args@.len() == 0 { bad_args("PPRINT-EXIT-IF-LIST-EXHAUSTED"@, "Expected 1 argument (list)"@) } else {
                yields(Val::Bool(match models(args@)[0] {
                    Val::Arr(s) => s.len() == 0,
                    _ => false,
                }))
            }),
    {
        if args.len() == 0 {
            return Err(invalid_args("PPRINT-EXIT-IF-LIST-EXHAUSTED", "Expected 1 argument (list)"));
        }
        match &args[0] {
            Value::Array(arr) => {
                assert(models(arr@).len() == arr@.len());
                Ok(Value::Bool(arr.len() == 0))
            },
            _ => Ok(Value::Bool(false)),
        }
    }
}


} // verus!
