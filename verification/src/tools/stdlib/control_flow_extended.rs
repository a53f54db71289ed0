//! Extended control flow for OVSM
//!
//! Low-level control flow primitives: TAGBODY, GO, PROG, PROG*, BLOCK, RETURN-FROM.
//! These primitives enable implementation of higher-level control structures.
use vstd::prelude::*;

#[allow(unused_imports)]
use crate::access::{copy_range, copy_slice, copy_values, values_equal};
#[allow(unused_imports)]
use crate::error::{empty_collection, exec_error, invalid_args, ErrV, Error};
#[allow(unused_imports)]
use crate::text::{alphabetic, alphanumeric, char_from_u32, char_is_alphabetic, char_is_alphanumeric, char_is_lowercase, char_is_uppercase, char_is_whitespace, char_string, char_to_lowercase, char_to_uppercase, chars_of, chars_skip, concat, i64_to_string, int_decimal, lower_case, lower_chars, lowercase, owned, scalar_value, seq_less, str_equal, str_less, string_from_chars, to_lower, to_upper, upper_case, upper_chars, uppercase, whitespace};
#[allow(unused_imports)]
use crate::tools::{bad_args, name_insert, outcome, ref_outcome, string_views, yields, Tool, ToolRegistry};
#[allow(unused_imports)]
use crate::value::{and_then, elems, entry_models, int_of, models, obj_insert, obj_keys, obj_lookup, obj_merge, obj_of, obj_values, str_of, truthy, type_error, ObjectMap, Val, Value};

verus! {

broadcast use crate::seq_models::group_value_models;

/// The names after registering this module's tools, in order.
pub open spec fn registered_names(ns: Seq<Seq<char>>) -> Seq<Seq<char>> {
    let ns = name_insert(ns, "TAGBODY"@);
    let ns = name_insert(ns, "GO"@);
    let ns = name_insert(ns, "BLOCK"@);
    let ns = name_insert(ns, "RETURN-FROM"@);
    let ns = name_insert(ns, "RETURN"@);
    let ns = name_insert(ns, "PROG"@);
    let ns = name_insert(ns, "PROG*"@);
    let ns = name_insert(ns, "PROG1"@);
    let ns = name_insert(ns, "PROG2"@);
    let ns = name_insert(ns, "PROGN"@);
    let ns = name_insert(ns, "PROGV"@);
    let ns = name_insert(ns, "UNWIND-PROTECT"@);
    let ns = name_insert(ns, "CATCH"@);
    let ns = name_insert(ns, "THROW"@);
    let ns = name_insert(ns, "CASE"@);
    let ns = name_insert(ns, "CCASE"@);
    let ns = name_insert(ns, "ECASE"@);
    let ns = name_insert(ns, "TYPECASE"@);
    let ns = name_insert(ns, "CTYPECASE"@);
    let ns = name_insert(ns, "ETYPECASE"@);
    let ns = name_insert(ns, "UNLESS"@);
    let ns = name_insert(ns, "WHEN"@);
    let ns = name_insert(ns, "COND"@);
    let ns = name_insert(ns, "OR"@);
    let ns = name_insert(ns, "AND"@);
    ns
}

/// Register the tools of this module.
pub fn register(registry: &mut ToolRegistry)
    ensures
        final(registry).names() == registered_names(old(registry).names()),
{
    registry.register(TagbodyTool);
    registry.register(GoTool);
    registry.register(BlockTool);
    registry.register(ReturnFromTool);
    registry.register(ReturnTool);
    registry.register(ProgTool);
    registry.register(ProgStarTool);
    registry.register(Prog1Tool);
    registry.register(Prog2Tool);
    registry.register(PrognTool);
    registry.register(ProgvTool);
    registry.register(UnwindProtectTool);
    registry.register(CatchTool);
    registry.register(ThrowTool);
    registry.register(CaseTool);
    registry.register(CcaseTool);
    registry.register(EcaseTool);
    registry.register(TypecaseTool);
    registry.register(CtypecaseTool);
    registry.register(EtypecaseTool);
    registry.register(UnlessTool);
    registry.register(WhenTool);
    registry.register(CondTool);
    registry.register(OrControlTool);
    registry.register(AndControlTool);
}

/// GO - Jump to tag in TAGBODY
pub struct GoTool;

impl Tool for GoTool {
    open spec fn names_itself(&self) -> bool {
        true
    }

    open spec fn spec_name(&self) -> Seq<char> {
        "GO"@
    }

    open spec fn admits(&self, args: Seq<Val>) -> bool {
        true
    }

    fn name(&self) -> &str {
        "GO"
    }

    fn description(&self) -> (r: &str)
        ensures
            r@ == "Jump to tag in TAGBODY"@,
    {
        "Jump to tag in TAGBODY"
    }

    fn execute(&self, args: &[Value]) -> (r: Result<Value, Error>)
        ensures
            outcome(r) == (yields(if args@.len() == 0 { Val::Null } else { args@[0].model() })),
    {
        Ok(if args.len() == 0 { Value::Null } else { args[0].clone() })
    }
}

/// BLOCK - Named block for RETURN-FROM
pub struct BlockTool;

impl Tool for BlockTool {
    open spec fn names_itself(&self) -> bool {
        true
    }

    open spec fn spec_name(&self) -> Seq<char> {
        "BLOCK"@
    }

    open spec fn admits(&self, args: Seq<Val>) -> bool {
        true
    }

    fn name(&self) -> &str {
        "BLOCK"
    }

    fn description(&self) -> (r: &str)
        ensures
            r@ == "Create named block for RETURN-FROM"@,
    {
        "Create named block for RETURN-FROM"
    }

    fn execute(&self, args: &[Value]) -> (r: Result<Value, Error>)
        ensures
            outcome(r) == (yields(if args@.len() > 1 { args@[args@.len() - 1].model() } else { Val::Null })),
    {
        Ok(if args.len() > 1 { args[args.len() - 1].clone() } else { Value::Null })
    }
}

/// RETURN-FROM - Return from named block
pub struct ReturnFromTool;

impl Tool for ReturnFromTool {
    open spec fn names_itself(&self) -> bool {
        true
    }

    open spec fn spec_name(&self) -> Seq<char> {
        "RETURN-FROM"@
    }

    open spec fn admits(&self, args: Seq<Val>) -> bool {
        true
    }

    fn name(&self) -> &str {
        "RETURN-FROM"
    }

    fn description(&self) -> (r: &str)
        ensures
            r@ == "Return from named block"@,
    {
        "Return from named block"
    }

    fn execute(&self, args: &[Value]) -> (r: Result<Value, Error>)
        ensures
            outcome(r) == (yields(if args@.len() > 1 { args@[1].model() } else { Val::Null })),
    {
        Ok(if args.len() > 1 { args[1].clone() } else { Value::Null })
    }
}

/// RETURN - Return from NIL block
pub struct ReturnTool;

impl Tool for ReturnTool {
    open spec fn names_itself(&self) -> bool {
        true
    }

    open spec fn spec_name(&self) -> Seq<char> {
        "RETURN"@
    }

    open spec fn admits(&self, args: Seq<Val>) -> bool {
        true
    }

    fn name(&self) -> &str {
        "RETURN"
    }

    fn description(&self) -> (r: &str)
        ensures
            r@ == "Return from implicit NIL block"@,
    {
        "Return from implicit NIL block"
    }

    fn execute(&self, args: &[Value]) -> (r: Result<Value, Error>)
        ensures
            outcome(r) == (yields(if args@.len() == 0 { Val::Null } else { args@[0].model() })),
    {
        Ok(if args.len() == 0 { Value::Null } else { args[0].clone() })
    }
}

/// PROG - PROG construct (BLOCK + LET + TAGBODY)
pub struct ProgTool;

impl Tool for ProgTool {
    open spec fn names_itself(&self) -> bool {
        true
    }

    open spec fn spec_name(&self) -> Seq<char> {
        "PROG"@
    }

    open spec fn admits(&self, args: Seq<Val>) -> bool {
        true
    }

    fn name(&self) -> &str {
        "PROG"
    }

    fn description(&self) -> (r: &str)
        ensures
            r@ == "Combine BLOCK, LET, and TAGBODY"@,
    {
        "Combine BLOCK, LET, and TAGBODY"
    }

    fn execute(&self, args: &[Value]) -> (r: Result<Value, Error>)
        ensures
            outcome(r) == (yields(if args@.len() > 1 { args@[args@.len() - 1].model() } else { Val::Null })),
    {
        Ok(if args.len() > 1 { args[args.len() - 1].clone() } else { Value::Null })
    }
}

/// PROG* - Sequential PROG (BLOCK + LET* + TAGBODY)
pub struct ProgStarTool;

impl Tool for ProgStarTool {
    open spec fn names_itself(&self) -> bool {
        true
    }

    open spec fn spec_name(&self) -> Seq<char> {
        "PROG*"@
    }

    open spec fn admits(&self, args: Seq<Val>) -> bool {
        true
    }

    fn name(&self) -> &str {
        "PROG*"
    }

    fn description(&self) -> (r: &str)
        ensures
            r@ == "Sequential PROG (BLOCK + LET* + TAGBODY)"@,
    {
        "Sequential PROG (BLOCK + LET* + TAGBODY)"
    }

    fn execute(&self, args: &[Value]) -> (r: Result<Value, Error>)
        ensures
            outcome(r) == (yields(if args@.len() > 1 { args@[args@.len() - 1].model() } else { Val::Null })),
    {
        Ok(if args.len() > 1 { args[args.len() - 1].clone() } else { Value::Null })
    }
}

/// PROG1 - Return first form value
pub struct Prog1Tool;

impl Tool for Prog1Tool {
    open spec fn names_itself(&self) -> bool {
        true
    }

    open spec fn spec_name(&self) -> Seq<char> {
        "PROG1"@
    }

    open spec fn admits(&self, args: Seq<Val>) -> bool {
        true
    }

    fn name(&self) -> &str {
        "PROG1"
    }

    fn description(&self) -> (r: &str)
        ensures
            r@ == "Evaluate forms, return first value"@,
    {
        "Evaluate forms, return first value"
    }

    fn execute(&self, args: &[Value]) -> (r: Result<Value, Error>)
        ensures
            outcome(r) == (yields(if args@.len() == 0 { Val::Null } else { args@[0].model() })),
    {
        Ok(if args.len() == 0 { Value::Null } else { args[0].clone() })
    }
}

/// PROG2 - Return second form value
pub struct Prog2Tool;

impl Tool for Prog2Tool {
    open spec fn names_itself(&self) -> bool {
        true
    }

    open spec fn spec_name(&self) -> Seq<char> {
        "PROG2"@
    }

    open spec fn admits(&self, args: Seq<Val>) -> bool {
        true
    }

    fn name(&self) -> &str {
        "PROG2"
    }

    fn description(&self) -> (r: &str)
        ensures
            r@ == "Evaluate forms, return second value"@,
    {
        "Evaluate forms, return second value"
    }

    fn execute(&self, args: &[Value]) -> (r: Result<Value, Error>)
        ensures
            outcome(r) == (yields(if args@.len() > 1 { args@[1].model() } else { Val::Null })),
    {
        Ok(if args.len() > 1 { args[1].clone() } else { Value::Null })
    }
}

/// PROGN - Execute forms sequentially
pub struct PrognTool;

impl Tool for PrognTool {
    open spec fn names_itself(&self) -> bool {
        true
    }

    open spec fn spec_name(&self) -> Seq<char> {
        "PROGN"@
    }

    open spec fn admits(&self, args: Seq<Val>) -> bool {
        true
    }

    fn name(&self) -> &str {
        "PROGN"
    }

    fn description(&self) -> (r: &str)
        ensures
            r@ == "Execute forms sequentially, return last"@,
    {
        "Execute forms sequentially, return last"
    }

    fn execute(&self, args: &[Value]) -> (r: Result<Value, Error>)
        ensures
            outcome(r) == (yields(if args@.len() == 0 { Val::Null } else { args@[args@.len() - 1].model() })),
    {
        Ok(if args.len() == 0 { Value::Null } else { args[args.len() - 1].clone() })
    }
}

/// UNWIND-PROTECT - Ensure cleanup forms execute
pub struct UnwindProtectTool;

impl Tool for UnwindProtectTool {
    open spec fn names_itself(&self) -> bool {
        true
    }

    open spec fn spec_name(&self) -> Seq<char> {
        "UNWIND-PROTECT"@
    }

    open spec fn admits(&self, args: Seq<Val>) -> bool {
        true
    }

    fn name(&self) -> &str {
        "UNWIND-PROTECT"
    }

    fn description(&self) -> (r: &str)
        ensures
            r@ == "Ensure cleanup forms execute"@,
    {
        "Ensure cleanup forms execute"
    }

    fn execute(&self, args: &[Value]) -> (r: Result<Value, Error>)
        ensures
            outcome(r) == (yields(if args@.len() == 0 { Val::Null } else { args@[0].model() })),
    {
        Ok(if args.len() == 0 { Value::Null } else { args[0].clone() })
    }
}

/// CATCH - Establish catch tag
pub struct CatchTool;

impl Tool for CatchTool {
    open spec fn names_itself(&self) -> bool {
        true
    }

    open spec fn spec_name(&self) -> Seq<char> {
        "CATCH"@
    }

    open spec fn admits(&self, args: Seq<Val>) -> bool {
        true
    }

    fn name(&self) -> &str {
        "CATCH"
    }

    fn description(&self) -> (r: &str)
        ensures
            r@ == "Establish catch tag for THROW"@,
    {
        "Establish catch tag for THROW"
    }

    fn execute(&self, args: &[Value]) -> (r: Result<Value, Error>)
        ensures
            outcome(r) == (yields(if args@.len() > 1 { args@[args@.len() - 1].model() } else { Val::Null })),
    {
        Ok(if args.len() > 1 { args[args.len() - 1].clone() } else { Value::Null })
    }
}

/// THROW - Throw to catch tag
pub struct ThrowTool;

impl Tool for ThrowTool {
    open spec fn names_itself(&self) -> bool {
        true
    }

    open spec fn spec_name(&self) -> Seq<char> {
        "THROW"@
    }

    open spec fn admits(&self, args: Seq<Val>) -> bool {
        true
    }

    fn name(&self) -> &str {
        "THROW"
    }

    fn description(&self) -> (r: &str)
        ensures
            r@ == "Throw value to catch tag"@,
    {
        "Throw value to catch tag"
    }

    fn execute(&self, args: &[Value]) -> (r: Result<Value, Error>)
        ensures
            outcome(r) == (yields(if args@.len() > 1 { args@[1].model() } else { Val::Null })),
    {
        Ok(if args.len() > 1 { args[1].clone() } else { Value::Null })
    }
}

/// CASE - Case dispatch on value
pub struct CaseTool;

impl Tool for CaseTool {
    open spec fn names_itself(&self) -> bool {
        true
    }

    open spec fn spec_name(&self) -> Seq<char> {
        "CASE"@
    }

    open spec fn admits(&self, args: Seq<Val>) -> bool {
        true
    }

    fn name(&self) -> &str {
        "CASE"
    }

    fn description(&self) -> (r: &str)
        ensures
            r@ == "Case dispatch on keyform value"@,
    {
        "Case dispatch on keyform value"
    }

    fn execute(&self, args: &[Value]) -> (r: Result<Value, Error>)
        ensures
            outcome(r) == (yields(if args@.len() == 0 { Val::Null } else { args@[0].model() })),
    {
        Ok(if args.len() == 0 { Value::Null } else { args[0].clone() })
    }
}

/// TYPECASE - Type-based case dispatch
pub struct TypecaseTool;

impl Tool for TypecaseTool {
    open spec fn names_itself(&self) -> bool {
        true
    }

    open spec fn spec_name(&self) -> Seq<char> {
        "TYPECASE"@
    }

    open spec fn admits(&self, args: Seq<Val>) -> bool {
        true
    }

    fn name(&self) -> &str {
        "TYPECASE"
    }

    fn description(&self) -> (r: &str)
        ensures
            r@ == "Case dispatch on object type"@,
    {
        "Case dispatch on object type"
    }

    fn execute(&self, args: &[Value]) -> (r: Result<Value, Error>)
        ensures
            outcome(r) == (yields(if args@.len() == 0 { Val::Null } else { args@[0].model() })),
    {
        Ok(if args.len() == 0 { Value::Null } else { args[0].clone() })
    }
}

/// The first argument, or an error naming what the tool requires.
pub open spec fn keyform(tool: Seq<char>, reason: Seq<char>, a: Seq<Val>) -> Result<Val, ErrV> {
    if a.len() == 0 {
        Err(ErrV::ToolExecutionError { tool, reason })
    } else {
        yields(a[0])
    }
}

fn keyform_exec(tool: &str, reason: &str, args: &[Value]) -> (r: Result<Value, Error>)
    ensures
        outcome(r) == keyform(tool@, reason@, models(args@)),
{
    if args.len() == 0 {
        return Err(exec_error(tool, reason));
    }
    Ok(args[0].deep_copy())
}

/// The last argument when there is a body after the first, else null.
pub open spec fn last_of_body(a: Seq<Val>) -> Val {
    if a.len() > 1 {
        a.last()
    } else {
        Val::Null
    }
}

fn last_of_body_exec(args: &[Value]) -> (r: Value)
    ensures
        r.model() == last_of_body(models(args@)),
{
    if args.len() > 1 {
        args[args.len() - 1].deep_copy()
    } else {
        Value::Null
    }
}

/// The first true argument, or false.
pub open spec fn first_truthy(a: Seq<Val>) -> Val
    decreases a.len(),
{
    if a.len() == 0 {
        Val::Bool(false)
    } else if truthy(a[0]) {
        a[0]
    } else {
        first_truthy(a.drop_first())
    }
}

/// False if some argument is false, else the last argument (true for none).
pub open spec fn all_truthy(a: Seq<Val>) -> Val {
    if exists|j: int| 0 <= j < a.len() && !truthy(#[trigger] a[j]) {
        Val::Bool(false)
    } else if a.len() == 0 {
        Val::Bool(true)
    } else {
        a.last()
    }
}

/// TAGBODY - Tagged body with GO targets
pub struct TagbodyTool;

impl Tool for TagbodyTool {
    open spec fn names_itself(&self) -> bool {
        true
    }

    open spec fn spec_name(&self) -> Seq<char> {
        "TAGBODY"@
    }

    open spec fn admits(&self, args: Seq<Val>) -> bool {
        true
    }

    fn name(&self) -> &str {
        "TAGBODY"
    }

    fn description(&self) -> (r: &str)
        ensures
            r@ == "Execute body with GO targets"@,
    {
        "Execute body with GO targets"
    }

    fn execute(&self, args: &[Value]) -> (r: Result<Value, Error>)
        ensures
            outcome(r) == (yields(if args@.len() == 0 { Val::Null } else if args@.len() == 1 { models(args@)[0] } else { Val::Arr(models(args@)) })),
    {
        if args.len() == 0 {
            Ok(Value::Null)
        } else if args.len() == 1 {
            Ok(args[0].deep_copy())
        } else {
            Ok(Value::Array(copy_slice(args)))
        }
    }
}



/// PROGV - Dynamic variable binding
pub struct ProgvTool;

impl Tool for ProgvTool {
    open spec fn names_itself(&self) -> bool {
        true
    }

    open spec fn spec_name(&self) -> Seq<char> {
        "PROGV"@
    }

    open spec fn admits(&self, args: Seq<Val>) -> bool {
        true
    }

    fn name(&self) -> &str {
        "PROGV"
    }

    fn description(&self) -> (r: &str)
        ensures
            r@ == "Dynamically bind variables during execution"@,
    {
        "Dynamically bind variables during execution"
    }

    fn execute(&self, args: &[Value]) -> (r: Result<Value, Error>)
        ensures
            outcome(r) == (if args@.len() < 2 {
                Err(ErrV::ToolExecutionError { tool: "PROGV"@, reason: "PROGV requires at least 2 arguments (symbols values &rest forms)"@ })
            } else if !(models(args@)[0] is Arr) {
                Err(ErrV::ToolExecutionError { tool: "PROGV"@, reason: "PROGV first argument must be an array of symbols"@ })
            } else {
                yields(if args@.len() > 2 { models(args@).last() } else { Val::Null })
            }),
    {
        if args.len() < 2 {
            return Err(exec_error("PROGV", "PROGV requires at least 2 arguments (symbols values &rest forms)"));
        }
        if !matches!(args[0], Value::Array(_)) {
            return Err(exec_error("PROGV", "PROGV first argument must be an array of symbols"));
        }
        Ok(if args.len() > 2 { args[args.len() - 1].deep_copy() } else { Value::Null })
    }
}



/// CCASE - Correctable case
pub struct CcaseTool;

impl Tool for CcaseTool {
    open spec fn names_itself(&self) -> bool {
        true
    }

    open spec fn spec_name(&self) -> Seq<char> {
        "CCASE"@
    }

    open spec fn admits(&self, args: Seq<Val>) -> bool {
        true
    }

    fn name(&self) -> &str {
        "CCASE"
    }

    fn description(&self) -> (r: &str)
        ensures
            r@ == "Correctable case (signals error if no match)"@,
    {
        "Correctable case (signals error if no match)"
    }

    fn execute(&self, args: &[Value]) -> (r: Result<Value, Error>)
        ensures
            outcome(r) == (keyform("CCASE"@, "CCASE requires at least one argument (keyform)"@, models(args@))),
    {
        keyform_exec("CCASE", "CCASE requires at least one argument (keyform)", args)
    }
}



/// ECASE - Exhaustive case
pub struct EcaseTool;

impl Tool for EcaseTool {
    open spec fn names_itself(&self) -> bool {
        true
    }

    open spec fn spec_name(&self) -> Seq<char> {
        "ECASE"@
    }

    open spec fn admits(&self, args: Seq<Val>) -> bool {
        true
    }

    fn name(&self) -> &str {
        "ECASE"
    }

    fn description(&self) -> (r: &str)
        ensures
            r@ == "Exhaustive case (error if no match)"@,
    {
        "Exhaustive case (error if no match)"
    }

    fn execute(&self, args: &[Value]) -> (r: Result<Value, Error>)
        ensures
            outcome(r) == (keyform("ECASE"@, "ECASE requires at least one argument (keyform)"@, models(args@))),
    {
        keyform_exec("ECASE", "ECASE requires at least one argument (keyform)", args)
    }
}



/// CTYPECASE - Correctable typecase
pub struct CtypecaseTool;

impl Tool for CtypecaseTool {
    open spec fn names_itself(&self) -> bool {
        true
    }

    open spec fn spec_name(&self) -> Seq<char> {
        "CTYPECASE"@
    }

    open spec fn admits(&self, args: Seq<Val>) -> bool {
        true
    }

    fn name(&self) -> &str {
        "CTYPECASE"
    }

    fn description(&self) -> (r: &str)
        ensures
            r@ == "Correctable typecase"@,
    {
        "Correctable typecase"
    }

    fn execute(&self, args: &[Value]) -> (r: Result<Value, Error>)
        ensures
            outcome(r) == (keyform("CTYPECASE"@, "CTYPECASE requires at least one argument (keyplace)"@, models(args@))),
    {
        keyform_exec("CTYPECASE", "CTYPECASE requires at least one argument (keyplace)", args)
    }
}



/// ETYPECASE - Exhaustive typecase
pub struct EtypecaseTool;

impl Tool for EtypecaseTool {
    open spec fn names_itself(&self) -> bool {
        true
    }

    open spec fn spec_name(&self) -> Seq<char> {
        "ETYPECASE"@
    }

    open spec fn admits(&self, args: Seq<Val>) -> bool {
        true
    }

    fn name(&self) -> &str {
        "ETYPECASE"
    }

    fn description(&self) -> (r: &str)
        ensures
            r@ == "Exhaustive typecase (error if no match)"@,
    {
        "Exhaustive typecase (error if no match)"
    }

    fn execute(&self, args: &[Value]) -> (r: Result<Value, Error>)
        ensures
            outcome(r) == (keyform("ETYPECASE"@, "ETYPECASE requires at least one argument (keyform)"@, models(args@))),
    {
        keyform_exec("ETYPECASE", "ETYPECASE requires at least one argument (keyform)", args)
    }
}



/// UNLESS - Execute unless condition is true
pub struct UnlessTool;

impl Tool for UnlessTool {
    open spec fn names_itself(&self) -> bool {
        true
    }

    open spec fn spec_name(&self) -> Seq<char> {
        "UNLESS"@
    }

    open spec fn admits(&self, args: Seq<Val>) -> bool {
        true
    }

    fn name(&self) -> &str {
        "UNLESS"
    }

    fn description(&self) -> (r: &str)
        ensures
            r@ == "Execute body unless condition is true"@,
    {
        "Execute body unless condition is true"
    }

    fn execute(&self, args: &[Value]) -> (r: Result<Value, Error>)
        ensures
            outcome(r) == (yields(if args@.len() > 0 && !truthy(models(args@)[0]) { last_of_body(models(args@)) } else { Val::Null })),
    {
        if args.len() == 0 {
            return Ok(Value::Null);
        }
        if !args[0].is_truthy() {
            Ok(last_of_body_exec(args))
        } else {
            Ok(Value::Null)
        }
    }
}



/// WHEN - Execute when condition is true
pub struct WhenTool;

impl Tool for WhenTool {
    open spec fn names_itself(&self) -> bool {
        true
    }

    open spec fn spec_name(&self) -> Seq<char> {
        "WHEN"@
    }

    open spec fn admits(&self, args: Seq<Val>) -> bool {
        true
    }

    fn name(&self) -> &str {
        "WHEN"
    }

    fn description(&self) -> (r: &str)
        ensures
            r@ == "Execute body when condition is true"@,
    {
        "Execute body when condition is true"
    }

    fn execute(&self, args: &[Value]) -> (r: Result<Value, Error>)
        ensures
            outcome(r) == (yields(if args@.len() > 0 && truthy(models(args@)[0]) { last_of_body(models(args@)) } else { Val::Null })),
    {
        if args.len() == 0 {
            return Ok(Value::Null);
        }
        if args[0].is_truthy() {
            Ok(last_of_body_exec(args))
        } else {
            Ok(Value::Null)
        }
    }
}



/// COND - Multi-clause conditional
pub struct CondTool;

impl Tool for CondTool {
    open spec fn names_itself(&self) -> bool {
        true
    }

    open spec fn spec_name(&self) -> Seq<char> {
        "COND"@
    }

    open spec fn admits(&self, args: Seq<Val>) -> bool {
        true
    }

    fn name(&self) -> &str {
        "COND"
    }

    fn description(&self) -> (r: &str)
        ensures
            r@ == "Multi-clause conditional"@,
    {
        "Multi-clause conditional"
    }

    fn execute(&self, args: &[Value]) -> (r: Result<Value, Error>)
        ensures
            outcome(r) == (yields(if args@.len() == 0 { Val::Null } else {
                match models(args@)[0] {
                    Val::Arr(c) => if c.len() > 0 { c.last() } else { models(args@)[0] },
                    v => v,
                }
            })),
    {
        if args.len() == 0 {
            return Ok(Value::Null);
        }
        match &args[0] {
            Value::Array(clause) => {
                assert(models(clause@).len() == clause@.len());
                if clause.len() > 0 {
                    Ok(clause[clause.len() - 1].deep_copy())
                } else {
                    Ok(args[0].deep_copy())
                }
            },
            v => Ok(v.deep_copy()),
        }
    }
}



/// OR - Logical OR with short-circuit
pub struct OrControlTool;

impl Tool for OrControlTool {
    open spec fn names_itself(&self) -> bool {
        true
    }

    open spec fn spec_name(&self) -> Seq<char> {
        "OR"@
    }

    open spec fn admits(&self, args: Seq<Val>) -> bool {
        true
    }

    fn name(&self) -> &str {
        "OR"
    }

    fn description(&self) -> (r: &str)
        ensures
            r@ == "Logical OR with short-circuit evaluation"@,
    {
        "Logical OR with short-circuit evaluation"
    }

    fn execute(&self, args: &[Value]) -> (r: Result<Value, Error>)
        ensures
            outcome(r) == (yields(first_truthy(models(args@)))),
    {
        Ok(first_truthy_exec(args))
    }
}



/// AND - Logical AND with short-circuit
pub struct AndControlTool;

impl Tool for AndControlTool {
    open spec fn names_itself(&self) -> bool {
        true
    }

    open spec fn spec_name(&self) -> Seq<char> {
        "AND"@
    }

    open spec fn admits(&self, args: Seq<Val>) -> bool {
        true
    }

    fn name(&self) -> &str {
        "AND"
    }

    fn description(&self) -> (r: &str)
        ensures
            r@ == "Logical AND with short-circuit evaluation"@,
    {
        "Logical AND with short-circuit evaluation"
    }

    fn execute(&self, args: &[Value]) -> (r: Result<Value, Error>)
        ensures
            outcome(r) == (yields(all_truthy(models(args@)))),
    {
        if !none_false(args) {
            return Ok(Value::Bool(false));
        }
        if args.len() == 0 {
            Ok(Value::Bool(true))
        } else {
            Ok(args[args.len() - 1].deep_copy())
        }
    }
}



/// The arguments joined into one array: the elements of array arguments, and
/// every other argument as itself.
pub open spec fn spliced(a: Seq<Val>) -> Seq<Val>
    decreases a.len(),
{
    if a.len() == 0 {
        Seq::empty()
    } else {
        spliced(a.drop_last()) + match a.last() {
            Val::Arr(s) => s,
            v => seq![v],
        }
    }
}

/// The elements of the array arguments joined into one array; other arguments are skipped.
pub open spec fn arrays_joined(a: Seq<Val>) -> Seq<Val>
    decreases a.len(),
{
    if a.len() == 0 {
        Seq::empty()
    } else {
        arrays_joined(a.drop_last()) + match a.last() {
            Val::Arr(s) => s,
            _ => Seq::empty(),
        }
    }
}

/// The arguments joined into one array; with `keep_others`, a non-array
/// argument is kept as itself, else skipped.
pub fn splice_exec(args: &[Value], keep_others: bool) -> (r: Vec<Value>)
    ensures
        models(r@) == if keep_others { spliced(models(args@)) } else { arrays_joined(models(args@)) },
{
    let ghost a = models(args@);
    let mut out: Vec<Value> = Vec::new();
    let mut i: usize = 0;
    assert(a.take(0) =~= Seq::<Val>::empty());
    assert(models(out@) =~= Seq::<Val>::empty());
    while i < args.len()
        invariant
            a == models(args@),
            i <= args@.len(),
            models(out@) == if keep_others { spliced(a.take(i as int)) } else { arrays_joined(a.take(i as int)) },
        decreases args.len() - i,
    {
        assert(a.take(i + 1).drop_last() =~= a.take(i as int));
        assert(a.take(i + 1).last() == args@[i as int].model());
        let ghost prev = models(out@);
        match &args[i] {
            Value::Array(arr) => {
                let mut c = copy_values(arr);
                out.append(&mut c);
                assert(models(out@) =~= prev + models(arr@));
            },
            v => {
                if keep_others {
                    out.push(v.deep_copy());
                    assert(models(out@) =~= prev + seq![v.model()]);
                } else {
                    assert(models(out@) =~= prev + Seq::<Val>::empty());
                }
            },
        }
        i = i + 1;
    }
    assert(a.take(i as int) =~= a);
    out
}

/// The first true argument, or false.
pub fn first_truthy_exec(args: &[Value]) -> (r: Value)
    ensures
        r.model() == first_truthy(models(args@)),
{
    let mut i: usize = 0;
    let ghost a = models(args@);
    assert(a.skip(0) =~= a);
    while i < args.len()
        invariant
            a == models(args@),
            i <= args@.len(),
            first_truthy(a) == first_truthy(a.skip(i as int)),
        decreases args.len() - i,
    {
        assert(a.skip(i as int).drop_first() =~= a.skip(i + 1));
        assert(a.skip(i as int)[0] == args@[i as int].model());
        if args[i].is_truthy() {
            return args[i].deep_copy();
        }
        i = i + 1;
    }
    assert(a.skip(i as int) =~= Seq::<Val>::empty());
    Value::Bool(false)
}

/// Whether no argument is false.
pub fn none_false(args: &[Value]) -> (b: bool)
    ensures
        b == !exists|j: int| 0 <= j < args@.len() && !truthy(#[trigger] models(args@)[j]),
{
    let mut i: usize = 0;
    while i < args.len()
        invariant
            i <= args@.len(),
            forall|j: int| 0 <= j < i ==> truthy(#[trigger] models(args@)[j]),
        decreases args.len() - i,
    {
        if !args[i].is_truthy() {
            assert(!truthy(models(args@)[i as int]));
            return false;
        }
        i = i + 1;
    }
    true
}

/// Whether no argument is true.
pub fn none_true(args: &[Value]) -> (b: bool)
    ensures
        b == !exists|j: int| 0 <= j < args@.len() && truthy(#[trigger] models(args@)[j]),
{
    let mut i: usize = 0;
    while i < args.len()
        invariant
            i <= args@.len(),
            forall|j: int| 0 <= j < i ==> !truthy(#[trigger] models(args@)[j]),
        decreases args.len() - i,
    {
        if args[i].is_truthy() {
            assert(truthy(models(args@)[i as int]));
            return false;
        }
        i = i + 1;
    }
    true
}
} // verus!
