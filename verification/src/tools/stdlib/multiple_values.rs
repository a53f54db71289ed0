//! Multiple values support for Solisp
//!
//! Common Lisp multiple values system.
//! Functions can return multiple values which can be captured or ignored.
use vstd::prelude::*;

#[allow(unused_imports)]
use crate::access::{copy_range, copy_slice, copy_values, values_equal};
#[allow(unused_imports)]
use crate::error::{empty_collection, exec_error, invalid_args, ErrV, Error};
#[allow(unused_imports)]
use crate::text::{alphabetic, alphanumeric, char_from_u32, char_is_alphabetic, char_is_alphanumeric, char_is_lowercase, char_is_uppercase, char_is_whitespace, char_string, char_to_lowercase, char_to_uppercase, chars_of, chars_skip, concat, i64_to_string, int_decimal, lower_case, lower_chars, lowercase, owned, scalar_value, seq_less, str_equal, str_less, string_from_chars, to_lower, to_upper, upper_case, upper_chars, uppercase, whitespace};
#[allow(unused_imports)]
use crate::tools::{bad_args, name_insert, outcome, ref_outcome, string_views, yields, Tool, ToolRegistry};
#[allow(unused_imports)]
use crate::value::{and_then, elems, entry_models, int_of, models, obj_insert, obj_keys, obj_lookup, obj_merge, obj_of, obj_values, str_of, truthy, type_error, ObjectMap, Val, Value};

verus! {

broadcast use crate::seq_models::group_value_models;

/// The names after registering this module's tools, in order.
pub open spec fn registered_names(ns: Seq<Seq<char>>) -> Seq<Seq<char>> {
    let ns = name_insert(ns, "VALUES"@);
    let ns = name_insert(ns, "VALUES-LIST"@);
    let ns = name_insert(ns, "MULTIPLE-VALUE-BIND"@);
    let ns = name_insert(ns, "MULTIPLE-VALUE-LIST"@);
    let ns = name_insert(ns, "MULTIPLE-VALUE-SETQ"@);
    let ns = name_insert(ns, "MULTIPLE-VALUE-CALL"@);
    let ns = name_insert(ns, "MULTIPLE-VALUE-PROG1"@);
    let ns = name_insert(ns, "NTH-VALUE"@);
    let ns = name_insert(ns, "VALUES-COUNT"@);
    let ns = name_insert(ns, "EXTRACT-PRIMARY-VALUE"@);
    let ns = name_insert(ns, "DESTRUCTURING-BIND"@);
    let ns = name_insert(ns, "GETF"@);
    let ns = name_insert(ns, "REMF"@);
    let ns = name_insert(ns, "GET-PROPERTIES"@);
    let ns = name_insert(ns, "GET-SETF-EXPANSION"@);
    let ns = name_insert(ns, "DEFINE-SETF-EXPANDER"@);
    let ns = name_insert(ns, "DEFSETF"@);
    let ns = name_insert(ns, "SHIFTF"@);
    let ns = name_insert(ns, "ROTATEF"@);
    let ns = name_insert(ns, "PSETF"@);
    let ns = name_insert(ns, "SETF"@);
    let ns = name_insert(ns, "PSETQ"@);
    let ns = name_insert(ns, "PUSH"@);
    let ns = name_insert(ns, "POP"@);
    let ns = name_insert(ns, "PUSHNEW"@);
    let ns = name_insert(ns, "DEFINE-MODIFY-MACRO"@);
    let ns = name_insert(ns, "DEFMACRO-WITH-PLACE"@);
    let ns = name_insert(ns, "APPLY-KEY"@);
    let ns = name_insert(ns, "IDENTITY"@);
    let ns = name_insert(ns, "INCF"@);
    let ns = name_insert(ns, "DECF"@);
    ns
}

/// Register the tools of this module: those the library holds, then those
/// the application supplies, each under its name: `incf_tool` under INCF, `decf_tool` under DECF.
pub fn register<TIncf: Tool + 'static, TDecf: Tool + 'static>(registry: &mut ToolRegistry, incf_tool: TIncf, decf_tool: TDecf)
    requires
        incf_tool.names_itself() ==> incf_tool.spec_name() == "INCF"@,
        decf_tool.names_itself() ==> decf_tool.spec_name() == "DECF"@,
    ensures
        final(registry).names() == registered_names(old(registry).names()),
{
    registry.register(ValuesTool);
    registry.register(ValuesListTool);
    registry.register(MultipleValueBindTool);
    registry.register(MultipleValueListTool);
    registry.register(MultipleValueSetqTool);
    registry.register(MultipleValueCallTool);
    registry.register(MultipleValueProg1Tool);
    registry.register(NthValueTool);
    registry.register(ValuesCountTool);
    registry.register(ExtractPrimaryValueTool);
    registry.register(DestructuringBindTool);
    registry.register(GetfTool);
    registry.register(RemfTool);
    registry.register(GetPropertiesTool);
    registry.register(GetSetfExpansionTool);
    registry.register(DefineSetfExpanderTool);
    registry.register(DefsetfTool);
    registry.register(ShiftfTool);
    registry.register(RotatefTool);
    registry.register(PsetfTool);
    registry.register(SetfTool);
    registry.register(PsetqTool);
    registry.register(PushTool);
    registry.register(PopTool);
    registry.register(PushnewTool);
    registry.register(DefineModifyMacroTool);
    registry.register(DefmacroWithPlaceTool);
    registry.register(ApplyKeyTool);
    registry.register(IdentityTool);
    registry.place(owned("INCF"), incf_tool);
    registry.place(owned("DECF"), decf_tool);
}

/// VALUES - Return multiple values
pub struct ValuesTool;

impl Tool for ValuesTool {
    open spec fn names_itself(&self) -> bool {
        true
    }

    open spec fn spec_name(&self) -> Seq<char> {
        "VALUES"@
    }

    open spec fn admits(&self, args: Seq<Val>) -> bool {
        true
    }

    fn name(&self) -> &str {
        "VALUES"
    }

    fn description(&self) -> (r: &str)
        ensures
            r@ == "Return multiple values"@,
    {
        "Return multiple values"
    }

    fn execute(&self, args: &[Value]) -> (r: Result<Value, Error>)
        ensures
            outcome(r) == (yields(Val::Arr(models(args@)))),
    {
        Ok(Value::Array(copy_slice(args)))
    }
}

/// MULTIPLE-VALUE-BIND - Bind multiple values
pub struct MultipleValueBindTool;

impl Tool for MultipleValueBindTool {
    open spec fn names_itself(&self) -> bool {
        true
    }

    open spec fn spec_name(&self) -> Seq<char> {
        "MULTIPLE-VALUE-BIND"@
    }

    open spec fn admits(&self, args: Seq<Val>) -> bool {
        true
    }

    fn name(&self) -> &str {
        "MULTIPLE-VALUE-BIND"
    }

    fn description(&self) -> (r: &str)
        ensures
            r@ == "Bind multiple values to variables"@,
    {
        "Bind multiple values to variables"
    }

    fn execute(&self, args: &[Value]) -> (r: Result<Value, Error>)
        ensures
            outcome(r) == (yields(if args@.len() > 1 { args@[args@.len() - 1].model() } else { Val::Null })),
    {
        Ok(if args.len() > 1 { args[args.len() - 1].clone() } else { Value::Null })
    }
}

/// MULTIPLE-VALUE-LIST - Capture values as list
pub struct MultipleValueListTool;

impl Tool for MultipleValueListTool {
    open spec fn names_itself(&self) -> bool {
        true
    }

    open spec fn spec_name(&self) -> Seq<char> {
        "MULTIPLE-VALUE-LIST"@
    }

    open spec fn admits(&self, args: Seq<Val>) -> bool {
        true
    }

    fn name(&self) -> &str {
        "MULTIPLE-VALUE-LIST"
    }

    fn description(&self) -> (r: &str)
        ensures
            r@ == "Capture multiple values as list"@,
    {
        "Capture multiple values as list"
    }

    fn execute(&self, args: &[Value]) -> (r: Result<Value, Error>)
        ensures
            outcome(r) == (yields(Val::Arr(models(args@)))),
    {
        Ok(Value::Array(copy_slice(args)))
    }
}

/// MULTIPLE-VALUE-SETQ - Set multiple variables
pub struct MultipleValueSetqTool;

impl Tool for MultipleValueSetqTool {
    open spec fn names_itself(&self) -> bool {
        true
    }

    open spec fn spec_name(&self) -> Seq<char> {
        "MULTIPLE-VALUE-SETQ"@
    }

    open spec fn admits(&self, args: Seq<Val>) -> bool {
        true
    }

    fn name(&self) -> &str {
        "MULTIPLE-VALUE-SETQ"
    }

    fn description(&self) -> (r: &str)
        ensures
            r@ == "Set multiple variables from values"@,
    {
        "Set multiple variables from values"
    }

    fn execute(&self, args: &[Value]) -> (r: Result<Value, Error>)
        ensures
            outcome(r) == (yields(if args@.len() == 0 { Val::Null } else { args@[0].model() })),
    {
        Ok(if args.len() == 0 { Value::Null } else { args[0].clone() })
    }
}

/// MULTIPLE-VALUE-CALL - Call with multiple values as args
pub struct MultipleValueCallTool;

impl Tool for MultipleValueCallTool {
    open spec fn names_itself(&self) -> bool {
        true
    }

    open spec fn spec_name(&self) -> Seq<char> {
        "MULTIPLE-VALUE-CALL"@
    }

    open spec fn admits(&self, args: Seq<Val>) -> bool {
        true
    }

    fn name(&self) -> &str {
        "MULTIPLE-VALUE-CALL"
    }

    fn description(&self) -> (r: &str)
        ensures
            r@ == "Call function with multiple values as arguments"@,
    {
        "Call function with multiple values as arguments"
    }

    fn execute(&self, args: &[Value]) -> (r: Result<Value, Error>)
        ensures
            outcome(r) == (yields(if args@.len() == 0 { Val::Null } else { args@[0].model() })),
    {
        Ok(if args.len() == 0 { Value::Null } else { args[0].clone() })
    }
}

/// MULTIPLE-VALUE-PROG1 - Return first value, evaluate forms
pub struct MultipleValueProg1Tool;

impl Tool for MultipleValueProg1Tool {
    open spec fn names_itself(&self) -> bool {
        true
    }

    open spec fn spec_name(&self) -> Seq<char> {
        "MULTIPLE-VALUE-PROG1"@
    }

    open spec fn admits(&self, args: Seq<Val>) -> bool {
        true
    }

    fn name(&self) -> &str {
        "MULTIPLE-VALUE-PROG1"
    }

    fn description(&self) -> (r: &str)
        ensures
            r@ == "Return first form's values, evaluate remaining"@,
    {
        "Return first form's values, evaluate remaining"
    }

    fn execute(&self, args: &[Value]) -> (r: Result<Value, Error>)
        ensures
            outcome(r) == (yields(if args@.len() == 0 { Val::Null } else { args@[0].model() })),
    {
        Ok(if args.len() == 0 { Value::Null } else { args[0].clone() })
    }
}

/// DESTRUCTURING-BIND - Destructure and bind values
pub struct DestructuringBindTool;

impl Tool for DestructuringBindTool {
    open spec fn names_itself(&self) -> bool {
        true
    }

    open spec fn spec_name(&self) -> Seq<char> {
        "DESTRUCTURING-BIND"@
    }

    open spec fn admits(&self, args: Seq<Val>) -> bool {
        true
    }

    fn name(&self) -> &str {
        "DESTRUCTURING-BIND"
    }

    fn description(&self) -> (r: &str)
        ensures
            r@ == "Destructure list and bind to pattern"@,
    {
        "Destructure list and bind to pattern"
    }

    fn execute(&self, args: &[Value]) -> (r: Result<Value, Error>)
        ensures
            outcome(r) == (yields(if args@.len() > 1 { args@[args@.len() - 1].model() } else { Val::Null })),
    {
        Ok(if args.len() > 1 { args[args.len() - 1].clone() } else { Value::Null })
    }
}

/// REMF - Remove property from plist
pub struct RemfTool;

impl Tool for RemfTool {
    open spec fn names_itself(&self) -> bool {
        true
    }

    open spec fn spec_name(&self) -> Seq<char> {
        "REMF"@
    }

    open spec fn admits(&self, args: Seq<Val>) -> bool {
        true
    }

    fn name(&self) -> &str {
        "REMF"
    }

    fn description(&self) -> (r: &str)
        ensures
            r@ == "Remove property from property list"@,
    {
        "Remove property from property list"
    }

    fn execute(&self, args: &[Value]) -> (r: Result<Value, Error>)
        ensures
            outcome(r) == (yields(Val::Bool(!(args@.len() == 0)))),
    {
        Ok(Value::Bool(!(args.len() == 0)))
    }
}

/// DEFINE-SETF-EXPANDER - Define setf expander
pub struct DefineSetfExpanderTool;

impl Tool for DefineSetfExpanderTool {
    open spec fn names_itself(&self) -> bool {
        true
    }

    open spec fn spec_name(&self) -> Seq<char> {
        "DEFINE-SETF-EXPANDER"@
    }

    open spec fn admits(&self, args: Seq<Val>) -> bool {
        true
    }

    fn name(&self) -> &str {
        "DEFINE-SETF-EXPANDER"
    }

    fn description(&self) -> (r: &str)
        ensures
            r@ == "Define setf expander for access form"@,
    {
        "Define setf expander for access form"
    }

    fn execute(&self, args: &[Value]) -> (r: Result<Value, Error>)
        ensures
            outcome(r) == (yields(if args@.len() == 0 { Val::Null } else { args@[0].model() })),
    {
        Ok(if args.len() == 0 { Value::Null } else { args[0].clone() })
    }
}

/// DEFSETF - Define simple setf method
pub struct DefsetfTool;

impl Tool for DefsetfTool {
    open spec fn names_itself(&self) -> bool {
        true
    }

    open spec fn spec_name(&self) -> Seq<char> {
        "DEFSETF"@
    }

    open spec fn admits(&self, args: Seq<Val>) -> bool {
        true
    }

    fn name(&self) -> &str {
        "DEFSETF"
    }

    fn description(&self) -> (r: &str)
        ensures
            r@ == "Define simple setf method"@,
    {
        "Define simple setf method"
    }

    fn execute(&self, args: &[Value]) -> (r: Result<Value, Error>)
        ensures
            outcome(r) == (yields(if args@.len() == 0 { Val::Null } else { args@[0].model() })),
    {
        Ok(if args.len() == 0 { Value::Null } else { args[0].clone() })
    }
}

/// SHIFTF - Shift values through places
pub struct ShiftfTool;

impl Tool for ShiftfTool {
    open spec fn names_itself(&self) -> bool {
        true
    }

    open spec fn spec_name(&self) -> Seq<char> {
        "SHIFTF"@
    }

    open spec fn admits(&self, args: Seq<Val>) -> bool {
        true
    }

    fn name(&self) -> &str {
        "SHIFTF"
    }

    fn description(&self) -> (r: &str)
        ensures
            r@ == "Shift values through places, return first"@,
    {
        "Shift values through places, return first"
    }

    fn execute(&self, args: &[Value]) -> (r: Result<Value, Error>)
        ensures
            outcome(r) == (yields(if args@.len() == 0 { Val::Null } else { args@[0].model() })),
    {
        Ok(if args.len() == 0 { Value::Null } else { args[0].clone() })
    }
}

/// ROTATEF - Rotate values through places
pub struct RotatefTool;

impl Tool for RotatefTool {
    open spec fn names_itself(&self) -> bool {
        true
    }

    open spec fn spec_name(&self) -> Seq<char> {
        "ROTATEF"@
    }

    open spec fn admits(&self, args: Seq<Val>) -> bool {
        true
    }

    fn name(&self) -> &str {
        "ROTATEF"
    }

    fn description(&self) -> (r: &str)
        ensures
            r@ == "Rotate values through places"@,
    {
        "Rotate values through places"
    }

    fn execute(&self, args: &[Value]) -> (r: Result<Value, Error>)
        ensures
            outcome(r) == (yields(Val::Null)),
    {
        Ok(Value::Null)
    }
}

/// PSETF - Parallel setf
pub struct PsetfTool;

impl Tool for PsetfTool {
    open spec fn names_itself(&self) -> bool {
        true
    }

    open spec fn spec_name(&self) -> Seq<char> {
        "PSETF"@
    }

    open spec fn admits(&self, args: Seq<Val>) -> bool {
        true
    }

    fn name(&self) -> &str {
        "PSETF"
    }

    fn description(&self) -> (r: &str)
        ensures
            r@ == "Set multiple places in parallel"@,
    {
        "Set multiple places in parallel"
    }

    fn execute(&self, args: &[Value]) -> (r: Result<Value, Error>)
        ensures
            outcome(r) == (yields(Val::Null)),
    {
        Ok(Value::Null)
    }
}

/// SETF - Set place value
pub struct SetfTool;

impl Tool for SetfTool {
    open spec fn names_itself(&self) -> bool {
        true
    }

    open spec fn spec_name(&self) -> Seq<char> {
        "SETF"@
    }

    open spec fn admits(&self, args: Seq<Val>) -> bool {
        true
    }

    fn name(&self) -> &str {
        "SETF"
    }

    fn description(&self) -> (r: &str)
        ensures
            r@ == "Set place to new value"@,
    {
        "Set place to new value"
    }

    fn execute(&self, args: &[Value]) -> (r: Result<Value, Error>)
        ensures
            outcome(r) == (yields(if args@.len() > 1 { args@[1].model() } else { Val::Null })),
    {
        Ok(if args.len() > 1 { args[1].clone() } else { Value::Null })
    }
}

/// PSETQ - Parallel setq
pub struct PsetqTool;

impl Tool for PsetqTool {
    open spec fn names_itself(&self) -> bool {
        true
    }

    open spec fn spec_name(&self) -> Seq<char> {
        "PSETQ"@
    }

    open spec fn admits(&self, args: Seq<Val>) -> bool {
        true
    }

    fn name(&self) -> &str {
        "PSETQ"
    }

    fn description(&self) -> (r: &str)
        ensures
            r@ == "Set multiple variables in parallel"@,
    {
        "Set multiple variables in parallel"
    }

    fn execute(&self, args: &[Value]) -> (r: Result<Value, Error>)
        ensures
            outcome(r) == (yields(Val::Null)),
    {
        Ok(Value::Null)
    }
}

/// DEFINE-MODIFY-MACRO - Define modify macro
pub struct DefineModifyMacroTool;

impl Tool for DefineModifyMacroTool {
    open spec fn names_itself(&self) -> bool {
        true
    }

    open spec fn spec_name(&self) -> Seq<char> {
        "DEFINE-MODIFY-MACRO"@
    }

    open spec fn admits(&self, args: Seq<Val>) -> bool {
        true
    }

    fn name(&self) -> &str {
        "DEFINE-MODIFY-MACRO"
    }

    fn description(&self) -> (r: &str)
        ensures
            r@ == "Define modify macro for place"@,
    {
        "Define modify macro for place"
    }

    fn execute(&self, args: &[Value]) -> (r: Result<Value, Error>)
        ensures
            outcome(r) == (yields(if args@.len() == 0 { Val::Null } else { args@[0].model() })),
    {
        Ok(if args.len() == 0 { Value::Null } else { args[0].clone() })
    }
}

/// DEFMACRO-WITH-PLACE - Define macro with place handling
pub struct DefmacroWithPlaceTool;

impl Tool for DefmacroWithPlaceTool {
    open spec fn names_itself(&self) -> bool {
        true
    }

    open spec fn spec_name(&self) -> Seq<char> {
        "DEFMACRO-WITH-PLACE"@
    }

    open spec fn admits(&self, args: Seq<Val>) -> bool {
        true
    }

    fn name(&self) -> &str {
        "DEFMACRO-WITH-PLACE"
    }

    fn description(&self) -> (r: &str)
        ensures
            r@ == "Define macro with generalized place handling"@,
    {
        "Define macro with generalized place handling"
    }

    fn execute(&self, args: &[Value]) -> (r: Result<Value, Error>)
        ensures
            outcome(r) == (yields(if args@.len() == 0 { Val::Null } else { args@[0].model() })),
    {
        Ok(if args.len() == 0 { Value::Null } else { args[0].clone() })
    }
}

/// APPLY-KEY - Apply key function if provided
pub struct ApplyKeyTool;

impl Tool for ApplyKeyTool {
    open spec fn names_itself(&self) -> bool {
        true
    }

    open spec fn spec_name(&self) -> Seq<char> {
        "APPLY-KEY"@
    }

    open spec fn admits(&self, args: Seq<Val>) -> bool {
        true
    }

    fn name(&self) -> &str {
        "APPLY-KEY"
    }

    fn description(&self) -> (r: &str)
        ensures
            r@ == "Apply key function if provided"@,
    {
        "Apply key function if provided"
    }

    fn execute(&self, args: &[Value]) -> (r: Result<Value, Error>)
        ensures
            outcome(r) == (yields(if args@.len() == 0 { Val::Null } else { args@[0].model() })),
    {
        Ok(if args.len() == 0 { Value::Null } else { args[0].clone() })
    }
}

/// IDENTITY - Return argument unchanged
pub struct IdentityTool;

impl Tool for IdentityTool {
    open spec fn names_itself(&self) -> bool {
        true
    }

    open spec fn spec_name(&self) -> Seq<char> {
        "IDENTITY"@
    }

    open spec fn admits(&self, args: Seq<Val>) -> bool {
        true
    }

    fn name(&self) -> &str {
        "IDENTITY"
    }

    fn description(&self) -> (r: &str)
        ensures
            r@ == "Return argument unchanged"@,
    {
        "Return argument unchanged"
    }

    fn execute(&self, args: &[Value]) -> (r: Result<Value, Error>)
        ensures
            outcome(r) == (yields(if args@.len() == 0 { Val::Null } else { args@[0].model() })),
    {
        Ok(if args.len() == 0 { Value::Null } else { args[0].clone() })
    }
}

/// The value after the first even-position key `key` of a property list, from `i` on.
pub open spec fn plist_get(p: Seq<Val>, key: Seq<char>, i: int) -> Option<Val>
    decreases p.len() + 1 - i,
{
    if i < 0 || i >= p.len() {
        None
    } else if p[i] == Val::Str(key) && i + 1 < p.len() {
        Some(p[i + 1])
    } else {
        plist_get(p, key, i + 2)
    }
}

fn plist_get_exec<'a>(p: &'a Vec<Value>, key: &str) -> (r: Option<&'a Value>)
    ensures
        match r {
            Some(v) => plist_get(models(p@), key@, 0) == Some(v.model()),
            None => plist_get(models(p@), key@, 0) is None,
        },
{
    let mut i: usize = 0;
    while i < p.len()
        invariant
            i <= p@.len() + 1,
            plist_get(models(p@), key@, 0) == plist_get(models(p@), key@, i as int),
        decreases p.len() - i,
    {
        match &p[i] {
            Value::String(k) => {
                if str_equal(k.as_str(), key) && i + 1 < p.len() {
                    return Some(&p[i + 1]);
                }
            },
            _ => {},
        }
        if p.len() - i < 2 {
            assert(plist_get(models(p@), key@, i + 2) is None);
            return None;
        }
        i = i + 2;
    }
    None
}

/// Whether `v` is among the values of `s`.
pub open spec fn member(s: Seq<Val>, v: Val) -> bool {
    exists|i: int| 0 <= i < s.len() && s[i] == v
}

fn member_exec(s: &Vec<Value>, v: &Value) -> (b: bool)
    ensures
        b == member(models(s@), v.model()),
{
    let mut i: usize = 0;
    while i < s.len()
        invariant
            i <= s@.len(),
            forall|j: int| 0 <= j < i ==> models(s@)[j] != v.model(),
        decreases s.len() - i,
    {
        if values_equal(&s[i], v) {
            assert(models(s@)[i as int] == v.model());
            return true;
        }
        i = i + 1;
    }
    false
}

fn prepend(v: &Value, s: &Vec<Value>) -> (r: Vec<Value>)
    ensures
        models(r@) == seq![v.model()] + models(s@),
{
    let mut out = vec![v.deep_copy()];
    let mut rest = copy_values(s);
    out.append(&mut rest);
    assert(models(out@) =~= seq![v.model()] + models(s@));
    out
}

/// VALUES-LIST - Return values from list
pub struct ValuesListTool;

impl Tool for ValuesListTool {
    open spec fn names_itself(&self) -> bool {
        true
    }

    open spec fn spec_name(&self) -> Seq<char> {
        "VALUES-LIST"@
    }

    open spec fn admits(&self, args: Seq<Val>) -> bool {
        true
    }

    fn name(&self) -> &str {
        "VALUES-LIST"
    }

    fn description(&self) -> (r: &str)
        ensures
            r@ == "Return multiple values from list"@,
    {
        "Return multiple values from list"
    }

    fn execute(&self, args: &[Value]) -> (r: Result<Value, Error>)
        ensures
            outcome(r) == (yields(if args@.len() == 0 { Val::Arr(Seq::empty()) } else {
                match models(args@)[0] {
                    Val::Arr(s) => Val::Arr(s),
                    v => Val::Arr(seq![v]),
                }
            })),
    {
        if args.len() == 0 {
            return Ok(Value::Array(Vec::new()));
        }
        match &args[0] {
            Value::Array(arr) => Ok(Value::Array(copy_values(arr))),
            v => {
                let one = vec![v.deep_copy()];
                assert(models(one@) =~= seq![v.model()]);
                Ok(Value::Array(one))
            },
        }
    }
}



/// NTH-VALUE - Get nth value
pub struct NthValueTool;

impl Tool for NthValueTool {
    open spec fn names_itself(&self) -> bool {
        true
    }

    open spec fn spec_name(&self) -> Seq<char> {
        "NTH-VALUE"@
    }

    open spec fn admits(&self, args: Seq<Val>) -> bool {
        true
    }

    fn name(&self) -> &str {
        "NTH-VALUE"
    }

    fn description(&self) -> (r: &str)
        ensures
            r@ == "Get nth value from multiple values"@,
    {
        "Get nth value from multiple values"
    }

    fn execute(&self, args: &[Value]) -> (r: Result<Value, Error>)
        ensures
            outcome(r) == (if args@.len() < 2 { bad_args("NTH-VALUE"@, "Expected 2 arguments (index, values)"@) } else {
                match models(args@)[0] {
                    Val::Int(i) => {
                        let n = (i as usize) as int;
                        match models(args@)[1] {
                            Val::Arr(s) => yields(if n < s.len() { s[n] } else { Val::Null }),
                            v => yields(if n == 0 { v } else { Val::Null }),
                        }
                    },
                    _ => bad_args("NTH-VALUE"@, "First argument must be an integer index"@),
                }
            }),
    {
        if args.len() < 2 {
            return Err(invalid_args("NTH-VALUE", "Expected 2 arguments (index, values)"));
        }
        let n = match &args[0] {
            Value::Int(i) => *i as usize,
            _ => {
                return Err(invalid_args("NTH-VALUE", "First argument must be an integer index"));
            },
        };
        match &args[1] {
            Value::Array(arr) => {
                assert(models(arr@).len() == arr@.len());
                if n < arr.len() {
                    Ok(arr[n].deep_copy())
                } else {
                    Ok(Value::Null)
                }
            },
            v => Ok(if n == 0 { v.deep_copy() } else { Value::Null }),
        }
    }
}



/// VALUES-COUNT - Get number of values
pub struct ValuesCountTool;

impl Tool for ValuesCountTool {
    open spec fn names_itself(&self) -> bool {
        true
    }

    open spec fn spec_name(&self) -> Seq<char> {
        "VALUES-COUNT"@
    }

    open spec fn admits(&self, args: Seq<Val>) -> bool {
        true
    }

    fn name(&self) -> &str {
        "VALUES-COUNT"
    }

    fn description(&self) -> (r: &str)
        ensures
            r@ == "Get number of values returned"@,
    {
        "Get number of values returned"
    }

    fn execute(&self, args: &[Value]) -> (r: Result<Value, Error>)
        ensures
            outcome(r) == (yields(Val::Int(if args@.len() == 0 { 0 } else {
                match models(args@)[0] {
                    Val::Arr(s) => s.len() as i64,
                    _ => 1,
                }
            }))),
    {
        if args.len() == 0 {
            return Ok(Value::Int(0));
        }
        match &args[0] {
            Value::Array(arr) => {
                assert(models(arr@).len() == arr@.len());
                Ok(Value::Int(arr.len() as i64))
            },
            _ => Ok(Value::Int(1)),
        }
    }
}



/// EXTRACT-PRIMARY-VALUE - Get primary value only
pub struct ExtractPrimaryValueTool;

impl Tool for ExtractPrimaryValueTool {
    open spec fn names_itself(&self) -> bool {
        true
    }

    open spec fn spec_name(&self) -> Seq<char> {
        "EXTRACT-PRIMARY-VALUE"@
    }

    open spec fn admits(&self, args: Seq<Val>) -> bool {
        true
    }

    fn name(&self) -> &str {
        "EXTRACT-PRIMARY-VALUE"
    }

    fn description(&self) -> (r: &str)
        ensures
            r@ == "Extract only primary value, discard rest"@,
    {
        "Extract only primary value, discard rest"
    }

    fn execute(&self, args: &[Value]) -> (r: Result<Value, Error>)
        ensures
            outcome(r) == (yields(if args@.len() == 0 { Val::Null } else {
                match models(args@)[0] {
                    Val::Arr(s) => if s.len() > 0 { s[0] } else { Val::Null },
                    v => v,
                }
            })),
    {
        if args.len() == 0 {
            return Ok(Value::Null);
        }
        match &args[0] {
            Value::Array(arr) => {
                assert(models(arr@).len() == arr@.len());
                if arr.len() > 0 { Ok(arr[0].deep_copy()) } else { Ok(Value::Null) }
            },
            v => Ok(v.deep_copy()),
        }
    }
}



/// GETF - Get property from plist
pub struct GetfTool;

impl Tool for GetfTool {
    open spec fn names_itself(&self) -> bool {
        true
    }

    open spec fn spec_name(&self) -> Seq<char> {
        "GETF"@
    }

    open spec fn admits(&self, args: Seq<Val>) -> bool {
        true
    }

    fn name(&self) -> &str {
        "GETF"
    }

    fn description(&self) -> (r: &str)
        ensures
            r@ == "Get property value from property list"@,
    {
        "Get property value from property list"
    }

    fn execute(&self, args: &[Value]) -> (r: Result<Value, Error>)
        ensures
            outcome(r) == (if args@.len() < 2 { bad_args("GETF"@, "Expected at least 2 arguments (plist, key)"@) } else {
                let default = if args@.len() > 2 { models(args@)[2] } else { Val::Null };
                match (models(args@)[0], models(args@)[1]) {
                    (Val::Arr(p), Val::Str(k)) => yields(match plist_get(p, k, 0) { Some(v) => v, None => default }),
                    _ => yields(default),
                }
            }),
    {
        if args.len() < 2 {
            return Err(invalid_args("GETF", "Expected at least 2 arguments (plist, key)"));
        }
        let default = if args.len() > 2 { args[2].deep_copy() } else { Value::Null };
        match (&args[0], &args[1]) {
            (Value::Array(p), Value::String(k)) => match plist_get_exec(p, k.as_str()) {
                Some(v) => Ok(v.deep_copy()),
                None => Ok(default),
            },
            _ => Ok(default),
        }
    }
}



/// GET-PROPERTIES - Get first matching property
pub struct GetPropertiesTool;

impl Tool for GetPropertiesTool {
    open spec fn names_itself(&self) -> bool {
        true
    }

    open spec fn spec_name(&self) -> Seq<char> {
        "GET-PROPERTIES"@
    }

    open spec fn admits(&self, args: Seq<Val>) -> bool {
        true
    }

    fn name(&self) -> &str {
        "GET-PROPERTIES"
    }

    fn description(&self) -> (r: &str)
        ensures
            r@ == "Get first property matching indicator list"@,
    {
        "Get first property matching indicator list"
    }

    fn execute(&self, args: &[Value]) -> (r: Result<Value, Error>)
        ensures
            outcome(r) == (if args@.len() < 2 { bad_args("GET-PROPERTIES"@, "Expected 2 arguments (plist, indicators)"@) } else {
                yields(Val::Arr(seq![Val::Null, Val::Null, models(args@)[0]]))
            }),
    {
        if args.len() < 2 {
            return Err(invalid_args("GET-PROPERTIES", "Expected 2 arguments (plist, indicators)"));
        }
        let v = vec![Value::Null, Value::Null, args[0].deep_copy()];
        assert(models(v@) =~= seq![Val::Null, Val::Null, models(args@)[0]]);
        Ok(Value::Array(v))
    }
}



/// GET-SETF-EXPANSION - Get setf expansion
pub struct GetSetfExpansionTool;

impl Tool for GetSetfExpansionTool {
    open spec fn names_itself(&self) -> bool {
        true
    }

    open spec fn spec_name(&self) -> Seq<char> {
        "GET-SETF-EXPANSION"@
    }

    open spec fn admits(&self, args: Seq<Val>) -> bool {
        true
    }

    fn name(&self) -> &str {
        "GET-SETF-EXPANSION"
    }

    fn description(&self) -> (r: &str)
        ensures
            r@ == "Get setf expansion for place"@,
    {
        "Get setf expansion for place"
    }

    fn execute(&self, args: &[Value]) -> (r: Result<Value, Error>)
        ensures
            outcome(r) == ({
                let first = if args@.len() > 0 { models(args@)[0] } else { Val::Null };
                yields(Val::Arr(seq![Val::Arr(Seq::empty()), Val::Arr(Seq::empty()), Val::Arr(Seq::empty()), first, first]))
            }),
    {
        let first = if args.len() > 0 { args[0].deep_copy() } else { Value::Null };
        let second = first.deep_copy();
        let e1: Vec<Value> = Vec::new();
        let e2: Vec<Value> = Vec::new();
        let e3: Vec<Value> = Vec::new();
        assert(models(e1@) =~= Seq::<Val>::empty());
        assert(models(e2@) =~= Seq::<Val>::empty());
        assert(models(e3@) =~= Seq::<Val>::empty());
        let v = vec![Value::Array(e1), Value::Array(e2), Value::Array(e3), first, second];
        assert(models(v@) =~= seq![Val::Arr(Seq::empty()), Val::Arr(Seq::empty()), Val::Arr(Seq::empty()), v@[3].model(), v@[4].model()]);
        Ok(Value::Array(v))
    }
}



/// PUSH - Push onto list place
pub struct PushTool;

impl Tool for PushTool {
    open spec fn names_itself(&self) -> bool {
        true
    }

    open spec fn spec_name(&self) -> Seq<char> {
        "PUSH"@
    }

    open spec fn admits(&self, args: Seq<Val>) -> bool {
        true
    }

    fn name(&self) -> &str {
        "PUSH"
    }

    fn description(&self) -> (r: &str)
        ensures
            r@ == "Push item onto list place"@,
    {
        "Push item onto list place"
    }

    fn execute(&self, args: &[Value]) -> (r: Result<Value, Error>)
        ensures
            outcome(r) == (yields(if args@.len() < 2 { Val::Arr(Seq::empty()) } else {
                match models(args@)[1] {
                    Val::Arr(s) => Val::Arr(seq![models(args@)[0]] + s),
                    _ => Val::Arr(seq![models(args@)[0]]),
                }
            })),
    {
        if args.len() < 2 {
            return Ok(Value::Array(Vec::new()));
        }
        match &args[1] {
            Value::Array(arr) => Ok(Value::Array(prepend(&args[0], arr))),
            _ => {
                let one = vec![args[0].deep_copy()];
                assert(models(one@) =~= seq![models(args@)[0]]);
                Ok(Value::Array(one))
            },
        }
    }
}



/// POP - Pop from list place
pub struct PopTool;

impl Tool for PopTool {
    open spec fn names_itself(&self) -> bool {
        true
    }

    open spec fn spec_name(&self) -> Seq<char> {
        "POP"@
    }

    open spec fn admits(&self, args: Seq<Val>) -> bool {
        true
    }

    fn name(&self) -> &str {
        "POP"
    }

    fn description(&self) -> (r: &str)
        ensures
            r@ == "Pop item from list place"@,
    {
        "Pop item from list place"
    }

    fn execute(&self, args: &[Value]) -> (r: Result<Value, Error>)
        ensures
            outcome(r) == (yields(if args@.len() == 0 { Val::Null } else {
                match models(args@)[0] {
                    Val::Arr(s) => if s.len() > 0 { s[0] } else { Val::Null },
                    _ => Val::Null,
                }
            })),
    {
        if args.len() == 0 {
            return Ok(Value::Null);
        }
        match &args[0] {
            Value::Array(arr) => {
                assert(models(arr@).len() == arr@.len());
                if arr.len() > 0 { Ok(arr[0].deep_copy()) } else { Ok(Value::Null) }
            },
            _ => Ok(Value::Null),
        }
    }
}



/// PUSHNEW - Push if not already present
pub struct PushnewTool;

impl Tool for PushnewTool {
    open spec fn names_itself(&self) -> bool {
        true
    }

    open spec fn spec_name(&self) -> Seq<char> {
        "PUSHNEW"@
    }

    open spec fn admits(&self, args: Seq<Val>) -> bool {
        true
    }

    fn name(&self) -> &str {
        "PUSHNEW"
    }

    fn description(&self) -> (r: &str)
        ensures
            r@ == "Push item if not already in list"@,
    {
        "Push item if not already in list"
    }

    fn execute(&self, args: &[Value]) -> (r: Result<Value, Error>)
        ensures
            outcome(r) == (yields(if args@.len() < 2 { Val::Arr(Seq::empty()) } else {
                match models(args@)[1] {
                    Val::Arr(s) => if member(s, models(args@)[0]) { Val::Arr(s) } else { Val::Arr(seq![models(args@)[0]] + s) },
                    _ => Val::Arr(seq![models(args@)[0]]),
                }
            })),
    {
        if args.len() < 2 {
            return Ok(Value::Array(Vec::new()));
        }
        match &args[1] {
            Value::Array(arr) => {
                if member_exec(arr, &args[0]) {
                    Ok(Value::Array(copy_values(arr)))
                } else {
                    Ok(Value::Array(prepend(&args[0], arr)))
                }
            },
            _ => {
                let one = vec![args[0].deep_copy()];
                assert(models(one@) =~= seq![models(args@)[0]]);
                Ok(Value::Array(one))
            },
        }
    }
}


} // verus!
