//! Introspection tools for OVSM
//!
//! APROPOS, DESCRIBE, INSPECT and related utilities.
//! Provides interactive exploration and debugging capabilities.
use vstd::prelude::*;

#[allow(unused_imports)]
use crate::access::{copy_range, copy_slice, copy_values, values_equal};
#[allow(unused_imports)]
use crate::error::{empty_collection, exec_error, invalid_args, ErrV, Error};
#[allow(unused_imports)]
use crate::text::{alphabetic, alphanumeric, char_from_u32, char_is_alphabetic, char_is_alphanumeric, char_is_lowercase, char_is_uppercase, char_is_whitespace, char_string, char_to_lowercase, char_to_uppercase, chars_of, chars_skip, concat, i64_to_string, int_decimal, lower_case, lower_chars, lowercase, owned, scalar_value, seq_less, str_equal, str_less, string_from_chars, to_lower, to_upper, upper_case, upper_chars, uppercase, whitespace};
#[allow(unused_imports)]
use crate::tools::{bad_args, name_insert, outcome, ref_outcome, string_views, yields, Tool, ToolRegistry};
#[allow(unused_imports)]
use crate::value::{and_then, elems, entry_models, int_of, models, obj_insert, obj_keys, obj_lookup, obj_merge, obj_of, obj_values, str_of, truthy, type_error, ObjectMap, Val, Value};

verus! {

broadcast use crate::seq_models::group_value_models;

/// The names after registering this module's tools, in order.
pub open spec fn registered_names(ns: Seq<Seq<char>>) -> Seq<Seq<char>> {
    let ns = name_insert(ns, "APROPOS-LIST"@);
    let ns = name_insert(ns, "CLASS-OF"@);
    let ns = name_insert(ns, "FIND-CLASS"@);
    let ns = name_insert(ns, "CLASS-NAME"@);
    let ns = name_insert(ns, "SLOT-VALUE"@);
    let ns = name_insert(ns, "SLOT-BOUNDP"@);
    let ns = name_insert(ns, "SLOT-MAKUNBOUND"@);
    let ns = name_insert(ns, "SLOT-EXISTS-P"@);
    let ns = name_insert(ns, "CLASS-SLOTS"@);
    let ns = name_insert(ns, "APROPOS"@);
    let ns = name_insert(ns, "DESCRIBE"@);
    let ns = name_insert(ns, "DESCRIBE-OBJECT"@);
    let ns = name_insert(ns, "INSPECT"@);
    ns
}

/// Register the tools of this module: those the library holds, then those
/// the application supplies, each under its name: `apropos_tool` under APROPOS, `describe_tool` under DESCRIBE, `describe_object_tool` under DESCRIBE-OBJECT, `inspect_tool` under INSPECT.
pub fn register<TApropos: Tool + 'static, TDescribe: Tool + 'static, TDescribeObject: Tool + 'static, TInspect: Tool + 'static>(registry: &mut ToolRegistry, apropos_tool: TApropos, describe_tool: TDescribe, describe_object_tool: TDescribeObject, inspect_tool: TInspect)
    requires
        apropos_tool.names_itself() ==> apropos_tool.spec_name() == "APROPOS"@,
        describe_tool.names_itself() ==> describe_tool.spec_name() == "DESCRIBE"@,
        describe_object_tool.names_itself() ==> describe_object_tool.spec_name() == "DESCRIBE-OBJECT"@,
        inspect_tool.names_itself() ==> inspect_tool.spec_name() == "INSPECT"@,
    ensures
        final(registry).names() == registered_names(old(registry).names()),
{
    registry.register(AproposListTool);
    registry.register(ClassOfTool);
    registry.register(FindClassTool);
    registry.register(ClassNameTool);
    registry.register(SlotValueTool);
    registry.register(SlotBoundpTool);
    registry.register(SlotMakunboundTool);
    registry.register(SlotExistsPTool);
    registry.register(ClassSlotsTool);
    registry.place(owned("APROPOS"), apropos_tool);
    registry.place(owned("DESCRIBE"), describe_tool);
    registry.place(owned("DESCRIBE-OBJECT"), describe_object_tool);
    registry.place(owned("INSPECT"), inspect_tool);
}

/// CLASS-NAME - Get name of class
pub struct ClassNameTool;

impl Tool for ClassNameTool {
    open spec fn names_itself(&self) -> bool {
        true
    }

    open spec fn spec_name(&self) -> Seq<char> {
        "CLASS-NAME"@
    }

    open spec fn admits(&self, args: Seq<Val>) -> bool {
        true
    }

    fn name(&self) -> &str {
        "CLASS-NAME"
    }

    fn description(&self) -> (r: &str)
        ensures
            r@ == "Get name of class"@,
    {
        "Get name of class"
    }

    fn execute(&self, args: &[Value]) -> (r: Result<Value, Error>)
        ensures
            outcome(r) == (if args@.len() == 0 { bad_args("CLASS-NAME"@, "Expected 1 argument: class object"@) } else { yields(args@[0].model()) }),
    {
        if args.len() == 0 {
            return Err(invalid_args("CLASS-NAME", "Expected 1 argument: class object"));
        }
        Ok(args[0].clone())
    }
}

/// CLASS-SLOTS - Get list of class slots
pub struct ClassSlotsTool;

impl Tool for ClassSlotsTool {
    open spec fn names_itself(&self) -> bool {
        true
    }

    open spec fn spec_name(&self) -> Seq<char> {
        "CLASS-SLOTS"@
    }

    open spec fn admits(&self, args: Seq<Val>) -> bool {
        true
    }

    fn name(&self) -> &str {
        "CLASS-SLOTS"
    }

    fn description(&self) -> (r: &str)
        ensures
            r@ == "Get list of slots in class"@,
    {
        "Get list of slots in class"
    }

    fn execute(&self, args: &[Value]) -> (r: Result<Value, Error>)
        ensures
            outcome(r) == (if args@.len() == 0 { bad_args("CLASS-SLOTS"@, "Expected 1 argument: class object"@) } else { yields(Val::Arr(Seq::<Val>::empty())) }),
    {
        if args.len() == 0 {
            return Err(invalid_args("CLASS-SLOTS", "Expected 1 argument: class object"));
        }
        Ok(Value::Array(Vec::new()))
    }
}

/// The result of a slot tool: an error unless an object and a slot name are given, else `ok`.
pub open spec fn slot_checked(tool: Seq<char>, a: Seq<Val>, ok: Val) -> Result<Val, ErrV> {
    if a.len() < 2 {
        bad_args(tool, "Expected 2 arguments: object and slot name"@)
    } else if !(a[0] is Obj) {
        bad_args(tool, "first argument must be an object"@)
    } else if !(a[1] is Str) {
        bad_args(tool, "slot name must be a string"@)
    } else {
        yields(ok)
    }
}

fn slot_checked_exec(tool: &str, args: &[Value]) -> (r: Result<(), Error>)
    ensures
        match r {
            Ok(_) => args@.len() >= 2 && models(args@)[0] is Obj && models(args@)[1] is Str,
            Err(e) => slot_checked(tool@, models(args@), Val::Null) == Err::<Val, ErrV>(e@),
        },
{
    if args.len() < 2 {
        return Err(invalid_args(tool, "Expected 2 arguments: object and slot name"));
    }
    if !matches!(args[0], Value::Object(_)) {
        return Err(invalid_args(tool, "first argument must be an object"));
    }
    if !matches!(args[1], Value::String(_)) {
        return Err(invalid_args(tool, "slot name must be a string"));
    }
    Ok(())
}

/// The result of a tool that takes one string name.
pub open spec fn name_checked_result(tool: Seq<char>, count_reason: Seq<char>, type_reason: Seq<char>, a: Seq<Val>, ok: Val) -> Result<Val, ErrV> {
    if a.len() == 0 {
        bad_args(tool, count_reason)
    } else if !(a[0] is Str) {
        bad_args(tool, type_reason)
    } else {
        yields(ok)
    }
}

/// APROPOS-LIST - Get list of symbols matching string
pub struct AproposListTool;

impl Tool for AproposListTool {
    open spec fn names_itself(&self) -> bool {
        true
    }

    open spec fn spec_name(&self) -> Seq<char> {
        "APROPOS-LIST"@
    }

    open spec fn admits(&self, args: Seq<Val>) -> bool {
        true
    }

    fn name(&self) -> &str {
        "APROPOS-LIST"
    }

    fn description(&self) -> (r: &str)
        ensures
            r@ == "Get list of symbols matching string"@,
    {
        "Get list of symbols matching string"
    }

    fn execute(&self, args: &[Value]) -> (r: Result<Value, Error>)
        ensures
            outcome(r) == (name_checked_result("APROPOS-LIST"@, "Expected 1 argument: search string"@, "search string must be a string"@, models(args@), Val::Arr(Seq::empty()))),
    {
        if args.len() == 0 {
            return Err(invalid_args("APROPOS-LIST", "Expected 1 argument: search string"));
        }
        if !matches!(args[0], Value::String(_)) {
            return Err(invalid_args("APROPOS-LIST", "search string must be a string"));
        }
        let v: Vec<Value> = Vec::new();
        assert(models(v@) =~= Seq::<Val>::empty());
        Ok(Value::Array(v))
    }
}



/// The class name that CLASS-OF gives a value.
pub open spec fn class_name_of(v: Val) -> Seq<char> {
    match v {
        Val::Null => "NULL"@,
        Val::Bool(_) => "BOOLEAN"@,
        Val::Int(_) => "INTEGER"@,
        Val::Float(_) => "FLOAT"@,
        Val::Str(_) => "STRING"@,
        Val::Arr(_) => "LIST"@,
        Val::Obj(_) => "STANDARD-OBJECT"@,
    }
}

/// The class name of a value.
pub fn class_name(v: &Value) -> (s: String)
    ensures
        s@ == class_name_of(v.model()),
{
    match v {
        Value::Null => owned("NULL"),
        Value::Bool(_) => owned("BOOLEAN"),
        Value::Int(_) => owned("INTEGER"),
        Value::Float(_) => owned("FLOAT"),
        Value::String(_) => owned("STRING"),
        Value::Array(_) => owned("LIST"),
        Value::Object(_) => owned("STANDARD-OBJECT"),
    }
}

/// CLASS-OF - Get class of object
pub struct ClassOfTool;

impl Tool for ClassOfTool {
    open spec fn names_itself(&self) -> bool {
        true
    }

    open spec fn spec_name(&self) -> Seq<char> {
        "CLASS-OF"@
    }

    open spec fn admits(&self, args: Seq<Val>) -> bool {
        true
    }

    fn name(&self) -> &str {
        "CLASS-OF"
    }

    fn description(&self) -> (r: &str)
        ensures
            r@ == "Get class of object"@,
    {
        "Get class of object"
    }

    fn execute(&self, args: &[Value]) -> (r: Result<Value, Error>)
        ensures
            outcome(r) == (if args@.len() == 0 { yields(Val::Str("NULL"@)) } else { yields(Val::Str(class_name_of(models(args@)[0]))) }),
    {
        if args.len() == 0 {
            return Ok(Value::String(owned("NULL")));
        }
        Ok(Value::String(class_name(&args[0])))
    }
}



/// FIND-CLASS - Find class by name
pub struct FindClassTool;

impl Tool for FindClassTool {
    open spec fn names_itself(&self) -> bool {
        true
    }

    open spec fn spec_name(&self) -> Seq<char> {
        "FIND-CLASS"@
    }

    open spec fn admits(&self, args: Seq<Val>) -> bool {
        true
    }

    fn name(&self) -> &str {
        "FIND-CLASS"
    }

    fn description(&self) -> (r: &str)
        ensures
            r@ == "Find class by name"@,
    {
        "Find class by name"
    }

    fn execute(&self, args: &[Value]) -> (r: Result<Value, Error>)
        ensures
            outcome(r) == (if args@.len() == 0 { bad_args("FIND-CLASS"@, "Expected 1 argument: class name"@) }
            else if !(models(args@)[0] is Str) { bad_args("FIND-CLASS"@, "class name must be a string"@) }
            else { yields(models(args@)[0]) }),
    {
        if args.len() == 0 {
            return Err(invalid_args("FIND-CLASS", "Expected 1 argument: class name"));
        }
        if !matches!(args[0], Value::String(_)) {
            return Err(invalid_args("FIND-CLASS", "class name must be a string"));
        }
        Ok(args[0].deep_copy())
    }
}



/// SLOT-VALUE - Get slot value
pub struct SlotValueTool;

impl Tool for SlotValueTool {
    open spec fn names_itself(&self) -> bool {
        true
    }

    open spec fn spec_name(&self) -> Seq<char> {
        "SLOT-VALUE"@
    }

    open spec fn admits(&self, args: Seq<Val>) -> bool {
        true
    }

    fn name(&self) -> &str {
        "SLOT-VALUE"
    }

    fn description(&self) -> (r: &str)
        ensures
            r@ == "Get value of object slot"@,
    {
        "Get value of object slot"
    }

    fn execute(&self, args: &[Value]) -> (r: Result<Value, Error>)
        ensures
            outcome(r) == (slot_checked("SLOT-VALUE"@, models(args@), Val::Null)),
    {
        slot_checked_exec("SLOT-VALUE", args)?;
        Ok(Value::Null)
    }
}



/// SLOT-BOUNDP - Check if slot is bound
pub struct SlotBoundpTool;

impl Tool for SlotBoundpTool {
    open spec fn names_itself(&self) -> bool {
        true
    }

    open spec fn spec_name(&self) -> Seq<char> {
        "SLOT-BOUNDP"@
    }

    open spec fn admits(&self, args: Seq<Val>) -> bool {
        true
    }

    fn name(&self) -> &str {
        "SLOT-BOUNDP"
    }

    fn description(&self) -> (r: &str)
        ensures
            r@ == "Check if slot is bound"@,
    {
        "Check if slot is bound"
    }

    fn execute(&self, args: &[Value]) -> (r: Result<Value, Error>)
        ensures
            outcome(r) == (slot_checked("SLOT-BOUNDP"@, models(args@), Val::Bool(false))),
    {
        slot_checked_exec("SLOT-BOUNDP", args)?;
        Ok(Value::Bool(false))
    }
}



/// SLOT-EXISTS-P - Check if slot exists
pub struct SlotExistsPTool;

impl Tool for SlotExistsPTool {
    open spec fn names_itself(&self) -> bool {
        true
    }

    open spec fn spec_name(&self) -> Seq<char> {
        "SLOT-EXISTS-P"@
    }

    open spec fn admits(&self, args: Seq<Val>) -> bool {
        true
    }

    fn name(&self) -> &str {
        "SLOT-EXISTS-P"
    }

    fn description(&self) -> (r: &str)
        ensures
            r@ == "Check if slot exists in object"@,
    {
        "Check if slot exists in object"
    }

    fn execute(&self, args: &[Value]) -> (r: Result<Value, Error>)
        ensures
            outcome(r) == (slot_checked("SLOT-EXISTS-P"@, models(args@), Val::Bool(false))),
    {
        slot_checked_exec("SLOT-EXISTS-P", args)?;
        Ok(Value::Bool(false))
    }
}



/// SLOT-MAKUNBOUND - Make slot unbound
pub struct SlotMakunboundTool;

impl Tool for SlotMakunboundTool {
    open spec fn names_itself(&self) -> bool {
        true
    }

    open spec fn spec_name(&self) -> Seq<char> {
        "SLOT-MAKUNBOUND"@
    }

    open spec fn admits(&self, args: Seq<Val>) -> bool {
        true
    }

    fn name(&self) -> &str {
        "SLOT-MAKUNBOUND"
    }

    fn description(&self) -> (r: &str)
        ensures
            r@ == "Make slot unbound"@,
    {
        "Make slot unbound"
    }

    fn execute(&self, args: &[Value]) -> (r: Result<Value, Error>)
        ensures
            outcome(r) == (if args@.len() < 2 { slot_checked("SLOT-MAKUNBOUND"@, models(args@), Val::Null) } else {
                slot_checked("SLOT-MAKUNBOUND"@, models(args@), models(args@)[0])
            }),
    {
        slot_checked_exec("SLOT-MAKUNBOUND", args)?;
        Ok(args[0].deep_copy())
    }
}


} // verus!
