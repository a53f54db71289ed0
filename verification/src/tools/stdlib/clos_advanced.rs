//! Advanced CLOS (Common Lisp Object System) features for Solisp
//!
//! Method specialization, generic function introspection, and Meta-Object Protocol basics.
//! This module extends the basic CLOS functionality with advanced features.
use vstd::prelude::*;

#[allow(unused_imports)]
use crate::access::{copy_range, copy_slice, copy_values, values_equal};
#[allow(unused_imports)]
use crate::error::{empty_collection, exec_error, invalid_args, ErrV, Error};
#[allow(unused_imports)]
use crate::text::{alphabetic, alphanumeric, char_from_u32, char_is_alphabetic, char_is_alphanumeric, char_is_lowercase, char_is_uppercase, char_is_whitespace, char_string, char_to_lowercase, char_to_uppercase, chars_of, chars_skip, concat, i64_to_string, int_decimal, lower_case, lower_chars, lowercase, owned, scalar_value, seq_less, str_equal, str_less, string_from_chars, to_lower, to_upper, upper_case, upper_chars, uppercase, whitespace};
#[allow(unused_imports)]
use crate::tools::{bad_args, name_insert, outcome, ref_outcome, string_views, yields, Tool, ToolRegistry};
#[allow(unused_imports)]
use crate::value::{and_then, elems, entry_models, int_of, models, obj_insert, obj_keys, obj_lookup, obj_merge, obj_of, obj_values, str_of, truthy, type_error, ObjectMap, Val, Value};

verus! {

broadcast use crate::seq_models::group_value_models;

/// The names after registering this module's tools, in order.
pub open spec fn registered_names(ns: Seq<Seq<char>>) -> Seq<Seq<char>> {
    let ns = name_insert(ns, "GENERIC-FUNCTION-METHODS"@);
    let ns = name_insert(ns, "GENERIC-FUNCTION-NAME"@);
    let ns = name_insert(ns, "GENERIC-FUNCTION-LAMBDA-LIST"@);
    let ns = name_insert(ns, "GENERIC-FUNCTION-ARGUMENT-PRECEDENCE-ORDER"@);
    let ns = name_insert(ns, "GENERIC-FUNCTION-DECLARATIONS"@);
    let ns = name_insert(ns, "GENERIC-FUNCTION-METHOD-CLASS"@);
    let ns = name_insert(ns, "GENERIC-FUNCTION-METHOD-COMBINATION"@);
    let ns = name_insert(ns, "METHOD-QUALIFIERS"@);
    let ns = name_insert(ns, "METHOD-SPECIALIZERS"@);
    let ns = name_insert(ns, "METHOD-LAMBDA-LIST"@);
    let ns = name_insert(ns, "METHOD-GENERIC-FUNCTION"@);
    let ns = name_insert(ns, "METHOD-FUNCTION"@);
    let ns = name_insert(ns, "ADD-METHOD"@);
    let ns = name_insert(ns, "REMOVE-METHOD"@);
    let ns = name_insert(ns, "FIND-METHOD"@);
    let ns = name_insert(ns, "COMPUTE-APPLICABLE-METHODS"@);
    let ns = name_insert(ns, "COMPUTE-APPLICABLE-METHODS-USING-CLASSES"@);
    let ns = name_insert(ns, "CLASS-DIRECT-SUPERCLASSES"@);
    let ns = name_insert(ns, "CLASS-DIRECT-SUBCLASSES"@);
    let ns = name_insert(ns, "CLASS-DIRECT-SLOTS"@);
    let ns = name_insert(ns, "CLASS-DEFAULT-INITARGS"@);
    let ns = name_insert(ns, "CLASS-DIRECT-DEFAULT-INITARGS"@);
    let ns = name_insert(ns, "CLASS-PROTOTYPE"@);
    let ns = name_insert(ns, "CLASS-FINALIZED-P"@);
    let ns = name_insert(ns, "FINALIZE-INHERITANCE"@);
    let ns = name_insert(ns, "SLOT-DEFINITION-NAME"@);
    let ns = name_insert(ns, "SLOT-DEFINITION-INITARGS"@);
    let ns = name_insert(ns, "SLOT-DEFINITION-INITFORM"@);
    let ns = name_insert(ns, "SLOT-DEFINITION-INITFUNCTION"@);
    let ns = name_insert(ns, "SLOT-DEFINITION-TYPE"@);
    let ns = name_insert(ns, "SLOT-DEFINITION-ALLOCATION"@);
    let ns = name_insert(ns, "SLOT-DEFINITION-READERS"@);
    let ns = name_insert(ns, "SLOT-DEFINITION-WRITERS"@);
    let ns = name_insert(ns, "SLOT-DEFINITION-LOCATION"@);
    let ns = name_insert(ns, "EQL-SPECIALIZER"@);
    let ns = name_insert(ns, "EQL-SPECIALIZER-OBJECT"@);
    let ns = name_insert(ns, "SPECIALIZER-DIRECT-GENERIC-FUNCTIONS"@);
    let ns = name_insert(ns, "SPECIALIZER-DIRECT-METHODS"@);
    let ns = name_insert(ns, "ENSURE-GENERIC-FUNCTION"@);
    let ns = name_insert(ns, "ENSURE-CLASS"@);
    let ns = name_insert(ns, "ALLOCATE-INSTANCE"@);
    let ns = name_insert(ns, "MAKE-INSTANCE-STANDARD"@);
    let ns = name_insert(ns, "MAKE-INSTANCES-OBSOLETE"@);
    let ns = name_insert(ns, "UPDATE-INSTANCE-FOR-REDEFINED-CLASS"@);
    let ns = name_insert(ns, "SET-FUNCALLABLE-INSTANCE-FUNCTION"@);
    let ns = name_insert(ns, "FUNCALLABLE-STANDARD-CLASS"@);
    let ns = name_insert(ns, "FUNCALLABLE-STANDARD-OBJECT"@);
    ns
}

/// Register the tools of this module.
pub fn register(registry: &mut ToolRegistry)
    ensures
        final(registry).names() == registered_names(old(registry).names()),
{
    registry.register(GenericFunctionMethodsTool);
    registry.register(GenericFunctionNameTool);
    registry.register(GenericFunctionLambdaListTool);
    registry.register(GenericFunctionArgumentPrecedenceOrderTool);
    registry.register(GenericFunctionDeclarationsTool);
    registry.register(GenericFunctionMethodClassTool);
    registry.register(GenericFunctionMethodCombinationTool);
    registry.register(MethodQualifiersTool);
    registry.register(MethodSpecializersTool);
    registry.register(MethodLambdaListTool);
    registry.register(MethodGenericFunctionTool);
    registry.register(MethodFunctionTool);
    registry.register(AddMethodTool);
    registry.register(RemoveMethodTool);
    registry.register(FindMethodTool);
    registry.register(ComputeApplicableMethodsTool);
    registry.register(ComputeApplicableMethodsUsingClassesTool);
    registry.register(ClassDirectSuperclassesTool);
    registry.register(ClassDirectSubclassesTool);
    registry.register(ClassDirectSlotsTool);
    registry.register(ClassDefaultInitargsTool);
    registry.register(ClassDirectDefaultInitargsTool);
    registry.register(ClassPrototypeTool);
    registry.register(ClassFinalizedPTool);
    registry.register(FinalizeInheritanceTool);
    registry.register(SlotDefinitionNameTool);
    registry.register(SlotDefinitionInitargsTool);
    registry.register(SlotDefinitionInitformTool);
    registry.register(SlotDefinitionInitfunctionTool);
    registry.register(SlotDefinitionTypeTool);
    registry.register(SlotDefinitionAllocationTool);
    registry.register(SlotDefinitionReadersTool);
    registry.register(SlotDefinitionWritersTool);
    registry.register(SlotDefinitionLocationTool);
    registry.register(EqlSpecializerTool);
    registry.register(EqlSpecializerObjectTool);
    registry.register(SpecializerDirectGenericFunctionsTool);
    registry.register(SpecializerDirectMethodsTool);
    registry.register(EnsureGenericFunctionTool);
    registry.register(EnsureClassTool);
    registry.register(AllocateInstanceTool);
    registry.register(MakeInstanceStandardTool);
    registry.register(MakeInstancesObsoleteTool);
    registry.register(UpdateInstanceForRedefinedClassTool);
    registry.register(SetFuncallableInstanceFunctionTool);
    registry.register(FuncallableStandardClassTool);
    registry.register(FuncallableStandardObjectTool);
}

/// GENERIC-FUNCTION-METHODS - Get all methods for generic function
pub struct GenericFunctionMethodsTool;

impl Tool for GenericFunctionMethodsTool {
    open spec fn names_itself(&self) -> bool {
        true
    }

    open spec fn spec_name(&self) -> Seq<char> {
        "GENERIC-FUNCTION-METHODS"@
    }

    open spec fn admits(&self, args: Seq<Val>) -> bool {
        true
    }

    fn name(&self) -> &str {
        "GENERIC-FUNCTION-METHODS"
    }

    fn description(&self) -> (r: &str)
        ensures
            r@ == "Get all methods of a generic function"@,
    {
        "Get all methods of a generic function"
    }

    fn execute(&self, args: &[Value]) -> (r: Result<Value, Error>)
        ensures
            outcome(r) == (yields(Val::Arr(Seq::<Val>::empty()))),
    {
        Ok(Value::Array(Vec::new()))
    }
}

/// GENERIC-FUNCTION-NAME - Get name of generic function
pub struct GenericFunctionNameTool;

impl Tool for GenericFunctionNameTool {
    open spec fn names_itself(&self) -> bool {
        true
    }

    open spec fn spec_name(&self) -> Seq<char> {
        "GENERIC-FUNCTION-NAME"@
    }

    open spec fn admits(&self, args: Seq<Val>) -> bool {
        true
    }

    fn name(&self) -> &str {
        "GENERIC-FUNCTION-NAME"
    }

    fn description(&self) -> (r: &str)
        ensures
            r@ == "Get name of generic function"@,
    {
        "Get name of generic function"
    }

    fn execute(&self, args: &[Value]) -> (r: Result<Value, Error>)
        ensures
            outcome(r) == (if args@.len() == 0 { bad_args("GENERIC-FUNCTION-NAME"@, "requires at least 1 argument (generic function)"@) } else { yields(args@[0].model()) }),
    {
        if args.len() == 0 {
            return Err(invalid_args("GENERIC-FUNCTION-NAME", "requires at least 1 argument (generic function)"));
        }
        Ok(args[0].clone())
    }
}

/// GENERIC-FUNCTION-LAMBDA-LIST - Get lambda list of generic function
pub struct GenericFunctionLambdaListTool;

impl Tool for GenericFunctionLambdaListTool {
    open spec fn names_itself(&self) -> bool {
        true
    }

    open spec fn spec_name(&self) -> Seq<char> {
        "GENERIC-FUNCTION-LAMBDA-LIST"@
    }

    open spec fn admits(&self, args: Seq<Val>) -> bool {
        true
    }

    fn name(&self) -> &str {
        "GENERIC-FUNCTION-LAMBDA-LIST"
    }

    fn description(&self) -> (r: &str)
        ensures
            r@ == "Get lambda list of generic function"@,
    {
        "Get lambda list of generic function"
    }

    fn execute(&self, args: &[Value]) -> (r: Result<Value, Error>)
        ensures
            outcome(r) == (yields(Val::Arr(Seq::<Val>::empty()))),
    {
        Ok(Value::Array(Vec::new()))
    }
}

/// GENERIC-FUNCTION-ARGUMENT-PRECEDENCE-ORDER - Get argument precedence
pub struct GenericFunctionArgumentPrecedenceOrderTool;

impl Tool for GenericFunctionArgumentPrecedenceOrderTool {
    open spec fn names_itself(&self) -> bool {
        true
    }

    open spec fn spec_name(&self) -> Seq<char> {
        "GENERIC-FUNCTION-ARGUMENT-PRECEDENCE-ORDER"@
    }

    open spec fn admits(&self, args: Seq<Val>) -> bool {
        true
    }

    fn name(&self) -> &str {
        "GENERIC-FUNCTION-ARGUMENT-PRECEDENCE-ORDER"
    }

    fn description(&self) -> (r: &str)
        ensures
            r@ == "Get argument precedence order"@,
    {
        "Get argument precedence order"
    }

    fn execute(&self, args: &[Value]) -> (r: Result<Value, Error>)
        ensures
            outcome(r) == (yields(Val::Arr(Seq::<Val>::empty()))),
    {
        Ok(Value::Array(Vec::new()))
    }
}

/// GENERIC-FUNCTION-DECLARATIONS - Get declarations
pub struct GenericFunctionDeclarationsTool;

impl Tool for GenericFunctionDeclarationsTool {
    open spec fn names_itself(&self) -> bool {
        true
    }

    open spec fn spec_name(&self) -> Seq<char> {
        "GENERIC-FUNCTION-DECLARATIONS"@
    }

    open spec fn admits(&self, args: Seq<Val>) -> bool {
        true
    }

    fn name(&self) -> &str {
        "GENERIC-FUNCTION-DECLARATIONS"
    }

    fn description(&self) -> (r: &str)
        ensures
            r@ == "Get declarations of generic function"@,
    {
        "Get declarations of generic function"
    }

    fn execute(&self, args: &[Value]) -> (r: Result<Value, Error>)
        ensures
            outcome(r) == (yields(Val::Arr(Seq::<Val>::empty()))),
    {
        Ok(Value::Array(Vec::new()))
    }
}

/// GENERIC-FUNCTION-METHOD-CLASS - Get method class
pub struct GenericFunctionMethodClassTool;

impl Tool for GenericFunctionMethodClassTool {
    open spec fn names_itself(&self) -> bool {
        true
    }

    open spec fn spec_name(&self) -> Seq<char> {
        "GENERIC-FUNCTION-METHOD-CLASS"@
    }

    open spec fn admits(&self, args: Seq<Val>) -> bool {
        true
    }

    fn name(&self) -> &str {
        "GENERIC-FUNCTION-METHOD-CLASS"
    }

    fn description(&self) -> (r: &str)
        ensures
            r@ == "Get method class of generic function"@,
    {
        "Get method class of generic function"
    }

    fn execute(&self, args: &[Value]) -> (r: Result<Value, Error>)
        ensures
            outcome(r) == (yields(Val::Str("STANDARD-METHOD"@))),
    {
        Ok(Value::String(owned("STANDARD-METHOD")))
    }
}

/// GENERIC-FUNCTION-METHOD-COMBINATION - Get method combination
pub struct GenericFunctionMethodCombinationTool;

impl Tool for GenericFunctionMethodCombinationTool {
    open spec fn names_itself(&self) -> bool {
        true
    }

    open spec fn spec_name(&self) -> Seq<char> {
        "GENERIC-FUNCTION-METHOD-COMBINATION"@
    }

    open spec fn admits(&self, args: Seq<Val>) -> bool {
        true
    }

    fn name(&self) -> &str {
        "GENERIC-FUNCTION-METHOD-COMBINATION"
    }

    fn description(&self) -> (r: &str)
        ensures
            r@ == "Get method combination of generic function"@,
    {
        "Get method combination of generic function"
    }

    fn execute(&self, args: &[Value]) -> (r: Result<Value, Error>)
        ensures
            outcome(r) == (yields(Val::Str("STANDARD"@))),
    {
        Ok(Value::String(owned("STANDARD")))
    }
}

/// METHOD-QUALIFIERS - Get method qualifiers
pub struct MethodQualifiersTool;

impl Tool for MethodQualifiersTool {
    open spec fn names_itself(&self) -> bool {
        true
    }

    open spec fn spec_name(&self) -> Seq<char> {
        "METHOD-QUALIFIERS"@
    }

    open spec fn admits(&self, args: Seq<Val>) -> bool {
        true
    }

    fn name(&self) -> &str {
        "METHOD-QUALIFIERS"
    }

    fn description(&self) -> (r: &str)
        ensures
            r@ == "Get qualifiers of a method"@,
    {
        "Get qualifiers of a method"
    }

    fn execute(&self, args: &[Value]) -> (r: Result<Value, Error>)
        ensures
            outcome(r) == (yields(Val::Arr(Seq::<Val>::empty()))),
    {
        Ok(Value::Array(Vec::new()))
    }
}

/// METHOD-SPECIALIZERS - Get method specializers
pub struct MethodSpecializersTool;

impl Tool for MethodSpecializersTool {
    open spec fn names_itself(&self) -> bool {
        true
    }

    open spec fn spec_name(&self) -> Seq<char> {
        "METHOD-SPECIALIZERS"@
    }

    open spec fn admits(&self, args: Seq<Val>) -> bool {
        true
    }

    fn name(&self) -> &str {
        "METHOD-SPECIALIZERS"
    }

    fn description(&self) -> (r: &str)
        ensures
            r@ == "Get specializers of a method"@,
    {
        "Get specializers of a method"
    }

    fn execute(&self, args: &[Value]) -> (r: Result<Value, Error>)
        ensures
            outcome(r) == (yields(Val::Arr(Seq::<Val>::empty()))),
    {
        Ok(Value::Array(Vec::new()))
    }
}

/// METHOD-LAMBDA-LIST - Get method lambda list
pub struct MethodLambdaListTool;

impl Tool for MethodLambdaListTool {
    open spec fn names_itself(&self) -> bool {
        true
    }

    open spec fn spec_name(&self) -> Seq<char> {
        "METHOD-LAMBDA-LIST"@
    }

    open spec fn admits(&self, args: Seq<Val>) -> bool {
        true
    }

    fn name(&self) -> &str {
        "METHOD-LAMBDA-LIST"
    }

    fn description(&self) -> (r: &str)
        ensures
            r@ == "Get lambda list of a method"@,
    {
        "Get lambda list of a method"
    }

    fn execute(&self, args: &[Value]) -> (r: Result<Value, Error>)
        ensures
            outcome(r) == (yields(Val::Arr(Seq::<Val>::empty()))),
    {
        Ok(Value::Array(Vec::new()))
    }
}

/// METHOD-GENERIC-FUNCTION - Get generic function of method
pub struct MethodGenericFunctionTool;

impl Tool for MethodGenericFunctionTool {
    open spec fn names_itself(&self) -> bool {
        true
    }

    open spec fn spec_name(&self) -> Seq<char> {
        "METHOD-GENERIC-FUNCTION"@
    }

    open spec fn admits(&self, args: Seq<Val>) -> bool {
        true
    }

    fn name(&self) -> &str {
        "METHOD-GENERIC-FUNCTION"
    }

    fn description(&self) -> (r: &str)
        ensures
            r@ == "Get generic function of a method"@,
    {
        "Get generic function of a method"
    }

    fn execute(&self, args: &[Value]) -> (r: Result<Value, Error>)
        ensures
            outcome(r) == (if args@.len() == 0 { bad_args("METHOD-GENERIC-FUNCTION"@, "requires at least 1 argument (method)"@) } else { yields(args@[0].model()) }),
    {
        if args.len() == 0 {
            return Err(invalid_args("METHOD-GENERIC-FUNCTION", "requires at least 1 argument (method)"));
        }
        Ok(args[0].clone())
    }
}

/// METHOD-FUNCTION - Get function of method
pub struct MethodFunctionTool;

impl Tool for MethodFunctionTool {
    open spec fn names_itself(&self) -> bool {
        true
    }

    open spec fn spec_name(&self) -> Seq<char> {
        "METHOD-FUNCTION"@
    }

    open spec fn admits(&self, args: Seq<Val>) -> bool {
        true
    }

    fn name(&self) -> &str {
        "METHOD-FUNCTION"
    }

    fn description(&self) -> (r: &str)
        ensures
            r@ == "Get function implementation of a method"@,
    {
        "Get function implementation of a method"
    }

    fn execute(&self, args: &[Value]) -> (r: Result<Value, Error>)
        ensures
            outcome(r) == (if args@.len() == 0 { bad_args("METHOD-FUNCTION"@, "requires at least 1 argument (method)"@) } else { yields(args@[0].model()) }),
    {
        if args.len() == 0 {
            return Err(invalid_args("METHOD-FUNCTION", "requires at least 1 argument (method)"));
        }
        Ok(args[0].clone())
    }
}

/// ADD-METHOD - Add method to generic function
pub struct AddMethodTool;

impl Tool for AddMethodTool {
    open spec fn names_itself(&self) -> bool {
        true
    }

    open spec fn spec_name(&self) -> Seq<char> {
        "ADD-METHOD"@
    }

    open spec fn admits(&self, args: Seq<Val>) -> bool {
        true
    }

    fn name(&self) -> &str {
        "ADD-METHOD"
    }

    fn description(&self) -> (r: &str)
        ensures
            r@ == "Add method to generic function"@,
    {
        "Add method to generic function"
    }

    fn execute(&self, args: &[Value]) -> (r: Result<Value, Error>)
        ensures
            outcome(r) == (if args@.len() < 2 { bad_args("ADD-METHOD"@, "requires at least 2 arguments (generic-function method)"@) } else { yields(args@[0].model()) }),
    {
        if args.len() < 2 {
            return Err(invalid_args("ADD-METHOD", "requires at least 2 arguments (generic-function method)"));
        }
        Ok(args[0].clone())
    }
}

/// REMOVE-METHOD - Remove method from generic function
pub struct RemoveMethodTool;

impl Tool for RemoveMethodTool {
    open spec fn names_itself(&self) -> bool {
        true
    }

    open spec fn spec_name(&self) -> Seq<char> {
        "REMOVE-METHOD"@
    }

    open spec fn admits(&self, args: Seq<Val>) -> bool {
        true
    }

    fn name(&self) -> &str {
        "REMOVE-METHOD"
    }

    fn description(&self) -> (r: &str)
        ensures
            r@ == "Remove method from generic function"@,
    {
        "Remove method from generic function"
    }

    fn execute(&self, args: &[Value]) -> (r: Result<Value, Error>)
        ensures
            outcome(r) == (if args@.len() < 2 { bad_args("REMOVE-METHOD"@, "requires at least 2 arguments (generic-function method)"@) } else { yields(args@[0].model()) }),
    {
        if args.len() < 2 {
            return Err(invalid_args("REMOVE-METHOD", "requires at least 2 arguments (generic-function method)"));
        }
        Ok(args[0].clone())
    }
}

/// FIND-METHOD - Find method by specializers
pub struct FindMethodTool;

impl Tool for FindMethodTool {
    open spec fn names_itself(&self) -> bool {
        true
    }

    open spec fn spec_name(&self) -> Seq<char> {
        "FIND-METHOD"@
    }

    open spec fn admits(&self, args: Seq<Val>) -> bool {
        true
    }

    fn name(&self) -> &str {
        "FIND-METHOD"
    }

    fn description(&self) -> (r: &str)
        ensures
            r@ == "Find method by specializers"@,
    {
        "Find method by specializers"
    }

    fn execute(&self, args: &[Value]) -> (r: Result<Value, Error>)
        ensures
            outcome(r) == (yields(Val::Null)),
    {
        Ok(Value::Null)
    }
}

/// COMPUTE-APPLICABLE-METHODS - Compute applicable methods
pub struct ComputeApplicableMethodsTool;

impl Tool for ComputeApplicableMethodsTool {
    open spec fn names_itself(&self) -> bool {
        true
    }

    open spec fn spec_name(&self) -> Seq<char> {
        "COMPUTE-APPLICABLE-METHODS"@
    }

    open spec fn admits(&self, args: Seq<Val>) -> bool {
        true
    }

    fn name(&self) -> &str {
        "COMPUTE-APPLICABLE-METHODS"
    }

    fn description(&self) -> (r: &str)
        ensures
            r@ == "Compute applicable methods for arguments"@,
    {
        "Compute applicable methods for arguments"
    }

    fn execute(&self, args: &[Value]) -> (r: Result<Value, Error>)
        ensures
            outcome(r) == (yields(Val::Arr(Seq::<Val>::empty()))),
    {
        Ok(Value::Array(Vec::new()))
    }
}

/// COMPUTE-APPLICABLE-METHODS-USING-CLASSES - Compute by classes
pub struct ComputeApplicableMethodsUsingClassesTool;

impl Tool for ComputeApplicableMethodsUsingClassesTool {
    open spec fn names_itself(&self) -> bool {
        true
    }

    open spec fn spec_name(&self) -> Seq<char> {
        "COMPUTE-APPLICABLE-METHODS-USING-CLASSES"@
    }

    open spec fn admits(&self, args: Seq<Val>) -> bool {
        true
    }

    fn name(&self) -> &str {
        "COMPUTE-APPLICABLE-METHODS-USING-CLASSES"
    }

    fn description(&self) -> (r: &str)
        ensures
            r@ == "Compute applicable methods using classes"@,
    {
        "Compute applicable methods using classes"
    }

    fn execute(&self, args: &[Value]) -> (r: Result<Value, Error>)
        ensures
            outcome(r) == (yields(Val::Arr(Seq::<Val>::empty()))),
    {
        Ok(Value::Array(Vec::new()))
    }
}

/// CLASS-DIRECT-SUPERCLASSES - Get direct superclasses
pub struct ClassDirectSuperclassesTool;

impl Tool for ClassDirectSuperclassesTool {
    open spec fn names_itself(&self) -> bool {
        true
    }

    open spec fn spec_name(&self) -> Seq<char> {
        "CLASS-DIRECT-SUPERCLASSES"@
    }

    open spec fn admits(&self, args: Seq<Val>) -> bool {
        true
    }

    fn name(&self) -> &str {
        "CLASS-DIRECT-SUPERCLASSES"
    }

    fn description(&self) -> (r: &str)
        ensures
            r@ == "Get direct superclasses of a class"@,
    {
        "Get direct superclasses of a class"
    }

    fn execute(&self, args: &[Value]) -> (r: Result<Value, Error>)
        ensures
            outcome(r) == (yields(Val::Arr(Seq::<Val>::empty()))),
    {
        Ok(Value::Array(Vec::new()))
    }
}

/// CLASS-DIRECT-SUBCLASSES - Get direct subclasses
pub struct ClassDirectSubclassesTool;

impl Tool for ClassDirectSubclassesTool {
    open spec fn names_itself(&self) -> bool {
        true
    }

    open spec fn spec_name(&self) -> Seq<char> {
        "CLASS-DIRECT-SUBCLASSES"@
    }

    open spec fn admits(&self, args: Seq<Val>) -> bool {
        true
    }

    fn name(&self) -> &str {
        "CLASS-DIRECT-SUBCLASSES"
    }

    fn description(&self) -> (r: &str)
        ensures
            r@ == "Get direct subclasses of a class"@,
    {
        "Get direct subclasses of a class"
    }

    fn execute(&self, args: &[Value]) -> (r: Result<Value, Error>)
        ensures
            outcome(r) == (yields(Val::Arr(Seq::<Val>::empty()))),
    {
        Ok(Value::Array(Vec::new()))
    }
}

/// CLASS-DIRECT-SLOTS - Get direct slots
pub struct ClassDirectSlotsTool;

impl Tool for ClassDirectSlotsTool {
    open spec fn names_itself(&self) -> bool {
        true
    }

    open spec fn spec_name(&self) -> Seq<char> {
        "CLASS-DIRECT-SLOTS"@
    }

    open spec fn admits(&self, args: Seq<Val>) -> bool {
        true
    }

    fn name(&self) -> &str {
        "CLASS-DIRECT-SLOTS"
    }

    fn description(&self) -> (r: &str)
        ensures
            r@ == "Get direct slots of a class"@,
    {
        "Get direct slots of a class"
    }

    fn execute(&self, args: &[Value]) -> (r: Result<Value, Error>)
        ensures
            outcome(r) == (yields(Val::Arr(Seq::<Val>::empty()))),
    {
        Ok(Value::Array(Vec::new()))
    }
}

/// CLASS-DEFAULT-INITARGS - Get default initargs
pub struct ClassDefaultInitargsTool;

impl Tool for ClassDefaultInitargsTool {
    open spec fn names_itself(&self) -> bool {
        true
    }

    open spec fn spec_name(&self) -> Seq<char> {
        "CLASS-DEFAULT-INITARGS"@
    }

    open spec fn admits(&self, args: Seq<Val>) -> bool {
        true
    }

    fn name(&self) -> &str {
        "CLASS-DEFAULT-INITARGS"
    }

    fn description(&self) -> (r: &str)
        ensures
            r@ == "Get default initialization arguments"@,
    {
        "Get default initialization arguments"
    }

    fn execute(&self, args: &[Value]) -> (r: Result<Value, Error>)
        ensures
            outcome(r) == (yields(Val::Arr(Seq::<Val>::empty()))),
    {
        Ok(Value::Array(Vec::new()))
    }
}

/// CLASS-DIRECT-DEFAULT-INITARGS - Get direct default initargs
pub struct ClassDirectDefaultInitargsTool;

impl Tool for ClassDirectDefaultInitargsTool {
    open spec fn names_itself(&self) -> bool {
        true
    }

    open spec fn spec_name(&self) -> Seq<char> {
        "CLASS-DIRECT-DEFAULT-INITARGS"@
    }

    open spec fn admits(&self, args: Seq<Val>) -> bool {
        true
    }

    fn name(&self) -> &str {
        "CLASS-DIRECT-DEFAULT-INITARGS"
    }

    fn description(&self) -> (r: &str)
        ensures
            r@ == "Get direct default initargs"@,
    {
        "Get direct default initargs"
    }

    fn execute(&self, args: &[Value]) -> (r: Result<Value, Error>)
        ensures
            outcome(r) == (yields(Val::Arr(Seq::<Val>::empty()))),
    {
        Ok(Value::Array(Vec::new()))
    }
}

/// CLASS-PROTOTYPE - Get class prototype
pub struct ClassPrototypeTool;

impl Tool for ClassPrototypeTool {
    open spec fn names_itself(&self) -> bool {
        true
    }

    open spec fn spec_name(&self) -> Seq<char> {
        "CLASS-PROTOTYPE"@
    }

    open spec fn admits(&self, args: Seq<Val>) -> bool {
        true
    }

    fn name(&self) -> &str {
        "CLASS-PROTOTYPE"
    }

    fn description(&self) -> (r: &str)
        ensures
            r@ == "Get prototype instance of a class"@,
    {
        "Get prototype instance of a class"
    }

    fn execute(&self, args: &[Value]) -> (r: Result<Value, Error>)
        ensures
            outcome(r) == (yields(Val::Obj(Seq::<(Seq<char>, Val)>::empty()))),
    {
        Ok(Value::Object(ObjectMap::new()))
    }
}

/// CLASS-FINALIZED-P - Check if class is finalized
pub struct ClassFinalizedPTool;

impl Tool for ClassFinalizedPTool {
    open spec fn names_itself(&self) -> bool {
        true
    }

    open spec fn spec_name(&self) -> Seq<char> {
        "CLASS-FINALIZED-P"@
    }

    open spec fn admits(&self, args: Seq<Val>) -> bool {
        true
    }

    fn name(&self) -> &str {
        "CLASS-FINALIZED-P"
    }

    fn description(&self) -> (r: &str)
        ensures
            r@ == "Check if class is finalized"@,
    {
        "Check if class is finalized"
    }

    fn execute(&self, args: &[Value]) -> (r: Result<Value, Error>)
        ensures
            outcome(r) == (yields(Val::Bool(true))),
    {
        Ok(Value::Bool(true))
    }
}

/// FINALIZE-INHERITANCE - Finalize class inheritance
pub struct FinalizeInheritanceTool;

impl Tool for FinalizeInheritanceTool {
    open spec fn names_itself(&self) -> bool {
        true
    }

    open spec fn spec_name(&self) -> Seq<char> {
        "FINALIZE-INHERITANCE"@
    }

    open spec fn admits(&self, args: Seq<Val>) -> bool {
        true
    }

    fn name(&self) -> &str {
        "FINALIZE-INHERITANCE"
    }

    fn description(&self) -> (r: &str)
        ensures
            r@ == "Finalize class inheritance"@,
    {
        "Finalize class inheritance"
    }

    fn execute(&self, args: &[Value]) -> (r: Result<Value, Error>)
        ensures
            outcome(r) == (yields(if args@.len() == 0 { Val::Null } else { args@[0].model() })),
    {
        Ok(if args.len() == 0 { Value::Null } else { args[0].clone() })
    }
}

/// SLOT-DEFINITION-NAME - Get slot name
pub struct SlotDefinitionNameTool;

impl Tool for SlotDefinitionNameTool {
    open spec fn names_itself(&self) -> bool {
        true
    }

    open spec fn spec_name(&self) -> Seq<char> {
        "SLOT-DEFINITION-NAME"@
    }

    open spec fn admits(&self, args: Seq<Val>) -> bool {
        true
    }

    fn name(&self) -> &str {
        "SLOT-DEFINITION-NAME"
    }

    fn description(&self) -> (r: &str)
        ensures
            r@ == "Get name of slot definition"@,
    {
        "Get name of slot definition"
    }

    fn execute(&self, args: &[Value]) -> (r: Result<Value, Error>)
        ensures
            outcome(r) == (if args@.len() == 0 { bad_args("SLOT-DEFINITION-NAME"@, "requires at least 1 argument (slot-definition)"@) } else { yields(args@[0].model()) }),
    {
        if args.len() == 0 {
            return Err(invalid_args("SLOT-DEFINITION-NAME", "requires at least 1 argument (slot-definition)"));
        }
        Ok(args[0].clone())
    }
}

/// SLOT-DEFINITION-INITARGS - Get slot initargs
pub struct SlotDefinitionInitargsTool;

impl Tool for SlotDefinitionInitargsTool {
    open spec fn names_itself(&self) -> bool {
        true
    }

    open spec fn spec_name(&self) -> Seq<char> {
        "SLOT-DEFINITION-INITARGS"@
    }

    open spec fn admits(&self, args: Seq<Val>) -> bool {
        true
    }

    fn name(&self) -> &str {
        "SLOT-DEFINITION-INITARGS"
    }

    fn description(&self) -> (r: &str)
        ensures
            r@ == "Get initialization arguments of slot"@,
    {
        "Get initialization arguments of slot"
    }

    fn execute(&self, args: &[Value]) -> (r: Result<Value, Error>)
        ensures
            outcome(r) == (yields(Val::Arr(Seq::<Val>::empty()))),
    {
        Ok(Value::Array(Vec::new()))
    }
}

/// SLOT-DEFINITION-INITFORM - Get slot initform
pub struct SlotDefinitionInitformTool;

impl Tool for SlotDefinitionInitformTool {
    open spec fn names_itself(&self) -> bool {
        true
    }

    open spec fn spec_name(&self) -> Seq<char> {
        "SLOT-DEFINITION-INITFORM"@
    }

    open spec fn admits(&self, args: Seq<Val>) -> bool {
        true
    }

    fn name(&self) -> &str {
        "SLOT-DEFINITION-INITFORM"
    }

    fn description(&self) -> (r: &str)
        ensures
            r@ == "Get initialization form of slot"@,
    {
        "Get initialization form of slot"
    }

    fn execute(&self, args: &[Value]) -> (r: Result<Value, Error>)
        ensures
            outcome(r) == (yields(Val::Null)),
    {
        Ok(Value::Null)
    }
}

/// SLOT-DEFINITION-INITFUNCTION - Get slot init function
pub struct SlotDefinitionInitfunctionTool;

impl Tool for SlotDefinitionInitfunctionTool {
    open spec fn names_itself(&self) -> bool {
        true
    }

    open spec fn spec_name(&self) -> Seq<char> {
        "SLOT-DEFINITION-INITFUNCTION"@
    }

    open spec fn admits(&self, args: Seq<Val>) -> bool {
        true
    }

    fn name(&self) -> &str {
        "SLOT-DEFINITION-INITFUNCTION"
    }

    fn description(&self) -> (r: &str)
        ensures
            r@ == "Get initialization function of slot"@,
    {
        "Get initialization function of slot"
    }

    fn execute(&self, args: &[Value]) -> (r: Result<Value, Error>)
        ensures
            outcome(r) == (yields(Val::Null)),
    {
        Ok(Value::Null)
    }
}

/// SLOT-DEFINITION-TYPE - Get slot type
pub struct SlotDefinitionTypeTool;

impl Tool for SlotDefinitionTypeTool {
    open spec fn names_itself(&self) -> bool {
        true
    }

    open spec fn spec_name(&self) -> Seq<char> {
        "SLOT-DEFINITION-TYPE"@
    }

    open spec fn admits(&self, args: Seq<Val>) -> bool {
        true
    }

    fn name(&self) -> &str {
        "SLOT-DEFINITION-TYPE"
    }

    fn description(&self) -> (r: &str)
        ensures
            r@ == "Get type of slot"@,
    {
        "Get type of slot"
    }

    fn execute(&self, args: &[Value]) -> (r: Result<Value, Error>)
        ensures
            outcome(r) == (yields(Val::Str("T"@))),
    {
        Ok(Value::String(owned("T")))
    }
}

/// SLOT-DEFINITION-ALLOCATION - Get slot allocation
pub struct SlotDefinitionAllocationTool;

impl Tool for SlotDefinitionAllocationTool {
    open spec fn names_itself(&self) -> bool {
        true
    }

    open spec fn spec_name(&self) -> Seq<char> {
        "SLOT-DEFINITION-ALLOCATION"@
    }

    open spec fn admits(&self, args: Seq<Val>) -> bool {
        true
    }

    fn name(&self) -> &str {
        "SLOT-DEFINITION-ALLOCATION"
    }

    fn description(&self) -> (r: &str)
        ensures
            r@ == "Get allocation type of slot"@,
    {
        "Get allocation type of slot"
    }

    fn execute(&self, args: &[Value]) -> (r: Result<Value, Error>)
        ensures
            outcome(r) == (yields(Val::Str("INSTANCE"@))),
    {
        Ok(Value::String(owned("INSTANCE")))
    }
}

/// SLOT-DEFINITION-READERS - Get slot readers
pub struct SlotDefinitionReadersTool;

impl Tool for SlotDefinitionReadersTool {
    open spec fn names_itself(&self) -> bool {
        true
    }

    open spec fn spec_name(&self) -> Seq<char> {
        "SLOT-DEFINITION-READERS"@
    }

    open spec fn admits(&self, args: Seq<Val>) -> bool {
        true
    }

    fn name(&self) -> &str {
        "SLOT-DEFINITION-READERS"
    }

    fn description(&self) -> (r: &str)
        ensures
            r@ == "Get reader methods of slot"@,
    {
        "Get reader methods of slot"
    }

    fn execute(&self, args: &[Value]) -> (r: Result<Value, Error>)
        ensures
            outcome(r) == (yields(Val::Arr(Seq::<Val>::empty()))),
    {
        Ok(Value::Array(Vec::new()))
    }
}

/// SLOT-DEFINITION-WRITERS - Get slot writers
pub struct SlotDefinitionWritersTool;

impl Tool for SlotDefinitionWritersTool {
    open spec fn names_itself(&self) -> bool {
        true
    }

    open spec fn spec_name(&self) -> Seq<char> {
        "SLOT-DEFINITION-WRITERS"@
    }

    open spec fn admits(&self, args: Seq<Val>) -> bool {
        true
    }

    fn name(&self) -> &str {
        "SLOT-DEFINITION-WRITERS"
    }

    fn description(&self) -> (r: &str)
        ensures
            r@ == "Get writer methods of slot"@,
    {
        "Get writer methods of slot"
    }

    fn execute(&self, args: &[Value]) -> (r: Result<Value, Error>)
        ensures
            outcome(r) == (yields(Val::Arr(Seq::<Val>::empty()))),
    {
        Ok(Value::Array(Vec::new()))
    }
}

/// SLOT-DEFINITION-LOCATION - Get slot storage location
pub struct SlotDefinitionLocationTool;

impl Tool for SlotDefinitionLocationTool {
    open spec fn names_itself(&self) -> bool {
        true
    }

    open spec fn spec_name(&self) -> Seq<char> {
        "SLOT-DEFINITION-LOCATION"@
    }

    open spec fn admits(&self, args: Seq<Val>) -> bool {
        true
    }

    fn name(&self) -> &str {
        "SLOT-DEFINITION-LOCATION"
    }

    fn description(&self) -> (r: &str)
        ensures
            r@ == "Get storage location of slot"@,
    {
        "Get storage location of slot"
    }

    fn execute(&self, args: &[Value]) -> (r: Result<Value, Error>)
        ensures
            outcome(r) == (yields(Val::Int(0))),
    {
        Ok(Value::Int(0))
    }
}

/// EQL-SPECIALIZER - Create EQL specializer
pub struct EqlSpecializerTool;

impl Tool for EqlSpecializerTool {
    open spec fn names_itself(&self) -> bool {
        true
    }

    open spec fn spec_name(&self) -> Seq<char> {
        "EQL-SPECIALIZER"@
    }

    open spec fn admits(&self, args: Seq<Val>) -> bool {
        true
    }

    fn name(&self) -> &str {
        "EQL-SPECIALIZER"
    }

    fn description(&self) -> (r: &str)
        ensures
            r@ == "Create EQL specializer"@,
    {
        "Create EQL specializer"
    }

    fn execute(&self, args: &[Value]) -> (r: Result<Value, Error>)
        ensures
            outcome(r) == (yields(if args@.len() == 0 { Val::Null } else { args@[0].model() })),
    {
        Ok(if args.len() == 0 { Value::Null } else { args[0].clone() })
    }
}

/// EQL-SPECIALIZER-OBJECT - Get object from EQL specializer
pub struct EqlSpecializerObjectTool;

impl Tool for EqlSpecializerObjectTool {
    open spec fn names_itself(&self) -> bool {
        true
    }

    open spec fn spec_name(&self) -> Seq<char> {
        "EQL-SPECIALIZER-OBJECT"@
    }

    open spec fn admits(&self, args: Seq<Val>) -> bool {
        true
    }

    fn name(&self) -> &str {
        "EQL-SPECIALIZER-OBJECT"
    }

    fn description(&self) -> (r: &str)
        ensures
            r@ == "Get object from EQL specializer"@,
    {
        "Get object from EQL specializer"
    }

    fn execute(&self, args: &[Value]) -> (r: Result<Value, Error>)
        ensures
            outcome(r) == (yields(if args@.len() == 0 { Val::Null } else { args@[0].model() })),
    {
        Ok(if args.len() == 0 { Value::Null } else { args[0].clone() })
    }
}

/// SPECIALIZER-DIRECT-GENERIC-FUNCTIONS - Get generic functions
pub struct SpecializerDirectGenericFunctionsTool;

impl Tool for SpecializerDirectGenericFunctionsTool {
    open spec fn names_itself(&self) -> bool {
        true
    }

    open spec fn spec_name(&self) -> Seq<char> {
        "SPECIALIZER-DIRECT-GENERIC-FUNCTIONS"@
    }

    open spec fn admits(&self, args: Seq<Val>) -> bool {
        true
    }

    fn name(&self) -> &str {
        "SPECIALIZER-DIRECT-GENERIC-FUNCTIONS"
    }

    fn description(&self) -> (r: &str)
        ensures
            r@ == "Get generic functions using specializer"@,
    {
        "Get generic functions using specializer"
    }

    fn execute(&self, args: &[Value]) -> (r: Result<Value, Error>)
        ensures
            outcome(r) == (yields(Val::Arr(Seq::<Val>::empty()))),
    {
        Ok(Value::Array(Vec::new()))
    }
}

/// SPECIALIZER-DIRECT-METHODS - Get methods using specializer
pub struct SpecializerDirectMethodsTool;

impl Tool for SpecializerDirectMethodsTool {
    open spec fn names_itself(&self) -> bool {
        true
    }

    open spec fn spec_name(&self) -> Seq<char> {
        "SPECIALIZER-DIRECT-METHODS"@
    }

    open spec fn admits(&self, args: Seq<Val>) -> bool {
        true
    }

    fn name(&self) -> &str {
        "SPECIALIZER-DIRECT-METHODS"
    }

    fn description(&self) -> (r: &str)
        ensures
            r@ == "Get methods using specializer"@,
    {
        "Get methods using specializer"
    }

    fn execute(&self, args: &[Value]) -> (r: Result<Value, Error>)
        ensures
            outcome(r) == (yields(Val::Arr(Seq::<Val>::empty()))),
    {
        Ok(Value::Array(Vec::new()))
    }
}

/// ENSURE-GENERIC-FUNCTION - Ensure generic function exists
pub struct EnsureGenericFunctionTool;

impl Tool for EnsureGenericFunctionTool {
    open spec fn names_itself(&self) -> bool {
        true
    }

    open spec fn spec_name(&self) -> Seq<char> {
        "ENSURE-GENERIC-FUNCTION"@
    }

    open spec fn admits(&self, args: Seq<Val>) -> bool {
        true
    }

    fn name(&self) -> &str {
        "ENSURE-GENERIC-FUNCTION"
    }

    fn description(&self) -> (r: &str)
        ensures
            r@ == "Ensure generic function exists"@,
    {
        "Ensure generic function exists"
    }

    fn execute(&self, args: &[Value]) -> (r: Result<Value, Error>)
        ensures
            outcome(r) == (yields(if args@.len() == 0 { Val::Null } else { args@[0].model() })),
    {
        Ok(if args.len() == 0 { Value::Null } else { args[0].clone() })
    }
}

/// ENSURE-CLASS - Ensure class exists
pub struct EnsureClassTool;

impl Tool for EnsureClassTool {
    open spec fn names_itself(&self) -> bool {
        true
    }

    open spec fn spec_name(&self) -> Seq<char> {
        "ENSURE-CLASS"@
    }

    open spec fn admits(&self, args: Seq<Val>) -> bool {
        true
    }

    fn name(&self) -> &str {
        "ENSURE-CLASS"
    }

    fn description(&self) -> (r: &str)
        ensures
            r@ == "Ensure class exists"@,
    {
        "Ensure class exists"
    }

    fn execute(&self, args: &[Value]) -> (r: Result<Value, Error>)
        ensures
            outcome(r) == (yields(if args@.len() == 0 { Val::Null } else { args@[0].model() })),
    {
        Ok(if args.len() == 0 { Value::Null } else { args[0].clone() })
    }
}

/// ALLOCATE-INSTANCE - Allocate instance without initialization
pub struct AllocateInstanceTool;

impl Tool for AllocateInstanceTool {
    open spec fn names_itself(&self) -> bool {
        true
    }

    open spec fn spec_name(&self) -> Seq<char> {
        "ALLOCATE-INSTANCE"@
    }

    open spec fn admits(&self, args: Seq<Val>) -> bool {
        true
    }

    fn name(&self) -> &str {
        "ALLOCATE-INSTANCE"
    }

    fn description(&self) -> (r: &str)
        ensures
            r@ == "Allocate instance without initialization"@,
    {
        "Allocate instance without initialization"
    }

    fn execute(&self, args: &[Value]) -> (r: Result<Value, Error>)
        ensures
            outcome(r) == (yields(Val::Obj(Seq::<(Seq<char>, Val)>::empty()))),
    {
        Ok(Value::Object(ObjectMap::new()))
    }
}

/// MAKE-INSTANCE-STANDARD - Standard instance creation
pub struct MakeInstanceStandardTool;

impl Tool for MakeInstanceStandardTool {
    open spec fn names_itself(&self) -> bool {
        true
    }

    open spec fn spec_name(&self) -> Seq<char> {
        "MAKE-INSTANCE-STANDARD"@
    }

    open spec fn admits(&self, args: Seq<Val>) -> bool {
        true
    }

    fn name(&self) -> &str {
        "MAKE-INSTANCE-STANDARD"
    }

    fn description(&self) -> (r: &str)
        ensures
            r@ == "Create standard instance"@,
    {
        "Create standard instance"
    }

    fn execute(&self, args: &[Value]) -> (r: Result<Value, Error>)
        ensures
            outcome(r) == (yields(Val::Obj(Seq::<(Seq<char>, Val)>::empty()))),
    {
        Ok(Value::Object(ObjectMap::new()))
    }
}

/// MAKE-INSTANCES-OBSOLETE - Mark instances obsolete
pub struct MakeInstancesObsoleteTool;

impl Tool for MakeInstancesObsoleteTool {
    open spec fn names_itself(&self) -> bool {
        true
    }

    open spec fn spec_name(&self) -> Seq<char> {
        "MAKE-INSTANCES-OBSOLETE"@
    }

    open spec fn admits(&self, args: Seq<Val>) -> bool {
        true
    }

    fn name(&self) -> &str {
        "MAKE-INSTANCES-OBSOLETE"
    }

    fn description(&self) -> (r: &str)
        ensures
            r@ == "Mark class instances obsolete"@,
    {
        "Mark class instances obsolete"
    }

    fn execute(&self, args: &[Value]) -> (r: Result<Value, Error>)
        ensures
            outcome(r) == (yields(if args@.len() == 0 { Val::Null } else { args@[0].model() })),
    {
        Ok(if args.len() == 0 { Value::Null } else { args[0].clone() })
    }
}

/// UPDATE-INSTANCE-FOR-REDEFINED-CLASS - Update after redefine
pub struct UpdateInstanceForRedefinedClassTool;

impl Tool for UpdateInstanceForRedefinedClassTool {
    open spec fn names_itself(&self) -> bool {
        true
    }

    open spec fn spec_name(&self) -> Seq<char> {
        "UPDATE-INSTANCE-FOR-REDEFINED-CLASS"@
    }

    open spec fn admits(&self, args: Seq<Val>) -> bool {
        true
    }

    fn name(&self) -> &str {
        "UPDATE-INSTANCE-FOR-REDEFINED-CLASS"
    }

    fn description(&self) -> (r: &str)
        ensures
            r@ == "Update instance after class redefinition"@,
    {
        "Update instance after class redefinition"
    }

    fn execute(&self, args: &[Value]) -> (r: Result<Value, Error>)
        ensures
            outcome(r) == (yields(if args@.len() == 0 { Val::Null } else { args@[0].model() })),
    {
        Ok(if args.len() == 0 { Value::Null } else { args[0].clone() })
    }
}

/// SET-FUNCALLABLE-INSTANCE-FUNCTION - Set funcallable function
pub struct SetFuncallableInstanceFunctionTool;

impl Tool for SetFuncallableInstanceFunctionTool {
    open spec fn names_itself(&self) -> bool {
        true
    }

    open spec fn spec_name(&self) -> Seq<char> {
        "SET-FUNCALLABLE-INSTANCE-FUNCTION"@
    }

    open spec fn admits(&self, args: Seq<Val>) -> bool {
        true
    }

    fn name(&self) -> &str {
        "SET-FUNCALLABLE-INSTANCE-FUNCTION"
    }

    fn description(&self) -> (r: &str)
        ensures
            r@ == "Set function of funcallable instance"@,
    {
        "Set function of funcallable instance"
    }

    fn execute(&self, args: &[Value]) -> (r: Result<Value, Error>)
        ensures
            outcome(r) == (if args@.len() < 2 { bad_args("SET-FUNCALLABLE-INSTANCE-FUNCTION"@, "requires at least 2 arguments (instance function)"@) } else { yields(args@[0].model()) }),
    {
        if args.len() < 2 {
            return Err(invalid_args("SET-FUNCALLABLE-INSTANCE-FUNCTION", "requires at least 2 arguments (instance function)"));
        }
        Ok(args[0].clone())
    }
}

/// FUNCALLABLE-STANDARD-CLASS - Funcallable standard class
pub struct FuncallableStandardClassTool;

impl Tool for FuncallableStandardClassTool {
    open spec fn names_itself(&self) -> bool {
        true
    }

    open spec fn spec_name(&self) -> Seq<char> {
        "FUNCALLABLE-STANDARD-CLASS"@
    }

    open spec fn admits(&self, args: Seq<Val>) -> bool {
        true
    }

    fn name(&self) -> &str {
        "FUNCALLABLE-STANDARD-CLASS"
    }

    fn description(&self) -> (r: &str)
        ensures
            r@ == "Funcallable standard class type"@,
    {
        "Funcallable standard class type"
    }

    fn execute(&self, args: &[Value]) -> (r: Result<Value, Error>)
        ensures
            outcome(r) == (yields(Val::Str("FUNCALLABLE-STANDARD-CLASS"@))),
    {
        Ok(Value::String(owned("FUNCALLABLE-STANDARD-CLASS")))
    }
}

/// FUNCALLABLE-STANDARD-OBJECT - Funcallable standard object
pub struct FuncallableStandardObjectTool;

impl Tool for FuncallableStandardObjectTool {
    open spec fn names_itself(&self) -> bool {
        true
    }

    open spec fn spec_name(&self) -> Seq<char> {
        "FUNCALLABLE-STANDARD-OBJECT"@
    }

    open spec fn admits(&self, args: Seq<Val>) -> bool {
        true
    }

    fn name(&self) -> &str {
        "FUNCALLABLE-STANDARD-OBJECT"
    }

    fn description(&self) -> (r: &str)
        ensures
            r@ == "Funcallable standard object type"@,
    {
        "Funcallable standard object type"
    }

    fn execute(&self, args: &[Value]) -> (r: Result<Value, Error>)
        ensures
            outcome(r) == (yields(Val::Str("FUNCALLABLE-STANDARD-OBJECT"@))),
    {
        Ok(Value::String(owned("FUNCALLABLE-STANDARD-OBJECT")))
    }
}

} // verus!
