//! Package system for OVSM
//!
//! Provides namespace management functionality.
//! Extended package system with full Common Lisp compatibility.
use vstd::prelude::*;

#[allow(unused_imports)]
use crate::access::{copy_range, copy_slice, copy_values, values_equal};
#[allow(unused_imports)]
use crate::error::{empty_collection, exec_error, invalid_args, ErrV, Error};
#[allow(unused_imports)]
use crate::text::{alphabetic, alphanumeric, char_from_u32, char_is_alphabetic, char_is_alphanumeric, char_is_lowercase, char_is_uppercase, char_is_whitespace, char_string, char_to_lowercase, char_to_uppercase, chars_of, chars_skip, concat, i64_to_string, int_decimal, lower_case, lower_chars, lowercase, owned, scalar_value, seq_less, str_equal, str_less, string_from_chars, to_lower, to_upper, upper_case, upper_chars, uppercase, whitespace};
#[allow(unused_imports)]
use crate::tools::{bad_args, name_insert, outcome, ref_outcome, string_views, yields, Tool, ToolRegistry};
#[allow(unused_imports)]
use crate::value::{and_then, elems, entry_models, int_of, models, obj_insert, obj_keys, obj_lookup, obj_merge, obj_of, obj_values, str_of, truthy, type_error, ObjectMap, Val, Value};

verus! {

broadcast use crate::seq_models::group_value_models;

/// The names after registering this module's tools, in order.
pub open spec fn registered_names(ns: Seq<Seq<char>>) -> Seq<Seq<char>> {
    let ns = name_insert(ns, "MAKE-PACKAGE"@);
    let ns = name_insert(ns, "DEFPACKAGE"@);
    let ns = name_insert(ns, "DELETE-PACKAGE"@);
    let ns = name_insert(ns, "FIND-PACKAGE"@);
    let ns = name_insert(ns, "PACKAGE-NAME"@);
    let ns = name_insert(ns, "PACKAGE-NICKNAMES"@);
    let ns = name_insert(ns, "RENAME-PACKAGE"@);
    let ns = name_insert(ns, "INTERN"@);
    let ns = name_insert(ns, "FIND-SYMBOL"@);
    let ns = name_insert(ns, "UNINTERN"@);
    let ns = name_insert(ns, "EXPORT"@);
    let ns = name_insert(ns, "UNEXPORT"@);
    let ns = name_insert(ns, "IMPORT"@);
    let ns = name_insert(ns, "SHADOWING-IMPORT"@);
    let ns = name_insert(ns, "SHADOW"@);
    let ns = name_insert(ns, "LIST-ALL-PACKAGES"@);
    let ns = name_insert(ns, "PACKAGE-USE-LIST"@);
    let ns = name_insert(ns, "PACKAGE-USED-BY-LIST"@);
    let ns = name_insert(ns, "PACKAGE-SHADOWING-SYMBOLS"@);
    let ns = name_insert(ns, "USE-PACKAGE"@);
    let ns = name_insert(ns, "UNUSE-PACKAGE"@);
    let ns = name_insert(ns, "DO-SYMBOLS"@);
    let ns = name_insert(ns, "DO-EXTERNAL-SYMBOLS"@);
    let ns = name_insert(ns, "DO-ALL-SYMBOLS"@);
    let ns = name_insert(ns, "PACKAGEP"@);
    let ns = name_insert(ns, "IN-PACKAGE"@);
    let ns = name_insert(ns, "SYMBOL-PACKAGE"@);
    let ns = name_insert(ns, "WITH-PACKAGE-ITERATOR"@);
    let ns = name_insert(ns, "PACKAGE-LOCKED-P"@);
    let ns = name_insert(ns, "LOCK-PACKAGE"@);
    let ns = name_insert(ns, "UNLOCK-PACKAGE"@);
    let ns = name_insert(ns, "PACKAGE-IMPLEMENTED-BY-LIST"@);
    let ns = name_insert(ns, "PACKAGE-IMPLEMENTS-LIST"@);
    let ns = name_insert(ns, "ADD-PACKAGE-LOCAL-NICKNAME"@);
    let ns = name_insert(ns, "REMOVE-PACKAGE-LOCAL-NICKNAME"@);
    let ns = name_insert(ns, "PACKAGE-LOCAL-NICKNAMES"@);
    let ns = name_insert(ns, "PACKAGE-LOCALLY-NICKNAMED-BY-LIST"@);
    let ns = name_insert(ns, "WITH-PACKAGE-LOCK-HELD"@);
    let ns = name_insert(ns, "WITHOUT-PACKAGE-LOCKS"@);
    let ns = name_insert(ns, "DISABLE-PACKAGE-LOCKS"@);
    let ns = name_insert(ns, "ENABLE-PACKAGE-LOCKS"@);
    let ns = name_insert(ns, "PACKAGE-DOCUMENTATION"@);
    let ns = name_insert(ns, "SET-PACKAGE-DOCUMENTATION"@);
    let ns = name_insert(ns, "DESCRIBE-PACKAGE"@);
    let ns = name_insert(ns, "PACKAGE-APROPOS"@);
    let ns = name_insert(ns, "PACKAGE-APROPOS-LIST"@);
    let ns = name_insert(ns, "PACKAGE-INHERITED-SYMBOLS"@);
    ns
}

/// Register the tools of this module.
pub fn register(registry: &mut ToolRegistry)
    ensures
        final(registry).names() == registered_names(old(registry).names()),
{
    registry.register(MakePackageTool);
    registry.register(DefpackageTool);
    registry.register(DeletePackageTool);
    registry.register(FindPackageTool);
    registry.register(PackageNameTool);
    registry.register(PackageNicknamesTo);
    registry.register(RenamePackageTool);
    registry.register(InternTool);
    registry.register(FindSymbolTool);
    registry.register(UninternTool);
    registry.register(ExportTool);
    registry.register(UnexportTool);
    registry.register(ImportTool);
    registry.register(ShadowingImportTool);
    registry.register(ShadowTool);
    registry.register(ListAllPackagesTool);
    registry.register(PackageUseListTool);
    registry.register(PackageUsedByListTool);
    registry.register(PackageShadowingSymbolsTool);
    registry.register(UsePackageTool);
    registry.register(UnusePackageTool);
    registry.register(DoSymbolsTool);
    registry.register(DoExternalSymbolsTool);
    registry.register(DoAllSymbolsTool);
    registry.register(PackagepTool);
    registry.register(InPackageTool);
    registry.register(SymbolPackageTool);
    registry.register(WithPackageIteratorTool);
    registry.register(PackageLockedPTool);
    registry.register(LockPackageTool);
    registry.register(UnlockPackageTool);
    registry.register(PackageImplementedByListTool);
    registry.register(PackageImplementsListTool);
    registry.register(AddPackageLocalNicknameTool);
    registry.register(RemovePackageLocalNicknameTool);
    registry.register(PackageLocalNicknamesTool);
    registry.register(PackageLocallyNickedByListTool);
    registry.register(WithPackageLockHeldTool);
    registry.register(WithoutPackageLocksTool);
    registry.register(DisablePackageLocksTool);
    registry.register(EnablePackageLocksTool);
    registry.register(PackageDocumentationTool);
    registry.register(SetPackageDocumentationTool);
    registry.register(DescribePackageTool);
    registry.register(PackageAproposTool);
    registry.register(PackageAproposListTool);
    registry.register(PackageInheritedSymbolsTool);
}

/// MAKE-PACKAGE - Create package
pub struct MakePackageTool;

impl Tool for MakePackageTool {
    open spec fn names_itself(&self) -> bool {
        true
    }

    open spec fn spec_name(&self) -> Seq<char> {
        "MAKE-PACKAGE"@
    }

    open spec fn admits(&self, args: Seq<Val>) -> bool {
        true
    }

    fn name(&self) -> &str {
        "MAKE-PACKAGE"
    }

    fn description(&self) -> (r: &str)
        ensures
            r@ == "Create new package"@,
    {
        "Create new package"
    }

    fn execute(&self, args: &[Value]) -> (r: Result<Value, Error>)
        ensures
            outcome(r) == (yields(if args@.len() == 0 { Val::Str("ANONYMOUS-PACKAGE"@) } else { args@[0].model() })),
    {
        Ok(if args.len() == 0 { Value::String(owned("ANONYMOUS-PACKAGE")) } else { args[0].clone() })
    }
}

/// DEFPACKAGE - Define package
pub struct DefpackageTool;

impl Tool for DefpackageTool {
    open spec fn names_itself(&self) -> bool {
        true
    }

    open spec fn spec_name(&self) -> Seq<char> {
        "DEFPACKAGE"@
    }

    open spec fn admits(&self, args: Seq<Val>) -> bool {
        true
    }

    fn name(&self) -> &str {
        "DEFPACKAGE"
    }

    fn description(&self) -> (r: &str)
        ensures
            r@ == "Define package"@,
    {
        "Define package"
    }

    fn execute(&self, args: &[Value]) -> (r: Result<Value, Error>)
        ensures
            outcome(r) == (yields(if args@.len() == 0 { Val::Null } else { args@[0].model() })),
    {
        Ok(if args.len() == 0 { Value::Null } else { args[0].clone() })
    }
}

/// DELETE-PACKAGE - Delete package
pub struct DeletePackageTool;

impl Tool for DeletePackageTool {
    open spec fn names_itself(&self) -> bool {
        true
    }

    open spec fn spec_name(&self) -> Seq<char> {
        "DELETE-PACKAGE"@
    }

    open spec fn admits(&self, args: Seq<Val>) -> bool {
        true
    }

    fn name(&self) -> &str {
        "DELETE-PACKAGE"
    }

    fn description(&self) -> (r: &str)
        ensures
            r@ == "Delete package"@,
    {
        "Delete package"
    }

    fn execute(&self, args: &[Value]) -> (r: Result<Value, Error>)
        ensures
            outcome(r) == (if args@.len() == 0 { bad_args("DELETE-PACKAGE"@, "Expected 1 argument (package)"@) } else { yields(Val::Bool(true)) }),
    {
        if args.len() == 0 {
            return Err(invalid_args("DELETE-PACKAGE", "Expected 1 argument (package)"));
        }
        Ok(Value::Bool(true))
    }
}

/// FIND-PACKAGE - Find package by name
pub struct FindPackageTool;

impl Tool for FindPackageTool {
    open spec fn names_itself(&self) -> bool {
        true
    }

    open spec fn spec_name(&self) -> Seq<char> {
        "FIND-PACKAGE"@
    }

    open spec fn admits(&self, args: Seq<Val>) -> bool {
        true
    }

    fn name(&self) -> &str {
        "FIND-PACKAGE"
    }

    fn description(&self) -> (r: &str)
        ensures
            r@ == "Find package by name"@,
    {
        "Find package by name"
    }

    fn execute(&self, args: &[Value]) -> (r: Result<Value, Error>)
        ensures
            outcome(r) == (yields(if args@.len() == 0 { Val::Null } else { args@[0].model() })),
    {
        Ok(if args.len() == 0 { Value::Null } else { args[0].clone() })
    }
}

/// PACKAGE-NAME - Get package name
pub struct PackageNameTool;

impl Tool for PackageNameTool {
    open spec fn names_itself(&self) -> bool {
        true
    }

    open spec fn spec_name(&self) -> Seq<char> {
        "PACKAGE-NAME"@
    }

    open spec fn admits(&self, args: Seq<Val>) -> bool {
        true
    }

    fn name(&self) -> &str {
        "PACKAGE-NAME"
    }

    fn description(&self) -> (r: &str)
        ensures
            r@ == "Get package name"@,
    {
        "Get package name"
    }

    fn execute(&self, args: &[Value]) -> (r: Result<Value, Error>)
        ensures
            outcome(r) == (yields(if args@.len() == 0 { Val::Str("COMMON-LISP"@) } else { args@[0].model() })),
    {
        Ok(if args.len() == 0 { Value::String(owned("COMMON-LISP")) } else { args[0].clone() })
    }
}

/// Get package nicknames
pub struct PackageNicknamesTo;

impl Tool for PackageNicknamesTo {
    open spec fn names_itself(&self) -> bool {
        true
    }

    open spec fn spec_name(&self) -> Seq<char> {
        "PACKAGE-NICKNAMES"@
    }

    open spec fn admits(&self, args: Seq<Val>) -> bool {
        true
    }

    fn name(&self) -> &str {
        "PACKAGE-NICKNAMES"
    }

    fn description(&self) -> (r: &str)
        ensures
            r@ == "Get package nicknames"@,
    {
        "Get package nicknames"
    }

    fn execute(&self, args: &[Value]) -> (r: Result<Value, Error>)
        ensures
            outcome(r) == (yields(if args@.len() == 0 { Val::Arr(Seq::<Val>::empty()) } else { args@[0].model() })),
    {
        Ok(if args.len() == 0 { Value::Array(Vec::new()) } else { args[0].clone() })
    }
}

/// Rename package
pub struct RenamePackageTool;

impl Tool for RenamePackageTool {
    open spec fn names_itself(&self) -> bool {
        true
    }

    open spec fn spec_name(&self) -> Seq<char> {
        "RENAME-PACKAGE"@
    }

    open spec fn admits(&self, args: Seq<Val>) -> bool {
        true
    }

    fn name(&self) -> &str {
        "RENAME-PACKAGE"
    }

    fn description(&self) -> (r: &str)
        ensures
            r@ == "Rename package"@,
    {
        "Rename package"
    }

    fn execute(&self, args: &[Value]) -> (r: Result<Value, Error>)
        ensures
            outcome(r) == (yields(if args@.len() == 0 { Val::Arr(Seq::<Val>::empty()) } else { args@[0].model() })),
    {
        Ok(if args.len() == 0 { Value::Array(Vec::new()) } else { args[0].clone() })
    }
}

/// Intern symbol in package
pub struct InternTool;

impl Tool for InternTool {
    open spec fn names_itself(&self) -> bool {
        true
    }

    open spec fn spec_name(&self) -> Seq<char> {
        "INTERN"@
    }

    open spec fn admits(&self, args: Seq<Val>) -> bool {
        true
    }

    fn name(&self) -> &str {
        "INTERN"
    }

    fn description(&self) -> (r: &str)
        ensures
            r@ == "Intern symbol in package"@,
    {
        "Intern symbol in package"
    }

    fn execute(&self, args: &[Value]) -> (r: Result<Value, Error>)
        ensures
            outcome(r) == (yields(if args@.len() == 0 { Val::Arr(Seq::<Val>::empty()) } else { args@[0].model() })),
    {
        Ok(if args.len() == 0 { Value::Array(Vec::new()) } else { args[0].clone() })
    }
}

/// Find symbol in package
pub struct FindSymbolTool;

impl Tool for FindSymbolTool {
    open spec fn names_itself(&self) -> bool {
        true
    }

    open spec fn spec_name(&self) -> Seq<char> {
        "FIND-SYMBOL"@
    }

    open spec fn admits(&self, args: Seq<Val>) -> bool {
        true
    }

    fn name(&self) -> &str {
        "FIND-SYMBOL"
    }

    fn description(&self) -> (r: &str)
        ensures
            r@ == "Find symbol in package"@,
    {
        "Find symbol in package"
    }

    fn execute(&self, args: &[Value]) -> (r: Result<Value, Error>)
        ensures
            outcome(r) == (yields(if args@.len() == 0 { Val::Arr(Seq::<Val>::empty()) } else { args@[0].model() })),
    {
        Ok(if args.len() == 0 { Value::Array(Vec::new()) } else { args[0].clone() })
    }
}

/// Remove symbol from package
pub struct UninternTool;

impl Tool for UninternTool {
    open spec fn names_itself(&self) -> bool {
        true
    }

    open spec fn spec_name(&self) -> Seq<char> {
        "UNINTERN"@
    }

    open spec fn admits(&self, args: Seq<Val>) -> bool {
        true
    }

    fn name(&self) -> &str {
        "UNINTERN"
    }

    fn description(&self) -> (r: &str)
        ensures
            r@ == "Remove symbol from package"@,
    {
        "Remove symbol from package"
    }

    fn execute(&self, args: &[Value]) -> (r: Result<Value, Error>)
        ensures
            outcome(r) == (yields(if args@.len() == 0 { Val::Arr(Seq::<Val>::empty()) } else { args@[0].model() })),
    {
        Ok(if args.len() == 0 { Value::Array(Vec::new()) } else { args[0].clone() })
    }
}

/// Export symbols
pub struct ExportTool;

impl Tool for ExportTool {
    open spec fn names_itself(&self) -> bool {
        true
    }

    open spec fn spec_name(&self) -> Seq<char> {
        "EXPORT"@
    }

    open spec fn admits(&self, args: Seq<Val>) -> bool {
        true
    }

    fn name(&self) -> &str {
        "EXPORT"
    }

    fn description(&self) -> (r: &str)
        ensures
            r@ == "Export symbols"@,
    {
        "Export symbols"
    }

    fn execute(&self, args: &[Value]) -> (r: Result<Value, Error>)
        ensures
            outcome(r) == (yields(if args@.len() == 0 { Val::Arr(Seq::<Val>::empty()) } else { args@[0].model() })),
    {
        Ok(if args.len() == 0 { Value::Array(Vec::new()) } else { args[0].clone() })
    }
}

/// Unexport symbols
pub struct UnexportTool;

impl Tool for UnexportTool {
    open spec fn names_itself(&self) -> bool {
        true
    }

    open spec fn spec_name(&self) -> Seq<char> {
        "UNEXPORT"@
    }

    open spec fn admits(&self, args: Seq<Val>) -> bool {
        true
    }

    fn name(&self) -> &str {
        "UNEXPORT"
    }

    fn description(&self) -> (r: &str)
        ensures
            r@ == "Unexport symbols"@,
    {
        "Unexport symbols"
    }

    fn execute(&self, args: &[Value]) -> (r: Result<Value, Error>)
        ensures
            outcome(r) == (yields(if args@.len() == 0 { Val::Arr(Seq::<Val>::empty()) } else { args@[0].model() })),
    {
        Ok(if args.len() == 0 { Value::Array(Vec::new()) } else { args[0].clone() })
    }
}

/// Import symbols
pub struct ImportTool;

impl Tool for ImportTool {
    open spec fn names_itself(&self) -> bool {
        true
    }

    open spec fn spec_name(&self) -> Seq<char> {
        "IMPORT"@
    }

    open spec fn admits(&self, args: Seq<Val>) -> bool {
        true
    }

    fn name(&self) -> &str {
        "IMPORT"
    }

    fn description(&self) -> (r: &str)
        ensures
            r@ == "Import symbols"@,
    {
        "Import symbols"
    }

    fn execute(&self, args: &[Value]) -> (r: Result<Value, Error>)
        ensures
            outcome(r) == (yields(if args@.len() == 0 { Val::Arr(Seq::<Val>::empty()) } else { args@[0].model() })),
    {
        Ok(if args.len() == 0 { Value::Array(Vec::new()) } else { args[0].clone() })
    }
}

/// Import with shadowing
pub struct ShadowingImportTool;

impl Tool for ShadowingImportTool {
    open spec fn names_itself(&self) -> bool {
        true
    }

    open spec fn spec_name(&self) -> Seq<char> {
        "SHADOWING-IMPORT"@
    }

    open spec fn admits(&self, args: Seq<Val>) -> bool {
        true
    }

    fn name(&self) -> &str {
        "SHADOWING-IMPORT"
    }

    fn description(&self) -> (r: &str)
        ensures
            r@ == "Import with shadowing"@,
    {
        "Import with shadowing"
    }

    fn execute(&self, args: &[Value]) -> (r: Result<Value, Error>)
        ensures
            outcome(r) == (yields(if args@.len() == 0 { Val::Arr(Seq::<Val>::empty()) } else { args@[0].model() })),
    {
        Ok(if args.len() == 0 { Value::Array(Vec::new()) } else { args[0].clone() })
    }
}

/// Shadow symbols
pub struct ShadowTool;

impl Tool for ShadowTool {
    open spec fn names_itself(&self) -> bool {
        true
    }

    open spec fn spec_name(&self) -> Seq<char> {
        "SHADOW"@
    }

    open spec fn admits(&self, args: Seq<Val>) -> bool {
        true
    }

    fn name(&self) -> &str {
        "SHADOW"
    }

    fn description(&self) -> (r: &str)
        ensures
            r@ == "Shadow symbols"@,
    {
        "Shadow symbols"
    }

    fn execute(&self, args: &[Value]) -> (r: Result<Value, Error>)
        ensures
            outcome(r) == (yields(if args@.len() == 0 { Val::Arr(Seq::<Val>::empty()) } else { args@[0].model() })),
    {
        Ok(if args.len() == 0 { Value::Array(Vec::new()) } else { args[0].clone() })
    }
}

/// Get all packages
pub struct ListAllPackagesTool;

impl Tool for ListAllPackagesTool {
    open spec fn names_itself(&self) -> bool {
        true
    }

    open spec fn spec_name(&self) -> Seq<char> {
        "LIST-ALL-PACKAGES"@
    }

    open spec fn admits(&self, args: Seq<Val>) -> bool {
        true
    }

    fn name(&self) -> &str {
        "LIST-ALL-PACKAGES"
    }

    fn description(&self) -> (r: &str)
        ensures
            r@ == "Get all packages"@,
    {
        "Get all packages"
    }

    fn execute(&self, args: &[Value]) -> (r: Result<Value, Error>)
        ensures
            outcome(r) == (yields(if args@.len() == 0 { Val::Arr(Seq::<Val>::empty()) } else { args@[0].model() })),
    {
        Ok(if args.len() == 0 { Value::Array(Vec::new()) } else { args[0].clone() })
    }
}

/// Get used packages
pub struct PackageUseListTool;

impl Tool for PackageUseListTool {
    open spec fn names_itself(&self) -> bool {
        true
    }

    open spec fn spec_name(&self) -> Seq<char> {
        "PACKAGE-USE-LIST"@
    }

    open spec fn admits(&self, args: Seq<Val>) -> bool {
        true
    }

    fn name(&self) -> &str {
        "PACKAGE-USE-LIST"
    }

    fn description(&self) -> (r: &str)
        ensures
            r@ == "Get used packages"@,
    {
        "Get used packages"
    }

    fn execute(&self, args: &[Value]) -> (r: Result<Value, Error>)
        ensures
            outcome(r) == (yields(if args@.len() == 0 { Val::Arr(Seq::<Val>::empty()) } else { args@[0].model() })),
    {
        Ok(if args.len() == 0 { Value::Array(Vec::new()) } else { args[0].clone() })
    }
}

/// Get packages using this
pub struct PackageUsedByListTool;

impl Tool for PackageUsedByListTool {
    open spec fn names_itself(&self) -> bool {
        true
    }

    open spec fn spec_name(&self) -> Seq<char> {
        "PACKAGE-USED-BY-LIST"@
    }

    open spec fn admits(&self, args: Seq<Val>) -> bool {
        true
    }

    fn name(&self) -> &str {
        "PACKAGE-USED-BY-LIST"
    }

    fn description(&self) -> (r: &str)
        ensures
            r@ == "Get packages using this"@,
    {
        "Get packages using this"
    }

    fn execute(&self, args: &[Value]) -> (r: Result<Value, Error>)
        ensures
            outcome(r) == (yields(if args@.len() == 0 { Val::Arr(Seq::<Val>::empty()) } else { args@[0].model() })),
    {
        Ok(if args.len() == 0 { Value::Array(Vec::new()) } else { args[0].clone() })
    }
}

/// Get shadowing symbols
pub struct PackageShadowingSymbolsTool;

impl Tool for PackageShadowingSymbolsTool {
    open spec fn names_itself(&self) -> bool {
        true
    }

    open spec fn spec_name(&self) -> Seq<char> {
        "PACKAGE-SHADOWING-SYMBOLS"@
    }

    open spec fn admits(&self, args: Seq<Val>) -> bool {
        true
    }

    fn name(&self) -> &str {
        "PACKAGE-SHADOWING-SYMBOLS"
    }

    fn description(&self) -> (r: &str)
        ensures
            r@ == "Get shadowing symbols"@,
    {
        "Get shadowing symbols"
    }

    fn execute(&self, args: &[Value]) -> (r: Result<Value, Error>)
        ensures
            outcome(r) == (yields(if args@.len() == 0 { Val::Arr(Seq::<Val>::empty()) } else { args@[0].model() })),
    {
        Ok(if args.len() == 0 { Value::Array(Vec::new()) } else { args[0].clone() })
    }
}

/// Use another package
pub struct UsePackageTool;

impl Tool for UsePackageTool {
    open spec fn names_itself(&self) -> bool {
        true
    }

    open spec fn spec_name(&self) -> Seq<char> {
        "USE-PACKAGE"@
    }

    open spec fn admits(&self, args: Seq<Val>) -> bool {
        true
    }

    fn name(&self) -> &str {
        "USE-PACKAGE"
    }

    fn description(&self) -> (r: &str)
        ensures
            r@ == "Use another package"@,
    {
        "Use another package"
    }

    fn execute(&self, args: &[Value]) -> (r: Result<Value, Error>)
        ensures
            outcome(r) == (yields(if args@.len() == 0 { Val::Arr(Seq::<Val>::empty()) } else { args@[0].model() })),
    {
        Ok(if args.len() == 0 { Value::Array(Vec::new()) } else { args[0].clone() })
    }
}

/// Stop using package
pub struct UnusePackageTool;

impl Tool for UnusePackageTool {
    open spec fn names_itself(&self) -> bool {
        true
    }

    open spec fn spec_name(&self) -> Seq<char> {
        "UNUSE-PACKAGE"@
    }

    open spec fn admits(&self, args: Seq<Val>) -> bool {
        true
    }

    fn name(&self) -> &str {
        "UNUSE-PACKAGE"
    }

    fn description(&self) -> (r: &str)
        ensures
            r@ == "Stop using package"@,
    {
        "Stop using package"
    }

    fn execute(&self, args: &[Value]) -> (r: Result<Value, Error>)
        ensures
            outcome(r) == (yields(if args@.len() == 0 { Val::Arr(Seq::<Val>::empty()) } else { args@[0].model() })),
    {
        Ok(if args.len() == 0 { Value::Array(Vec::new()) } else { args[0].clone() })
    }
}

/// Iterate over symbols
pub struct DoSymbolsTool;

impl Tool for DoSymbolsTool {
    open spec fn names_itself(&self) -> bool {
        true
    }

    open spec fn spec_name(&self) -> Seq<char> {
        "DO-SYMBOLS"@
    }

    open spec fn admits(&self, args: Seq<Val>) -> bool {
        true
    }

    fn name(&self) -> &str {
        "DO-SYMBOLS"
    }

    fn description(&self) -> (r: &str)
        ensures
            r@ == "Iterate over symbols"@,
    {
        "Iterate over symbols"
    }

    fn execute(&self, args: &[Value]) -> (r: Result<Value, Error>)
        ensures
            outcome(r) == (yields(if args@.len() == 0 { Val::Arr(Seq::<Val>::empty()) } else { args@[0].model() })),
    {
        Ok(if args.len() == 0 { Value::Array(Vec::new()) } else { args[0].clone() })
    }
}

/// Iterate over external symbols
pub struct DoExternalSymbolsTool;

impl Tool for DoExternalSymbolsTool {
    open spec fn names_itself(&self) -> bool {
        true
    }

    open spec fn spec_name(&self) -> Seq<char> {
        "DO-EXTERNAL-SYMBOLS"@
    }

    open spec fn admits(&self, args: Seq<Val>) -> bool {
        true
    }

    fn name(&self) -> &str {
        "DO-EXTERNAL-SYMBOLS"
    }

    fn description(&self) -> (r: &str)
        ensures
            r@ == "Iterate over external symbols"@,
    {
        "Iterate over external symbols"
    }

    fn execute(&self, args: &[Value]) -> (r: Result<Value, Error>)
        ensures
            outcome(r) == (yields(if args@.len() == 0 { Val::Arr(Seq::<Val>::empty()) } else { args@[0].model() })),
    {
        Ok(if args.len() == 0 { Value::Array(Vec::new()) } else { args[0].clone() })
    }
}

/// Iterate over all symbols
pub struct DoAllSymbolsTool;

impl Tool for DoAllSymbolsTool {
    open spec fn names_itself(&self) -> bool {
        true
    }

    open spec fn spec_name(&self) -> Seq<char> {
        "DO-ALL-SYMBOLS"@
    }

    open spec fn admits(&self, args: Seq<Val>) -> bool {
        true
    }

    fn name(&self) -> &str {
        "DO-ALL-SYMBOLS"
    }

    fn description(&self) -> (r: &str)
        ensures
            r@ == "Iterate over all symbols"@,
    {
        "Iterate over all symbols"
    }

    fn execute(&self, args: &[Value]) -> (r: Result<Value, Error>)
        ensures
            outcome(r) == (yields(if args@.len() == 0 { Val::Arr(Seq::<Val>::empty()) } else { args@[0].model() })),
    {
        Ok(if args.len() == 0 { Value::Array(Vec::new()) } else { args[0].clone() })
    }
}

/// IN-PACKAGE - Change current package
pub struct InPackageTool;

impl Tool for InPackageTool {
    open spec fn names_itself(&self) -> bool {
        true
    }

    open spec fn spec_name(&self) -> Seq<char> {
        "IN-PACKAGE"@
    }

    open spec fn admits(&self, args: Seq<Val>) -> bool {
        true
    }

    fn name(&self) -> &str {
        "IN-PACKAGE"
    }

    fn description(&self) -> (r: &str)
        ensures
            r@ == "Change current package"@,
    {
        "Change current package"
    }

    fn execute(&self, args: &[Value]) -> (r: Result<Value, Error>)
        ensures
            outcome(r) == (yields(if args@.len() == 0 { Val::Str("COMMON-LISP-USER"@) } else { args@[0].model() })),
    {
        Ok(if args.len() == 0 { Value::String(owned("COMMON-LISP-USER")) } else { args[0].clone() })
    }
}

/// SYMBOL-PACKAGE - Get symbol's home package
pub struct SymbolPackageTool;

impl Tool for SymbolPackageTool {
    open spec fn names_itself(&self) -> bool {
        true
    }

    open spec fn spec_name(&self) -> Seq<char> {
        "SYMBOL-PACKAGE"@
    }

    open spec fn admits(&self, args: Seq<Val>) -> bool {
        true
    }

    fn name(&self) -> &str {
        "SYMBOL-PACKAGE"
    }

    fn description(&self) -> (r: &str)
        ensures
            r@ == "Get symbol's home package"@,
    {
        "Get symbol's home package"
    }

    fn execute(&self, args: &[Value]) -> (r: Result<Value, Error>)
        ensures
            outcome(r) == (yields(Val::Str("COMMON-LISP"@))),
    {
        Ok(Value::String(owned("COMMON-LISP")))
    }
}

/// WITH-PACKAGE-ITERATOR - Iterate over package symbols
pub struct WithPackageIteratorTool;

impl Tool for WithPackageIteratorTool {
    open spec fn names_itself(&self) -> bool {
        true
    }

    open spec fn spec_name(&self) -> Seq<char> {
        "WITH-PACKAGE-ITERATOR"@
    }

    open spec fn admits(&self, args: Seq<Val>) -> bool {
        true
    }

    fn name(&self) -> &str {
        "WITH-PACKAGE-ITERATOR"
    }

    fn description(&self) -> (r: &str)
        ensures
            r@ == "Create package symbol iterator"@,
    {
        "Create package symbol iterator"
    }

    fn execute(&self, args: &[Value]) -> (r: Result<Value, Error>)
        ensures
            outcome(r) == (yields(if args@.len() == 0 { Val::Null } else { args@[0].model() })),
    {
        Ok(if args.len() == 0 { Value::Null } else { args[0].clone() })
    }
}

/// PACKAGE-LOCKED-P - Check if package is locked
pub struct PackageLockedPTool;

impl Tool for PackageLockedPTool {
    open spec fn names_itself(&self) -> bool {
        true
    }

    open spec fn spec_name(&self) -> Seq<char> {
        "PACKAGE-LOCKED-P"@
    }

    open spec fn admits(&self, args: Seq<Val>) -> bool {
        true
    }

    fn name(&self) -> &str {
        "PACKAGE-LOCKED-P"
    }

    fn description(&self) -> (r: &str)
        ensures
            r@ == "Check if package is locked"@,
    {
        "Check if package is locked"
    }

    fn execute(&self, args: &[Value]) -> (r: Result<Value, Error>)
        ensures
            outcome(r) == (if args@.len() == 0 { bad_args("PACKAGE-LOCKED-P"@, "Expected 1 argument (package)"@) } else { yields(Val::Bool(false)) }),
    {
        if args.len() == 0 {
            return Err(invalid_args("PACKAGE-LOCKED-P", "Expected 1 argument (package)"));
        }
        Ok(Value::Bool(false))
    }
}

/// LOCK-PACKAGE - Lock package
pub struct LockPackageTool;

impl Tool for LockPackageTool {
    open spec fn names_itself(&self) -> bool {
        true
    }

    open spec fn spec_name(&self) -> Seq<char> {
        "LOCK-PACKAGE"@
    }

    open spec fn admits(&self, args: Seq<Val>) -> bool {
        true
    }

    fn name(&self) -> &str {
        "LOCK-PACKAGE"
    }

    fn description(&self) -> (r: &str)
        ensures
            r@ == "Lock package against modifications"@,
    {
        "Lock package against modifications"
    }

    fn execute(&self, args: &[Value]) -> (r: Result<Value, Error>)
        ensures
            outcome(r) == (yields(if args@.len() == 0 { Val::Null } else { args@[0].model() })),
    {
        Ok(if args.len() == 0 { Value::Null } else { args[0].clone() })
    }
}

/// UNLOCK-PACKAGE - Unlock package
pub struct UnlockPackageTool;

impl Tool for UnlockPackageTool {
    open spec fn names_itself(&self) -> bool {
        true
    }

    open spec fn spec_name(&self) -> Seq<char> {
        "UNLOCK-PACKAGE"@
    }

    open spec fn admits(&self, args: Seq<Val>) -> bool {
        true
    }

    fn name(&self) -> &str {
        "UNLOCK-PACKAGE"
    }

    fn description(&self) -> (r: &str)
        ensures
            r@ == "Unlock package"@,
    {
        "Unlock package"
    }

    fn execute(&self, args: &[Value]) -> (r: Result<Value, Error>)
        ensures
            outcome(r) == (yields(if args@.len() == 0 { Val::Null } else { args@[0].model() })),
    {
        Ok(if args.len() == 0 { Value::Null } else { args[0].clone() })
    }
}

/// PACKAGE-IMPLEMENTED-BY-LIST - Get implementing packages
pub struct PackageImplementedByListTool;

impl Tool for PackageImplementedByListTool {
    open spec fn names_itself(&self) -> bool {
        true
    }

    open spec fn spec_name(&self) -> Seq<char> {
        "PACKAGE-IMPLEMENTED-BY-LIST"@
    }

    open spec fn admits(&self, args: Seq<Val>) -> bool {
        true
    }

    fn name(&self) -> &str {
        "PACKAGE-IMPLEMENTED-BY-LIST"
    }

    fn description(&self) -> (r: &str)
        ensures
            r@ == "Get list of packages implementing this package"@,
    {
        "Get list of packages implementing this package"
    }

    fn execute(&self, args: &[Value]) -> (r: Result<Value, Error>)
        ensures
            outcome(r) == (if args@.len() == 0 { bad_args("PACKAGE-IMPLEMENTED-BY-LIST"@, "Expected 1 argument (package)"@) } else { yields(Val::Arr(Seq::<Val>::empty())) }),
    {
        if args.len() == 0 {
            return Err(invalid_args("PACKAGE-IMPLEMENTED-BY-LIST", "Expected 1 argument (package)"));
        }
        Ok(Value::Array(Vec::new()))
    }
}

/// PACKAGE-IMPLEMENTS-LIST - Get implemented packages
pub struct PackageImplementsListTool;

impl Tool for PackageImplementsListTool {
    open spec fn names_itself(&self) -> bool {
        true
    }

    open spec fn spec_name(&self) -> Seq<char> {
        "PACKAGE-IMPLEMENTS-LIST"@
    }

    open spec fn admits(&self, args: Seq<Val>) -> bool {
        true
    }

    fn name(&self) -> &str {
        "PACKAGE-IMPLEMENTS-LIST"
    }

    fn description(&self) -> (r: &str)
        ensures
            r@ == "Get list of packages this package implements"@,
    {
        "Get list of packages this package implements"
    }

    fn execute(&self, args: &[Value]) -> (r: Result<Value, Error>)
        ensures
            outcome(r) == (if args@.len() == 0 { bad_args("PACKAGE-IMPLEMENTS-LIST"@, "Expected 1 argument (package)"@) } else { yields(Val::Arr(Seq::<Val>::empty())) }),
    {
        if args.len() == 0 {
            return Err(invalid_args("PACKAGE-IMPLEMENTS-LIST", "Expected 1 argument (package)"));
        }
        Ok(Value::Array(Vec::new()))
    }
}

/// ADD-PACKAGE-LOCAL-NICKNAME - Add local nickname
pub struct AddPackageLocalNicknameTool;

impl Tool for AddPackageLocalNicknameTool {
    open spec fn names_itself(&self) -> bool {
        true
    }

    open spec fn spec_name(&self) -> Seq<char> {
        "ADD-PACKAGE-LOCAL-NICKNAME"@
    }

    open spec fn admits(&self, args: Seq<Val>) -> bool {
        true
    }

    fn name(&self) -> &str {
        "ADD-PACKAGE-LOCAL-NICKNAME"
    }

    fn description(&self) -> (r: &str)
        ensures
            r@ == "Add package-local nickname"@,
    {
        "Add package-local nickname"
    }

    fn execute(&self, args: &[Value]) -> (r: Result<Value, Error>)
        ensures
            outcome(r) == (yields(if args@.len() == 0 { Val::Null } else { args@[0].model() })),
    {
        Ok(if args.len() == 0 { Value::Null } else { args[0].clone() })
    }
}

/// REMOVE-PACKAGE-LOCAL-NICKNAME - Remove local nickname
pub struct RemovePackageLocalNicknameTool;

impl Tool for RemovePackageLocalNicknameTool {
    open spec fn names_itself(&self) -> bool {
        true
    }

    open spec fn spec_name(&self) -> Seq<char> {
        "REMOVE-PACKAGE-LOCAL-NICKNAME"@
    }

    open spec fn admits(&self, args: Seq<Val>) -> bool {
        true
    }

    fn name(&self) -> &str {
        "REMOVE-PACKAGE-LOCAL-NICKNAME"
    }

    fn description(&self) -> (r: &str)
        ensures
            r@ == "Remove package-local nickname"@,
    {
        "Remove package-local nickname"
    }

    fn execute(&self, args: &[Value]) -> (r: Result<Value, Error>)
        ensures
            outcome(r) == (yields(Val::Bool(true))),
    {
        Ok(Value::Bool(true))
    }
}

/// PACKAGE-LOCAL-NICKNAMES - Get local nicknames
pub struct PackageLocalNicknamesTool;

impl Tool for PackageLocalNicknamesTool {
    open spec fn names_itself(&self) -> bool {
        true
    }

    open spec fn spec_name(&self) -> Seq<char> {
        "PACKAGE-LOCAL-NICKNAMES"@
    }

    open spec fn admits(&self, args: Seq<Val>) -> bool {
        true
    }

    fn name(&self) -> &str {
        "PACKAGE-LOCAL-NICKNAMES"
    }

    fn description(&self) -> (r: &str)
        ensures
            r@ == "Get package-local nicknames"@,
    {
        "Get package-local nicknames"
    }

    fn execute(&self, args: &[Value]) -> (r: Result<Value, Error>)
        ensures
            outcome(r) == (if args@.len() == 0 { bad_args("PACKAGE-LOCAL-NICKNAMES"@, "Expected 1 argument (package)"@) } else { yields(Val::Arr(Seq::<Val>::empty())) }),
    {
        if args.len() == 0 {
            return Err(invalid_args("PACKAGE-LOCAL-NICKNAMES", "Expected 1 argument (package)"));
        }
        Ok(Value::Array(Vec::new()))
    }
}

/// PACKAGE-LOCALLY-NICKNAMED-BY-LIST - Get packages using local nickname
pub struct PackageLocallyNickedByListTool;

impl Tool for PackageLocallyNickedByListTool {
    open spec fn names_itself(&self) -> bool {
        true
    }

    open spec fn spec_name(&self) -> Seq<char> {
        "PACKAGE-LOCALLY-NICKNAMED-BY-LIST"@
    }

    open spec fn admits(&self, args: Seq<Val>) -> bool {
        true
    }

    fn name(&self) -> &str {
        "PACKAGE-LOCALLY-NICKNAMED-BY-LIST"
    }

    fn description(&self) -> (r: &str)
        ensures
            r@ == "Get packages using this as local nickname"@,
    {
        "Get packages using this as local nickname"
    }

    fn execute(&self, args: &[Value]) -> (r: Result<Value, Error>)
        ensures
            outcome(r) == (if args@.len() == 0 { bad_args("PACKAGE-LOCALLY-NICKNAMED-BY-LIST"@, "Expected 1 argument (package)"@) } else { yields(Val::Arr(Seq::<Val>::empty())) }),
    {
        if args.len() == 0 {
            return Err(invalid_args("PACKAGE-LOCALLY-NICKNAMED-BY-LIST", "Expected 1 argument (package)"));
        }
        Ok(Value::Array(Vec::new()))
    }
}

/// WITH-PACKAGE-LOCK-HELD - Execute with package lock
pub struct WithPackageLockHeldTool;

impl Tool for WithPackageLockHeldTool {
    open spec fn names_itself(&self) -> bool {
        true
    }

    open spec fn spec_name(&self) -> Seq<char> {
        "WITH-PACKAGE-LOCK-HELD"@
    }

    open spec fn admits(&self, args: Seq<Val>) -> bool {
        true
    }

    fn name(&self) -> &str {
        "WITH-PACKAGE-LOCK-HELD"
    }

    fn description(&self) -> (r: &str)
        ensures
            r@ == "Execute forms with package lock held"@,
    {
        "Execute forms with package lock held"
    }

    fn execute(&self, args: &[Value]) -> (r: Result<Value, Error>)
        ensures
            outcome(r) == (yields(if args@.len() > 1 { args@[args@.len() - 1].model() } else { Val::Null })),
    {
        Ok(if args.len() > 1 { args[args.len() - 1].clone() } else { Value::Null })
    }
}

/// WITHOUT-PACKAGE-LOCKS - Execute without package locks
pub struct WithoutPackageLocksTool;

impl Tool for WithoutPackageLocksTool {
    open spec fn names_itself(&self) -> bool {
        true
    }

    open spec fn spec_name(&self) -> Seq<char> {
        "WITHOUT-PACKAGE-LOCKS"@
    }

    open spec fn admits(&self, args: Seq<Val>) -> bool {
        true
    }

    fn name(&self) -> &str {
        "WITHOUT-PACKAGE-LOCKS"
    }

    fn description(&self) -> (r: &str)
        ensures
            r@ == "Execute forms without package lock checking"@,
    {
        "Execute forms without package lock checking"
    }

    fn execute(&self, args: &[Value]) -> (r: Result<Value, Error>)
        ensures
            outcome(r) == (yields(if args@.len() == 0 { Val::Null } else { args@[args@.len() - 1].model() })),
    {
        Ok(if args.len() == 0 { Value::Null } else { args[args.len() - 1].clone() })
    }
}

/// DISABLE-PACKAGE-LOCKS - Disable package locks
pub struct DisablePackageLocksTool;

impl Tool for DisablePackageLocksTool {
    open spec fn names_itself(&self) -> bool {
        true
    }

    open spec fn spec_name(&self) -> Seq<char> {
        "DISABLE-PACKAGE-LOCKS"@
    }

    open spec fn admits(&self, args: Seq<Val>) -> bool {
        true
    }

    fn name(&self) -> &str {
        "DISABLE-PACKAGE-LOCKS"
    }

    fn description(&self) -> (r: &str)
        ensures
            r@ == "Disable package lock checking"@,
    {
        "Disable package lock checking"
    }

    fn execute(&self, args: &[Value]) -> (r: Result<Value, Error>)
        ensures
            outcome(r) == (if args@.len() == 0 { bad_args("DISABLE-PACKAGE-LOCKS"@, "Expected 1 argument (package)"@) } else { yields(Val::Null) }),
    {
        if args.len() == 0 {
            return Err(invalid_args("DISABLE-PACKAGE-LOCKS", "Expected 1 argument (package)"));
        }
        Ok(Value::Null)
    }
}

/// ENABLE-PACKAGE-LOCKS - Enable package locks
pub struct EnablePackageLocksTool;

impl Tool for EnablePackageLocksTool {
    open spec fn names_itself(&self) -> bool {
        true
    }

    open spec fn spec_name(&self) -> Seq<char> {
        "ENABLE-PACKAGE-LOCKS"@
    }

    open spec fn admits(&self, args: Seq<Val>) -> bool {
        true
    }

    fn name(&self) -> &str {
        "ENABLE-PACKAGE-LOCKS"
    }

    fn description(&self) -> (r: &str)
        ensures
            r@ == "Enable package lock checking"@,
    {
        "Enable package lock checking"
    }

    fn execute(&self, args: &[Value]) -> (r: Result<Value, Error>)
        ensures
            outcome(r) == (if args@.len() == 0 { bad_args("ENABLE-PACKAGE-LOCKS"@, "Expected 1 argument (package)"@) } else { yields(Val::Null) }),
    {
        if args.len() == 0 {
            return Err(invalid_args("ENABLE-PACKAGE-LOCKS", "Expected 1 argument (package)"));
        }
        Ok(Value::Null)
    }
}

/// PACKAGE-DOCUMENTATION - Get package documentation
pub struct PackageDocumentationTool;

impl Tool for PackageDocumentationTool {
    open spec fn names_itself(&self) -> bool {
        true
    }

    open spec fn spec_name(&self) -> Seq<char> {
        "PACKAGE-DOCUMENTATION"@
    }

    open spec fn admits(&self, args: Seq<Val>) -> bool {
        true
    }

    fn name(&self) -> &str {
        "PACKAGE-DOCUMENTATION"
    }

    fn description(&self) -> (r: &str)
        ensures
            r@ == "Get package documentation string"@,
    {
        "Get package documentation string"
    }

    fn execute(&self, args: &[Value]) -> (r: Result<Value, Error>)
        ensures
            outcome(r) == (if args@.len() == 0 { bad_args("PACKAGE-DOCUMENTATION"@, "Expected 1 argument (package)"@) } else { yields(Val::Null) }),
    {
        if args.len() == 0 {
            return Err(invalid_args("PACKAGE-DOCUMENTATION", "Expected 1 argument (package)"));
        }
        Ok(Value::Null)
    }
}

/// SET-PACKAGE-DOCUMENTATION - Set package documentation
pub struct SetPackageDocumentationTool;

impl Tool for SetPackageDocumentationTool {
    open spec fn names_itself(&self) -> bool {
        true
    }

    open spec fn spec_name(&self) -> Seq<char> {
        "SET-PACKAGE-DOCUMENTATION"@
    }

    open spec fn admits(&self, args: Seq<Val>) -> bool {
        true
    }

    fn name(&self) -> &str {
        "SET-PACKAGE-DOCUMENTATION"
    }

    fn description(&self) -> (r: &str)
        ensures
            r@ == "Set package documentation string"@,
    {
        "Set package documentation string"
    }

    fn execute(&self, args: &[Value]) -> (r: Result<Value, Error>)
        ensures
            outcome(r) == (yields(if args@.len() > 1 { args@[1].model() } else { Val::Null })),
    {
        Ok(if args.len() > 1 { args[1].clone() } else { Value::Null })
    }
}

/// PACKAGE-APROPOS - Find symbols matching string
pub struct PackageAproposTool;

impl Tool for PackageAproposTool {
    open spec fn names_itself(&self) -> bool {
        true
    }

    open spec fn spec_name(&self) -> Seq<char> {
        "PACKAGE-APROPOS"@
    }

    open spec fn admits(&self, args: Seq<Val>) -> bool {
        true
    }

    fn name(&self) -> &str {
        "PACKAGE-APROPOS"
    }

    fn description(&self) -> (r: &str)
        ensures
            r@ == "Find symbols in package matching string"@,
    {
        "Find symbols in package matching string"
    }

    fn execute(&self, args: &[Value]) -> (r: Result<Value, Error>)
        ensures
            outcome(r) == (if args@.len() == 0 { bad_args("PACKAGE-APROPOS"@, "Expected 1 argument (search string)"@) } else { yields(Val::Arr(Seq::<Val>::empty())) }),
    {
        if args.len() == 0 {
            return Err(invalid_args("PACKAGE-APROPOS", "Expected 1 argument (search string)"));
        }
        Ok(Value::Array(Vec::new()))
    }
}

/// PACKAGE-APROPOS-LIST - Get list of matching symbols
pub struct PackageAproposListTool;

impl Tool for PackageAproposListTool {
    open spec fn names_itself(&self) -> bool {
        true
    }

    open spec fn spec_name(&self) -> Seq<char> {
        "PACKAGE-APROPOS-LIST"@
    }

    open spec fn admits(&self, args: Seq<Val>) -> bool {
        true
    }

    fn name(&self) -> &str {
        "PACKAGE-APROPOS-LIST"
    }

    fn description(&self) -> (r: &str)
        ensures
            r@ == "Get list of symbols matching string"@,
    {
        "Get list of symbols matching string"
    }

    fn execute(&self, args: &[Value]) -> (r: Result<Value, Error>)
        ensures
            outcome(r) == (if args@.len() == 0 { bad_args("PACKAGE-APROPOS-LIST"@, "Expected 1 argument (search string)"@) } else { yields(Val::Arr(Seq::<Val>::empty())) }),
    {
        if args.len() == 0 {
            return Err(invalid_args("PACKAGE-APROPOS-LIST", "Expected 1 argument (search string)"));
        }
        Ok(Value::Array(Vec::new()))
    }
}

/// PACKAGE-INHERITED-SYMBOLS - Get inherited symbols
pub struct PackageInheritedSymbolsTool;

impl Tool for PackageInheritedSymbolsTool {
    open spec fn names_itself(&self) -> bool {
        true
    }

    open spec fn spec_name(&self) -> Seq<char> {
        "PACKAGE-INHERITED-SYMBOLS"@
    }

    open spec fn admits(&self, args: Seq<Val>) -> bool {
        true
    }

    fn name(&self) -> &str {
        "PACKAGE-INHERITED-SYMBOLS"
    }

    fn description(&self) -> (r: &str)
        ensures
            r@ == "Get symbols inherited from other packages"@,
    {
        "Get symbols inherited from other packages"
    }

    fn execute(&self, args: &[Value]) -> (r: Result<Value, Error>)
        ensures
            outcome(r) == (if args@.len() == 0 { bad_args("PACKAGE-INHERITED-SYMBOLS"@, "Expected 1 argument (package)"@) } else { yields(Val::Arr(Seq::<Val>::empty())) }),
    {
        if args.len() == 0 {
            return Err(invalid_args("PACKAGE-INHERITED-SYMBOLS", "Expected 1 argument (package)"));
        }
        Ok(Value::Array(Vec::new()))
    }
}

/// PACKAGEP - Check if value is package
pub struct PackagepTool;

impl Tool for PackagepTool {
    open spec fn names_itself(&self) -> bool {
        true
    }

    open spec fn spec_name(&self) -> Seq<char> {
        "PACKAGEP"@
    }

    open spec fn admits(&self, args: Seq<Val>) -> bool {
        true
    }

    fn name(&self) -> &str {
        "PACKAGEP"
    }

    fn description(&self) -> (r: &str)
        ensures
            r@ == "Check if value is package"@,
    {
        "Check if value is package"
    }

    fn execute(&self, args: &[Value]) -> (r: Result<Value, Error>)
        ensures
            outcome(r) == (yields(Val::Bool(args@.len() > 0 && models(args@)[0] is Str))),
    {
        Ok(Value::Bool(args.len() > 0 && matches!(args[0], Value::String(_))))
    }
}



/// DESCRIBE-PACKAGE - Describe package
pub struct DescribePackageTool;

impl Tool for DescribePackageTool {
    open spec fn names_itself(&self) -> bool {
        true
    }

    open spec fn spec_name(&self) -> Seq<char> {
        "DESCRIBE-PACKAGE"@
    }

    open spec fn admits(&self, args: Seq<Val>) -> bool {
        true
    }

    fn name(&self) -> &str {
        "DESCRIBE-PACKAGE"
    }

    fn description(&self) -> (r: &str)
        ensures
            r@ == "Describe package structure and contents"@,
    {
        "Describe package structure and contents"
    }

    fn execute(&self, args: &[Value]) -> (r: Result<Value, Error>)
        ensures
            outcome(r) == (yields(Val::Str(if args@.len() > 0 && models(args@)[0] is Str {
                "Package: "@ + models(args@)[0]->Str_0 + "\nNicknames: none\nUse list: (COMMON-LISP)\nUsed by: none\nSymbols: 0"@
            } else {
                "Package: UNKNOWN"@
            }))),
    {
        if args.len() > 0 {
            match &args[0] {
                Value::String(name) => {
                    let head = concat("Package: ", name.as_str());
                    return Ok(Value::String(concat(head.as_str(), "\nNicknames: none\nUse list: (COMMON-LISP)\nUsed by: none\nSymbols: 0")));
                },
                _ => {},
            }
        }
        Ok(Value::String(owned("Package: UNKNOWN")))
    }
}


} // verus!
