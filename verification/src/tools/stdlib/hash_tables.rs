//! Hash table operations - Common Lisp compatible
//!
//! Provides hash table data structure with Common Lisp semantics.
//! Hash tables map keys to values using hash-based lookup.
use vstd::prelude::*;

#[allow(unused_imports)]
use crate::access::{copy_range, copy_slice, copy_values, values_equal};
#[allow(unused_imports)]
use crate::error::{empty_collection, exec_error, invalid_args, ErrV, Error};
#[allow(unused_imports)]
use crate::text::{alphabetic, alphanumeric, char_from_u32, char_is_alphabetic, char_is_alphanumeric, char_is_lowercase, char_is_uppercase, char_is_whitespace, char_string, char_to_lowercase, char_to_uppercase, chars_of, chars_skip, concat, i64_to_string, int_decimal, lower_case, lower_chars, lowercase, owned, scalar_value, seq_less, str_equal, str_less, string_from_chars, to_lower, to_upper, upper_case, upper_chars, uppercase, whitespace};
#[allow(unused_imports)]
use crate::tools::{bad_args, name_insert, outcome, ref_outcome, string_views, yields, Tool, ToolRegistry};
#[allow(unused_imports)]
use crate::value::{and_then, elems, entry_models, int_of, models, obj_insert, obj_keys, obj_lookup, obj_merge, obj_of, obj_values, str_of, truthy, type_error, ObjectMap, Val, Value};

verus! {

broadcast use crate::seq_models::group_value_models;

/// The names after registering this module's tools, in order.
pub open spec fn registered_names(ns: Seq<Seq<char>>) -> Seq<Seq<char>> {
    let ns = name_insert(ns, "MAKE-HASH-TABLE"@);
    let ns = name_insert(ns, "GETHASH"@);
    let ns = name_insert(ns, "REMHASH"@);
    let ns = name_insert(ns, "CLRHASH"@);
    let ns = name_insert(ns, "HASH-TABLE-P"@);
    let ns = name_insert(ns, "HASH-TABLE-COUNT"@);
    let ns = name_insert(ns, "HASH-TABLE-SIZE"@);
    let ns = name_insert(ns, "HASH-TABLE-TEST"@);
    let ns = name_insert(ns, "MAPHASH"@);
    let ns = name_insert(ns, "HASH-TABLE-KEYS"@);
    let ns = name_insert(ns, "HASH-TABLE-VALUES"@);
    let ns = name_insert(ns, "HASH-TABLE-PAIRS"@);
    let ns = name_insert(ns, "HASH-TABLE-TO-ALIST"@);
    let ns = name_insert(ns, "ALIST-TO-HASH-TABLE"@);
    let ns = name_insert(ns, "COPY-HASH-TABLE"@);
    let ns = name_insert(ns, "HASH-TABLE-EQUAL-P"@);
    let ns = name_insert(ns, "MERGE-HASH-TABLES"@);
    let ns = name_insert(ns, "HASH-TABLE-FILTER"@);
    let ns = name_insert(ns, "HASH-TABLE-MAP"@);
    let ns = name_insert(ns, "HASH-TABLE-CONTAINS-KEY"@);
    let ns = name_insert(ns, "HASH-TABLE-GET-OR-DEFAULT"@);
    let ns = name_insert(ns, "HASH-TABLE-UPDATE"@);
    let ns = name_insert(ns, "HASH-TABLE-REMOVE-IF"@);
    let ns = name_insert(ns, "SXHASH"@);
    ns
}

/// Register the tools of this module: those the library holds, then those
/// the application supplies, each under its name: `sxhash_tool` under SXHASH.
pub fn register<TSxhash: Tool + 'static>(registry: &mut ToolRegistry, sxhash_tool: TSxhash)
    requires
        sxhash_tool.names_itself() ==> sxhash_tool.spec_name() == "SXHASH"@,
    ensures
        final(registry).names() == registered_names(old(registry).names()),
{
    registry.register(MakeHashTableTool);
    registry.register(GethashTool);
    registry.register(RemhashTool);
    registry.register(ClrhashTool);
    registry.register(HashTablePTool);
    registry.register(HashTableCountTool);
    registry.register(HashTableSizeTool);
    registry.register(HashTableTestTool);
    registry.register(MaphashTool);
    registry.register(HashTableKeysTool);
    registry.register(HashTableValuesTool);
    registry.register(HashTablePairsTool);
    registry.register(HashTableToAlistTool);
    registry.register(AlistToHashTableTool);
    registry.register(CopyHashTableTool);
    registry.register(HashTableEqualPTool);
    registry.register(MergeHashTablesTool);
    registry.register(HashTableFilterTool);
    registry.register(HashTableMapTool);
    registry.register(HashTableContainsKeyTool);
    registry.register(HashTableGetOrDefaultTool);
    registry.register(HashTableUpdateTool);
    registry.register(HashTableRemoveIfTool);
    registry.place(owned("SXHASH"), sxhash_tool);
}

/// MAPHASH - Apply function to each entry
pub struct MaphashTool;

impl Tool for MaphashTool {
    open spec fn names_itself(&self) -> bool {
        true
    }

    open spec fn spec_name(&self) -> Seq<char> {
        "MAPHASH"@
    }

    open spec fn admits(&self, args: Seq<Val>) -> bool {
        true
    }

    fn name(&self) -> &str {
        "MAPHASH"
    }

    fn description(&self) -> (r: &str)
        ensures
            r@ == "Apply function to each key-value pair (returns null)"@,
    {
        "Apply function to each key-value pair (returns null)"
    }

    fn execute(&self, args: &[Value]) -> (r: Result<Value, Error>)
        ensures
            outcome(r) == (if args@.len() < 2 { bad_args("MAPHASH"@, "Expected function and hash-table arguments"@) } else { yields(Val::Null) }),
    {
        if args.len() < 2 {
            return Err(invalid_args("MAPHASH", "Expected function and hash-table arguments"));
        }
        Ok(Value::Null)
    }
}

/// HASH-TABLE-FILTER - Filter hash table by predicate
pub struct HashTableFilterTool;

impl Tool for HashTableFilterTool {
    open spec fn names_itself(&self) -> bool {
        true
    }

    open spec fn spec_name(&self) -> Seq<char> {
        "HASH-TABLE-FILTER"@
    }

    open spec fn admits(&self, args: Seq<Val>) -> bool {
        true
    }

    fn name(&self) -> &str {
        "HASH-TABLE-FILTER"
    }

    fn description(&self) -> (r: &str)
        ensures
            r@ == "Filter hash table entries (placeholder - needs function support)"@,
    {
        "Filter hash table entries (placeholder - needs function support)"
    }

    fn execute(&self, args: &[Value]) -> (r: Result<Value, Error>)
        ensures
            outcome(r) == (if args@.len() < 2 { bad_args("HASH-TABLE-FILTER"@, "Expected predicate and hash-table arguments"@) } else { yields(args@[1].model()) }),
    {
        if args.len() < 2 {
            return Err(invalid_args("HASH-TABLE-FILTER", "Expected predicate and hash-table arguments"));
        }
        Ok(args[1].clone())
    }
}

/// HASH-TABLE-MAP - Map function over hash table
pub struct HashTableMapTool;

impl Tool for HashTableMapTool {
    open spec fn names_itself(&self) -> bool {
        true
    }

    open spec fn spec_name(&self) -> Seq<char> {
        "HASH-TABLE-MAP"@
    }

    open spec fn admits(&self, args: Seq<Val>) -> bool {
        true
    }

    fn name(&self) -> &str {
        "HASH-TABLE-MAP"
    }

    fn description(&self) -> (r: &str)
        ensures
            r@ == "Map function over hash table entries (placeholder)"@,
    {
        "Map function over hash table entries (placeholder)"
    }

    fn execute(&self, args: &[Value]) -> (r: Result<Value, Error>)
        ensures
            outcome(r) == (if args@.len() < 2 { bad_args("HASH-TABLE-MAP"@, "Expected function and hash-table arguments"@) } else { yields(args@[1].model()) }),
    {
        if args.len() < 2 {
            return Err(invalid_args("HASH-TABLE-MAP", "Expected function and hash-table arguments"));
        }
        Ok(args[1].clone())
    }
}

/// HASH-TABLE-REMOVE-IF - Remove entries matching predicate
pub struct HashTableRemoveIfTool;

impl Tool for HashTableRemoveIfTool {
    open spec fn names_itself(&self) -> bool {
        true
    }

    open spec fn spec_name(&self) -> Seq<char> {
        "HASH-TABLE-REMOVE-IF"@
    }

    open spec fn admits(&self, args: Seq<Val>) -> bool {
        true
    }

    fn name(&self) -> &str {
        "HASH-TABLE-REMOVE-IF"
    }

    fn description(&self) -> (r: &str)
        ensures
            r@ == "Remove entries where predicate returns true (placeholder)"@,
    {
        "Remove entries where predicate returns true (placeholder)"
    }

    fn execute(&self, args: &[Value]) -> (r: Result<Value, Error>)
        ensures
            outcome(r) == (if args@.len() < 2 { bad_args("HASH-TABLE-REMOVE-IF"@, "Expected predicate and hash-table arguments"@) } else { yields(args@[1].model()) }),
    {
        if args.len() < 2 {
            return Err(invalid_args("HASH-TABLE-REMOVE-IF", "Expected predicate and hash-table arguments"));
        }
        Ok(args[1].clone())
    }
}

use crate::tools::stdlib::objects::merge_into;
use crate::value::law_insert_then_lookup;

/// The key and the table that a lookup tool works on: its first two arguments.
pub open spec fn key_and_table(tool: Seq<char>, reason: Seq<char>, a: Seq<Val>) -> Result<(Seq<char>, Seq<(Seq<char>, Val)>), ErrV> {
    if a.len() < 2 {
        Err(ErrV::InvalidArguments { tool, reason })
    } else {
        match str_of(a[0]) {
            Err(e) => Err(e),
            Ok(k) => match obj_of(a[1]) {
                Err(e) => Err(e),
                Ok(t) => Ok((k, t)),
            },
        }
    }
}

fn key_and_table_exec<'a>(tool: &str, reason: &str, args: &'a [Value]) -> (r: Result<(&'a str, &'a ObjectMap), Error>)
    ensures
        match r {
            Ok((k, t)) => key_and_table(tool@, reason@, models(args@)) == Ok::<(Seq<char>, Seq<(Seq<char>, Val)>), ErrV>((k@, t.model())),
            Err(e) => key_and_table(tool@, reason@, models(args@)) == Err::<(Seq<char>, Seq<(Seq<char>, Val)>), ErrV>(e@),
        },
{
    if args.len() < 2 {
        return Err(invalid_args(tool, reason));
    }
    let k = args[0].as_string()?;
    let t = args[1].as_object()?;
    Ok((k, t))
}

/// The table that a one-table tool works on: its first argument.
pub open spec fn one_table(tool: Seq<char>, a: Seq<Val>) -> Result<Seq<(Seq<char>, Val)>, ErrV> {
    if a.len() == 0 {
        Err(ErrV::InvalidArguments { tool, reason: "Expected hash-table argument"@ })
    } else {
        obj_of(a[0])
    }
}

fn one_table_exec<'a>(tool: &str, args: &'a [Value]) -> (r: Result<&'a ObjectMap, Error>)
    ensures
        match r {
            Ok(t) => one_table(tool@, models(args@)) == Ok::<Seq<(Seq<char>, Val)>, ErrV>(t.model()),
            Err(e) => one_table(tool@, models(args@)) == Err::<Seq<(Seq<char>, Val)>, ErrV>(e@),
        },
{
    if args.len() == 0 {
        return Err(invalid_args(tool, "Expected hash-table argument"));
    }
    args[0].as_object()
}

/// The value found under `k` in `t`, or `default`.
pub open spec fn lookup_or(t: Seq<(Seq<char>, Val)>, k: Seq<char>, default: Val) -> Val {
    match obj_lookup(t, k) {
        Some(v) => v,
        None => default,
    }
}

/// The entries of a table as two-element arrays of key and value, in order.
pub open spec fn entry_pairs(t: Seq<(Seq<char>, Val)>) -> Seq<Val> {
    Seq::new(t.len(), |i: int| Val::Arr(seq![Val::Str(t[i].0), t[i].1]))
}

fn entry_pairs_exec(t: &ObjectMap) -> (r: Vec<Value>)
    ensures
        models(r@) == entry_pairs(t.model()),
{
    let mut out: Vec<Value> = Vec::new();
    let mut i: usize = 0;
    while i < t.entries.len()
        invariant
            i <= t.entries@.len(),
            out@.len() == i,
            forall|j: int| 0 <= j < i ==> #[trigger] out@[j].model() == entry_pairs(t.model())[j],
        decreases t.entries.len() - i,
    {
        let k = Value::String(t.entries[i].0.clone());
        let v = t.entries[i].1.deep_copy();
        let pair = vec![k, v];
        assert(models(pair@) =~= seq![Val::Str(t.model()[i as int].0), t.model()[i as int].1]);
        out.push(Value::Array(pair));
        i = i + 1;
    }
    assert(models(out@) =~= entry_pairs(t.model()));
    out
}

/// The table that an association list gives: each element that is an array
/// of two or more elements binds its first (a string) to its second; other
/// elements are skipped; a key that is not a string is an error.
pub open spec fn alist_table(s: Seq<Val>) -> Result<Seq<(Seq<char>, Val)>, ErrV>
    decreases s.len(),
{
    if s.len() == 0 {
        Ok(Seq::empty())
    } else {
        match alist_table(s.drop_last()) {
            Err(e) => Err(e),
            Ok(t) => match s.last() {
                Val::Arr(p) => if p.len() >= 2 {
                    match str_of(p[0]) {
                        Err(e) => Err(e),
                        Ok(k) => Ok(obj_insert(t, k, p[1])),
                    }
                } else {
                    Ok(t)
                },
                _ => Ok(t),
            },
        }
    }
}

proof fn lemma_alist_err(a: Seq<Val>, k: int)
    requires
        0 <= k <= a.len(),
        alist_table(a.take(k)) is Err,
    ensures
        alist_table(a) == alist_table(a.take(k)),
    decreases a.len() - k,
{
    if k < a.len() {
        assert(a.take(k + 1).drop_last() =~= a.take(k));
        lemma_alist_err(a, k + 1);
    } else {
        assert(a.take(k) =~= a);
    }
}

fn alist_table_exec(alist: &Vec<Value>) -> (r: Result<ObjectMap, Error>)
    ensures
        match r {
            Ok(m) => alist_table(models(alist@)) == Ok::<Seq<(Seq<char>, Val)>, ErrV>(m.model()),
            Err(e) => alist_table(models(alist@)) == Err::<Seq<(Seq<char>, Val)>, ErrV>(e@),
        },
{
    let ghost a = models(alist@);
    let mut map = ObjectMap::new();
    let mut i: usize = 0;
    assert(a.take(0) =~= Seq::<Val>::empty());
    while i < alist.len()
        invariant
            a == models(alist@),
            i <= alist@.len(),
            alist_table(a.take(i as int)) == Ok::<Seq<(Seq<char>, Val)>, ErrV>(map.model()),
        decreases alist.len() - i,
    {
        assert(a.take(i + 1).drop_last() =~= a.take(i as int));
        assert(a.take(i + 1).last() == alist@[i as int].model());
        match &alist[i] {
            Value::Array(p) => {
                assert(models(p@).len() == p@.len());
                if p.len() >= 2 {
                    assert(models(p@)[0] == p@[0].model());
                    let key = match p[0].as_string() {
                        Ok(k) => k,
                        Err(e) => {
                            proof {
                                lemma_alist_err(a, i + 1);
                            }
                            return Err(e);
                        },
                    };
                    map.insert(owned(key), p[1].deep_copy());
                }
            },
            _ => {},
        }
        i = i + 1;
    }
    assert(a.take(i as int) =~= a);
    Ok(map)
}

/// Whether `t1` and `t2` have as many entries and each key of `t1` is bound in
/// `t2` to an equal value.
pub open spec fn tables_equal(t1: Seq<(Seq<char>, Val)>, t2: Seq<(Seq<char>, Val)>) -> bool {
    t1.len() == t2.len() && forall|i: int| 0 <= i < t1.len() ==> obj_lookup(t2, #[trigger] t1[i].0) == Some(t1[i].1)
}

fn tables_equal_exec(t1: &ObjectMap, t2: &ObjectMap) -> (b: bool)
    ensures
        b == tables_equal(t1.model(), t2.model()),
{
    if t1.len() != t2.len() {
        return false;
    }
    let mut i: usize = 0;
    while i < t1.entries.len()
        invariant
            i <= t1.entries@.len(),
            forall|j: int| 0 <= j < i ==> obj_lookup(t2.model(), #[trigger] t1.model()[j].0) == Some(t1.model()[j].1),
        decreases t1.entries.len() - i,
    {
        assert(t1.model()[i as int] == (t1.entries@[i as int].0@, t1.entries@[i as int].1.model()));
        match t2.get(t1.entries[i].0.as_str()) {
            Some(v2) => {
                if !values_equal(&t1.entries[i].1, v2) {
                    assert(obj_lookup(t2.model(), t1.model()[i as int].0) != Some(t1.model()[i as int].1));
                    return false;
                }
            },
            None => {
                assert(obj_lookup(t2.model(), t1.model()[i as int].0) != Some(t1.model()[i as int].1));
                return false;
            },
        }
        i = i + 1;
    }
    true
}

/// The tables of `s` merged in turn, later bindings replacing earlier ones, or
/// the type error of the first value that is not a table.
pub open spec fn merge_tables(s: Seq<Val>) -> Result<Seq<(Seq<char>, Val)>, ErrV>
    decreases s.len(),
{
    if s.len() == 0 {
        Ok(Seq::empty())
    } else {
        match merge_tables(s.drop_last()) {
            Err(e) => Err(e),
            Ok(m) => match obj_of(s.last()) {
                Err(e) => Err(e),
                Ok(t) => Ok(obj_merge(m, t)),
            },
        }
    }
}

proof fn lemma_merge_err(a: Seq<Val>, k: int)
    requires
        0 <= k <= a.len(),
        merge_tables(a.take(k)) is Err,
    ensures
        merge_tables(a) == merge_tables(a.take(k)),
    decreases a.len() - k,
{
    if k < a.len() {
        assert(a.take(k + 1).drop_last() =~= a.take(k));
        lemma_merge_err(a, k + 1);
    } else {
        assert(a.take(k) =~= a);
    }
}

/// MAKE-HASH-TABLE - Create new hash table
pub struct MakeHashTableTool;

impl Tool for MakeHashTableTool {
    open spec fn names_itself(&self) -> bool {
        true
    }

    open spec fn spec_name(&self) -> Seq<char> {
        "MAKE-HASH-TABLE"@
    }

    open spec fn admits(&self, args: Seq<Val>) -> bool {
        true
    }

    fn name(&self) -> &str {
        "MAKE-HASH-TABLE"
    }

    fn description(&self) -> (r: &str)
        ensures
            r@ == "Create a new hash table"@,
    {
        "Create a new hash table"
    }

    fn execute(&self, args: &[Value]) -> (r: Result<Value, Error>)
        ensures
            outcome(r) == (if args@.len() == 0 { yields(Val::Obj(Seq::empty())) } else {
                match int_of(models(args@)[0]) {
                    Err(e) => Err(e),
                    Ok(_) => yields(Val::Obj(Seq::empty())),
                }
            }),
    {
        if args.len() > 0 {
            let _ = args[0].as_int()?;
        }
        Ok(Value::Object(ObjectMap::new()))
    }
}



/// The result of GETHASH: the value bound to the key, else the default
/// (the third argument, or null).
pub open spec fn gethash_result(a: Seq<Val>) -> Result<Val, ErrV> {
    match key_and_table("GETHASH"@, "Expected key and hash-table arguments"@, a) {
        Err(e) => Err(e),
        Ok((k, t)) => yields(lookup_or(t, k, if a.len() > 2 { a[2] } else { Val::Null })),
    }
}

/// GETHASH - Get value from hash table by key
pub struct GethashTool;

impl Tool for GethashTool {
    open spec fn names_itself(&self) -> bool {
        true
    }

    open spec fn spec_name(&self) -> Seq<char> {
        "GETHASH"@
    }

    open spec fn admits(&self, args: Seq<Val>) -> bool {
        true
    }

    fn name(&self) -> &str {
        "GETHASH"
    }

    fn description(&self) -> (r: &str)
        ensures
            r@ == "Get value from hash table by key (returns value or default)"@,
    {
        "Get value from hash table by key (returns value or default)"
    }

    fn execute(&self, args: &[Value]) -> (r: Result<Value, Error>)
        ensures
            outcome(r) == (gethash_result(models(args@))),
    {
        let (key, table) = key_and_table_exec("GETHASH", "Expected key and hash-table arguments", args)?;
        let default = if args.len() > 2 { args[2].deep_copy() } else { Value::Null };
        match table.get(key) {
            Some(v) => Ok(v.deep_copy()),
            None => Ok(default),
        }
    }
}



/// REMHASH - Remove entry from hash table
pub struct RemhashTool;

impl Tool for RemhashTool {
    open spec fn names_itself(&self) -> bool {
        true
    }

    open spec fn spec_name(&self) -> Seq<char> {
        "REMHASH"@
    }

    open spec fn admits(&self, args: Seq<Val>) -> bool {
        true
    }

    fn name(&self) -> &str {
        "REMHASH"
    }

    fn description(&self) -> (r: &str)
        ensures
            r@ == "Remove key-value pair from hash table (returns true if removed)"@,
    {
        "Remove key-value pair from hash table (returns true if removed)"
    }

    fn execute(&self, args: &[Value]) -> (r: Result<Value, Error>)
        ensures
            outcome(r) == (match key_and_table("REMHASH"@, "Expected key and hash-table arguments"@, models(args@)) {
                Err(e) => Err(e),
                Ok((k, t)) => yields(Val::Bool(obj_lookup(t, k) is Some)),
            }),
    {
        let (key, table) = key_and_table_exec("REMHASH", "Expected key and hash-table arguments", args)?;
        Ok(Value::Bool(table.contains_key(key)))
    }
}



/// HASH-TABLE-CONTAINS-KEY - Check if key exists
pub struct HashTableContainsKeyTool;

impl Tool for HashTableContainsKeyTool {
    open spec fn names_itself(&self) -> bool {
        true
    }

    open spec fn spec_name(&self) -> Seq<char> {
        "HASH-TABLE-CONTAINS-KEY"@
    }

    open spec fn admits(&self, args: Seq<Val>) -> bool {
        true
    }

    fn name(&self) -> &str {
        "HASH-TABLE-CONTAINS-KEY"
    }

    fn description(&self) -> (r: &str)
        ensures
            r@ == "Check if hash table contains key"@,
    {
        "Check if hash table contains key"
    }

    fn execute(&self, args: &[Value]) -> (r: Result<Value, Error>)
        ensures
            outcome(r) == (match key_and_table("HASH-TABLE-CONTAINS-KEY"@, "Expected key and hash-table arguments"@, models(args@)) {
                Err(e) => Err(e),
                Ok((k, t)) => yields(Val::Bool(obj_lookup(t, k) is Some)),
            }),
    {
        let (key, table) = key_and_table_exec("HASH-TABLE-CONTAINS-KEY", "Expected key and hash-table arguments", args)?;
        Ok(Value::Bool(table.contains_key(key)))
    }
}



/// HASH-TABLE-GET-OR-DEFAULT - Get value with default
pub struct HashTableGetOrDefaultTool;

impl Tool for HashTableGetOrDefaultTool {
    open spec fn names_itself(&self) -> bool {
        true
    }

    open spec fn spec_name(&self) -> Seq<char> {
        "HASH-TABLE-GET-OR-DEFAULT"@
    }

    open spec fn admits(&self, args: Seq<Val>) -> bool {
        true
    }

    fn name(&self) -> &str {
        "HASH-TABLE-GET-OR-DEFAULT"
    }

    fn description(&self) -> (r: &str)
        ensures
            r@ == "Get value or return default if key not found"@,
    {
        "Get value or return default if key not found"
    }

    fn execute(&self, args: &[Value]) -> (r: Result<Value, Error>)
        ensures
            outcome(r) == (if args@.len() < 3 { bad_args("HASH-TABLE-GET-OR-DEFAULT"@, "Expected key, hash-table, and default arguments"@) } else {
                match key_and_table("HASH-TABLE-GET-OR-DEFAULT"@, "Expected key, hash-table, and default arguments"@, models(args@)) {
                    Err(e) => Err(e),
                    Ok((k, t)) => yields(lookup_or(t, k, models(args@)[2])),
                }
            }),
    {
        if args.len() < 3 {
            return Err(invalid_args("HASH-TABLE-GET-OR-DEFAULT", "Expected key, hash-table, and default arguments"));
        }
        let (key, table) = key_and_table_exec("HASH-TABLE-GET-OR-DEFAULT", "Expected key, hash-table, and default arguments", args)?;
        match table.get(key) {
            Some(v) => Ok(v.deep_copy()),
            None => Ok(args[2].deep_copy()),
        }
    }
}



/// CLRHASH - Clear all entries from hash table
pub struct ClrhashTool;

impl Tool for ClrhashTool {
    open spec fn names_itself(&self) -> bool {
        true
    }

    open spec fn spec_name(&self) -> Seq<char> {
        "CLRHASH"@
    }

    open spec fn admits(&self, args: Seq<Val>) -> bool {
        true
    }

    fn name(&self) -> &str {
        "CLRHASH"
    }

    fn description(&self) -> (r: &str)
        ensures
            r@ == "Clear all entries from hash table (returns empty hash table)"@,
    {
        "Clear all entries from hash table (returns empty hash table)"
    }

    fn execute(&self, args: &[Value]) -> (r: Result<Value, Error>)
        ensures
            outcome(r) == (match one_table("CLRHASH"@, models(args@)) {
                Err(e) => Err(e),
                Ok(_) => yields(Val::Obj(Seq::empty())),
            }),
    {
        let _ = one_table_exec("CLRHASH", args)?;
        Ok(Value::Object(ObjectMap::new()))
    }
}



/// HASH-TABLE-P - Check if value is a hash table
pub struct HashTablePTool;

impl Tool for HashTablePTool {
    open spec fn names_itself(&self) -> bool {
        true
    }

    open spec fn spec_name(&self) -> Seq<char> {
        "HASH-TABLE-P"@
    }

    open spec fn admits(&self, args: Seq<Val>) -> bool {
        true
    }

    fn name(&self) -> &str {
        "HASH-TABLE-P"
    }

    fn description(&self) -> (r: &str)
        ensures
            r@ == "Check if value is a hash table"@,
    {
        "Check if value is a hash table"
    }

    fn execute(&self, args: &[Value]) -> (r: Result<Value, Error>)
        ensures
            outcome(r) == (yields(Val::Bool(args@.len() > 0 && models(args@)[0] is Obj))),
    {
        if args.len() == 0 {
            return Ok(Value::Bool(false));
        }
        Ok(Value::Bool(matches!(&args[0], Value::Object(_))))
    }
}



/// HASH-TABLE-COUNT - Get number of entries
pub struct HashTableCountTool;

impl Tool for HashTableCountTool {
    open spec fn names_itself(&self) -> bool {
        true
    }

    open spec fn spec_name(&self) -> Seq<char> {
        "HASH-TABLE-COUNT"@
    }

    open spec fn admits(&self, args: Seq<Val>) -> bool {
        true
    }

    fn name(&self) -> &str {
        "HASH-TABLE-COUNT"
    }

    fn description(&self) -> (r: &str)
        ensures
            r@ == "Get number of key-value pairs in hash table"@,
    {
        "Get number of key-value pairs in hash table"
    }

    fn execute(&self, args: &[Value]) -> (r: Result<Value, Error>)
        ensures
            outcome(r) == (match one_table("HASH-TABLE-COUNT"@, models(args@)) {
                Err(e) => Err(e),
                Ok(t) => yields(Val::Int(t.len() as i64)),
            }),
    {
        let table = one_table_exec("HASH-TABLE-COUNT", args)?;
        Ok(Value::Int(table.len() as i64))
    }
}



/// HASH-TABLE-SIZE - Get current capacity
pub struct HashTableSizeTool;

impl Tool for HashTableSizeTool {
    open spec fn names_itself(&self) -> bool {
        true
    }

    open spec fn spec_name(&self) -> Seq<char> {
        "HASH-TABLE-SIZE"@
    }

    open spec fn admits(&self, args: Seq<Val>) -> bool {
        true
    }

    fn name(&self) -> &str {
        "HASH-TABLE-SIZE"
    }

    fn description(&self) -> (r: &str)
        ensures
            r@ == "Get current capacity of hash table"@,
    {
        "Get current capacity of hash table"
    }

    fn execute(&self, args: &[Value]) -> (r: Result<Value, Error>)
        ensures
            outcome(r) == (match one_table("HASH-TABLE-SIZE"@, models(args@)) {
                Err(e) => Err(e),
                Ok(t) => yields(Val::Int(t.len() as i64)),
            }),
    {
        let table = one_table_exec("HASH-TABLE-SIZE", args)?;
        Ok(Value::Int(table.len() as i64))
    }
}



/// HASH-TABLE-TEST - Get equality test function
pub struct HashTableTestTool;

impl Tool for HashTableTestTool {
    open spec fn names_itself(&self) -> bool {
        true
    }

    open spec fn spec_name(&self) -> Seq<char> {
        "HASH-TABLE-TEST"@
    }

    open spec fn admits(&self, args: Seq<Val>) -> bool {
        true
    }

    fn name(&self) -> &str {
        "HASH-TABLE-TEST"
    }

    fn description(&self) -> (r: &str)
        ensures
            r@ == "Get equality test function for hash table (returns 'EQUAL')"@,
    {
        "Get equality test function for hash table (returns 'EQUAL')"
    }

    fn execute(&self, args: &[Value]) -> (r: Result<Value, Error>)
        ensures
            outcome(r) == (match one_table("HASH-TABLE-TEST"@, models(args@)) {
                Err(e) => Err(e),
                Ok(_) => yields(Val::Str("EQUAL"@)),
            }),
    {
        let _ = one_table_exec("HASH-TABLE-TEST", args)?;
        Ok(Value::String(owned("EQUAL")))
    }
}



/// HASH-TABLE-KEYS - Get all keys as list
pub struct HashTableKeysTool;

impl Tool for HashTableKeysTool {
    open spec fn names_itself(&self) -> bool {
        true
    }

    open spec fn spec_name(&self) -> Seq<char> {
        "HASH-TABLE-KEYS"@
    }

    open spec fn admits(&self, args: Seq<Val>) -> bool {
        true
    }

    fn name(&self) -> &str {
        "HASH-TABLE-KEYS"
    }

    fn description(&self) -> (r: &str)
        ensures
            r@ == "Get list of all keys in hash table"@,
    {
        "Get list of all keys in hash table"
    }

    fn execute(&self, args: &[Value]) -> (r: Result<Value, Error>)
        ensures
            outcome(r) == (match one_table("HASH-TABLE-KEYS"@, models(args@)) {
                Err(e) => Err(e),
                Ok(t) => yields(Val::Arr(obj_keys(t))),
            }),
    {
        let table = one_table_exec("HASH-TABLE-KEYS", args)?;
        let mut keys: Vec<Value> = Vec::new();
        let mut i: usize = 0;
        while i < table.entries.len()
            invariant
                i <= table.entries@.len(),
                keys@.len() == i,
                forall|j: int| 0 <= j < i ==> #[trigger] keys@[j].model() == obj_keys(table.model())[j],
            decreases table.entries.len() - i,
        {
            keys.push(Value::String(table.entries[i].0.clone()));
            i = i + 1;
        }
        assert(models(keys@) =~= obj_keys(table.model()));
        Ok(Value::Array(keys))
    }
}



/// HASH-TABLE-VALUES - Get all values as list
pub struct HashTableValuesTool;

impl Tool for HashTableValuesTool {
    open spec fn names_itself(&self) -> bool {
        true
    }

    open spec fn spec_name(&self) -> Seq<char> {
        "HASH-TABLE-VALUES"@
    }

    open spec fn admits(&self, args: Seq<Val>) -> bool {
        true
    }

    fn name(&self) -> &str {
        "HASH-TABLE-VALUES"
    }

    fn description(&self) -> (r: &str)
        ensures
            r@ == "Get list of all values in hash table"@,
    {
        "Get list of all values in hash table"
    }

    fn execute(&self, args: &[Value]) -> (r: Result<Value, Error>)
        ensures
            outcome(r) == (match one_table("HASH-TABLE-VALUES"@, models(args@)) {
                Err(e) => Err(e),
                Ok(t) => yields(Val::Arr(obj_values(t))),
            }),
    {
        let table = one_table_exec("HASH-TABLE-VALUES", args)?;
        let mut vals: Vec<Value> = Vec::new();
        let mut i: usize = 0;
        while i < table.entries.len()
            invariant
                i <= table.entries@.len(),
                vals@.len() == i,
                forall|j: int| 0 <= j < i ==> #[trigger] vals@[j].model() == obj_values(table.model())[j],
            decreases table.entries.len() - i,
        {
            vals.push(table.entries[i].1.deep_copy());
            i = i + 1;
        }
        assert(models(vals@) =~= obj_values(table.model()));
        Ok(Value::Array(vals))
    }
}



/// HASH-TABLE-PAIRS - Get all key-value pairs as list of lists
pub struct HashTablePairsTool;

impl Tool for HashTablePairsTool {
    open spec fn names_itself(&self) -> bool {
        true
    }

    open spec fn spec_name(&self) -> Seq<char> {
        "HASH-TABLE-PAIRS"@
    }

    open spec fn admits(&self, args: Seq<Val>) -> bool {
        true
    }

    fn name(&self) -> &str {
        "HASH-TABLE-PAIRS"
    }

    fn description(&self) -> (r: &str)
        ensures
            r@ == "Get list of all key-value pairs as (key value) lists"@,
    {
        "Get list of all key-value pairs as (key value) lists"
    }

    fn execute(&self, args: &[Value]) -> (r: Result<Value, Error>)
        ensures
            outcome(r) == (match one_table("HASH-TABLE-PAIRS"@, models(args@)) {
                Err(e) => Err(e),
                Ok(t) => yields(Val::Arr(entry_pairs(t))),
            }),
    {
        let table = one_table_exec("HASH-TABLE-PAIRS", args)?;
        Ok(Value::Array(entry_pairs_exec(table)))
    }
}



/// HASH-TABLE-TO-ALIST - Convert hash table to association list
pub struct HashTableToAlistTool;

impl Tool for HashTableToAlistTool {
    open spec fn names_itself(&self) -> bool {
        true
    }

    open spec fn spec_name(&self) -> Seq<char> {
        "HASH-TABLE-TO-ALIST"@
    }

    open spec fn admits(&self, args: Seq<Val>) -> bool {
        true
    }

    fn name(&self) -> &str {
        "HASH-TABLE-TO-ALIST"
    }

    fn description(&self) -> (r: &str)
        ensures
            r@ == "Convert hash table to association list"@,
    {
        "Convert hash table to association list"
    }

    fn execute(&self, args: &[Value]) -> (r: Result<Value, Error>)
        ensures
            outcome(r) == (match one_table("HASH-TABLE-TO-ALIST"@, models(args@)) {
                Err(e) => Err(e),
                Ok(t) => yields(Val::Arr(entry_pairs(t))),
            }),
    {
        let table = one_table_exec("HASH-TABLE-TO-ALIST", args)?;
        Ok(Value::Array(entry_pairs_exec(table)))
    }
}



/// ALIST-TO-HASH-TABLE - Convert association list to hash table
pub struct AlistToHashTableTool;

impl Tool for AlistToHashTableTool {
    open spec fn names_itself(&self) -> bool {
        true
    }

    open spec fn spec_name(&self) -> Seq<char> {
        "ALIST-TO-HASH-TABLE"@
    }

    open spec fn admits(&self, args: Seq<Val>) -> bool {
        true
    }

    fn name(&self) -> &str {
        "ALIST-TO-HASH-TABLE"
    }

    fn description(&self) -> (r: &str)
        ensures
            r@ == "Convert association list to hash table"@,
    {
        "Convert association list to hash table"
    }

    fn execute(&self, args: &[Value]) -> (r: Result<Value, Error>)
        ensures
            outcome(r) == (if args@.len() == 0 { bad_args("ALIST-TO-HASH-TABLE"@, "Expected alist argument"@) } else {
                match elems(models(args@)[0]) {
                    Err(e) => Err(e),
                    Ok(s) => match alist_table(s) {
                        Err(e) => Err(e),
                        Ok(t) => yields(Val::Obj(t)),
                    },
                }
            }),
    {
        if args.len() == 0 {
            return Err(invalid_args("ALIST-TO-HASH-TABLE", "Expected alist argument"));
        }
        let alist = args[0].as_array()?;
        let map = alist_table_exec(alist)?;
        Ok(Value::Object(map))
    }
}



/// COPY-HASH-TABLE - Create shallow copy of hash table
pub struct CopyHashTableTool;

impl Tool for CopyHashTableTool {
    open spec fn names_itself(&self) -> bool {
        true
    }

    open spec fn spec_name(&self) -> Seq<char> {
        "COPY-HASH-TABLE"@
    }

    open spec fn admits(&self, args: Seq<Val>) -> bool {
        true
    }

    fn name(&self) -> &str {
        "COPY-HASH-TABLE"
    }

    fn description(&self) -> (r: &str)
        ensures
            r@ == "Create shallow copy of hash table"@,
    {
        "Create shallow copy of hash table"
    }

    fn execute(&self, args: &[Value]) -> (r: Result<Value, Error>)
        ensures
            outcome(r) == (match one_table("COPY-HASH-TABLE"@, models(args@)) {
                Err(e) => Err(e),
                Ok(t) => yields(Val::Obj(t)),
            }),
    {
        let table = one_table_exec("COPY-HASH-TABLE", args)?;
        Ok(Value::Object(table.deep_copy()))
    }
}



/// HASH-TABLE-EQUAL-P - Check if two hash tables are equal
pub struct HashTableEqualPTool;

impl Tool for HashTableEqualPTool {
    open spec fn names_itself(&self) -> bool {
        true
    }

    open spec fn spec_name(&self) -> Seq<char> {
        "HASH-TABLE-EQUAL-P"@
    }

    open spec fn admits(&self, args: Seq<Val>) -> bool {
        true
    }

    fn name(&self) -> &str {
        "HASH-TABLE-EQUAL-P"
    }

    fn description(&self) -> (r: &str)
        ensures
            r@ == "Check if two hash tables have equal contents"@,
    {
        "Check if two hash tables have equal contents"
    }

    fn execute(&self, args: &[Value]) -> (r: Result<Value, Error>)
        ensures
            outcome(r) == (if args@.len() < 2 { bad_args("HASH-TABLE-EQUAL-P"@, "Expected two hash-table arguments"@) } else {
                match obj_of(models(args@)[0]) {
                    Err(e) => Err(e),
                    Ok(t1) => match obj_of(models(args@)[1]) {
                        Err(e) => Err(e),
                        Ok(t2) => yields(Val::Bool(tables_equal(t1, t2))),
                    },
                }
            }),
    {
        if args.len() < 2 {
            return Err(invalid_args("HASH-TABLE-EQUAL-P", "Expected two hash-table arguments"));
        }
        let t1 = args[0].as_object()?;
        let t2 = args[1].as_object()?;
        Ok(Value::Bool(tables_equal_exec(t1, t2)))
    }
}



/// MERGE-HASH-TABLES - Merge multiple hash tables
pub struct MergeHashTablesTool;

impl Tool for MergeHashTablesTool {
    open spec fn names_itself(&self) -> bool {
        true
    }

    open spec fn spec_name(&self) -> Seq<char> {
        "MERGE-HASH-TABLES"@
    }

    open spec fn admits(&self, args: Seq<Val>) -> bool {
        true
    }

    fn name(&self) -> &str {
        "MERGE-HASH-TABLES"
    }

    fn description(&self) -> (r: &str)
        ensures
            r@ == "Merge multiple hash tables (later values override earlier)"@,
    {
        "Merge multiple hash tables (later values override earlier)"
    }

    fn execute(&self, args: &[Value]) -> (r: Result<Value, Error>)
        ensures
            outcome(r) == (match merge_tables(models(args@)) {
                Err(e) => Err(e),
                Ok(t) => yields(Val::Obj(t)),
            }),
    {
        let ghost a = models(args@);
        let mut merged = ObjectMap::new();
        let mut i: usize = 0;
        assert(a.take(0) =~= Seq::<Val>::empty());
        while i < args.len()
            invariant
                a == models(args@),
                i <= args@.len(),
                merge_tables(a.take(i as int)) == Ok::<Seq<(Seq<char>, Val)>, ErrV>(merged.model()),
            decreases args.len() - i,
        {
            assert(a.take(i + 1).drop_last() =~= a.take(i as int));
            assert(a.take(i + 1).last() == args@[i as int].model());
            let table = match args[i].as_object() {
                Ok(t) => t,
                Err(e) => {
                    proof {
                        lemma_merge_err(a, i + 1);
                    }
                    return Err(e);
                },
            };
            merged = merge_into(merged, table);
            i = i + 1;
        }
        assert(a.take(i as int) =~= a);
        Ok(Value::Object(merged))
    }
}



/// The result of HASH-TABLE-UPDATE: a copy of the table with the key bound
/// to the value.
pub open spec fn update_result(a: Seq<Val>) -> Result<Val, ErrV> {
    if a.len() < 3 {
        bad_args("HASH-TABLE-UPDATE"@, "Expected hash-table, key, and value arguments"@)
    } else {
        match obj_of(a[0]) {
            Err(e) => Err(e),
            Ok(t) => match str_of(a[1]) {
                Err(e) => Err(e),
                Ok(k) => yields(Val::Obj(obj_insert(t, k, a[2]))),
            },
        }
    }
}

/// What a read gives back of a write: in the table that HASH-TABLE-UPDATE
/// returns, GETHASH finds the value just written under its key, and finds
/// under every other key what it found in the table before.
pub proof fn law_update_then_gethash(t: Seq<(Seq<char>, Val)>, k: Seq<char>, v: Val, other: Seq<char>)
    ensures
        match update_result(seq![Val::Obj(t), Val::Str(k), v]) {
            Ok(Val::Obj(t2)) => {
                &&& gethash_result(seq![Val::Str(k), Val::Obj(t2)]) == yields(v)
                &&& other != k ==> gethash_result(seq![Val::Str(other), Val::Obj(t2)])
                    == gethash_result(seq![Val::Str(other), Val::Obj(t)])
            },
            _ => false,
        },
{
    law_insert_then_lookup(t, k, v, other);
}

/// HASH-TABLE-UPDATE - Update hash table entry
pub struct HashTableUpdateTool;

impl Tool for HashTableUpdateTool {
    open spec fn names_itself(&self) -> bool {
        true
    }

    open spec fn spec_name(&self) -> Seq<char> {
        "HASH-TABLE-UPDATE"@
    }

    open spec fn admits(&self, args: Seq<Val>) -> bool {
        true
    }

    fn name(&self) -> &str {
        "HASH-TABLE-UPDATE"
    }

    fn description(&self) -> (r: &str)
        ensures
            r@ == "Update hash table with new key-value pair (returns new hash table)"@,
    {
        "Update hash table with new key-value pair (returns new hash table)"
    }

    fn execute(&self, args: &[Value]) -> (r: Result<Value, Error>)
        ensures
            outcome(r) == (update_result(models(args@))),
    {
        if args.len() < 3 {
            return Err(invalid_args("HASH-TABLE-UPDATE", "Expected hash-table, key, and value arguments"));
        }
        let table = args[0].as_object()?;
        let key = args[1].as_string()?;
        let mut m = table.deep_copy();
        m.insert(owned(key), args[2].deep_copy());
        Ok(Value::Object(m))
    }
}


} // verus!
