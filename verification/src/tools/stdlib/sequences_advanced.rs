//! Advanced sequence operations for OVSM
//!
//! Sorting with keys, sequence comparisons, and advanced searches.
//! Completes the Common Lisp sequence manipulation suite.
use vstd::prelude::*;

#[allow(unused_imports)]
use crate::access::{copy_range, copy_slice, copy_values, values_equal};
#[allow(unused_imports)]
use crate::error::{empty_collection, exec_error, invalid_args, ErrV, Error};
#[allow(unused_imports)]
use crate::text::{alphabetic, alphanumeric, char_from_u32, char_is_alphabetic, char_is_alphanumeric, char_is_lowercase, char_is_uppercase, char_is_whitespace, char_string, char_to_lowercase, char_to_uppercase, chars_of, chars_skip, concat, i64_to_string, int_decimal, lower_case, lower_chars, lowercase, owned, scalar_value, seq_less, str_equal, str_less, string_from_chars, to_lower, to_upper, upper_case, upper_chars, uppercase, whitespace};
#[allow(unused_imports)]
use crate::tools::{bad_args, name_insert, outcome, ref_outcome, string_views, yields, Tool, ToolRegistry};
#[allow(unused_imports)]
use crate::value::{and_then, elems, entry_models, int_of, models, obj_insert, obj_keys, obj_lookup, obj_merge, obj_of, obj_values, str_of, truthy, type_error, ObjectMap, Val, Value};

verus! {

broadcast use crate::seq_models::group_value_models;

/// The names after registering this module's tools, in order.
pub open spec fn registered_names(ns: Seq<Seq<char>>) -> Seq<Seq<char>> {
    let ns = name_insert(ns, "SORT-BY-KEY"@);
    let ns = name_insert(ns, "STABLE-SORT-BY-KEY"@);
    let ns = name_insert(ns, "MISMATCH"@);
    let ns = name_insert(ns, "SEARCH-SUBSEQUENCE"@);
    let ns = name_insert(ns, "SUBSTITUTE-IF-NOT"@);
    let ns = name_insert(ns, "NSUBSTITUTE-IF-NOT"@);
    let ns = name_insert(ns, "FILL-POINTER"@);
    let ns = name_insert(ns, "VECTOR-PUSH"@);
    let ns = name_insert(ns, "VECTOR-POP"@);
    let ns = name_insert(ns, "VECTOR-PUSH-EXTEND"@);
    ns
}

/// Register the tools of this module.
pub fn register(registry: &mut ToolRegistry)
    ensures
        final(registry).names() == registered_names(old(registry).names()),
{
    registry.register(SortByKeyTool);
    registry.register(StableSortByKeyTool);
    registry.register(MismatchTool);
    registry.register(SearchSubsequenceTool);
    registry.register(SubstituteIfNotTool);
    registry.register(NsubstituteIfNotTool);
    registry.register(FillPointerTool);
    registry.register(VectorPushTool);
    registry.register(VectorPopTool);
    registry.register(VectorPushExtendTool);
}

use crate::tools::stdlib::lists_advanced::{first_occurrence, occurs_at, occurs_at_exec};
use crate::sorting::{stable_sort_values, stable_sorted};

/// The first index at or after `i`, below both lengths, where `x` and `y` differ.
pub open spec fn first_difference(x: Seq<Val>, y: Seq<Val>, i: int) -> Option<int>
    decreases x.len() - i,
{
    if i < 0 || i >= x.len() || i >= y.len() {
        None
    } else if x[i] != y[i] {
        Some(i)
    } else {
        first_difference(x, y, i + 1)
    }
}

/// The result of MISMATCH for two arrays.
pub open spec fn mismatch_of(x: Seq<Val>, y: Seq<Val>) -> Val {
    match first_difference(x, y, 0) {
        Some(i) => Val::Int(i as i64),
        None => if x.len() != y.len() {
            Val::Int((if x.len() < y.len() { x.len() } else { y.len() }) as i64)
        } else {
            Val::Null
        },
    }
}

fn mismatch_exec(x: &Vec<Value>, y: &Vec<Value>) -> (r: Value)
    ensures
        r.model() == mismatch_of(models(x@), models(y@)),
{
    let n = if x.len() < y.len() { x.len() } else { y.len() };
    let mut i: usize = 0;
    while i < n
        invariant
            n <= x@.len(),
            n <= y@.len(),
            n == x@.len() || n == y@.len(),
            i <= n,
            first_difference(models(x@), models(y@), 0) == first_difference(models(x@), models(y@), i as int),
        decreases n - i,
    {
        if !values_equal(&x[i], &y[i]) {
            return Value::Int(i as i64);
        }
        i = i + 1;
    }
    if x.len() != y.len() {
        Value::Int(n as i64)
    } else {
        Value::Null
    }
}

/// The result of SUBSTITUTE-IF-NOT and NSUBSTITUTE-IF-NOT: each false element
/// of the array replaced by the new value.
pub open spec fn substitute_if_not(a: Seq<Val>) -> Val {
    if a.len() < 2 {
        if a.len() == 0 { Val::Null } else { a[0] }
    } else {
        match a[1] {
            Val::Arr(s) => Val::Arr(Seq::new(s.len(), |i: int| if !truthy(s[i]) { a[0] } else { s[i] })),
            v => v,
        }
    }
}

fn substitute_if_not_exec(args: &[Value]) -> (r: Value)
    ensures
        r.model() == substitute_if_not(models(args@)),
{
    if args.len() < 2 {
        return if args.len() == 0 { Value::Null } else { args[0].deep_copy() };
    }
    match &args[1] {
        Value::Array(arr) => {
            let mut out: Vec<Value> = Vec::new();
            let mut i: usize = 0;
            while i < arr.len()
                invariant
                    args@.len() >= 2,
                    i <= arr@.len(),
                    out@.len() == i,
                    forall|j: int| 0 <= j < i ==> #[trigger] out@[j].model() == (if !truthy(arr@[j].model()) { args@[0].model() } else { arr@[j].model() }),
                decreases arr.len() - i,
            {
                if !arr[i].is_truthy() {
                    out.push(args[0].deep_copy());
                } else {
                    out.push(arr[i].deep_copy());
                }
                i = i + 1;
            }
            let ghost s = models(arr@);
            assert(models(out@) =~= Seq::new(s.len(), |i: int| if !truthy(s[i]) { models(args@)[0] } else { s[i] }));
            Value::Array(out)
        },
        v => v.deep_copy(),
    }
}

/// The result of VECTOR-PUSH and VECTOR-PUSH-EXTEND: the array with the element appended.
pub open spec fn push_result(tool: Seq<char>, a: Seq<Val>) -> Result<Val, ErrV> {
    if a.len() < 2 {
        bad_args(tool, "Expected element and vector arguments"@)
    } else {
        match a[1] {
            Val::Arr(s) => yields(Val::Arr(s.push(a[0]))),
            _ => bad_args(tool, "Expected array as second argument"@),
        }
    }
}

fn push_exec(tool: &str, args: &[Value]) -> (r: Result<Value, Error>)
    ensures
        outcome(r) == push_result(tool@, models(args@)),
{
    if args.len() < 2 {
        return Err(invalid_args(tool, "Expected element and vector arguments"));
    }
    match &args[1] {
        Value::Array(arr) => {
            let mut v = copy_values(arr);
            v.push(args[0].deep_copy());
            assert(models(v@) =~= models(arr@).push(args@[0].model()));
            Ok(Value::Array(v))
        },
        _ => Err(invalid_args(tool, "Expected array as second argument")),
    }
}

/// MISMATCH - Find first position where sequences differ
pub struct MismatchTool;

impl Tool for MismatchTool {
    open spec fn names_itself(&self) -> bool {
        true
    }

    open spec fn spec_name(&self) -> Seq<char> {
        "MISMATCH"@
    }

    open spec fn admits(&self, args: Seq<Val>) -> bool {
        true
    }

    fn name(&self) -> &str {
        "MISMATCH"
    }

    fn description(&self) -> (r: &str)
        ensures
            r@ == "Find first position where sequences differ"@,
    {
        "Find first position where sequences differ"
    }

    fn execute(&self, args: &[Value]) -> (r: Result<Value, Error>)
        ensures
            outcome(r) == (if args@.len() < 2 { bad_args("MISMATCH"@, "Expected two sequence arguments"@) } else {
                match (models(args@)[0], models(args@)[1]) {
                    (Val::Arr(x), Val::Arr(y)) => yields(mismatch_of(x, y)),
                    _ => bad_args("MISMATCH"@, "Expected array arguments"@),
                }
            }),
    {
        if args.len() < 2 {
            return Err(invalid_args("MISMATCH", "Expected two sequence arguments"));
        }
        match (&args[0], &args[1]) {
            (Value::Array(x), Value::Array(y)) => Ok(mismatch_exec(x, y)),
            _ => Err(invalid_args("MISMATCH", "Expected array arguments")),
        }
    }
}



/// SEARCH-SUBSEQUENCE - Search for subsequence
pub struct SearchSubsequenceTool;

impl Tool for SearchSubsequenceTool {
    open spec fn names_itself(&self) -> bool {
        true
    }

    open spec fn spec_name(&self) -> Seq<char> {
        "SEARCH-SUBSEQUENCE"@
    }

    open spec fn admits(&self, args: Seq<Val>) -> bool {
        true
    }

    fn name(&self) -> &str {
        "SEARCH-SUBSEQUENCE"
    }

    fn description(&self) -> (r: &str)
        ensures
            r@ == "Search for subsequence in sequence"@,
    {
        "Search for subsequence in sequence"
    }

    fn execute(&self, args: &[Value]) -> (r: Result<Value, Error>)
        ensures
            outcome(r) == (if args@.len() < 2 { bad_args("SEARCH-SUBSEQUENCE"@, "Expected subsequence and sequence arguments"@) } else {
                match (models(args@)[0], models(args@)[1]) {
                    (Val::Arr(n), Val::Arr(h)) => if n.len() == 0 {
                        yields(Val::Int(0))
                    } else {
                        match first_occurrence(h, n, 0) {
                            Some(i) => yields(Val::Int(i as i64)),
                            None => yields(Val::Null),
                        }
                    },
                    _ => bad_args("SEARCH-SUBSEQUENCE"@, "Expected array arguments"@),
                }
            }),
    {
        if args.len() < 2 {
            return Err(invalid_args("SEARCH-SUBSEQUENCE", "Expected subsequence and sequence arguments"));
        }
        match (&args[0], &args[1]) {
            (Value::Array(needle), Value::Array(haystack)) => {
                if needle.len() == 0 {
                    return Ok(Value::Int(0));
                }
                Ok(search_exec(needle, haystack))
            },
            _ => Err(invalid_args("SEARCH-SUBSEQUENCE", "Expected array arguments")),
        }
    }
}



/// SUBSTITUTE-IF-NOT - Substitute where predicate false
pub struct SubstituteIfNotTool;

impl Tool for SubstituteIfNotTool {
    open spec fn names_itself(&self) -> bool {
        true
    }

    open spec fn spec_name(&self) -> Seq<char> {
        "SUBSTITUTE-IF-NOT"@
    }

    open spec fn admits(&self, args: Seq<Val>) -> bool {
        true
    }

    fn name(&self) -> &str {
        "SUBSTITUTE-IF-NOT"
    }

    fn description(&self) -> (r: &str)
        ensures
            r@ == "Substitute where predicate is false"@,
    {
        "Substitute where predicate is false"
    }

    fn execute(&self, args: &[Value]) -> (r: Result<Value, Error>)
        ensures
            outcome(r) == (yields(substitute_if_not(models(args@)))),
    {
        Ok(substitute_if_not_exec(args))
    }
}



/// NSUBSTITUTE-IF-NOT - Destructive substitute where predicate false
pub struct NsubstituteIfNotTool;

impl Tool for NsubstituteIfNotTool {
    open spec fn names_itself(&self) -> bool {
        true
    }

    open spec fn spec_name(&self) -> Seq<char> {
        "NSUBSTITUTE-IF-NOT"@
    }

    open spec fn admits(&self, args: Seq<Val>) -> bool {
        true
    }

    fn name(&self) -> &str {
        "NSUBSTITUTE-IF-NOT"
    }

    fn description(&self) -> (r: &str)
        ensures
            r@ == "Destructively substitute where predicate is false"@,
    {
        "Destructively substitute where predicate is false"
    }

    fn execute(&self, args: &[Value]) -> (r: Result<Value, Error>)
        ensures
            outcome(r) == (yields(substitute_if_not(models(args@)))),
    {
        Ok(substitute_if_not_exec(args))
    }
}



/// FILL-POINTER - Get or set fill pointer
pub struct FillPointerTool;

impl Tool for FillPointerTool {
    open spec fn names_itself(&self) -> bool {
        true
    }

    open spec fn spec_name(&self) -> Seq<char> {
        "FILL-POINTER"@
    }

    open spec fn admits(&self, args: Seq<Val>) -> bool {
        true
    }

    fn name(&self) -> &str {
        "FILL-POINTER"
    }

    fn description(&self) -> (r: &str)
        ensures
            r@ == "Get or set array fill pointer"@,
    {
        "Get or set array fill pointer"
    }

    fn execute(&self, args: &[Value]) -> (r: Result<Value, Error>)
        ensures
            outcome(r) == (yields(if args@.len() > 0 && models(args@)[0] is Arr { Val::Int(models(args@)[0]->Arr_0.len() as i64) } else { Val::Null })),
    {
        if args.len() > 0 {
            match &args[0] {
                Value::Array(arr) => {
                    assert(models(arr@).len() == arr@.len());
                    return Ok(Value::Int(arr.len() as i64));
                },
                _ => {},
            }
        }
        Ok(Value::Null)
    }
}



/// VECTOR-PUSH - Push element, advance fill pointer
pub struct VectorPushTool;

impl Tool for VectorPushTool {
    open spec fn names_itself(&self) -> bool {
        true
    }

    open spec fn spec_name(&self) -> Seq<char> {
        "VECTOR-PUSH"@
    }

    open spec fn admits(&self, args: Seq<Val>) -> bool {
        true
    }

    fn name(&self) -> &str {
        "VECTOR-PUSH"
    }

    fn description(&self) -> (r: &str)
        ensures
            r@ == "Push element onto vector with fill pointer"@,
    {
        "Push element onto vector with fill pointer"
    }

    fn execute(&self, args: &[Value]) -> (r: Result<Value, Error>)
        ensures
            outcome(r) == (push_result("VECTOR-PUSH"@, models(args@))),
    {
        push_exec("VECTOR-PUSH", args)
    }
}



/// VECTOR-PUSH-EXTEND - Push element, extend if needed
pub struct VectorPushExtendTool;

impl Tool for VectorPushExtendTool {
    open spec fn names_itself(&self) -> bool {
        true
    }

    open spec fn spec_name(&self) -> Seq<char> {
        "VECTOR-PUSH-EXTEND"@
    }

    open spec fn admits(&self, args: Seq<Val>) -> bool {
        true
    }

    fn name(&self) -> &str {
        "VECTOR-PUSH-EXTEND"
    }

    fn description(&self) -> (r: &str)
        ensures
            r@ == "Push element, extending vector if necessary"@,
    {
        "Push element, extending vector if necessary"
    }

    fn execute(&self, args: &[Value]) -> (r: Result<Value, Error>)
        ensures
            outcome(r) == (push_result("VECTOR-PUSH-EXTEND"@, models(args@))),
    {
        push_exec("VECTOR-PUSH-EXTEND", args)
    }
}



/// VECTOR-POP - Pop element, decrement fill pointer
pub struct VectorPopTool;

impl Tool for VectorPopTool {
    open spec fn names_itself(&self) -> bool {
        true
    }

    open spec fn spec_name(&self) -> Seq<char> {
        "VECTOR-POP"@
    }

    open spec fn admits(&self, args: Seq<Val>) -> bool {
        true
    }

    fn name(&self) -> &str {
        "VECTOR-POP"
    }

    fn description(&self) -> (r: &str)
        ensures
            r@ == "Pop element from vector with fill pointer"@,
    {
        "Pop element from vector with fill pointer"
    }

    fn execute(&self, args: &[Value]) -> (r: Result<Value, Error>)
        ensures
            outcome(r) == (if args@.len() == 0 { bad_args("VECTOR-POP"@, "Expected vector argument"@) } else {
                match models(args@)[0] {
                    Val::Arr(s) => if s.len() == 0 {
                        bad_args("VECTOR-POP"@, "Cannot pop from empty vector"@)
                    } else {
                        yields(s.last())
                    },
                    _ => bad_args("VECTOR-POP"@, "Expected array argument"@),
                }
            }),
    {
        if args.len() == 0 {
            return Err(invalid_args("VECTOR-POP", "Expected vector argument"));
        }
        match &args[0] {
            Value::Array(arr) => {
                assert(models(arr@).len() == arr@.len());
                if arr.len() == 0 {
                    Err(invalid_args("VECTOR-POP", "Cannot pop from empty vector"))
                } else {
                    assert(models(arr@).last() == arr@[arr@.len() - 1].model());
                    Ok(arr[arr.len() - 1].deep_copy())
                }
            },
            _ => Err(invalid_args("VECTOR-POP", "Expected array argument")),
        }
    }
}



fn search_exec(needle: &Vec<Value>, haystack: &Vec<Value>) -> (r: Value)
    ensures
        r.model() == (match first_occurrence(models(haystack@), models(needle@), 0) {
            Some(i) => Val::Int(i as i64),
            None => Val::Null,
        }),
{
    let mut i: usize = 0;
    while i < haystack.len()
        invariant
            i <= haystack@.len(),
            first_occurrence(models(haystack@), models(needle@), 0) == first_occurrence(models(haystack@), models(needle@), i as int),
        decreases haystack.len() - i,
    {
        if occurs_at_exec(haystack, needle, i) {
            return Value::Int(i as i64);
        }
        i = i + 1;
    }
    Value::Null
}

/// The result of the sequence sorts: no argument gives an empty list, a list
/// comes back sorted stably, and any other value comes back as it is.
pub open spec fn sorted_sequence_result(a: Seq<Val>) -> Result<Val, ErrV> {
    if a.len() == 0 {
        yields(Val::Arr(Seq::empty()))
    } else {
        match a[0] {
            Val::Arr(s) => yields(Val::Arr(stable_sorted(s))),
            v => yields(v),
        }
    }
}

fn sorted_sequence_exec(args: &[Value]) -> (r: Result<Value, Error>)
    ensures
        outcome(r) == sorted_sequence_result(models(args@)),
{
    if args.len() == 0 {
        let v: Vec<Value> = Vec::new();
        assert(models(v@) =~= Seq::<Val>::empty());
        return Ok(Value::Array(v));
    }
    match &args[0] {
        Value::Array(s) => Ok(Value::Array(stable_sort_values(s.as_slice()))),
        v => Ok(v.deep_copy()),
    }
}

/// SORT-BY-KEY - Sort with key function
pub struct SortByKeyTool;

impl Tool for SortByKeyTool {
    open spec fn names_itself(&self) -> bool {
        true
    }

    open spec fn spec_name(&self) -> Seq<char> {
        "SORT-BY-KEY"@
    }

    open spec fn admits(&self, args: Seq<Val>) -> bool {
        true
    }

    fn name(&self) -> &str {
        "SORT-BY-KEY"
    }

    fn description(&self) -> (r: &str)
        ensures
            r@ == "Sort sequence using key function"@,
    {
        "Sort sequence using key function"
    }

    fn execute(&self, args: &[Value]) -> (r: Result<Value, Error>)
        ensures
            outcome(r) == (sorted_sequence_result(models(args@))),
    {
        sorted_sequence_exec(args)
    }
}



/// STABLE-SORT-BY-KEY - Stable sort with key
pub struct StableSortByKeyTool;

impl Tool for StableSortByKeyTool {
    open spec fn names_itself(&self) -> bool {
        true
    }

    open spec fn spec_name(&self) -> Seq<char> {
        "STABLE-SORT-BY-KEY"@
    }

    open spec fn admits(&self, args: Seq<Val>) -> bool {
        true
    }

    fn name(&self) -> &str {
        "STABLE-SORT-BY-KEY"
    }

    fn description(&self) -> (r: &str)
        ensures
            r@ == "Stable sort sequence using key function"@,
    {
        "Stable sort sequence using key function"
    }

    fn execute(&self, args: &[Value]) -> (r: Result<Value, Error>)
        ensures
            outcome(r) == (sorted_sequence_result(models(args@))),
    {
        sorted_sequence_exec(args)
    }
}


} // verus!
