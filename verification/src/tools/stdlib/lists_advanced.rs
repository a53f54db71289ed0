//! Advanced list manipulation tools - Common Lisp compatible
use vstd::prelude::*;

#[allow(unused_imports)]
use crate::access::{copy_range, copy_slice, copy_values, values_equal};
#[allow(unused_imports)]
use crate::error::{empty_collection, exec_error, invalid_args, ErrV, Error};
#[allow(unused_imports)]
use crate::text::{alphabetic, alphanumeric, char_from_u32, char_is_alphabetic, char_is_alphanumeric, char_is_lowercase, char_is_uppercase, char_is_whitespace, char_string, char_to_lowercase, char_to_uppercase, chars_of, chars_skip, concat, i64_to_string, int_decimal, lower_case, lower_chars, lowercase, owned, scalar_value, seq_less, str_equal, str_less, string_from_chars, to_lower, to_upper, upper_case, upper_chars, uppercase, whitespace};
#[allow(unused_imports)]
use crate::tools::{bad_args, name_insert, outcome, ref_outcome, string_views, yields, Tool, ToolRegistry};
#[allow(unused_imports)]
use crate::value::{and_then, elems, entry_models, int_of, models, obj_insert, obj_keys, obj_lookup, obj_merge, obj_of, obj_values, str_of, truthy, type_error, ObjectMap, Val, Value};

verus! {

broadcast use crate::seq_models::group_value_models;

/// The names after registering this module's tools, in order.
pub open spec fn registered_names(ns: Seq<Seq<char>>) -> Seq<Seq<char>> {
    let ns = name_insert(ns, "MAKE-LIST"@);
    let ns = name_insert(ns, "COPY-LIST"@);
    let ns = name_insert(ns, "COPY-TREE"@);
    let ns = name_insert(ns, "LDIFF"@);
    let ns = name_insert(ns, "TAILP"@);
    let ns = name_insert(ns, "NTHLIST"@);
    let ns = name_insert(ns, "LASTN"@);
    let ns = name_insert(ns, "TREE-EQUAL"@);
    let ns = name_insert(ns, "SUBLIS"@);
    let ns = name_insert(ns, "NSUBLIS"@);
    let ns = name_insert(ns, "NTHCONSE"@);
    let ns = name_insert(ns, "RPLA"@);
    let ns = name_insert(ns, "RPLD"@);
    let ns = name_insert(ns, "LIST-LENGTH"@);
    let ns = name_insert(ns, "LIST-TAIL"@);
    let ns = name_insert(ns, "ENDP"@);
    let ns = name_insert(ns, "LIST-TUPLE-P"@);
    let ns = name_insert(ns, "STABLE-SORT"@);
    let ns = name_insert(ns, "SORT-BY"@);
    ns
}

/// Register the tools of this module.
pub fn register(registry: &mut ToolRegistry)
    ensures
        final(registry).names() == registered_names(old(registry).names()),
{
    registry.register(MakeListTool);
    registry.register(CopyListTool);
    registry.register(CopyTreeTool);
    registry.register(LdiffTool);
    registry.register(TailpTool);
    registry.register(NthListTool);
    registry.register(LastNTool);
    registry.register(TreeEqualTool);
    registry.register(SublisTool);
    registry.register(NsublisTool);
    registry.register(NthconseTool);
    registry.register(RplaTool);
    registry.register(RpldTool);
    registry.register(ListLengthTool);
    registry.register(ListTailTool);
    registry.register(EndpTool);
    registry.register(ListTuplePTool);
    registry.register(StableSortTool);
    registry.register(SortByTool);
}

use crate::tools::stdlib::arrays::{make_filled, make_filled_exec, size_admitted};
use crate::sorting::{stable_sort_values, stable_sorted};

/// Whether `n` occurs in `h` at `i`.
pub open spec fn occurs_at(h: Seq<Val>, n: Seq<Val>, i: int) -> bool {
    0 <= i && i + n.len() <= h.len() && h.subrange(i, i + n.len()) == n
}

/// The first place at or after `i` where `n` occurs in `h`.
pub open spec fn first_occurrence(h: Seq<Val>, n: Seq<Val>, i: int) -> Option<int>
    decreases h.len() + 1 - i,
{
    if i < 0 || i >= h.len() {
        None
    } else if occurs_at(h, n, i) {
        Some(i)
    } else {
        first_occurrence(h, n, i + 1)
    }
}

proof fn lemma_first_occurrence_bounds(h: Seq<Val>, n: Seq<Val>, j: int)
    ensures
        first_occurrence(h, n, j) matches Some(i) ==> j <= i < h.len(),
    decreases h.len() + 1 - j,
{
    if !(j < 0 || j >= h.len()) && !occurs_at(h, n, j) {
        lemma_first_occurrence_bounds(h, n, j + 1);
    }
}

pub(crate) fn occurs_at_exec(h: &Vec<Value>, n: &Vec<Value>, i: usize) -> (r: bool)
    ensures
        r == occurs_at(models(h@), models(n@), i as int),
{
    let hl = h.len();
    if i > hl || n.len() > hl - i {
        return false;
    }
    let mut j: usize = 0;
    while j < n.len()
        invariant
            hl == h@.len(),
            i + n@.len() <= h@.len(),
            j <= n@.len(),
            forall|k: int| 0 <= k < j ==> h@[i + k].model() == n@[k].model(),
        decreases n.len() - j,
    {
        if !values_equal(&h[i + j], &n[j]) {
            assert(models(h@).subrange(i as int, i + n@.len())[j as int] != models(n@)[j as int]);
            return false;
        }
        j = j + 1;
    }
    assert(models(h@).subrange(i as int, i + n@.len()) =~= models(n@));
    true
}

/// The elements of `s` from `n` on (none when `n` is past the end).
pub open spec fn from_index(s: Seq<Val>, n: int) -> Seq<Val> {
    if n >= s.len() {
        Seq::empty()
    } else {
        s.skip(n)
    }
}

fn from_index_exec(s: &Vec<Value>, n: usize) -> (r: Vec<Value>)
    ensures
        models(r@) == from_index(models(s@), n as int),
{
    if n >= s.len() {
        let v: Vec<Value> = Vec::new();
        assert(models(v@) =~= Seq::<Val>::empty());
        v
    } else {
        let v = copy_range(s, n, s.len());
        assert(models(s@).subrange(n as int, s@.len() as int) =~= models(s@).skip(n as int));
        v
    }
}

/// The two arrays that a two-list tool works on.
pub open spec fn two_lists(tool: Seq<char>, reason: Seq<char>, a: Seq<Val>) -> Result<(Seq<Val>, Seq<Val>), ErrV> {
    if a.len() < 2 {
        Err(ErrV::InvalidArguments { tool, reason })
    } else {
        match elems(a[0]) {
            Err(e) => Err(e),
            Ok(x) => match elems(a[1]) {
                Err(e) => Err(e),
                Ok(y) => Ok((x, y)),
            },
        }
    }
}

fn two_lists_exec<'a>(tool: &str, reason: &str, args: &'a [Value]) -> (r: Result<(&'a Vec<Value>, &'a Vec<Value>), Error>)
    ensures
        match r {
            Ok((x, y)) => two_lists(tool@, reason@, models(args@)) == Ok::<(Seq<Val>, Seq<Val>), ErrV>((models(x@), models(y@))),
            Err(e) => two_lists(tool@, reason@, models(args@)) == Err::<(Seq<Val>, Seq<Val>), ErrV>(e@),
        },
{
    if args.len() < 2 {
        return Err(invalid_args(tool, reason));
    }
    let x = args[0].as_array()?;
    let y = args[1].as_array()?;
    Ok((x, y))
}

/// The result of NTHLIST and LIST-TAIL: the list from the `n`-th element on.
pub open spec fn tail_result(tool: Seq<char>, reason: Seq<char>, a: Seq<Val>, list_first: bool) -> Result<Val, ErrV> {
    if a.len() < 2 {
        bad_args(tool, reason)
    } else {
        let li: int = if list_first { 0 } else { 1 };
        let ni: int = if list_first { 1 } else { 0 };
        if list_first {
            match elems(a[li]) {
                Err(e) => Err(e),
                Ok(s) => match int_of(a[ni]) {
                    Err(e) => Err(e),
                    Ok(n) => yields(Val::Arr(from_index(s, (n as usize) as int))),
                },
            }
        } else {
            match int_of(a[ni]) {
                Err(e) => Err(e),
                Ok(n) => match elems(a[li]) {
                    Err(e) => Err(e),
                    Ok(s) => yields(Val::Arr(from_index(s, (n as usize) as int))),
                },
            }
        }
    }
}

/// The elements of `list` before the first occurrence of `sub`, or all of them.
fn before_occurrence(list: &Vec<Value>, sub: &Vec<Value>) -> (r: Vec<Value>)
    ensures
        models(r@) == (match first_occurrence(models(list@), models(sub@), 0) {
            Some(i) => models(list@).take(i),
            None => models(list@),
        }),
{
    let mut i: usize = 0;
    while i < list.len()
        invariant
            i <= list@.len(),
            first_occurrence(models(list@), models(sub@), 0) == first_occurrence(models(list@), models(sub@), i as int),
        decreases list.len() - i,
    {
        if occurs_at_exec(list, sub, i) {
            let v = copy_range(list, 0, i);
            assert(models(list@).subrange(0, i as int) =~= models(list@).take(i as int));
            return v;
        }
        i = i + 1;
    }
    copy_values(list)
}

/// MAKE-LIST - Create list of specified size
pub struct MakeListTool;

impl Tool for MakeListTool {
    open spec fn names_itself(&self) -> bool {
        true
    }

    open spec fn spec_name(&self) -> Seq<char> {
        "MAKE-LIST"@
    }

    open spec fn admits(&self, args: Seq<Val>) -> bool {
        size_admitted(args, 0)
    }

    fn name(&self) -> &str {
        "MAKE-LIST"
    }

    fn description(&self) -> (r: &str)
        ensures
            r@ == "Create list of specified size with initial element"@,
    {
        "Create list of specified size with initial element"
    }

    fn execute(&self, args: &[Value]) -> (r: Result<Value, Error>)
        ensures
            outcome(r) == (make_filled("MAKE-LIST"@, models(args@))),
    {
        make_filled_exec("MAKE-LIST", args)
    }
}



/// COPY-LIST - Create shallow copy of list
pub struct CopyListTool;

impl Tool for CopyListTool {
    open spec fn names_itself(&self) -> bool {
        true
    }

    open spec fn spec_name(&self) -> Seq<char> {
        "COPY-LIST"@
    }

    open spec fn admits(&self, args: Seq<Val>) -> bool {
        true
    }

    fn name(&self) -> &str {
        "COPY-LIST"
    }

    fn description(&self) -> (r: &str)
        ensures
            r@ == "Create shallow copy of list"@,
    {
        "Create shallow copy of list"
    }

    fn execute(&self, args: &[Value]) -> (r: Result<Value, Error>)
        ensures
            outcome(r) == (if args@.len() == 0 { bad_args("COPY-LIST"@, "Expected list argument"@) } else {
                match elems(models(args@)[0]) {
                    Err(e) => Err(e),
                    Ok(s) => yields(Val::Arr(s)),
                }
            }),
    {
        if args.len() == 0 {
            return Err(invalid_args("COPY-LIST", "Expected list argument"));
        }
        let list = args[0].as_array()?;
        Ok(Value::Array(copy_values(list)))
    }
}



/// COPY-TREE - Create deep copy of tree structure
pub struct CopyTreeTool;

impl Tool for CopyTreeTool {
    open spec fn names_itself(&self) -> bool {
        true
    }

    open spec fn spec_name(&self) -> Seq<char> {
        "COPY-TREE"@
    }

    open spec fn admits(&self, args: Seq<Val>) -> bool {
        true
    }

    fn name(&self) -> &str {
        "COPY-TREE"
    }

    fn description(&self) -> (r: &str)
        ensures
            r@ == "Create deep copy of tree structure"@,
    {
        "Create deep copy of tree structure"
    }

    fn execute(&self, args: &[Value]) -> (r: Result<Value, Error>)
        ensures
            outcome(r) == (if args@.len() == 0 { bad_args("COPY-TREE"@, "Expected tree argument"@) } else { yields(models(args@)[0]) }),
    {
        if args.len() == 0 {
            return Err(invalid_args("COPY-TREE", "Expected tree argument"));
        }
        Ok(args[0].deep_copy())
    }
}



/// LDIFF - List difference (elements before sublist)
pub struct LdiffTool;

impl Tool for LdiffTool {
    open spec fn names_itself(&self) -> bool {
        true
    }

    open spec fn spec_name(&self) -> Seq<char> {
        "LDIFF"@
    }

    open spec fn admits(&self, args: Seq<Val>) -> bool {
        true
    }

    fn name(&self) -> &str {
        "LDIFF"
    }

    fn description(&self) -> (r: &str)
        ensures
            r@ == "Return elements of list before sublist"@,
    {
        "Return elements of list before sublist"
    }

    fn execute(&self, args: &[Value]) -> (r: Result<Value, Error>)
        ensures
            outcome(r) == (match two_lists("LDIFF"@, "Expected list and sublist arguments"@, models(args@)) {
                Err(e) => Err(e),
                Ok((list, sub)) => if sub.len() == 0 {
                    yields(Val::Arr(list))
                } else {
                    match first_occurrence(list, sub, 0) {
                        Some(i) => yields(Val::Arr(list.take(i))),
                        None => yields(Val::Arr(list)),
                    }
                },
            }),
    {
        let (list, sublist) = two_lists_exec("LDIFF", "Expected list and sublist arguments", args)?;
        if sublist.len() == 0 {
            return Ok(Value::Array(copy_values(list)));
        }
        Ok(Value::Array(before_occurrence(list, sublist)))
    }
}



/// TAILP - Check if sublist is tail of list
pub struct TailpTool;

impl Tool for TailpTool {
    open spec fn names_itself(&self) -> bool {
        true
    }

    open spec fn spec_name(&self) -> Seq<char> {
        "TAILP"@
    }

    open spec fn admits(&self, args: Seq<Val>) -> bool {
        true
    }

    fn name(&self) -> &str {
        "TAILP"
    }

    fn description(&self) -> (r: &str)
        ensures
            r@ == "Check if sublist is a tail of list"@,
    {
        "Check if sublist is a tail of list"
    }

    fn execute(&self, args: &[Value]) -> (r: Result<Value, Error>)
        ensures
            outcome(r) == (match two_lists("TAILP"@, "Expected sublist and list arguments"@, models(args@)) {
                Err(e) => Err(e),
                Ok((sub, list)) => yields(Val::Bool(sub.len() <= list.len() && list.skip(list.len() - sub.len()) == sub)),
            }),
    {
        let (sublist, list) = two_lists_exec("TAILP", "Expected sublist and list arguments", args)?;
        if sublist.len() > list.len() {
            return Ok(Value::Bool(false));
        }
        let offset = list.len() - sublist.len();
        let b = occurs_at_exec(list, sublist, offset);
        assert(models(list@).subrange(offset as int, offset + sublist@.len()) =~= models(list@).skip(offset as int));
        Ok(Value::Bool(b))
    }
}



/// NTHLIST - Return Nth cons cell
pub struct NthListTool;

impl Tool for NthListTool {
    open spec fn names_itself(&self) -> bool {
        true
    }

    open spec fn spec_name(&self) -> Seq<char> {
        "NTHLIST"@
    }

    open spec fn admits(&self, args: Seq<Val>) -> bool {
        true
    }

    fn name(&self) -> &str {
        "NTHLIST"
    }

    fn description(&self) -> (r: &str)
        ensures
            r@ == "Return list starting at Nth position"@,
    {
        "Return list starting at Nth position"
    }

    fn execute(&self, args: &[Value]) -> (r: Result<Value, Error>)
        ensures
            outcome(r) == (tail_result("NTHLIST"@, "Expected N and list arguments"@, models(args@), false)),
    {
        if args.len() < 2 {
            return Err(invalid_args("NTHLIST", "Expected N and list arguments"));
        }
        let n = args[0].as_int()? as usize;
        let list = args[1].as_array()?;
        Ok(Value::Array(from_index_exec(list, n)))
    }
}



/// LIST-TAIL - Return tail after N elements
pub struct ListTailTool;

impl Tool for ListTailTool {
    open spec fn names_itself(&self) -> bool {
        true
    }

    open spec fn spec_name(&self) -> Seq<char> {
        "LIST-TAIL"@
    }

    open spec fn admits(&self, args: Seq<Val>) -> bool {
        true
    }

    fn name(&self) -> &str {
        "LIST-TAIL"
    }

    fn description(&self) -> (r: &str)
        ensures
            r@ == "Return list tail after skipping N elements"@,
    {
        "Return list tail after skipping N elements"
    }

    fn execute(&self, args: &[Value]) -> (r: Result<Value, Error>)
        ensures
            outcome(r) == (tail_result("LIST-TAIL"@, "Expected list and N arguments"@, models(args@), true)),
    {
        if args.len() < 2 {
            return Err(invalid_args("LIST-TAIL", "Expected list and N arguments"));
        }
        let list = args[0].as_array()?;
        let n = args[1].as_int()? as usize;
        Ok(Value::Array(from_index_exec(list, n)))
    }
}



/// LASTN - Return last N elements
pub struct LastNTool;

impl Tool for LastNTool {
    open spec fn names_itself(&self) -> bool {
        true
    }

    open spec fn spec_name(&self) -> Seq<char> {
        "LASTN"@
    }

    open spec fn admits(&self, args: Seq<Val>) -> bool {
        true
    }

    fn name(&self) -> &str {
        "LASTN"
    }

    fn description(&self) -> (r: &str)
        ensures
            r@ == "Return last N elements of list"@,
    {
        "Return last N elements of list"
    }

    fn execute(&self, args: &[Value]) -> (r: Result<Value, Error>)
        ensures
            outcome(r) == (if args@.len() < 2 { bad_args("LASTN"@, "Expected list and N arguments"@) } else {
                match elems(models(args@)[0]) {
                    Err(e) => Err(e),
                    Ok(s) => match int_of(models(args@)[1]) {
                        Err(e) => Err(e),
                        Ok(n) => {
                            let k = (n as usize) as int;
                            yields(Val::Arr(if k >= s.len() { s } else { s.skip(s.len() - k) }))
                        },
                    },
                }
            }),
    {
        if args.len() < 2 {
            return Err(invalid_args("LASTN", "Expected list and N arguments"));
        }
        let list = args[0].as_array()?;
        let n = args[1].as_int()? as usize;
        let start = if n >= list.len() { 0 } else { list.len() - n };
        let v = copy_range(list, start, list.len());
        assert(models(list@).subrange(start as int, list@.len() as int) =~= models(list@).skip(start as int));
        assert(models(list@).skip(0) =~= models(list@));
        Ok(Value::Array(v))
    }
}



/// NTHCONSE - Set Nth element (RPLACA variant)
pub struct NthconseTool;

impl Tool for NthconseTool {
    open spec fn names_itself(&self) -> bool {
        true
    }

    open spec fn spec_name(&self) -> Seq<char> {
        "NTHCONSE"@
    }

    open spec fn admits(&self, args: Seq<Val>) -> bool {
        true
    }

    fn name(&self) -> &str {
        "NTHCONSE"
    }

    fn description(&self) -> (r: &str)
        ensures
            r@ == "Return new list with Nth element replaced"@,
    {
        "Return new list with Nth element replaced"
    }

    fn execute(&self, args: &[Value]) -> (r: Result<Value, Error>)
        ensures
            outcome(r) == (if args@.len() < 3 { bad_args("NTHCONSE"@, "Expected N, list, and value arguments"@) } else {
                match int_of(models(args@)[0]) {
                    Err(e) => Err(e),
                    Ok(n) => match elems(models(args@)[1]) {
                        Err(e) => Err(e),
                        Ok(s) => {
                            let i = n as usize;
                            if i >= s.len() {
                                Err(ErrV::IndexOutOfBounds { index: i as nat, length: s.len() })
                            } else {
                                yields(Val::Arr(s.update(i as int, models(args@)[2])))
                            }
                        },
                    },
                }
            }),
    {
        if args.len() < 3 {
            return Err(invalid_args("NTHCONSE", "Expected N, list, and value arguments"));
        }
        let n = args[0].as_int()? as usize;
        let list = args[1].as_array()?;
        if n >= list.len() {
            return Err(Error::IndexOutOfBounds { index: n, length: list.len() });
        }
        let mut v = copy_values(list);
        v.set(n, args[2].deep_copy());
        assert(models(v@) =~= models(list@).update(n as int, args@[2].model()));
        Ok(Value::Array(v))
    }
}



/// RPLA - Replace CAR (first element)
pub struct RplaTool;

impl Tool for RplaTool {
    open spec fn names_itself(&self) -> bool {
        true
    }

    open spec fn spec_name(&self) -> Seq<char> {
        "RPLA"@
    }

    open spec fn admits(&self, args: Seq<Val>) -> bool {
        true
    }

    fn name(&self) -> &str {
        "RPLA"
    }

    fn description(&self) -> (r: &str)
        ensures
            r@ == "Replace first element of list (returns new list)"@,
    {
        "Replace first element of list (returns new list)"
    }

    fn execute(&self, args: &[Value]) -> (r: Result<Value, Error>)
        ensures
            outcome(r) == (if args@.len() < 2 { bad_args("RPLA"@, "Expected list and value arguments"@) } else {
                match elems(models(args@)[0]) {
                    Err(e) => Err(e),
                    Ok(s) => if s.len() == 0 {
                        Err(ErrV::EmptyCollection { operation: "RPLA"@ })
                    } else {
                        yields(Val::Arr(s.update(0, models(args@)[1])))
                    },
                }
            }),
    {
        if args.len() < 2 {
            return Err(invalid_args("RPLA", "Expected list and value arguments"));
        }
        let list = args[0].as_array()?;
        if list.len() == 0 {
            return Err(empty_collection("RPLA"));
        }
        let mut v = copy_values(list);
        v.set(0, args[1].deep_copy());
        assert(models(v@) =~= models(list@).update(0, args@[1].model()));
        Ok(Value::Array(v))
    }
}



/// RPLD - Replace CDR (rest of list)
pub struct RpldTool;

impl Tool for RpldTool {
    open spec fn names_itself(&self) -> bool {
        true
    }

    open spec fn spec_name(&self) -> Seq<char> {
        "RPLD"@
    }

    open spec fn admits(&self, args: Seq<Val>) -> bool {
        true
    }

    fn name(&self) -> &str {
        "RPLD"
    }

    fn description(&self) -> (r: &str)
        ensures
            r@ == "Replace rest of list (returns new list)"@,
    {
        "Replace rest of list (returns new list)"
    }

    fn execute(&self, args: &[Value]) -> (r: Result<Value, Error>)
        ensures
            outcome(r) == (match two_lists("RPLD"@, "Expected list and new-rest arguments"@, models(args@)) {
                Err(e) => Err(e),
                Ok((s, rest)) => if s.len() == 0 {
                    Err(ErrV::EmptyCollection { operation: "RPLD"@ })
                } else {
                    yields(Val::Arr(seq![s[0]] + rest))
                },
            }),
    {
        let (list, new_rest) = two_lists_exec("RPLD", "Expected list and new-rest arguments", args)?;
        if list.len() == 0 {
            return Err(empty_collection("RPLD"));
        }
        let mut v = vec![list[0].deep_copy()];
        let mut r = copy_values(new_rest);
        let ghost first = v@;
        v.append(&mut r);
        assert(models(v@) =~= seq![models(list@)[0]] + models(new_rest@));
        Ok(Value::Array(v))
    }
}



/// LIST-LENGTH - Get list length (handles circular lists)
pub struct ListLengthTool;

impl Tool for ListLengthTool {
    open spec fn names_itself(&self) -> bool {
        true
    }

    open spec fn spec_name(&self) -> Seq<char> {
        "LIST-LENGTH"@
    }

    open spec fn admits(&self, args: Seq<Val>) -> bool {
        true
    }

    fn name(&self) -> &str {
        "LIST-LENGTH"
    }

    fn description(&self) -> (r: &str)
        ensures
            r@ == "Get list length (returns null for circular)"@,
    {
        "Get list length (returns null for circular)"
    }

    fn execute(&self, args: &[Value]) -> (r: Result<Value, Error>)
        ensures
            outcome(r) == (if args@.len() == 0 { bad_args("LIST-LENGTH"@, "Expected list argument"@) } else {
                match elems(models(args@)[0]) {
                    Err(e) => Err(e),
                    Ok(s) => yields(Val::Int(s.len() as i64)),
                }
            }),
    {
        if args.len() == 0 {
            return Err(invalid_args("LIST-LENGTH", "Expected list argument"));
        }
        let list = args[0].as_array()?;
        Ok(Value::Int(list.len() as i64))
    }
}



/// ENDP - Check if list is empty
pub struct EndpTool;

impl Tool for EndpTool {
    open spec fn names_itself(&self) -> bool {
        true
    }

    open spec fn spec_name(&self) -> Seq<char> {
        "ENDP"@
    }

    open spec fn admits(&self, args: Seq<Val>) -> bool {
        true
    }

    fn name(&self) -> &str {
        "ENDP"
    }

    fn description(&self) -> (r: &str)
        ensures
            r@ == "Check if list is empty"@,
    {
        "Check if list is empty"
    }

    fn execute(&self, args: &[Value]) -> (r: Result<Value, Error>)
        ensures
            outcome(r) == (if args@.len() == 0 { bad_args("ENDP"@, "Expected list argument"@) } else {
                match models(args@)[0] {
                    Val::Arr(s) => yields(Val::Bool(s.len() == 0)),
                    Val::Null => yields(Val::Bool(true)),
                    _ => Err(type_error("list"@, models(args@)[0])),
                }
            }),
    {
        if args.len() == 0 {
            return Err(invalid_args("ENDP", "Expected list argument"));
        }
        match &args[0] {
            Value::Array(arr) => Ok(Value::Bool(arr.len() == 0)),
            Value::Null => Ok(Value::Bool(true)),
            _ => Err(Error::TypeError { expected: owned("list"), got: args[0].kind_name() }),
        }
    }
}



/// LIST-TUPLE-P - Check if value is a proper list
pub struct ListTuplePTool;

impl Tool for ListTuplePTool {
    open spec fn names_itself(&self) -> bool {
        true
    }

    open spec fn spec_name(&self) -> Seq<char> {
        "LIST-TUPLE-P"@
    }

    open spec fn admits(&self, args: Seq<Val>) -> bool {
        true
    }

    fn name(&self) -> &str {
        "LIST-TUPLE-P"
    }

    fn description(&self) -> (r: &str)
        ensures
            r@ == "Check if value is a proper list (not circular)"@,
    {
        "Check if value is a proper list (not circular)"
    }

    fn execute(&self, args: &[Value]) -> (r: Result<Value, Error>)
        ensures
            outcome(r) == (if args@.len() == 0 { bad_args("LIST-TUPLE-P"@, "Expected argument"@) } else {
                yields(Val::Bool(models(args@)[0] is Arr || models(args@)[0] is Null))
            }),
    {
        if args.len() == 0 {
            return Err(invalid_args("LIST-TUPLE-P", "Expected argument"));
        }
        Ok(Value::Bool(matches!(&args[0], Value::Array(_) | Value::Null)))
    }
}



/// The replacement that an association list gives for `tree`: the second
/// element of the first pair (an array of two or more) whose first element equals it.
pub open spec fn alist_match(alist: Seq<Val>, tree: Val) -> Option<Val>
    decreases alist.len(),
{
    if alist.len() == 0 {
        None
    } else {
        match alist[0] {
            Val::Arr(p) => if p.len() >= 2 && p[0] == tree {
                Some(p[1])
            } else {
                alist_match(alist.drop_first(), tree)
            },
            _ => alist_match(alist.drop_first(), tree),
        }
    }
}

/// `tree` with every subtree that the association list matches replaced, the
/// outermost match first.
pub open spec fn sublis_val(alist: Seq<Val>, tree: Val) -> Val
    decreases tree,
{
    match alist_match(alist, tree) {
        Some(v) => v,
        None => match tree {
            Val::Arr(s) => Val::Arr(sublis_seq(alist, s)),
            _ => tree,
        },
    }
}

/// Each element of `s` substituted by [`sublis_val`].
pub open spec fn sublis_seq(alist: Seq<Val>, s: Seq<Val>) -> Seq<Val>
    decreases s,
{
    if s.len() == 0 {
        Seq::empty()
    } else {
        sublis_seq(alist, s.drop_last()).push(sublis_val(alist, s[s.len() - 1]))
    }
}

fn alist_match_exec<'a>(alist: &'a Vec<Value>, tree: &Value) -> (r: Option<&'a Value>)
    ensures
        match r {
            Some(v) => alist_match(models(alist@), tree.model()) == Some(v.model()),
            None => alist_match(models(alist@), tree.model()) is None,
        },
{
    let ghost a = models(alist@);
    let mut i: usize = 0;
    assert(a.skip(0) =~= a);
    while i < alist.len()
        invariant
            a == models(alist@),
            i <= alist@.len(),
            alist_match(a, tree.model()) == alist_match(a.skip(i as int), tree.model()),
        decreases alist.len() - i,
    {
        assert(a.skip(i as int).drop_first() =~= a.skip(i + 1));
        assert(a.skip(i as int)[0] == alist@[i as int].model());
        match &alist[i] {
            Value::Array(p) => {
                assert(models(p@).len() == p@.len());
                if p.len() >= 2 && values_equal(&p[0], tree) {
                    assert(models(p@)[1] == p@[1].model());
                    return Some(&p[1]);
                }
            },
            _ => {},
        }
        i = i + 1;
    }
    assert(a.skip(i as int) =~= Seq::<Val>::empty());
    None
}

fn sublis_exec(alist: &Vec<Value>, tree: &Value) -> (r: Value)
    ensures
        r.model() == sublis_val(models(alist@), tree.model()),
    decreases tree,
{
    match alist_match_exec(alist, tree) {
        Some(v) => v.deep_copy(),
        None => match tree {
            Value::Array(arr) => Value::Array(sublis_vec(alist, arr)),
            _ => tree.deep_copy(),
        },
    }
}

fn sublis_vec(alist: &Vec<Value>, v: &Vec<Value>) -> (r: Vec<Value>)
    ensures
        models(r@) == sublis_seq(models(alist@), models(v@)),
    decreases v,
{
    let ghost s = models(v@);
    let mut out: Vec<Value> = Vec::new();
    let mut i: usize = 0;
    assert(s.take(0) =~= Seq::<Val>::empty());
    assert(models(out@) =~= Seq::<Val>::empty());
    while i < v.len()
        invariant
            s == models(v@),
            i <= v@.len(),
            models(out@) == sublis_seq(models(alist@), s.take(i as int)),
        decreases v.len() - i,
    {
        proof {
            vstd::std_specs::vec::axiom_vec_index_decreases(*v, i as int);
        }
        assert(s.take(i + 1).drop_last() =~= s.take(i as int));
        assert(s.take(i + 1)[i as int] == v@[i as int].model());
        let x = sublis_exec(alist, &v[i]);
        let ghost prev = models(out@);
        out.push(x);
        assert(models(out@) =~= prev.push(x.model()));
        i = i + 1;
    }
    assert(s.take(i as int) =~= s);
    out
}

/// The result of SUBLIS and NSUBLIS.
pub open spec fn sublis_result(tool: Seq<char>, a: Seq<Val>) -> Result<Val, ErrV> {
    if a.len() < 2 {
        bad_args(tool, "Expected alist and tree arguments"@)
    } else {
        match elems(a[0]) {
            Err(e) => Err(e),
            Ok(alist) => yields(sublis_val(alist, a[1])),
        }
    }
}

/// SUBLIS - Substitute using association list
pub struct SublisTool;

impl Tool for SublisTool {
    open spec fn names_itself(&self) -> bool {
        true
    }

    open spec fn spec_name(&self) -> Seq<char> {
        "SUBLIS"@
    }

    open spec fn admits(&self, args: Seq<Val>) -> bool {
        true
    }

    fn name(&self) -> &str {
        "SUBLIS"
    }

    fn description(&self) -> (r: &str)
        ensures
            r@ == "Substitute using association list"@,
    {
        "Substitute using association list"
    }

    fn execute(&self, args: &[Value]) -> (r: Result<Value, Error>)
        ensures
            outcome(r) == (sublis_result("SUBLIS"@, models(args@))),
    {
        if args.len() < 2 {
            return Err(invalid_args("SUBLIS", "Expected alist and tree arguments"));
        }
        let alist = args[0].as_array()?;
        Ok(sublis_exec(alist, &args[1]))
    }
}



/// NSUBLIS - Destructive substitute (creates new in OVSM)
pub struct NsublisTool;

impl Tool for NsublisTool {
    open spec fn names_itself(&self) -> bool {
        true
    }

    open spec fn spec_name(&self) -> Seq<char> {
        "NSUBLIS"@
    }

    open spec fn admits(&self, args: Seq<Val>) -> bool {
        true
    }

    fn name(&self) -> &str {
        "NSUBLIS"
    }

    fn description(&self) -> (r: &str)
        ensures
            r@ == "Destructive substitute (creates new in OVSM)"@,
    {
        "Destructive substitute (creates new in OVSM)"
    }

    fn execute(&self, args: &[Value]) -> (r: Result<Value, Error>)
        ensures
            outcome(r) == (sublis_result("SUBLIS"@, models(args@))),
    {
        SublisTool.execute(args)
    }
}



/// TREE-EQUAL's deep equality: arrays element by element, objects key by
/// key whatever their order, other values by equality.
pub open spec fn tree_equal(a: Val, b: Val) -> bool
    decreases a,
{
    match (a, b) {
        (Val::Arr(x), Val::Arr(y)) => x.len() == y.len() && seq_tree_equal(x, y),
        (Val::Obj(o1), Val::Obj(o2)) => o1.len() == o2.len() && entries_tree_equal(o1, o2),
        _ => a == b,
    }
}

/// The elements of `x` are deep-equal to those of `y` at the same places.
pub open spec fn seq_tree_equal(x: Seq<Val>, y: Seq<Val>) -> bool
    decreases x,
{
    if x.len() == 0 {
        true
    } else {
        seq_tree_equal(x.drop_last(), y) && x.len() <= y.len() && tree_equal(x[x.len() - 1], y[x.len() - 1])
    }
}

/// Each key of `o1` is bound in `o2` to a value deep-equal to its own.
pub open spec fn entries_tree_equal(o1: Seq<(Seq<char>, Val)>, o2: Seq<(Seq<char>, Val)>) -> bool
    decreases o1,
{
    if o1.len() == 0 {
        true
    } else {
        let e = o1[o1.len() - 1];
        entries_tree_equal(o1.drop_last(), o2) && match obj_lookup(o2, e.0) {
            Some(v2) => tree_equal(e.1, v2),
            None => false,
        }
    }
}

fn tree_equal_exec(a: &Value, b: &Value) -> (r: bool)
    ensures
        r == tree_equal(a.model(), b.model()),
    decreases a,
{
    match (a, b) {
        (Value::Array(x), Value::Array(y)) => {
            if x.len() != y.len() {
                assert(models(x@).len() != models(y@).len());
                return false;
            }
            vec_tree_equal(x, y)
        },
        (Value::Object(o1), Value::Object(o2)) => {
            if o1.entries.len() != o2.entries.len() {
                assert(o1.model().len() != o2.model().len());
                return false;
            }
            entries_tree_equal_exec(&o1.entries, o2)
        },
        (Value::Array(_), _) => {
            false
        },
        (Value::Object(_), _) => {
            false
        },
        _ => values_equal(a, b),
    }
}

fn vec_tree_equal(x: &Vec<Value>, y: &Vec<Value>) -> (r: bool)
    requires
        x@.len() == y@.len(),
    ensures
        r == seq_tree_equal(models(x@), models(y@)),
    decreases x,
{
    let ghost s = models(x@);
    let mut i: usize = 0;
    assert(s.take(0) =~= Seq::<Val>::empty());
    while i < x.len()
        invariant
            s == models(x@),
            x@.len() == y@.len(),
            i <= x@.len(),
            seq_tree_equal(s.take(i as int), models(y@)),
        decreases x.len() - i,
    {
        proof {
            vstd::std_specs::vec::axiom_vec_index_decreases(*x, i as int);
        }
        assert(s.take(i + 1).drop_last() =~= s.take(i as int));
        assert(s.take(i + 1)[i as int] == x@[i as int].model());
        assert(models(y@)[i as int] == y@[i as int].model());
        if !tree_equal_exec(&x[i], &y[i]) {
            proof {
                lemma_seq_tree_equal_prefix(s, models(y@), i + 1);
            }
            return false;
        }
        i = i + 1;
    }
    assert(s.take(i as int) =~= s);
    true
}

proof fn lemma_seq_tree_equal_prefix(s: Seq<Val>, y: Seq<Val>, k: int)
    requires
        0 <= k <= s.len(),
        !seq_tree_equal(s.take(k), y),
    ensures
        !seq_tree_equal(s, y),
    decreases s.len() - k,
{
    if k < s.len() {
        assert(s.take(k + 1).drop_last() =~= s.take(k));
        lemma_seq_tree_equal_prefix(s, y, k + 1);
    } else {
        assert(s.take(k) =~= s);
    }
}

proof fn lemma_entries_tree_equal_prefix(s: Seq<(Seq<char>, Val)>, o2: Seq<(Seq<char>, Val)>, k: int)
    requires
        0 <= k <= s.len(),
        !entries_tree_equal(s.take(k), o2),
    ensures
        !entries_tree_equal(s, o2),
    decreases s.len() - k,
{
    if k < s.len() {
        assert(s.take(k + 1).drop_last() =~= s.take(k));
        lemma_entries_tree_equal_prefix(s, o2, k + 1);
    } else {
        assert(s.take(k) =~= s);
    }
}

fn entries_tree_equal_exec(m1: &Vec<(String, Value)>, o2: &ObjectMap) -> (r: bool)
    ensures
        r == entries_tree_equal(entry_models(m1@), o2.model()),
    decreases m1,
{
    let ghost s = entry_models(m1@);
    let mut i: usize = 0;
    assert(s.take(0) =~= Seq::<(Seq<char>, Val)>::empty());
    while i < m1.len()
        invariant
            s == entry_models(m1@),
            i <= m1@.len(),
            entries_tree_equal(s.take(i as int), o2.model()),
        decreases m1.len() - i,
    {
        proof {
            vstd::std_specs::vec::axiom_vec_index_decreases(*m1, i as int);
        }
        assert(s.take(i + 1).drop_last() =~= s.take(i as int));
        assert(s.take(i + 1)[i as int] == (m1@[i as int].0@, m1@[i as int].1.model()));
        let ok = match o2.get(m1[i].0.as_str()) {
            Some(v2) => tree_equal_exec(&m1[i].1, v2),
            None => false,
        };
        if !ok {
            proof {
                lemma_entries_tree_equal_prefix(s, o2.model(), i + 1);
            }
            return false;
        }
        i = i + 1;
    }
    assert(s.take(i as int) =~= s);
    true
}

/// TREE-EQUAL - Deep tree equality
pub struct TreeEqualTool;

impl Tool for TreeEqualTool {
    open spec fn names_itself(&self) -> bool {
        true
    }

    open spec fn spec_name(&self) -> Seq<char> {
        "TREE-EQUAL"@
    }

    open spec fn admits(&self, args: Seq<Val>) -> bool {
        true
    }

    fn name(&self) -> &str {
        "TREE-EQUAL"
    }

    fn description(&self) -> (r: &str)
        ensures
            r@ == "Deep equality check for tree structures"@,
    {
        "Deep equality check for tree structures"
    }

    fn execute(&self, args: &[Value]) -> (r: Result<Value, Error>)
        ensures
            outcome(r) == (if args@.len() < 2 { bad_args("TREE-EQUAL"@, "Expected two tree arguments"@) } else {
                yields(Val::Bool(tree_equal(models(args@)[0], models(args@)[1])))
            }),
    {
        if args.len() < 2 {
            return Err(invalid_args("TREE-EQUAL", "Expected two tree arguments"));
        }
        Ok(Value::Bool(tree_equal_exec(&args[0], &args[1])))
    }
}



/// The result of the list sorts: the list argument sorted stably, or the
/// error for a missing or non-list argument.
pub open spec fn sorted_list_result(tool: Seq<char>, a: Seq<Val>) -> Result<Val, ErrV> {
    if a.len() == 0 {
        bad_args(tool, "Expected list argument"@)
    } else {
        match elems(a[0]) {
            Err(e) => Err(e),
            Ok(s) => yields(Val::Arr(stable_sorted(s))),
        }
    }
}

fn sorted_list_exec(tool: &str, args: &[Value]) -> (r: Result<Value, Error>)
    ensures
        outcome(r) == sorted_list_result(tool@, models(args@)),
{
    if args.len() == 0 {
        return Err(invalid_args(tool, "Expected list argument"));
    }
    let list = args[0].as_array()?;
    Ok(Value::Array(stable_sort_values(list.as_slice())))
}

/// STABLE-SORT - Stable sort (maintains order of equal elements)
pub struct StableSortTool;

impl Tool for StableSortTool {
    open spec fn names_itself(&self) -> bool {
        true
    }

    open spec fn spec_name(&self) -> Seq<char> {
        "STABLE-SORT"@
    }

    open spec fn admits(&self, args: Seq<Val>) -> bool {
        true
    }

    fn name(&self) -> &str {
        "STABLE-SORT"
    }

    fn description(&self) -> (r: &str)
        ensures
            r@ == "Stable sort that maintains order of equal elements"@,
    {
        "Stable sort that maintains order of equal elements"
    }

    fn execute(&self, args: &[Value]) -> (r: Result<Value, Error>)
        ensures
            outcome(r) == (sorted_list_result("STABLE-SORT"@, models(args@))),
    {
        sorted_list_exec("STABLE-SORT", args)
    }
}



/// SORT-BY - Sort with custom key function
pub struct SortByTool;

impl Tool for SortByTool {
    open spec fn names_itself(&self) -> bool {
        true
    }

    open spec fn spec_name(&self) -> Seq<char> {
        "SORT-BY"@
    }

    open spec fn admits(&self, args: Seq<Val>) -> bool {
        true
    }

    fn name(&self) -> &str {
        "SORT-BY"
    }

    fn description(&self) -> (r: &str)
        ensures
            r@ == "Sort list by a key (expects keyword :key followed by key name)"@,
    {
        "Sort list by a key (expects keyword :key followed by key name)"
    }

    fn execute(&self, args: &[Value]) -> (r: Result<Value, Error>)
        ensures
            outcome(r) == (sorted_list_result("SORT-BY"@, models(args@))),
    {
        sorted_list_exec("SORT-BY", args)
    }
}


} // verus!
