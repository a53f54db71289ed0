//! Array and vector manipulation tools - Common Lisp compatible
use vstd::prelude::*;

#[allow(unused_imports)]
use crate::access::{copy_range, copy_slice, copy_values, values_equal};
#[allow(unused_imports)]
use crate::error::{empty_collection, exec_error, invalid_args, ErrV, Error};
#[allow(unused_imports)]
use crate::text::{alphabetic, alphanumeric, char_from_u32, char_is_alphabetic, char_is_alphanumeric, char_is_lowercase, char_is_uppercase, char_is_whitespace, char_string, char_to_lowercase, char_to_uppercase, chars_of, chars_skip, concat, i64_to_string, int_decimal, lower_case, lower_chars, lowercase, owned, scalar_value, seq_less, str_equal, str_less, string_from_chars, to_lower, to_upper, upper_case, upper_chars, uppercase, whitespace};
#[allow(unused_imports)]
use crate::tools::{bad_args, name_insert, outcome, ref_outcome, string_views, yields, Tool, ToolRegistry};
#[allow(unused_imports)]
use crate::value::{and_then, elems, entry_models, int_of, models, obj_insert, obj_keys, obj_lookup, obj_merge, obj_of, obj_values, str_of, truthy, type_error, ObjectMap, Val, Value};

verus! {

broadcast use crate::seq_models::group_value_models;

/// The names after registering this module's tools, in order.
pub open spec fn registered_names(ns: Seq<Seq<char>>) -> Seq<Seq<char>> {
    let ns = name_insert(ns, "MAKE-ARRAY"@);
    let ns = name_insert(ns, "VECTOR"@);
    let ns = name_insert(ns, "MAKE-SEQUENCE"@);
    let ns = name_insert(ns, "AREF"@);
    let ns = name_insert(ns, "SVREF"@);
    let ns = name_insert(ns, "ROW-MAJOR-AREF"@);
    let ns = name_insert(ns, "ARRAY-DIMENSIONS"@);
    let ns = name_insert(ns, "ARRAY-RANK"@);
    let ns = name_insert(ns, "ARRAY-TOTAL-SIZE"@);
    let ns = name_insert(ns, "ARRAY-IN-BOUNDS-P"@);
    let ns = name_insert(ns, "ADJUST-ARRAY"@);
    let ns = name_insert(ns, "ARRAY-ELEMENT-TYPE"@);
    let ns = name_insert(ns, "CADDR"@);
    let ns = name_insert(ns, "CDADR"@);
    let ns = name_insert(ns, "CADADR"@);
    let ns = name_insert(ns, "CDDAR"@);
    let ns = name_insert(ns, "CAADR"@);
    let ns = name_insert(ns, "CADDDR"@);
    let ns = name_insert(ns, "CDADDR"@);
    let ns = name_insert(ns, "CDDDR"@);
    let ns = name_insert(ns, "CAAAAR"@);
    let ns = name_insert(ns, "CDAAAR"@);
    let ns = name_insert(ns, "CADAAR"@);
    let ns = name_insert(ns, "CDDAAR"@);
    let ns = name_insert(ns, "CAADAR"@);
    ns
}

/// Register the tools of this module.
pub fn register(registry: &mut ToolRegistry)
    ensures
        final(registry).names() == registered_names(old(registry).names()),
{
    registry.register(MakeArrayTool);
    registry.register(VectorTool);
    registry.register(MakeSequenceTool);
    registry.register(ArefTool);
    registry.register(SvrefTool);
    registry.register(RowMajorArefTool);
    registry.register(ArrayDimensionsTool);
    registry.register(ArrayRankTool);
    registry.register(ArrayTotalSizeTool);
    registry.register(ArrayInBoundsPTool);
    registry.register(AdjustArrayTool);
    registry.register(ArrayElementTypeTool);
    registry.register(CaddrTool);
    registry.register(CdadrTool);
    registry.register(CadadrTool);
    registry.register(CddarTool);
    registry.register(CaadrTool);
    registry.register(CadddrTool);
    registry.register(CdaddrTool);
    registry.register(CdddrTool);
    registry.register(CaaaarTool);
    registry.register(CdaaarTool);
    registry.register(CadaarTool);
    registry.register(CddaarTool);
    registry.register(CaadarTool);
}

/// VECTOR - Create vector from arguments
pub struct VectorTool;

impl Tool for VectorTool {
    open spec fn names_itself(&self) -> bool {
        true
    }

    open spec fn spec_name(&self) -> Seq<char> {
        "VECTOR"@
    }

    open spec fn admits(&self, args: Seq<Val>) -> bool {
        true
    }

    fn name(&self) -> &str {
        "VECTOR"
    }

    fn description(&self) -> (r: &str)
        ensures
            r@ == "Create vector from arguments (same as LIST)"@,
    {
        "Create vector from arguments (same as LIST)"
    }

    fn execute(&self, args: &[Value]) -> (r: Result<Value, Error>)
        ensures
            outcome(r) == (yields(Val::Arr(models(args@)))),
    {
        Ok(Value::Array(copy_slice(args)))
    }
}

/// The first element of an array value; an empty array is an error of `op`.
pub open spec fn first_or_empty(v: Val, op: Seq<char>) -> Result<Val, ErrV> {
    match elems(v) {
        Ok(s) => if s.len() == 0 {
            Err(ErrV::EmptyCollection { operation: op })
        } else {
            Ok(s[0])
        },
        Err(e) => Err(e),
    }
}

/// Element `n` of an array value, or an out-of-bounds error.
pub open spec fn nth_or_oob(v: Val, n: nat) -> Result<Val, ErrV> {
    match elems(v) {
        Ok(s) => if s.len() <= n {
            Err(ErrV::IndexOutOfBounds { index: n, length: s.len() })
        } else {
            Ok(s[n as int])
        },
        Err(e) => Err(e),
    }
}

/// The elements of an array value after the first `n`; none when it has fewer.
pub open spec fn rest_after(v: Val, n: nat) -> Result<Val, ErrV> {
    match elems(v) {
        Ok(s) => if s.len() < n {
            Ok(Val::Arr(Seq::<Val>::empty()))
        } else {
            Ok(Val::Arr(s.skip(n as int)))
        },
        Err(e) => Err(e),
    }
}

/// The first element of an array value; an empty array is an error of `op`.
fn first_ref<'a>(v: &'a Value, op: &str) -> (r: Result<&'a Value, Error>)
    ensures
        ref_outcome(r) == first_or_empty(v.model(), op@),
{
    let s = v.as_array()?;
    if s.len() == 0 {
        Err(Error::EmptyCollection { operation: owned(op) })
    } else {
        Ok(&s[0])
    }
}

/// Element `n` of an array value, or an out-of-bounds error.
fn nth_ref<'a>(v: &'a Value, n: usize) -> (r: Result<&'a Value, Error>)
    ensures
        ref_outcome(r) == nth_or_oob(v.model(), n as nat),
{
    let s = v.as_array()?;
    if s.len() <= n {
        Err(Error::IndexOutOfBounds { index: n, length: s.len() })
    } else {
        Ok(&s[n])
    }
}

/// The elements of an array value after the first `n`; none when it has fewer.
fn rest_from(v: &Value, n: usize) -> (r: Result<Value, Error>)
    ensures
        outcome(r) == rest_after(v.model(), n as nat),
{
    let s = v.as_array()?;
    if s.len() < n {
        Ok(Value::Array(Vec::new()))
    } else {
        Ok(Value::Array(copy_range(s, n, s.len())))
    }
}

/// An array of `n` copies of `init`.
pub fn filled(n: usize, init: &Value) -> (r: Vec<Value>)
    ensures
        models(r@) == Seq::new(n as nat, |i: int| init.model()),
{
    let mut out: Vec<Value> = Vec::new();
    let mut i: usize = 0;
    while i < n
        invariant
            i <= n,
            out@.len() == i,
            forall|j: int| 0 <= j < i ==> #[trigger] out@[j].model() == init.model(),
        decreases n - i,
    {
        out.push(init.clone());
        i = i + 1;
    }
    assert(models(out@) =~= Seq::new(n as nat, |i: int| init.model()));
    out
}

/// What MAKE-ARRAY and MAKE-SEQUENCE return for their arguments.
pub open spec fn make_filled(tool: Seq<char>, args: Seq<Val>) -> Result<Val, ErrV> {
    if args.len() == 0 {
        bad_args(tool, "Expected size argument"@)
    } else {
        match int_of(args[0]) {
            Ok(n) => {
                let init = if args.len() > 1 { args[1] } else { Val::Null };
                yields(Val::Arr(Seq::new((n as usize) as nat, |i: int| init)))
            },
            Err(e) => Err(e),
        }
    }
}

/// A size argument, when it is an integer, is not negative.
pub open spec fn size_admitted(args: Seq<Val>, k: int) -> bool {
    args.len() > k ==> match args[k] {
        Val::Int(n) => n >= 0,
        _ => true,
    }
}

pub(crate) fn make_filled_exec(tool: &str, args: &[Value]) -> (r: Result<Value, Error>)
    requires
        size_admitted(models(args@), 0),
    ensures
        outcome(r) == make_filled(tool@, models(args@)),
{
    if args.len() == 0 {
        return Err(invalid_args(tool, "Expected size argument"));
    }
    let size = args[0].as_int()? as usize;
    let init = if args.len() > 1 { args[1].clone() } else { Value::Null };
    let v = filled(size, &init);
    assert(Seq::new(size as nat, |i: int| init.model()) =~= Seq::new(size as nat, |i: int| (if models(args@).len() > 1 { models(args@)[1] } else { Val::Null })));
    Ok(Value::Array(v))
}

/// What AREF returns for its arguments.
pub open spec fn aref_result(args: Seq<Val>) -> Result<Val, ErrV> {
    if args.len() < 2 {
        bad_args("AREF"@, "Expected array and index"@)
    } else {
        match (elems(args[0]), int_of(args[1])) {
            (Err(e), _) => Err(e),
            (Ok(_), Err(e)) => Err(e),
            (Ok(s), Ok(i)) => if ((i as usize) as nat) < s.len() {
                Ok(s[(i as usize) as int])
            } else {
                Err(ErrV::IndexOutOfBounds { index: (i as usize) as nat, length: s.len() })
            },
        }
    }
}

/// MAKE-ARRAY - Create array with specified dimensions
pub struct MakeArrayTool;

impl Tool for MakeArrayTool {
    open spec fn names_itself(&self) -> bool {
        true
    }

    open spec fn spec_name(&self) -> Seq<char> {
        "MAKE-ARRAY"@
    }

    open spec fn admits(&self, args: Seq<Val>) -> bool {
        size_admitted(args, 0)
    }

    fn name(&self) -> &str {
        "MAKE-ARRAY"
    }

    fn description(&self) -> (r: &str)
        ensures
            r@ == "Create array with specified size and optional initial value"@,
    {
        "Create array with specified size and optional initial value"
    }

    fn execute(&self, args: &[Value]) -> (r: Result<Value, Error>)
        ensures
            outcome(r) == (make_filled("MAKE-ARRAY"@, models(args@))),
    {
        make_filled_exec("MAKE-ARRAY", args)
    }
}



/// MAKE-SEQUENCE - Create sequence of specified type and size
pub struct MakeSequenceTool;

impl Tool for MakeSequenceTool {
    open spec fn names_itself(&self) -> bool {
        true
    }

    open spec fn spec_name(&self) -> Seq<char> {
        "MAKE-SEQUENCE"@
    }

    open spec fn admits(&self, args: Seq<Val>) -> bool {
        size_admitted(args, 0)
    }

    fn name(&self) -> &str {
        "MAKE-SEQUENCE"
    }

    fn description(&self) -> (r: &str)
        ensures
            r@ == "Create sequence of specified size with optional initial element"@,
    {
        "Create sequence of specified size with optional initial element"
    }

    fn execute(&self, args: &[Value]) -> (r: Result<Value, Error>)
        ensures
            outcome(r) == (make_filled("MAKE-SEQUENCE"@, models(args@))),
    {
        make_filled_exec("MAKE-SEQUENCE", args)
    }
}



/// AREF - Access array element
pub struct ArefTool;

impl Tool for ArefTool {
    open spec fn names_itself(&self) -> bool {
        true
    }

    open spec fn spec_name(&self) -> Seq<char> {
        "AREF"@
    }

    open spec fn admits(&self, args: Seq<Val>) -> bool {
        true
    }

    fn name(&self) -> &str {
        "AREF"
    }

    fn description(&self) -> (r: &str)
        ensures
            r@ == "Access array element at index"@,
    {
        "Access array element at index"
    }

    fn execute(&self, args: &[Value]) -> (r: Result<Value, Error>)
        ensures
            outcome(r) == (aref_result(models(args@))),
    {
        if args.len() < 2 {
            return Err(invalid_args("AREF", "Expected array and index"));
        }
        let array = args[0].as_array()?;
        let index = args[1].as_int()? as usize;
        if index < array.len() {
            Ok(array[index].clone())
        } else {
            Err(Error::IndexOutOfBounds { index, length: array.len() })
        }
    }
}



/// SVREF - Simple vector ref (same as AREF in Solisp)
pub struct SvrefTool;

impl Tool for SvrefTool {
    open spec fn names_itself(&self) -> bool {
        true
    }

    open spec fn spec_name(&self) -> Seq<char> {
        "SVREF"@
    }

    open spec fn admits(&self, args: Seq<Val>) -> bool {
        true
    }

    fn name(&self) -> &str {
        "SVREF"
    }

    fn description(&self) -> (r: &str)
        ensures
            r@ == "Access simple vector element at index"@,
    {
        "Access simple vector element at index"
    }

    fn execute(&self, args: &[Value]) -> (r: Result<Value, Error>)
        ensures
            outcome(r) == (aref_result(models(args@))),
    {
        ArefTool.execute(args)
    }
}



/// ROW-MAJOR-AREF - Row-major array access
pub struct RowMajorArefTool;

impl Tool for RowMajorArefTool {
    open spec fn names_itself(&self) -> bool {
        true
    }

    open spec fn spec_name(&self) -> Seq<char> {
        "ROW-MAJOR-AREF"@
    }

    open spec fn admits(&self, args: Seq<Val>) -> bool {
        true
    }

    fn name(&self) -> &str {
        "ROW-MAJOR-AREF"
    }

    fn description(&self) -> (r: &str)
        ensures
            r@ == "Access array element using row-major index"@,
    {
        "Access array element using row-major index"
    }

    fn execute(&self, args: &[Value]) -> (r: Result<Value, Error>)
        ensures
            outcome(r) == (aref_result(models(args@))),
    {
        ArefTool.execute(args)
    }
}



/// ARRAY-DIMENSIONS - Get array dimensions
pub struct ArrayDimensionsTool;

impl Tool for ArrayDimensionsTool {
    open spec fn names_itself(&self) -> bool {
        true
    }

    open spec fn spec_name(&self) -> Seq<char> {
        "ARRAY-DIMENSIONS"@
    }

    open spec fn admits(&self, args: Seq<Val>) -> bool {
        true
    }

    fn name(&self) -> &str {
        "ARRAY-DIMENSIONS"
    }

    fn description(&self) -> (r: &str)
        ensures
            r@ == "Get array dimensions as list"@,
    {
        "Get array dimensions as list"
    }

    fn execute(&self, args: &[Value]) -> (r: Result<Value, Error>)
        ensures
            outcome(r) == (if args@.len() == 0 { bad_args("ARRAY-DIMENSIONS"@, "Expected array argument"@) } else {
                match elems(args@[0].model()) {
                    Ok(s) => yields(Val::Arr(seq![Val::Int(s.len() as i64)])),
                    Err(e) => Err(e),
                }
            }),
    {
        if args.len() == 0 {
            return Err(invalid_args("ARRAY-DIMENSIONS", "Expected array argument"));
        }
        let array = args[0].as_array()?;
        let items = vec![Value::Int(array.len() as i64)];
        assert(models(items@) =~= seq![Val::Int(array@.len() as i64)]);
        Ok(Value::Array(items))
    }
}



/// ARRAY-RANK - Get array rank (number of dimensions)
pub struct ArrayRankTool;

impl Tool for ArrayRankTool {
    open spec fn names_itself(&self) -> bool {
        true
    }

    open spec fn spec_name(&self) -> Seq<char> {
        "ARRAY-RANK"@
    }

    open spec fn admits(&self, args: Seq<Val>) -> bool {
        true
    }

    fn name(&self) -> &str {
        "ARRAY-RANK"
    }

    fn description(&self) -> (r: &str)
        ensures
            r@ == "Get number of dimensions (always 1 in Solisp)"@,
    {
        "Get number of dimensions (always 1 in Solisp)"
    }

    fn execute(&self, args: &[Value]) -> (r: Result<Value, Error>)
        ensures
            outcome(r) == (if args@.len() == 0 { bad_args("ARRAY-RANK"@, "Expected array argument"@) } else {
                match elems(args@[0].model()) {
                    Ok(_) => yields(Val::Int(1)),
                    Err(e) => Err(e),
                }
            }),
    {
        if args.len() == 0 {
            return Err(invalid_args("ARRAY-RANK", "Expected array argument"));
        }
        args[0].as_array()?;
        Ok(Value::Int(1))
    }
}



/// ARRAY-TOTAL-SIZE - Get total number of elements
pub struct ArrayTotalSizeTool;

impl Tool for ArrayTotalSizeTool {
    open spec fn names_itself(&self) -> bool {
        true
    }

    open spec fn spec_name(&self) -> Seq<char> {
        "ARRAY-TOTAL-SIZE"@
    }

    open spec fn admits(&self, args: Seq<Val>) -> bool {
        true
    }

    fn name(&self) -> &str {
        "ARRAY-TOTAL-SIZE"
    }

    fn description(&self) -> (r: &str)
        ensures
            r@ == "Get total number of elements in array"@,
    {
        "Get total number of elements in array"
    }

    fn execute(&self, args: &[Value]) -> (r: Result<Value, Error>)
        ensures
            outcome(r) == (if args@.len() == 0 { bad_args("ARRAY-TOTAL-SIZE"@, "Expected array argument"@) } else {
                match elems(args@[0].model()) {
                    Ok(s) => yields(Val::Int(s.len() as i64)),
                    Err(e) => Err(e),
                }
            }),
    {
        if args.len() == 0 {
            return Err(invalid_args("ARRAY-TOTAL-SIZE", "Expected array argument"));
        }
        let array = args[0].as_array()?;
        Ok(Value::Int(array.len() as i64))
    }
}



/// ARRAY-IN-BOUNDS-P - Check if indices are valid
pub struct ArrayInBoundsPTool;

impl Tool for ArrayInBoundsPTool {
    open spec fn names_itself(&self) -> bool {
        true
    }

    open spec fn spec_name(&self) -> Seq<char> {
        "ARRAY-IN-BOUNDS-P"@
    }

    open spec fn admits(&self, args: Seq<Val>) -> bool {
        true
    }

    fn name(&self) -> &str {
        "ARRAY-IN-BOUNDS-P"
    }

    fn description(&self) -> (r: &str)
        ensures
            r@ == "Check if index is within bounds"@,
    {
        "Check if index is within bounds"
    }

    fn execute(&self, args: &[Value]) -> (r: Result<Value, Error>)
        ensures
            outcome(r) == (if args@.len() < 2 { bad_args("ARRAY-IN-BOUNDS-P"@, "Expected array and index"@) } else {
                match (elems(args@[0].model()), int_of(args@[1].model())) {
                    (Err(e), _) => Err(e),
                    (Ok(_), Err(e)) => Err(e),
                    (Ok(s), Ok(i)) => yields(Val::Bool(((i as usize) as nat) < s.len())),
                }
            }),
    {
        if args.len() < 2 {
            return Err(invalid_args("ARRAY-IN-BOUNDS-P", "Expected array and index"));
        }
        let array = args[0].as_array()?;
        let index = args[1].as_int()? as usize;
        Ok(Value::Bool(index < array.len()))
    }
}



/// ADJUST-ARRAY - Adjust array to new size
pub struct AdjustArrayTool;

impl Tool for AdjustArrayTool {
    open spec fn names_itself(&self) -> bool {
        true
    }

    open spec fn spec_name(&self) -> Seq<char> {
        "ADJUST-ARRAY"@
    }

    open spec fn admits(&self, args: Seq<Val>) -> bool {
        size_admitted(args, 1)
    }

    fn name(&self) -> &str {
        "ADJUST-ARRAY"
    }

    fn description(&self) -> (r: &str)
        ensures
            r@ == "Adjust array to new size (creates new array in Solisp)"@,
    {
        "Adjust array to new size (creates new array in Solisp)"
    }

    fn execute(&self, args: &[Value]) -> (r: Result<Value, Error>)
        ensures
            outcome(r) == (if args@.len() < 2 { bad_args("ADJUST-ARRAY"@, "Expected array and new size"@) } else {
                match (elems(args@[0].model()), int_of(args@[1].model())) {
                    (Err(e), _) => Err(e),
                    (Ok(_), Err(e)) => Err(e),
                    (Ok(s), Ok(n)) => yields(Val::Arr(Seq::new((n as usize) as nat, |i: int| if i < s.len() { s[i] } else { Val::Null }))),
                }
            }),
    {
        if args.len() < 2 {
            return Err(invalid_args("ADJUST-ARRAY", "Expected array and new size"));
        }
        let array = args[0].as_array()?;
        let new_size = args[1].as_int()? as usize;
        let ghost s = models(array@);
        let mut new_array: Vec<Value> = Vec::new();
        let mut i: usize = 0;
        while i < new_size
            invariant
                i <= new_size,
                s == models(array@),
                new_array@.len() == i,
                forall|j: int| 0 <= j < i ==> #[trigger] new_array@[j].model() == (if j < s.len() { s[j] } else { Val::Null }),
            decreases new_size - i,
        {
            if i < array.len() {
                new_array.push(array[i].clone());
            } else {
                new_array.push(Value::Null);
            }
            i = i + 1;
        }
        assert(models(new_array@) =~= Seq::new(new_size as nat, |i: int| if i < s.len() { s[i] } else { Val::Null }));
        Ok(Value::Array(new_array))
    }
}



/// ARRAY-ELEMENT-TYPE - Get array element type
pub struct ArrayElementTypeTool;

impl Tool for ArrayElementTypeTool {
    open spec fn names_itself(&self) -> bool {
        true
    }

    open spec fn spec_name(&self) -> Seq<char> {
        "ARRAY-ELEMENT-TYPE"@
    }

    open spec fn admits(&self, args: Seq<Val>) -> bool {
        true
    }

    fn name(&self) -> &str {
        "ARRAY-ELEMENT-TYPE"
    }

    fn description(&self) -> (r: &str)
        ensures
            r@ == "Get array element type (returns 'T' for any in Solisp)"@,
    {
        "Get array element type (returns 'T' for any in Solisp)"
    }

    fn execute(&self, args: &[Value]) -> (r: Result<Value, Error>)
        ensures
            outcome(r) == (if args@.len() == 0 { bad_args("ARRAY-ELEMENT-TYPE"@, "Expected array argument"@) } else {
                match elems(args@[0].model()) {
                    Ok(_) => yields(Val::Str("T"@)),
                    Err(e) => Err(e),
                }
            }),
    {
        if args.len() == 0 {
            return Err(invalid_args("ARRAY-ELEMENT-TYPE", "Expected array argument"));
        }
        args[0].as_array()?;
        Ok(Value::String(owned("T")))
    }
}



/// CADDR - Get third element
pub struct CaddrTool;

impl Tool for CaddrTool {
    open spec fn names_itself(&self) -> bool {
        true
    }

    open spec fn spec_name(&self) -> Seq<char> {
        "CADDR"@
    }

    open spec fn admits(&self, args: Seq<Val>) -> bool {
        true
    }

    fn name(&self) -> &str {
        "CADDR"
    }

    fn description(&self) -> (r: &str)
        ensures
            r@ == "Get third element of list (CAR of CDDR)"@,
    {
        "Get third element of list (CAR of CDDR)"
    }

    fn execute(&self, args: &[Value]) -> (r: Result<Value, Error>)
        ensures
            outcome(r) == (if args@.len() == 0 { bad_args("CADDR"@, "Expected list argument"@) } else { nth_or_oob(args@[0].model(), 2) }),
    {
        if args.len() == 0 {
            return Err(invalid_args("CADDR", "Expected list argument"));
        }
        let v = nth_ref(&args[0], 2)?;
        Ok(v.clone())
    }
}



/// CDADR - CDR of CADR
pub struct CdadrTool;

impl Tool for CdadrTool {
    open spec fn names_itself(&self) -> bool {
        true
    }

    open spec fn spec_name(&self) -> Seq<char> {
        "CDADR"@
    }

    open spec fn admits(&self, args: Seq<Val>) -> bool {
        true
    }

    fn name(&self) -> &str {
        "CDADR"
    }

    fn description(&self) -> (r: &str)
        ensures
            r@ == "Get CDR of second element"@,
    {
        "Get CDR of second element"
    }

    fn execute(&self, args: &[Value]) -> (r: Result<Value, Error>)
        ensures
            outcome(r) == (if args@.len() == 0 { bad_args("CDADR"@, "Expected nested list argument"@) } else {
                and_then(nth_or_oob(args@[0].model(), 1), |l: Val| rest_after(l, 1))
            }),
    {
        if args.len() == 0 {
            return Err(invalid_args("CDADR", "Expected nested list argument"));
        }
        let second = nth_ref(&args[0], 1)?;
        rest_from(second, 1)
    }
}



/// CADADR - CAR of CDADR
pub struct CadadrTool;

impl Tool for CadadrTool {
    open spec fn names_itself(&self) -> bool {
        true
    }

    open spec fn spec_name(&self) -> Seq<char> {
        "CADADR"@
    }

    open spec fn admits(&self, args: Seq<Val>) -> bool {
        true
    }

    fn name(&self) -> &str {
        "CADADR"
    }

    fn description(&self) -> (r: &str)
        ensures
            r@ == "Get CAR of CDR of CADR"@,
    {
        "Get CAR of CDR of CADR"
    }

    fn execute(&self, args: &[Value]) -> (r: Result<Value, Error>)
        ensures
            outcome(r) == (if args@.len() == 0 { bad_args("CADADR"@, "Expected nested list argument"@) } else {
                match elems(args@[0].model()) {
                    Err(e) => Err(e),
                    Ok(s) => if s.len() < 2 { Err(ErrV::EmptyCollection { operation: "CADADR"@ }) } else {
                        match elems(s[1]) {
                            Err(e) => Err(e),
                            Ok(t) => if t.len() < 2 { Err(ErrV::EmptyCollection { operation: "CADADR"@ }) } else { yields(t[1]) },
                        }
                    },
                }
            }),
    {
        if args.len() == 0 {
            return Err(invalid_args("CADADR", "Expected nested list argument"));
        }
        let list = args[0].as_array()?;
        if list.len() < 2 {
            return Err(Error::EmptyCollection { operation: owned("CADADR") });
        }
        let second = list[1].as_array()?;
        if second.len() < 2 {
            return Err(Error::EmptyCollection { operation: owned("CADADR") });
        }
        Ok(second[1].clone())
    }
}



/// CDDAR - CDR of CDAR
pub struct CddarTool;

impl Tool for CddarTool {
    open spec fn names_itself(&self) -> bool {
        true
    }

    open spec fn spec_name(&self) -> Seq<char> {
        "CDDAR"@
    }

    open spec fn admits(&self, args: Seq<Val>) -> bool {
        true
    }

    fn name(&self) -> &str {
        "CDDAR"
    }

    fn description(&self) -> (r: &str)
        ensures
            r@ == "Get CDR of CDR of CAR"@,
    {
        "Get CDR of CDR of CAR"
    }

    fn execute(&self, args: &[Value]) -> (r: Result<Value, Error>)
        ensures
            outcome(r) == (if args@.len() == 0 { bad_args("CDDAR"@, "Expected nested list argument"@) } else {
                and_then(first_or_empty(args@[0].model(), "CDDAR"@), |l: Val| rest_after(l, 2))
            }),
    {
        if args.len() == 0 {
            return Err(invalid_args("CDDAR", "Expected nested list argument"));
        }
        let first = first_ref(&args[0], "CDDAR")?;
        rest_from(first, 2)
    }
}



/// CAADR - CAR of CADR
pub struct CaadrTool;

impl Tool for CaadrTool {
    open spec fn names_itself(&self) -> bool {
        true
    }

    open spec fn spec_name(&self) -> Seq<char> {
        "CAADR"@
    }

    open spec fn admits(&self, args: Seq<Val>) -> bool {
        true
    }

    fn name(&self) -> &str {
        "CAADR"
    }

    fn description(&self) -> (r: &str)
        ensures
            r@ == "Get first element of second element"@,
    {
        "Get first element of second element"
    }

    fn execute(&self, args: &[Value]) -> (r: Result<Value, Error>)
        ensures
            outcome(r) == (if args@.len() == 0 { bad_args("CAADR"@, "Expected nested list argument"@) } else {
                and_then(nth_or_oob(args@[0].model(), 1), |l: Val| first_or_empty(l, "CAADR"@))
            }),
    {
        if args.len() == 0 {
            return Err(invalid_args("CAADR", "Expected nested list argument"));
        }
        let second = nth_ref(&args[0], 1)?;
        let v = first_ref(second, "CAADR")?;
        Ok(v.clone())
    }
}



/// CADDDR - Get fourth element
pub struct CadddrTool;

impl Tool for CadddrTool {
    open spec fn names_itself(&self) -> bool {
        true
    }

    open spec fn spec_name(&self) -> Seq<char> {
        "CADDDR"@
    }

    open spec fn admits(&self, args: Seq<Val>) -> bool {
        true
    }

    fn name(&self) -> &str {
        "CADDDR"
    }

    fn description(&self) -> (r: &str)
        ensures
            r@ == "Get fourth element of list"@,
    {
        "Get fourth element of list"
    }

    fn execute(&self, args: &[Value]) -> (r: Result<Value, Error>)
        ensures
            outcome(r) == (if args@.len() == 0 { bad_args("CADDDR"@, "Expected list argument"@) } else { nth_or_oob(args@[0].model(), 3) }),
    {
        if args.len() == 0 {
            return Err(invalid_args("CADDDR", "Expected list argument"));
        }
        let v = nth_ref(&args[0], 3)?;
        Ok(v.clone())
    }
}



/// CDADDR - CDR of CADDR
pub struct CdaddrTool;

impl Tool for CdaddrTool {
    open spec fn names_itself(&self) -> bool {
        true
    }

    open spec fn spec_name(&self) -> Seq<char> {
        "CDADDR"@
    }

    open spec fn admits(&self, args: Seq<Val>) -> bool {
        true
    }

    fn name(&self) -> &str {
        "CDADDR"
    }

    fn description(&self) -> (r: &str)
        ensures
            r@ == "Get CDR of third element"@,
    {
        "Get CDR of third element"
    }

    fn execute(&self, args: &[Value]) -> (r: Result<Value, Error>)
        ensures
            outcome(r) == (if args@.len() == 0 { bad_args("CDADDR"@, "Expected nested list argument"@) } else {
                and_then(nth_or_oob(args@[0].model(), 2), |l: Val| rest_after(l, 1))
            }),
    {
        if args.len() == 0 {
            return Err(invalid_args("CDADDR", "Expected nested list argument"));
        }
        let third = nth_ref(&args[0], 2)?;
        rest_from(third, 1)
    }
}



/// CDDDR - CDR of CDDR (skip first 3)
pub struct CdddrTool;

impl Tool for CdddrTool {
    open spec fn names_itself(&self) -> bool {
        true
    }

    open spec fn spec_name(&self) -> Seq<char> {
        "CDDDR"@
    }

    open spec fn admits(&self, args: Seq<Val>) -> bool {
        true
    }

    fn name(&self) -> &str {
        "CDDDR"
    }

    fn description(&self) -> (r: &str)
        ensures
            r@ == "Get all elements after first three"@,
    {
        "Get all elements after first three"
    }

    fn execute(&self, args: &[Value]) -> (r: Result<Value, Error>)
        ensures
            outcome(r) == (if args@.len() == 0 { bad_args("CDDDR"@, "Expected list argument"@) } else { rest_after(args@[0].model(), 3) }),
    {
        if args.len() == 0 {
            return Err(invalid_args("CDDDR", "Expected list argument"));
        }
        rest_from(&args[0], 3)
    }
}



/// CAAAAR - CAR of CAR of CAR of CAR
pub struct CaaaarTool;

impl Tool for CaaaarTool {
    open spec fn names_itself(&self) -> bool {
        true
    }

    open spec fn spec_name(&self) -> Seq<char> {
        "CAAAAR"@
    }

    open spec fn admits(&self, args: Seq<Val>) -> bool {
        true
    }

    fn name(&self) -> &str {
        "CAAAAR"
    }

    fn description(&self) -> (r: &str)
        ensures
            r@ == "Get first of first of first of first"@,
    {
        "Get first of first of first of first"
    }

    fn execute(&self, args: &[Value]) -> (r: Result<Value, Error>)
        ensures
            outcome(r) == (if args@.len() == 0 { bad_args("CAAAAR"@, "Expected deeply nested list"@) } else {
                and_then(and_then(and_then(first_or_empty(args@[0].model(), "CAAAAR"@),
                    |l: Val| first_or_empty(l, "CAAAAR"@)),
                    |l: Val| first_or_empty(l, "CAAAAR"@)),
                    |l: Val| first_or_empty(l, "CAAAAR"@))
            }),
    {
        if args.len() == 0 {
            return Err(invalid_args("CAAAAR", "Expected deeply nested list"));
        }
        let l1 = first_ref(&args[0], "CAAAAR")?;
        let l2 = first_ref(l1, "CAAAAR")?;
        let l3 = first_ref(l2, "CAAAAR")?;
        let l4 = first_ref(l3, "CAAAAR")?;
        Ok(l4.clone())
    }
}



/// CDAAAR - CDR of CAR of CAR of CAR
pub struct CdaaarTool;

impl Tool for CdaaarTool {
    open spec fn names_itself(&self) -> bool {
        true
    }

    open spec fn spec_name(&self) -> Seq<char> {
        "CDAAAR"@
    }

    open spec fn admits(&self, args: Seq<Val>) -> bool {
        true
    }

    fn name(&self) -> &str {
        "CDAAAR"
    }

    fn description(&self) -> (r: &str)
        ensures
            r@ == "Get rest of first of first of first"@,
    {
        "Get rest of first of first of first"
    }

    fn execute(&self, args: &[Value]) -> (r: Result<Value, Error>)
        ensures
            outcome(r) == (if args@.len() == 0 { bad_args("CDAAAR"@, "Expected deeply nested list"@) } else {
                and_then(and_then(and_then(first_or_empty(args@[0].model(), "CDAAAR"@),
                    |l: Val| first_or_empty(l, "CDAAAR"@)),
                    |l: Val| first_or_empty(l, "CDAAAR"@)),
                    |l: Val| rest_after(l, 1))
            }),
    {
        if args.len() == 0 {
            return Err(invalid_args("CDAAAR", "Expected deeply nested list"));
        }
        let l1 = first_ref(&args[0], "CDAAAR")?;
        let l2 = first_ref(l1, "CDAAAR")?;
        let l3 = first_ref(l2, "CDAAAR")?;
        rest_from(l3, 1)
    }
}



/// CADAAR - CAR of CDR of CAR of CAR
pub struct CadaarTool;

impl Tool for CadaarTool {
    open spec fn names_itself(&self) -> bool {
        true
    }

    open spec fn spec_name(&self) -> Seq<char> {
        "CADAAR"@
    }

    open spec fn admits(&self, args: Seq<Val>) -> bool {
        true
    }

    fn name(&self) -> &str {
        "CADAAR"
    }

    fn description(&self) -> (r: &str)
        ensures
            r@ == "Get first of rest of first of first"@,
    {
        "Get first of rest of first of first"
    }

    fn execute(&self, args: &[Value]) -> (r: Result<Value, Error>)
        ensures
            outcome(r) == (if args@.len() == 0 { bad_args("CADAAR"@, "Expected deeply nested list"@) } else {
                and_then(and_then(first_or_empty(args@[0].model(), "CADAAR"@),
                    |l: Val| first_or_empty(l, "CADAAR"@)),
                    |l: Val| nth_or_oob(l, 1))
            }),
    {
        if args.len() == 0 {
            return Err(invalid_args("CADAAR", "Expected deeply nested list"));
        }
        let l1 = first_ref(&args[0], "CADAAR")?;
        let l2 = first_ref(l1, "CADAAR")?;
        let v = nth_ref(l2, 1)?;
        Ok(v.clone())
    }
}



/// CDDAAR - CDR of CDR of CAR of CAR
pub struct CddaarTool;

impl Tool for CddaarTool {
    open spec fn names_itself(&self) -> bool {
        true
    }

    open spec fn spec_name(&self) -> Seq<char> {
        "CDDAAR"@
    }

    open spec fn admits(&self, args: Seq<Val>) -> bool {
        true
    }

    fn name(&self) -> &str {
        "CDDAAR"
    }

    fn description(&self) -> (r: &str)
        ensures
            r@ == "Get rest of rest of first of first"@,
    {
        "Get rest of rest of first of first"
    }

    fn execute(&self, args: &[Value]) -> (r: Result<Value, Error>)
        ensures
            outcome(r) == (if args@.len() == 0 { bad_args("CDDAAR"@, "Expected deeply nested list"@) } else {
                and_then(and_then(first_or_empty(args@[0].model(), "CDDAAR"@),
                    |l: Val| first_or_empty(l, "CDDAAR"@)),
                    |l: Val| rest_after(l, 2))
            }),
    {
        if args.len() == 0 {
            return Err(invalid_args("CDDAAR", "Expected deeply nested list"));
        }
        let l1 = first_ref(&args[0], "CDDAAR")?;
        let l2 = first_ref(l1, "CDDAAR")?;
        rest_from(l2, 2)
    }
}



/// CAADAR - CAR of CAR of CDR of CAR
pub struct CaadarTool;

impl Tool for CaadarTool {
    open spec fn names_itself(&self) -> bool {
        true
    }

    open spec fn spec_name(&self) -> Seq<char> {
        "CAADAR"@
    }

    open spec fn admits(&self, args: Seq<Val>) -> bool {
        true
    }

    fn name(&self) -> &str {
        "CAADAR"
    }

    fn description(&self) -> (r: &str)
        ensures
            r@ == "Get first of first of rest of first"@,
    {
        "Get first of first of rest of first"
    }

    fn execute(&self, args: &[Value]) -> (r: Result<Value, Error>)
        ensures
            outcome(r) == (if args@.len() == 0 { bad_args("CAADAR"@, "Expected deeply nested list"@) } else {
                and_then(and_then(first_or_empty(args@[0].model(), "CAADAR"@),
                    |l: Val| nth_or_oob(l, 1)),
                    |l: Val| first_or_empty(l, "CAADAR"@))
            }),
    {
        if args.len() == 0 {
            return Err(invalid_args("CAADAR", "Expected deeply nested list"));
        }
        let l1 = first_ref(&args[0], "CAADAR")?;
        let l2 = nth_ref(l1, 1)?;
        let l3 = first_ref(l2, "CAADAR")?;
        Ok(l3.clone())
    }
}


} // verus!
