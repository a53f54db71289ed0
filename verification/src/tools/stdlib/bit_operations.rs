//! Extended bit operations for OVSM
//!
//! Bit arrays, bit vectors, and bit field operations.
//! Completes the Common Lisp bit manipulation suite.
use vstd::prelude::*;

#[allow(unused_imports)]
use crate::access::{copy_range, copy_slice, copy_values, values_equal};
#[allow(unused_imports)]
use crate::error::{empty_collection, exec_error, invalid_args, ErrV, Error};
#[allow(unused_imports)]
use crate::text::{alphabetic, alphanumeric, char_from_u32, char_is_alphabetic, char_is_alphanumeric, char_is_lowercase, char_is_uppercase, char_is_whitespace, char_string, char_to_lowercase, char_to_uppercase, chars_of, chars_skip, concat, i64_to_string, int_decimal, lower_case, lower_chars, lowercase, owned, scalar_value, seq_less, str_equal, str_less, string_from_chars, to_lower, to_upper, upper_case, upper_chars, uppercase, whitespace};
#[allow(unused_imports)]
use crate::tools::{bad_args, name_insert, outcome, ref_outcome, string_views, yields, Tool, ToolRegistry};
#[allow(unused_imports)]
use crate::value::{and_then, elems, entry_models, int_of, models, obj_insert, obj_keys, obj_lookup, obj_merge, obj_of, obj_values, str_of, truthy, type_error, ObjectMap, Val, Value};

verus! {

broadcast use crate::seq_models::group_value_models;

/// The names after registering this module's tools, in order.
pub open spec fn registered_names(ns: Seq<Seq<char>>) -> Seq<Seq<char>> {
    let ns = name_insert(ns, "MAKE-BIT-ARRAY"@);
    let ns = name_insert(ns, "BIT"@);
    let ns = name_insert(ns, "SBIT"@);
    let ns = name_insert(ns, "BIT-AND"@);
    let ns = name_insert(ns, "BIT-IOR"@);
    let ns = name_insert(ns, "BIT-XOR"@);
    let ns = name_insert(ns, "BIT-NOT"@);
    let ns = name_insert(ns, "BIT-VECTOR-P"@);
    ns
}

/// Register the tools of this module.
pub fn register(registry: &mut ToolRegistry)
    ensures
        final(registry).names() == registered_names(old(registry).names()),
{
    registry.register(MakeBitArrayTool);
    registry.register(BitTool);
    registry.register(SbitTool);
    registry.register(BitAndTool);
    registry.register(BitIorTool);
    registry.register(BitXorTool);
    registry.register(BitNotTool);
    registry.register(BitVectorPTool);
}

/// A bitwise operation on pairs of integers.
pub enum BitOp {
    And,
    Ior,
    Xor,
}

/// The element that a bitwise operation makes of two elements.
pub open spec fn bit_pair(op: BitOp, a: Val, b: Val) -> Val {
    match (a, b) {
        (Val::Int(x), Val::Int(y)) => Val::Int(
            match op {
                BitOp::And => x & y,
                BitOp::Ior => x | y,
                BitOp::Xor => x ^ y,
            },
        ),
        _ => Val::Int(0),
    }
}

/// The result of a bitwise operation on two bit arrays: elements paired up to
/// the shorter length.
pub open spec fn bit_zip(op: BitOp, args: Seq<Val>) -> Val {
    if args.len() < 2 {
        Val::Arr(Seq::<Val>::empty())
    } else {
        match (args[0], args[1]) {
            (Val::Arr(a), Val::Arr(b)) => Val::Arr(
                Seq::new(if a.len() < b.len() { a.len() } else { b.len() }, |i: int| bit_pair(op, a[i], b[i])),
            ),
            _ => Val::Arr(Seq::<Val>::empty()),
        }
    }
}

fn bit_pair_exec(op: &BitOp, a: &Value, b: &Value) -> (r: Value)
    ensures
        r.model() == bit_pair(*op, a.model(), b.model()),
{
    match (a, b) {
        (Value::Int(x), Value::Int(y)) => Value::Int(
            match op {
                BitOp::And => *x & *y,
                BitOp::Ior => *x | *y,
                BitOp::Xor => *x ^ *y,
            },
        ),
        _ => Value::Int(0),
    }
}

fn bit_zip_exec(op: BitOp, args: &[Value]) -> (r: Value)
    ensures
        r.model() == bit_zip(op, models(args@)),
{
    if args.len() < 2 {
        return Value::Array(Vec::new());
    }
    match (&args[0], &args[1]) {
        (Value::Array(a1), Value::Array(a2)) => {
            let n = if a1.len() < a2.len() { a1.len() } else { a2.len() };
            let ghost ma = models(a1@);
            let ghost mb = models(a2@);
            let mut out: Vec<Value> = Vec::new();
            let mut i: usize = 0;
            while i < n
                invariant
                    i <= n <= a1@.len(),
                    n <= a2@.len(),
                    ma == models(a1@),
                    mb == models(a2@),
                    out@.len() == i,
                    forall|j: int| 0 <= j < i ==> #[trigger] out@[j].model() == bit_pair(op, ma[j], mb[j]),
                decreases n - i,
            {
                out.push(bit_pair_exec(&op, &a1[i], &a2[i]));
                i = i + 1;
            }
            assert(models(out@) =~= Seq::new(n as nat, |j: int| bit_pair(op, ma[j], mb[j])));
            Value::Array(out)
        },
        _ => Value::Array(Vec::new()),
    }
}

/// The element at an index of a bit array, 0 when there is none.
pub open spec fn bit_at(args: Seq<Val>) -> Val {
    if args.len() < 2 {
        Val::Int(0)
    } else {
        match (args[0], args[1]) {
            (Val::Arr(a), Val::Int(n)) => if ((n as usize) as nat) < a.len() { a[(n as usize) as int] } else { Val::Int(0) },
            _ => Val::Int(0),
        }
    }
}

fn bit_at_exec(args: &[Value]) -> (r: Value)
    ensures
        r.model() == bit_at(models(args@)),
{
    if args.len() < 2 {
        return Value::Int(0);
    }
    match (&args[0], &args[1]) {
        (Value::Array(arr), Value::Int(n)) => {
            let index = *n as usize;
            if index < arr.len() {
                assert(models(arr@)[index as int] == arr@[index as int].model());
                arr[index].clone()
            } else {
                Value::Int(0)
            }
        },
        _ => Value::Int(0),
    }
}

/// The complement of one element of a bit array.
pub open spec fn bit_flip(v: Val) -> Val {
    match v {
        Val::Int(n) => if n == 0 { Val::Int(1) } else if n == 1 { Val::Int(0) } else { Val::Int((-1 - n) as i64) },
        _ => Val::Int(0),
    }
}

/// A bit: the integer 0 or 1.
pub open spec fn is_bit(v: Val) -> bool {
    v == Val::Int(0) || v == Val::Int(1)
}

/// Every element is a bit.
pub open spec fn all_bits(a: Seq<Val>) -> bool {
    forall|i: int| 0 <= i < a.len() ==> is_bit(#[trigger] a[i])
}

fn flip_exec(v: &Value) -> (r: Value)
    ensures
        r.model() == bit_flip(v.model()),
{
    match v {
        Value::Int(n) => {
            let m: i64 = *n;
            if m == 0 {
                Value::Int(1)
            } else if m == 1 {
                Value::Int(0)
            } else {
                let k: i64 = !m;
                assert(k == -1 - m) by (bit_vector)
                    requires
                        k == !m,
                ;
                Value::Int(k)
            }
        },
        _ => Value::Int(0),
    }
}

fn is_bit_exec(v: &Value) -> (b: bool)
    ensures
        b == is_bit(v.model()),
{
    match v {
        Value::Int(n) => *n == 0 || *n == 1,
        _ => false,
    }
}

fn all_bits_exec(arr: &Vec<Value>) -> (b: bool)
    ensures
        b == all_bits(models(arr@)),
{
    let ghost ma = models(arr@);
    let mut i: usize = 0;
    while i < arr.len()
        invariant
            i <= arr@.len(),
            ma == models(arr@),
            ma.len() == arr@.len(),
            all_bits(ma.take(i as int)),
        decreases arr.len() - i,
    {
        assert(ma[i as int] == arr@[i as int].model());
        let bit = is_bit_exec(&arr[i]);
        if !bit {
            assert(!is_bit(ma[i as int]));
            return false;
        }
        assert(ma.take(i + 1) =~= ma.take(i as int).push(ma[i as int]));
        i = i + 1;
    }
    assert(ma.take(i as int) =~= ma);
    true
}

/// MAKE-BIT-ARRAY - Create bit array
pub struct MakeBitArrayTool;

impl Tool for MakeBitArrayTool {
    open spec fn names_itself(&self) -> bool {
        true
    }

    open spec fn spec_name(&self) -> Seq<char> {
        "MAKE-BIT-ARRAY"@
    }

    open spec fn admits(&self, args: Seq<Val>) -> bool {
        true
    }

    fn name(&self) -> &str {
        "MAKE-BIT-ARRAY"
    }

    fn description(&self) -> (r: &str)
        ensures
            r@ == "Create bit array of specified size"@,
    {
        "Create bit array of specified size"
    }

    fn execute(&self, args: &[Value]) -> (r: Result<Value, Error>)
        ensures
            outcome(r) == (if args@.len() == 0 { bad_args("MAKE-BIT-ARRAY"@, "Expected 1 argument: size"@) } else {
                match args@[0].model() {
                    Val::Int(n) => if n >= 0 {
                        yields(Val::Arr(Seq::new((n as usize) as nat, |i: int| Val::Int(0))))
                    } else {
                        bad_args("MAKE-BIT-ARRAY"@, "Size must be non-negative, got "@ + int_decimal(n as int))
                    },
                    v => Err(type_error("integer"@, v)),
                }
            }),
    {
        if args.len() == 0 {
            return Err(invalid_args("MAKE-BIT-ARRAY", "Expected 1 argument: size"));
        }
        let size: usize = match &args[0] {
            Value::Int(n) => if *n >= 0 {
                *n as usize
            } else {
                let digits = i64_to_string(*n);
                let reason = concat("Size must be non-negative, got ", digits.as_str());
                return Err(Error::InvalidArguments { tool: owned("MAKE-BIT-ARRAY"), reason });
            },
            _ => {
                return Err(Error::TypeError { expected: owned("integer"), got: args[0].kind_name() });
            },
        };
        let mut bits: Vec<Value> = Vec::new();
        let mut i: usize = 0;
        while i < size
            invariant
                i <= size,
                bits@.len() == i,
                forall|j: int| 0 <= j < i ==> #[trigger] bits@[j].model() == Val::Int(0),
            decreases size - i,
        {
            bits.push(Value::Int(0));
            i = i + 1;
        }
        assert(models(bits@) =~= Seq::new(size as nat, |i: int| Val::Int(0)));
        assert(size == (args@[0].model()->Int_0 as usize));
        Ok(Value::Array(bits))
    }
}



/// BIT - Access bit in bit array
pub struct BitTool;

impl Tool for BitTool {
    open spec fn names_itself(&self) -> bool {
        true
    }

    open spec fn spec_name(&self) -> Seq<char> {
        "BIT"@
    }

    open spec fn admits(&self, args: Seq<Val>) -> bool {
        true
    }

    fn name(&self) -> &str {
        "BIT"
    }

    fn description(&self) -> (r: &str)
        ensures
            r@ == "Access bit at index in bit array"@,
    {
        "Access bit at index in bit array"
    }

    fn execute(&self, args: &[Value]) -> (r: Result<Value, Error>)
        ensures
            outcome(r) == (yields(bit_at(models(args@)))),
    {
        Ok(bit_at_exec(args))
    }
}



/// SBIT - Access simple bit in simple bit array
pub struct SbitTool;

impl Tool for SbitTool {
    open spec fn names_itself(&self) -> bool {
        true
    }

    open spec fn spec_name(&self) -> Seq<char> {
        "SBIT"@
    }

    open spec fn admits(&self, args: Seq<Val>) -> bool {
        true
    }

    fn name(&self) -> &str {
        "SBIT"
    }

    fn description(&self) -> (r: &str)
        ensures
            r@ == "Access bit in simple bit array"@,
    {
        "Access bit in simple bit array"
    }

    fn execute(&self, args: &[Value]) -> (r: Result<Value, Error>)
        ensures
            outcome(r) == (yields(bit_at(models(args@)))),
    {
        Ok(bit_at_exec(args))
    }
}



/// BIT-AND - Bitwise AND on bit arrays
pub struct BitAndTool;

impl Tool for BitAndTool {
    open spec fn names_itself(&self) -> bool {
        true
    }

    open spec fn spec_name(&self) -> Seq<char> {
        "BIT-AND"@
    }

    open spec fn admits(&self, args: Seq<Val>) -> bool {
        true
    }

    fn name(&self) -> &str {
        "BIT-AND"
    }

    fn description(&self) -> (r: &str)
        ensures
            r@ == "Bitwise AND on bit arrays"@,
    {
        "Bitwise AND on bit arrays"
    }

    fn execute(&self, args: &[Value]) -> (r: Result<Value, Error>)
        ensures
            outcome(r) == (yields(bit_zip(BitOp::And, models(args@)))),
    {
        Ok(bit_zip_exec(BitOp::And, args))
    }
}



/// BIT-IOR - Bitwise OR on bit arrays
pub struct BitIorTool;

impl Tool for BitIorTool {
    open spec fn names_itself(&self) -> bool {
        true
    }

    open spec fn spec_name(&self) -> Seq<char> {
        "BIT-IOR"@
    }

    open spec fn admits(&self, args: Seq<Val>) -> bool {
        true
    }

    fn name(&self) -> &str {
        "BIT-IOR"
    }

    fn description(&self) -> (r: &str)
        ensures
            r@ == "Bitwise inclusive OR on bit arrays"@,
    {
        "Bitwise inclusive OR on bit arrays"
    }

    fn execute(&self, args: &[Value]) -> (r: Result<Value, Error>)
        ensures
            outcome(r) == (yields(bit_zip(BitOp::Ior, models(args@)))),
    {
        Ok(bit_zip_exec(BitOp::Ior, args))
    }
}



/// BIT-XOR - Bitwise XOR on bit arrays
pub struct BitXorTool;

impl Tool for BitXorTool {
    open spec fn names_itself(&self) -> bool {
        true
    }

    open spec fn spec_name(&self) -> Seq<char> {
        "BIT-XOR"@
    }

    open spec fn admits(&self, args: Seq<Val>) -> bool {
        true
    }

    fn name(&self) -> &str {
        "BIT-XOR"
    }

    fn description(&self) -> (r: &str)
        ensures
            r@ == "Bitwise exclusive OR on bit arrays"@,
    {
        "Bitwise exclusive OR on bit arrays"
    }

    fn execute(&self, args: &[Value]) -> (r: Result<Value, Error>)
        ensures
            outcome(r) == (yields(bit_zip(BitOp::Xor, models(args@)))),
    {
        Ok(bit_zip_exec(BitOp::Xor, args))
    }
}



/// BIT-NOT - Bitwise NOT on bit array
pub struct BitNotTool;

impl Tool for BitNotTool {
    open spec fn names_itself(&self) -> bool {
        true
    }

    open spec fn spec_name(&self) -> Seq<char> {
        "BIT-NOT"@
    }

    open spec fn admits(&self, args: Seq<Val>) -> bool {
        true
    }

    fn name(&self) -> &str {
        "BIT-NOT"
    }

    fn description(&self) -> (r: &str)
        ensures
            r@ == "Bitwise NOT on bit array"@,
    {
        "Bitwise NOT on bit array"
    }

    fn execute(&self, args: &[Value]) -> (r: Result<Value, Error>)
        ensures
            outcome(r) == (yields(if args@.len() == 0 { Val::Arr(Seq::<Val>::empty()) } else {
                match args@[0].model() {
                    Val::Arr(a) => Val::Arr(Seq::new(a.len(), |i: int| bit_flip(a[i]))),
                    _ => Val::Arr(Seq::<Val>::empty()),
                }
            })),
    {
        if args.len() == 0 {
            return Ok(Value::Array(Vec::new()));
        }
        match &args[0] {
            Value::Array(arr) => {
                let ghost ma = models(arr@);
                let mut out: Vec<Value> = Vec::new();
                let mut i: usize = 0;
                while i < arr.len()
                    invariant
                        i <= arr@.len(),
                        ma == models(arr@),
                        out@.len() == i,
                        forall|j: int| 0 <= j < i ==> #[trigger] out@[j].model() == bit_flip(ma[j]),
                    decreases arr.len() - i,
                {
                    out.push(flip_exec(&arr[i]));
                    i = i + 1;
                }
                assert(models(out@) =~= Seq::new(ma.len(), |j: int| bit_flip(ma[j])));
                Ok(Value::Array(out))
            },
            _ => Ok(Value::Array(Vec::new())),
        }
    }
}



/// BIT-VECTOR-P - Check if bit vector
pub struct BitVectorPTool;

impl Tool for BitVectorPTool {
    open spec fn names_itself(&self) -> bool {
        true
    }

    open spec fn spec_name(&self) -> Seq<char> {
        "BIT-VECTOR-P"@
    }

    open spec fn admits(&self, args: Seq<Val>) -> bool {
        true
    }

    fn name(&self) -> &str {
        "BIT-VECTOR-P"
    }

    fn description(&self) -> (r: &str)
        ensures
            r@ == "Check if object is bit vector"@,
    {
        "Check if object is bit vector"
    }

    fn execute(&self, args: &[Value]) -> (r: Result<Value, Error>)
        ensures
            outcome(r) == (yields(Val::Bool(args@.len() > 0 && match args@[0].model() {
                Val::Arr(a) => all_bits(a),
                _ => false,
            }))),
    {
        if args.len() == 0 {
            return Ok(Value::Bool(false));
        }
        match &args[0] {
            Value::Array(arr) => Ok(Value::Bool(all_bits_exec(arr))),
            _ => Ok(Value::Bool(false)),
        }
    }
}


} // verus!
