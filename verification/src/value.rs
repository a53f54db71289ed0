//! Runtime values handed to and returned by tools, with their mathematical model.
use vstd::prelude::*;

use crate::error::ErrV;

verus! {

/// A dynamically typed value of the interpreter.
///
/// Floating-point numbers are carried by their IEEE-754 bit pattern: the
/// library passes them through and tells them apart, but does no float
/// arithmetic.
#[derive(Debug, PartialEq)]
pub enum Value {
    Null,
    Bool(bool),
    Int(i64),
    Float(u64),
    String(String),
    Array(Vec<Value>),
    Object(ObjectMap),
}

/// A string-keyed map of values, kept in insertion order.
#[derive(Debug, PartialEq)]
pub struct ObjectMap {
    pub entries: Vec<(String, Value)>,
}

/// The mathematical model of a [`Value`].
pub enum Val {
    Null,
    Bool(bool),
    Int(i64),
    Float(u64),
    Str(Seq<char>),
    Arr(Seq<Val>),
    Obj(Seq<(Seq<char>, Val)>),
}

impl Value {
    pub open spec fn model(&self) -> Val
        decreases self,
    {
        match self {
            Value::Null => Val::Null,
            Value::Bool(b) => Val::Bool(*b),
            Value::Int(i) => Val::Int(*i),
            Value::Float(f) => Val::Float(*f),
            Value::String(s) => Val::Str(s@),
            Value::Array(v) => Val::Arr(models(v@)),
            Value::Object(m) => Val::Obj(entry_models(m.entries@)),
        }
    }
}

/// The models of a sequence of values, element by element.
pub open spec fn models(s: Seq<Value>) -> Seq<Val>
    decreases s,
{
    if s.len() == 0 {
        Seq::empty()
    } else {
        seq![s[0].model()] + models(s.drop_first())
    }
}

/// The models of a sequence of object entries, entry by entry.
pub open spec fn entry_models(s: Seq<(String, Value)>) -> Seq<(Seq<char>, Val)>
    decreases s,
{
    if s.len() == 0 {
        Seq::empty()
    } else {
        seq![(s[0].0@, s[0].1.model())] + entry_models(s.drop_first())
    }
}


/// The name of a value's type, as error messages give it.
pub open spec fn kind_name_of(v: Val) -> Seq<char> {
    match v {
        Val::Null => "null"@,
        Val::Bool(_) => "bool"@,
        Val::Int(_) => "int"@,
        Val::Float(_) => "float"@,
        Val::Str(_) => "string"@,
        Val::Arr(_) => "array"@,
        Val::Obj(_) => "object"@,
    }
}

/// Truthiness: `null`, `false`, zero and empty strings, arrays and objects are false.
pub open spec fn truthy(v: Val) -> bool {
    match v {
        Val::Null => false,
        Val::Bool(b) => b,
        Val::Int(i) => i != 0,
        Val::Float(f) => f & 0x7fff_ffff_ffff_ffffu64 != 0,
        Val::Str(s) => s.len() > 0,
        Val::Arr(a) => a.len() > 0,
        Val::Obj(o) => o.len() > 0,
    }
}

/// The error that a typed accessor reports for a value of another type.
pub open spec fn type_error(expected: Seq<char>, v: Val) -> ErrV {
    ErrV::TypeError { expected, got: kind_name_of(v) }
}

/// The elements of an array value, or the type error that `as_array` reports.
pub open spec fn elems(v: Val) -> Result<Seq<Val>, ErrV> {
    match v {
        Val::Arr(s) => Ok(s),
        _ => Err(type_error("array"@, v)),
    }
}

/// The integer of an integer value, or the type error that `as_int` reports.
pub open spec fn int_of(v: Val) -> Result<i64, ErrV> {
    match v {
        Val::Int(i) => Ok(i),
        _ => Err(type_error("int"@, v)),
    }
}

/// The characters of a string value, or the type error that `as_string` reports.
pub open spec fn str_of(v: Val) -> Result<Seq<char>, ErrV> {
    match v {
        Val::Str(s) => Ok(s),
        _ => Err(type_error("string"@, v)),
    }
}

/// The entries of an object value, or the type error that `as_object` reports.
pub open spec fn obj_of(v: Val) -> Result<Seq<(Seq<char>, Val)>, ErrV> {
    match v {
        Val::Obj(o) => Ok(o),
        _ => Err(type_error("object"@, v)),
    }
}

/// Continues with `f` on success, passes an error on.
pub open spec fn and_then(r: Result<Val, ErrV>, f: spec_fn(Val) -> Result<Val, ErrV>) -> Result<Val, ErrV> {
    match r {
        Ok(v) => f(v),
        Err(e) => Err(e),
    }
}

/// The value of the first entry whose key is `k`, if any.
pub open spec fn obj_lookup(es: Seq<(Seq<char>, Val)>, k: Seq<char>) -> Option<Val>
    decreases es.len(),
{
    if es.len() == 0 {
        None
    } else if es[0].0 == k {
        Some(es[0].1)
    } else {
        obj_lookup(es.drop_first(), k)
    }
}

/// The index of the first entry whose key is `k`, or -1.
pub open spec fn obj_index(es: Seq<(Seq<char>, Val)>, k: Seq<char>) -> int
    decreases es.len(),
{
    if es.len() == 0 {
        -1
    } else if es[0].0 == k {
        0
    } else {
        let r = obj_index(es.drop_first(), k);
        if r < 0 {
            -1
        } else {
            r + 1
        }
    }
}

/// Entries after inserting `k` bound to `v`: an existing binding is replaced in
/// place, a new one is appended.
pub open spec fn obj_insert(es: Seq<(Seq<char>, Val)>, k: Seq<char>, v: Val) -> Seq<(Seq<char>, Val)> {
    let i = obj_index(es, k);
    if i < 0 {
        es.push((k, v))
    } else {
        es.update(i, (k, v))
    }
}

/// Entries of `a` with every binding of `b` inserted in turn.
pub open spec fn obj_merge(a: Seq<(Seq<char>, Val)>, b: Seq<(Seq<char>, Val)>) -> Seq<(Seq<char>, Val)>
    decreases b.len(),
{
    if b.len() == 0 {
        a
    } else {
        obj_merge(obj_insert(a, b[0].0, b[0].1), b.drop_first())
    }
}

/// The keys of an object's entries, as string values, in order.
pub open spec fn obj_keys(es: Seq<(Seq<char>, Val)>) -> Seq<Val> {
    Seq::new(es.len(), |i: int| Val::Str(es[i].0))
}

/// The values of an object's entries, in order.
pub open spec fn obj_values(es: Seq<(Seq<char>, Val)>) -> Seq<Val> {
    Seq::new(es.len(), |i: int| es[i].1)
}

/// No key occurs twice.
pub open spec fn keys_distinct(es: Seq<(Seq<char>, Val)>) -> bool {
    forall|i: int, j: int| 0 <= i < j < es.len() ==> es[i].0 != es[j].0
}

pub proof fn lemma_obj_index(es: Seq<(Seq<char>, Val)>, k: Seq<char>)
    ensures
        -1 <= obj_index(es, k) < es.len(),
        obj_index(es, k) >= 0 ==> es[obj_index(es, k)].0 == k,
        obj_index(es, k) >= 0 ==> obj_lookup(es, k) == Some(es[obj_index(es, k)].1),
        obj_index(es, k) >= 0 ==> forall|j: int| 0 <= j < obj_index(es, k) ==> es[j].0 != k,
        obj_index(es, k) < 0 ==> obj_lookup(es, k) is None,
        obj_index(es, k) < 0 ==> forall|j: int| 0 <= j < es.len() ==> es[j].0 != k,
    decreases es.len(),
{
    if es.len() > 0 && es[0].0 != k {
        lemma_obj_index(es.drop_first(), k);
        let r = obj_index(es.drop_first(), k);
        assert forall|j: int| 0 <= j < es.len() && (r < 0 || j < r + 1) implies es[j].0 != k by {
            if j > 0 {
                assert(es.drop_first()[j - 1] == es[j]);
            }
        }
    }
}

proof fn lemma_lookup_first(es: Seq<(Seq<char>, Val)>, k: Seq<char>, j: int)
    requires
        0 <= j < es.len(),
        es[j].0 == k,
        forall|i: int| 0 <= i < j ==> es[i].0 != k,
    ensures
        obj_lookup(es, k) == Some(es[j].1),
        obj_index(es, k) == j,
    decreases j,
{
    if j > 0 {
        let t = es.drop_first();
        assert forall|i: int| 0 <= i < j - 1 implies t[i].0 != k by {
            assert(t[i] == es[i + 1]);
        }
        assert(t[j - 1] == es[j]);
        lemma_lookup_first(t, k, j - 1);
    }
}

proof fn lemma_lookup_none(es: Seq<(Seq<char>, Val)>, k: Seq<char>)
    requires
        forall|i: int| 0 <= i < es.len() ==> es[i].0 != k,
    ensures
        obj_lookup(es, k) is None,
        obj_index(es, k) == -1,
    decreases es.len(),
{
    if es.len() > 0 {
        let t = es.drop_first();
        assert forall|i: int| 0 <= i < t.len() implies t[i].0 != k by {
            assert(t[i] == es[i + 1]);
        }
        lemma_lookup_none(t, k);
    }
}

/// Looking up a key after an insertion only depends on the keys before it:
/// entries whose keys are unchanged give the same lookups.
proof fn lemma_lookup_same_keys(es: Seq<(Seq<char>, Val)>, fs: Seq<(Seq<char>, Val)>, k: Seq<char>)
    requires
        es.len() == fs.len(),
        forall|i: int| 0 <= i < es.len() ==> es[i].0 == fs[i].0,
        forall|i: int| 0 <= i < es.len() && es[i].0 == k ==> es[i].1 == fs[i].1,
    ensures
        obj_lookup(es, k) == obj_lookup(fs, k),
{
    lemma_obj_index(es, k);
    let j = obj_index(es, k);
    if j >= 0 {
        lemma_lookup_first(fs, k, j);
    } else {
        lemma_lookup_none(fs, k);
    }
}

/// What a read gives back of a write: after `k` is bound to `v`, looking up
/// `k` finds `v`, and looking up any other key finds what it found before.
pub proof fn law_insert_then_lookup(es: Seq<(Seq<char>, Val)>, k: Seq<char>, v: Val, other: Seq<char>)
    ensures
        obj_lookup(obj_insert(es, k, v), k) == Some(v),
        other != k ==> obj_lookup(obj_insert(es, k, v), other) == obj_lookup(es, other),
{
    lemma_obj_index(es, k);
    let i = obj_index(es, k);
    let fs = obj_insert(es, k, v);
    if i < 0 {
        lemma_lookup_first(fs, k, es.len() as int);
        if other != k {
            lemma_obj_index(es, other);
            let j = obj_index(es, other);
            if j >= 0 {
                lemma_lookup_first(fs, other, j);
            } else {
                lemma_lookup_none(fs, other);
            }
        }
    } else {
        lemma_lookup_first(fs, k, i);
        if other != k {
            lemma_lookup_same_keys(es, fs, other);
        }
    }
}

/// Inserting keeps the keys distinct, and adds an entry exactly when the key
/// was not bound.
pub proof fn law_insert_keeps_keys_distinct(es: Seq<(Seq<char>, Val)>, k: Seq<char>, v: Val)
    requires
        keys_distinct(es),
    ensures
        keys_distinct(obj_insert(es, k, v)),
        obj_insert(es, k, v).len() == es.len() + (if obj_lookup(es, k) is Some { 0int } else { 1int }),
{
    lemma_obj_index(es, k);
}

/// Merging binds each key of the second object to its value there, and keeps
/// the first object's value for every other key: later values override earlier ones.
pub proof fn law_merge_lookup(a: Seq<(Seq<char>, Val)>, b: Seq<(Seq<char>, Val)>, k: Seq<char>)
    requires
        keys_distinct(b),
    ensures
        obj_lookup(obj_merge(a, b), k) == (match obj_lookup(b, k) {
            Some(v) => Some(v),
            None => obj_lookup(a, k),
        }),
    decreases b.len(),
{
    if b.len() > 0 {
        let t = b.drop_first();
        assert(keys_distinct(t)) by {
            assert forall|i: int, j: int| 0 <= i < j < t.len() implies t[i].0 != t[j].0 by {
                assert(t[i] == b[i + 1] && t[j] == b[j + 1]);
            }
        }
        let a2 = obj_insert(a, b[0].0, b[0].1);
        law_merge_lookup(a2, t, k);
        law_insert_then_lookup(a, b[0].0, b[0].1, k);
        if b[0].0 == k {
            assert forall|i: int| 0 <= i < t.len() implies t[i].0 != k by {
                assert(t[i] == b[i + 1]);
            }
            lemma_lookup_none(t, k);
        }
    }
}

impl ObjectMap {
    pub open spec fn model(&self) -> Seq<(Seq<char>, Val)> {
        entry_models(self.entries@)
    }

}

} // verus!
