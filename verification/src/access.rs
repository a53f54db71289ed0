//! Operations on values: typed access, copying, comparison and object maps.
use vstd::prelude::*;

use crate::error::Error;
use crate::text::str_equal;
use crate::value::{entry_models, kind_name_of, lemma_obj_index, models, obj_index, obj_insert, obj_lookup, truthy, type_error, ObjectMap, Val, Value};

verus! {

broadcast use crate::seq_models::group_value_models;

impl ObjectMap {
    /// An empty map.
    pub fn new() -> (m: ObjectMap)
        ensures
            m.model() == Seq::<(Seq<char>, Val)>::empty(),
    {
        let m = ObjectMap { entries: Vec::new() };
        proof {
            assert(m.model() =~= Seq::<(Seq<char>, Val)>::empty());
        }
        m
    }

    /// The number of bindings.
    pub fn len(&self) -> (n: usize)
        ensures
            n == self.model().len(),
    {
        proof {
        }
        self.entries.len()
    }

    /// The position of the binding of `key`, if any.
    pub fn index_of(&self, key: &str) -> (r: Option<usize>)
        ensures
            match r {
                Some(i) => i == obj_index(self.model(), key@),
                None => obj_index(self.model(), key@) < 0,
            },
    {
            let ghost es = self.model();
        let mut i: usize = 0;
        while i < self.entries.len()
            invariant
                i <= self.entries.len(),
                es == self.model(),
                forall|j: int| 0 <= j < i ==> es[j].0 != key@,
            decreases self.entries.len() - i,
        {
            assert(es[i as int].0 == self.entries@[i as int].0@);
            if str_equal(self.entries[i].0.as_str(), key) {
                proof {
                    lemma_obj_index(es, key@);
                }
                return Some(i);
            }
            i = i + 1;
        }
        proof {
            lemma_obj_index(es, key@);
        }
        None
    }

    /// The value bound to `key`, if any.
    pub fn get(&self, key: &str) -> (r: Option<&Value>)
        ensures
            match r {
                Some(v) => obj_lookup(self.model(), key@) == Some(v.model()),
                None => obj_lookup(self.model(), key@) is None,
            },
    {
            proof {
            lemma_obj_index(self.model(), key@);
        }
        match self.index_of(key) {
            Some(i) => Some(&self.entries[i].1),
            None => None,
        }
    }

    /// Whether `key` is bound.
    pub fn contains_key(&self, key: &str) -> (b: bool)
        ensures
            b == obj_lookup(self.model(), key@) is Some,
    {
        proof {
            lemma_obj_index(self.model(), key@);
        }
        self.index_of(key).is_some()
    }

    /// Binds `key` to `value`, replacing an earlier binding of `key` in place.
    pub fn insert(&mut self, key: String, value: Value)
        ensures
            final(self).model() == obj_insert(old(self).model(), key@, value.model()),
    {
            let ghost es = self.model();
        let ghost k = key@;
        let ghost vm = value.model();
        proof {
            lemma_obj_index(es, k);
        }
        match self.index_of(key.as_str()) {
            Some(i) => {
                self.entries.set(i, (key, value));
                assert(self.model() =~= es.update(i as int, (k, vm)));
            },
            None => {
                self.entries.push((key, value));
                assert(self.model() =~= es.push((k, vm)));
            },
        }
    }

    /// A copy with the same model.
    pub fn deep_copy(&self) -> (r: ObjectMap)
        ensures
            r.model() == self.model(),
        decreases self,
    {
        ObjectMap { entries: copy_entries(&self.entries) }
    }
}

impl Value {
    /// A copy with the same model.
    pub fn deep_copy(&self) -> (r: Value)
        ensures
            r.model() == self.model(),
        decreases self,
    {
        match self {
            Value::Null => Value::Null,
            Value::Bool(b) => Value::Bool(*b),
            Value::Int(i) => Value::Int(*i),
            Value::Float(f) => Value::Float(*f),
            Value::String(s) => Value::String(s.clone()),
            Value::Array(v) => Value::Array(copy_values(v)),
            Value::Object(m) => Value::Object(ObjectMap { entries: copy_entries(&m.entries) }),
        }
    }

    /// Builds an array value.
    pub fn array(items: Vec<Value>) -> (r: Value)
        ensures
            r.model() == Val::Arr(models(items@)),
    {
        Value::Array(items)
    }

    /// Builds an object value.
    pub fn object(map: ObjectMap) -> (r: Value)
        ensures
            r.model() == Val::Obj(map.model()),
    {
        Value::Object(map)
    }

    /// The name of this value's type.
    pub fn kind_name(&self) -> (s: String)
        ensures
            s@ == kind_name_of(self.model()),
    {
        match self {
            Value::Null => String::from_str("null"),
            Value::Bool(_) => String::from_str("bool"),
            Value::Int(_) => String::from_str("int"),
            Value::Float(_) => String::from_str("float"),
            Value::String(_) => String::from_str("string"),
            Value::Array(_) => String::from_str("array"),
            Value::Object(_) => String::from_str("object"),
        }
    }

    /// Whether this value counts as true.
    pub fn is_truthy(&self) -> (b: bool)
        ensures
            b == truthy(self.model()),
    {
        proof {
        }
        match self {
            Value::Null => false,
            Value::Bool(b) => *b,
            Value::Int(i) => *i != 0,
            Value::Float(f) => *f & 0x7fff_ffff_ffff_ffffu64 != 0,
            Value::String(s) => s.as_str().unicode_len() > 0,
            Value::Array(a) => a.len() > 0,
            Value::Object(o) => o.entries.len() > 0,
        }
    }

    /// The integer held, or a type error.
    pub fn as_int(&self) -> (r: Result<i64, Error>)
        ensures
            match self.model() {
                Val::Int(i) => r matches Ok(j) && j == i,
                _ => r matches Err(e) && e@ == type_error("int"@, self.model()),
            },
    {
        match self {
            Value::Int(i) => Ok(*i),
            _ => Err(Error::TypeError { expected: String::from_str("int"), got: self.kind_name() }),
        }
    }

    /// The boolean held, or a type error.
    pub fn as_bool(&self) -> (r: Result<bool, Error>)
        ensures
            match self.model() {
                Val::Bool(b) => r matches Ok(c) && c == b,
                _ => r matches Err(e) && e@ == type_error("bool"@, self.model()),
            },
    {
        match self {
            Value::Bool(b) => Ok(*b),
            _ => Err(Error::TypeError { expected: String::from_str("bool"), got: self.kind_name() }),
        }
    }

    /// The string held, or a type error.
    pub fn as_string(&self) -> (r: Result<&str, Error>)
        ensures
            match self.model() {
                Val::Str(s) => r matches Ok(t) && t@ == s,
                _ => r matches Err(e) && e@ == type_error("string"@, self.model()),
            },
    {
        match self {
            Value::String(s) => Ok(s.as_str()),
            _ => Err(Error::TypeError { expected: String::from_str("string"), got: self.kind_name() }),
        }
    }

    /// The elements held, or a type error.
    pub fn as_array(&self) -> (r: Result<&Vec<Value>, Error>)
        ensures
            match self.model() {
                Val::Arr(a) => r matches Ok(v) && models(v@) == a,
                _ => r matches Err(e) && e@ == type_error("array"@, self.model()),
            },
    {
        match self {
            Value::Array(v) => Ok(v),
            _ => Err(Error::TypeError { expected: String::from_str("array"), got: self.kind_name() }),
        }
    }

    /// The map held, or a type error.
    pub fn as_object(&self) -> (r: Result<&ObjectMap, Error>)
        ensures
            match self.model() {
                Val::Obj(o) => r matches Ok(m) && m.model() == o,
                _ => r matches Err(e) && e@ == type_error("object"@, self.model()),
            },
    {
        match self {
            Value::Object(m) => Ok(m),
            _ => Err(Error::TypeError { expected: String::from_str("object"), got: self.kind_name() }),
        }
    }
}

impl Clone for Value {
    fn clone(&self) -> (r: Value)
        ensures
            r.model() == self.model(),
    {
        self.deep_copy()
    }
}

impl Clone for ObjectMap {
    fn clone(&self) -> (r: ObjectMap)
        ensures
            r.model() == self.model(),
    {
        self.deep_copy()
    }
}

/// Copies of the values, one by one.
pub fn copy_values(v: &Vec<Value>) -> (r: Vec<Value>)
    ensures
        models(r@) == models(v@),
    decreases v,
{
    let mut out: Vec<Value> = Vec::new();
    let mut i: usize = 0;
    while i < v.len()
        invariant
            i <= v.len(),
            out@.len() == i,
            forall|j: int| 0 <= j < i ==> #[trigger] out@[j].model() == v@[j].model(),
        decreases v.len() - i,
    {
        proof {
            vstd::std_specs::vec::axiom_vec_index_decreases(*v, i as int);
        }
        let c = v[i].deep_copy();
        out.push(c);
        i = i + 1;
    }
    assert(models(out@) =~= models(v@));
    out
}

/// Copies of the entries, one by one.
pub fn copy_entries(v: &Vec<(String, Value)>) -> (r: Vec<(String, Value)>)
    ensures
        entry_models(r@) == entry_models(v@),
    decreases v,
{
    let mut out: Vec<(String, Value)> = Vec::new();
    let mut i: usize = 0;
    while i < v.len()
        invariant
            i <= v.len(),
            out@.len() == i,
            forall|j: int|
                0 <= j < i ==> #[trigger] out@[j].0@ == v@[j].0@ && out@[j].1.model() == v@[j].1.model(),
        decreases v.len() - i,
    {
        proof {
            vstd::std_specs::vec::axiom_vec_index_decreases(*v, i as int);
        }
        let k = v[i].0.clone();
        let c = v[i].1.deep_copy();
        out.push((k, c));
        i = i + 1;
    }
    assert(entry_models(out@) =~= entry_models(v@));
    out
}

/// Copies of the values of a slice, one by one.
pub fn copy_slice(v: &[Value]) -> (r: Vec<Value>)
    ensures
        models(r@) == models(v@),
{
    let mut out: Vec<Value> = Vec::new();
    let mut i: usize = 0;
    while i < v.len()
        invariant
            i <= v@.len(),
            out@.len() == i,
            forall|j: int| 0 <= j < i ==> #[trigger] out@[j].model() == v@[j].model(),
        decreases v.len() - i,
    {
        let c = v[i].deep_copy();
        out.push(c);
        i = i + 1;
    }
    assert(models(out@) =~= models(v@));
    out
}

/// Copies of the values in `v[from..to]`.
pub fn copy_range(v: &Vec<Value>, from: usize, to: usize) -> (r: Vec<Value>)
    requires
        from <= to <= v.len(),
    ensures
        models(r@) == models(v@).subrange(from as int, to as int),
{
    let mut out: Vec<Value> = Vec::new();
    let mut i: usize = from;
    while i < to
        invariant
            from <= i <= to <= v.len(),
            out@.len() == i - from,
            forall|j: int| 0 <= j < i - from ==> #[trigger] out@[j].model() == v@[j + from].model(),
        decreases to - i,
    {
        let c = v[i].deep_copy();
        out.push(c);
        i = i + 1;
    }
    assert(models(out@) =~= models(v@).subrange(from as int, to as int));
    out
}

/// Whether two values have the same model.
pub fn values_equal(a: &Value, b: &Value) -> (r: bool)
    ensures
        r == (a.model() == b.model()),
    decreases a,
{
    match (a, b) {
        (Value::Null, Value::Null) => true,
        (Value::Bool(x), Value::Bool(y)) => *x == *y,
        (Value::Int(x), Value::Int(y)) => *x == *y,
        (Value::Float(x), Value::Float(y)) => *x == *y,
        (Value::String(x), Value::String(y)) => str_equal(x.as_str(), y.as_str()),
        (Value::Array(x), Value::Array(y)) => vecs_equal(x, y),
        (Value::Object(x), Value::Object(y)) => entries_equal(&x.entries, &y.entries),
        _ => false,
    }
}

/// Whether two sequences of values have the same models.
pub fn vecs_equal(x: &Vec<Value>, y: &Vec<Value>) -> (r: bool)
    ensures
        r == (models(x@) == models(y@)),
    decreases x,
{
    if x.len() != y.len() {
        assert(models(x@).len() != models(y@).len());
        return false;
    }
    let mut i: usize = 0;
    while i < x.len()
        invariant
            i <= x.len() == y.len(),
            forall|j: int| 0 <= j < i ==> #[trigger] x@[j].model() == y@[j].model(),
        decreases x.len() - i,
    {
        proof {
            vstd::std_specs::vec::axiom_vec_index_decreases(*x, i as int);
        }
        assert(models(x@)[i as int] == x@[i as int].model());
        assert(models(y@)[i as int] == y@[i as int].model());
        if !values_equal(&x[i], &y[i]) {
            return false;
        }
        i = i + 1;
    }
    assert(models(x@) =~= models(y@));
    true
}

/// Whether two sequences of entries have the same models.
pub fn entries_equal(x: &Vec<(String, Value)>, y: &Vec<(String, Value)>) -> (r: bool)
    ensures
        r == (entry_models(x@) == entry_models(y@)),
    decreases x,
{
    if x.len() != y.len() {
        assert(entry_models(x@).len() != entry_models(y@).len());
        return false;
    }
    let mut i: usize = 0;
    while i < x.len()
        invariant
            i <= x.len() == y.len(),
            forall|j: int| 0 <= j < i ==> #[trigger] entry_models(x@)[j] == entry_models(y@)[j],
        decreases x.len() - i,
    {
        proof {
            vstd::std_specs::vec::axiom_vec_index_decreases(*x, i as int);
        }
        assert(entry_models(x@)[i as int] == (x@[i as int].0@, x@[i as int].1.model()));
        assert(entry_models(y@)[i as int] == (y@[i as int].0@, y@[i as int].1.model()));
        if !str_equal(x[i].0.as_str(), y[i].0.as_str()) {
            assert(entry_models(x@)[i as int] != entry_models(y@)[i as int]);
            return false;
        }
        if !values_equal(&x[i].1, &y[i].1) {
            assert(entry_models(x@)[i as int] != entry_models(y@)[i as int]);
            return false;
        }
        i = i + 1;
    }
    assert(entry_models(x@) =~= entry_models(y@));
    true
}

} // verus!
