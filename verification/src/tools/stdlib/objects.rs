//! Object manipulation tools
use vstd::prelude::*;

#[allow(unused_imports)]
use crate::access::{copy_range, copy_slice, copy_values, values_equal};
#[allow(unused_imports)]
use crate::error::{empty_collection, exec_error, invalid_args, ErrV, Error};
#[allow(unused_imports)]
use crate::text::{alphabetic, alphanumeric, char_from_u32, char_is_alphabetic, char_is_alphanumeric, char_is_lowercase, char_is_uppercase, char_is_whitespace, char_string, char_to_lowercase, char_to_uppercase, chars_of, chars_skip, concat, i64_to_string, int_decimal, lower_case, lower_chars, lowercase, owned, scalar_value, seq_less, str_equal, str_less, string_from_chars, to_lower, to_upper, upper_case, upper_chars, uppercase, whitespace};
#[allow(unused_imports)]
use crate::tools::{bad_args, name_insert, outcome, ref_outcome, string_views, yields, Tool, ToolRegistry};
#[allow(unused_imports)]
use crate::value::{and_then, elems, entry_models, int_of, models, obj_insert, obj_keys, obj_lookup, obj_merge, obj_of, obj_values, str_of, truthy, type_error, ObjectMap, Val, Value};

verus! {

broadcast use crate::seq_models::group_value_models;

/// The names after registering this module's tools, in order.
pub open spec fn registered_names(ns: Seq<Seq<char>>) -> Seq<Seq<char>> {
    let ns = name_insert(ns, "KEYS"@);
    let ns = name_insert(ns, "VALUES"@);
    let ns = name_insert(ns, "GET"@);
    let ns = name_insert(ns, "ASSOC"@);
    let ns = name_insert(ns, "HAS_KEY"@);
    let ns = name_insert(ns, "MERGE"@);
    ns
}

/// Register the tools of this module.
pub fn register(registry: &mut ToolRegistry)
    ensures
        final(registry).names() == registered_names(old(registry).names()),
{
    registry.register(KeysTool);
    registry.register(ValuesTool);
    registry.register(GetTool);
    registry.register(AssocTool);
    registry.register(HasKeyTool);
    registry.register(MergeTool);
}

/// Tool for getting all keys from an object
pub struct KeysTool;

impl Tool for KeysTool {
    open spec fn names_itself(&self) -> bool {
        true
    }

    open spec fn spec_name(&self) -> Seq<char> {
        "KEYS"@
    }

    open spec fn admits(&self, args: Seq<Val>) -> bool {
        true
    }

    fn name(&self) -> &str {
        "KEYS"
    }

    fn description(&self) -> (r: &str)
        ensures
            r@ == "Get all keys from an object as an array"@,
    {
        "Get all keys from an object as an array"
    }

    fn execute(&self, args: &[Value]) -> (r: Result<Value, Error>)
        ensures
            outcome(r) == (if args@.len() != 1 {
                bad_args("KEYS"@, "Expected 1 argument (object)"@)
            } else {
                match args@[0].model() {
                    Val::Obj(es) => yields(Val::Arr(obj_keys(es))),
                    _ => bad_args("KEYS"@, "Expected object, got other type"@),
                }
            }),
    {
        if args.len() != 1 {
            return Err(invalid_args("KEYS", "Expected 1 argument (object)"));
        }
        match &args[0] {
            Value::Object(map) => {
                let mut keys: Vec<Value> = Vec::new();
                let mut i: usize = 0;
                while i < map.entries.len()
                    invariant
                        i <= map.entries@.len(),
                        keys@.len() == i,
                        forall|j: int| 0 <= j < i ==> #[trigger] keys@[j].model() == obj_keys(map.model())[j],
                    decreases map.entries.len() - i,
                {
                    keys.push(Value::String(map.entries[i].0.clone()));
                    i = i + 1;
                }
                assert(models(keys@) =~= obj_keys(map.model()));
                Ok(Value::array(keys))
            },
            _ => Err(invalid_args("KEYS", "Expected object, got other type")),
        }
    }
}

/// Tool for getting all values from an object
pub struct ValuesTool;

impl Tool for ValuesTool {
    open spec fn names_itself(&self) -> bool {
        true
    }

    open spec fn spec_name(&self) -> Seq<char> {
        "VALUES"@
    }

    open spec fn admits(&self, args: Seq<Val>) -> bool {
        true
    }

    fn name(&self) -> &str {
        "VALUES"
    }

    fn description(&self) -> (r: &str)
        ensures
            r@ == "Get all values from an object as an array"@,
    {
        "Get all values from an object as an array"
    }

    fn execute(&self, args: &[Value]) -> (r: Result<Value, Error>)
        ensures
            outcome(r) == (if args@.len() != 1 {
                bad_args("VALUES"@, "Expected 1 argument (object)"@)
            } else {
                match args@[0].model() {
                    Val::Obj(es) => yields(Val::Arr(obj_values(es))),
                    _ => bad_args("VALUES"@, "Expected object, got other type"@),
                }
            }),
    {
        if args.len() != 1 {
            return Err(invalid_args("VALUES", "Expected 1 argument (object)"));
        }
        match &args[0] {
            Value::Object(map) => {
                let mut values: Vec<Value> = Vec::new();
                let mut i: usize = 0;
                while i < map.entries.len()
                    invariant
                        i <= map.entries@.len(),
                        values@.len() == i,
                        forall|j: int| 0 <= j < i ==> #[trigger] values@[j].model() == obj_values(map.model())[j],
                    decreases map.entries.len() - i,
                {
                    values.push(map.entries[i].1.clone());
                    i = i + 1;
                }
                assert(models(values@) =~= obj_values(map.model()));
                Ok(Value::array(values))
            },
            _ => Err(invalid_args("VALUES", "Expected object, got other type")),
        }
    }
}

/// Tool for getting a value from an object by key
pub struct GetTool;

impl Tool for GetTool {
    open spec fn names_itself(&self) -> bool {
        true
    }

    open spec fn spec_name(&self) -> Seq<char> {
        "GET"@
    }

    open spec fn admits(&self, args: Seq<Val>) -> bool {
        true
    }

    fn name(&self) -> &str {
        "GET"
    }

    fn description(&self) -> (r: &str)
        ensures
            r@ == "Get value from object by key, returns null if key doesn't exist"@,
    {
        "Get value from object by key, returns null if key doesn't exist"
    }

    fn execute(&self, args: &[Value]) -> (r: Result<Value, Error>)
        ensures
            outcome(r) == (if args@.len() != 2 {
                bad_args("GET"@, "Expected 2 arguments (object, key)"@)
            } else {
                match (args@[0].model(), args@[1].model()) {
                    (Val::Obj(es), Val::Str(k)) => yields(
                        match obj_lookup(es, k) {
                            Some(v) => v,
                            None => Val::Null,
                        },
                    ),
                    (Val::Obj(_), _) => bad_args("GET"@, "Second argument must be a string (key)"@),
                    _ => bad_args("GET"@, "First argument must be an object"@),
                }
            }),
    {
        if args.len() != 2 {
            return Err(invalid_args("GET", "Expected 2 arguments (object, key)"));
        }
        let map = match &args[0] {
            Value::Object(m) => m,
            _ => {
                return Err(invalid_args("GET", "First argument must be an object"));
            },
        };
        let key = match &args[1] {
            Value::String(s) => s,
            _ => {
                return Err(invalid_args("GET", "Second argument must be a string (key)"));
            },
        };
        match map.get(key.as_str()) {
            Some(v) => Ok(v.clone()),
            None => Ok(Value::Null),
        }
    }
}

/// Tool for associating a new key-value pair in an object (returns new object)
pub struct AssocTool;

impl Tool for AssocTool {
    open spec fn names_itself(&self) -> bool {
        true
    }

    open spec fn spec_name(&self) -> Seq<char> {
        "ASSOC"@
    }

    open spec fn admits(&self, args: Seq<Val>) -> bool {
        true
    }

    fn name(&self) -> &str {
        "ASSOC"
    }

    fn description(&self) -> (r: &str)
        ensures
            r@ == "Associate a key-value pair in object, returns new object"@,
    {
        "Associate a key-value pair in object, returns new object"
    }

    fn execute(&self, args: &[Value]) -> (r: Result<Value, Error>)
        ensures
            outcome(r) == (if args@.len() != 3 {
                bad_args("ASSOC"@, "Expected 3 arguments (object, key, value)"@)
            } else {
                match (args@[0].model(), args@[1].model()) {
                    (Val::Obj(es), Val::Str(k)) => yields(Val::Obj(obj_insert(es, k, args@[2].model()))),
                    (Val::Obj(_), _) => bad_args("ASSOC"@, "Second argument must be a string (key)"@),
                    _ => bad_args("ASSOC"@, "First argument must be an object"@),
                }
            }),
    {
        if args.len() != 3 {
            return Err(invalid_args("ASSOC", "Expected 3 arguments (object, key, value)"));
        }
        let map = match &args[0] {
            Value::Object(m) => m.clone(),
            _ => {
                return Err(invalid_args("ASSOC", "First argument must be an object"));
            },
        };
        let key = match &args[1] {
            Value::String(s) => s.clone(),
            _ => {
                return Err(invalid_args("ASSOC", "Second argument must be a string (key)"));
            },
        };
        let value = args[2].clone();
        let mut new_map = map;
        new_map.insert(key, value);
        Ok(Value::object(new_map))
    }
}

/// Tool for checking if object has a key
pub struct HasKeyTool;

impl Tool for HasKeyTool {
    open spec fn names_itself(&self) -> bool {
        true
    }

    open spec fn spec_name(&self) -> Seq<char> {
        "HAS_KEY"@
    }

    open spec fn admits(&self, args: Seq<Val>) -> bool {
        true
    }

    fn name(&self) -> &str {
        "HAS_KEY"
    }

    fn description(&self) -> (r: &str)
        ensures
            r@ == "Check if object has a given key"@,
    {
        "Check if object has a given key"
    }

    fn execute(&self, args: &[Value]) -> (r: Result<Value, Error>)
        ensures
            outcome(r) == (if args@.len() != 2 {
                bad_args("HAS_KEY"@, "Expected 2 arguments (object, key)"@)
            } else {
                match (args@[0].model(), args@[1].model()) {
                    (Val::Obj(es), Val::Str(k)) => yields(Val::Bool(obj_lookup(es, k) is Some)),
                    (Val::Obj(_), _) => bad_args("HAS_KEY"@, "Second argument must be a string (key)"@),
                    _ => bad_args("HAS_KEY"@, "First argument must be an object"@),
                }
            }),
    {
        if args.len() != 2 {
            return Err(invalid_args("HAS_KEY", "Expected 2 arguments (object, key)"));
        }
        let map = match &args[0] {
            Value::Object(m) => m,
            _ => {
                return Err(invalid_args("HAS_KEY", "First argument must be an object"));
            },
        };
        let key = match &args[1] {
            Value::String(s) => s,
            _ => {
                return Err(invalid_args("HAS_KEY", "Second argument must be a string (key)"));
            },
        };
        Ok(Value::Bool(map.contains_key(key.as_str())))
    }
}

/// Tool for merging two objects (second object's keys override first)
pub struct MergeTool;

impl Tool for MergeTool {
    open spec fn names_itself(&self) -> bool {
        true
    }

    open spec fn spec_name(&self) -> Seq<char> {
        "MERGE"@
    }

    open spec fn admits(&self, args: Seq<Val>) -> bool {
        true
    }

    fn name(&self) -> &str {
        "MERGE"
    }

    fn description(&self) -> (r: &str)
        ensures
            r@ == "Merge two objects, second object's keys override first"@,
    {
        "Merge two objects, second object's keys override first"
    }

    fn execute(&self, args: &[Value]) -> (r: Result<Value, Error>)
        ensures
            outcome(r) == (if args@.len() != 2 {
                bad_args("MERGE"@, "Expected 2 arguments (object1, object2)"@)
            } else {
                match (args@[0].model(), args@[1].model()) {
                    (Val::Obj(a), Val::Obj(b)) => yields(Val::Obj(obj_merge(a, b))),
                    (Val::Obj(_), _) => bad_args("MERGE"@, "Second argument must be an object"@),
                    _ => bad_args("MERGE"@, "First argument must be an object"@),
                }
            }),
    {
        if args.len() != 2 {
            return Err(invalid_args("MERGE", "Expected 2 arguments (object1, object2)"));
        }
        let map1 = match &args[0] {
            Value::Object(m) => m.clone(),
            _ => {
                return Err(invalid_args("MERGE", "First argument must be an object"));
            },
        };
        let map2 = match &args[1] {
            Value::Object(m) => m,
            _ => {
                return Err(invalid_args("MERGE", "Second argument must be an object"));
            },
        };
        let mut result = map1;
        Ok(Value::object(merge_into(result, map2)))
    }
}

/// `base` with every binding of `other` inserted in turn.
pub fn merge_into(base: ObjectMap, other: &ObjectMap) -> (r: ObjectMap)
    ensures
        r.model() == obj_merge(base.model(), other.model()),
{
    let mut result = base;
    let ghost b = other.model();
    let ghost a0 = result.model();
    let mut i: usize = 0;
    assert(b.skip(0) =~= b);
    while i < other.entries.len()
        invariant
            i <= other.entries@.len(),
            b == other.model(),
            obj_merge(a0, b) == obj_merge(result.model(), b.skip(i as int)),
        decreases other.entries.len() - i,
    {
        let k = other.entries[i].0.clone();
        let v = other.entries[i].1.clone();
        assert(b.skip(i as int).drop_first() =~= b.skip(i + 1));
        assert(b.skip(i as int)[0] == (k@, v.model()));
        result.insert(k, v);
        i = i + 1;
    }
    assert(b.skip(i as int) =~= Seq::<(Seq<char>, Val)>::empty());
    result
}
} // verus!
