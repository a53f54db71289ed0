//! Tool system: the tool interface, argument bundles and the registry of tools.
pub mod stdlib;

use vstd::prelude::*;

use crate::error::{ErrV, Error};
use crate::text::{lemma_seq_less_total, lemma_seq_less_transitive, decimal, i64_to_string, lowercase, owned, seq_less, str_equal, str_less, to_lower, u64_to_string};
use crate::value::{models, obj_lookup, ObjectMap, Val, Value};

verus! {

broadcast use crate::seq_models::group_value_models;

/// A tool callable from the interpreter.
pub trait Tool: Send + Sync {
    /// Whether `spec_name` is the name that `name` returns. Every tool of this
    /// library says so; an implementation written outside `verus!` cannot
    /// define spec functions and keeps this default, which promises nothing.
    open spec fn names_itself(&self) -> bool {
        false
    }

    /// The name that `name` returns, for a tool that names itself.
    open spec fn spec_name(&self) -> Seq<char> {
        Seq::empty()
    }

    /// The argument lists on which `execute` is defined.
    open spec fn admits(&self, args: Seq<Val>) -> bool {
        true
    }

    /// Tool name
    fn name(&self) -> (r: &str)
        ensures
            self.names_itself() ==> r@ == self.spec_name(),
    ;

    /// Tool description
    fn description(&self) -> &str;

    /// Execute the tool
    fn execute(&self, args: &[Value]) -> Result<Value, Error>
        requires
            self.admits(models(args@)),
    ;

    /// Number of arguments the tool takes; `None` when it is variadic.
    fn arity(&self) -> (r: Option<usize>)
        default_ensures
            r is None,
    {
        None
    }
}

/// The model of a tool's result.
pub open spec fn outcome(r: Result<Value, Error>) -> Result<Val, ErrV> {
    match r {
        Ok(v) => Ok(v.model()),
        Err(e) => Err(e@),
    }
}

/// The model of a borrowed result.
pub open spec fn ref_outcome(r: Result<&Value, Error>) -> Result<Val, ErrV> {
    match r {
        Ok(v) => Ok(v.model()),
        Err(e) => Err(e@),
    }
}

/// The result of a tool that returns `v`.
pub open spec fn yields(v: Val) -> Result<Val, ErrV> {
    Ok(v)
}

/// The result of a tool that rejects its arguments.
pub open spec fn bad_args(tool: Seq<char>, reason: Seq<char>) -> Result<Val, ErrV> {
    Err(ErrV::InvalidArguments { tool, reason })
}

/// Tool arguments (positional and named)
pub struct ToolArguments {
    /// Positional arguments passed to the tool
    pub positional: Vec<Value>,
    /// Named arguments passed to the tool (key-value pairs)
    pub named: ObjectMap,
}

/// The error for a positional argument that is missing.
pub open spec fn missing_positional(index: nat) -> ErrV {
    ErrV::InvalidArguments {
        tool: "unknown"@,
        reason: "Missing positional argument at index "@ + decimal(index),
    }
}

/// The error for a named argument that is missing.
pub open spec fn missing_named(name: Seq<char>) -> ErrV {
    ErrV::InvalidArguments { tool: "unknown"@, reason: "Missing named argument: "@ + name }
}

impl ToolArguments {
    /// Creates a new empty ToolArguments
    pub fn new() -> (a: ToolArguments)
        ensures
            a.positional@.len() == 0,
            a.named.model().len() == 0,
    {
        ToolArguments { positional: Vec::new(), named: ObjectMap::new() }
    }

    /// Creates ToolArguments from a vector of positional arguments
    pub fn from_positional(args: Vec<Value>) -> (a: ToolArguments)
        ensures
            a.positional@ == args@,
            a.named.model().len() == 0,
    {
        ToolArguments { positional: args, named: ObjectMap::new() }
    }

    /// Get positional argument by index
    pub fn get_positional(&self, index: usize) -> (r: Result<&Value, Error>)
        ensures
            index < self.positional@.len() ==> (r matches Ok(v) && v.model()
                == self.positional@[index as int].model()),
            index >= self.positional@.len() ==> (r matches Err(e) && e@ == missing_positional(
                index as nat,
            )),
    {
        if index < self.positional.len() {
            Ok(&self.positional[index])
        } else {
            let mut reason = owned("Missing positional argument at index ");
            let n = u64_to_string(index as u64);
            reason.append(n.as_str());
            Err(Error::InvalidArguments { tool: owned("unknown"), reason })
        }
    }

    /// Get named argument
    pub fn get_named(&self, name: &str) -> (r: Result<&Value, Error>)
        ensures
            match obj_lookup(self.named.model(), name@) {
                Some(v) => r matches Ok(w) && w.model() == v,
                None => r matches Err(e) && e@ == missing_named(name@),
            },
    {
        match self.named.get(name) {
            Some(v) => Ok(v),
            None => {
                let mut reason = owned("Missing named argument: ");
                reason.append(name);
                Err(Error::InvalidArguments { tool: owned("unknown"), reason })
            },
        }
    }

    /// Get named argument with fallback to positional
    pub fn get_arg(&self, name: &str, index: usize) -> (r: Result<&Value, Error>)
        ensures
            match obj_lookup(self.named.model(), name@) {
                Some(v) => r matches Ok(w) && w.model() == v,
                None => {
                    &&& index < self.positional@.len() ==> (r matches Ok(v) && v.model()
                        == self.positional@[index as int].model())
                    &&& index >= self.positional@.len() ==> (r matches Err(e) && e@
                        == missing_positional(index as nat))
                },
            },
    {
        if let Some(val) = self.named.get(name) {
            Ok(val)
        } else {
            self.get_positional(index)
        }
    }

    /// Try to get named argument or positional
    pub fn try_get_arg(&self, name: &str, index: usize) -> (r: Option<&Value>)
        ensures
            match obj_lookup(self.named.model(), name@) {
                Some(v) => r matches Some(w) && w.model() == v,
                None => {
                    &&& index < self.positional@.len() ==> (r matches Some(v) && v.model()
                        == self.positional@[index as int].model())
                    &&& index >= self.positional@.len() ==> r is None
                },
            },
    {
        match self.named.get(name) {
            Some(v) => Some(v),
            None => {
                if index < self.positional.len() {
                    Some(&self.positional[index])
                } else {
                    None
                }
            },
        }
    }
}

impl Default for ToolArguments {
    fn default() -> (a: ToolArguments)
        ensures
            a.positional@.len() == 0,
            a.named.model().len() == 0,
    {
        Self::new()
    }
}

/// No name occurs twice.
pub open spec fn names_distinct(ns: Seq<Seq<char>>) -> bool {
    forall|i: int, j: int| 0 <= i < j < ns.len() ==> ns[i] != ns[j]
}

/// Names after registering `n`: a registered name keeps its place, a new one is appended.
pub open spec fn name_insert(ns: Seq<Seq<char>>, n: Seq<char>) -> Seq<Seq<char>> {
    if ns.contains(n) {
        ns
    } else {
        ns.push(n)
    }
}

/// Registering a tool makes its name known: the name is then registered,
/// every name registered before still is, names stay distinct, and the count
/// grows by one exactly when the name was new (a second registration under
/// the same name replaces the first).
pub proof fn law_register_then_found(ns: Seq<Seq<char>>, n: Seq<char>)
    ensures
        name_insert(ns, n).contains(n),
        forall|m: Seq<char>| ns.contains(m) ==> #[trigger] name_insert(ns, n).contains(m),
        name_insert(ns, n).len() == (if ns.contains(n) { ns.len() } else { ns.len() + 1 }),
        names_distinct(ns) ==> names_distinct(name_insert(ns, n)),
{
    if !ns.contains(n) {
        assert(ns.push(n)[ns.len() as int] == n);
        assert forall|m: Seq<char>| ns.contains(m) implies #[trigger] ns.push(n).contains(m) by {
            let i = choose|i: int| 0 <= i < ns.len() && ns[i] == m;
            assert(ns.push(n)[i] == m);
        }
    }
}

/// Strictly increasing in code-point order.
pub open spec fn strictly_sorted(ns: Seq<Seq<char>>) -> bool {
    forall|i: int, j: int| 0 <= i < j < ns.len() ==> seq_less(ns[i], ns[j])
}

/// The views of a sequence of strings.
pub open spec fn string_views(v: Seq<String>) -> Seq<Seq<char>> {
    Seq::new(v.len(), |i: int| v[i]@)
}

/// The tools held by a registry, in registration order. Verus cannot reason
/// about a `Vec` of trait objects, so the vector is kept behind this type.
#[verifier::external_body]
pub struct ToolShelf {
    items: Vec<Box<dyn Tool>>,
}

/// What is known of a tool's name: its `spec_name` when the tool names itself.
pub open spec fn known_name(names_itself: bool, name: Seq<char>) -> Option<Seq<char>> {
    if names_itself {
        Some(name)
    } else {
        None
    }
}

/// For each tool on a shelf, in order, what is known of its name.
pub uninterp spec fn shelf_names(s: &ToolShelf) -> Seq<Option<Seq<char>>>;

impl ToolShelf {
    /// std's `Vec::new`: an empty shelf.
    #[verifier::external_body]
    fn new() -> (s: ToolShelf)
        ensures
            shelf_names(&s) == Seq::<Option<Seq<char>>>::empty(),
    {
        ToolShelf { items: Vec::new() }
    }

    /// std's `Vec::push`, of the tool moved into a `Box`: the tool is appended.
    #[verifier::external_body]
    fn push<T: Tool + 'static>(&mut self, t: T)
        ensures
            shelf_names(final(self)) == shelf_names(old(self)).push(known_name(t.names_itself(), t.spec_name())),
    {
        self.items.push(Box::new(t))
    }

    /// std's `IndexMut` of `Vec`, with the tool moved into a `Box`: the tool
    /// at `i` is replaced and the others stay.
    #[verifier::external_body]
    fn replace<T: Tool + 'static>(&mut self, i: usize, t: T)
        requires
            i < shelf_names(old(self)).len(),
        ensures
            shelf_names(final(self)) == shelf_names(old(self)).update(
                i as int,
                known_name(t.names_itself(), t.spec_name()),
            ),
    {
        self.items[i] = Box::new(t)
    }

    /// std's `Index` of `Vec`: the tool at `i`.
    #[verifier::external_body]
    fn get(&self, i: usize) -> (t: &Box<dyn Tool>)
        requires
            i < shelf_names(self).len(),
        ensures
            known_name(t.names_itself(), t.spec_name()) == shelf_names(self)[i as int],
    {
        &self.items[i]
    }
}

/// Tool registry
pub struct ToolRegistry {
    names: Vec<String>,
    tools: ToolShelf,
}

impl ToolRegistry {
    /// The names of the registered tools, in registration order; a tool that
    /// names itself is stored under its own name.
    pub closed spec fn names(&self) -> Seq<Seq<char>> {
        string_views(self.names@)
    }

    #[verifier::type_invariant]
    closed spec fn well_formed(&self) -> bool {
        &&& names_distinct(string_views(self.names@))
        &&& shelf_names(&self.tools).len() == self.names@.len()
        &&& forall|i: int|
            0 <= i < self.names@.len() ==> (#[trigger] shelf_names(&self.tools)[i] matches Some(n) ==> n
                == self.names@[i]@)
    }

    /// Create new registry with standard library
    pub fn new() -> (r: ToolRegistry)
        ensures
            r.names() == Seq::<Seq<char>>::empty(),
    {
        let names: Vec<String> = Vec::new();
        assert(string_views(names@) =~= Seq::<Seq<char>>::empty());
        let mut registry = ToolRegistry { names, tools: ToolShelf::new() };
        stdlib::register_all(&mut registry);
        registry
    }

    /// Create empty registry (for testing)
    pub fn empty() -> (r: ToolRegistry)
        ensures
            r.names() == Seq::<Seq<char>>::empty(),
    {
        let names: Vec<String> = Vec::new();
        assert(string_views(names@) =~= Seq::<Seq<char>>::empty());
        ToolRegistry { names, tools: ToolShelf::new() }
    }

    fn position(&self, name: &str) -> (r: Option<usize>)
        ensures
            match r {
                Some(i) => i < self.names().len() && self.names()[i as int] == name@,
                None => !self.names().contains(name@),
            },
    {
        let mut i: usize = 0;
        while i < self.names.len()
            invariant
                i <= self.names@.len(),
                forall|j: int| 0 <= j < i ==> string_views(self.names@)[j] != name@,
            decreases self.names.len() - i,
        {
            if str_equal(self.names[i].as_str(), name) {
                return Some(i);
            }
            i = i + 1;
        }
        None
    }

    /// Register a tool under the name its `name` returns; a tool registered
    /// before under that name is replaced, and the other names stay registered.
    pub fn register<T: Tool + 'static>(&mut self, tool: T)
        ensures
            exists|n: Seq<char>| final(self).names() == name_insert(old(self).names(), n),
            tool.names_itself() ==> final(self).names() == name_insert(old(self).names(), tool.spec_name()),
    {
        let name = owned(tool.name());
        self.place(name, tool);
    }

    /// Stores `tool` under `name`, in place of the tool registered under it.
    pub(crate) fn place<T: Tool + 'static>(&mut self, name: String, tool: T)
        requires
            tool.names_itself() ==> tool.spec_name() == name@,
        ensures
            final(self).names() == name_insert(old(self).names(), name@),
    {
        proof {
            use_type_invariant(&*self);
        }
        let ghost n = name@;
        let pos = self.position(name.as_str());
        let mut taken = ToolRegistry::empty();
        std::mem::swap(&mut taken, self);
        proof {
            use_type_invariant(&taken);
        }
        let ghost old_names = string_views(taken.names@);
        let ToolRegistry { mut names, mut tools } = taken;
        match pos {
            Some(i) => {
                tools.replace(i, tool);
                assert(old_names.update(i as int, n) =~= old_names);
            },
            None => {
                names.push(name);
                tools.push(tool);
                assert(string_views(names@) =~= old_names.push(n));
            },
        }
        *self = ToolRegistry { names, tools };
    }

}

impl ToolRegistry {
    /// Get tool by name: the tool registered under exactly that name, else one
    /// whose name matches it case-insensitively.
    pub fn get(&self, name: &str) -> (r: Result<&Box<dyn Tool>, Error>)
        ensures
            r is Ok <==> (self.names().contains(name@) || exists|i: int|
                0 <= i < self.names().len() && #[trigger] lowercase(self.names()[i]) == lowercase(
                    name@,
                )),
            r matches Ok(t) ==> (t.names_itself() && self.names().contains(name@) ==> t.spec_name()
                == name@),
            r matches Ok(t) ==> (t.names_itself() && !self.names().contains(name@)
                ==> self.names().contains(t.spec_name()) && lowercase(t.spec_name()) == lowercase(
                name@,
            )),
            r matches Err(e) ==> e@ == (ErrV::UndefinedTool { name: name@ }),
    {
        proof {
            use_type_invariant(self);
        }
        // Try exact match first
        if let Some(i) = self.position(name) {
            let b = self.tools.get(i);
            assert(shelf_names(&self.tools)[i as int] matches Some(n) ==> n == self.names@[i as int]@);
            return Ok(b);
        }
        // Try case-insensitive match
        let name_lower = to_lower(name);
        let mut i: usize = 0;
        while i < self.names.len()
            invariant
                i <= self.names@.len(),
                shelf_names(&self.tools).len() == self.names@.len(),
                forall|j: int|
                    0 <= j < self.names@.len() ==> (#[trigger] shelf_names(&self.tools)[j] matches Some(n)
                        ==> n == self.names@[j]@),
                !string_views(self.names@).contains(name@),
                name_lower@ == lowercase(name@),
                forall|j: int| 0 <= j < i ==> #[trigger] lowercase(string_views(self.names@)[j]) != lowercase(name@),
            decreases self.names.len() - i,
        {
            let key_lower = to_lower(self.names[i].as_str());
            if str_equal(key_lower.as_str(), name_lower.as_str()) {
                assert(lowercase(string_views(self.names@)[i as int]) == lowercase(name@));
                let b = self.tools.get(i);
                assert(shelf_names(&self.tools)[i as int] matches Some(n) ==> n == self.names@[i as int]@);
                assert(b.names_itself() ==> string_views(self.names@)[i as int] == b.spec_name());
                return Ok(b);
            }
            i = i + 1;
        }
        // No match found
        Err(Error::UndefinedTool { name: owned(name) })
    }

    /// Check if tool exists
    pub fn has(&self, name: &str) -> (b: bool)
        ensures
            b == self.names().contains(name@),
    {
        self.position(name).is_some()
    }

    /// Get tool count
    pub fn count(&self) -> (n: usize)
        ensures
            n == self.names().len(),
    {
        self.names.len()
    }

    /// List all tool names
    pub fn list_tools(&self) -> (r: Vec<String>)
        ensures
            strictly_sorted(string_views(r@)),
            string_views(r@).len() == self.names().len(),
            forall|x: Seq<char>| #[trigger] string_views(r@).contains(x) <==> self.names().contains(x),
    {
        proof {
            use_type_invariant(self);
        }
        let ghost ns = string_views(self.names@);
        let mut out: Vec<String> = Vec::new();
        let mut i: usize = 0;
        while i < self.names.len()
            invariant
                i <= self.names@.len(),
                ns == string_views(self.names@),
                names_distinct(ns),
                strictly_sorted(string_views(out@)),
                string_views(out@).len() == i,
                forall|x: Seq<char>| #[trigger] string_views(out@).contains(x) <==> ns.subrange(0, i as int).contains(x),
            decreases self.names.len() - i,
        {
            let n = self.names[i].clone();
            let ghost nv = n@;
            let ghost sv = string_views(out@);
            assert(nv == ns[i as int]);
            // `n` is not yet in `out`: earlier names differ from it
            assert(!sv.contains(nv)) by {
                if sv.contains(nv) {
                    let k = choose|k: int| 0 <= k < i && ns.subrange(0, i as int)[k] == nv;
                    assert(ns.subrange(0, i as int).contains(nv));
                    let k2 = choose|k2: int| 0 <= k2 < i && ns.subrange(0, i as int)[k2] == nv;
                    assert(ns[k2] == ns[i as int]);
                }
            }
            // find the first element that `n` comes before
            let mut p: usize = 0;
            while p < out.len() && !str_less(n.as_str(), out[p].as_str())
                invariant
                    p <= out@.len(),
                    sv == string_views(out@),
                    nv == n@,
                    forall|j: int| 0 <= j < p ==> !seq_less(nv, #[trigger] sv[j]),
                decreases out.len() - p,
            {
                p = p + 1;
            }
            proof {
                assert forall|j: int| 0 <= j < p implies seq_less(#[trigger] sv[j], nv) by {
                    assert(sv[j] != nv) by {
                        if sv[j] == nv {
                            assert(sv.contains(nv));
                        }
                    }
                    lemma_seq_less_total(sv[j], nv);
                }
                assert forall|j: int| p <= j < sv.len() implies seq_less(nv, #[trigger] sv[j]) by {
                    if j > p {
                        lemma_seq_less_transitive(nv, sv[p as int], sv[j]);
                    }
                }
            }
            out.insert(p, n);
            let ghost sv2 = string_views(out@);
            assert(sv2 =~= sv.insert(p as int, nv));
            proof {
                assert forall|a: int, b: int| 0 <= a < b < sv2.len() implies seq_less(#[trigger] sv2[a], #[trigger] sv2[b]) by {
                    if b < p {
                    } else if a < p && b == p {
                    } else if a < p && b > p {
                        assert(sv2[b] == sv[b - 1]);
                        lemma_seq_less_transitive(sv[a], nv, sv[b - 1]);
                    } else if a == p {
                        assert(sv2[b] == sv[b - 1]);
                    } else {
                        assert(sv2[a] == sv[a - 1]);
                        assert(sv2[b] == sv[b - 1]);
                    }
                }
                let pre = ns.subrange(0, i as int);
                let pre2 = ns.subrange(0, i + 1);
                assert(pre2 =~= pre.push(nv));
                assert forall|x: Seq<char>| #[trigger] sv2.contains(x) <==> pre2.contains(x) by {
                    if sv2.contains(x) {
                        let k = choose|k: int| 0 <= k < sv2.len() && sv2[k] == x;
                        if k < p {
                            assert(sv.contains(x));
                        } else if k > p {
                            assert(sv[k - 1] == x);
                            assert(sv.contains(x));
                        }
                        assert(pre2.contains(x)) by {
                            if x != nv {
                                assert(pre.contains(x));
                                let m = choose|m: int| 0 <= m < i && pre[m] == x;
                                assert(pre2[m] == x);
                            } else {
                                assert(pre2[i as int] == x);
                            }
                        }
                    }
                    if pre2.contains(x) {
                        let m = choose|m: int| 0 <= m < i + 1 && pre2[m] == x;
                        if m < i {
                            assert(pre[m] == x);
                            assert(pre.contains(x));
                            assert(sv.contains(x));
                            let k = choose|k: int| 0 <= k < sv.len() && sv[k] == x;
                            if k < p {
                                assert(sv2[k] == x);
                            } else {
                                assert(sv2[k + 1] == x);
                            }
                        } else {
                            assert(sv2[p as int] == x);
                        }
                    }
                }
            }
            i = i + 1;
        }
        assert(ns.subrange(0, ns.len() as int) =~= ns);
        out
    }
}

} // verus!
