//! String manipulation tools - Common Lisp compatible string functions
use vstd::prelude::*;

#[allow(unused_imports)]
use crate::access::{copy_range, copy_slice, copy_values, values_equal};
#[allow(unused_imports)]
use crate::error::{empty_collection, exec_error, invalid_args, ErrV, Error};
#[allow(unused_imports)]
use crate::text::{alphabetic, alphanumeric, char_from_u32, char_is_alphabetic, char_is_alphanumeric, char_is_lowercase, char_is_uppercase, char_is_whitespace, char_string, char_to_lowercase, char_to_uppercase, chars_of, chars_skip, concat, i64_to_string, int_decimal, lower_case, lower_chars, lowercase, owned, scalar_value, seq_less, str_equal, str_less, string_from_chars, to_lower, to_upper, upper_case, upper_chars, uppercase, whitespace};
#[allow(unused_imports)]
use crate::tools::{bad_args, name_insert, outcome, ref_outcome, string_views, yields, Tool, ToolRegistry};
#[allow(unused_imports)]
use crate::value::{and_then, elems, entry_models, int_of, models, obj_insert, obj_keys, obj_lookup, obj_merge, obj_of, obj_values, str_of, truthy, type_error, ObjectMap, Val, Value};

verus! {

broadcast use crate::seq_models::group_value_models;

/// The names after registering this module's tools, in order.
pub open spec fn registered_names(ns: Seq<Seq<char>>) -> Seq<Seq<char>> {
    let ns = name_insert(ns, "STRING-UPCASE"@);
    let ns = name_insert(ns, "STRING-DOWNCASE"@);
    let ns = name_insert(ns, "STRING-CAPITALIZE"@);
    let ns = name_insert(ns, "STRING-TRIM"@);
    let ns = name_insert(ns, "STRING-LEFT-TRIM"@);
    let ns = name_insert(ns, "STRING-RIGHT-TRIM"@);
    let ns = name_insert(ns, "SUBSEQ"@);
    let ns = name_insert(ns, "SUBSTRING"@);
    let ns = name_insert(ns, "CHAR-AT"@);
    let ns = name_insert(ns, "STRING="@);
    let ns = name_insert(ns, "STRING<"@);
    let ns = name_insert(ns, "STRING>"@);
    let ns = name_insert(ns, "STRING/="@);
    let ns = name_insert(ns, "STRING<="@);
    let ns = name_insert(ns, "STRING>="@);
    let ns = name_insert(ns, "STRING-EQUAL"@);
    let ns = name_insert(ns, "STRING-LESSP"@);
    let ns = name_insert(ns, "STRING-GREATERP"@);
    let ns = name_insert(ns, "MAKE-STRING"@);
    let ns = name_insert(ns, "CONCATENATE"@);
    let ns = name_insert(ns, "CHAR-CODE"@);
    let ns = name_insert(ns, "CODE-CHAR"@);
    let ns = name_insert(ns, "CHAR-UPCASE"@);
    let ns = name_insert(ns, "CHAR-DOWNCASE"@);
    let ns = name_insert(ns, "SEARCH"@);
    let ns = name_insert(ns, "POSITION"@);
    let ns = name_insert(ns, "COUNT-OCCURRENCES"@);
    let ns = name_insert(ns, "REPLACE"@);
    let ns = name_insert(ns, "REPLACE-ALL"@);
    let ns = name_insert(ns, "STRING-REVERSE"@);
    let ns = name_insert(ns, "STRING-NOT-LESSP"@);
    let ns = name_insert(ns, "STRING-NOT-GREATERP"@);
    let ns = name_insert(ns, "NSTRING-UPCASE"@);
    let ns = name_insert(ns, "NSTRING-DOWNCASE"@);
    let ns = name_insert(ns, "NSTRING-CAPITALIZE"@);
    let ns = name_insert(ns, "STRINGP"@);
    let ns = name_insert(ns, "SIMPLE-STRING-P"@);
    let ns = name_insert(ns, "BOTH-CASE-P"@);
    let ns = name_insert(ns, "CHAR"@);
    let ns = name_insert(ns, "SCHAR"@);
    let ns = name_insert(ns, "UPPER-CASE-P"@);
    let ns = name_insert(ns, "LOWER-CASE-P"@);
    let ns = name_insert(ns, "STRING-CONCATENATE"@);
    let ns = name_insert(ns, "STRING-TO-LIST"@);
    let ns = name_insert(ns, "LIST-TO-STRING"@);
    let ns = name_insert(ns, "STRING-SPLIT"@);
    let ns = name_insert(ns, "SPLIT"@);
    let ns = name_insert(ns, "STRING-JOIN"@);
    let ns = name_insert(ns, "JOIN"@);
    let ns = name_insert(ns, "STRING-APPEND"@);
    let ns = name_insert(ns, "CONCAT"@);
    let ns = name_insert(ns, "STRING-CONTAINS"@);
    let ns = name_insert(ns, "INCLUDES"@);
    let ns = name_insert(ns, "STRING-STARTS-WITH"@);
    let ns = name_insert(ns, "STARTS-WITH"@);
    let ns = name_insert(ns, "STRING-ENDS-WITH"@);
    let ns = name_insert(ns, "ENDS-WITH"@);
    let ns = name_insert(ns, "STRING-LENGTH"@);
    let ns = name_insert(ns, "CHAR-AT-INDEX"@);
    let ns = name_insert(ns, "STRING"@);
    let ns = name_insert(ns, "FORMAT"@);
    let ns = name_insert(ns, "SPRINTF"@);
    let ns = name_insert(ns, "STR"@);
    let ns = name_insert(ns, "TO-STRING"@);
    ns
}

/// Register the tools of this module: those the library holds, then those
/// the application supplies, each under its name: `string_tool` under STRING, `format_tool` under FORMAT, `sprintf_tool` under SPRINTF, `str_tool` under STR, `to_string_tool` under TO-STRING.
pub fn register<TString: Tool + 'static, TFormat: Tool + 'static, TSprintf: Tool + 'static, TStr: Tool + 'static, TToString: Tool + 'static>(registry: &mut ToolRegistry, string_tool: TString, format_tool: TFormat, sprintf_tool: TSprintf, str_tool: TStr, to_string_tool: TToString)
    requires
        string_tool.names_itself() ==> string_tool.spec_name() == "STRING"@,
        format_tool.names_itself() ==> format_tool.spec_name() == "FORMAT"@,
        sprintf_tool.names_itself() ==> sprintf_tool.spec_name() == "SPRINTF"@,
        str_tool.names_itself() ==> str_tool.spec_name() == "STR"@,
        to_string_tool.names_itself() ==> to_string_tool.spec_name() == "TO-STRING"@,
    ensures
        final(registry).names() == registered_names(old(registry).names()),
{
    registry.register(StringUpcaseTool);
    registry.register(StringDowncaseTool);
    registry.register(StringCapitalizeTool);
    registry.register(StringTrimTool);
    registry.register(StringLeftTrimTool);
    registry.register(StringRightTrimTool);
    registry.register(SubseqTool);
    registry.register(SubstringTool);
    registry.register(CharAtTool);
    registry.register(StringEqualTool);
    registry.register(StringLessTool);
    registry.register(StringGreaterTool);
    registry.register(StringNotEqualTool);
    registry.register(StringLessOrEqualTool);
    registry.register(StringGreaterOrEqualTool);
    registry.register(StringEqualp);
    registry.register(StringLesspTool);
    registry.register(StringGreaterpTool);
    registry.register(MakeStringTool);
    registry.register(ConcatenateTool);
    registry.register(CharCodeTool);
    registry.register(CodeCharTool);
    registry.register(CharUpcaseTool);
    registry.register(CharDowncaseTool);
    registry.register(SearchTool);
    registry.register(PositionTool);
    registry.register(CountOccurrencesTool);
    registry.register(ReplaceTool);
    registry.register(ReplaceAllTool);
    registry.register(ReverseTool);
    registry.register(StringNotLesspTool);
    registry.register(StringNotGreaterpTool);
    registry.register(NstringUpcaseTool);
    registry.register(NstringDowncaseTool);
    registry.register(NstringCapitalizeTool);
    registry.register(StringpTool);
    registry.register(SimpleStringPTool);
    registry.register(BothCasePTool);
    registry.register(CharTool);
    registry.register(ScharTool);
    registry.register(StringUpcasePTool);
    registry.register(StringDowncasePTool);
    registry.register(StringConcatenateTool);
    registry.register(StringToListTool);
    registry.register(ListToStringTool);
    registry.register(StringSplitTool);
    registry.register(SplitTool);
    registry.register(StringJoinTool);
    registry.register(JoinTool);
    registry.register(StringAppendTool);
    registry.register(ConcatTool);
    registry.register(StringContainsTool);
    registry.register(IncludesTool);
    registry.register(StringStartsWithTool);
    registry.register(StartsWithTool);
    registry.register(StringEndsWithTool);
    registry.register(EndsWithTool);
    registry.register(StringLengthTool);
    registry.register(CharAtIndexTool);
    registry.place(owned("STRING"), string_tool);
    registry.place(owned("FORMAT"), format_tool);
    registry.place(owned("SPRINTF"), sprintf_tool);
    registry.place(owned("STR"), str_tool);
    registry.place(owned("TO-STRING"), to_string_tool);
}

use crate::tools::stdlib::characters::{char_key, keeps, keeps_exec, key_exec, CharOrder};
use crate::text::{decimal, u64_to_string};

/// The string that a one-string tool works on: its first argument.
pub open spec fn first_string(tool: Seq<char>, reason: Seq<char>, a: Seq<Val>) -> Result<Seq<char>, ErrV> {
    if a.len() == 0 {
        Err(ErrV::InvalidArguments { tool, reason })
    } else {
        str_of(a[0])
    }
}

/// The two strings that a two-string tool works on: its first two arguments.
pub open spec fn two_strings(tool: Seq<char>, reason: Seq<char>, a: Seq<Val>) -> Result<(Seq<char>, Seq<char>), ErrV> {
    if a.len() < 2 {
        Err(ErrV::InvalidArguments { tool, reason })
    } else {
        match str_of(a[0]) {
            Err(e) => Err(e),
            Ok(s) => match str_of(a[1]) {
                Err(e) => Err(e),
                Ok(t) => Ok((s, t)),
            },
        }
    }
}

/// The string result `f(s)` of a one-string tool.
pub open spec fn string_map(r: Result<Seq<char>, ErrV>, f: spec_fn(Seq<char>) -> Val) -> Result<Val, ErrV> {
    match r {
        Ok(s) => Ok(f(s)),
        Err(e) => Err(e),
    }
}

/// The result `f(s, t)` of a two-string tool.
pub open spec fn pair_map(r: Result<(Seq<char>, Seq<char>), ErrV>, f: spec_fn(Seq<char>, Seq<char>) -> Val) -> Result<Val, ErrV> {
    match r {
        Ok((s, t)) => Ok(f(s, t)),
        Err(e) => Err(e),
    }
}

pub(crate) fn first_string_exec<'a>(tool: &str, reason: &str, args: &'a [Value]) -> (r: Result<&'a str, Error>)
    ensures
        match r {
            Ok(s) => first_string(tool@, reason@, models(args@)) == Ok::<Seq<char>, ErrV>(s@),
            Err(e) => first_string(tool@, reason@, models(args@)) == Err::<Seq<char>, ErrV>(e@),
        },
{
    if args.len() == 0 {
        return Err(invalid_args(tool, reason));
    }
    args[0].as_string()
}

fn two_strings_exec<'a>(tool: &str, reason: &str, args: &'a [Value]) -> (r: Result<(&'a str, &'a str), Error>)
    ensures
        match r {
            Ok((s, t)) => two_strings(tool@, reason@, models(args@)) == Ok::<(Seq<char>, Seq<char>), ErrV>((s@, t@)),
            Err(e) => two_strings(tool@, reason@, models(args@)) == Err::<(Seq<char>, Seq<char>), ErrV>(e@),
        },
{
    if args.len() < 2 {
        return Err(invalid_args(tool, reason));
    }
    let s = args[0].as_string()?;
    let t = args[1].as_string()?;
    Ok((s, t))
}

/// The characters `v[from..to]`.
fn chars_range(v: &Vec<char>, from: usize, to: usize) -> (r: Vec<char>)
    requires
        from <= to <= v@.len(),
    ensures
        r@ == v@.subrange(from as int, to as int),
{
    let mut out: Vec<char> = Vec::new();
    let mut i: usize = from;
    while i < to
        invariant
            from <= i <= to <= v@.len(),
            out@ == v@.subrange(from as int, i as int),
        decreases to - i,
    {
        out.push(v[i]);
        i = i + 1;
        assert(out@ =~= v@.subrange(from as int, i as int));
    }
    out
}

/// How many whitespace characters `s` starts with.
pub open spec fn leading_ws(s: Seq<char>) -> nat
    decreases s.len(),
{
    if s.len() > 0 && whitespace(s[0]) {
        1 + leading_ws(s.drop_first())
    } else {
        0
    }
}

/// How many whitespace characters `s` ends with.
pub open spec fn trailing_ws(s: Seq<char>) -> nat
    decreases s.len(),
{
    if s.len() > 0 && whitespace(s.last()) {
        1 + trailing_ws(s.drop_last())
    } else {
        0
    }
}

/// `s` without its leading whitespace.
pub open spec fn trim_start(s: Seq<char>) -> Seq<char> {
    s.skip(leading_ws(s) as int)
}

/// `s` without its trailing whitespace.
pub open spec fn trim_end(s: Seq<char>) -> Seq<char> {
    s.take(s.len() - trailing_ws(s))
}

/// `s` without whitespace at either end.
pub open spec fn trim_both(s: Seq<char>) -> Seq<char> {
    trim_end(trim_start(s))
}

proof fn lemma_leading_ws(s: Seq<char>, i: int)
    requires
        0 <= i <= s.len(),
        forall|j: int| 0 <= j < i ==> whitespace(#[trigger] s[j]),
        i == s.len() || !whitespace(s[i]),
    ensures
        leading_ws(s) == i,
    decreases i,
{
    if i > 0 {
        let t = s.drop_first();
        assert forall|j: int| 0 <= j < i - 1 implies whitespace(#[trigger] t[j]) by {
            assert(t[j] == s[j + 1]);
        }
        if i < s.len() {
            assert(t[i - 1] == s[i]);
        }
        lemma_leading_ws(t, i - 1);
    }
}

proof fn lemma_trailing_ws(s: Seq<char>, k: int)
    requires
        0 <= k <= s.len(),
        forall|j: int| s.len() - k <= j < s.len() ==> whitespace(#[trigger] s[j]),
        k == s.len() || !whitespace(s[s.len() - k - 1]),
    ensures
        trailing_ws(s) == k,
    decreases k,
{
    if k > 0 {
        let t = s.drop_last();
        assert(whitespace(s[s.len() - 1]));
        assert forall|j: int| t.len() - (k - 1) <= j < t.len() implies whitespace(#[trigger] t[j]) by {
            assert(t[j] == s[j]);
        }
        if k < s.len() {
            assert(t[t.len() - (k - 1) - 1] == s[s.len() - k - 1]);
        }
        lemma_trailing_ws(t, k - 1);
    }
}

pub(crate) fn trim_start_exec(s: &str) -> (r: String)
    ensures
        r@ == trim_start(s@),
{
    let cs = chars_of(s);
    let mut i: usize = 0;
    let mut done = false;
    while i < cs.len() && !done
        invariant
            cs@ == s@,
            i <= cs@.len(),
            forall|j: int| 0 <= j < i ==> whitespace(#[trigger] cs@[j]),
            done ==> i < cs@.len() && !whitespace(cs@[i as int]),
        decreases cs.len() - i + (if done { 0int } else { 1int }),
    {
        if char_is_whitespace(cs[i]) {
            i = i + 1;
        } else {
            done = true;
        }
    }
    proof {
        lemma_leading_ws(s@, i as int);
    }
    let rest = chars_skip(&cs, i);
    string_from_chars(&rest)
}

pub(crate) fn trim_end_exec(s: &str) -> (r: String)
    ensures
        r@ == trim_end(s@),
{
    let cs = chars_of(s);
    let n = cs.len();
    let mut k: usize = 0;
    let mut done = false;
    while k < n && !done
        invariant
            cs@ == s@,
            n == cs@.len(),
            k <= n,
            forall|j: int| n - k <= j < n ==> whitespace(#[trigger] cs@[j]),
            done ==> k < n && !whitespace(cs@[n - k - 1]),
        decreases n - k + (if done { 0int } else { 1int }),
    {
        if char_is_whitespace(cs[n - k - 1]) {
            k = k + 1;
        } else {
            done = true;
        }
    }
    proof {
        lemma_trailing_ws(s@, k as int);
    }
    let kept = chars_range(&cs, 0, n - k);
    assert(kept@ =~= s@.take(s@.len() - trailing_ws(s@)));
    string_from_chars(&kept)
}

/// The characters of `s`, each run of non-whitespace characters with its first
/// character upper-cased and the others lower-cased; `cap` tells whether the
/// next non-whitespace character starts a word.
pub open spec fn capitalize_from(s: Seq<char>, cap: bool) -> Seq<char>
    decreases s.len(),
{
    if s.len() == 0 {
        Seq::empty()
    } else if whitespace(s[0]) {
        seq![s[0]] + capitalize_from(s.drop_first(), true)
    } else if cap {
        seq![upper_chars(s[0])[0]] + capitalize_from(s.drop_first(), false)
    } else {
        seq![lower_chars(s[0])[0]] + capitalize_from(s.drop_first(), false)
    }
}

fn capitalize_exec(s: &str) -> (r: String)
    ensures
        r@ == capitalize_from(s@, true),
{
    let cs = chars_of(s);
    let mut out: Vec<char> = Vec::new();
    let mut cap = true;
    let mut i: usize = 0;
    assert(cs@.skip(0) =~= cs@);
    while i < cs.len()
        invariant
            cs@ == s@,
            i <= cs@.len(),
            out@ + capitalize_from(cs@.skip(i as int), cap) == capitalize_from(s@, true),
        decreases cs.len() - i,
    {
        let c = cs[i];
        let ghost rest = cs@.skip(i as int);
        assert(rest.drop_first() =~= cs@.skip(i + 1));
        assert(rest[0] == c);
        let ghost old_out = out@;
        let ghost old_cap = cap;
        if char_is_whitespace(c) {
            out.push(c);
            cap = true;
        } else if cap {
            let u = char_to_uppercase(c);
            out.push(u[0]);
            cap = false;
        } else {
            let l = char_to_lowercase(c);
            out.push(l[0]);
            cap = false;
        }
        proof {
            let x = out@.last();
            assert(out@ == old_out.push(x));
            assert(capitalize_from(rest, old_cap) == seq![x] + capitalize_from(cs@.skip(i + 1), cap));
            assert(out@ + capitalize_from(cs@.skip(i + 1), cap) =~= old_out + (seq![x] + capitalize_from(cs@.skip(i + 1), cap)));
        }
        i = i + 1;
    }
    assert(cs@.skip(i as int) =~= Seq::<char>::empty());
    assert(out@ =~= out@ + capitalize_from(cs@.skip(i as int), cap));
    string_from_chars(&out)
}

/// The result of SUBSEQ (and of SUBSTRING, which hands its arguments to it).
pub open spec fn subseq_result(a: Seq<Val>) -> Result<Val, ErrV> {
    if a.len() < 2 {
        bad_args("SUBSEQ"@, "Expected sequence and start index"@)
    } else {
        match int_of(a[1]) {
            Err(e) => Err(e),
            Ok(st) => {
                let end: Result<Option<usize>, ErrV> = if a.len() > 2 {
                    match int_of(a[2]) {
                        Ok(e) => Ok(Some(e as usize)),
                        Err(x) => Err(x),
                    }
                } else {
                    Ok(None)
                };
                let start = st as usize;
                match end {
                    Err(e) => Err(e),
                    Ok(end) => match a[0] {
                        Val::Str(s) => {
                            let e: int = match end { Some(e) => e as int, None => s.len() as int };
                            if start > s.len() || e > s.len() || start > e {
                                bad_args("SUBSEQ"@, "Invalid subsequence bounds"@)
                            } else {
                                yields(Val::Str(s.subrange(start as int, e)))
                            }
                        },
                        Val::Arr(v) => {
                            let e: int = match end { Some(e) => e as int, None => v.len() as int };
                            if start > v.len() || e > v.len() || start > e {
                                bad_args("SUBSEQ"@, "Invalid subsequence bounds"@)
                            } else {
                                yields(Val::Arr(v.subrange(start as int, e)))
                            }
                        },
                        _ => Err(type_error("string or array"@, a[0])),
                    },
                }
            },
        }
    }
}

fn subseq_exec(args: &[Value]) -> (r: Result<Value, Error>)
    ensures
        outcome(r) == subseq_result(models(args@)),
{
    if args.len() < 2 {
        return Err(invalid_args("SUBSEQ", "Expected sequence and start index"));
    }
    let start = args[1].as_int()? as usize;
    let end: Option<usize> = if args.len() > 2 {
        Some(args[2].as_int()? as usize)
    } else {
        None
    };
    match &args[0] {
        Value::String(s) => {
            let cs = chars_of(s.as_str());
            let end_idx = match end {
                Some(e) => e,
                None => cs.len(),
            };
            if start > cs.len() || end_idx > cs.len() || start > end_idx {
                return Err(invalid_args("SUBSEQ", "Invalid subsequence bounds"));
            }
            let sub = chars_range(&cs, start, end_idx);
            Ok(Value::String(string_from_chars(&sub)))
        },
        Value::Array(arr) => {
            assert(models(arr@).len() == arr@.len());
            let end_idx = match end {
                Some(e) => e,
                None => arr.len(),
            };
            if start > arr.len() || end_idx > arr.len() || start > end_idx {
                return Err(invalid_args("SUBSEQ", "Invalid subsequence bounds"));
            }
            Ok(Value::Array(copy_range(arr, start, end_idx)))
        },
        _ => Err(Error::TypeError { expected: owned("string or array"), got: args[0].kind_name() }),
    }
}

/// The result of CHAR-AT (and of CHAR-AT-INDEX, which hands its arguments to it).
pub open spec fn char_at_result(a: Seq<Val>) -> Result<Val, ErrV> {
    if a.len() < 2 {
        bad_args("CHAR-AT"@, "Expected string and index"@)
    } else {
        match str_of(a[0]) {
            Err(e) => Err(e),
            Ok(s) => match int_of(a[1]) {
                Err(e) => Err(e),
                Ok(n) => {
                    let index = n as usize;
                    if index >= s.len() {
                        Err(ErrV::IndexOutOfBounds { index: index as nat, length: s.len() })
                    } else {
                        yields(Val::Str(seq![s[index as int]]))
                    }
                },
            },
        }
    }
}

fn char_at_exec(args: &[Value]) -> (r: Result<Value, Error>)
    ensures
        outcome(r) == char_at_result(models(args@)),
{
    if args.len() < 2 {
        return Err(invalid_args("CHAR-AT", "Expected string and index"));
    }
    let s = args[0].as_string()?;
    let index = args[1].as_int()? as usize;
    let n = s.unicode_len();
    if index >= n {
        return Err(Error::IndexOutOfBounds { index, length: n });
    }
    Ok(Value::String(char_string(s.get_char(index))))
}

/// The result of a string comparison tool: the order `o` between the two
/// strings, each lower-cased first when `fold` holds.
pub open spec fn string_compare(tool: Seq<char>, reason: Seq<char>, a: Seq<Val>, fold: bool, o: CharOrder) -> Result<Val, ErrV> {
    match two_strings(tool, reason, a) {
        Err(e) => Err(e),
        Ok((s, t)) => yields(Val::Bool(keeps(o, char_key(s, fold), char_key(t, fold)))),
    }
}

fn string_compare_exec(tool: &str, reason: &str, args: &[Value], fold: bool, o: CharOrder) -> (r: Result<Value, Error>)
    ensures
        outcome(r) == string_compare(tool@, reason@, models(args@), fold, o),
{
    let (s, t) = two_strings_exec(tool, reason, args)?;
    let ks = key_exec(s, fold);
    let kt = key_exec(t, fold);
    Ok(Value::Bool(keeps_exec(&o, ks.as_str(), kt.as_str())))
}

/// STRING-UPCASE - Convert string to uppercase
pub struct StringUpcaseTool;

impl Tool for StringUpcaseTool {
    open spec fn names_itself(&self) -> bool {
        true
    }

    open spec fn spec_name(&self) -> Seq<char> {
        "STRING-UPCASE"@
    }

    open spec fn admits(&self, args: Seq<Val>) -> bool {
        true
    }

    fn name(&self) -> &str {
        "STRING-UPCASE"
    }

    fn description(&self) -> (r: &str)
        ensures
            r@ == "Convert string to uppercase"@,
    {
        "Convert string to uppercase"
    }

    fn execute(&self, args: &[Value]) -> (r: Result<Value, Error>)
        ensures
            outcome(r) == (string_map(first_string("STRING-UPCASE"@, "Expected string argument"@, models(args@)), |s: Seq<char>| Val::Str(uppercase(s)))),
    {
        let s = first_string_exec("STRING-UPCASE", "Expected string argument", args)?;
        Ok(Value::String(to_upper(s)))
    }
}



/// STRING-DOWNCASE - Convert string to lowercase
pub struct StringDowncaseTool;

impl Tool for StringDowncaseTool {
    open spec fn names_itself(&self) -> bool {
        true
    }

    open spec fn spec_name(&self) -> Seq<char> {
        "STRING-DOWNCASE"@
    }

    open spec fn admits(&self, args: Seq<Val>) -> bool {
        true
    }

    fn name(&self) -> &str {
        "STRING-DOWNCASE"
    }

    fn description(&self) -> (r: &str)
        ensures
            r@ == "Convert string to lowercase"@,
    {
        "Convert string to lowercase"
    }

    fn execute(&self, args: &[Value]) -> (r: Result<Value, Error>)
        ensures
            outcome(r) == (string_map(first_string("STRING-DOWNCASE"@, "Expected string argument"@, models(args@)), |s: Seq<char>| Val::Str(lowercase(s)))),
    {
        let s = first_string_exec("STRING-DOWNCASE", "Expected string argument", args)?;
        Ok(Value::String(to_lower(s)))
    }
}



/// NSTRING-UPCASE - Destructive upcase (same as STRING-UPCASE in immutable OVSM)
pub struct NstringUpcaseTool;

impl Tool for NstringUpcaseTool {
    open spec fn names_itself(&self) -> bool {
        true
    }

    open spec fn spec_name(&self) -> Seq<char> {
        "NSTRING-UPCASE"@
    }

    open spec fn admits(&self, args: Seq<Val>) -> bool {
        true
    }

    fn name(&self) -> &str {
        "NSTRING-UPCASE"
    }

    fn description(&self) -> (r: &str)
        ensures
            r@ == "Convert string to uppercase (destructive variant, same as STRING-UPCASE in Solisp)"@,
    {
        "Convert string to uppercase (destructive variant, same as STRING-UPCASE in Solisp)"
    }

    fn execute(&self, args: &[Value]) -> (r: Result<Value, Error>)
        ensures
            outcome(r) == (string_map(first_string("NSTRING-UPCASE"@, "Expected string argument"@, models(args@)), |s: Seq<char>| Val::Str(uppercase(s)))),
    {
        let s = first_string_exec("NSTRING-UPCASE", "Expected string argument", args)?;
        Ok(Value::String(to_upper(s)))
    }
}



/// NSTRING-DOWNCASE - Destructive downcase (same as STRING-DOWNCASE in immutable OVSM)
pub struct NstringDowncaseTool;

impl Tool for NstringDowncaseTool {
    open spec fn names_itself(&self) -> bool {
        true
    }

    open spec fn spec_name(&self) -> Seq<char> {
        "NSTRING-DOWNCASE"@
    }

    open spec fn admits(&self, args: Seq<Val>) -> bool {
        true
    }

    fn name(&self) -> &str {
        "NSTRING-DOWNCASE"
    }

    fn description(&self) -> (r: &str)
        ensures
            r@ == "Convert string to lowercase (destructive variant, same as STRING-DOWNCASE in Solisp)"@,
    {
        "Convert string to lowercase (destructive variant, same as STRING-DOWNCASE in Solisp)"
    }

    fn execute(&self, args: &[Value]) -> (r: Result<Value, Error>)
        ensures
            outcome(r) == (string_map(first_string("NSTRING-DOWNCASE"@, "Expected string argument"@, models(args@)), |s: Seq<char>| Val::Str(lowercase(s)))),
    {
        let s = first_string_exec("NSTRING-DOWNCASE", "Expected string argument", args)?;
        Ok(Value::String(to_lower(s)))
    }
}



/// STRING-CAPITALIZE - Capitalize first letter of each word
pub struct StringCapitalizeTool;

impl Tool for StringCapitalizeTool {
    open spec fn names_itself(&self) -> bool {
        true
    }

    open spec fn spec_name(&self) -> Seq<char> {
        "STRING-CAPITALIZE"@
    }

    open spec fn admits(&self, args: Seq<Val>) -> bool {
        true
    }

    fn name(&self) -> &str {
        "STRING-CAPITALIZE"
    }

    fn description(&self) -> (r: &str)
        ensures
            r@ == "Capitalize first letter of each word"@,
    {
        "Capitalize first letter of each word"
    }

    fn execute(&self, args: &[Value]) -> (r: Result<Value, Error>)
        ensures
            outcome(r) == (string_map(first_string("STRING-CAPITALIZE"@, "Expected string argument"@, models(args@)), |s: Seq<char>| Val::Str(capitalize_from(s, true)))),
    {
        let s = first_string_exec("STRING-CAPITALIZE", "Expected string argument", args)?;
        Ok(Value::String(capitalize_exec(s)))
    }
}



/// NSTRING-CAPITALIZE - Destructive capitalize (same as STRING-CAPITALIZE in immutable OVSM)
pub struct NstringCapitalizeTool;

impl Tool for NstringCapitalizeTool {
    open spec fn names_itself(&self) -> bool {
        true
    }

    open spec fn spec_name(&self) -> Seq<char> {
        "NSTRING-CAPITALIZE"@
    }

    open spec fn admits(&self, args: Seq<Val>) -> bool {
        true
    }

    fn name(&self) -> &str {
        "NSTRING-CAPITALIZE"
    }

    fn description(&self) -> (r: &str)
        ensures
            r@ == "Capitalize first character (destructive variant, same as STRING-CAPITALIZE in Solisp)"@,
    {
        "Capitalize first character (destructive variant, same as STRING-CAPITALIZE in Solisp)"
    }

    fn execute(&self, args: &[Value]) -> (r: Result<Value, Error>)
        ensures
            outcome(r) == (string_map(first_string("NSTRING-CAPITALIZE"@, "Expected string argument"@, models(args@)),
                |s: Seq<char>| Val::Str(if s.len() == 0 { s } else { upper_chars(s[0]) + s.drop_first() }))),
    {
        let s = first_string_exec("NSTRING-CAPITALIZE", "Expected string argument", args)?;
        let cs = chars_of(s);
        if cs.len() == 0 {
            assert(s@ =~= Seq::<char>::empty());
            return Ok(Value::String(String::new()));
        }
        let mut out = char_to_uppercase(cs[0]);
        let mut rest = chars_skip(&cs, 1);
        out.append(&mut rest);
        assert(cs@.skip(1) =~= s@.drop_first());
        Ok(Value::String(string_from_chars(&out)))
    }
}



/// STRING-TRIM - Trim whitespace from both ends
pub struct StringTrimTool;

impl Tool for StringTrimTool {
    open spec fn names_itself(&self) -> bool {
        true
    }

    open spec fn spec_name(&self) -> Seq<char> {
        "STRING-TRIM"@
    }

    open spec fn admits(&self, args: Seq<Val>) -> bool {
        true
    }

    fn name(&self) -> &str {
        "STRING-TRIM"
    }

    fn description(&self) -> (r: &str)
        ensures
            r@ == "Trim whitespace from both ends of string"@,
    {
        "Trim whitespace from both ends of string"
    }

    fn execute(&self, args: &[Value]) -> (r: Result<Value, Error>)
        ensures
            outcome(r) == (string_map(first_string("STRING-TRIM"@, "Expected string argument"@, models(args@)), |s: Seq<char>| Val::Str(trim_both(s)))),
    {
        let s = first_string_exec("STRING-TRIM", "Expected string argument", args)?;
        let t = trim_start_exec(s);
        Ok(Value::String(trim_end_exec(t.as_str())))
    }
}



/// STRING-LEFT-TRIM - Trim whitespace from left end
pub struct StringLeftTrimTool;

impl Tool for StringLeftTrimTool {
    open spec fn names_itself(&self) -> bool {
        true
    }

    open spec fn spec_name(&self) -> Seq<char> {
        "STRING-LEFT-TRIM"@
    }

    open spec fn admits(&self, args: Seq<Val>) -> bool {
        true
    }

    fn name(&self) -> &str {
        "STRING-LEFT-TRIM"
    }

    fn description(&self) -> (r: &str)
        ensures
            r@ == "Trim whitespace from left end of string"@,
    {
        "Trim whitespace from left end of string"
    }

    fn execute(&self, args: &[Value]) -> (r: Result<Value, Error>)
        ensures
            outcome(r) == (string_map(first_string("STRING-LEFT-TRIM"@, "Expected string argument"@, models(args@)), |s: Seq<char>| Val::Str(trim_start(s)))),
    {
        let s = first_string_exec("STRING-LEFT-TRIM", "Expected string argument", args)?;
        Ok(Value::String(trim_start_exec(s)))
    }
}



/// STRING-RIGHT-TRIM - Trim whitespace from right end
pub struct StringRightTrimTool;

impl Tool for StringRightTrimTool {
    open spec fn names_itself(&self) -> bool {
        true
    }

    open spec fn spec_name(&self) -> Seq<char> {
        "STRING-RIGHT-TRIM"@
    }

    open spec fn admits(&self, args: Seq<Val>) -> bool {
        true
    }

    fn name(&self) -> &str {
        "STRING-RIGHT-TRIM"
    }

    fn description(&self) -> (r: &str)
        ensures
            r@ == "Trim whitespace from right end of string"@,
    {
        "Trim whitespace from right end of string"
    }

    fn execute(&self, args: &[Value]) -> (r: Result<Value, Error>)
        ensures
            outcome(r) == (string_map(first_string("STRING-RIGHT-TRIM"@, "Expected string argument"@, models(args@)), |s: Seq<char>| Val::Str(trim_end(s)))),
    {
        let s = first_string_exec("STRING-RIGHT-TRIM", "Expected string argument", args)?;
        Ok(Value::String(trim_end_exec(s)))
    }
}



/// SUBSEQ - Extract subsequence
pub struct SubseqTool;

impl Tool for SubseqTool {
    open spec fn names_itself(&self) -> bool {
        true
    }

    open spec fn spec_name(&self) -> Seq<char> {
        "SUBSEQ"@
    }

    open spec fn admits(&self, args: Seq<Val>) -> bool {
        true
    }

    fn name(&self) -> &str {
        "SUBSEQ"
    }

    fn description(&self) -> (r: &str)
        ensures
            r@ == "Extract subsequence from string or array"@,
    {
        "Extract subsequence from string or array"
    }

    fn execute(&self, args: &[Value]) -> (r: Result<Value, Error>)
        ensures
            outcome(r) == (subseq_result(models(args@))),
    {
        subseq_exec(args)
    }
}



/// SUBSTRING - Alias for SUBSEQ
pub struct SubstringTool;

impl Tool for SubstringTool {
    open spec fn names_itself(&self) -> bool {
        true
    }

    open spec fn spec_name(&self) -> Seq<char> {
        "SUBSTRING"@
    }

    open spec fn admits(&self, args: Seq<Val>) -> bool {
        true
    }

    fn name(&self) -> &str {
        "SUBSTRING"
    }

    fn description(&self) -> (r: &str)
        ensures
            r@ == "Extract substring (alias for SUBSEQ)"@,
    {
        "Extract substring (alias for SUBSEQ)"
    }

    fn execute(&self, args: &[Value]) -> (r: Result<Value, Error>)
        ensures
            outcome(r) == (subseq_result(models(args@))),
    {
        subseq_exec(args)
    }
}



/// CHAR-AT - Get character at index
pub struct CharAtTool;

impl Tool for CharAtTool {
    open spec fn names_itself(&self) -> bool {
        true
    }

    open spec fn spec_name(&self) -> Seq<char> {
        "CHAR-AT"@
    }

    open spec fn admits(&self, args: Seq<Val>) -> bool {
        true
    }

    fn name(&self) -> &str {
        "CHAR-AT"
    }

    fn description(&self) -> (r: &str)
        ensures
            r@ == "Get character at index"@,
    {
        "Get character at index"
    }

    fn execute(&self, args: &[Value]) -> (r: Result<Value, Error>)
        ensures
            outcome(r) == (char_at_result(models(args@))),
    {
        char_at_exec(args)
    }
}



/// CHAR-AT-INDEX - Alias for CHAR-AT
pub struct CharAtIndexTool;

impl Tool for CharAtIndexTool {
    open spec fn names_itself(&self) -> bool {
        true
    }

    open spec fn spec_name(&self) -> Seq<char> {
        "CHAR-AT-INDEX"@
    }

    open spec fn admits(&self, args: Seq<Val>) -> bool {
        true
    }

    fn name(&self) -> &str {
        "CHAR-AT-INDEX"
    }

    fn description(&self) -> (r: &str)
        ensures
            r@ == "Get character at index (alias for CHAR-AT)"@,
    {
        "Get character at index (alias for CHAR-AT)"
    }

    fn execute(&self, args: &[Value]) -> (r: Result<Value, Error>)
        ensures
            outcome(r) == (char_at_result(models(args@))),
    {
        char_at_exec(args)
    }
}



/// STRING= - String equality (case-sensitive)
pub struct StringEqualTool;

impl Tool for StringEqualTool {
    open spec fn names_itself(&self) -> bool {
        true
    }

    open spec fn spec_name(&self) -> Seq<char> {
        "STRING="@
    }

    open spec fn admits(&self, args: Seq<Val>) -> bool {
        true
    }

    fn name(&self) -> &str {
        "STRING="
    }

    fn description(&self) -> (r: &str)
        ensures
            r@ == "Check if strings are equal (case-sensitive)"@,
    {
        "Check if strings are equal (case-sensitive)"
    }

    fn execute(&self, args: &[Value]) -> (r: Result<Value, Error>)
        ensures
            outcome(r) == (pair_map(two_strings("STRING="@, "Expected 2 string arguments"@, models(args@)), |s: Seq<char>, t: Seq<char>| Val::Bool(s == t))),
    {
        let (s, t) = two_strings_exec("STRING=", "Expected 2 string arguments", args)?;
        Ok(Value::Bool(str_equal(s, t)))
    }
}



/// STRING/= - String not equal
pub struct StringNotEqualTool;

impl Tool for StringNotEqualTool {
    open spec fn names_itself(&self) -> bool {
        true
    }

    open spec fn spec_name(&self) -> Seq<char> {
        "STRING/="@
    }

    open spec fn admits(&self, args: Seq<Val>) -> bool {
        true
    }

    fn name(&self) -> &str {
        "STRING/="
    }

    fn description(&self) -> (r: &str)
        ensures
            r@ == "Check if strings are not equal"@,
    {
        "Check if strings are not equal"
    }

    fn execute(&self, args: &[Value]) -> (r: Result<Value, Error>)
        ensures
            outcome(r) == (pair_map(two_strings("STRING/="@, "Expected 2 string arguments"@, models(args@)), |s: Seq<char>, t: Seq<char>| Val::Bool(s != t))),
    {
        let (s, t) = two_strings_exec("STRING/=", "Expected 2 string arguments", args)?;
        Ok(Value::Bool(!str_equal(s, t)))
    }
}



/// STRING< - String less than
pub struct StringLessTool;

impl Tool for StringLessTool {
    open spec fn names_itself(&self) -> bool {
        true
    }

    open spec fn spec_name(&self) -> Seq<char> {
        "STRING<"@
    }

    open spec fn admits(&self, args: Seq<Val>) -> bool {
        true
    }

    fn name(&self) -> &str {
        "STRING<"
    }

    fn description(&self) -> (r: &str)
        ensures
            r@ == "Check if string1 < string2 (lexicographic)"@,
    {
        "Check if string1 < string2 (lexicographic)"
    }

    fn execute(&self, args: &[Value]) -> (r: Result<Value, Error>)
        ensures
            outcome(r) == (string_compare("STRING<"@, "Expected 2 string arguments"@, models(args@), false, CharOrder::Increasing)),
    {
        string_compare_exec("STRING<", "Expected 2 string arguments", args, false, CharOrder::Increasing)
    }
}



/// STRING> - String greater than
pub struct StringGreaterTool;

impl Tool for StringGreaterTool {
    open spec fn names_itself(&self) -> bool {
        true
    }

    open spec fn spec_name(&self) -> Seq<char> {
        "STRING>"@
    }

    open spec fn admits(&self, args: Seq<Val>) -> bool {
        true
    }

    fn name(&self) -> &str {
        "STRING>"
    }

    fn description(&self) -> (r: &str)
        ensures
            r@ == "Check if string1 > string2 (lexicographic)"@,
    {
        "Check if string1 > string2 (lexicographic)"
    }

    fn execute(&self, args: &[Value]) -> (r: Result<Value, Error>)
        ensures
            outcome(r) == (string_compare("STRING>"@, "Expected 2 string arguments"@, models(args@), false, CharOrder::Decreasing)),
    {
        string_compare_exec("STRING>", "Expected 2 string arguments", args, false, CharOrder::Decreasing)
    }
}



/// STRING<= - String less than or equal
pub struct StringLessOrEqualTool;

impl Tool for StringLessOrEqualTool {
    open spec fn names_itself(&self) -> bool {
        true
    }

    open spec fn spec_name(&self) -> Seq<char> {
        "STRING<="@
    }

    open spec fn admits(&self, args: Seq<Val>) -> bool {
        true
    }

    fn name(&self) -> &str {
        "STRING<="
    }

    fn description(&self) -> (r: &str)
        ensures
            r@ == "Check if string1 <= string2"@,
    {
        "Check if string1 <= string2"
    }

    fn execute(&self, args: &[Value]) -> (r: Result<Value, Error>)
        ensures
            outcome(r) == (string_compare("STRING<="@, "Expected 2 string arguments"@, models(args@), false, CharOrder::NonDecreasing)),
    {
        string_compare_exec("STRING<=", "Expected 2 string arguments", args, false, CharOrder::NonDecreasing)
    }
}



/// STRING>= - String greater than or equal
pub struct StringGreaterOrEqualTool;

impl Tool for StringGreaterOrEqualTool {
    open spec fn names_itself(&self) -> bool {
        true
    }

    open spec fn spec_name(&self) -> Seq<char> {
        "STRING>="@
    }

    open spec fn admits(&self, args: Seq<Val>) -> bool {
        true
    }

    fn name(&self) -> &str {
        "STRING>="
    }

    fn description(&self) -> (r: &str)
        ensures
            r@ == "Check if string1 >= string2"@,
    {
        "Check if string1 >= string2"
    }

    fn execute(&self, args: &[Value]) -> (r: Result<Value, Error>)
        ensures
            outcome(r) == (string_compare("STRING>="@, "Expected 2 string arguments"@, models(args@), false, CharOrder::NonIncreasing)),
    {
        string_compare_exec("STRING>=", "Expected 2 string arguments", args, false, CharOrder::NonIncreasing)
    }
}



/// STRING-EQUAL - Case-insensitive string equality
pub struct StringEqualp;

impl Tool for StringEqualp {
    open spec fn names_itself(&self) -> bool {
        true
    }

    open spec fn spec_name(&self) -> Seq<char> {
        "STRING-EQUAL"@
    }

    open spec fn admits(&self, args: Seq<Val>) -> bool {
        true
    }

    fn name(&self) -> &str {
        "STRING-EQUAL"
    }

    fn description(&self) -> (r: &str)
        ensures
            r@ == "Check if strings are equal (case-insensitive)"@,
    {
        "Check if strings are equal (case-insensitive)"
    }

    fn execute(&self, args: &[Value]) -> (r: Result<Value, Error>)
        ensures
            outcome(r) == (string_compare("STRING-EQUAL"@, "Expected 2 string arguments"@, models(args@), true, CharOrder::Equal)),
    {
        string_compare_exec("STRING-EQUAL", "Expected 2 string arguments", args, true, CharOrder::Equal)
    }
}



/// STRING-LESSP - Case-insensitive string less than
pub struct StringLesspTool;

impl Tool for StringLesspTool {
    open spec fn names_itself(&self) -> bool {
        true
    }

    open spec fn spec_name(&self) -> Seq<char> {
        "STRING-LESSP"@
    }

    open spec fn admits(&self, args: Seq<Val>) -> bool {
        true
    }

    fn name(&self) -> &str {
        "STRING-LESSP"
    }

    fn description(&self) -> (r: &str)
        ensures
            r@ == "Check if string1 < string2 (case-insensitive)"@,
    {
        "Check if string1 < string2 (case-insensitive)"
    }

    fn execute(&self, args: &[Value]) -> (r: Result<Value, Error>)
        ensures
            outcome(r) == (string_compare("STRING-LESSP"@, "Expected 2 string arguments"@, models(args@), true, CharOrder::Increasing)),
    {
        string_compare_exec("STRING-LESSP", "Expected 2 string arguments", args, true, CharOrder::Increasing)
    }
}



/// STRING-GREATERP - Case-insensitive string greater than
pub struct StringGreaterpTool;

impl Tool for StringGreaterpTool {
    open spec fn names_itself(&self) -> bool {
        true
    }

    open spec fn spec_name(&self) -> Seq<char> {
        "STRING-GREATERP"@
    }

    open spec fn admits(&self, args: Seq<Val>) -> bool {
        true
    }

    fn name(&self) -> &str {
        "STRING-GREATERP"
    }

    fn description(&self) -> (r: &str)
        ensures
            r@ == "Check if string1 > string2 (case-insensitive)"@,
    {
        "Check if string1 > string2 (case-insensitive)"
    }

    fn execute(&self, args: &[Value]) -> (r: Result<Value, Error>)
        ensures
            outcome(r) == (string_compare("STRING-GREATERP"@, "Expected 2 string arguments"@, models(args@), true, CharOrder::Decreasing)),
    {
        string_compare_exec("STRING-GREATERP", "Expected 2 string arguments", args, true, CharOrder::Decreasing)
    }
}



/// STRING-NOT-LESSP - Case-insensitive >= comparison
pub struct StringNotLesspTool;

impl Tool for StringNotLesspTool {
    open spec fn names_itself(&self) -> bool {
        true
    }

    open spec fn spec_name(&self) -> Seq<char> {
        "STRING-NOT-LESSP"@
    }

    open spec fn admits(&self, args: Seq<Val>) -> bool {
        true
    }

    fn name(&self) -> &str {
        "STRING-NOT-LESSP"
    }

    fn description(&self) -> (r: &str)
        ensures
            r@ == "Case-insensitive string >= comparison"@,
    {
        "Case-insensitive string >= comparison"
    }

    fn execute(&self, args: &[Value]) -> (r: Result<Value, Error>)
        ensures
            outcome(r) == (string_compare("STRING-NOT-LESSP"@, "Expected two string arguments"@, models(args@), true, CharOrder::NonIncreasing)),
    {
        string_compare_exec("STRING-NOT-LESSP", "Expected two string arguments", args, true, CharOrder::NonIncreasing)
    }
}



/// STRING-NOT-GREATERP - Case-insensitive <= comparison
pub struct StringNotGreaterpTool;

impl Tool for StringNotGreaterpTool {
    open spec fn names_itself(&self) -> bool {
        true
    }

    open spec fn spec_name(&self) -> Seq<char> {
        "STRING-NOT-GREATERP"@
    }

    open spec fn admits(&self, args: Seq<Val>) -> bool {
        true
    }

    fn name(&self) -> &str {
        "STRING-NOT-GREATERP"
    }

    fn description(&self) -> (r: &str)
        ensures
            r@ == "Case-insensitive string <= comparison"@,
    {
        "Case-insensitive string <= comparison"
    }

    fn execute(&self, args: &[Value]) -> (r: Result<Value, Error>)
        ensures
            outcome(r) == (string_compare("STRING-NOT-GREATERP"@, "Expected two string arguments"@, models(args@), true, CharOrder::NonDecreasing)),
    {
        string_compare_exec("STRING-NOT-GREATERP", "Expected two string arguments", args, true, CharOrder::NonDecreasing)
    }
}



/// The number of bytes of the UTF-8 encoding of `c`.
pub open spec fn utf8_width(c: char) -> nat {
    if (c as u32) < 0x80 {
        1
    } else if (c as u32) < 0x800 {
        2
    } else if (c as u32) < 0x10000 {
        3
    } else {
        4
    }
}

/// The number of bytes of the UTF-8 encoding of `s`.
pub open spec fn utf8_len(s: Seq<char>) -> nat
    decreases s.len(),
{
    if s.len() == 0 {
        0
    } else {
        utf8_len(s.drop_last()) + utf8_width(s.last())
    }
}

/// std's `str::len`: the length of the string's UTF-8 encoding in bytes.
#[verifier::external_body]
fn byte_len(s: &str) -> (n: usize)
    ensures
        n == utf8_len(s@),
{
    s.len()
}

proof fn lemma_utf8_prefix(s: Seq<char>, i: int)
    requires
        0 <= i <= s.len(),
    ensures
        utf8_len(s.take(i)) <= utf8_len(s),
    decreases s.len() - i,
{
    if i < s.len() {
        lemma_utf8_prefix(s, i + 1);
        assert(s.take(i + 1).drop_last() =~= s.take(i));
    } else {
        assert(s.take(i) =~= s);
    }
}

fn utf8_width_exec(c: char) -> (w: usize)
    ensures
        w == utf8_width(c),
{
    let u = c as u32;
    if u < 0x80 {
        1
    } else if u < 0x800 {
        2
    } else if u < 0x10000 {
        3
    } else {
        4
    }
}

/// The byte offset of the character at `i` in `s`.
fn byte_offset(s: &str, cs: &Vec<char>, i: usize) -> (r: usize)
    requires
        cs@ == s@,
        i <= cs@.len(),
    ensures
        r == utf8_len(s@.take(i as int)),
{
    let total = byte_len(s);
    let mut sum: usize = 0;
    let mut j: usize = 0;
    assert(s@.take(0) =~= Seq::<char>::empty());
    while j < i
        invariant
            cs@ == s@,
            j <= i <= cs@.len(),
            total == utf8_len(s@),
            sum == utf8_len(s@.take(j as int)),
        decreases i - j,
    {
        proof {
            lemma_utf8_prefix(s@, j + 1);
            assert(s@.take(j + 1).drop_last() =~= s@.take(j as int));
            assert(s@.take(j + 1).last() == cs@[j as int]);
        }
        sum = sum + utf8_width_exec(cs[j]);
        j = j + 1;
    }
    sum
}

/// Whether `n` occurs in `h` at `i`.
pub open spec fn matches_at(h: Seq<char>, n: Seq<char>, i: int) -> bool {
    0 <= i && i + n.len() <= h.len() && h.subrange(i, i + n.len()) == n
}

/// The first place at or after `i` where `n` occurs in `h`.
pub open spec fn find_from(h: Seq<char>, n: Seq<char>, i: int) -> Option<int>
    decreases h.len() + 1 - i,
{
    if i < 0 || i + n.len() > h.len() {
        None
    } else if matches_at(h, n, i) {
        Some(i)
    } else {
        find_from(h, n, i + 1)
    }
}

/// How many times `n` occurs in `h` from `i` on, counting from the left
/// without overlaps.
pub open spec fn count_from(h: Seq<char>, n: Seq<char>, i: int) -> nat
    decreases h.len() + 1 - i,
{
    if n.len() == 0 || i < 0 || i + n.len() > h.len() {
        0
    } else if matches_at(h, n, i) {
        1 + count_from(h, n, i + n.len())
    } else {
        count_from(h, n, i + 1)
    }
}

/// `h` from `i` on with each occurrence of a non-empty `old`, found from the
/// left without overlaps, replaced by `new`.
pub open spec fn replace_from(h: Seq<char>, old: Seq<char>, new: Seq<char>, i: int) -> Seq<char>
    decreases h.len() + 1 - i,
{
    if old.len() == 0 || i < 0 || i + old.len() > h.len() {
        h.skip(i)
    } else if matches_at(h, old, i) {
        new + replace_from(h, old, new, i + old.len())
    } else {
        seq![h[i]] + replace_from(h, old, new, i + 1)
    }
}

/// `new` before, between and after the characters of `h`: what replacing the
/// empty string gives.
pub open spec fn interleave(h: Seq<char>, new: Seq<char>) -> Seq<char>
    decreases h.len(),
{
    if h.len() == 0 {
        new
    } else {
        interleave(h.drop_last(), new) + seq![h.last()] + new
    }
}

/// Every occurrence of `old` in `h` replaced by `new` (std's `str::replace`).
pub open spec fn replace_all(h: Seq<char>, old: Seq<char>, new: Seq<char>) -> Seq<char> {
    if old.len() == 0 {
        interleave(h, new)
    } else {
        replace_from(h, old, new, 0)
    }
}

/// The first occurrence of `old` in `h` replaced by `new`.
pub open spec fn replace_first(h: Seq<char>, old: Seq<char>, new: Seq<char>) -> Seq<char> {
    match find_from(h, old, 0) {
        Some(i) => h.take(i) + new + h.skip(i + old.len()),
        None => h,
    }
}

/// The pieces of `h` between the occurrences of a non-empty `d`, as string
/// values; `start` is where the current piece began and `i` where the search goes on.
pub open spec fn split_from(h: Seq<char>, d: Seq<char>, start: int, i: int) -> Seq<Val>
    decreases h.len() + 1 - i,
{
    if d.len() == 0 || i < start || start < 0 || i + d.len() > h.len() {
        seq![Val::Str(h.subrange(start, h.len() as int))]
    } else if matches_at(h, d, i) {
        seq![Val::Str(h.subrange(start, i))] + split_from(h, d, i + d.len(), i + d.len())
    } else {
        split_from(h, d, start, i + 1)
    }
}

/// The characters of `s`, each as a one-character string value.
pub open spec fn char_values(s: Seq<char>) -> Seq<Val> {
    Seq::new(s.len(), |i: int| Val::Str(seq![s[i]]))
}

fn matches_at_exec(h: &Vec<char>, n: &Vec<char>, i: usize) -> (r: bool)
    ensures
        r == matches_at(h@, n@, i as int),
{
    if i > h.len() || n.len() > h.len() - i {
        return false;
    }
    let hl = h.len();
    let mut j: usize = 0;
    while j < n.len()
        invariant
            hl == h@.len(),
            i <= h@.len(),
            i + n@.len() <= h@.len(),
            j <= n@.len(),
            forall|k: int| 0 <= k < j ==> h@[i + k] == n@[k],
        decreases n.len() - j,
    {
        if h[i + j] != n[j] {
            assert(h@.subrange(i as int, i + n@.len())[j as int] != n@[j as int]);
            return false;
        }
        j = j + 1;
    }
    assert(h@.subrange(i as int, i + n@.len()) =~= n@);
    true
}

proof fn lemma_find_bounds(h: Seq<char>, n: Seq<char>, j: int)
    ensures
        find_from(h, n, j) matches Some(i) ==> j <= i && i + n.len() <= h.len(),
    decreases h.len() + 1 - j,
{
    if !(j < 0 || j + n.len() > h.len()) && !matches_at(h, n, j) {
        lemma_find_bounds(h, n, j + 1);
    }
}

fn find_exec(h: &Vec<char>, n: &Vec<char>) -> (r: Option<usize>)
    ensures
        match r {
            Some(i) => find_from(h@, n@, 0) == Some(i as int),
            None => find_from(h@, n@, 0) is None,
        },
{
    if n.len() == 0 {
        assert(h@.subrange(0, 0) =~= n@);
        return Some(0);
    }
    let mut i: usize = 0;
    while n.len() <= h.len() && i <= h.len() - n.len()
        invariant
            n@.len() > 0,
            i <= h@.len(),
            find_from(h@, n@, 0) == find_from(h@, n@, i as int),
        decreases h.len() + 1 - i,
    {
        if matches_at_exec(h, n, i) {
            return Some(i);
        }
        i = i + 1;
    }
    None
}

fn count_exec(h: &Vec<char>, n: &Vec<char>) -> (r: usize)
    requires
        n@.len() > 0,
    ensures
        r == count_from(h@, n@, 0),
{
    let mut i: usize = 0;
    let mut cnt: usize = 0;
    while n.len() <= h.len() && i <= h.len() - n.len()
        invariant
            n@.len() > 0,
            i <= h@.len() + 1,
            cnt <= i,
            cnt + count_from(h@, n@, i as int) == count_from(h@, n@, 0),
        decreases h.len() + 1 - i,
    {
        if matches_at_exec(h, n, i) {
            cnt = cnt + 1;
            i = i + n.len();
        } else {
            i = i + 1;
        }
    }
    cnt
}

pub(crate) fn replace_all_exec(h: &Vec<char>, old: &Vec<char>, new: &Vec<char>) -> (r: Vec<char>)
    ensures
        r@ == replace_all(h@, old@, new@),
{
    let mut out: Vec<char> = Vec::new();
    if old.len() == 0 {
        let mut i: usize = 0;
        let mut nv = new.clone();
        out.append(&mut nv);
        assert(h@.take(0) =~= Seq::<char>::empty());
        while i < h.len()
            invariant
                i <= h@.len(),
                out@ == interleave(h@.take(i as int), new@),
            decreases h.len() - i,
        {
            assert(h@.take(i + 1).drop_last() =~= h@.take(i as int));
            assert(h@.take(i + 1).last() == h@[i as int]);
            out.push(h[i]);
            let mut nv = new.clone();
            out.append(&mut nv);
            i = i + 1;
        }
        assert(h@.take(i as int) =~= h@);
        return out;
    }
    let mut i: usize = 0;
    while old.len() <= h.len() && i <= h.len() - old.len()
        invariant
            old@.len() > 0,
            i <= h@.len(),
            out@ + replace_from(h@, old@, new@, i as int) == replace_from(h@, old@, new@, 0),
        decreases h.len() + 1 - i,
    {
        let ghost prev = out@;
        if matches_at_exec(h, old, i) {
            let mut nv = new.clone();
            out.append(&mut nv);
            assert(out@ + replace_from(h@, old@, new@, i + old@.len()) =~= prev + (new@ + replace_from(h@, old@, new@, i + old@.len())));
            i = i + old.len();
        } else {
            out.push(h[i]);
            assert(out@ + replace_from(h@, old@, new@, i + 1) =~= prev + (seq![h@[i as int]] + replace_from(h@, old@, new@, i + 1)));
            i = i + 1;
        }
    }
    let mut rest = chars_skip(h, i);
    let ghost prev = out@;
    out.append(&mut rest);
    assert(out@ =~= prev + replace_from(h@, old@, new@, i as int));
    out
}

fn replace_first_exec(h: &Vec<char>, old: &Vec<char>, new: &Vec<char>) -> (r: Vec<char>)
    ensures
        r@ == replace_first(h@, old@, new@),
{
    proof {
        lemma_find_bounds(h@, old@, 0);
    }
    let hl = h.len();
    match find_exec(h, old) {
        Some(i) => {
            assert(i + old@.len() <= hl);
            let mut out = chars_range(h, 0, i);
            let mut nv = new.clone();
            out.append(&mut nv);
            let mut rest = chars_skip(h, i + old.len());
            out.append(&mut rest);
            assert(out@ =~= h@.take(i as int) + new@ + h@.skip(i + old@.len()));
            out
        },
        None => h.clone(),
    }
}

fn split_exec(h: &Vec<char>, d: &Vec<char>) -> (r: Vec<Value>)
    requires
        d@.len() > 0,
    ensures
        models(r@) == split_from(h@, d@, 0, 0),
{
    let mut out: Vec<Value> = Vec::new();
    let mut start: usize = 0;
    let mut i: usize = 0;
    while d.len() <= h.len() && i <= h.len() - d.len()
        invariant
            d@.len() > 0,
            start <= i <= h@.len(),
            models(out@) + split_from(h@, d@, start as int, i as int) == split_from(h@, d@, 0, 0),
        decreases h.len() + 1 - i,
    {
        if matches_at_exec(h, d, i) {
            let piece = chars_range(h, start, i);
            let ghost prev = models(out@);
            out.push(Value::String(string_from_chars(&piece)));
            assert(models(out@) =~= prev + seq![Val::Str(h@.subrange(start as int, i as int))]);
            i = i + d.len();
            start = i;
        } else {
            i = i + 1;
        }
    }
    let piece = chars_range(h, start, h.len());
    let ghost prev = models(out@);
    out.push(Value::String(string_from_chars(&piece)));
    assert(models(out@) =~= prev + split_from(h@, d@, start as int, i as int));
    out
}

pub(crate) fn char_values_exec(s: &Vec<char>) -> (r: Vec<Value>)
    ensures
        models(r@) == char_values(s@),
{
    let mut out: Vec<Value> = Vec::new();
    let mut i: usize = 0;
    while i < s.len()
        invariant
            i <= s@.len(),
            out@.len() == i,
            forall|j: int| 0 <= j < i ==> #[trigger] out@[j].model() == Val::Str(seq![s@[j]]),
        decreases s.len() - i,
    {
        out.push(Value::String(char_string(s[i])));
        i = i + 1;
    }
    assert(models(out@) =~= char_values(s@));
    out
}

/// The result of a tool that searches `h` for `n` and answers with the byte
/// offset of the first match, or null.
pub open spec fn offset_of(h: Seq<char>, n: Seq<char>) -> Val {
    match find_from(h, n, 0) {
        Some(i) => Val::Int(utf8_len(h.take(i)) as i64),
        None => Val::Null,
    }
}

fn offset_exec(h: &str, n: &Vec<char>) -> (r: Value)
    ensures
        r.model() == offset_of(h@, n@),
{
    let hs = chars_of(h);
    proof {
        lemma_find_bounds(h@, n@, 0);
    }
    match find_exec(&hs, n) {
        Some(i) => {
            let b = byte_offset(h, &hs, i);
            Value::Int(b as i64)
        },
        None => Value::Null,
    }
}

/// SEARCH - Search for substring
pub struct SearchTool;

impl Tool for SearchTool {
    open spec fn names_itself(&self) -> bool {
        true
    }

    open spec fn spec_name(&self) -> Seq<char> {
        "SEARCH"@
    }

    open spec fn admits(&self, args: Seq<Val>) -> bool {
        true
    }

    fn name(&self) -> &str {
        "SEARCH"
    }

    fn description(&self) -> (r: &str)
        ensures
            r@ == "Search for substring, return index or null"@,
    {
        "Search for substring, return index or null"
    }

    fn execute(&self, args: &[Value]) -> (r: Result<Value, Error>)
        ensures
            outcome(r) == (pair_map(two_strings("SEARCH"@, "Expected substring and string arguments"@, models(args@)), |n: Seq<char>, h: Seq<char>| offset_of(h, n))),
    {
        let (needle, haystack) = two_strings_exec("SEARCH", "Expected substring and string arguments", args)?;
        let n = chars_of(needle);
        Ok(offset_exec(haystack, &n))
    }
}



/// POSITION - Find position of character in string
pub struct PositionTool;

impl Tool for PositionTool {
    open spec fn names_itself(&self) -> bool {
        true
    }

    open spec fn spec_name(&self) -> Seq<char> {
        "POSITION"@
    }

    open spec fn admits(&self, args: Seq<Val>) -> bool {
        true
    }

    fn name(&self) -> &str {
        "POSITION"
    }

    fn description(&self) -> (r: &str)
        ensures
            r@ == "Find position of character in string"@,
    {
        "Find position of character in string"
    }

    fn execute(&self, args: &[Value]) -> (r: Result<Value, Error>)
        ensures
            outcome(r) == (match two_strings("POSITION"@, "Expected character and string arguments"@, models(args@)) {
                Err(e) => Err(e),
                Ok((n, h)) => if n.len() == 0 {
                    bad_args("POSITION"@, "Empty search string"@)
                } else {
                    yields(offset_of(h, seq![n[0]]))
                },
            }),
    {
        let (needle, haystack) = two_strings_exec("POSITION", "Expected character and string arguments", args)?;
        if needle.unicode_len() == 0 {
            return Err(invalid_args("POSITION", "Empty search string"));
        }
        let n = vec![needle.get_char(0)];
        assert(n@ =~= seq![needle@[0]]);
        Ok(offset_exec(haystack, &n))
    }
}



/// COUNT-OCCURRENCES - Count occurrences of substring
pub struct CountOccurrencesTool;

impl Tool for CountOccurrencesTool {
    open spec fn names_itself(&self) -> bool {
        true
    }

    open spec fn spec_name(&self) -> Seq<char> {
        "COUNT-OCCURRENCES"@
    }

    open spec fn admits(&self, args: Seq<Val>) -> bool {
        true
    }

    fn name(&self) -> &str {
        "COUNT-OCCURRENCES"
    }

    fn description(&self) -> (r: &str)
        ensures
            r@ == "Count occurrences of substring in string"@,
    {
        "Count occurrences of substring in string"
    }

    fn execute(&self, args: &[Value]) -> (r: Result<Value, Error>)
        ensures
            outcome(r) == (pair_map(two_strings("COUNT-OCCURRENCES"@, "Expected substring and string arguments"@, models(args@)),
                |n: Seq<char>, h: Seq<char>| Val::Int(count_from(h, n, 0) as i64))),
    {
        let (needle, haystack) = two_strings_exec("COUNT-OCCURRENCES", "Expected substring and string arguments", args)?;
        let n = chars_of(needle);
        if n.len() == 0 {
            return Ok(Value::Int(0));
        }
        let h = chars_of(haystack);
        let c = count_exec(&h, &n);
        Ok(Value::Int(c as i64))
    }
}



/// STRING-CONTAINS - Check if string contains substring
pub struct StringContainsTool;

impl Tool for StringContainsTool {
    open spec fn names_itself(&self) -> bool {
        true
    }

    open spec fn spec_name(&self) -> Seq<char> {
        "STRING-CONTAINS"@
    }

    open spec fn admits(&self, args: Seq<Val>) -> bool {
        true
    }

    fn name(&self) -> &str {
        "STRING-CONTAINS"
    }

    fn description(&self) -> (r: &str)
        ensures
            r@ == "Check if string contains substring"@,
    {
        "Check if string contains substring"
    }

    fn execute(&self, args: &[Value]) -> (r: Result<Value, Error>)
        ensures
            outcome(r) == (pair_map(two_strings("STRING-CONTAINS"@, "Expected string and substring arguments"@, models(args@)),
                |h: Seq<char>, n: Seq<char>| Val::Bool(find_from(h, n, 0) is Some))),
    {
        let (haystack, needle) = two_strings_exec("STRING-CONTAINS", "Expected string and substring arguments", args)?;
        let h = chars_of(haystack);
        let n = chars_of(needle);
        Ok(Value::Bool(find_exec(&h, &n).is_some()))
    }
}



/// INCLUDES - Alias for STRING-CONTAINS
pub struct IncludesTool;

impl Tool for IncludesTool {
    open spec fn names_itself(&self) -> bool {
        true
    }

    open spec fn spec_name(&self) -> Seq<char> {
        "INCLUDES"@
    }

    open spec fn admits(&self, args: Seq<Val>) -> bool {
        true
    }

    fn name(&self) -> &str {
        "INCLUDES"
    }

    fn description(&self) -> (r: &str)
        ensures
            r@ == "Check if string contains substring (alias for STRING-CONTAINS)"@,
    {
        "Check if string contains substring (alias for STRING-CONTAINS)"
    }

    fn execute(&self, args: &[Value]) -> (r: Result<Value, Error>)
        ensures
            outcome(r) == (pair_map(two_strings("STRING-CONTAINS"@, "Expected string and substring arguments"@, models(args@)),
                |h: Seq<char>, n: Seq<char>| Val::Bool(find_from(h, n, 0) is Some))),
    {
        StringContainsTool.execute(args)
    }
}



/// The strings of `vals`, or the type error of the first value that is not a string.
pub open spec fn strings_of(vals: Seq<Val>) -> Result<Seq<Seq<char>>, ErrV>
    decreases vals.len(),
{
    if vals.len() == 0 {
        Ok(Seq::empty())
    } else {
        match strings_of(vals.drop_last()) {
            Err(e) => Err(e),
            Ok(ss) => match str_of(vals.last()) {
                Err(e) => Err(e),
                Ok(s) => Ok(ss.push(s)),
            },
        }
    }
}

/// The arrays of `vals`, or the type error of the first value that is not an array.
pub open spec fn arrays_of(vals: Seq<Val>) -> Result<Seq<Seq<Val>>, ErrV>
    decreases vals.len(),
{
    if vals.len() == 0 {
        Ok(Seq::empty())
    } else {
        match arrays_of(vals.drop_last()) {
            Err(e) => Err(e),
            Ok(vs) => match elems(vals.last()) {
                Err(e) => Err(e),
                Ok(v) => Ok(vs.push(v)),
            },
        }
    }
}

/// The strings `ss` one after the other.
pub open spec fn concat_all(ss: Seq<Seq<char>>) -> Seq<char>
    decreases ss.len(),
{
    if ss.len() == 0 {
        Seq::empty()
    } else {
        concat_all(ss.drop_last()) + ss.last()
    }
}

/// The arrays `vs` one after the other.
pub open spec fn concat_arrays(vs: Seq<Seq<Val>>) -> Seq<Val>
    decreases vs.len(),
{
    if vs.len() == 0 {
        Seq::empty()
    } else {
        concat_arrays(vs.drop_last()) + vs.last()
    }
}

/// The strings `ss` with `d` between each two.
pub open spec fn join_with(ss: Seq<Seq<char>>, d: Seq<char>) -> Seq<char>
    decreases ss.len(),
{
    if ss.len() == 0 {
        Seq::empty()
    } else if ss.len() == 1 {
        ss[0]
    } else {
        join_with(ss.drop_last(), d) + d + ss.last()
    }
}

proof fn lemma_strings_of_err(a: Seq<Val>, k: int)
    requires
        0 <= k <= a.len(),
        strings_of(a.take(k)) is Err,
    ensures
        strings_of(a) == strings_of(a.take(k)),
    decreases a.len() - k,
{
    if k < a.len() {
        assert(a.take(k + 1).drop_last() =~= a.take(k));
        lemma_strings_of_err(a, k + 1);
    } else {
        assert(a.take(k) =~= a);
    }
}

proof fn lemma_arrays_of_err(a: Seq<Val>, k: int)
    requires
        0 <= k <= a.len(),
        arrays_of(a.take(k)) is Err,
    ensures
        arrays_of(a) == arrays_of(a.take(k)),
    decreases a.len() - k,
{
    if k < a.len() {
        assert(a.take(k + 1).drop_last() =~= a.take(k));
        lemma_arrays_of_err(a, k + 1);
    } else {
        assert(a.take(k) =~= a);
    }
}

/// The strings of `vals` one after the other (or the first type error).
fn concat_strings_exec(vals: &[Value]) -> (r: Result<String, Error>)
    ensures
        match r {
            Ok(s) => strings_of(models(vals@)) matches Ok(ss) && s@ == concat_all(ss),
            Err(e) => strings_of(models(vals@)) == Err::<Seq<Seq<char>>, ErrV>(e@),
        },
{
    let ghost a = models(vals@);
    let mut out = String::new();
    let ghost mut ss: Seq<Seq<char>> = Seq::empty();
    let mut i: usize = 0;
    assert(a.take(0) =~= Seq::<Val>::empty());
    while i < vals.len()
        invariant
            a == models(vals@),
            i <= vals@.len(),
            strings_of(a.take(i as int)) == Ok::<Seq<Seq<char>>, ErrV>(ss),
            out@ == concat_all(ss),
        decreases vals.len() - i,
    {
        assert(a.take(i + 1).drop_last() =~= a.take(i as int));
        assert(a.take(i + 1).last() == vals@[i as int].model());
        let s = match vals[i].as_string() {
            Ok(s) => s,
            Err(e) => {
                proof {
                    lemma_strings_of_err(a, i + 1);
                }
                return Err(e);
            },
        };
        out.append(s);
        proof {
            assert(ss.push(s@).drop_last() =~= ss);
            ss = ss.push(s@);
        }
        i = i + 1;
    }
    assert(a.take(i as int) =~= a);
    Ok(out)
}

/// The strings of `vals` joined with `d` (or the first type error).
fn join_strings_exec(vals: &[Value], d: &str) -> (r: Result<String, Error>)
    ensures
        match r {
            Ok(s) => strings_of(models(vals@)) matches Ok(ss) && s@ == join_with(ss, d@),
            Err(e) => strings_of(models(vals@)) == Err::<Seq<Seq<char>>, ErrV>(e@),
        },
{
    let ghost a = models(vals@);
    let mut out = String::new();
    let ghost mut ss: Seq<Seq<char>> = Seq::empty();
    let mut i: usize = 0;
    assert(a.take(0) =~= Seq::<Val>::empty());
    while i < vals.len()
        invariant
            a == models(vals@),
            i <= vals@.len(),
            ss.len() == i,
            strings_of(a.take(i as int)) == Ok::<Seq<Seq<char>>, ErrV>(ss),
            out@ == join_with(ss, d@),
        decreases vals.len() - i,
    {
        assert(a.take(i + 1).drop_last() =~= a.take(i as int));
        assert(a.take(i + 1).last() == vals@[i as int].model());
        let s = match vals[i].as_string() {
            Ok(s) => s,
            Err(e) => {
                proof {
                    lemma_strings_of_err(a, i + 1);
                }
                return Err(e);
            },
        };
        if i > 0 {
            out.append(d);
        }
        out.append(s);
        proof {
            assert(ss.push(s@).drop_last() =~= ss);
            if i == 0 {
                assert(out@ =~= ss.push(s@)[0]);
            } else {
                assert(out@ =~= join_with(ss, d@) + d@ + s@);
            }
            ss = ss.push(s@);
        }
        i = i + 1;
    }
    assert(a.take(i as int) =~= a);
    Ok(out)
}

/// The arrays of `vals` one after the other (or the first type error).
fn concat_arrays_exec(vals: &[Value]) -> (r: Result<Vec<Value>, Error>)
    ensures
        match r {
            Ok(v) => arrays_of(models(vals@)) matches Ok(vs) && models(v@) == concat_arrays(vs),
            Err(e) => arrays_of(models(vals@)) == Err::<Seq<Seq<Val>>, ErrV>(e@),
        },
{
    let ghost a = models(vals@);
    let mut out: Vec<Value> = Vec::new();
    let ghost mut vs: Seq<Seq<Val>> = Seq::empty();
    let mut i: usize = 0;
    assert(a.take(0) =~= Seq::<Val>::empty());
    assert(models(out@) =~= Seq::<Val>::empty());
    while i < vals.len()
        invariant
            a == models(vals@),
            i <= vals@.len(),
            arrays_of(a.take(i as int)) == Ok::<Seq<Seq<Val>>, ErrV>(vs),
            models(out@) == concat_arrays(vs),
        decreases vals.len() - i,
    {
        assert(a.take(i + 1).drop_last() =~= a.take(i as int));
        assert(a.take(i + 1).last() == vals@[i as int].model());
        let arr = match vals[i].as_array() {
            Ok(arr) => arr,
            Err(e) => {
                proof {
                    lemma_arrays_of_err(a, i + 1);
                }
                return Err(e);
            },
        };
        let mut c = copy_values(arr);
        let ghost prev = out@;
        out.append(&mut c);
        proof {
            assert(models(out@) =~= models(prev) + models(arr@));
            assert(vs.push(models(arr@)).drop_last() =~= vs);
            vs = vs.push(models(arr@));
        }
        i = i + 1;
    }
    assert(a.take(i as int) =~= a);
    Ok(out)
}

/// The result of CONCATENATE (and of STRING-APPEND and CONCAT, which hand
/// their arguments to it).
pub open spec fn concatenate_result(a: Seq<Val>) -> Result<Val, ErrV> {
    if a.len() == 0 {
        yields(Val::Str(Seq::empty()))
    } else {
        match strings_of(a) {
            Ok(ss) => yields(Val::Str(concat_all(ss))),
            Err(_) => match arrays_of(a) {
                Ok(vs) => yields(Val::Arr(concat_arrays(vs))),
                Err(_) => Err(ErrV::TypeError { expected: "all strings or all arrays"@, got: "mixed types"@ }),
            },
        }
    }
}

fn concatenate_exec(args: &[Value]) -> (r: Result<Value, Error>)
    ensures
        outcome(r) == concatenate_result(models(args@)),
{
    if args.len() == 0 {
        return Ok(Value::String(String::new()));
    }
    match concat_strings_exec(args) {
        Ok(s) => {
            return Ok(Value::String(s));
        },
        Err(_) => {},
    }
    match concat_arrays_exec(args) {
        Ok(v) => Ok(Value::Array(v)),
        Err(_) => Err(Error::TypeError { expected: owned("all strings or all arrays"), got: owned("mixed types") }),
    }
}

/// The result of STRING-SPLIT (and of SPLIT, which hands its arguments to it).
pub open spec fn split_result(a: Seq<Val>) -> Result<Val, ErrV> {
    match two_strings("STRING-SPLIT"@, "Expected string and delimiter arguments"@, a) {
        Err(e) => Err(e),
        Ok((s, d)) => yields(Val::Arr(if d.len() == 0 { char_values(s) } else { split_from(s, d, 0, 0) })),
    }
}

fn split_tool_exec(args: &[Value]) -> (r: Result<Value, Error>)
    ensures
        outcome(r) == split_result(models(args@)),
{
    let (s, delimiter) = two_strings_exec("STRING-SPLIT", "Expected string and delimiter arguments", args)?;
    let h = chars_of(s);
    let d = chars_of(delimiter);
    if d.len() == 0 {
        Ok(Value::Array(char_values_exec(&h)))
    } else {
        Ok(Value::Array(split_exec(&h, &d)))
    }
}

/// The result of STRING-JOIN (and of JOIN, which hands its arguments to it).
pub open spec fn join_result(a: Seq<Val>) -> Result<Val, ErrV> {
    if a.len() < 2 {
        bad_args("STRING-JOIN"@, "Expected array and delimiter arguments"@)
    } else {
        match elems(a[0]) {
            Err(e) => Err(e),
            Ok(arr) => match str_of(a[1]) {
                Err(e) => Err(e),
                Ok(d) => match strings_of(arr) {
                    Err(e) => Err(e),
                    Ok(ss) => yields(Val::Str(join_with(ss, d))),
                },
            },
        }
    }
}

fn join_tool_exec(args: &[Value]) -> (r: Result<Value, Error>)
    ensures
        outcome(r) == join_result(models(args@)),
{
    if args.len() < 2 {
        return Err(invalid_args("STRING-JOIN", "Expected array and delimiter arguments"));
    }
    let arr = args[0].as_array()?;
    let delimiter = args[1].as_string()?;
    let s = join_strings_exec(arr.as_slice(), delimiter)?;
    Ok(Value::String(s))
}

/// The result of STRING-STARTS-WITH (and of STARTS-WITH).
pub open spec fn starts_with_result(a: Seq<Val>) -> Result<Val, ErrV> {
    pair_map(two_strings("STRING-STARTS-WITH"@, "Expected string and prefix arguments"@, a),
        |s: Seq<char>, p: Seq<char>| Val::Bool(p.len() <= s.len() && s.take(p.len() as int) == p))
}

/// The result of STRING-ENDS-WITH (and of ENDS-WITH).
pub open spec fn ends_with_result(a: Seq<Val>) -> Result<Val, ErrV> {
    pair_map(two_strings("STRING-ENDS-WITH"@, "Expected string and suffix arguments"@, a),
        |s: Seq<char>, p: Seq<char>| Val::Bool(p.len() <= s.len() && s.skip(s.len() - p.len()) == p))
}

fn starts_with_exec(args: &[Value]) -> (r: Result<Value, Error>)
    ensures
        outcome(r) == starts_with_result(models(args@)),
{
    let (s, prefix) = two_strings_exec("STRING-STARTS-WITH", "Expected string and prefix arguments", args)?;
    let h = chars_of(s);
    let p = chars_of(prefix);
    let b = matches_at_exec(&h, &p, 0);
    proof {
        if p@.len() <= h@.len() {
            assert(h@.subrange(0, p@.len() as int) =~= h@.take(p@.len() as int));
        }
    }
    Ok(Value::Bool(b))
}

fn ends_with_exec(args: &[Value]) -> (r: Result<Value, Error>)
    ensures
        outcome(r) == ends_with_result(models(args@)),
{
    let (s, suffix) = two_strings_exec("STRING-ENDS-WITH", "Expected string and suffix arguments", args)?;
    let h = chars_of(s);
    let p = chars_of(suffix);
    if p.len() > h.len() {
        return Ok(Value::Bool(false));
    }
    let b = matches_at_exec(&h, &p, h.len() - p.len());
    assert(h@.subrange(h@.len() - p@.len(), h@.len() as int) =~= h@.skip(h@.len() - p@.len()));
    Ok(Value::Bool(b))
}

/// The first character of the string, as CHAR-UPCASE and the like read it.
pub open spec fn first_char(tool: Seq<char>, a: Seq<Val>) -> Result<char, ErrV> {
    match first_string(tool, "Expected string argument"@, a) {
        Err(e) => Err(e),
        Ok(s) => if s.len() == 0 {
            Err(ErrV::InvalidArguments { tool, reason: "Empty string"@ })
        } else {
            Ok(s[0])
        },
    }
}

fn first_char_exec(tool: &str, args: &[Value]) -> (r: Result<char, Error>)
    ensures
        match r {
            Ok(c) => first_char(tool@, models(args@)) == Ok::<char, ErrV>(c),
            Err(e) => first_char(tool@, models(args@)) == Err::<char, ErrV>(e@),
        },
{
    let s = first_string_exec(tool, "Expected string argument", args)?;
    if s.unicode_len() == 0 {
        return Err(invalid_args(tool, "Empty string"));
    }
    Ok(s.get_char(0))
}

/// The result of CHAR (and of SCHAR, which hands its arguments to it).
pub open spec fn char_result(a: Seq<Val>) -> Result<Val, ErrV> {
    if a.len() < 2 {
        bad_args("CHAR"@, "Expected string and index arguments"@)
    } else {
        match str_of(a[0]) {
            Err(e) => Err(e),
            Ok(s) => match int_of(a[1]) {
                Err(e) => Err(e),
                Ok(n) => {
                    let index = n as usize;
                    if index < s.len() {
                        yields(Val::Str(seq![s[index as int]]))
                    } else {
                        bad_args("CHAR"@, "Index "@ + decimal(index as nat) + " out of bounds"@)
                    }
                },
            },
        }
    }
}

fn char_exec(args: &[Value]) -> (r: Result<Value, Error>)
    ensures
        outcome(r) == char_result(models(args@)),
{
    if args.len() < 2 {
        return Err(invalid_args("CHAR", "Expected string and index arguments"));
    }
    let s = args[0].as_string()?;
    let index = args[1].as_int()? as usize;
    if index < s.unicode_len() {
        Ok(Value::String(char_string(s.get_char(index))))
    } else {
        let num = u64_to_string(index as u64);
        let head = concat("Index ", num.as_str());
        let reason = concat(head.as_str(), " out of bounds");
        Err(Error::InvalidArguments { tool: owned("CHAR"), reason })
    }
}

/// Whether some character of `s` satisfies `p`.
pub open spec fn some_char(s: Seq<char>, p: spec_fn(char) -> bool) -> bool {
    exists|i: int| 0 <= i < s.len() && p(#[trigger] s[i])
}

/// Whether some letter of `s` is there and every letter satisfies `p`.
pub open spec fn letters_all(s: Seq<char>, p: spec_fn(char) -> bool) -> bool {
    some_char(s, |c: char| alphabetic(c)) && forall|i: int| 0 <= i < s.len() && alphabetic(#[trigger] s[i]) ==> p(s[i])
}

fn case_flags(s: &str) -> (r: (bool, bool, bool, bool, bool))
    ensures
        r.0 == some_char(s@, |c: char| upper_case(c)),
        r.1 == some_char(s@, |c: char| lower_case(c)),
        r.2 == some_char(s@, |c: char| alphabetic(c)),
        r.3 == (forall|i: int| 0 <= i < s@.len() && alphabetic(#[trigger] s@[i]) ==> upper_case(s@[i])),
        r.4 == (forall|i: int| 0 <= i < s@.len() && alphabetic(#[trigger] s@[i]) ==> lower_case(s@[i])),
{
    let cs = chars_of(s);
    let mut up = false;
    let mut low = false;
    let mut alpha = false;
    let mut all_up = true;
    let mut all_low = true;
    let mut i: usize = 0;
    while i < cs.len()
        invariant
            cs@ == s@,
            i <= cs@.len(),
            up == (exists|j: int| 0 <= j < i && upper_case(#[trigger] cs@[j])),
            low == (exists|j: int| 0 <= j < i && lower_case(#[trigger] cs@[j])),
            alpha == (exists|j: int| 0 <= j < i && alphabetic(#[trigger] cs@[j])),
            all_up == (forall|j: int| 0 <= j < i && alphabetic(#[trigger] cs@[j]) ==> upper_case(cs@[j])),
            all_low == (forall|j: int| 0 <= j < i && alphabetic(#[trigger] cs@[j]) ==> lower_case(cs@[j])),
        decreases cs.len() - i,
    {
        let c = cs[i];
        let u = char_is_uppercase(c);
        let l = char_is_lowercase(c);
        let a = char_is_alphabetic(c);
        up = up || u;
        low = low || l;
        alpha = alpha || a;
        all_up = all_up && (!a || u);
        all_low = all_low && (!a || l);
        i = i + 1;
        assert(cs@[i - 1] == c);
    }
    (up, low, alpha, all_up, all_low)
}

/// MAKE-STRING - Create string of specified length
pub struct MakeStringTool;

impl Tool for MakeStringTool {
    open spec fn names_itself(&self) -> bool {
        true
    }

    open spec fn spec_name(&self) -> Seq<char> {
        "MAKE-STRING"@
    }

    open spec fn admits(&self, args: Seq<Val>) -> bool {
        (args.len() > 0 && args[0] is Int) ==> (args[0]->Int_0 as usize) as int <= isize::MAX as int / 4
    }

    fn name(&self) -> &str {
        "MAKE-STRING"
    }

    fn description(&self) -> (r: &str)
        ensures
            r@ == "Create string of specified length filled with character"@,
    {
        "Create string of specified length filled with character"
    }

    fn execute(&self, args: &[Value]) -> (r: Result<Value, Error>)
        ensures
            outcome(r) == (if args@.len() == 0 { bad_args("MAKE-STRING"@, "Expected length argument"@) } else {
                match int_of(models(args@)[0]) {
                    Err(e) => Err(e),
                    Ok(n) => {
                        let ch: Result<char, ErrV> = if args@.len() > 1 {
                            match str_of(models(args@)[1]) {
                                Err(e) => Err(e),
                                Ok(s) => Ok(if s.len() > 0 { s[0] } else { ' ' }),
                            }
                        } else {
                            Ok(' ')
                        };
                        match ch {
                            Err(e) => Err(e),
                            Ok(c) => yields(Val::Str(Seq::new(n as usize as nat, |i: int| c))),
                        }
                    },
                }
            }),
    {
        if args.len() == 0 {
            return Err(invalid_args("MAKE-STRING", "Expected length argument"));
        }
        let len = args[0].as_int()? as usize;
        let ch: char = if args.len() > 1 {
            let s = args[1].as_string()?;
            if s.unicode_len() > 0 { s.get_char(0) } else { ' ' }
        } else {
            ' '
        };
        let mut out: Vec<char> = Vec::new();
        let mut i: usize = 0;
        while i < len
            invariant
                i <= len,
                out@ == Seq::new(i as nat, |j: int| ch),
            decreases len - i,
        {
            out.push(ch);
            i = i + 1;
            assert(out@ =~= Seq::new(i as nat, |j: int| ch));
        }
        Ok(Value::String(string_from_chars(&out)))
    }
}



/// CONCATENATE - Concatenate sequences (strings or arrays)
pub struct ConcatenateTool;

impl Tool for ConcatenateTool {
    open spec fn names_itself(&self) -> bool {
        true
    }

    open spec fn spec_name(&self) -> Seq<char> {
        "CONCATENATE"@
    }

    open spec fn admits(&self, args: Seq<Val>) -> bool {
        true
    }

    fn name(&self) -> &str {
        "CONCATENATE"
    }

    fn description(&self) -> (r: &str)
        ensures
            r@ == "Concatenate strings or arrays"@,
    {
        "Concatenate strings or arrays"
    }

    fn execute(&self, args: &[Value]) -> (r: Result<Value, Error>)
        ensures
            outcome(r) == (concatenate_result(models(args@))),
    {
        concatenate_exec(args)
    }
}



/// STRING-APPEND - Convenient alias for CONCATENATE
pub struct StringAppendTool;

impl Tool for StringAppendTool {
    open spec fn names_itself(&self) -> bool {
        true
    }

    open spec fn spec_name(&self) -> Seq<char> {
        "STRING-APPEND"@
    }

    open spec fn admits(&self, args: Seq<Val>) -> bool {
        true
    }

    fn name(&self) -> &str {
        "STRING-APPEND"
    }

    fn description(&self) -> (r: &str)
        ensures
            r@ == "Append strings together (alias for CONCATENATE)"@,
    {
        "Append strings together (alias for CONCATENATE)"
    }

    fn execute(&self, args: &[Value]) -> (r: Result<Value, Error>)
        ensures
            outcome(r) == (concatenate_result(models(args@))),
    {
        concatenate_exec(args)
    }
}



/// CONCAT - Alias for CONCATENATE (shorter name)
pub struct ConcatTool;

impl Tool for ConcatTool {
    open spec fn names_itself(&self) -> bool {
        true
    }

    open spec fn spec_name(&self) -> Seq<char> {
        "CONCAT"@
    }

    open spec fn admits(&self, args: Seq<Val>) -> bool {
        true
    }

    fn name(&self) -> &str {
        "CONCAT"
    }

    fn description(&self) -> (r: &str)
        ensures
            r@ == "Concatenate strings (alias for CONCATENATE)"@,
    {
        "Concatenate strings (alias for CONCATENATE)"
    }

    fn execute(&self, args: &[Value]) -> (r: Result<Value, Error>)
        ensures
            outcome(r) == (concatenate_result(models(args@))),
    {
        concatenate_exec(args)
    }
}



/// CHAR-CODE - Get character code (Unicode code point)
pub struct CharCodeTool;

impl Tool for CharCodeTool {
    open spec fn names_itself(&self) -> bool {
        true
    }

    open spec fn spec_name(&self) -> Seq<char> {
        "CHAR-CODE"@
    }

    open spec fn admits(&self, args: Seq<Val>) -> bool {
        true
    }

    fn name(&self) -> &str {
        "CHAR-CODE"
    }

    fn description(&self) -> (r: &str)
        ensures
            r@ == "Get Unicode code point of character"@,
    {
        "Get Unicode code point of character"
    }

    fn execute(&self, args: &[Value]) -> (r: Result<Value, Error>)
        ensures
            outcome(r) == (match first_char("CHAR-CODE"@, models(args@)) {
                Err(e) => Err(e),
                Ok(c) => yields(Val::Int((c as u32) as i64)),
            }),
    {
        let c = first_char_exec("CHAR-CODE", args)?;
        Ok(Value::Int((c as u32) as i64))
    }
}



/// CODE-CHAR - Get character from code point
pub struct CodeCharTool;

impl Tool for CodeCharTool {
    open spec fn names_itself(&self) -> bool {
        true
    }

    open spec fn spec_name(&self) -> Seq<char> {
        "CODE-CHAR"@
    }

    open spec fn admits(&self, args: Seq<Val>) -> bool {
        true
    }

    fn name(&self) -> &str {
        "CODE-CHAR"
    }

    fn description(&self) -> (r: &str)
        ensures
            r@ == "Get character from Unicode code point"@,
    {
        "Get character from Unicode code point"
    }

    fn execute(&self, args: &[Value]) -> (r: Result<Value, Error>)
        ensures
            outcome(r) == (if args@.len() == 0 { bad_args("CODE-CHAR"@, "Expected integer argument"@) } else {
                match int_of(models(args@)[0]) {
                    Err(e) => Err(e),
                    Ok(code) => if scalar_value(code as u32) {
                        yields(Val::Str(seq![(code as u32) as char]))
                    } else {
                        bad_args("CODE-CHAR"@, "Invalid Unicode code point: "@ + int_decimal(code as int))
                    },
                }
            }),
    {
        if args.len() == 0 {
            return Err(invalid_args("CODE-CHAR", "Expected integer argument"));
        }
        let code = args[0].as_int()?;
        match char_from_u32(code as u32) {
            Some(c) => Ok(Value::String(char_string(c))),
            None => {
                let num = i64_to_string(code);
                Err(Error::InvalidArguments { tool: owned("CODE-CHAR"), reason: concat("Invalid Unicode code point: ", num.as_str()) })
            },
        }
    }
}



/// CHAR-UPCASE - Convert character to uppercase
pub struct CharUpcaseTool;

impl Tool for CharUpcaseTool {
    open spec fn names_itself(&self) -> bool {
        true
    }

    open spec fn spec_name(&self) -> Seq<char> {
        "CHAR-UPCASE"@
    }

    open spec fn admits(&self, args: Seq<Val>) -> bool {
        true
    }

    fn name(&self) -> &str {
        "CHAR-UPCASE"
    }

    fn description(&self) -> (r: &str)
        ensures
            r@ == "Convert character to uppercase"@,
    {
        "Convert character to uppercase"
    }

    fn execute(&self, args: &[Value]) -> (r: Result<Value, Error>)
        ensures
            outcome(r) == (match first_char("CHAR-UPCASE"@, models(args@)) {
                Err(e) => Err(e),
                Ok(c) => yields(Val::Str(seq![upper_chars(c)[0]])),
            }),
    {
        let c = first_char_exec("CHAR-UPCASE", args)?;
        let u = char_to_uppercase(c);
        Ok(Value::String(char_string(u[0])))
    }
}



/// CHAR-DOWNCASE - Convert character to lowercase
pub struct CharDowncaseTool;

impl Tool for CharDowncaseTool {
    open spec fn names_itself(&self) -> bool {
        true
    }

    open spec fn spec_name(&self) -> Seq<char> {
        "CHAR-DOWNCASE"@
    }

    open spec fn admits(&self, args: Seq<Val>) -> bool {
        true
    }

    fn name(&self) -> &str {
        "CHAR-DOWNCASE"
    }

    fn description(&self) -> (r: &str)
        ensures
            r@ == "Convert character to lowercase"@,
    {
        "Convert character to lowercase"
    }

    fn execute(&self, args: &[Value]) -> (r: Result<Value, Error>)
        ensures
            outcome(r) == (match first_char("CHAR-DOWNCASE"@, models(args@)) {
                Err(e) => Err(e),
                Ok(c) => yields(Val::Str(seq![lower_chars(c)[0]])),
            }),
    {
        let c = first_char_exec("CHAR-DOWNCASE", args)?;
        let l = char_to_lowercase(c);
        Ok(Value::String(char_string(l[0])))
    }
}



/// REPLACE - Replace first occurrence of substring
pub struct ReplaceTool;

impl Tool for ReplaceTool {
    open spec fn names_itself(&self) -> bool {
        true
    }

    open spec fn spec_name(&self) -> Seq<char> {
        "REPLACE"@
    }

    open spec fn admits(&self, args: Seq<Val>) -> bool {
        true
    }

    fn name(&self) -> &str {
        "REPLACE"
    }

    fn description(&self) -> (r: &str)
        ensures
            r@ == "Replace first occurrence of substring"@,
    {
        "Replace first occurrence of substring"
    }

    fn execute(&self, args: &[Value]) -> (r: Result<Value, Error>)
        ensures
            outcome(r) == (if args@.len() < 3 { bad_args("REPLACE"@, "Expected string, old, and new arguments"@) } else {
                match two_strings("REPLACE"@, "Expected string, old, and new arguments"@, models(args@)) {
                    Err(e) => Err(e),
                    Ok((s, old)) => match str_of(models(args@)[2]) {
                        Err(e) => Err(e),
                        Ok(new) => yields(Val::Str(replace_first(s, old, new))),
                    },
                }
            }),
    {
        if args.len() < 3 {
            return Err(invalid_args("REPLACE", "Expected string, old, and new arguments"));
        }
        let (s, old) = two_strings_exec("REPLACE", "Expected string, old, and new arguments", args)?;
        let new = args[2].as_string()?;
        let r = replace_first_exec(&chars_of(s), &chars_of(old), &chars_of(new));
        Ok(Value::String(string_from_chars(&r)))
    }
}



/// REPLACE-ALL - Replace all occurrences of substring
pub struct ReplaceAllTool;

impl Tool for ReplaceAllTool {
    open spec fn names_itself(&self) -> bool {
        true
    }

    open spec fn spec_name(&self) -> Seq<char> {
        "REPLACE-ALL"@
    }

    open spec fn admits(&self, args: Seq<Val>) -> bool {
        true
    }

    fn name(&self) -> &str {
        "REPLACE-ALL"
    }

    fn description(&self) -> (r: &str)
        ensures
            r@ == "Replace all occurrences of substring"@,
    {
        "Replace all occurrences of substring"
    }

    fn execute(&self, args: &[Value]) -> (r: Result<Value, Error>)
        ensures
            outcome(r) == (if args@.len() < 3 { bad_args("REPLACE-ALL"@, "Expected string, old, and new arguments"@) } else {
                match two_strings("REPLACE-ALL"@, "Expected string, old, and new arguments"@, models(args@)) {
                    Err(e) => Err(e),
                    Ok((s, old)) => match str_of(models(args@)[2]) {
                        Err(e) => Err(e),
                        Ok(new) => yields(Val::Str(replace_all(s, old, new))),
                    },
                }
            }),
    {
        if args.len() < 3 {
            return Err(invalid_args("REPLACE-ALL", "Expected string, old, and new arguments"));
        }
        let (s, old) = two_strings_exec("REPLACE-ALL", "Expected string, old, and new arguments", args)?;
        let new = args[2].as_string()?;
        let r = replace_all_exec(&chars_of(s), &chars_of(old), &chars_of(new));
        Ok(Value::String(string_from_chars(&r)))
    }
}



/// STRING-REVERSE - Reverse a string
pub struct ReverseTool;

impl Tool for ReverseTool {
    open spec fn names_itself(&self) -> bool {
        true
    }

    open spec fn spec_name(&self) -> Seq<char> {
        "STRING-REVERSE"@
    }

    open spec fn admits(&self, args: Seq<Val>) -> bool {
        true
    }

    fn name(&self) -> &str {
        "STRING-REVERSE"
    }

    fn description(&self) -> (r: &str)
        ensures
            r@ == "Reverse a string"@,
    {
        "Reverse a string"
    }

    fn execute(&self, args: &[Value]) -> (r: Result<Value, Error>)
        ensures
            outcome(r) == (string_map(first_string("STRING-REVERSE"@, "Expected string argument"@, models(args@)), |s: Seq<char>| Val::Str(s.reverse()))),
    {
        let s = first_string_exec("STRING-REVERSE", "Expected string argument", args)?;
        let cs = chars_of(s);
        let mut out: Vec<char> = Vec::new();
        let mut i: usize = cs.len();
        while i > 0
            invariant
                i <= cs@.len(),
                out@ == cs@.skip(i as int).reverse(),
            decreases i,
        {
            i = i - 1;
            out.push(cs[i]);
            assert(out@ =~= cs@.skip(i as int).reverse());
        }
        assert(cs@.skip(0) =~= cs@);
        Ok(Value::String(string_from_chars(&out)))
    }
}



/// STRINGP - Type predicate for strings
pub struct StringpTool;

impl Tool for StringpTool {
    open spec fn names_itself(&self) -> bool {
        true
    }

    open spec fn spec_name(&self) -> Seq<char> {
        "STRINGP"@
    }

    open spec fn admits(&self, args: Seq<Val>) -> bool {
        true
    }

    fn name(&self) -> &str {
        "STRINGP"
    }

    fn description(&self) -> (r: &str)
        ensures
            r@ == "Check if value is a string"@,
    {
        "Check if value is a string"
    }

    fn execute(&self, args: &[Value]) -> (r: Result<Value, Error>)
        ensures
            outcome(r) == (yields(Val::Bool(args@.len() > 0 && models(args@)[0] is Str))),
    {
        if args.len() == 0 {
            return Ok(Value::Bool(false));
        }
        Ok(Value::Bool(matches!(args[0], Value::String(_))))
    }
}



/// SIMPLE-STRING-P - Check if value is a simple string
pub struct SimpleStringPTool;

impl Tool for SimpleStringPTool {
    open spec fn names_itself(&self) -> bool {
        true
    }

    open spec fn spec_name(&self) -> Seq<char> {
        "SIMPLE-STRING-P"@
    }

    open spec fn admits(&self, args: Seq<Val>) -> bool {
        true
    }

    fn name(&self) -> &str {
        "SIMPLE-STRING-P"
    }

    fn description(&self) -> (r: &str)
        ensures
            r@ == "Check if value is a simple string (same as STRINGP in Solisp)"@,
    {
        "Check if value is a simple string (same as STRINGP in Solisp)"
    }

    fn execute(&self, args: &[Value]) -> (r: Result<Value, Error>)
        ensures
            outcome(r) == (yields(Val::Bool(args@.len() > 0 && models(args@)[0] is Str))),
    {
        if args.len() == 0 {
            return Ok(Value::Bool(false));
        }
        Ok(Value::Bool(matches!(args[0], Value::String(_))))
    }
}



/// BOTH-CASE-P - Check if string contains both uppercase and lowercase characters
pub struct BothCasePTool;

impl Tool for BothCasePTool {
    open spec fn names_itself(&self) -> bool {
        true
    }

    open spec fn spec_name(&self) -> Seq<char> {
        "BOTH-CASE-P"@
    }

    open spec fn admits(&self, args: Seq<Val>) -> bool {
        true
    }

    fn name(&self) -> &str {
        "BOTH-CASE-P"
    }

    fn description(&self) -> (r: &str)
        ensures
            r@ == "Check if string contains both uppercase and lowercase characters"@,
    {
        "Check if string contains both uppercase and lowercase characters"
    }

    fn execute(&self, args: &[Value]) -> (r: Result<Value, Error>)
        ensures
            outcome(r) == (string_map(first_string("BOTH-CASE-P"@, "Expected string argument"@, models(args@)),
                |s: Seq<char>| Val::Bool(some_char(s, |c: char| upper_case(c)) && some_char(s, |c: char| lower_case(c))))),
    {
        let s = first_string_exec("BOTH-CASE-P", "Expected string argument", args)?;
        let f = case_flags(s);
        Ok(Value::Bool(f.0 && f.1))
    }
}



/// STRING-UPCASE-P - Check if all cased characters are uppercase
pub struct StringUpcasePTool;

impl Tool for StringUpcasePTool {
    open spec fn names_itself(&self) -> bool {
        true
    }

    open spec fn spec_name(&self) -> Seq<char> {
        "UPPER-CASE-P"@
    }

    open spec fn admits(&self, args: Seq<Val>) -> bool {
        true
    }

    fn name(&self) -> &str {
        "UPPER-CASE-P"
    }

    fn description(&self) -> (r: &str)
        ensures
            r@ == "Check if all cased characters are uppercase"@,
    {
        "Check if all cased characters are uppercase"
    }

    fn execute(&self, args: &[Value]) -> (r: Result<Value, Error>)
        ensures
            outcome(r) == (string_map(first_string("UPPER-CASE-P"@, "Expected string argument"@, models(args@)),
                |s: Seq<char>| Val::Bool(letters_all(s, |c: char| upper_case(c))))),
    {
        let s = first_string_exec("UPPER-CASE-P", "Expected string argument", args)?;
        let f = case_flags(s);
        Ok(Value::Bool(f.2 && f.3))
    }
}



/// STRING-DOWNCASE-P - Check if all cased characters are lowercase
pub struct StringDowncasePTool;

impl Tool for StringDowncasePTool {
    open spec fn names_itself(&self) -> bool {
        true
    }

    open spec fn spec_name(&self) -> Seq<char> {
        "LOWER-CASE-P"@
    }

    open spec fn admits(&self, args: Seq<Val>) -> bool {
        true
    }

    fn name(&self) -> &str {
        "LOWER-CASE-P"
    }

    fn description(&self) -> (r: &str)
        ensures
            r@ == "Check if all cased characters are lowercase"@,
    {
        "Check if all cased characters are lowercase"
    }

    fn execute(&self, args: &[Value]) -> (r: Result<Value, Error>)
        ensures
            outcome(r) == (string_map(first_string("LOWER-CASE-P"@, "Expected string argument"@, models(args@)),
                |s: Seq<char>| Val::Bool(letters_all(s, |c: char| lower_case(c))))),
    {
        let s = first_string_exec("LOWER-CASE-P", "Expected string argument", args)?;
        let f = case_flags(s);
        Ok(Value::Bool(f.2 && f.4))
    }
}



/// CHAR - Get character at index (alias for CHAR-AT)
pub struct CharTool;

impl Tool for CharTool {
    open spec fn names_itself(&self) -> bool {
        true
    }

    open spec fn spec_name(&self) -> Seq<char> {
        "CHAR"@
    }

    open spec fn admits(&self, args: Seq<Val>) -> bool {
        true
    }

    fn name(&self) -> &str {
        "CHAR"
    }

    fn description(&self) -> (r: &str)
        ensures
            r@ == "Get character at index"@,
    {
        "Get character at index"
    }

    fn execute(&self, args: &[Value]) -> (r: Result<Value, Error>)
        ensures
            outcome(r) == (char_result(models(args@))),
    {
        char_exec(args)
    }
}



/// SCHAR - Simple character access (same as CHAR in Solisp)
pub struct ScharTool;

impl Tool for ScharTool {
    open spec fn names_itself(&self) -> bool {
        true
    }

    open spec fn spec_name(&self) -> Seq<char> {
        "SCHAR"@
    }

    open spec fn admits(&self, args: Seq<Val>) -> bool {
        true
    }

    fn name(&self) -> &str {
        "SCHAR"
    }

    fn description(&self) -> (r: &str)
        ensures
            r@ == "Simple character access (same as CHAR in Solisp)"@,
    {
        "Simple character access (same as CHAR in Solisp)"
    }

    fn execute(&self, args: &[Value]) -> (r: Result<Value, Error>)
        ensures
            outcome(r) == (char_result(models(args@))),
    {
        char_exec(args)
    }
}



/// STRING-CONCATENATE - Concatenate multiple strings
pub struct StringConcatenateTool;

impl Tool for StringConcatenateTool {
    open spec fn names_itself(&self) -> bool {
        true
    }

    open spec fn spec_name(&self) -> Seq<char> {
        "STRING-CONCATENATE"@
    }

    open spec fn admits(&self, args: Seq<Val>) -> bool {
        true
    }

    fn name(&self) -> &str {
        "STRING-CONCATENATE"
    }

    fn description(&self) -> (r: &str)
        ensures
            r@ == "Concatenate multiple strings"@,
    {
        "Concatenate multiple strings"
    }

    fn execute(&self, args: &[Value]) -> (r: Result<Value, Error>)
        ensures
            outcome(r) == (match strings_of(models(args@)) {
                Err(e) => Err(e),
                Ok(ss) => yields(Val::Str(concat_all(ss))),
            }),
    {
        let s = concat_strings_exec(args)?;
        Ok(Value::String(s))
    }
}



/// STRING-TO-LIST - Convert string to list of characters
pub struct StringToListTool;

impl Tool for StringToListTool {
    open spec fn names_itself(&self) -> bool {
        true
    }

    open spec fn spec_name(&self) -> Seq<char> {
        "STRING-TO-LIST"@
    }

    open spec fn admits(&self, args: Seq<Val>) -> bool {
        true
    }

    fn name(&self) -> &str {
        "STRING-TO-LIST"
    }

    fn description(&self) -> (r: &str)
        ensures
            r@ == "Convert string to list of characters"@,
    {
        "Convert string to list of characters"
    }

    fn execute(&self, args: &[Value]) -> (r: Result<Value, Error>)
        ensures
            outcome(r) == (string_map(first_string("STRING-TO-LIST"@, "Expected string argument"@, models(args@)), |s: Seq<char>| Val::Arr(char_values(s)))),
    {
        let s = first_string_exec("STRING-TO-LIST", "Expected string argument", args)?;
        let cs = chars_of(s);
        Ok(Value::Array(char_values_exec(&cs)))
    }
}



/// LIST-TO-STRING - Convert list of characters to string
pub struct ListToStringTool;

impl Tool for ListToStringTool {
    open spec fn names_itself(&self) -> bool {
        true
    }

    open spec fn spec_name(&self) -> Seq<char> {
        "LIST-TO-STRING"@
    }

    open spec fn admits(&self, args: Seq<Val>) -> bool {
        true
    }

    fn name(&self) -> &str {
        "LIST-TO-STRING"
    }

    fn description(&self) -> (r: &str)
        ensures
            r@ == "Convert list of characters to string"@,
    {
        "Convert list of characters to string"
    }

    fn execute(&self, args: &[Value]) -> (r: Result<Value, Error>)
        ensures
            outcome(r) == (if args@.len() == 0 { bad_args("LIST-TO-STRING"@, "Expected array argument"@) } else {
                match elems(models(args@)[0]) {
                    Err(e) => Err(e),
                    Ok(arr) => match strings_of(arr) {
                        Err(e) => Err(e),
                        Ok(ss) => yields(Val::Str(concat_all(ss))),
                    },
                }
            }),
    {
        if args.len() == 0 {
            return Err(invalid_args("LIST-TO-STRING", "Expected array argument"));
        }
        let arr = args[0].as_array()?;
        let s = concat_strings_exec(arr.as_slice())?;
        Ok(Value::String(s))
    }
}



/// STRING-SPLIT - Split string by delimiter into array
pub struct StringSplitTool;

impl Tool for StringSplitTool {
    open spec fn names_itself(&self) -> bool {
        true
    }

    open spec fn spec_name(&self) -> Seq<char> {
        "STRING-SPLIT"@
    }

    open spec fn admits(&self, args: Seq<Val>) -> bool {
        true
    }

    fn name(&self) -> &str {
        "STRING-SPLIT"
    }

    fn description(&self) -> (r: &str)
        ensures
            r@ == "Split string by delimiter into array of strings"@,
    {
        "Split string by delimiter into array of strings"
    }

    fn execute(&self, args: &[Value]) -> (r: Result<Value, Error>)
        ensures
            outcome(r) == (split_result(models(args@))),
    {
        split_tool_exec(args)
    }
}



/// SPLIT - Alias for STRING-SPLIT
pub struct SplitTool;

impl Tool for SplitTool {
    open spec fn names_itself(&self) -> bool {
        true
    }

    open spec fn spec_name(&self) -> Seq<char> {
        "SPLIT"@
    }

    open spec fn admits(&self, args: Seq<Val>) -> bool {
        true
    }

    fn name(&self) -> &str {
        "SPLIT"
    }

    fn description(&self) -> (r: &str)
        ensures
            r@ == "Split string by delimiter (alias for STRING-SPLIT)"@,
    {
        "Split string by delimiter (alias for STRING-SPLIT)"
    }

    fn execute(&self, args: &[Value]) -> (r: Result<Value, Error>)
        ensures
            outcome(r) == (split_result(models(args@))),
    {
        split_tool_exec(args)
    }
}



/// STRING-JOIN - Join array of strings with delimiter
pub struct StringJoinTool;

impl Tool for StringJoinTool {
    open spec fn names_itself(&self) -> bool {
        true
    }

    open spec fn spec_name(&self) -> Seq<char> {
        "STRING-JOIN"@
    }

    open spec fn admits(&self, args: Seq<Val>) -> bool {
        true
    }

    fn name(&self) -> &str {
        "STRING-JOIN"
    }

    fn description(&self) -> (r: &str)
        ensures
            r@ == "Join array of strings with delimiter"@,
    {
        "Join array of strings with delimiter"
    }

    fn execute(&self, args: &[Value]) -> (r: Result<Value, Error>)
        ensures
            outcome(r) == (join_result(models(args@))),
    {
        join_tool_exec(args)
    }
}



/// JOIN - Alias for STRING-JOIN
pub struct JoinTool;

impl Tool for JoinTool {
    open spec fn names_itself(&self) -> bool {
        true
    }

    open spec fn spec_name(&self) -> Seq<char> {
        "JOIN"@
    }

    open spec fn admits(&self, args: Seq<Val>) -> bool {
        true
    }

    fn name(&self) -> &str {
        "JOIN"
    }

    fn description(&self) -> (r: &str)
        ensures
            r@ == "Join array of strings with delimiter (alias for STRING-JOIN)"@,
    {
        "Join array of strings with delimiter (alias for STRING-JOIN)"
    }

    fn execute(&self, args: &[Value]) -> (r: Result<Value, Error>)
        ensures
            outcome(r) == (join_result(models(args@))),
    {
        join_tool_exec(args)
    }
}



/// STRING-STARTS-WITH - Check if string starts with prefix
pub struct StringStartsWithTool;

impl Tool for StringStartsWithTool {
    open spec fn names_itself(&self) -> bool {
        true
    }

    open spec fn spec_name(&self) -> Seq<char> {
        "STRING-STARTS-WITH"@
    }

    open spec fn admits(&self, args: Seq<Val>) -> bool {
        true
    }

    fn name(&self) -> &str {
        "STRING-STARTS-WITH"
    }

    fn description(&self) -> (r: &str)
        ensures
            r@ == "Check if string starts with prefix"@,
    {
        "Check if string starts with prefix"
    }

    fn execute(&self, args: &[Value]) -> (r: Result<Value, Error>)
        ensures
            outcome(r) == (starts_with_result(models(args@))),
    {
        starts_with_exec(args)
    }
}



/// STARTS-WITH - Alias for STRING-STARTS-WITH
pub struct StartsWithTool;

impl Tool for StartsWithTool {
    open spec fn names_itself(&self) -> bool {
        true
    }

    open spec fn spec_name(&self) -> Seq<char> {
        "STARTS-WITH"@
    }

    open spec fn admits(&self, args: Seq<Val>) -> bool {
        true
    }

    fn name(&self) -> &str {
        "STARTS-WITH"
    }

    fn description(&self) -> (r: &str)
        ensures
            r@ == "Check if string starts with prefix (alias for STRING-STARTS-WITH)"@,
    {
        "Check if string starts with prefix (alias for STRING-STARTS-WITH)"
    }

    fn execute(&self, args: &[Value]) -> (r: Result<Value, Error>)
        ensures
            outcome(r) == (starts_with_result(models(args@))),
    {
        starts_with_exec(args)
    }
}



/// STRING-ENDS-WITH - Check if string ends with suffix
pub struct StringEndsWithTool;

impl Tool for StringEndsWithTool {
    open spec fn names_itself(&self) -> bool {
        true
    }

    open spec fn spec_name(&self) -> Seq<char> {
        "STRING-ENDS-WITH"@
    }

    open spec fn admits(&self, args: Seq<Val>) -> bool {
        true
    }

    fn name(&self) -> &str {
        "STRING-ENDS-WITH"
    }

    fn description(&self) -> (r: &str)
        ensures
            r@ == "Check if string ends with suffix"@,
    {
        "Check if string ends with suffix"
    }

    fn execute(&self, args: &[Value]) -> (r: Result<Value, Error>)
        ensures
            outcome(r) == (ends_with_result(models(args@))),
    {
        ends_with_exec(args)
    }
}



/// ENDS-WITH - Alias for STRING-ENDS-WITH
pub struct EndsWithTool;

impl Tool for EndsWithTool {
    open spec fn names_itself(&self) -> bool {
        true
    }

    open spec fn spec_name(&self) -> Seq<char> {
        "ENDS-WITH"@
    }

    open spec fn admits(&self, args: Seq<Val>) -> bool {
        true
    }

    fn name(&self) -> &str {
        "ENDS-WITH"
    }

    fn description(&self) -> (r: &str)
        ensures
            r@ == "Check if string ends with suffix (alias for STRING-ENDS-WITH)"@,
    {
        "Check if string ends with suffix (alias for STRING-ENDS-WITH)"
    }

    fn execute(&self, args: &[Value]) -> (r: Result<Value, Error>)
        ensures
            outcome(r) == (ends_with_result(models(args@))),
    {
        ends_with_exec(args)
    }
}



/// STRING-LENGTH - Get length of string
pub struct StringLengthTool;

impl Tool for StringLengthTool {
    open spec fn names_itself(&self) -> bool {
        true
    }

    open spec fn spec_name(&self) -> Seq<char> {
        "STRING-LENGTH"@
    }

    open spec fn admits(&self, args: Seq<Val>) -> bool {
        true
    }

    fn name(&self) -> &str {
        "STRING-LENGTH"
    }

    fn description(&self) -> (r: &str)
        ensures
            r@ == "Get length of string"@,
    {
        "Get length of string"
    }

    fn execute(&self, args: &[Value]) -> (r: Result<Value, Error>)
        ensures
            outcome(r) == (string_map(first_string("STRING-LENGTH"@, "Expected string argument"@, models(args@)), |s: Seq<char>| Val::Int(utf8_len(s) as i64))),
    {
        let s = first_string_exec("STRING-LENGTH", "Expected string argument", args)?;
        Ok(Value::Int(byte_len(s) as i64))
    }
}



/// The length in bytes of the UTF-8 encoding of `s`.
pub fn byte_len_of(s: &str) -> (n: usize)
    ensures
        n == utf8_len(s@),
{
    byte_len(s)
}

proof fn lemma_strings_prepend(x: Seq<char>, rest: Seq<Val>)
    requires
        strings_of(rest) is Ok,
    ensures
        strings_of(seq![Val::Str(x)] + rest) == Ok::<Seq<Seq<char>>, ErrV>(seq![x] + strings_of(rest)->Ok_0),
    decreases rest.len(),
{
    let xs = seq![Val::Str(x)] + rest;
    if rest.len() == 0 {
        assert(xs =~= seq![Val::Str(x)]);
        assert(xs.drop_last() =~= Seq::<Val>::empty());
        assert(strings_of(Seq::<Val>::empty()) == Ok::<Seq<Seq<char>>, ErrV>(Seq::empty()));
        assert(seq![x] + Seq::<Seq<char>>::empty() =~= Seq::<Seq<char>>::empty().push(x));
    } else {
        let r0 = rest.drop_last();
        lemma_strings_prepend(x, r0);
        assert(xs.drop_last() =~= seq![Val::Str(x)] + r0);
        assert(xs.last() == rest.last());
        let ss0 = strings_of(r0)->Ok_0;
        let t = str_of(rest.last())->Ok_0;
        assert((seq![x] + ss0).push(t) =~= seq![x] + ss0.push(t));
    }
}

proof fn lemma_join_prepend(x: Seq<char>, ss: Seq<Seq<char>>, d: Seq<char>)
    requires
        ss.len() >= 1,
    ensures
        join_with(seq![x] + ss, d) == x + d + join_with(ss, d),
    decreases ss.len(),
{
    let xs = seq![x] + ss;
    assert(xs.drop_last() =~= seq![x] + ss.drop_last());
    assert(xs.last() == ss.last());
    if ss.len() == 1 {
        assert(seq![x] + ss.drop_last() =~= seq![x]);
        assert(join_with(seq![x], d) == x);
        assert(join_with(ss, d) == ss[0]);
    } else {
        lemma_join_prepend(x, ss.drop_last(), d);
        let j = join_with(ss.drop_last(), d);
        assert(x + d + j + d + ss.last() =~= x + d + (j + d + ss.last()));
    }
}

proof fn lemma_split_join(h: Seq<char>, d: Seq<char>, start: int, i: int)
    requires
        d.len() > 0,
        0 <= start <= i,
        start <= h.len(),
    ensures
        strings_of(split_from(h, d, start, i)) is Ok,
        strings_of(split_from(h, d, start, i))->Ok_0.len() >= 1,
        join_with(strings_of(split_from(h, d, start, i))->Ok_0, d) == h.subrange(start, h.len() as int),
    decreases h.len() + 1 - i,
{
    if i + d.len() > h.len() {
        lemma_strings_prepend(h.subrange(start, h.len() as int), Seq::empty());
        assert(seq![Val::Str(h.subrange(start, h.len() as int))] + Seq::<Val>::empty()
            =~= seq![Val::Str(h.subrange(start, h.len() as int))]);
        assert(seq![h.subrange(start, h.len() as int)] + Seq::<Seq<char>>::empty()
            =~= seq![h.subrange(start, h.len() as int)]);
    } else if matches_at(h, d, i) {
        let next = i + d.len();
        let rest = split_from(h, d, next, next);
        lemma_split_join(h, d, next, next);
        let x = h.subrange(start, i);
        lemma_strings_prepend(x, rest);
        let ss = strings_of(rest)->Ok_0;
        lemma_join_prepend(x, ss, d);
        assert(h.subrange(start, h.len() as int) =~= x + h.subrange(i, next) + h.subrange(next, h.len() as int));
    } else {
        lemma_split_join(h, d, start, i + 1);
    }
}

/// The one-character strings of `s`, in order.
spec fn singles(s: Seq<char>) -> Seq<Seq<char>> {
    Seq::new(s.len(), |i: int| seq![s[i]])
}

proof fn lemma_chars_join(s: Seq<char>)
    ensures
        strings_of(char_values(s)) == Ok::<Seq<Seq<char>>, ErrV>(singles(s)),
        join_with(singles(s), Seq::empty()) == s,
    decreases s.len(),
{
    if s.len() == 0 {
        assert(singles(s) =~= Seq::<Seq<char>>::empty());
        assert(s =~= Seq::<char>::empty());
    } else {
        let s0 = s.drop_last();
        lemma_chars_join(s0);
        assert(char_values(s).drop_last() =~= char_values(s0));
        assert(singles(s) =~= singles(s0).push(seq![s.last()]));
        assert(singles(s).drop_last() =~= singles(s0));
        if s.len() == 1 {
            assert(singles(s)[0] =~= s);
        } else {
            assert(s0 + Seq::<char>::empty() + seq![s.last()] =~= s);
        }
    }
}

/// Joining the pieces that STRING-SPLIT cuts a string into, with the same
/// delimiter, gives the string back; this holds for every delimiter, the
/// empty one (which cuts the string into its characters) included.
pub proof fn law_split_then_join(s: Seq<char>, d: Seq<char>)
    ensures
        match split_result(seq![Val::Str(s), Val::Str(d)]) {
            Ok(Val::Arr(pieces)) => join_result(seq![Val::Arr(pieces), Val::Str(d)]) == yields(Val::Str(s)),
            _ => false,
        },
{
    let a = seq![Val::Str(s), Val::Str(d)];
    assert(two_strings("STRING-SPLIT"@, "Expected string and delimiter arguments"@, a) == Ok::<(Seq<char>, Seq<char>), ErrV>((s, d)));
    if d.len() == 0 {
        lemma_chars_join(s);
        assert(d =~= Seq::<char>::empty());
    } else {
        lemma_split_join(s, d, 0, 0);
        assert(s.subrange(0, s.len() as int) =~= s);
    }
}

/// The template with each rendering in turn put in place of the first `{}`
/// left in it, until no `{}` is left. A rendering may itself hold a `{}`,
/// which a later rendering then fills.
pub open spec fn fill_braces(t: Seq<char>, rs: Seq<Seq<char>>) -> Seq<char>
    decreases rs.len(),
{
    if rs.len() == 0 {
        t
    } else {
        match find_from(t, seq!['{', '}'], 0) {
            None => t,
            Some(p) => fill_braces(t.take(p) + rs[0] + t.skip(p + 2), rs.drop_first()),
        }
    }
}

fn splice_chars(cur: &Vec<char>, p: usize, ins: &str) -> (r: Vec<char>)
    requires
        p + 2 <= cur@.len(),
    ensures
        r@ == cur@.take(p as int) + ins@ + cur@.skip(p + 2),
{
    let mut out: Vec<char> = Vec::new();
    let mut i: usize = 0;
    while i < p
        invariant
            i <= p,
            p + 2 <= cur@.len(),
            out@ == cur@.take(i as int),
        decreases p - i,
    {
        out.push(cur[i]);
        i = i + 1;
        assert(out@ =~= cur@.take(i as int));
    }
    let mid = chars_of(ins);
    let mut j: usize = 0;
    while j < mid.len()
        invariant
            j <= mid@.len(),
            out@ == cur@.take(p as int) + mid@.take(j as int),
        decreases mid.len() - j,
    {
        out.push(mid[j]);
        j = j + 1;
        assert(out@ =~= cur@.take(p as int) + mid@.take(j as int));
    }
    assert(mid@.take(j as int) =~= mid@);
    let ghost head = out@;
    let n: usize = cur.len();
    assert(p + 2 <= n);
    let mut k: usize = p + 2;
    while k < cur.len()
        invariant
            p + 2 <= k <= cur@.len(),
            out@ == head + cur@.subrange(p + 2, k as int),
        decreases cur.len() - k,
    {
        out.push(cur[k]);
        k = k + 1;
        assert(out@ =~= head + cur@.subrange(p + 2, k as int));
    }
    assert(cur@.subrange(p + 2, k as int) =~= cur@.skip(p + 2));
    out
}

/// FORMAT's (and SPRINTF's) text: the template with the renderings of the
/// arguments put in place of its `{}` placeholders, in turn.
pub fn fill_braces_exec(template: &str, rendered: &[String]) -> (r: String)
    ensures
        r@ == fill_braces(template@, string_views(rendered@)),
{
    let ghost rs = string_views(rendered@);
    let needle = vec!['{', '}'];
    assert(needle@ =~= seq!['{', '}']);
    let mut cur = chars_of(template);
    let mut j: usize = 0;
    assert(rs.skip(0) =~= rs);
    while j < rendered.len()
        invariant
            rs == string_views(rendered@),
            j <= rendered@.len(),
            needle@ == seq!['{', '}'],
            fill_braces(template@, rs) == fill_braces(cur@, rs.skip(j as int)),
        decreases rendered.len() - j,
    {
        assert(rs.skip(j as int).drop_first() =~= rs.skip(j + 1));
        assert(rs.skip(j as int)[0] == rendered@[j as int]@);
        match find_exec(&cur, &needle) {
            None => {
                proof {
                    assert(fill_braces(cur@, rs.skip(j as int)) == cur@);
                    assert(rs.skip(rendered@.len() as int) =~= Seq::<Seq<char>>::empty());
                }
                return string_from_chars(&cur);
            },
            Some(p) => {
                proof {
                    lemma_find_bounds(cur@, needle@, 0);
                }
                cur = splice_chars(&cur, p, rendered[j].as_str());
            },
        }
        j = j + 1;
    }
    assert(rs.skip(j as int) =~= Seq::<Seq<char>>::empty());
    string_from_chars(&cur)
}

/// The text of a value that STR, TO-STRING, FORMAT and SPRINTF print
/// without help: a string as it is, an integer in decimal, a boolean as
/// `true` or `false`, null as `null`. A float or a collection has none here.
pub open spec fn plain_text(v: Val) -> Option<Seq<char>> {
    match v {
        Val::Str(s) => Some(s),
        Val::Int(n) => Some(int_decimal(n as int)),
        Val::Bool(b) => Some(if b { seq!['t', 'r', 'u', 'e'] } else { seq!['f', 'a', 'l', 's', 'e'] }),
        Val::Null => Some(seq!['n', 'u', 'l', 'l']),
        _ => None,
    }
}

/// The text of a value that needs no float or collection printing.
pub fn plain_text_exec(v: &Value) -> (r: Option<String>)
    ensures
        match r {
            Some(s) => plain_text(v.model()) == Some(s@),
            None => plain_text(v.model()) is None,
        },
{
    match v {
        Value::String(s) => Some(owned(s.as_str())),
        Value::Int(n) => Some(i64_to_string(*n)),
        Value::Bool(b) => {
            let w = if *b { vec!['t', 'r', 'u', 'e'] } else { vec!['f', 'a', 'l', 's', 'e'] };
            proof {
                if *b {
                    assert(w@ =~= seq!['t', 'r', 'u', 'e']);
                } else {
                    assert(w@ =~= seq!['f', 'a', 'l', 's', 'e']);
                }
            }
            Some(string_from_chars(&w))
        },
        Value::Null => {
            let w = vec!['n', 'u', 'l', 'l'];
            assert(w@ =~= seq!['n', 'u', 'l', 'l']);
            Some(string_from_chars(&w))
        },
        _ => None,
    }
}
} // verus!
