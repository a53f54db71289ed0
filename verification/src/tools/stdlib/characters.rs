//! Character manipulation and predicate tools - Common Lisp compatible
use vstd::prelude::*;

#[allow(unused_imports)]
use crate::access::{copy_range, copy_slice, copy_values, values_equal};
#[allow(unused_imports)]
use crate::error::{empty_collection, exec_error, invalid_args, ErrV, Error};
#[allow(unused_imports)]
use crate::text::{alphabetic, alphanumeric, char_from_u32, char_is_alphabetic, char_is_alphanumeric, char_is_lowercase, char_is_uppercase, char_is_whitespace, char_string, char_to_lowercase, char_to_uppercase, chars_of, chars_skip, concat, i64_to_string, int_decimal, lower_case, lower_chars, lowercase, owned, scalar_value, seq_less, str_equal, str_less, string_from_chars, to_lower, to_upper, upper_case, upper_chars, uppercase, whitespace};
#[allow(unused_imports)]
use crate::tools::{bad_args, name_insert, outcome, ref_outcome, string_views, yields, Tool, ToolRegistry};
#[allow(unused_imports)]
use crate::value::{and_then, elems, entry_models, int_of, models, obj_insert, obj_keys, obj_lookup, obj_merge, obj_of, obj_values, str_of, truthy, type_error, ObjectMap, Val, Value};

verus! {

broadcast use crate::seq_models::group_value_models;

/// The names after registering this module's tools, in order.
pub open spec fn registered_names(ns: Seq<Seq<char>>) -> Seq<Seq<char>> {
    let ns = name_insert(ns, "CHARACTERP"@);
    let ns = name_insert(ns, "ALPHA-CHAR-P"@);
    let ns = name_insert(ns, "DIGIT-CHAR-P"@);
    let ns = name_insert(ns, "ALPHANUMERICP"@);
    let ns = name_insert(ns, "WHITESPACEP"@);
    let ns = name_insert(ns, "UPPER-CASE-P"@);
    let ns = name_insert(ns, "LOWER-CASE-P"@);
    let ns = name_insert(ns, "BOTH-CASE-P"@);
    let ns = name_insert(ns, "CHAR="@);
    let ns = name_insert(ns, "CHAR<"@);
    let ns = name_insert(ns, "CHAR>"@);
    let ns = name_insert(ns, "CHAR/="@);
    let ns = name_insert(ns, "CHAR<="@);
    let ns = name_insert(ns, "CHAR>="@);
    let ns = name_insert(ns, "CHAR-EQUAL"@);
    let ns = name_insert(ns, "CHAR-LESSP"@);
    let ns = name_insert(ns, "CHAR-GREATERP"@);
    let ns = name_insert(ns, "CHAR-INT"@);
    let ns = name_insert(ns, "INT-CHAR"@);
    let ns = name_insert(ns, "CHAR-NAME"@);
    let ns = name_insert(ns, "NAME-CHAR"@);
    ns
}

/// Register the tools of this module.
pub fn register(registry: &mut ToolRegistry)
    ensures
        final(registry).names() == registered_names(old(registry).names()),
{
    registry.register(CharacterpTool);
    registry.register(AlphaCharPTool);
    registry.register(DigitCharPTool);
    registry.register(AlphanumericPTool);
    registry.register(WhitespacePTool);
    registry.register(UpperCasePTool);
    registry.register(LowerCasePTool);
    registry.register(BothCasePTool);
    registry.register(CharEqualTool);
    registry.register(CharLessTool);
    registry.register(CharGreaterTool);
    registry.register(CharNotEqualTool);
    registry.register(CharLessEqualTool);
    registry.register(CharGreaterEqualTool);
    registry.register(CharEqualITool);
    registry.register(CharLessITool);
    registry.register(CharGreaterITool);
    registry.register(CharIntTool);
    registry.register(IntCharTool);
    registry.register(CharNameTool);
    registry.register(NameCharTool);
}

use crate::text::{ascii_lowered, ascii_text};
/// The character a character tool works on: the first character of its first argument.
pub open spec fn char_arg(tool: Seq<char>, args: Seq<Val>) -> Result<char, ErrV> {
    if args.len() == 0 {
        Err(ErrV::InvalidArguments { tool, reason: "Expected character argument"@ })
    } else {
        match str_of(args[0]) {
            Err(e) => Err(e),
            Ok(s) => if s.len() == 0 {
                Err(ErrV::InvalidArguments { tool, reason: "Empty string"@ })
            } else {
                Ok(s[0])
            },
        }
    }
}

/// The result of a character predicate `p`.
pub open spec fn char_test(tool: Seq<char>, args: Seq<Val>, p: spec_fn(char) -> bool) -> Result<Val, ErrV> {
    match char_arg(tool, args) {
        Ok(c) => yields(Val::Bool(p(c))),
        Err(e) => Err(e),
    }
}

fn char_arg_exec(tool: &str, args: &[Value]) -> (r: Result<char, Error>)
    ensures
        match r {
            Ok(c) => char_arg(tool@, models(args@)) == Ok::<char, ErrV>(c),
            Err(e) => char_arg(tool@, models(args@)) == Err::<char, ErrV>(e@),
        },
{
    if args.len() == 0 {
        return Err(invalid_args(tool, "Expected character argument"));
    }
    let s = args[0].as_string()?;
    if s.unicode_len() == 0 {
        return Err(invalid_args(tool, "Empty string"));
    }
    Ok(s.get_char(0))
}

/// How consecutive characters must compare.
pub enum CharOrder {
    Increasing,
    Decreasing,
    NonDecreasing,
    NonIncreasing,
    Equal,
}

/// Whether `a` followed by `b` keeps the order `o`.
pub open spec fn keeps(o: CharOrder, a: Seq<char>, b: Seq<char>) -> bool {
    match o {
        CharOrder::Increasing => seq_less(a, b),
        CharOrder::Decreasing => seq_less(b, a),
        CharOrder::NonDecreasing => !seq_less(b, a),
        CharOrder::NonIncreasing => !seq_less(a, b),
        CharOrder::Equal => a == b,
    }
}

/// The comparison key of a string: itself, or its lower-case form.
pub open spec fn char_key(s: Seq<char>, fold: bool) -> Seq<char> {
    if fold {
        lowercase(s)
    } else {
        s
    }
}

/// Whether the strings of `rest` keep the order `o`, starting after `prev`;
/// the first argument that is not a string, if reached, is an error.
pub open spec fn chain_holds(prev: Seq<char>, rest: Seq<Val>, o: CharOrder, fold: bool) -> Result<Val, ErrV>
    decreases rest.len(),
{
    if rest.len() == 0 {
        Ok(Val::Bool(true))
    } else {
        match str_of(rest[0]) {
            Err(e) => Err(e),
            Ok(c) => if !keeps(o, prev, char_key(c, fold)) {
                Ok(Val::Bool(false))
            } else {
                chain_holds(char_key(c, fold), rest.drop_first(), o, fold)
            },
        }
    }
}

/// The result of a character comparison tool.
pub open spec fn char_compare(tool: Seq<char>, args: Seq<Val>, o: CharOrder, fold: bool) -> Result<Val, ErrV> {
    if args.len() < 2 {
        bad_args(tool, "Expected at least 2 character arguments"@)
    } else {
        match str_of(args[0]) {
            Err(e) => Err(e),
            Ok(s) => chain_holds(char_key(s, fold), args.skip(1), o, fold),
        }
    }
}

pub(crate) fn keeps_exec(o: &CharOrder, a: &str, b: &str) -> (r: bool)
    ensures
        r == keeps(*o, a@, b@),
{
    match o {
        CharOrder::Increasing => str_less(a, b),
        CharOrder::Decreasing => str_less(b, a),
        CharOrder::NonDecreasing => !str_less(b, a),
        CharOrder::NonIncreasing => !str_less(a, b),
        CharOrder::Equal => str_equal(a, b),
    }
}

pub(crate) fn key_exec(s: &str, fold: bool) -> (r: String)
    ensures
        r@ == char_key(s@, fold),
{
    if fold {
        to_lower(s)
    } else {
        owned(s)
    }
}

fn char_compare_exec(tool: &str, args: &[Value], o: CharOrder, fold: bool) -> (r: Result<Value, Error>)
    ensures
        outcome(r) == char_compare(tool@, models(args@), o, fold),
{
    if args.len() < 2 {
        return Err(invalid_args(tool, "Expected at least 2 character arguments"));
    }
    let ghost a = models(args@);
    let first = args[0].as_string()?;
    let mut prev = key_exec(first, fold);
    let mut i: usize = 1;
    while i < args.len()
        invariant
            1 <= i <= args@.len(),
            a == models(args@),
            a.len() >= 2,
            char_compare(tool@, a, o, fold) == chain_holds(prev@, a.skip(i as int), o, fold),
        decreases args.len() - i,
    {
        assert(a.skip(i as int)[0] == a[i as int]);
        assert(a.skip(i as int).drop_first() =~= a.skip(i + 1));
        let curr = args[i].as_string()?;
        let k = key_exec(curr, fold);
        if !keeps_exec(&o, prev.as_str(), k.as_str()) {
            return Ok(Value::Bool(false));
        }
        prev = k;
        i = i + 1;
    }
    assert(a.skip(i as int).len() == 0);
    Ok(Value::Bool(true))
}

/// Scans `rest` against `s0`: the first non-string is an error, a string equal
/// to `s0` answers false, and true means all were strings different from `s0`.
pub open spec fn scan_differ(s0: Seq<char>, rest: Seq<Val>) -> Result<bool, ErrV>
    decreases rest.len(),
{
    if rest.len() == 0 {
        Ok(true)
    } else {
        match str_of(rest[0]) {
            Err(e) => Err(e),
            Ok(c) => if c == s0 {
                Ok(false)
            } else {
                scan_differ(s0, rest.drop_first())
            },
        }
    }
}

/// No two of the values are equal.
pub open spec fn pairwise_distinct(s: Seq<Val>) -> bool {
    forall|i: int, j: int| 0 <= i < j < s.len() ==> s[i] != s[j]
}

pub proof fn lemma_scan_differ_strings(s0: Seq<char>, rest: Seq<Val>)
    requires
        scan_differ(s0, rest) == Ok::<bool, ErrV>(true),
    ensures
        forall|j: int| 0 <= j < rest.len() ==> (#[trigger] rest[j] is Str) && rest[j] != Val::Str(s0),
    decreases rest.len(),
{
    if rest.len() > 0 {
        lemma_scan_differ_strings(s0, rest.drop_first());
        assert forall|j: int| 0 <= j < rest.len() implies (#[trigger] rest[j] is Str) && rest[j] != Val::Str(s0) by {
            if j > 0 {
                assert(rest.drop_first()[j - 1] == rest[j]);
            }
        }
    }
}

/// CHARACTERP - Check if value is a character
pub struct CharacterpTool;

impl Tool for CharacterpTool {
    open spec fn names_itself(&self) -> bool {
        true
    }

    open spec fn spec_name(&self) -> Seq<char> {
        "CHARACTERP"@
    }

    open spec fn admits(&self, args: Seq<Val>) -> bool {
        true
    }

    fn name(&self) -> &str {
        "CHARACTERP"
    }

    fn description(&self) -> (r: &str)
        ensures
            r@ == "Check if value is a character (single-char string)"@,
    {
        "Check if value is a character (single-char string)"
    }

    fn execute(&self, args: &[Value]) -> (r: Result<Value, Error>)
        ensures
            outcome(r) == (yields(Val::Bool(args@.len() > 0 && match args@[0].model() { Val::Str(s) => s.len() == 1, _ => false }))),
    {
        if args.len() == 0 {
            return Ok(Value::Bool(false));
        }
        match &args[0] {
            Value::String(s) => Ok(Value::Bool(s.as_str().unicode_len() == 1)),
            _ => Ok(Value::Bool(false)),
        }
    }
}



/// ALPHA-CHAR-P - Check if character is alphabetic
pub struct AlphaCharPTool;

impl Tool for AlphaCharPTool {
    open spec fn names_itself(&self) -> bool {
        true
    }

    open spec fn spec_name(&self) -> Seq<char> {
        "ALPHA-CHAR-P"@
    }

    open spec fn admits(&self, args: Seq<Val>) -> bool {
        true
    }

    fn name(&self) -> &str {
        "ALPHA-CHAR-P"
    }

    fn description(&self) -> (r: &str)
        ensures
            r@ == "Check if character is alphabetic"@,
    {
        "Check if character is alphabetic"
    }

    fn execute(&self, args: &[Value]) -> (r: Result<Value, Error>)
        ensures
            outcome(r) == (char_test("ALPHA-CHAR-P"@, models(args@), |c: char| alphabetic(c))),
    {
        let ch = char_arg_exec("ALPHA-CHAR-P", args)?;
        Ok(Value::Bool(char_is_alphabetic(ch)))
    }
}



/// DIGIT-CHAR-P - Check if character is a digit
pub struct DigitCharPTool;

impl Tool for DigitCharPTool {
    open spec fn names_itself(&self) -> bool {
        true
    }

    open spec fn spec_name(&self) -> Seq<char> {
        "DIGIT-CHAR-P"@
    }

    open spec fn admits(&self, args: Seq<Val>) -> bool {
        true
    }

    fn name(&self) -> &str {
        "DIGIT-CHAR-P"
    }

    fn description(&self) -> (r: &str)
        ensures
            r@ == "Check if character is a digit"@,
    {
        "Check if character is a digit"
    }

    fn execute(&self, args: &[Value]) -> (r: Result<Value, Error>)
        ensures
            outcome(r) == (char_test("DIGIT-CHAR-P"@, models(args@), |c: char| '0' <= c <= '9')),
    {
        let ch = char_arg_exec("DIGIT-CHAR-P", args)?;
        Ok(Value::Bool('0' <= ch && ch <= '9'))
    }
}



/// ALPHANUMERICP - Check if character is alphanumeric
pub struct AlphanumericPTool;

impl Tool for AlphanumericPTool {
    open spec fn names_itself(&self) -> bool {
        true
    }

    open spec fn spec_name(&self) -> Seq<char> {
        "ALPHANUMERICP"@
    }

    open spec fn admits(&self, args: Seq<Val>) -> bool {
        true
    }

    fn name(&self) -> &str {
        "ALPHANUMERICP"
    }

    fn description(&self) -> (r: &str)
        ensures
            r@ == "Check if character is alphanumeric"@,
    {
        "Check if character is alphanumeric"
    }

    fn execute(&self, args: &[Value]) -> (r: Result<Value, Error>)
        ensures
            outcome(r) == (char_test("ALPHANUMERICP"@, models(args@), |c: char| alphanumeric(c))),
    {
        let ch = char_arg_exec("ALPHANUMERICP", args)?;
        Ok(Value::Bool(char_is_alphanumeric(ch)))
    }
}



/// WHITESPACEP - Check if character is whitespace
pub struct WhitespacePTool;

impl Tool for WhitespacePTool {
    open spec fn names_itself(&self) -> bool {
        true
    }

    open spec fn spec_name(&self) -> Seq<char> {
        "WHITESPACEP"@
    }

    open spec fn admits(&self, args: Seq<Val>) -> bool {
        true
    }

    fn name(&self) -> &str {
        "WHITESPACEP"
    }

    fn description(&self) -> (r: &str)
        ensures
            r@ == "Check if character is whitespace"@,
    {
        "Check if character is whitespace"
    }

    fn execute(&self, args: &[Value]) -> (r: Result<Value, Error>)
        ensures
            outcome(r) == (char_test("WHITESPACEP"@, models(args@), |c: char| whitespace(c))),
    {
        let ch = char_arg_exec("WHITESPACEP", args)?;
        Ok(Value::Bool(char_is_whitespace(ch)))
    }
}



/// UPPER-CASE-P - Check if character is uppercase
pub struct UpperCasePTool;

impl Tool for UpperCasePTool {
    open spec fn names_itself(&self) -> bool {
        true
    }

    open spec fn spec_name(&self) -> Seq<char> {
        "UPPER-CASE-P"@
    }

    open spec fn admits(&self, args: Seq<Val>) -> bool {
        true
    }

    fn name(&self) -> &str {
        "UPPER-CASE-P"
    }

    fn description(&self) -> (r: &str)
        ensures
            r@ == "Check if character is uppercase"@,
    {
        "Check if character is uppercase"
    }

    fn execute(&self, args: &[Value]) -> (r: Result<Value, Error>)
        ensures
            outcome(r) == (char_test("UPPER-CASE-P"@, models(args@), |c: char| upper_case(c))),
    {
        let ch = char_arg_exec("UPPER-CASE-P", args)?;
        Ok(Value::Bool(char_is_uppercase(ch)))
    }
}



/// LOWER-CASE-P - Check if character is lowercase
pub struct LowerCasePTool;

impl Tool for LowerCasePTool {
    open spec fn names_itself(&self) -> bool {
        true
    }

    open spec fn spec_name(&self) -> Seq<char> {
        "LOWER-CASE-P"@
    }

    open spec fn admits(&self, args: Seq<Val>) -> bool {
        true
    }

    fn name(&self) -> &str {
        "LOWER-CASE-P"
    }

    fn description(&self) -> (r: &str)
        ensures
            r@ == "Check if character is lowercase"@,
    {
        "Check if character is lowercase"
    }

    fn execute(&self, args: &[Value]) -> (r: Result<Value, Error>)
        ensures
            outcome(r) == (char_test("LOWER-CASE-P"@, models(args@), |c: char| lower_case(c))),
    {
        let ch = char_arg_exec("LOWER-CASE-P", args)?;
        Ok(Value::Bool(char_is_lowercase(ch)))
    }
}



/// BOTH-CASE-P - Check if character has both cases
pub struct BothCasePTool;

impl Tool for BothCasePTool {
    open spec fn names_itself(&self) -> bool {
        true
    }

    open spec fn spec_name(&self) -> Seq<char> {
        "BOTH-CASE-P"@
    }

    open spec fn admits(&self, args: Seq<Val>) -> bool {
        true
    }

    fn name(&self) -> &str {
        "BOTH-CASE-P"
    }

    fn description(&self) -> (r: &str)
        ensures
            r@ == "Check if character has both uppercase and lowercase forms"@,
    {
        "Check if character has both uppercase and lowercase forms"
    }

    fn execute(&self, args: &[Value]) -> (r: Result<Value, Error>)
        ensures
            outcome(r) == (char_test("BOTH-CASE-P"@, models(args@), |c: char| upper_chars(c)[0] != c || lower_chars(c)[0] != c)),
    {
        let ch = char_arg_exec("BOTH-CASE-P", args)?;
        let up = char_to_uppercase(ch);
        let low = char_to_lowercase(ch);
        Ok(Value::Bool(up[0] != ch || low[0] != ch))
    }
}



/// CHAR= - Character equality
pub struct CharEqualTool;

impl Tool for CharEqualTool {
    open spec fn names_itself(&self) -> bool {
        true
    }

    open spec fn spec_name(&self) -> Seq<char> {
        "CHAR="@
    }

    open spec fn admits(&self, args: Seq<Val>) -> bool {
        true
    }

    fn name(&self) -> &str {
        "CHAR="
    }

    fn description(&self) -> (r: &str)
        ensures
            r@ == "Check if characters are equal"@,
    {
        "Check if characters are equal"
    }

    fn execute(&self, args: &[Value]) -> (r: Result<Value, Error>)
        ensures
            outcome(r) == (char_compare("CHAR="@, models(args@), CharOrder::Equal, false)),
    {
        char_compare_exec("CHAR=", args, CharOrder::Equal, false)
    }
}



/// CHAR< - Character less than
pub struct CharLessTool;

impl Tool for CharLessTool {
    open spec fn names_itself(&self) -> bool {
        true
    }

    open spec fn spec_name(&self) -> Seq<char> {
        "CHAR<"@
    }

    open spec fn admits(&self, args: Seq<Val>) -> bool {
        true
    }

    fn name(&self) -> &str {
        "CHAR<"
    }

    fn description(&self) -> (r: &str)
        ensures
            r@ == "Check if characters are in increasing order"@,
    {
        "Check if characters are in increasing order"
    }

    fn execute(&self, args: &[Value]) -> (r: Result<Value, Error>)
        ensures
            outcome(r) == (char_compare("CHAR<"@, models(args@), CharOrder::Increasing, false)),
    {
        char_compare_exec("CHAR<", args, CharOrder::Increasing, false)
    }
}



/// CHAR> - Character greater than
pub struct CharGreaterTool;

impl Tool for CharGreaterTool {
    open spec fn names_itself(&self) -> bool {
        true
    }

    open spec fn spec_name(&self) -> Seq<char> {
        "CHAR>"@
    }

    open spec fn admits(&self, args: Seq<Val>) -> bool {
        true
    }

    fn name(&self) -> &str {
        "CHAR>"
    }

    fn description(&self) -> (r: &str)
        ensures
            r@ == "Check if characters are in decreasing order"@,
    {
        "Check if characters are in decreasing order"
    }

    fn execute(&self, args: &[Value]) -> (r: Result<Value, Error>)
        ensures
            outcome(r) == (char_compare("CHAR>"@, models(args@), CharOrder::Decreasing, false)),
    {
        char_compare_exec("CHAR>", args, CharOrder::Decreasing, false)
    }
}



/// CHAR<= - Character less than or equal
pub struct CharLessEqualTool;

impl Tool for CharLessEqualTool {
    open spec fn names_itself(&self) -> bool {
        true
    }

    open spec fn spec_name(&self) -> Seq<char> {
        "CHAR<="@
    }

    open spec fn admits(&self, args: Seq<Val>) -> bool {
        true
    }

    fn name(&self) -> &str {
        "CHAR<="
    }

    fn description(&self) -> (r: &str)
        ensures
            r@ == "Check if characters are in non-decreasing order"@,
    {
        "Check if characters are in non-decreasing order"
    }

    fn execute(&self, args: &[Value]) -> (r: Result<Value, Error>)
        ensures
            outcome(r) == (char_compare("CHAR<="@, models(args@), CharOrder::NonDecreasing, false)),
    {
        char_compare_exec("CHAR<=", args, CharOrder::NonDecreasing, false)
    }
}



/// CHAR>= - Character greater than or equal
pub struct CharGreaterEqualTool;

impl Tool for CharGreaterEqualTool {
    open spec fn names_itself(&self) -> bool {
        true
    }

    open spec fn spec_name(&self) -> Seq<char> {
        "CHAR>="@
    }

    open spec fn admits(&self, args: Seq<Val>) -> bool {
        true
    }

    fn name(&self) -> &str {
        "CHAR>="
    }

    fn description(&self) -> (r: &str)
        ensures
            r@ == "Check if characters are in non-increasing order"@,
    {
        "Check if characters are in non-increasing order"
    }

    fn execute(&self, args: &[Value]) -> (r: Result<Value, Error>)
        ensures
            outcome(r) == (char_compare("CHAR>="@, models(args@), CharOrder::NonIncreasing, false)),
    {
        char_compare_exec("CHAR>=", args, CharOrder::NonIncreasing, false)
    }
}



/// CHAR-EQUAL - Case-insensitive character equality
pub struct CharEqualITool;

impl Tool for CharEqualITool {
    open spec fn names_itself(&self) -> bool {
        true
    }

    open spec fn spec_name(&self) -> Seq<char> {
        "CHAR-EQUAL"@
    }

    open spec fn admits(&self, args: Seq<Val>) -> bool {
        true
    }

    fn name(&self) -> &str {
        "CHAR-EQUAL"
    }

    fn description(&self) -> (r: &str)
        ensures
            r@ == "Check if characters are equal (case-insensitive)"@,
    {
        "Check if characters are equal (case-insensitive)"
    }

    fn execute(&self, args: &[Value]) -> (r: Result<Value, Error>)
        ensures
            outcome(r) == (char_compare("CHAR-EQUAL"@, models(args@), CharOrder::Equal, true)),
    {
        char_compare_exec("CHAR-EQUAL", args, CharOrder::Equal, true)
    }
}



/// CHAR-LESSP - Case-insensitive less than
pub struct CharLessITool;

impl Tool for CharLessITool {
    open spec fn names_itself(&self) -> bool {
        true
    }

    open spec fn spec_name(&self) -> Seq<char> {
        "CHAR-LESSP"@
    }

    open spec fn admits(&self, args: Seq<Val>) -> bool {
        true
    }

    fn name(&self) -> &str {
        "CHAR-LESSP"
    }

    fn description(&self) -> (r: &str)
        ensures
            r@ == "Check if characters are in increasing order (case-insensitive)"@,
    {
        "Check if characters are in increasing order (case-insensitive)"
    }

    fn execute(&self, args: &[Value]) -> (r: Result<Value, Error>)
        ensures
            outcome(r) == (char_compare("CHAR-LESSP"@, models(args@), CharOrder::Increasing, true)),
    {
        char_compare_exec("CHAR-LESSP", args, CharOrder::Increasing, true)
    }
}



/// CHAR-GREATERP - Case-insensitive greater than
pub struct CharGreaterITool;

impl Tool for CharGreaterITool {
    open spec fn names_itself(&self) -> bool {
        true
    }

    open spec fn spec_name(&self) -> Seq<char> {
        "CHAR-GREATERP"@
    }

    open spec fn admits(&self, args: Seq<Val>) -> bool {
        true
    }

    fn name(&self) -> &str {
        "CHAR-GREATERP"
    }

    fn description(&self) -> (r: &str)
        ensures
            r@ == "Check if characters are in decreasing order (case-insensitive)"@,
    {
        "Check if characters are in decreasing order (case-insensitive)"
    }

    fn execute(&self, args: &[Value]) -> (r: Result<Value, Error>)
        ensures
            outcome(r) == (char_compare("CHAR-GREATERP"@, models(args@), CharOrder::Decreasing, true)),
    {
        char_compare_exec("CHAR-GREATERP", args, CharOrder::Decreasing, true)
    }
}



/// CHAR/= - Character inequality
pub struct CharNotEqualTool;

impl Tool for CharNotEqualTool {
    open spec fn names_itself(&self) -> bool {
        true
    }

    open spec fn spec_name(&self) -> Seq<char> {
        "CHAR/="@
    }

    open spec fn admits(&self, args: Seq<Val>) -> bool {
        true
    }

    fn name(&self) -> &str {
        "CHAR/="
    }

    fn description(&self) -> (r: &str)
        ensures
            r@ == "Check if all characters are different"@,
    {
        "Check if all characters are different"
    }

    fn execute(&self, args: &[Value]) -> (r: Result<Value, Error>)
        ensures
            outcome(r) == (if args@.len() < 2 {
                bad_args("CHAR/="@, "Expected at least 2 character arguments"@)
            } else {
                match str_of(args@[0].model()) {
                    Err(e) => Err(e),
                    Ok(s0) => match scan_differ(s0, models(args@).skip(1)) {
                        Err(e) => Err(e),
                        Ok(false) => yields(Val::Bool(false)),
                        Ok(true) => yields(Val::Bool(pairwise_distinct(models(args@)))),
                    },
                }
            }),
    {
        if args.len() < 2 {
            return Err(invalid_args("CHAR/=", "Expected at least 2 character arguments"));
        }
        let ghost a = models(args@);
        let s0 = args[0].as_string()?;
        let mut j: usize = 1;
        while j < args.len()
            invariant
                1 <= j <= args@.len(),
                a == models(args@),
                a[0] == Val::Str(s0@),
                scan_differ(s0@, a.skip(1)) == scan_differ(s0@, a.skip(j as int)),
                forall|k: int| 1 <= k < j ==> (#[trigger] a[k] is Str) && a[k] != a[0],
            decreases args.len() - j,
        {
            assert(a.skip(j as int)[0] == a[j as int]);
            assert(a.skip(j as int).drop_first() =~= a.skip(j + 1));
            let c = args[j].as_string()?;
            if str_equal(c, s0) {
                assert(scan_differ(s0@, a.skip(j as int)) == Ok::<bool, ErrV>(false));
                return Ok(Value::Bool(false));
            }
            j = j + 1;
        }
        assert(a.skip(j as int).len() == 0);
        let ghost scanned = scan_differ(s0@, a.skip(1));
        assert(scanned == Ok::<bool, ErrV>(true));
        let mut i: usize = 1;
        while i < args.len()
            invariant
                1 <= i <= args@.len(),
                a == models(args@),
                a[0] == Val::Str(s0@),
                scanned == scan_differ(s0@, a.skip(1)),
                scanned == Ok::<bool, ErrV>(true),
                forall|k: int| 1 <= k < a.len() ==> (#[trigger] a[k] is Str) && a[k] != a[0],
                forall|x: int, y: int| 0 <= x < y < a.len() && x < i ==> a[x] != a[y],
            decreases args.len() - i,
        {
            let mut k: usize = i + 1;
            while k < args.len()
                invariant
                    1 <= i < k <= args@.len(),
                    a == models(args@),
                    a[0] == Val::Str(s0@),
                    scanned == scan_differ(s0@, a.skip(1)),
                    scanned == Ok::<bool, ErrV>(true),
                    forall|m: int| 1 <= m < a.len() ==> (#[trigger] a[m] is Str) && a[m] != a[0],
                    forall|x: int, y: int| 0 <= x < y < a.len() && x < i ==> a[x] != a[y],
                    forall|y: int| i < y < k ==> a[i as int] != a[y],
                decreases args.len() - k,
            {
                assert(a[i as int] is Str && a[k as int] is Str);
                let x = args[i].as_string()?;
                let y = args[k].as_string()?;
                if str_equal(x, y) {
                    assert(a[i as int] == a[k as int]);
                    return Ok(Value::Bool(false));
                }
                k = k + 1;
            }
            i = i + 1;
        }
        Ok(Value::Bool(true))
    }
}



/// CHAR-INT - Get integer code of character (alias for CHAR-CODE)
pub struct CharIntTool;

impl Tool for CharIntTool {
    open spec fn names_itself(&self) -> bool {
        true
    }

    open spec fn spec_name(&self) -> Seq<char> {
        "CHAR-INT"@
    }

    open spec fn admits(&self, args: Seq<Val>) -> bool {
        true
    }

    fn name(&self) -> &str {
        "CHAR-INT"
    }

    fn description(&self) -> (r: &str)
        ensures
            r@ == "Get integer code of character"@,
    {
        "Get integer code of character"
    }

    fn execute(&self, args: &[Value]) -> (r: Result<Value, Error>)
        ensures
            outcome(r) == (match char_arg("CHAR-INT"@, models(args@)) {
                Ok(c) => yields(Val::Int(c as i64)),
                Err(e) => Err(e),
            }),
    {
        let ch = char_arg_exec("CHAR-INT", args)?;
        Ok(Value::Int(ch as i64))
    }
}



/// INT-CHAR - Get character from integer code (alias for CODE-CHAR)
pub struct IntCharTool;

impl Tool for IntCharTool {
    open spec fn names_itself(&self) -> bool {
        true
    }

    open spec fn spec_name(&self) -> Seq<char> {
        "INT-CHAR"@
    }

    open spec fn admits(&self, args: Seq<Val>) -> bool {
        true
    }

    fn name(&self) -> &str {
        "INT-CHAR"
    }

    fn description(&self) -> (r: &str)
        ensures
            r@ == "Get character from integer code"@,
    {
        "Get character from integer code"
    }

    fn execute(&self, args: &[Value]) -> (r: Result<Value, Error>)
        ensures
            outcome(r) == (if args@.len() == 0 { bad_args("INT-CHAR"@, "Expected integer argument"@) } else {
                match int_of(args@[0].model()) {
                    Err(e) => Err(e),
                    Ok(code) => if scalar_value(code as u32) {
                        yields(Val::Str(seq![(code as u32) as char]))
                    } else {
                        bad_args("INT-CHAR"@, "Invalid character code: "@ + int_decimal(code as int))
                    },
                }
            }),
    {
        if args.len() == 0 {
            return Err(invalid_args("INT-CHAR", "Expected integer argument"));
        }
        let code = args[0].as_int()?;
        match char_from_u32(code as u32) {
            Some(ch) => Ok(Value::String(char_string(ch))),
            None => {
                let digits = i64_to_string(code);
                let reason = concat("Invalid character code: ", digits.as_str());
                Err(Error::InvalidArguments { tool: owned("INT-CHAR"), reason })
            },
        }
    }
}



/// The name CHAR-NAME gives a character: the five named characters have
/// names, every other character answers null.
pub open spec fn char_name_val(c: char) -> Val {
    if c == ' ' {
        Val::Str("Space"@)
    } else if c == '\n' {
        Val::Str("Newline"@)
    } else if c == '\t' {
        Val::Str("Tab"@)
    } else if c == '\r' {
        Val::Str("Return"@)
    } else if c == '\0' {
        Val::Str("Null"@)
    } else {
        Val::Null
    }
}

/// The character NAME-CHAR gives for a lower-cased name, or null.
pub open spec fn name_char_val(n: Seq<char>) -> Val {
    if n == "space"@ {
        Val::Str(seq![' '])
    } else if n == "newline"@ {
        Val::Str(seq!['\n'])
    } else if n == "tab"@ {
        Val::Str(seq!['\t'])
    } else if n == "return"@ {
        Val::Str(seq!['\r'])
    } else if n == "null"@ {
        Val::Str(seq!['\0'])
    } else {
        Val::Null
    }
}

/// What NAME-CHAR answers for the name `s`: the name is lower-cased (on ASCII
/// text by ASCII rules, else as std does) and looked up.
pub open spec fn name_char_result(s: Seq<char>) -> Val {
    name_char_val(if ascii_text(s) { ascii_lowered(s) } else { lowercase(s) })
}

/// CHAR-NAME and NAME-CHAR undo each other: the name CHAR-NAME gives one of
/// the named characters leads NAME-CHAR back to it, written in any letter
/// case; any other character has no name.
pub proof fn law_char_name_round_trip(c: char)
    ensures
        char_name_val(c) matches Val::Str(n) ==> name_char_result(n) == Val::Str(seq![c]) && name_char_result(
            ascii_uppered(n),
        ) == Val::Str(seq![c]),
        !(c == ' ' || c == '\n' || c == '\t' || c == '\r' || c == '\0') ==> char_name_val(c) == Val::Null,
{
    reveal_strlit("Space");
    reveal_strlit("Newline");
    reveal_strlit("Tab");
    reveal_strlit("Return");
    reveal_strlit("Null");
    reveal_strlit("space");
    reveal_strlit("newline");
    reveal_strlit("tab");
    reveal_strlit("return");
    reveal_strlit("null");
    if let Val::Str(n) = char_name_val(c) {
        assert(ascii_text(n));
        assert(ascii_text(ascii_uppered(n)));
        assert(ascii_lowered(n) =~= ascii_lowered(ascii_uppered(n)));
        if c == ' ' {
            assert(ascii_lowered(n) =~= "space"@);
        } else if c == '\n' {
            assert(ascii_lowered(n) =~= "newline"@);
        } else if c == '\t' {
            assert(ascii_lowered(n) =~= "tab"@);
        } else if c == '\r' {
            assert(ascii_lowered(n) =~= "return"@);
        } else {
            assert(ascii_lowered(n) =~= "null"@);
        }
    }
}

/// An ASCII lower-case letter as its upper-case letter, character by character.
pub open spec fn ascii_uppered(s: Seq<char>) -> Seq<char> {
    Seq::new(
        s.len(),
        |i: int|
            if 'a' <= s[i] && s[i] <= 'z' {
                ((s[i] as u32) - 32) as char
            } else {
                s[i]
            },
    )
}

/// CHAR-NAME - Get name of character
pub struct CharNameTool;

impl Tool for CharNameTool {
    open spec fn names_itself(&self) -> bool {
        true
    }

    open spec fn spec_name(&self) -> Seq<char> {
        "CHAR-NAME"@
    }

    open spec fn admits(&self, args: Seq<Val>) -> bool {
        true
    }

    fn name(&self) -> &str {
        "CHAR-NAME"
    }

    fn description(&self) -> (r: &str)
        ensures
            r@ == "Get name of character (e.g., 'Space', 'Newline')"@,
    {
        "Get name of character (e.g., 'Space', 'Newline')"
    }

    fn execute(&self, args: &[Value]) -> (r: Result<Value, Error>)
        ensures
            outcome(r) == (match char_arg("CHAR-NAME"@, models(args@)) {
                Err(e) => Err(e),
                Ok(c) => yields(char_name_val(c)),
            }),
    {
        let ch = char_arg_exec("CHAR-NAME", args)?;
        let name = if ch == ' ' {
            "Space"
        } else if ch == '\n' {
            "Newline"
        } else if ch == '\t' {
            "Tab"
        } else if ch == '\r' {
            "Return"
        } else if ch == '\0' {
            "Null"
        } else {
            return Ok(Value::Null);
        };
        Ok(Value::String(owned(name)))
    }
}



/// NAME-CHAR - Get character from name
pub struct NameCharTool;

impl Tool for NameCharTool {
    open spec fn names_itself(&self) -> bool {
        true
    }

    open spec fn spec_name(&self) -> Seq<char> {
        "NAME-CHAR"@
    }

    open spec fn admits(&self, args: Seq<Val>) -> bool {
        true
    }

    fn name(&self) -> &str {
        "NAME-CHAR"
    }

    fn description(&self) -> (r: &str)
        ensures
            r@ == "Get character from name (e.g., 'Space' -> ' ')"@,
    {
        "Get character from name (e.g., 'Space' -> ' ')"
    }

    fn execute(&self, args: &[Value]) -> (r: Result<Value, Error>)
        ensures
            outcome(r) == (if args@.len() == 0 { bad_args("NAME-CHAR"@, "Expected string argument"@) } else {
                match str_of(args@[0].model()) {
                    Err(e) => Err(e),
                    Ok(s) => yields(name_char_result(s)),
                }
            }),
    {
        if args.len() == 0 {
            return Err(invalid_args("NAME-CHAR", "Expected string argument"));
        }
        let name = to_lower(args[0].as_string()?);
        let n = name.as_str();
        proof {
            reveal_strlit("space");
            reveal_strlit("newline");
            reveal_strlit("tab");
            reveal_strlit("return");
            reveal_strlit("null");
        }
        let ch = if str_equal(n, "space") {
            ' '
        } else if str_equal(n, "newline") {
            '\n'
        } else if str_equal(n, "tab") {
            '\t'
        } else if str_equal(n, "return") {
            '\r'
        } else if str_equal(n, "null") {
            '\0'
        } else {
            return Ok(Value::Null);
        };
        Ok(Value::String(char_string(ch)))
    }
}


} // verus!
