//! Format operations for OVSM
//!
//! This module implements Common Lisp's FORMAT function with directives:
//! - ~A - ASCII output (aesthetic)
//! - ~S - S-expression output (readable)
//! - ~D - Decimal integer
//! - ~X - Hexadecimal
//! - ~O - Octal
//! - ~B - Binary
//! - ~F - Fixed-format floating point
//! - ~E - Exponential floating point
//! - ~% - Newline
//! - ~& - Fresh line
//! - ~~ - Tilde literal
//! - ~T - Tabulate (spaces)
//! - ~* - Skip argument
//! - ~C - Character output
//!
//! Implementation notes:
//! - Simplified compared to full Common Lisp FORMAT
//! - Supports basic directives without complex modifiers
//! - Format string is parsed character by character
use vstd::prelude::*;

#[allow(unused_imports)]
use crate::access::{copy_range, copy_slice, copy_values, values_equal};
#[allow(unused_imports)]
use crate::error::{empty_collection, exec_error, invalid_args, ErrV, Error};
#[allow(unused_imports)]
use crate::text::{alphabetic, alphanumeric, char_from_u32, char_is_alphabetic, char_is_alphanumeric, char_is_lowercase, char_is_uppercase, char_is_whitespace, char_string, char_to_lowercase, char_to_uppercase, chars_of, chars_skip, concat, i64_to_string, int_decimal, lower_case, lower_chars, lowercase, owned, scalar_value, seq_less, str_equal, str_less, string_from_chars, to_lower, to_upper, upper_case, upper_chars, uppercase, whitespace};
#[allow(unused_imports)]
use crate::tools::{bad_args, name_insert, outcome, ref_outcome, string_views, yields, Tool, ToolRegistry};
#[allow(unused_imports)]
use crate::value::{and_then, elems, entry_models, int_of, models, obj_insert, obj_keys, obj_lookup, obj_merge, obj_of, obj_values, str_of, truthy, type_error, ObjectMap, Val, Value};

verus! {

broadcast use crate::seq_models::group_value_models;

/// The names after registering this module's tools, in order.
pub open spec fn registered_names(ns: Seq<Seq<char>>) -> Seq<Seq<char>> {
    let ns = name_insert(ns, "FORMAT-D"@);
    let ns = name_insert(ns, "FORMAT-X"@);
    let ns = name_insert(ns, "FORMAT-O"@);
    let ns = name_insert(ns, "FORMAT-B"@);
    let ns = name_insert(ns, "FORMAT-NEWLINE"@);
    let ns = name_insert(ns, "FORMAT-TILDE"@);
    let ns = name_insert(ns, "FORMAT-TAB"@);
    let ns = name_insert(ns, "FORMAT-FRESH-LINE"@);
    let ns = name_insert(ns, "FORMAT-SKIP"@);
    let ns = name_insert(ns, "FORMAT"@);
    let ns = name_insert(ns, "FORMAT-A"@);
    let ns = name_insert(ns, "FORMAT-S"@);
    let ns = name_insert(ns, "FORMAT-F"@);
    let ns = name_insert(ns, "FORMAT-E"@);
    let ns = name_insert(ns, "FORMAT-C"@);
    ns
}

/// Register the tools of this module: those the library holds, then those
/// the application supplies, each under its name: `format_tool` under FORMAT, `format_a_tool` under FORMAT-A, `format_s_tool` under FORMAT-S, `format_f_tool` under FORMAT-F, `format_e_tool` under FORMAT-E, `format_c_tool` under FORMAT-C.
pub fn register<TFormat: Tool + 'static, TFormatA: Tool + 'static, TFormatS: Tool + 'static, TFormatF: Tool + 'static, TFormatE: Tool + 'static, TFormatC: Tool + 'static>(registry: &mut ToolRegistry, format_tool: TFormat, format_a_tool: TFormatA, format_s_tool: TFormatS, format_f_tool: TFormatF, format_e_tool: TFormatE, format_c_tool: TFormatC)
    requires
        format_tool.names_itself() ==> format_tool.spec_name() == "FORMAT"@,
        format_a_tool.names_itself() ==> format_a_tool.spec_name() == "FORMAT-A"@,
        format_s_tool.names_itself() ==> format_s_tool.spec_name() == "FORMAT-S"@,
        format_f_tool.names_itself() ==> format_f_tool.spec_name() == "FORMAT-F"@,
        format_e_tool.names_itself() ==> format_e_tool.spec_name() == "FORMAT-E"@,
        format_c_tool.names_itself() ==> format_c_tool.spec_name() == "FORMAT-C"@,
    ensures
        final(registry).names() == registered_names(old(registry).names()),
{
    registry.register(FormatDTool);
    registry.register(FormatXTool);
    registry.register(FormatOTool);
    registry.register(FormatBTool);
    registry.register(FormatNewlineTool);
    registry.register(FormatTildeTool);
    registry.register(FormatTabTool);
    registry.register(FormatFreshLineTool);
    registry.register(FormatSkipTool);
    registry.place(owned("FORMAT"), format_tool);
    registry.place(owned("FORMAT-A"), format_a_tool);
    registry.place(owned("FORMAT-S"), format_s_tool);
    registry.place(owned("FORMAT-F"), format_f_tool);
    registry.place(owned("FORMAT-E"), format_e_tool);
    registry.place(owned("FORMAT-C"), format_c_tool);
}

/// FORMAT-NEWLINE - Newline directive (~%)
pub struct FormatNewlineTool;

impl Tool for FormatNewlineTool {
    open spec fn names_itself(&self) -> bool {
        true
    }

    open spec fn spec_name(&self) -> Seq<char> {
        "FORMAT-NEWLINE"@
    }

    open spec fn admits(&self, args: Seq<Val>) -> bool {
        true
    }

    fn name(&self) -> &str {
        "FORMAT-NEWLINE"
    }

    fn description(&self) -> (r: &str)
        ensures
            r@ == "Output newline character"@,
    {
        "Output newline character"
    }

    fn execute(&self, args: &[Value]) -> (r: Result<Value, Error>)
        ensures
            outcome(r) == (yields(Val::Str("\n"@))),
    {
        Ok(Value::String(owned("\n")))
    }
}

/// FORMAT-TILDE - Tilde literal directive (~~)
pub struct FormatTildeTool;

impl Tool for FormatTildeTool {
    open spec fn names_itself(&self) -> bool {
        true
    }

    open spec fn spec_name(&self) -> Seq<char> {
        "FORMAT-TILDE"@
    }

    open spec fn admits(&self, args: Seq<Val>) -> bool {
        true
    }

    fn name(&self) -> &str {
        "FORMAT-TILDE"
    }

    fn description(&self) -> (r: &str)
        ensures
            r@ == "Output tilde literal"@,
    {
        "Output tilde literal"
    }

    fn execute(&self, args: &[Value]) -> (r: Result<Value, Error>)
        ensures
            outcome(r) == (yields(Val::Str("~"@))),
    {
        Ok(Value::String(owned("~")))
    }
}

/// FORMAT-TAB - Tabulate directive (~T)
pub struct FormatTabTool;

impl Tool for FormatTabTool {
    open spec fn names_itself(&self) -> bool {
        true
    }

    open spec fn spec_name(&self) -> Seq<char> {
        "FORMAT-TAB"@
    }

    open spec fn admits(&self, args: Seq<Val>) -> bool {
        true
    }

    fn name(&self) -> &str {
        "FORMAT-TAB"
    }

    fn description(&self) -> (r: &str)
        ensures
            r@ == "Output tab/spaces"@,
    {
        "Output tab/spaces"
    }

    fn execute(&self, args: &[Value]) -> (r: Result<Value, Error>)
        ensures
            outcome(r) == (yields(Val::Str("    "@))),
    {
        Ok(Value::String(owned("    ")))
    }
}

/// FORMAT-FRESH-LINE - Fresh line directive (~&)
pub struct FormatFreshLineTool;

impl Tool for FormatFreshLineTool {
    open spec fn names_itself(&self) -> bool {
        true
    }

    open spec fn spec_name(&self) -> Seq<char> {
        "FORMAT-FRESH-LINE"@
    }

    open spec fn admits(&self, args: Seq<Val>) -> bool {
        true
    }

    fn name(&self) -> &str {
        "FORMAT-FRESH-LINE"
    }

    fn description(&self) -> (r: &str)
        ensures
            r@ == "Output newline if needed"@,
    {
        "Output newline if needed"
    }

    fn execute(&self, args: &[Value]) -> (r: Result<Value, Error>)
        ensures
            outcome(r) == (yields(Val::Str("\n"@))),
    {
        Ok(Value::String(owned("\n")))
    }
}

use crate::text::{radix_chars, radix_numeral};
use crate::float_bits::{float_to_i64, float_to_i64_exec, int_to_float_bits, int_to_float_bits_exec};

/// FORMAT-SKIP - Skip argument directive (~*)
pub struct FormatSkipTool;

impl Tool for FormatSkipTool {
    open spec fn names_itself(&self) -> bool {
        true
    }

    open spec fn spec_name(&self) -> Seq<char> {
        "FORMAT-SKIP"@
    }

    open spec fn admits(&self, args: Seq<Val>) -> bool {
        true
    }

    fn name(&self) -> &str {
        "FORMAT-SKIP"
    }

    fn description(&self) -> (r: &str)
        ensures
            r@ == "Skip current argument in format sequence"@,
    {
        "Skip current argument in format sequence"
    }

    fn execute(&self, args: &[Value]) -> (r: Result<Value, Error>)
        ensures
            outcome(r) == (yields(Val::Str(Seq::empty()))),
    {
        let s = String::new();
        Ok(Value::String(s))
    }
}



/// The integer a formatting directive prints of a number: an integer as it
/// is, a float truncated as `as i64` does.
pub open spec fn format_integer(v: Val) -> Option<i64> {
    match v {
        Val::Int(n) => Some(n),
        Val::Float(b) => Some(float_to_i64(b)),
        _ => None,
    }
}

/// The bits of an `i64` read as unsigned: two's complement for a negative one.
pub open spec fn twos_complement(n: i64) -> nat {
    if n < 0 {
        (n + 0x1_0000_0000_0000_0000) as nat
    } else {
        n as nat
    }
}

/// The result of a directive that prints an integer in radix `r` (ten for
/// ~D, which prints a sign; the others print two's complement digits).
pub open spec fn format_radix_result(tool: Seq<char>, directive: Seq<char>, r: nat, a: Seq<Val>) -> Result<Val, ErrV> {
    if a.len() == 0 {
        bad_args(tool, "Expected numeric value"@)
    } else {
        match format_integer(a[0]) {
            None => bad_args("FORMAT"@, "~"@ + directive + " requires numeric argument"@),
            Some(n) => yields(Val::Str(if r == 10 { int_decimal(n as int) } else { radix_numeral(twos_complement(n), r) })),
        }
    }
}

fn format_radix_exec(tool: &str, directive: &str, r: u64, args: &[Value]) -> (res: Result<Value, Error>)
    requires
        r == 2 || r == 8 || r == 10 || r == 16,
    ensures
        outcome(res) == format_radix_result(tool@, directive@, r as nat, models(args@)),
{
    if args.len() == 0 {
        return Err(invalid_args(tool, "Expected numeric value"));
    }
    let n: i64 = match &args[0] {
        Value::Int(n) => *n,
        Value::Float(b) => float_to_i64_exec(*b),
        _ => {
            let head = concat("~", directive);
            return Err(Error::InvalidArguments {
                tool: owned("FORMAT"),
                reason: concat(head.as_str(), " requires numeric argument"),
            });
        },
    };
    Ok(Value::String(radix_text(n, r)))
}

/// The numeral of an integer in radix `r`: with a sign in radix ten, as two's
/// complement digits in the others.
pub open spec fn radix_text_of(n: i64, r: nat) -> Seq<char> {
    if r == 10 {
        int_decimal(n as int)
    } else {
        radix_numeral(twos_complement(n), r)
    }
}

fn radix_text(n: i64, r: u64) -> (s: String)
    requires
        r == 2 || r == 8 || r == 10 || r == 16,
    ensures
        s@ == radix_text_of(n, r as nat),
{
    if r == 10 {
        i64_to_string(n)
    } else {
        let u: u64 = n as u64;
        assert(n < 0 ==> u as int == n as int + 0x1_0000_0000_0000_0000) by (bit_vector)
            requires
                u == n as u64,
        ;
        assert(n >= 0 ==> u as int == n as int) by (bit_vector)
            requires
                u == n as u64,
        ;
        let digits = radix_chars(u, r);
        string_from_chars(&digits)
    }
}

/// A piece of FORMAT's output: text, or a value whose printed form the
/// caller supplies (a non-string under ~A, ~S or ~C), or a float to be
/// printed fixed (~F, two decimals) or exponential (~E), given by its bits.
pub enum FormatPiece {
    Text(String),
    Shown(Value),
    Fixed(u64),
    Exponent(u64),
}

/// The model of a [`FormatPiece`].
pub enum PieceModel {
    Text(Seq<char>),
    Shown(Val),
    Fixed(u64),
    Exponent(u64),
}

/// The model of a piece.
pub open spec fn piece_view(p: FormatPiece) -> PieceModel {
    match p {
        FormatPiece::Text(t) => PieceModel::Text(t@),
        FormatPiece::Shown(v) => PieceModel::Shown(v.model()),
        FormatPiece::Fixed(b) => PieceModel::Fixed(b),
        FormatPiece::Exponent(b) => PieceModel::Exponent(b),
    }
}

/// The models of a sequence of pieces.
pub open spec fn piece_views(ps: Seq<FormatPiece>) -> Seq<PieceModel> {
    Seq::new(ps.len(), |i: int| piece_view(ps[i]))
}

/// `c` upper-cased if it is an ASCII letter (`to_ascii_uppercase`).
pub open spec fn ascii_upper(c: char) -> char {
    if 'a' <= c && c <= 'z' {
        ((c as u32) - 32) as char
    } else {
        c
    }
}

fn ascii_upper_exec(c: char) -> (r: char)
    ensures
        r == ascii_upper(c),
{
    if 'a' <= c && c <= 'z' {
        let code: u32 = (c as u32) - 32;
        let r = char_from_u32(code);
        r.unwrap()
    } else {
        c
    }
}

/// The error of a numeric directive given another value.
pub open spec fn numeric_directive_error(d: char) -> ErrV {
    ErrV::InvalidArguments { tool: "FORMAT"@, reason: seq!['~', d] + " requires numeric argument"@ }
}

/// The piece a directive that takes an argument makes of it, or its error.
/// `d` is one of A, S, D, X, O, B, F, E, C.
pub open spec fn directive_piece(d: char, v: Val) -> Result<PieceModel, ErrV> {
    if d == 'A' {
        match v {
            Val::Str(s) => Ok(PieceModel::Text(s)),
            _ => Ok(PieceModel::Shown(v)),
        }
    } else if d == 'S' {
        match v {
            Val::Str(s) => Ok(PieceModel::Text(seq!['"'] + s + seq!['"'])),
            _ => Ok(PieceModel::Shown(v)),
        }
    } else if d == 'F' || d == 'E' {
        let b = match v {
            Val::Float(b) => Some(b),
            Val::Int(n) => Some(int_to_float_bits(n as int)),
            _ => None,
        };
        match b {
            None => Err(numeric_directive_error(d)),
            Some(b) => Ok(if d == 'F' { PieceModel::Fixed(b) } else { PieceModel::Exponent(b) }),
        }
    } else if d == 'C' {
        match v {
            Val::Str(s) => Ok(PieceModel::Text(if s.len() == 0 { seq![' '] } else { seq![s[0]] })),
            Val::Int(n) => Ok(PieceModel::Text(
                if scalar_value(n as u32) { seq![(n as u32) as char] } else { seq!['?'] },
            )),
            _ => Ok(PieceModel::Shown(v)),
        }
    } else {
        match format_integer(v) {
            None => Err(numeric_directive_error(d)),
            Some(n) => Ok(PieceModel::Text(radix_text_of(n, if d == 'D' { 10 } else if d == 'X' { 16 } else if d == 'O' { 8 } else { 2 }))),
        }
    }
}

/// The directive letters that take an argument.
pub open spec fn takes_argument(d: char) -> bool {
    d == 'A' || d == 'S' || d == 'D' || d == 'X' || d == 'O' || d == 'B' || d == 'F' || d == 'E' || d == 'C'
}

/// The piece `p` put before the pieces of `r`, an error passed on.
pub open spec fn prepend(p: PieceModel, r: Result<Seq<PieceModel>, ErrV>) -> Result<Seq<PieceModel>, ErrV> {
    match r {
        Ok(s) => Ok(seq![p] + s),
        Err(e) => Err(e),
    }
}

/// The pieces FORMAT makes of the format string `f` from character `i` on,
/// with the arguments `a` from index `k` on, or the first error of a
/// directive. A `~` starts a directive named by the next character, case
/// insensitively; a directive with no argument left makes nothing; a `~` at
/// the end makes nothing.
pub open spec fn format_steps(f: Seq<char>, a: Seq<Val>, i: int, k: int) -> Result<Seq<PieceModel>, ErrV>
    decreases f.len() - i,
{
    if i < 0 || i >= f.len() {
        Ok(Seq::empty())
    } else if f[i] != '~' {
        prepend(PieceModel::Text(seq![f[i]]), format_steps(f, a, i + 1, k))
    } else if i + 1 >= f.len() {
        Ok(Seq::empty())
    } else {
        let d = ascii_upper(f[i + 1]);
        if takes_argument(d) {
            if 0 <= k < a.len() {
                match directive_piece(d, a[k]) {
                    Err(e) => Err(e),
                    Ok(p) => prepend(p, format_steps(f, a, i + 2, k + 1)),
                }
            } else {
                format_steps(f, a, i + 2, k)
            }
        } else if d == '%' || d == '&' {
            prepend(PieceModel::Text(seq!['\n']), format_steps(f, a, i + 2, k))
        } else if d == '~' {
            prepend(PieceModel::Text(seq!['~']), format_steps(f, a, i + 2, k))
        } else if d == 'T' {
            prepend(PieceModel::Text(seq![' ', ' ', ' ', ' ']), format_steps(f, a, i + 2, k))
        } else if d == '*' {
            format_steps(f, a, i + 2, k + 1)
        } else {
            prepend(PieceModel::Text(seq!['~', f[i + 1]]), format_steps(f, a, i + 2, k))
        }
    }
}

fn directive_piece_exec(d: char, v: &Value) -> (r: Result<FormatPiece, Error>)
    requires
        takes_argument(d),
    ensures
        match r {
            Ok(p) => directive_piece(d, v.model()) == Ok::<PieceModel, ErrV>(piece_view(p)),
            Err(e) => directive_piece(d, v.model()) == Err::<PieceModel, ErrV>(e@),
        },
{
    if d == 'A' {
        match v {
            Value::String(s) => Ok(FormatPiece::Text(owned(s.as_str()))),
            _ => Ok(FormatPiece::Shown(v.deep_copy())),
        }
    } else if d == 'S' {
        match v {
            Value::String(s) => {
                let head = concat("\"", s.as_str());
                let t = concat(head.as_str(), "\"");
                proof {
                    reveal_strlit("\"");
                    assert("\""@ =~= seq!['"']);
                }
                Ok(FormatPiece::Text(t))
            },
            _ => Ok(FormatPiece::Shown(v.deep_copy())),
        }
    } else if d == 'F' || d == 'E' {
        let b = match v {
            Value::Float(b) => *b,
            Value::Int(n) => int_to_float_bits_exec(*n),
            _ => {
                return Err(numeric_directive_error_exec(d));
            },
        };
        if d == 'F' {
            Ok(FormatPiece::Fixed(b))
        } else {
            Ok(FormatPiece::Exponent(b))
        }
    } else if d == 'C' {
        match v {
            Value::String(s) => {
                let n = s.as_str().unicode_len();
                if n == 0 {
                    Ok(FormatPiece::Text(char_string(' ')))
                } else {
                    Ok(FormatPiece::Text(char_string(s.as_str().get_char(0))))
                }
            },
            Value::Int(n) => {
                let code: u32 = *n as u32;
                match char_from_u32(code) {
                    Some(c) => Ok(FormatPiece::Text(char_string(c))),
                    None => Ok(FormatPiece::Text(char_string('?'))),
                }
            },
            _ => Ok(FormatPiece::Shown(v.deep_copy())),
        }
    } else {
        let n: i64 = match v {
            Value::Int(n) => *n,
            Value::Float(b) => float_to_i64_exec(*b),
            _ => {
                return Err(numeric_directive_error_exec(d));
            },
        };
        let r: u64 = if d == 'D' { 10 } else if d == 'X' { 16 } else if d == 'O' { 8 } else { 2 };
        Ok(FormatPiece::Text(radix_text(n, r)))
    }
}

fn numeric_directive_error_exec(d: char) -> (e: Error)
    ensures
        e@ == numeric_directive_error(d),
{
    let t = char_string('~');
    let mut v = chars_of(t.as_str());
    v.push(d);
    let head = string_from_chars(&v);
    proof {
        assert(v@ =~= seq!['~', d]);
    }
    Error::InvalidArguments { tool: owned("FORMAT"), reason: concat(head.as_str(), " requires numeric argument") }
}

proof fn lemma_prepend_assoc(before: Seq<PieceModel>, p: PieceModel, r: Result<Seq<PieceModel>, ErrV>)
    ensures
        (match prepend(p, r) {
            Ok(s) => Ok::<Seq<PieceModel>, ErrV>(before + s),
            Err(e) => Err(e),
        }) == (match r {
            Ok(s) => Ok::<Seq<PieceModel>, ErrV>(before.push(p) + s),
            Err(e) => Err(e),
        }),
{
    if let Ok(s) = r {
        assert(before + (seq![p] + s) =~= before.push(p) + s);
    }
}

/// The pieces FORMAT makes of a format string and its arguments, or the
/// first directive error.
pub fn plan_format(format_str: &str, args: &[Value]) -> (r: Result<Vec<FormatPiece>, Error>)
    ensures
        match r {
            Ok(p) => format_steps(format_str@, models(args@), 0, 0) == Ok::<Seq<PieceModel>, ErrV>(piece_views(p@)),
            Err(e) => format_steps(format_str@, models(args@), 0, 0) == Err::<Seq<PieceModel>, ErrV>(e@),
        },
{
    let f = chars_of(format_str);
    let ghost a = models(args@);
    let mut out: Vec<FormatPiece> = Vec::new();
    let mut i: usize = 0;
    let mut k: usize = 0;
    proof {
        assert(piece_views(out@) =~= Seq::<PieceModel>::empty());
        assert(format_steps(f@, a, 0, 0) == (match format_steps(f@, a, 0, 0) {
            Ok(s) => Ok::<Seq<PieceModel>, ErrV>(Seq::<PieceModel>::empty() + s),
            Err(e) => Err(e),
        })) by {
            if let Ok(s) = format_steps(f@, a, 0, 0) {
                assert(Seq::<PieceModel>::empty() + s =~= s);
            }
        }
    }
    while i < f.len()
        invariant
            f@ == format_str@,
            a == models(args@),
            i <= f@.len(),
            k <= i,
            format_steps(f@, a, 0, 0) == (match format_steps(f@, a, i as int, k as int) {
                Ok(s) => Ok::<Seq<PieceModel>, ErrV>(piece_views(out@) + s),
                Err(e) => Err(e),
            }),
        decreases f.len() - i,
    {
        let ghost before = piece_views(out@);
        let c = f[i];
        if c != '~' {
            out.push(FormatPiece::Text(char_string(c)));
            proof {
                assert(piece_views(out@) =~= before.push(PieceModel::Text(seq![c])));
                lemma_prepend_assoc(before, PieceModel::Text(seq![c]), format_steps(f@, a, i + 1, k as int));
            }
            i = i + 1;
        } else if i + 1 >= f.len() {
            proof {
                assert(before + Seq::<PieceModel>::empty() =~= before);
            }
            i = i + 1;
        } else {
            let raw = f[i + 1];
            let d = ascii_upper_exec(raw);
            if d == 'A' || d == 'S' || d == 'D' || d == 'X' || d == 'O' || d == 'B' || d == 'F' || d == 'E' || d == 'C' {
                if k < args.len() {
                    assert(a[k as int] == args@[k as int].model());
                    let p = match directive_piece_exec(d, &args[k]) {
                        Ok(p) => p,
                        Err(e) => {
                            return Err(e);
                        },
                    };
                    let ghost pv = piece_view(p);
                    out.push(p);
                    proof {
                        assert(piece_views(out@) =~= before.push(pv));
                        lemma_prepend_assoc(before, pv, format_steps(f@, a, i + 2, k + 1));
                    }
                    k = k + 1;
                }
                i = i + 2;
            } else if d == '*' {
                k = k + 1;
                i = i + 2;
            } else {
                let t: String = if d == '%' || d == '&' {
                    char_string('\n')
                } else if d == '~' {
                    char_string('~')
                } else if d == 'T' {
                    let sp = vec![' ', ' ', ' ', ' '];
                    proof {
                        assert(sp@ =~= seq![' ', ' ', ' ', ' ']);
                    }
                    string_from_chars(&sp)
                } else {
                    let tv = vec!['~', raw];
                    proof {
                        assert(tv@ =~= seq!['~', raw]);
                    }
                    string_from_chars(&tv)
                };
                let ghost pv = PieceModel::Text(t@);
                out.push(FormatPiece::Text(t));
                proof {
                    assert(piece_views(out@) =~= before.push(pv));
                    lemma_prepend_assoc(before, pv, format_steps(f@, a, i + 2, k as int));
                }
                i = i + 2;
            }
        }
    }
    proof {
        assert(piece_views(out@) + Seq::<PieceModel>::empty() =~= piece_views(out@));
    }
    Ok(out)
}


/// FORMAT-D - Decimal output directive
pub struct FormatDTool;

impl Tool for FormatDTool {
    open spec fn names_itself(&self) -> bool {
        true
    }

    open spec fn spec_name(&self) -> Seq<char> {
        "FORMAT-D"@
    }

    open spec fn admits(&self, args: Seq<Val>) -> bool {
        true
    }

    fn name(&self) -> &str {
        "FORMAT-D"
    }

    fn description(&self) -> (r: &str)
        ensures
            r@ == "Format number as decimal integer"@,
    {
        "Format number as decimal integer"
    }

    fn execute(&self, args: &[Value]) -> (r: Result<Value, Error>)
        ensures
            outcome(r) == (format_radix_result("FORMAT-D"@, "D"@, 10, models(args@))),
    {
        format_radix_exec("FORMAT-D", "D", 10, args)
    }
}



/// FORMAT-X - Hexadecimal output directive
pub struct FormatXTool;

impl Tool for FormatXTool {
    open spec fn names_itself(&self) -> bool {
        true
    }

    open spec fn spec_name(&self) -> Seq<char> {
        "FORMAT-X"@
    }

    open spec fn admits(&self, args: Seq<Val>) -> bool {
        true
    }

    fn name(&self) -> &str {
        "FORMAT-X"
    }

    fn description(&self) -> (r: &str)
        ensures
            r@ == "Format number as hexadecimal"@,
    {
        "Format number as hexadecimal"
    }

    fn execute(&self, args: &[Value]) -> (r: Result<Value, Error>)
        ensures
            outcome(r) == (format_radix_result("FORMAT-X"@, "X"@, 16, models(args@))),
    {
        format_radix_exec("FORMAT-X", "X", 16, args)
    }
}



/// FORMAT-O - Octal output directive
pub struct FormatOTool;

impl Tool for FormatOTool {
    open spec fn names_itself(&self) -> bool {
        true
    }

    open spec fn spec_name(&self) -> Seq<char> {
        "FORMAT-O"@
    }

    open spec fn admits(&self, args: Seq<Val>) -> bool {
        true
    }

    fn name(&self) -> &str {
        "FORMAT-O"
    }

    fn description(&self) -> (r: &str)
        ensures
            r@ == "Format number as octal"@,
    {
        "Format number as octal"
    }

    fn execute(&self, args: &[Value]) -> (r: Result<Value, Error>)
        ensures
            outcome(r) == (format_radix_result("FORMAT-O"@, "O"@, 8, models(args@))),
    {
        format_radix_exec("FORMAT-O", "O", 8, args)
    }
}



/// FORMAT-B - Binary output directive
pub struct FormatBTool;

impl Tool for FormatBTool {
    open spec fn names_itself(&self) -> bool {
        true
    }

    open spec fn spec_name(&self) -> Seq<char> {
        "FORMAT-B"@
    }

    open spec fn admits(&self, args: Seq<Val>) -> bool {
        true
    }

    fn name(&self) -> &str {
        "FORMAT-B"
    }

    fn description(&self) -> (r: &str)
        ensures
            r@ == "Format number as binary"@,
    {
        "Format number as binary"
    }

    fn execute(&self, args: &[Value]) -> (r: Result<Value, Error>)
        ensures
            outcome(r) == (format_radix_result("FORMAT-B"@, "B"@, 2, models(args@))),
    {
        format_radix_exec("FORMAT-B", "B", 2, args)
    }
}



/// The pieces the FORMAT tool makes of its arguments: the format string is
/// the only argument, or else the second one, and every argument after the
/// first is formatted.
pub open spec fn format_call_plan(a: Seq<Val>) -> Result<Seq<PieceModel>, ErrV> {
    if a.len() == 0 {
        Err(ErrV::InvalidArguments { tool: "FORMAT"@, reason: "Expected format string and arguments"@ })
    } else {
        match str_of(if a.len() == 1 { a[0] } else { a[1] }) {
            Err(e) => Err(e),
            Ok(f) => format_steps(f, a.subrange(1, a.len() as int), 0, 0),
        }
    }
}

/// Reads the FORMAT tool's arguments and plans its output.
pub fn plan_format_call(args: &[Value]) -> (r: Result<Vec<FormatPiece>, Error>)
    ensures
        match r {
            Ok(p) => format_call_plan(models(args@)) == Ok::<Seq<PieceModel>, ErrV>(piece_views(p@)),
            Err(e) => format_call_plan(models(args@)) == Err::<Seq<PieceModel>, ErrV>(e@),
        },
{
    if args.len() == 0 {
        return Err(invalid_args("FORMAT", "Expected format string and arguments"));
    }
    let format_str = if args.len() == 1 {
        args[0].as_string()?
    } else {
        args[1].as_string()?
    };
    let all = copy_slice(args);
    let rest = copy_range(&all, 1, all.len());
    assert(models(args@).subrange(1, args@.len() as int) == models(rest@));
    plan_format(format_str, rest.as_slice())
}
} // verus!
