//! Text primitives: character sequences, decimal numerals and ordering of strings.
use vstd::prelude::*;

verus! {

/// `==` on string slices (std's `PartialEq for str`): true exactly when both
/// hold the same characters.
#[verifier::external_body]
pub(crate) fn str_equal(a: &str, b: &str) -> (r: bool)
    ensures
        r == (a@ == b@),
{
    a == b
}

/// std's `String: FromIterator<&char>`: the string made of the given characters in order.
#[verifier::external_body]
pub(crate) fn string_from_chars(v: &Vec<char>) -> (s: String)
    ensures
        s@ == v@,
{
    String::from_iter(v.iter())
}

/// What std's `str::to_lowercase` returns for a string (Unicode lower-case mapping).
pub uninterp spec fn lowercase(s: Seq<char>) -> Seq<char>;

/// What std's `str::to_uppercase` returns for a string (Unicode upper-case mapping).
pub uninterp spec fn uppercase(s: Seq<char>) -> Seq<char>;

/// Every character is ASCII.
pub open spec fn ascii_text(s: Seq<char>) -> bool {
    forall|i: int| 0 <= i < s.len() ==> (s[i] as u32) < 128
}

/// An ASCII upper-case letter as its lower-case letter; other characters unchanged.
pub open spec fn ascii_lower_char(c: char) -> char {
    if 'A' <= c && c <= 'Z' {
        ((c as u32) + 32) as char
    } else {
        c
    }
}

/// Each character of `s` through [`ascii_lower_char`].
pub open spec fn ascii_lowered(s: Seq<char>) -> Seq<char> {
    Seq::new(s.len(), |i: int| ascii_lower_char(s[i]))
}

/// std's `str::to_lowercase`; its result is named by [`lowercase`]. On ASCII
/// text, Unicode's lower-case mapping turns `A`..`Z` into `a`..`z` and keeps
/// every other character, as the documentation's example (`"HELLO"` to
/// `"hello"`) shows.
#[verifier::external_body]
pub(crate) fn to_lower(s: &str) -> (r: String)
    ensures
        r@ == lowercase(s@),
        ascii_text(s@) ==> r@ == ascii_lowered(s@),
{
    s.to_lowercase()
}

/// std's `str::to_uppercase`; its result is named by [`uppercase`].
#[verifier::external_body]
pub(crate) fn to_upper(s: &str) -> (r: String)
    ensures
        r@ == uppercase(s@),
{
    s.to_uppercase()
}

/// What std's `char::is_alphabetic` answers (Unicode `Alphabetic` property).
pub uninterp spec fn alphabetic(c: char) -> bool;

/// What std's `char::is_alphanumeric` answers (alphabetic or numeric).
pub uninterp spec fn alphanumeric(c: char) -> bool;

/// What std's `char::is_whitespace` answers (Unicode `White_Space` property).
pub uninterp spec fn whitespace(c: char) -> bool;

/// What std's `char::is_uppercase` answers (Unicode `Uppercase` property).
pub uninterp spec fn upper_case(c: char) -> bool;

/// What std's `char::is_lowercase` answers (Unicode `Lowercase` property).
pub uninterp spec fn lower_case(c: char) -> bool;

/// The characters that std's `char::to_uppercase` yields for a character.
pub uninterp spec fn upper_chars(c: char) -> Seq<char>;

/// The characters that std's `char::to_lowercase` yields for a character.
pub uninterp spec fn lower_chars(c: char) -> Seq<char>;

/// std's `char::is_alphabetic`.
#[verifier::external_body]
pub(crate) fn char_is_alphabetic(c: char) -> (b: bool)
    ensures
        b == alphabetic(c),
{
    c.is_alphabetic()
}

/// std's `char::is_alphanumeric`.
#[verifier::external_body]
pub(crate) fn char_is_alphanumeric(c: char) -> (b: bool)
    ensures
        b == alphanumeric(c),
{
    c.is_alphanumeric()
}

/// std's `char::is_whitespace`.
#[verifier::external_body]
pub(crate) fn char_is_whitespace(c: char) -> (b: bool)
    ensures
        b == whitespace(c),
{
    c.is_whitespace()
}

/// std's `char::is_uppercase`.
#[verifier::external_body]
pub(crate) fn char_is_uppercase(c: char) -> (b: bool)
    ensures
        b == upper_case(c),
{
    c.is_uppercase()
}

/// std's `char::is_lowercase`.
#[verifier::external_body]
pub(crate) fn char_is_lowercase(c: char) -> (b: bool)
    ensures
        b == lower_case(c),
{
    c.is_lowercase()
}

/// std's `char::to_uppercase`, collected: one or more characters.
#[verifier::external_body]
pub(crate) fn char_to_uppercase(c: char) -> (v: Vec<char>)
    ensures
        v@ == upper_chars(c),
        v@.len() >= 1,
{
    c.to_uppercase().collect()
}

/// std's `char::to_lowercase`, collected: one or more characters.
#[verifier::external_body]
pub(crate) fn char_to_lowercase(c: char) -> (v: Vec<char>)
    ensures
        v@ == lower_chars(c),
        v@.len() >= 1,
{
    c.to_lowercase().collect()
}

/// Whether a code is a Unicode scalar value, the codes that `char` holds.
pub open spec fn scalar_value(code: u32) -> bool {
    code <= 0x10FFFF && !(0xD800 <= code <= 0xDFFF)
}

/// std's `char::from_u32`: the character with the given code, when the code is
/// a Unicode scalar value.
#[verifier::external_body]
pub(crate) fn char_from_u32(code: u32) -> (r: Option<char>)
    ensures
        r == (if scalar_value(code) { Some(code as char) } else { None::<char> }),
{
    char::from_u32(code)
}

/// The string holding the one character `c`.
pub fn char_string(c: char) -> (s: String)
    ensures
        s@ == seq![c],
{
    let v = vec![c];
    assert(v@ =~= seq![c]);
    string_from_chars(&v)
}

/// The characters of a string, in order.
pub fn chars_of(s: &str) -> (v: Vec<char>)
    ensures
        v@ == s@,
{
    let n = s.unicode_len();
    let mut v: Vec<char> = Vec::new();
    let mut i: usize = 0;
    while i < n
        invariant
            n == s@.len(),
            i <= n,
            v@ == s@.subrange(0, i as int),
        decreases n - i,
    {
        let c = s.get_char(i);
        v.push(c);
        i = i + 1;
        assert(v@ =~= s@.subrange(0, i as int));
    }
    assert(v@ =~= s@);
    v
}

/// The characters of `v` after the first `n`.
pub fn chars_skip(v: &Vec<char>, n: usize) -> (r: Vec<char>)
    requires
        n <= v@.len(),
    ensures
        r@ == v@.skip(n as int),
{
    let mut out: Vec<char> = Vec::new();
    let mut i: usize = n;
    while i < v.len()
        invariant
            n <= i <= v@.len(),
            out@ == v@.subrange(n as int, i as int),
        decreases v.len() - i,
    {
        out.push(v[i]);
        i = i + 1;
        assert(out@ =~= v@.subrange(n as int, i as int));
    }
    assert(out@ =~= v@.skip(n as int));
    out
}

/// A new string holding `s`.
pub fn owned(s: &str) -> (r: String)
    ensures
        r@ == s@,
{
    String::from_str(s)
}

/// The string `a` followed by `b`.
pub fn concat(a: &str, b: &str) -> (r: String)
    ensures
        r@ == a@ + b@,
{
    let mut r = String::from_str(a);
    r.append(b);
    r
}

/// The decimal digit character for `d < 10`.
pub open spec fn digit_char(d: nat) -> char {
    (('0' as nat) + d) as char
}

/// The decimal numeral of a natural number, most significant digit first.
pub open spec fn decimal(n: nat) -> Seq<char>
    decreases n,
{
    if n < 10 {
        seq![digit_char(n)]
    } else {
        decimal(n / 10).push(digit_char(n % 10))
    }
}

/// The decimal numeral of an integer, with a leading `-` when negative.
pub open spec fn int_decimal(i: int) -> Seq<char> {
    if i < 0 {
        seq!['-'] + decimal((-i) as nat)
    } else {
        decimal(i as nat)
    }
}

fn digit(d: u64) -> (c: char)
    requires
        d < 10,
    ensures
        c == digit_char(d as nat),
{
    if d == 0 { '0' }
    else if d == 1 { '1' }
    else if d == 2 { '2' }
    else if d == 3 { '3' }
    else if d == 4 { '4' }
    else if d == 5 { '5' }
    else if d == 6 { '6' }
    else if d == 7 { '7' }
    else if d == 8 { '8' }
    else { '9' }
}

/// The decimal digits of `n`.
pub fn decimal_chars(n: u64) -> (v: Vec<char>)
    ensures
        v@ == decimal(n as nat),
{
    let mut m: u64 = n;
    let mut acc: Vec<char> = Vec::new();
    loop
        invariant_except_break
            decimal(n as nat) == decimal(m as nat) + acc@,
        ensures
            decimal(n as nat) == acc@,
        decreases m,
    {
        if m < 10 {
            let ghost prev = acc@;
            acc.insert(0, digit(m));
            assert(acc@ =~= decimal(m as nat) + prev);
            break;
        } else {
            let d = digit(m % 10);
            let ghost prev = acc@;
            acc.insert(0, d);
            let ghost m0 = m as nat;
            m = m / 10;
            assert(decimal(m0) == decimal(m as nat).push(d));
            assert(decimal(m as nat) + acc@ =~= decimal(m as nat).push(d) + prev);
        }
    }
    acc
}

/// std's `Display` of an unsigned integer: its decimal numeral.
pub fn u64_to_string(n: u64) -> (s: String)
    ensures
        s@ == decimal(n as nat),
{
    let v = decimal_chars(n);
    string_from_chars(&v)
}

/// std's `Display` of a signed integer: its decimal numeral, `-` first when negative.
pub fn i64_to_string(i: i64) -> (s: String)
    ensures
        s@ == int_decimal(i as int),
{
    if i < 0 {
        let mag: u64 = (-(i as i128)) as u64;
        let mut v = decimal_chars(mag);
        v.insert(0, '-');
        assert(v@ =~= seq!['-'] + decimal((-(i as int)) as nat));
        string_from_chars(&v)
    } else {
        u64_to_string(i as u64)
    }
}

/// The digit character for `d < 16`, lowercase letters from ten on.
pub open spec fn radix_digit_char(d: nat) -> char {
    if d < 10 {
        digit_char(d)
    } else {
        (('a' as nat) + (d - 10)) as char
    }
}

/// The numeral of `n` in radix `r` (from 2 to 16), most significant digit first.
pub open spec fn radix_numeral(n: nat, r: nat) -> Seq<char>
    decreases n,
{
    if r < 2 || n < r {
        seq![radix_digit_char(n)]
    } else {
        proof {
            assert(n / r < n) by (nonlinear_arith)
                requires
                    r >= 2,
                    n >= r,
            ;
        }
        radix_numeral(n / r, r).push(radix_digit_char(n % r))
    }
}

fn radix_digit(d: u64) -> (c: char)
    requires
        d < 16,
    ensures
        c == radix_digit_char(d as nat),
{
    if d < 10 {
        digit(d)
    } else if d == 10 {
        'a'
    } else if d == 11 {
        'b'
    } else if d == 12 {
        'c'
    } else if d == 13 {
        'd'
    } else if d == 14 {
        'e'
    } else {
        'f'
    }
}

/// The digits of `n` in radix `r`.
pub fn radix_chars(n: u64, r: u64) -> (v: Vec<char>)
    requires
        2 <= r <= 16,
    ensures
        v@ == radix_numeral(n as nat, r as nat),
{
    let mut m: u64 = n;
    let mut acc: Vec<char> = Vec::new();
    loop
        invariant_except_break
            2 <= r <= 16,
            radix_numeral(n as nat, r as nat) == radix_numeral(m as nat, r as nat) + acc@,
        ensures
            radix_numeral(n as nat, r as nat) == acc@,
        decreases m,
    {
        if m < r {
            let ghost prev = acc@;
            acc.insert(0, radix_digit(m));
            assert(acc@ =~= radix_numeral(m as nat, r as nat) + prev);
            break;
        } else {
            let d = radix_digit(m % r);
            let ghost prev = acc@;
            acc.insert(0, d);
            let ghost m0 = m as nat;
            m = m / r;
            assert(radix_numeral(m0, r as nat) == radix_numeral(m as nat, r as nat).push(d));
            assert(radix_numeral(m as nat, r as nat) + acc@ =~= radix_numeral(m as nat, r as nat).push(d) + prev);
        }
    }
    acc
}

/// Lexicographic order of character sequences by code point (which is the
/// byte order of their UTF-8 encodings): `a` comes strictly before `b`.
pub open spec fn seq_less(a: Seq<char>, b: Seq<char>) -> bool
    decreases a.len(),
{
    if b.len() == 0 {
        false
    } else if a.len() == 0 {
        true
    } else if a[0] < b[0] {
        true
    } else if a[0] > b[0] {
        false
    } else {
        seq_less(a.drop_first(), b.drop_first())
    }
}

/// No sequence comes before itself.
pub proof fn lemma_seq_less_irreflexive(a: Seq<char>)
    ensures
        !seq_less(a, a),
    decreases a.len(),
{
    if a.len() > 0 {
        lemma_seq_less_irreflexive(a.drop_first());
    }
}

/// If `a` comes before `b`, `b` does not come before `a`.
pub proof fn lemma_seq_less_asymmetric(a: Seq<char>, b: Seq<char>)
    ensures
        seq_less(a, b) ==> !seq_less(b, a),
    decreases a.len(),
{
    if a.len() > 0 && b.len() > 0 && a[0] == b[0] {
        lemma_seq_less_asymmetric(a.drop_first(), b.drop_first());
    }
}

/// The order is transitive.
pub proof fn lemma_seq_less_transitive(a: Seq<char>, b: Seq<char>, c: Seq<char>)
    requires
        seq_less(a, b),
        seq_less(b, c),
    ensures
        seq_less(a, c),
    decreases a.len(),
{
    if a.len() > 0 && b.len() > 0 && c.len() > 0 && a[0] == b[0] && b[0] == c[0] {
        lemma_seq_less_transitive(a.drop_first(), b.drop_first(), c.drop_first());
    }
}

/// Two different sequences are ordered one way or the other.
pub proof fn lemma_seq_less_total(a: Seq<char>, b: Seq<char>)
    ensures
        a != b ==> seq_less(a, b) || seq_less(b, a),
    decreases a.len(),
{
    if a.len() > 0 && b.len() > 0 && a[0] == b[0] {
        lemma_seq_less_total(a.drop_first(), b.drop_first());
        if a.drop_first() == b.drop_first() {
            assert(a =~= seq![a[0]] + a.drop_first());
            assert(b =~= seq![b[0]] + b.drop_first());
        }
    } else if a.len() == 0 && b.len() == 0 {
        assert(a =~= b);
    }
}

/// Whether `a` comes strictly before `b` in code-point order.
pub fn chars_less(a: &Vec<char>, b: &Vec<char>) -> (r: bool)
    ensures
        r == seq_less(a@, b@),
{
    let mut i: usize = 0;
    assert(a@.skip(0) =~= a@);
    assert(b@.skip(0) =~= b@);
    while i < a.len() && i < b.len()
        invariant
            i <= a.len(),
            i <= b.len(),
            a@.subrange(0, i as int) == b@.subrange(0, i as int),
            seq_less(a@, b@) == seq_less(a@.skip(i as int), b@.skip(i as int)),
        decreases a.len() - i,
    {
        let ca = a[i];
        let cb = b[i];
        assert(a@.skip(i as int)[0] == ca);
        assert(b@.skip(i as int)[0] == cb);
        if ca != cb {
            return ca < cb;
        }
        assert(a@.skip(i as int).drop_first() =~= a@.skip(i + 1));
        assert(b@.skip(i as int).drop_first() =~= b@.skip(i + 1));
        i = i + 1;
        assert(a@.subrange(0, i as int) =~= b@.subrange(0, i as int));
    }
    i < b.len()
}

/// Whether `a` comes strictly before `b` in code-point order.
pub fn str_less(a: &str, b: &str) -> (r: bool)
    ensures
        r == seq_less(a@, b@),
{
    let x = chars_of(a);
    let y = chars_of(b);
    chars_less(&x, &y)
}

} // verus!
