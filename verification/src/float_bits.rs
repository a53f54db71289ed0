//! Floats held by their IEEE 754 bit patterns: how they compare, and the
//! conversions between integers and floats that Rust's `as`, `floor`, `ceil`,
//! `round` and `trunc` make, each stated over the bits.
use vstd::prelude::*;

use vstd::arithmetic::power2::{lemma2_to64, lemma2_to64_rest, lemma_pow2_adds, lemma_pow2_pos, lemma_pow2_strictly_increases, lemma_pow2_unfold, pow2};
use vstd::bits::{lemma_u64_shl_is_mul, lemma_u64_shr_is_div};

use crate::error::{ErrV, Error};
use crate::text::owned;
use crate::value::{type_error, Val, Value};

verus! {

/// The `f64` with bit pattern `b` is a NaN: all exponent bits set, some fraction bit set.
pub open spec fn float_is_nan(b: u64) -> bool {
    (b >> 52u64) & 0x7ffu64 == 0x7ffu64 && b & 0x000f_ffff_ffff_ffffu64 != 0
}

/// Whether the `f64` with bit pattern `b` is a NaN.
pub fn float_is_nan_exec(b: u64) -> (r: bool)
    ensures
        r == float_is_nan(b),
{
    (b >> 52u64) & 0x7ffu64 == 0x7ffu64 && b & 0x000f_ffff_ffff_ffffu64 != 0
}

/// The sign bit of the `f64` with bit pattern `b` is set.
pub open spec fn float_negative(b: u64) -> bool {
    (b >> 63u64) == 1u64
}

/// Where the `f64` with bit pattern `b` stands among the non-NaN floats: its
/// magnitude bits, negated when the sign bit is set. Both zeros stand at 0,
/// and for non-NaN floats the order of these integers is the order of the values.
pub open spec fn float_rank(b: u64) -> int {
    let m = (b & 0x7fff_ffff_ffff_ffffu64) as int;
    if float_negative(b) {
        -m
    } else {
        m
    }
}

/// The rank of a float, as an `i128`.
pub fn float_rank_exec(b: u64) -> (r: i128)
    ensures
        r == float_rank(b),
{
    let m: i128 = (b & 0x7fff_ffff_ffff_ffffu64) as i128;
    if (b >> 63u64) == 1u64 {
        -m
    } else {
        m
    }
}

/// `a < b` on the floats with these bit patterns (false when either is a NaN).
pub open spec fn float_lt(a: u64, b: u64) -> bool {
    !float_is_nan(a) && !float_is_nan(b) && float_rank(a) < float_rank(b)
}

/// `a <= b` on the floats with these bit patterns (false when either is a NaN).
pub open spec fn float_le(a: u64, b: u64) -> bool {
    !float_is_nan(a) && !float_is_nan(b) && float_rank(a) <= float_rank(b)
}

/// `a == b` on the floats with these bit patterns: the two zeros are equal,
/// and a NaN equals nothing.
pub open spec fn float_eq(a: u64, b: u64) -> bool {
    !float_is_nan(a) && !float_is_nan(b) && float_rank(a) == float_rank(b)
}

/// `a < b` on floats.
pub fn float_lt_exec(a: u64, b: u64) -> (r: bool)
    ensures
        r == float_lt(a, b),
{
    !float_is_nan_exec(a) && !float_is_nan_exec(b) && float_rank_exec(a) < float_rank_exec(b)
}

/// `a <= b` on floats.
pub fn float_le_exec(a: u64, b: u64) -> (r: bool)
    ensures
        r == float_le(a, b),
{
    !float_is_nan_exec(a) && !float_is_nan_exec(b) && float_rank_exec(a) <= float_rank_exec(b)
}

/// `a == b` on floats.
pub fn float_eq_exec(a: u64, b: u64) -> (r: bool)
    ensures
        r == float_eq(a, b),
{
    !float_is_nan_exec(a) && !float_is_nan_exec(b) && float_rank_exec(a) == float_rank_exec(b)
}

/// The exponent field of the `f64` with bit pattern `b`.
pub open spec fn float_exponent(b: u64) -> int {
    ((b >> 52u64) & 0x7ffu64) as int
}

/// The significand of a normal `f64`: its fraction bits under the hidden bit.
pub open spec fn float_significand(b: u64) -> int {
    (b & 0x000f_ffff_ffff_ffffu64) as int + pow2(52)
}

/// The magnitude of the `f64` with bit pattern `b`, truncated toward zero:
/// the significand times two to the exponent less 1075.
pub open spec fn truncated_magnitude(b: u64) -> int {
    let e = float_exponent(b);
    if e < 1023 {
        0
    } else if e >= 1075 {
        float_significand(b) * pow2((e - 1075) as nat)
    } else {
        float_significand(b) / (pow2((1075 - e) as nat) as int)
    }
}

/// The magnitude of the float is not a whole number.
pub open spec fn has_fraction(b: u64) -> bool {
    let e = float_exponent(b);
    if e < 1023 {
        b & 0x7fff_ffff_ffff_ffffu64 != 0
    } else if e >= 1075 {
        false
    } else {
        float_significand(b) % (pow2((1075 - e) as nat) as int) != 0
    }
}

/// The fractional part of the float's magnitude is at least one half.
pub open spec fn fraction_at_least_half(b: u64) -> bool {
    let e = float_exponent(b);
    if e < 1023 {
        e == 1022
    } else if e >= 1075 {
        false
    } else {
        float_significand(b) % (pow2((1075 - e) as nat) as int) >= pow2((1074 - e) as nat)
    }
}

/// An integer held to the range of `i64`, as Rust's float-to-integer `as` does.
pub open spec fn saturate(x: int) -> i64 {
    if x < i64::MIN {
        i64::MIN
    } else if x > i64::MAX {
        i64::MAX
    } else {
        x as i64
    }
}

/// The float truncated toward zero, as an integer (for a non-NaN float).
pub open spec fn trunc_whole(b: u64) -> int {
    if float_negative(b) {
        -truncated_magnitude(b)
    } else {
        truncated_magnitude(b)
    }
}

/// The greatest whole number not above the float (for a non-NaN float).
pub open spec fn floor_whole(b: u64) -> int {
    let f: int = if has_fraction(b) { 1 } else { 0 };
    if float_negative(b) {
        -(truncated_magnitude(b) + f)
    } else {
        truncated_magnitude(b)
    }
}

/// The least whole number not below the float (for a non-NaN float).
pub open spec fn ceil_whole(b: u64) -> int {
    let f: int = if has_fraction(b) { 1 } else { 0 };
    if float_negative(b) {
        -truncated_magnitude(b)
    } else {
        truncated_magnitude(b) + f
    }
}

/// The whole number nearest the float, halves away from zero (for a non-NaN float).
pub open spec fn round_whole(b: u64) -> int {
    let h: int = if fraction_at_least_half(b) { 1 } else { 0 };
    if float_negative(b) {
        -(truncated_magnitude(b) + h)
    } else {
        truncated_magnitude(b) + h
    }
}

/// What `as i64` makes of the `f64` with bit pattern `b`: zero for a NaN,
/// else the value truncated toward zero, held to the range of `i64`.
pub open spec fn float_to_i64(b: u64) -> i64 {
    if float_is_nan(b) {
        0
    } else {
        saturate(trunc_whole(b))
    }
}

/// What `floor() as i64` makes of the float.
pub open spec fn floor_to_i64(b: u64) -> i64 {
    if float_is_nan(b) {
        0
    } else {
        saturate(floor_whole(b))
    }
}

/// What `ceil() as i64` makes of the float.
pub open spec fn ceil_to_i64(b: u64) -> i64 {
    if float_is_nan(b) {
        0
    } else {
        saturate(ceil_whole(b))
    }
}

/// What `round() as i64` makes of the float.
pub open spec fn round_to_i64(b: u64) -> i64 {
    if float_is_nan(b) {
        0
    } else {
        saturate(round_whole(b))
    }
}

/// The whole part of a non-NaN float, with what rounding needs: the sign,
/// whether the magnitude reaches 2^63, the truncated magnitude below that,
/// whether there is a fraction and whether it is at least a half.
fn integer_parts(b: u64) -> (r: (bool, bool, u64, bool, bool))
    requires
        !float_is_nan(b),
    ensures
        r.0 == float_negative(b),
        r.1 ==> truncated_magnitude(b) >= 0x8000_0000_0000_0000 && !has_fraction(b) && !fraction_at_least_half(b),
        !r.1 ==> r.2 == truncated_magnitude(b) && r.2 < 0x7fff_ffff_ffff_ffffu64,
        r.3 == has_fraction(b),
        r.4 == fraction_at_least_half(b),
        float_exponent(b) < 1075 ==> !r.1 && r.2 < 0x0020_0000_0000_0000u64,
{
    let e: u64 = (b >> 52u64) & 0x7ffu64;
    let frac: u64 = b & 0x000f_ffff_ffff_ffffu64;
    let sig: u64 = frac | 0x0010_0000_0000_0000u64;
    let neg = (b >> 63u64) == 1u64;
    proof {
        lemma2_to64();
        lemma2_to64_rest();
        assert(frac < 0x0010_0000_0000_0000u64) by (bit_vector)
            requires
                frac == b & 0x000f_ffff_ffff_ffffu64,
        ;
        assert(sig == frac + 0x0010_0000_0000_0000u64) by (bit_vector)
            requires
                frac < 0x0010_0000_0000_0000u64,
                sig == frac | 0x0010_0000_0000_0000u64,
        ;
        assert(e <= 0x7ff) by (bit_vector)
            requires
                e == (b >> 52u64) & 0x7ffu64,
        ;
        assert(sig as int == float_significand(b));
    }
    if e < 1023 {
        let nonzero = b & 0x7fff_ffff_ffff_ffffu64 != 0;
        return (neg, false, 0, nonzero, e == 1022);
    }
    if e >= 1086 {
        proof {
            let k = (e - 1075) as nat;
            if k > 11 {
                lemma_pow2_strictly_increases(11, k);
            }
            assert(float_significand(b) * pow2(k) >= pow2(52) * pow2(11)) by (nonlinear_arith)
                requires
                    float_significand(b) >= pow2(52),
                    pow2(k) >= pow2(11),
            ;
            lemma_pow2_adds(52, 11);
        }
        return (neg, true, 0, false, false);
    }
    if e >= 1075 {
        let k: u64 = e - 1075;
        proof {
            if k < 10 {
                lemma_pow2_strictly_increases(k as nat, 10);
            }
            assert(sig * pow2(k as nat) <= 0x001f_ffff_ffff_ffff * 0x400) by (nonlinear_arith)
                requires
                    sig <= 0x001f_ffff_ffff_ffffu64,
                    pow2(k as nat) <= 0x400,
            ;
            lemma_u64_shl_is_mul(sig, k);
        }
        return (neg, false, sig << k, false, false);
    }
    let k: u64 = 1075 - e;
    let t: u64 = sig >> k;
    proof {
        lemma_u64_shr_is_div(sig, k);
        lemma_pow2_pos(k as nat);
        assert(sig as nat / pow2(k as nat) <= sig as nat) by (nonlinear_arith)
            requires
                pow2(k as nat) >= 1,
        ;
        assert(t * pow2(k as nat) <= sig) by (nonlinear_arith)
            requires
                t == sig as nat / pow2(k as nat),
                pow2(k as nat) >= 1,
        ;
        lemma_u64_shl_is_mul(t, k);
        lemma_u64_shl_is_mul(1u64, (k - 1) as u64);
        lemma_pow2_unfold(k as nat);
    }
    let rest: u64 = sig - (t << k);
    let half: u64 = 1u64 << (k - 1);
    proof {
        assert(rest as int == sig as int % (pow2(k as nat) as int)) by (nonlinear_arith)
            requires
                t == sig as nat / pow2(k as nat),
                rest == sig - t * pow2(k as nat),
                pow2(k as nat) >= 1,
        ;
    }
    (neg, false, t, rest != 0, rest >= half)
}

/// The float with bit pattern `b` converted with `as i64`.
pub fn float_to_i64_exec(b: u64) -> (r: i64)
    ensures
        r == float_to_i64(b),
{
    if float_is_nan_exec(b) {
        return 0;
    }
    let (neg, big, t, _frac, _half) = integer_parts(b);
    if big {
        if neg {
            i64::MIN
        } else {
            i64::MAX
        }
    } else if neg {
        -(t as i64)
    } else {
        t as i64
    }
}

/// The float with bit pattern `b` converted with `floor() as i64`.
pub fn floor_to_i64_exec(b: u64) -> (r: i64)
    ensures
        r == floor_to_i64(b),
{
    if float_is_nan_exec(b) {
        return 0;
    }
    let (neg, big, t, frac, _half) = integer_parts(b);
    if big {
        if neg {
            i64::MIN
        } else {
            i64::MAX
        }
    } else if neg {
        -((t + if frac { 1 } else { 0 }) as i64)
    } else {
        t as i64
    }
}

/// The float with bit pattern `b` converted with `ceil() as i64`.
pub fn ceil_to_i64_exec(b: u64) -> (r: i64)
    ensures
        r == ceil_to_i64(b),
{
    if float_is_nan_exec(b) {
        return 0;
    }
    let (neg, big, t, frac, _half) = integer_parts(b);
    if big {
        if neg {
            i64::MIN
        } else {
            i64::MAX
        }
    } else if neg {
        -(t as i64)
    } else {
        (t + if frac { 1 } else { 0 }) as i64
    }
}

/// The float with bit pattern `b` converted with `round() as i64`.
pub fn round_to_i64_exec(b: u64) -> (r: i64)
    ensures
        r == round_to_i64(b),
{
    if float_is_nan_exec(b) {
        return 0;
    }
    let (neg, big, t, _frac, half) = integer_parts(b);
    if big {
        if neg {
            i64::MIN
        } else {
            i64::MAX
        }
    } else if neg {
        -((t + if half { 1 } else { 0 }) as i64)
    } else {
        (t + if half { 1 } else { 0 }) as i64
    }
}

/// A NaN with its quiet bit set. Rust leaves open which NaN a rounding
/// function returns; the ones here return the NaN they were given, quieted.
pub open spec fn quieted(b: u64) -> u64 {
    b | 0x0008_0000_0000_0000u64
}

/// The float holding the whole number `k`, which has at most 53 bits: a
/// zero takes the sign of the float `b` it was rounded from.
pub open spec fn whole_float(b: u64, k: int) -> u64 {
    if k == 0 {
        b & 0x8000_0000_0000_0000u64
    } else {
        int_to_float_bits(k)
    }
}

/// A rounding of the float `b` to the whole number `k`, kept a float: a NaN
/// comes back quieted, a float without fraction bits (an infinity, or one of
/// magnitude at least 2^52) as it is, any other as the float holding `k`.
pub open spec fn rounded_float(b: u64, k: int) -> u64 {
    if float_is_nan(b) {
        quieted(b)
    } else if float_exponent(b) >= 1075 {
        b
    } else {
        whole_float(b, k)
    }
}

fn whole_float_exec(b: u64, k: i64) -> (r: u64)
    ensures
        r == whole_float(b, k as int),
{
    if k == 0 {
        b & 0x8000_0000_0000_0000u64
    } else {
        int_to_float_bits_exec(k)
    }
}

/// Which rounding a float-valued rounding function makes.
pub enum Rounding {
    /// Toward zero (`trunc`).
    Trunc,
    /// Down (`floor`).
    Floor,
    /// Up (`ceil`).
    Ceil,
    /// To the nearest, halves away from zero (`round`).
    Nearest,
}

/// The whole number a rounding gives for a non-NaN float.
pub open spec fn rounding_whole(m: Rounding, b: u64) -> int {
    match m {
        Rounding::Trunc => trunc_whole(b),
        Rounding::Floor => floor_whole(b),
        Rounding::Ceil => ceil_whole(b),
        Rounding::Nearest => round_whole(b),
    }
}

/// The float with bit pattern `b` rounded, as `trunc`, `floor`, `ceil` or
/// `round` does, the result kept a float.
pub fn round_float_exec(m: &Rounding, b: u64) -> (r: u64)
    ensures
        r == rounded_float(b, rounding_whole(*m, b)),
{
    if float_is_nan_exec(b) {
        return b | 0x0008_0000_0000_0000u64;
    }
    if (b >> 52u64) & 0x7ffu64 >= 1075 {
        return b;
    }
    let (neg, _big, t, frac, half) = integer_parts(b);
    let up: u64 = match m {
        Rounding::Trunc => 0,
        Rounding::Floor => if neg && frac { 1 } else { 0 },
        Rounding::Ceil => if !neg && frac { 1 } else { 0 },
        Rounding::Nearest => if half { 1 } else { 0 },
    };
    let mag: i64 = (t + up) as i64;
    let k: i64 = if neg { -mag } else { mag };
    whole_float_exec(b, k)
}

/// The position of the highest set bit of `m` (0 for 0 and 1).
pub open spec fn top_bit(m: nat) -> nat
    decreases m,
{
    if m < 2 {
        0
    } else {
        1 + top_bit(m / 2)
    }
}

proof fn lemma_top_bit(m: nat)
    requires
        m >= 1,
    ensures
        pow2(top_bit(m)) <= m < pow2(top_bit(m) + 1),
    decreases m,
{
    if m >= 2 {
        lemma_top_bit(m / 2);
        lemma_pow2_unfold(top_bit(m));
        lemma_pow2_unfold(top_bit(m) + 1);
    } else {
        lemma2_to64();
    }
}

/// `m` (at least 1) rounded to 53 significant bits, ties to even, as a
/// significand in [2^52, 2^53) and the power of two it is scaled to.
pub open spec fn rounded_significand(m: nat) -> (nat, nat) {
    let p = top_bit(m);
    if p <= 52 {
        (m * pow2((52 - p) as nat), p)
    } else {
        let k = (p - 52) as nat;
        let q = m / pow2(k);
        let r = m % pow2(k);
        let half = pow2((k - 1) as nat);
        let q2 = if r > half || (r == half && q % 2 == 1) { q + 1 } else { q };
        if q2 == pow2(53) {
            (pow2(52), p + 1)
        } else {
            (q2, p)
        }
    }
}

/// The bit pattern of the `f64` nearest to the integer `n`, ties to even:
/// what `n as f64` gives.
pub open spec fn int_to_float_bits(n: int) -> u64 {
    if n == 0 {
        0
    } else {
        let m = if n < 0 { -n } else { n };
        let (q, p) = rounded_significand(m as nat);
        let sign: int = if n < 0 { 0x8000_0000_0000_0000 } else { 0 };
        (sign + (p + 1023) * 0x10_0000_0000_0000 + (q - pow2(52))) as u64
    }
}

/// The bit pattern of `n as f64`.
pub fn int_to_float_bits_exec(n: i64) -> (r: u64)
    ensures
        r == int_to_float_bits(n as int),
{
    if n == 0 {
        return 0;
    }
    let neg = n < 0;
    let m: u64 = if neg { (-(n as i128)) as u64 } else { n as u64 };
    proof {
        lemma2_to64();
        lemma2_to64_rest();
        lemma_top_bit(m as nat);
        if top_bit(m as nat) >= 64 {
            if top_bit(m as nat) > 64 {
                lemma_pow2_strictly_increases(64, top_bit(m as nat));
            }
            assert(pow2(64) == 0x1_0000_0000_0000_0000) by {
                lemma_pow2_adds(32, 32);
            }
        }
    }
    let mut p: u64 = 0;
    let mut t: u64 = m;
    while t >= 2
        invariant
            1 <= t,
            top_bit(m as nat) == p + top_bit(t as nat),
            top_bit(m as nat) < 64,
        decreases t,
    {
        t = t / 2;
        p = p + 1;
    }
    assert(p == top_bit(m as nat));
    let ghost mm = m as nat;
    let (q, e): (u64, u64) = if p <= 52 {
        let k: u64 = 52 - p;
        proof {
            lemma_pow2_adds(p as nat, k as nat);
            assert(m * pow2(k as nat) < pow2(p as nat + 1) * pow2(k as nat)) by (nonlinear_arith)
                requires
                    m < pow2(p as nat + 1),
                    pow2(k as nat) > 0,
            ;
            lemma_pow2_adds(p as nat + 1, k as nat);
            lemma_pow2_pos(k as nat);
            lemma_u64_shl_is_mul(m, k);
            assert(m * pow2(k as nat) >= pow2(52)) by (nonlinear_arith)
                requires
                    m >= pow2(p as nat),
                    pow2(p as nat) * pow2(k as nat) == pow2(52),
                    pow2(k as nat) > 0,
            ;
        }
        (m << k, p)
    } else {
        let k: u64 = p - 52;
        let q: u64 = m >> k;
        proof {
            lemma_u64_shr_is_div(m, k);
            lemma_pow2_pos(k as nat);
            assert(q * pow2(k as nat) <= m) by (nonlinear_arith)
                requires
                    q == m as nat / pow2(k as nat),
                    pow2(k as nat) >= 1,
            ;
            lemma_u64_shl_is_mul(q, k);
            lemma_u64_shl_is_mul(1u64, (k - 1) as u64);
            lemma_pow2_adds(52, k as nat);
            lemma_pow2_adds(53, k as nat);
            assert(pow2(52) <= q < pow2(53)) by (nonlinear_arith)
                requires
                    q == m as nat / pow2(k as nat),
                    pow2(k as nat) >= 1,
                    pow2(52) * pow2(k as nat) <= m,
                    m < pow2(53) * pow2(k as nat),
            {
                if q < pow2(52) {
                    assert(q + 1 <= pow2(52));
                    assert((q + 1) * pow2(k as nat) <= pow2(52) * pow2(k as nat));
                }
            }
        }
        let rest: u64 = m - (q << k);
        let half: u64 = 1u64 << (k - 1);
        proof {
            lemma_pow2_unfold(k as nat);
            assert(rest as int == m as int % (pow2(k as nat) as int)) by (nonlinear_arith)
                requires
                    q == m as nat / pow2(k as nat),
                    rest == m - q * pow2(k as nat),
                    pow2(k as nat) >= 1,
            ;
        }
        let q2: u64 = if rest > half || (rest == half && q % 2 == 1) { q + 1 } else { q };
        if q2 == 0x20_0000_0000_0000u64 {
            (0x10_0000_0000_0000u64, p + 1)
        } else {
            (q2, p)
        }
    };
    assert((q as nat, e as nat) == rounded_significand(mm));
    let sign: u64 = if neg { 0x8000_0000_0000_0000u64 } else { 0 };
    sign + (e + 1023) * 0x10_0000_0000_0000u64 + (q - 0x10_0000_0000_0000u64)
}

/// The number a value holds read as a float, as `as_float` reads it: an
/// integer converted as `as f64` does; any other value is a type error.
pub open spec fn number_bits(v: Val) -> Result<u64, ErrV> {
    match v {
        Val::Int(n) => Ok(int_to_float_bits(n as int)),
        Val::Float(b) => Ok(b),
        _ => Err(type_error("float"@, v)),
    }
}

/// The number a value holds, as the bits of a float.
pub fn number_bits_exec(v: &Value) -> (r: Result<u64, Error>)
    ensures
        match r {
            Ok(b) => number_bits(v.model()) == Ok::<u64, ErrV>(b),
            Err(e) => number_bits(v.model()) == Err::<u64, ErrV>(e@),
        },
{
    match v {
        Value::Int(n) => Ok(int_to_float_bits_exec(*n)),
        Value::Float(b) => Ok(*b),
        _ => Err(Error::TypeError { expected: owned("float"), got: v.kind_name() }),
    }
}

proof fn lemma_float_fields(s: u64, e: u64, f: u64)
    requires
        s == 0 || s == 0x8000_0000_0000_0000u64,
        e < 2048,
        f < 0x10_0000_0000_0000u64,
    ensures
        ((s + e * 0x10_0000_0000_0000u64 + f) as u64 >> 52u64) & 0x7ffu64 == e,
        (s + e * 0x10_0000_0000_0000u64 + f) as u64 & 0x000f_ffff_ffff_ffffu64 == f,
        (((s + e * 0x10_0000_0000_0000u64 + f) as u64 >> 63u64) == 1u64) == (s != 0),
{
    assert(((s + e * 0x10_0000_0000_0000u64 + f) as u64 >> 52u64) & 0x7ffu64 == e) by (bit_vector)
        requires
            s == 0 || s == 0x8000_0000_0000_0000u64,
            e < 2048,
            f < 0x10_0000_0000_0000u64,
    ;
    assert((s + e * 0x10_0000_0000_0000u64 + f) as u64 & 0x000f_ffff_ffff_ffffu64 == f) by (bit_vector)
        requires
            s == 0 || s == 0x8000_0000_0000_0000u64,
            e < 2048,
            f < 0x10_0000_0000_0000u64,
    ;
    assert((((s + e * 0x10_0000_0000_0000u64 + f) as u64 >> 63u64) == 1u64) == (s != 0)) by (bit_vector)
        requires
            s == 0 || s == 0x8000_0000_0000_0000u64,
            e < 2048,
            f < 0x10_0000_0000_0000u64,
    ;
}

/// What one conversion undoes of the other: an integer of at most 53 bits
/// converted to a float and back with `as` comes back unchanged.
pub proof fn law_int_float_round_trip(n: int)
    requires
        -0x20_0000_0000_0000 <= n <= 0x20_0000_0000_0000,
    ensures
        float_to_i64(int_to_float_bits(n)) == n,
{
    lemma2_to64();
    lemma2_to64_rest();
    if n == 0 {
        assert((0u64 >> 52u64) & 0x7ffu64 == 0u64) by (bit_vector);
        assert((0u64 >> 63u64) == 0u64) by (bit_vector);
    } else {
        let m: nat = if n < 0 { (-n) as nat } else { n as nat };
        lemma_top_bit(m);
        let p = top_bit(m);
        if p > 53 {
            lemma_pow2_strictly_increases(53, p);
        }
        let (q, p2) = rounded_significand(m);
        if p <= 52 {
            let k = (52 - p) as nat;
            lemma_pow2_adds(p, k);
            lemma_pow2_pos(k);
            assert(q == m * pow2(k));
            assert(m * pow2(k) >= pow2(p) * pow2(k)) by (nonlinear_arith)
                requires
                    m >= pow2(p),
            ;
            assert(m * pow2(k) < pow2(p + 1) * pow2(k)) by (nonlinear_arith)
                requires
                    m < pow2(p + 1),
                    pow2(k) > 0,
            ;
            lemma_pow2_adds(p + 1, k);
            assert(((m * pow2(k)) as int) / (pow2(k) as int) == m) by (nonlinear_arith)
                requires
                    pow2(k) > 0,
            ;
        } else {
            assert(m == pow2(53));
            assert(pow2(53) == 0x20_0000_0000_0000);
        }
        let s: u64 = if n < 0 { 0x8000_0000_0000_0000u64 } else { 0 };
        let e: u64 = (p2 + 1023) as u64;
        let f: u64 = (q - pow2(52)) as u64;
        lemma_float_fields(s, e, f);
        let b = int_to_float_bits(n);
        assert(b == (s + e * 0x10_0000_0000_0000u64 + f) as u64);
        assert(float_exponent(b) == e as int);
        assert(!float_is_nan(b));
        assert(float_significand(b) == q);
        assert(float_negative(b) == (n < 0));
        if p <= 52 {
            let k = (52 - p) as nat;
            assert((1075 - float_exponent(b)) as nat == k);
            assert(((m * pow2(k)) as int) / (pow2(k) as int) == m);
            assert(float_significand(b) / (pow2(k) as int) == m);
            if p == 52 {
                assert(float_exponent(b) == 1075);
                assert(pow2(k) == 1);
                assert(q == m * pow2(k));
                assert(m * pow2(k) == m) by (nonlinear_arith)
                    requires
                        pow2(k) == 1,
                ;
                assert(truncated_magnitude(b) == q * pow2(0));
            } else {
                assert(1023 <= float_exponent(b) < 1075);
                assert(truncated_magnitude(b) == float_significand(b) / (pow2((1075 - float_exponent(b)) as nat) as int));
                assert(float_significand(b) / (pow2((1075 - float_exponent(b)) as nat) as int) == m);
            }
            assert(truncated_magnitude(b) == m);
        } else {
            lemma_pow2_unfold(1);
            assert(float_exponent(b) == 1076);
            assert(truncated_magnitude(b) == q * pow2(1));
            assert(truncated_magnitude(b) == m);
        }
        assert(trunc_whole(b) == n);
    }
}

} // verus!
