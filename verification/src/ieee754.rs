//! IEEE-754 single-precision values handled as their 32-bit patterns.
//!
//! The sensor transmits every reading as such a pattern. This module gives the
//! patterns a meaning in exact integer arithmetic and compares them without
//! ever leaving the integers: every finite single-precision value is a whole
//! multiple of 2^-149, so `scaled` names that multiple.

use vstd::arithmetic::power2::*;
use vstd::prelude::*;

verus! {

/// The sign bit.
pub const SIGN_BIT: u32 = 0x8000_0000;

/// Pattern of positive infinity; every larger magnitude is a NaN.
pub const INFINITY: u32 = 0x7f80_0000;

/// Pattern of negative infinity.
pub const NEG_INFINITY: u32 = 0xff80_0000;

/// Number of fraction values per binade, 2^23.
pub const HIDDEN_BIT: u32 = 0x0080_0000;

/// The sign bit is set. Holds of negative zero too.
pub open spec fn spec_is_negative(bits: u32) -> bool {
    bits >= SIGN_BIT
}

/// The pattern with its sign bit cleared.
pub open spec fn spec_abs_bits(bits: u32) -> u32 {
    if bits >= SIGN_BIT {
        (bits - SIGN_BIT) as u32
    } else {
        bits
    }
}

/// The pattern is not a number.
pub open spec fn spec_is_nan(bits: u32) -> bool {
    spec_abs_bits(bits) > INFINITY
}

/// The pattern is positive or negative infinity.
pub open spec fn spec_is_infinite(bits: u32) -> bool {
    spec_abs_bits(bits) == INFINITY
}

/// The pattern is a zero, a subnormal or a normal number.
pub open spec fn spec_is_finite(bits: u32) -> bool {
    spec_abs_bits(bits) < INFINITY
}

/// The biased exponent field, 0 to 255.
pub open spec fn exponent(bits: u32) -> nat {
    (spec_abs_bits(bits) / HIDDEN_BIT) as nat
}

/// The 23-bit fraction field.
pub open spec fn fraction(bits: u32) -> nat {
    (spec_abs_bits(bits) % HIDDEN_BIT) as nat
}

/// The absolute value of a finite pattern, in units of 2^-149.
pub open spec fn magnitude(bits: u32) -> nat {
    if exponent(bits) == 0 {
        fraction(bits)
    } else {
        ((HIDDEN_BIT + fraction(bits)) * pow2((exponent(bits) - 1) as nat)) as nat
    }
}

/// The value of a finite pattern, in units of 2^-149.
pub open spec fn scaled(bits: u32) -> int {
    if spec_is_negative(bits) {
        -(magnitude(bits) as int)
    } else {
        magnitude(bits) as int
    }
}

/// The value of a non-NaN pattern lies strictly below the integer `limit`.
/// Negative infinity lies below every limit, positive infinity below none.
pub open spec fn is_below(bits: u32, limit: int) -> bool {
    if spec_is_infinite(bits) {
        spec_is_negative(bits)
    } else {
        scaled(bits) < limit * pow2(149)
    }
}

/// The comparison `a < b` of IEEE-754: false as soon as either side is a NaN,
/// the order of the extended real line otherwise. The two zeros are equal.
pub open spec fn spec_less_than(a: u32, b: u32) -> bool {
    if spec_is_nan(a) || spec_is_nan(b) {
        false
    } else if spec_is_infinite(a) || spec_is_infinite(b) {
        (a == NEG_INFINITY && b != NEG_INFINITY) || (b == INFINITY && a != INFINITY)
    } else {
        scaled(a) < scaled(b)
    }
}

/// Among patterns of one sign, a larger pattern has a larger magnitude.
pub proof fn lemma_magnitude_increases(a: u32, b: u32)
    requires
        spec_abs_bits(a) < spec_abs_bits(b),
    ensures
        magnitude(a) < magnitude(b),
{
    let k = HIDDEN_BIT as int;
    let ea = exponent(a);
    let eb = exponent(b);
    let fa = fraction(a) as int;
    let fb = fraction(b) as int;
    assert(ea <= eb);
    if ea == eb {
        assert(fa < fb);
        if ea > 0 {
            let p = pow2((ea - 1) as nat) as int;
            lemma_pow2_pos((ea - 1) as nat);
            assert((k + fa) * p < (k + fb) * p) by (nonlinear_arith)
                requires
                    fa < fb,
                    p > 0,
            ;
        }
    } else {
        let q = pow2((eb - 1) as nat) as int;
        lemma_pow2_pos((eb - 1) as nat);
        assert(k <= (k + fb) * q) by (nonlinear_arith)
            requires
                0 <= fb,
                q >= 1,
                k >= 0,
        ;
        if ea > 0 {
            let p = pow2((ea - 1) as nat) as int;
            lemma_pow2_pos((ea - 1) as nat);
            lemma_pow2_unfold(ea);
            assert(pow2(ea) == 2 * p);
            if ea < eb - 1 {
                lemma_pow2_strictly_increases(ea, (eb - 1) as nat);
            }
            assert(2 * p <= q);
            assert((k + fa) * p < k * q) by (nonlinear_arith)
                requires
                    0 <= fa < k,
                    p > 0,
                    2 * p <= q,
            ;
            assert(k * q <= (k + fb) * q) by (nonlinear_arith)
                requires
                    0 <= fb,
                    q >= 1,
            ;
        }
    }
}

/// Only the two zeros have magnitude zero.
pub proof fn lemma_magnitude_zero(bits: u32)
    ensures
        magnitude(bits) == 0 <==> spec_abs_bits(bits) == 0,
{
    if spec_abs_bits(bits) != 0 {
        lemma_magnitude_increases(0, bits);
    }
}

/// The comparison read off the patterns: where neither side is a NaN, it goes
/// by sign first and by the remaining bits second.
pub proof fn lemma_less_than_by_pattern(a: u32, b: u32)
    requires
        !spec_is_nan(a),
        !spec_is_nan(b),
    ensures
        spec_less_than(a, b) == if spec_is_negative(a) {
            if spec_is_negative(b) {
                spec_abs_bits(b) < spec_abs_bits(a)
            } else {
                spec_abs_bits(a) != 0 || spec_abs_bits(b) != 0
            }
        } else {
            !spec_is_negative(b) && spec_abs_bits(a) < spec_abs_bits(b)
        },
{
    lemma_magnitude_zero(a);
    lemma_magnitude_zero(b);
    if spec_abs_bits(a) < spec_abs_bits(b) {
        lemma_magnitude_increases(a, b);
    }
    if spec_abs_bits(b) < spec_abs_bits(a) {
        lemma_magnitude_increases(b, a);
    }
}

/// The comparison is a strict order: nothing lies below itself, and what lies
/// below a second value lies below everything that the second lies below.
pub proof fn lemma_less_than_is_strict(a: u32, b: u32, c: u32)
    ensures
        !spec_less_than(a, a),
        spec_less_than(a, b) ==> !spec_less_than(b, a),
        spec_less_than(a, b) && spec_less_than(b, c) ==> spec_less_than(a, c),
        !spec_is_nan(a) && !spec_less_than(b, a) && spec_less_than(b, c) ==> spec_less_than(a, c),
{
    if !spec_is_nan(a) && !spec_is_nan(b) {
        lemma_less_than_by_pattern(a, b);
        lemma_less_than_by_pattern(b, a);
        if !spec_is_nan(c) {
            lemma_less_than_by_pattern(b, c);
            lemma_less_than_by_pattern(a, c);
        }
    }
}

/// Comparing against a finite pattern whose value is the integer `limit` is
/// the same as comparing the value against that integer.
pub proof fn lemma_less_than_integer(bits: u32, limit_bits: u32, limit: int)
    requires
        !spec_is_nan(bits),
        spec_is_finite(limit_bits),
        scaled(limit_bits) == limit * pow2(149),
    ensures
        spec_less_than(bits, limit_bits) == is_below(bits, limit),
{
}

/// A positive normal pattern whose significand is `n` times 2^`shift`, with
/// `shift` making up for the exponent, denotes the integer `n`.
pub proof fn lemma_denotes_integer(bits: u32, shift: nat, n: int)
    requires
        bits < INFINITY,
        exponent(bits) >= 1,
        exponent(bits) - 1 + shift == 149,
        HIDDEN_BIT + fraction(bits) == n * pow2(shift),
    ensures
        spec_is_finite(bits),
        scaled(bits) == n * pow2(149),
{
    let e = (exponent(bits) - 1) as nat;
    let p = pow2(e) as int;
    let q = pow2(shift) as int;
    lemma_pow2_adds(e, shift);
    assert((n * q) * p == n * (p * q)) by (nonlinear_arith);
}

/// Tells whether the sign bit is set.
#[verifier::when_used_as_spec(spec_is_negative)]
pub fn is_negative(bits: u32) -> (r: bool)
    ensures
        r == spec_is_negative(bits),
{
    bits >= SIGN_BIT
}

/// Clears the sign bit.
#[verifier::when_used_as_spec(spec_abs_bits)]
pub fn abs_bits(bits: u32) -> (r: u32)
    ensures
        r == spec_abs_bits(bits),
{
    assert(bits & 0x7fff_ffff == if bits >= 0x8000_0000u32 {
        (bits - 0x8000_0000u32) as u32
    } else {
        bits
    }) by (bit_vector);
    bits & 0x7fff_ffff
}

/// Tells whether the pattern is a NaN.
#[verifier::when_used_as_spec(spec_is_nan)]
pub fn is_nan(bits: u32) -> (r: bool)
    ensures
        r == spec_is_nan(bits),
{
    abs_bits(bits) > INFINITY
}

/// Tells whether the pattern is an infinity.
#[verifier::when_used_as_spec(spec_is_infinite)]
pub fn is_infinite(bits: u32) -> (r: bool)
    ensures
        r == spec_is_infinite(bits),
{
    abs_bits(bits) == INFINITY
}

/// Tells whether the pattern is a finite number.
#[verifier::when_used_as_spec(spec_is_finite)]
pub fn is_finite(bits: u32) -> (r: bool)
    ensures
        r == spec_is_finite(bits),
{
    abs_bits(bits) < INFINITY
}

/// Decides `a < b` on the patterns alone.
#[verifier::when_used_as_spec(spec_less_than)]
pub fn less_than(a: u32, b: u32) -> (r: bool)
    ensures
        r == spec_less_than(a, b),
{
    if is_nan(a) || is_nan(b) {
        return false;
    }
    let ma: u32 = abs_bits(a);
    let mb: u32 = abs_bits(b);
    proof {
        lemma_less_than_by_pattern(a, b);
    }
    if is_negative(a) {
        if is_negative(b) {
            mb < ma
        } else {
            ma != 0 || mb != 0
        }
    } else {
        if is_negative(b) {
            false
        } else {
            ma < mb
        }
    }
}

} // verus!
