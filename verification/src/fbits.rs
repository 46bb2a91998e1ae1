//! A model of IEEE-754 binary32 values by their bit patterns.
//!
//! A 32-bit pattern splits into a sign bit, an 8-bit biased exponent and a
//! 23-bit fraction. Every pattern that is not a NaN denotes a real number
//! (or an infinity); scaling that number by `2^149` turns it into an
//! integer, so the whole order on non-NaN values can be stated and proved
//! over `int`. `sval` below is that scaled value: subnormals and zeros map
//! to `(-1)^sign * fraction`, normals to
//! `(-1)^sign * (2^23 + fraction) * 2^(exponent - 1)`, and the infinities
//! land beyond every finite value under the same formula.

use vstd::prelude::*;
use vstd::arithmetic::power2::pow2;
use vstd::arithmetic::power2::lemma_pow2_pos;
use vstd::arithmetic::power2::lemma_pow2_unfold;
use vstd::arithmetic::power2::lemma_pow2_strictly_increases;
use vstd::arithmetic::mul::lemma_mul_inequality;
use vstd::arithmetic::mul::lemma_mul_strict_inequality;

verus! {

/// The sign bit of a pattern.
pub open spec fn sign_of(x: u32) -> u32 {
    x >> 31
}

/// The magnitude of a pattern: everything but the sign bit.
pub open spec fn mag_of(x: u32) -> u32 {
    x & 0x7fff_ffff
}

/// The biased exponent field.
pub open spec fn exp_of(x: u32) -> u32 {
    (x >> 23) & 0xff
}

/// The fraction field.
pub open spec fn frac_of(x: u32) -> u32 {
    x & 0x7f_ffff
}

/// A NaN pattern: exponent field all ones, fraction nonzero.
pub open spec fn is_nan(x: u32) -> bool {
    exp_of(x) == 0xff && frac_of(x) != 0
}

/// The magnitude a 31-bit pattern denotes, scaled by `2^149` so that it is
/// a natural number. Strictly increasing in the pattern, which is the fact
/// the executable comparisons rest on.
pub open spec fn mag_val(mag: u32) -> nat {
    let e = (mag >> 23) as nat;
    let m = (mag & 0x7f_ffff) as nat;
    if e == 0 {
        m
    } else {
        (0x80_0000 + m) * pow2((e - 1) as nat)
    }
}

/// The signed value a pattern denotes, scaled by `2^149`. Meaningful for
/// every pattern that is not a NaN; both zero patterns map to `0`.
pub open spec fn sval(x: u32) -> int {
    if sign_of(x) == 1 {
        -(mag_val(mag_of(x)) as int)
    } else {
        mag_val(mag_of(x)) as int
    }
}

/// Strict order on two patterns, as IEEE-754 `<` decides it: false when
/// either operand is a NaN.
pub open spec fn f32_lt(a: u32, b: u32) -> bool {
    !is_nan(a) && !is_nan(b) && sval(a) < sval(b)
}

/// Non-strict order on two patterns, as IEEE-754 `<=` decides it.
pub open spec fn f32_le(a: u32, b: u32) -> bool {
    !is_nan(a) && !is_nan(b) && sval(a) <= sval(b)
}

/// Equality of two patterns, as IEEE-754 `==` decides it: the two zero
/// patterns are equal, NaNs are equal to nothing.
pub open spec fn f32_eq(a: u32, b: u32) -> bool {
    !is_nan(a) && !is_nan(b) && sval(a) == sval(b)
}

/// How a pattern splits into its exponent and fraction fields.
proof fn lemma_mag_parts(x: u32)
    ensures
        x == (x >> 23) * 0x80_0000 + (x & 0x7f_ffff),
        (x & 0x7f_ffff) < 0x80_0000,
        (x >> 23) < 0x200,
        x <= 0x7fff_ffff ==> (x >> 23) < 0x100,
{
    assert(x == (x >> 23) * 0x80_0000 + (x & 0x7f_ffff) && (x & 0x7f_ffff) < 0x80_0000 && (x
        >> 23) < 0x200 && (x <= 0x7fff_ffff ==> (x >> 23) < 0x100)) by (bit_vector);
}

/// The scaled magnitude grows strictly with the bit pattern.
pub proof fn lemma_mag_val_strict(a: u32, b: u32)
    requires
        a < b,
    ensures
        mag_val(a) < mag_val(b),
{
    lemma_mag_parts(a);
    lemma_mag_parts(b);
    let ea = (a >> 23) as nat;
    let ma = (a & 0x7f_ffff) as nat;
    let eb = (b >> 23) as nat;
    let mb = (b & 0x7f_ffff) as nat;
    if ea == eb {
        assert(ma < mb);
        if ea != 0 {
            let p = pow2((ea - 1) as nat);
            lemma_pow2_pos((ea - 1) as nat);
            lemma_mul_strict_inequality((0x80_0000 + ma) as int, (0x80_0000 + mb) as int, p as int);
        }
    } else {
        assert(ea < eb);
        let pb = pow2((eb - 1) as nat);
        lemma_pow2_pos((eb - 1) as nat);
        // mag_val(b) is at least 0x80_0000 * pb.
        lemma_mul_inequality(0x80_0000, (0x80_0000 + mb) as int, pb as int);
        if ea == 0 {
            // mag_val(a) = ma < 0x80_0000 <= 0x80_0000 * pb <= mag_val(b).
            lemma_mul_inequality(1, pb as int, 0x80_0000);
        } else {
            let pa = pow2((ea - 1) as nat);
            lemma_pow2_pos((ea - 1) as nat);
            // mag_val(a) <= 0xff_ffff * pa < 0x100_0000 * pa == 0x80_0000 * pow2(ea).
            lemma_mul_inequality((0x80_0000 + ma) as int, 0xff_ffff, pa as int);
            lemma_mul_strict_inequality(0xff_ffff, 0x100_0000, pa as int);
            lemma_pow2_unfold(ea);
            assert(0x100_0000 * pa == 0x80_0000 * (2 * pa)) by (nonlinear_arith);
            // 0x80_0000 * pow2(ea) <= 0x80_0000 * pb since ea <= eb - 1.
            if ea < eb - 1 {
                lemma_pow2_strictly_increases(ea, (eb - 1) as nat);
            }
            lemma_mul_inequality(pow2(ea) as int, pb as int, 0x80_0000);
            assert(pow2(ea) * 0x80_0000 == 0x80_0000 * pow2(ea)) by (nonlinear_arith);
        }
    }
}

/// The scaled magnitude orders bit patterns exactly as the patterns
/// themselves are ordered as integers.
pub proof fn lemma_mag_val_mono(a: u32, b: u32)
    ensures
        a < b <==> mag_val(a) < mag_val(b),
        a == b <==> mag_val(a) == mag_val(b),
{
    if a < b {
        lemma_mag_val_strict(a, b);
    }
    if b < a {
        lemma_mag_val_strict(b, a);
    }
}

/// Only the zero pattern has scaled magnitude zero.
pub proof fn lemma_mag_val_zero(m: u32)
    ensures
        mag_val(m) == 0 <==> m == 0,
{
    assert(0u32 >> 23 == 0 && (0u32 & 0x7f_ffff) == 0) by (bit_vector);
    if m != 0 {
        lemma_mag_val_strict(0, m);
    }
}

/// Whether a pattern is a NaN.
pub fn is_nan_bits(x: u32) -> (r: bool)
    ensures
        r == is_nan(x),
{
    ((x >> 23) & 0xff) == 0xff && (x & 0x7f_ffff) != 0
}

/// The facts the executable comparisons need about the two operands'
/// signs and magnitudes.
proof fn lemma_cmp_setup(a: u32, b: u32)
    ensures
        a >> 31 == 0 || a >> 31 == 1,
        b >> 31 == 0 || b >> 31 == 1,
        (a & 0x7fff_ffff) < (b & 0x7fff_ffff) <==> mag_val(a & 0x7fff_ffff) < mag_val(
            b & 0x7fff_ffff,
        ),
        (a & 0x7fff_ffff) == (b & 0x7fff_ffff) <==> mag_val(a & 0x7fff_ffff) == mag_val(
            b & 0x7fff_ffff,
        ),
        mag_val(a & 0x7fff_ffff) == 0 <==> (a & 0x7fff_ffff) == 0,
        mag_val(b & 0x7fff_ffff) == 0 <==> (b & 0x7fff_ffff) == 0,
{
    assert(a >> 31 == 0 || a >> 31 == 1) by (bit_vector);
    assert(b >> 31 == 0 || b >> 31 == 1) by (bit_vector);
    lemma_mag_val_mono(a & 0x7fff_ffff, b & 0x7fff_ffff);
    lemma_mag_val_zero(a & 0x7fff_ffff);
    lemma_mag_val_zero(b & 0x7fff_ffff);
}

/// IEEE-754 `<` on two bit patterns.
pub fn lt_bits(a: u32, b: u32) -> (r: bool)
    ensures
        r == f32_lt(a, b),
{
    if is_nan_bits(a) || is_nan_bits(b) {
        return false;
    }
    proof {
        lemma_cmp_setup(a, b);
    }
    let sa = a >> 31;
    let sb = b >> 31;
    let ma = a & 0x7fff_ffff;
    let mb = b & 0x7fff_ffff;
    if sa == 0 && sb == 0 {
        ma < mb
    } else if sa == 1 && sb == 1 {
        mb < ma
    } else if sa == 1 {
        // a is non-positive and b non-negative: a < b unless both are zeros.
        ma != 0 || mb != 0
    } else {
        false
    }
}

/// IEEE-754 `==` on two bit patterns.
pub fn eq_bits(a: u32, b: u32) -> (r: bool)
    ensures
        r == f32_eq(a, b),
{
    if is_nan_bits(a) || is_nan_bits(b) {
        return false;
    }
    proof {
        lemma_cmp_setup(a, b);
    }
    let sa = a >> 31;
    let sb = b >> 31;
    let ma = a & 0x7fff_ffff;
    let mb = b & 0x7fff_ffff;
    if sa == sb {
        ma == mb
    } else {
        // Opposite signs are equal only as the two zero patterns.
        ma == 0 && mb == 0
    }
}

/// IEEE-754 `<=` on two bit patterns.
pub fn le_bits(a: u32, b: u32) -> (r: bool)
    ensures
        r == f32_le(a, b),
{
    lt_bits(a, b) || eq_bits(a, b)
}

/// The smaller of two patterns, skipping NaN operands the way
/// `f32::min` does: a NaN comes out only when both operands are NaNs.
pub fn min_bits(a: u32, b: u32) -> (r: u32)
    ensures
        r == a || r == b,
        is_nan(r) <==> is_nan(a) && is_nan(b),
        !is_nan(a) ==> !is_nan(r) && sval(r) <= sval(a),
        !is_nan(b) ==> !is_nan(r) && sval(r) <= sval(b),
{
    if is_nan_bits(a) {
        b
    } else if is_nan_bits(b) {
        a
    } else if lt_bits(b, a) {
        b
    } else {
        a
    }
}

/// The larger of two patterns, skipping NaN operands the way
/// `f32::max` does.
pub fn max_bits(a: u32, b: u32) -> (r: u32)
    ensures
        r == a || r == b,
        is_nan(r) <==> is_nan(a) && is_nan(b),
        !is_nan(a) ==> !is_nan(r) && sval(r) >= sval(a),
        !is_nan(b) ==> !is_nan(r) && sval(r) >= sval(b),
{
    if is_nan_bits(a) {
        b
    } else if is_nan_bits(b) {
        a
    } else if lt_bits(a, b) {
        b
    } else {
        a
    }
}

} // verus!
