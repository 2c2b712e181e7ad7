//! IEEE 754 single-precision values carried as raw bit patterns.
//!
//! The interpreter never performs floating-point arithmetic itself: a value
//! of type [`Fx32`] is just the 32 bits of an IEEE 754 single. Moving,
//! storing and comparing such values, and converting them to and from the
//! machine's 32-bit integers, is integer work and is done (and verified)
//! here. Transcendental and rounding arithmetic on these bit patterns is
//! delegated to the host driver through the request boundary in [`crate::host`].
//!
//! Conversions follow the host language's cast semantics: float-to-int
//! truncates toward zero and saturates (NaN becomes 0), int-to-float rounds
//! to nearest, ties to even.

use vstd::prelude::*;

verus! {

use vstd::arithmetic::power2::{
    pow2,
    lemma_pow2_unfold,
    lemma_pow2_adds,
    lemma_pow2_subtracts,
    lemma_pow2_pos,
    lemma_pow2_strictly_increases,
    lemma2_to64,
    lemma2_to64_rest,
};
use vstd::arithmetic::div_mod::{
    lemma_fundamental_div_mod,
    lemma_div_is_ordered,
    lemma_div_denominator,
    lemma_div_multiples_vanish,
    lemma_multiply_divide_lt,
    lemma_mod_bound,
};
use vstd::arithmetic::mul::{
    lemma_mul_inequality,
    lemma_mul_strict_inequality,
    lemma_mul_is_commutative,
};

/// An IEEE 754 single-precision value, held as its raw bit pattern.
///
/// Equality of two `Fx32` values is bit equality (so `-0.0` and `+0.0`
/// differ as `Fx32` but compare equal under [`fx_cmp`]).
#[derive(Clone, Copy, PartialEq, Eq, Structural, Debug)]
pub struct Fx32 {
    pub bits: u32,
}

impl Fx32 {
    /// The bit pattern of positive zero, the value every fresh register holds.
    pub fn zero() -> (r: Fx32)
        ensures
            r.bits == 0,
    {
        Fx32 { bits: 0 }
    }
}

/// Sign bit of a bit pattern.
pub open spec fn fx_neg(b: u32) -> bool {
    b >= 0x8000_0000
}

/// Biased exponent field (bits 23..31).
pub open spec fn fx_exp(b: u32) -> int {
    ((b / 0x80_0000) % 256) as int
}

/// Fraction field (bits 0..23).
pub open spec fn fx_frac(b: u32) -> int {
    (b % 0x80_0000) as int
}

/// A NaN: exponent all ones with a nonzero fraction.
pub open spec fn fx_is_nan(b: u32) -> bool {
    fx_exp(b) == 255 && fx_frac(b) != 0
}

/// Truncation of a single-precision value toward zero, saturated to the
/// `i32` range, with NaN mapped to 0 — the host language's `f32` to `i32`
/// cast. Values below 1 in magnitude (exponent under the bias) truncate
/// to 0; otherwise the significand `2^23 + frac` is scaled by the unbiased
/// exponent relative to the 23 fraction bits.
pub open spec fn fx_to_i32_spec(b: u32) -> int {
    if fx_is_nan(b) {
        0
    } else if fx_exp(b) == 255 {
        if fx_neg(b) {
            i32::MIN as int
        } else {
            i32::MAX as int
        }
    } else if fx_exp(b) < 127 {
        0
    } else {
        let e = fx_exp(b) - 127;
        let m = fx_frac(b) + 0x80_0000;
        let t = if e >= 23 {
            m * pow2((e - 23) as nat)
        } else {
            m / pow2((23 - e) as nat) as int
        };
        if fx_neg(b) {
            if t >= 0x8000_0000 {
                i32::MIN as int
            } else {
                -t
            }
        } else {
            if t > i32::MAX as int {
                i32::MAX as int
            } else {
                t
            }
        }
    }
}

/// Floor of the base-2 logarithm.
pub open spec fn fl2(n: nat) -> nat
    decreases n,
{
    if n <= 1 {
        0
    } else {
        1 + fl2(n / 2)
    }
}

/// Round-to-nearest-even encoding of a nonzero magnitude `mag < 2^32` as a
/// positive single-precision bit pattern — the host language's unsigned
/// int-to-float cast. With `h` the position of the leading bit: magnitudes
/// of at most 24 bits are exact; wider ones keep the top 24 bits, rounding
/// the rest to nearest with ties to the even significand, which can carry
/// into the next exponent.
pub open spec fn fx_of_mag_spec(mag: nat) -> int
    recommends
        0 < mag < 0x1_0000_0000,
{
    let h = fl2(mag) as int;
    if h <= 23 {
        (127 + h) * 0x80_0000 + ((mag as int) * (pow2((23 - h) as nat) as int) - 0x80_0000)
    } else {
        let scale = pow2((h - 23) as nat) as int;
        let keep = mag as int / scale;
        let rem = mag as int % scale;
        let half = scale / 2;
        let up = rem > half || (rem == half && keep % 2 == 1);
        let k2 = if up {
            keep + 1
        } else {
            keep
        };
        if k2 == 0x100_0000 {
            (127 + h + 1) * 0x80_0000
        } else {
            (127 + h) * 0x80_0000 + (k2 - 0x80_0000)
        }
    }
}

/// The host language's `u32` to `f32` cast, as a bit pattern.
pub open spec fn fx_of_u32_spec(mag: u32) -> int {
    if mag == 0 {
        0
    } else {
        fx_of_mag_spec(mag as nat)
    }
}

/// The host language's `i32` to `f32` cast, as a bit pattern: the rounded
/// magnitude with the sign bit put back.
pub open spec fn fx_of_i32_spec(v: i32) -> int {
    if v == 0 {
        0
    } else if v < 0 {
        0x8000_0000 + fx_of_mag_spec((-(v as int)) as nat)
    } else {
        fx_of_mag_spec(v as nat)
    }
}

/// Order key of a non-NaN bit pattern: sign-magnitude read as an integer.
/// IEEE ordering of two non-NaN singles is exactly the ordering of their
/// keys, and the keys of `+0.0` and `-0.0` are both 0.
pub open spec fn fx_key(b: u32) -> int {
    if fx_neg(b) {
        -((b - 0x8000_0000) as int)
    } else {
        b as int
    }
}

/// Three-way comparison as the interpreter's compare instruction uses it:
/// -1 when `a < b`, 0 when `a == b`, and 1 otherwise — so any NaN operand
/// yields 1, and the two zeroes are equal.
pub open spec fn fx_cmp_spec(a: u32, b: u32) -> int {
    if fx_is_nan(a) || fx_is_nan(b) {
        1
    } else if fx_key(a) < fx_key(b) {
        -1
    } else if fx_key(a) == fx_key(b) {
        0
    } else {
        1
    }
}

/// 2 to the power `k`, as a 64-bit value.
pub fn pow2_u64(k: u32) -> (r: u64)
    requires
        k <= 63,
    ensures
        r == pow2(k as nat),
{
    let mut r: u64 = 1;
    let mut i: u32 = 0;
    proof {
        lemma2_to64();
    }
    while i < k
        invariant
            i <= k <= 63,
            r == pow2(i as nat),
        decreases k - i,
    {
        proof {
            lemma_pow2_unfold((i + 1) as nat);
            lemma_pow2_strictly_increases((i + 1) as nat, 64);
            lemma2_to64_rest();
        }
        r = r * 2;
        i = i + 1;
    }
    r
}

/// 2^a <= 2^b whenever a <= b.
proof fn lemma_pow2_le(a: nat, b: nat)
    requires
        a <= b,
    ensures
        pow2(a) <= pow2(b),
{
    if a < b {
        lemma_pow2_strictly_increases(a, b);
    }
}

/// Position of the leading bit of `mag`, that is `fl2(mag)`.
pub fn floor_log2(mag: u32) -> (h: u32)
    requires
        mag >= 1,
    ensures
        h == fl2(mag as nat),
        h <= 31,
        pow2(h as nat) <= mag < pow2((h + 1) as nat),
{
    let mut m: u32 = mag;
    let mut h: u32 = 0;
    proof {
        lemma2_to64();
        lemma_div_multiples_vanish(mag as int, 1);
    }
    while m >= 2
        invariant
            m >= 1,
            h <= 31,
            m as nat == mag as nat / pow2(h as nat),
            fl2(mag as nat) == h + fl2(m as nat),
            pow2(h as nat) <= mag,
        decreases m,
    {
        let ghost m0 = m as int;
        let ghost h0 = h as int;
        m = m / 2;
        h = h + 1;
        proof {
            lemma2_to64();
            lemma_pow2_pos(h0 as nat);
            lemma_pow2_adds(h0 as nat, 1);
            assert(pow2(h as nat) == pow2(h0 as nat) * 2);
            lemma_div_denominator(mag as int, pow2(h0 as nat) as int, 2);
            assert(m as int == mag as int / (pow2(h as nat) as int));
            assert(fl2(m0 as nat) == 1 + fl2((m0 / 2) as nat));
            lemma_fundamental_div_mod(mag as int, pow2(h0 as nat) as int);
            lemma_mod_bound(mag as int, pow2(h0 as nat) as int);
            lemma_mul_inequality(2, m0, pow2(h0 as nat) as int);
            lemma_mul_is_commutative(m0, pow2(h0 as nat) as int);
            assert(mag as int >= pow2(h0 as nat) as int * 2);
            if h == 32 {
                assert(pow2(32) == 0x1_0000_0000);
                assert(false);
            }
        }
    }
    proof {
        lemma2_to64();
        lemma_pow2_pos(h as nat);
        lemma_fundamental_div_mod(mag as int, pow2(h as nat) as int);
        lemma_mod_bound(mag as int, pow2(h as nat) as int);
        lemma_pow2_adds(h as nat, 1);
        assert(mag < pow2((h + 1) as nat));
    }
    h
}

/// Truncating, saturating conversion of a bit pattern to `i32` — the host
/// language's `f32 as i32`.
pub fn fx_to_i32(x: Fx32) -> (r: i32)
    ensures
        r as int == fx_to_i32_spec(x.bits),
{
    let b: u32 = x.bits;
    let exp: u32 = (b / 0x80_0000) % 256;
    let frac: u32 = b % 0x80_0000;
    let neg: bool = b >= 0x8000_0000;
    if exp == 255 {
        if frac != 0 {
            0
        } else if neg {
            i32::MIN
        } else {
            i32::MAX
        }
    } else if exp < 127 {
        0
    } else {
        let e: u32 = exp - 127;
        let m: u64 = frac as u64 + 0x80_0000;
        if e >= 31 {
            proof {
                // The magnitude m * 2^(e - 23) is at least 2^23 * 2^8 = 2^31.
                lemma2_to64();
                lemma_pow2_le(8, (e - 23) as nat);
                lemma_mul_inequality(0x100, pow2((e - 23) as nat) as int, m as int);
                lemma_mul_is_commutative(0x100, m as int);
                lemma_mul_is_commutative(pow2((e - 23) as nat) as int, m as int);
                lemma_mul_inequality(0x80_0000, m as int, 0x100);
            }
            if neg {
                i32::MIN
            } else {
                i32::MAX
            }
        } else if e >= 23 {
            let scale: u64 = pow2_u64(e - 23);
            proof {
                lemma2_to64();
                lemma_pow2_le((e - 23) as nat, 7);
                lemma_mul_inequality(m as int, 0xff_ffff, scale as int);
                lemma_mul_inequality(scale as int, 0x80, 0xff_ffff);
                lemma_mul_is_commutative(scale as int, 0xff_ffff);
            }
            let v: u64 = m * scale;
            if neg {
                (-(v as i64)) as i32
            } else {
                v as i32
            }
        } else {
            let scale: u64 = pow2_u64(23 - e);
            proof {
                lemma_pow2_pos((23 - e) as nat);
                lemma_fundamental_div_mod(m as int, scale as int);
                lemma_mod_bound(m as int, scale as int);
                lemma_mul_inequality(1, scale as int, m as int / scale as int);
                lemma_mul_is_commutative(scale as int, m as int / scale as int);
            }
            let v: u64 = m / scale;
            if neg {
                (-(v as i64)) as i32
            } else {
                v as i32
            }
        }
    }
}

/// Round-to-nearest-even conversion of an unsigned magnitude to a bit
/// pattern — the host language's `u32 as f32`.
pub fn fx_of_u32(mag: u32) -> (r: Fx32)
    ensures
        r.bits as int == fx_of_u32_spec(mag),
{
    if mag == 0 {
        return Fx32 { bits: 0 };
    }
    let h: u32 = floor_log2(mag);
    if h <= 23 {
        let scale: u64 = pow2_u64(23 - h);
        proof {
            // mag * 2^(23 - h) lands in [2^23, 2^24).
            lemma2_to64();
            lemma_pow2_pos((23 - h) as nat);
            lemma_mul_inequality(pow2(h as nat) as int, mag as int, scale as int);
            lemma_pow2_adds(h as nat, (23 - h) as nat);
            lemma_mul_is_commutative(pow2(h as nat) as int, scale as int);
            lemma_mul_strict_inequality(mag as int, pow2((h + 1) as nat) as int, scale as int);
            lemma_pow2_adds((h + 1) as nat, (23 - h) as nat);
            lemma_mul_is_commutative(pow2((h + 1) as nat) as int, scale as int);
        }
        let val: u64 = mag as u64 * scale;
        let bits: u64 = (127 + h) as u64 * 0x80_0000 + (val - 0x80_0000);
        Fx32 { bits: bits as u32 }
    } else {
        let s: u32 = h - 23;
        let scale: u64 = pow2_u64(s);
        proof {
            lemma2_to64();
            lemma_pow2_pos(s as nat);
            // keep = mag / 2^(h - 23) lands in [2^23, 2^24).
            lemma_div_is_ordered(pow2(h as nat) as int, mag as int, scale as int);
            lemma_pow2_subtracts(s as nat, h as nat);
            lemma_pow2_adds(s as nat, 24);
            lemma_multiply_divide_lt(mag as int, scale as int, pow2(24) as int);
            lemma_mul_is_commutative(scale as int, pow2(24) as int);
        }
        let keep: u64 = mag as u64 / scale;
        let rem: u64 = mag as u64 % scale;
        let half: u64 = scale / 2;
        let up: bool = rem > half || (rem == half && keep % 2 == 1);
        let k2: u64 = if up {
            keep + 1
        } else {
            keep
        };
        let bits: u64 = if k2 == 0x100_0000 {
            (127 + h + 1) as u64 * 0x80_0000
        } else {
            (127 + h) as u64 * 0x80_0000 + (k2 - 0x80_0000)
        };
        Fx32 { bits: bits as u32 }
    }
}

/// Round-to-nearest-even conversion of a signed value to a bit pattern —
/// the host language's `i32 as f32`.
pub fn fx_of_i32(v: i32) -> (r: Fx32)
    ensures
        r.bits as int == fx_of_i32_spec(v),
{
    if v == 0 {
        Fx32 { bits: 0 }
    } else if v < 0 {
        let mag: u32 = if v == i32::MIN {
            0x8000_0000
        } else {
            (-(v as i64)) as u32
        };
        let body: Fx32 = fx_of_u32(mag);
        proof {
            lemma_fx_of_mag_below_sign_bit(mag as nat);
        }
        Fx32 { bits: body.bits + 0x8000_0000 }
    } else {
        let mag: u32 = v as u32;
        fx_of_u32(mag)
    }
}

/// The bit pattern of a converted magnitude stays under the sign bit:
/// its exponent field is at most 159, so the pattern is below 2^31.
pub proof fn lemma_fx_of_mag_below_sign_bit(mag: nat)
    requires
        0 < mag < 0x1_0000_0000,
    ensures
        0 <= fx_of_mag_spec(mag) < 0x8000_0000,
{
    let h = fl2(mag) as int;
    lemma_fl2_bounds(mag);
    lemma_fl2_fits(mag);
    lemma2_to64();
    if h <= 23 {
        let scale = pow2((23 - h) as nat) as int;
        lemma_pow2_pos((23 - h) as nat);
        lemma_mul_inequality(pow2(h as nat) as int, mag as int, scale);
        lemma_pow2_adds(h as nat, (23 - h) as nat);
        lemma_mul_is_commutative(pow2(h as nat) as int, scale);
        lemma_mul_strict_inequality(mag as int, pow2((h + 1) as nat) as int, scale);
        lemma_pow2_adds((h + 1) as nat, (23 - h) as nat);
        lemma_mul_is_commutative(pow2((h + 1) as nat) as int, scale);
    } else {
        let scale = pow2((h - 23) as nat) as int;
        lemma_pow2_pos((h - 23) as nat);
        lemma_div_is_ordered(pow2(h as nat) as int, mag as int, scale);
        lemma_pow2_subtracts((h - 23) as nat, h as nat);
        lemma_pow2_adds((h - 23) as nat, 24);
        lemma_multiply_divide_lt(mag as int, scale, pow2(24) as int);
        lemma_mul_is_commutative(scale, pow2(24) as int);
    }
}

/// `mag` sits between consecutive powers of two at position `fl2(mag)`.
pub proof fn lemma_fl2_bounds(mag: nat)
    requires
        mag >= 1,
    ensures
        pow2(fl2(mag)) <= mag < pow2(fl2(mag) + 1),
    decreases mag,
{
    lemma2_to64();
    if mag <= 1 {
    } else {
        let f = fl2(mag / 2);
        lemma_fl2_bounds(mag / 2);
        lemma_fundamental_div_mod(mag as int, 2);
        lemma_pow2_adds(f, 1);
        lemma_pow2_adds(f + 1, 1);
    }
}

/// A magnitude below 2^32 has its leading bit within the low 32 positions.
pub proof fn lemma_fl2_fits(mag: nat)
    requires
        1 <= mag < 0x1_0000_0000,
    ensures
        fl2(mag) <= 31,
{
    lemma_fl2_bounds(mag);
    if fl2(mag) >= 32 {
        lemma2_to64();
        lemma_pow2_le(32, fl2(mag));
    }
}

/// Three-way IEEE comparison of two bit patterns: -1, 0 or 1 as the
/// compare instruction records it (NaN on either side yields 1).
pub fn fx_cmp(a: Fx32, b: Fx32) -> (r: i32)
    ensures
        r as int == fx_cmp_spec(a.bits, b.bits),
{
    let na: bool = (a.bits / 0x80_0000) % 256 == 255 && a.bits % 0x80_0000 != 0;
    let nb: bool = (b.bits / 0x80_0000) % 256 == 255 && b.bits % 0x80_0000 != 0;
    if na || nb {
        return 1;
    }
    let ka: i64 = if a.bits >= 0x8000_0000 {
        -((a.bits - 0x8000_0000) as i64)
    } else {
        a.bits as i64
    };
    let kb: i64 = if b.bits >= 0x8000_0000 {
        -((b.bits - 0x8000_0000) as i64)
    } else {
        b.bits as i64
    };
    if ka < kb {
        -1
    } else if ka == kb {
        0
    } else {
        1
    }
}

} // verus!
