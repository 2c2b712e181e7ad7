//! Two's-complement 32-bit arithmetic for the register machine.
//!
//! The interpreter's integer instructions follow the host language's
//! release-build semantics: addition, subtraction and multiplication wrap
//! modulo 2^32, division and remainder truncate toward zero, and the two
//! overflowing edge cases (`i32::MIN / -1` and `i32::MIN % -1`) wrap to
//! `i32::MIN` and 0. Division or remainder by zero is rejected before
//! reaching these functions (see [`crate::host::EclError`]).

use vstd::prelude::*;

verus! {

use vstd::arithmetic::div_mod::{
    lemma_fundamental_div_mod,
    lemma_small_mod,
    lemma_mod_multiples_vanish,
    lemma_mul_mod_noop_general,
    lemma_mod_bound,
    lemma_div_nonincreasing,
    lemma_mod_mod,
};
use vstd::arithmetic::mul::lemma_mul_inequality;

/// The 32-bit two's-complement value congruent to `v` modulo 2^32.
pub open spec fn wrap32(v: int) -> int {
    let m = v % 0x1_0000_0000;
    if m >= 0x8000_0000 {
        m - 0x1_0000_0000
    } else {
        m
    }
}

/// Magnitude of an integer.
pub open spec fn mag_spec(v: int) -> int {
    if v < 0 {
        -v
    } else {
        v
    }
}

/// Truncating 32-bit division (the host's `wrapping_div`): quotient of the
/// magnitudes with the sign of the operands, wrapped so that
/// `i32::MIN / -1` comes out as `i32::MIN`.
pub open spec fn div32_trunc(a: int, b: int) -> int {
    let q = mag_spec(a) / mag_spec(b);
    if (a < 0) != (b < 0) {
        wrap32(-q)
    } else {
        wrap32(q)
    }
}

/// Truncating 32-bit remainder (the host's `wrapping_rem`): remainder of
/// the magnitudes with the sign of the dividend, so `i32::MIN % -1` is 0.
pub open spec fn rem32_trunc(a: int, b: int) -> int {
    let r = mag_spec(a) % mag_spec(b);
    if a < 0 {
        -r
    } else {
        r
    }
}

/// `v % 2^32` for a value already within one wrap of the 32-bit range.
proof fn lemma_wrap32_near(v: int)
    requires
        -0x1_0000_0000 <= v < 0x1_0000_0000,
    ensures
        v >= 0 ==> v % 0x1_0000_0000 == v,
        v < 0 ==> v % 0x1_0000_0000 == v + 0x1_0000_0000,
{
    if v >= 0 {
        lemma_small_mod(v as nat, 0x1_0000_0000);
    } else {
        lemma_mod_multiples_vanish(1, v, 0x1_0000_0000);
        lemma_small_mod((v + 0x1_0000_0000) as nat, 0x1_0000_0000);
    }
}

/// A value already in the signed 32-bit range is its own wrap.
pub proof fn lemma_wrap32_small(v: int)
    requires
        -0x8000_0000 <= v < 0x8000_0000,
    ensures
        wrap32(v) == v,
{
    lemma_wrap32_near(v);
}

/// Wrapping respects congruence when stepping by one.
pub proof fn lemma_wrap32_step(v: int)
    requires
        0 <= v,
    ensures
        wrap32(wrap32(v) + 1) == wrap32(v + 1),
{
    let m = 0x1_0000_0000;
    lemma_mod_bound(v, m);
    if v % m >= 0x8000_0000 {
        lemma_mod_multiples_vanish(-1, v % m + 1, m);
        lemma_mod_mod_basic(v, 1);
    } else {
        lemma_mod_mod_basic(v, 1);
    }
}

/// `(v % m + k) % m == (v + k) % m` for the 32-bit modulus.
proof fn lemma_mod_mod_basic(v: int, k: int)
    ensures
        (v % 0x1_0000_0000 + k) % 0x1_0000_0000 == (v + k) % 0x1_0000_0000,
{
    let m = 0x1_0000_0000;
    lemma_fundamental_div_mod(v, m);
    lemma_mod_multiples_vanish(v / m, v % m + k, m);
}

/// Wrapping 32-bit addition.
pub fn wrap_add_i32(a: i32, b: i32) -> (r: i32)
    ensures
        r as int == wrap32(a as int + b as int),
{
    let s: i64 = a as i64 + b as i64;
    proof {
        lemma_wrap32_near(s as int);
    }
    if s > 0x7fff_ffff {
        (s - 0x1_0000_0000) as i32
    } else if s < -0x8000_0000 {
        (s + 0x1_0000_0000) as i32
    } else {
        s as i32
    }
}

/// Wrapping 32-bit subtraction.
pub fn wrap_sub_i32(a: i32, b: i32) -> (r: i32)
    ensures
        r as int == wrap32(a as int - b as int),
{
    let s: i64 = a as i64 - b as i64;
    proof {
        lemma_wrap32_near(s as int);
    }
    if s > 0x7fff_ffff {
        (s - 0x1_0000_0000) as i32
    } else if s < -0x8000_0000 {
        (s + 0x1_0000_0000) as i32
    } else {
        s as i32
    }
}

/// The unsigned value congruent to `a` modulo 2^32.
pub fn to_u32_wrapped(a: i32) -> (u: u32)
    ensures
        u as int == (a as int) % 0x1_0000_0000,
{
    proof {
        lemma_wrap32_near(a as int);
    }
    if a >= 0 {
        a as u32
    } else {
        (a as i64 + 0x1_0000_0000) as u32
    }
}

/// The signed reading of an unsigned 32-bit value.
pub fn to_i32_wrapped(u: u32) -> (r: i32)
    ensures
        r as int == wrap32(u as int),
{
    proof {
        lemma_wrap32_near(u as int);
    }
    if u >= 0x8000_0000 {
        (u as i64 - 0x1_0000_0000) as i32
    } else {
        u as i32
    }
}

/// Wrapping 32-bit multiplication.
pub fn wrap_mul_i32(a: i32, b: i32) -> (r: i32)
    ensures
        r as int == wrap32(a as int * b as int),
{
    let ua: u32 = to_u32_wrapped(a);
    let ub: u32 = to_u32_wrapped(b);
    proof {
        lemma_mul_inequality(ua as int, 0xffff_ffff, ub as int);
        lemma_mul_inequality(ub as int, 0xffff_ffff, 0xffff_ffff);
        vstd::arithmetic::mul::lemma_mul_is_commutative(ua as int, ub as int);
        vstd::arithmetic::mul::lemma_mul_is_commutative(ub as int, 0xffff_ffff);
    }
    let p: u64 = ua as u64 * ub as u64;
    let low: u32 = (p % 0x1_0000_0000) as u32;
    proof {
        lemma_mul_mod_noop_general(a as int, b as int, 0x1_0000_0000);
        lemma_mod_bound(a as int * b as int, 0x1_0000_0000);
    }
    to_i32_wrapped(low)
}

/// Magnitude of a signed 32-bit value, as unsigned.
fn mag_u32(a: i32) -> (u: u32)
    ensures
        u as int == mag_spec(a as int),
{
    if a < 0 {
        (-(a as i64)) as u32
    } else {
        a as u32
    }
}

/// Truncating 32-bit division; the divisor must not be zero.
pub fn div_i32_trunc(a: i32, b: i32) -> (r: i32)
    requires
        b != 0,
    ensures
        r as int == div32_trunc(a as int, b as int),
{
    let ua: u32 = mag_u32(a);
    let ub: u32 = mag_u32(b);
    proof {
        lemma_div_nonincreasing(ua as int, ub as int);
    }
    let q: u32 = ua / ub;
    proof {
        let qi = q as int;
        lemma_wrap32_near(qi);
        lemma_wrap32_near(-qi);
    }
    if (a < 0) != (b < 0) {
        (-(q as i64)) as i32
    } else {
        if q == 0x8000_0000 {
            i32::MIN
        } else {
            q as i32
        }
    }
}

/// Truncating 32-bit remainder; the divisor must not be zero.
pub fn rem_i32_trunc(a: i32, b: i32) -> (r: i32)
    requires
        b != 0,
    ensures
        r as int == rem32_trunc(a as int, b as int),
{
    let ua: u32 = mag_u32(a);
    let ub: u32 = mag_u32(b);
    let m: u32 = ua % ub;
    if a < 0 {
        (-(m as i64)) as i32
    } else {
        m as i32
    }
}

/// The 16-bit two's-complement value congruent to `v` modulo 2^16.
pub open spec fn wrap16(v: int) -> int {
    let m = v % 0x1_0000;
    if m >= 0x8000 {
        m - 0x1_0000
    } else {
        m
    }
}

/// The unsigned value congruent to `v` modulo 2^16 — the host's `as u16`.
pub open spec fn as_u16_wrapped(v: int) -> u16 {
    (v % 0x1_0000) as u16
}

/// The unsigned value congruent to `v` modulo 2^8 — the host's `as u8`.
pub open spec fn as_u8_wrapped(v: int) -> u8 {
    (v % 0x100) as u8
}

/// Truncation of a signed 32-bit value to 16 bits — the host's `as i16`.
pub fn to_i16_wrapped(a: i32) -> (r: i16)
    ensures
        r as int == wrap16(a as int),
{
    let u: u32 = to_u32_wrapped(a);
    let low: u32 = u % 0x1_0000;
    proof {
        lemma_mod_mod(a as int, 0x1_0000, 0x1_0000);
        lemma_mod_bound(a as int, 0x1_0000);
    }
    if low >= 0x8000 {
        (low as i32 - 0x1_0000) as i16
    } else {
        low as i16
    }
}

/// Truncation of a signed 32-bit value to an unsigned 16-bit value.
pub fn to_u16_wrapped(a: i32) -> (r: u16)
    ensures
        r == as_u16_wrapped(a as int),
{
    let u: u32 = to_u32_wrapped(a);
    proof {
        lemma_mod_mod(a as int, 0x1_0000, 0x1_0000);
        lemma_mod_bound(a as int, 0x1_0000);
    }
    (u % 0x1_0000) as u16
}

/// Truncation of a signed 32-bit value to an unsigned 8-bit value.
pub fn to_u8_wrapped(a: i32) -> (r: u8)
    ensures
        r == as_u8_wrapped(a as int),
{
    let u: u32 = to_u32_wrapped(a);
    proof {
        lemma_mod_mod(a as int, 0x100, 0x100_0000);
        lemma_mod_bound(a as int, 0x100);
    }
    (u % 0x100) as u8
}

} // verus!
