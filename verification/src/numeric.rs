//! Bit-level model of the wire's 64-bit IEEE 754 numbers.
//!
//! The station reports every numeric field as a double-width binary floating
//! point number. The library never computes with such numbers directly: it
//! carries their bit patterns as `u64` and reasons about the sign, exponent
//! and fraction fields. Narrowing a wire number into one of the record's
//! integer fields truncates toward zero and saturates at the target's bounds,
//! which this module implements and proves against the bit-level definition.
use vstd::prelude::*;

verus! {

use vstd::arithmetic::mul::{lemma_mul_inequality, lemma_mul_is_commutative};
use vstd::arithmetic::power2::{lemma2_to64, lemma2_to64_rest, lemma_pow2_strictly_increases, pow2};
use vstd::bits::{lemma_u64_shl_is_mul, lemma_u64_shr_is_div};

/// Sign bit of a double, read from its bit pattern.
pub open spec fn f64_sign(b: u64) -> bool {
    b >> 63 == 1
}

/// Biased exponent field of a double.
pub open spec fn f64_exp(b: u64) -> u64 {
    (b >> 52) & 0x7ff
}

/// Fraction field of a double.
pub open spec fn f64_frac(b: u64) -> u64 {
    b & 0xf_ffff_ffff_ffff
}

/// The bit pattern encodes a not-a-number value.
pub open spec fn f64_is_nan(b: u64) -> bool {
    f64_exp(b) == 0x7ff && f64_frac(b) != 0
}

/// The bit pattern encodes a positive or negative infinity.
pub open spec fn f64_is_inf(b: u64) -> bool {
    f64_exp(b) == 0x7ff && f64_frac(b) == 0
}

/// Magnitude of the integer part (truncation toward zero) of a finite double.
///
/// A finite double with biased exponent `e >= 1023` has the value
/// `(frac + 2^52) * 2^(e - 1075)` up to sign; below 1023 its magnitude is
/// less than one, so the integer part is zero.
pub open spec fn f64_trunc_mag(b: u64) -> nat {
    if f64_exp(b) < 1023 {
        0
    } else {
        let m = (f64_frac(b) + 0x10_0000_0000_0000) as nat;
        if f64_exp(b) >= 1075 {
            m * pow2((f64_exp(b) - 1075) as nat)
        } else {
            m / pow2((1075 - f64_exp(b)) as nat)
        }
    }
}

/// The narrowing rule for integer targets: truncate toward zero, saturate
/// into `[lo, hi]`, and send not-a-number to zero.
pub open spec fn f64_to_int_sat(b: u64, lo: int, hi: int) -> int {
    if f64_is_nan(b) {
        0
    } else if f64_is_inf(b) {
        if f64_sign(b) {
            lo
        } else {
            hi
        }
    } else {
        let v = if f64_sign(b) {
            -(f64_trunc_mag(b) as int)
        } else {
            f64_trunc_mag(b) as int
        };
        if v < lo {
            lo
        } else if v > hi {
            hi
        } else {
            v
        }
    }
}

/// Stands for the single-width bit pattern that narrowing a double yields:
/// what `to_f32` of the double with bit pattern `b` returns, as bits.
pub uninterp spec fn f32_bits_of_f64_bits(b: u64) -> u32;

/// Stands for the double bit pattern that converting the unsigned integer
/// `n` to a double yields.
pub uninterp spec fn f64_bits_of_u64(n: u64) -> u64;

/// Stands for the double bit pattern that converting the signed integer
/// `n` to a double yields.
pub uninterp spec fn f64_bits_of_i64(n: i64) -> u64;

struct TruncParts {
    nan: bool,
    inf: bool,
    neg: bool,
    over: bool,
    mag: u64,
}

fn trunc_parts(b: u64) -> (r: TruncParts)
    ensures
        r.nan == f64_is_nan(b),
        r.inf == f64_is_inf(b),
        r.neg == f64_sign(b),
        !r.nan && !r.inf && !r.over ==> r.mag == f64_trunc_mag(b),
        !r.nan && !r.inf && r.over ==> f64_trunc_mag(b) > u64::MAX,
{
    let exp: u64 = (b >> 52) & 0x7ff;
    let frac: u64 = b & 0xf_ffff_ffff_ffff;
    let neg: bool = (b >> 63) == 1;
    if exp == 0x7ff {
        TruncParts { nan: frac != 0, inf: frac == 0, neg, over: false, mag: 0 }
    } else if exp < 1023 {
        TruncParts { nan: false, inf: false, neg, over: false, mag: 0 }
    } else {
        let m: u64 = frac | 0x10_0000_0000_0000;
        proof {
            assert((b & 0xf_ffff_ffff_ffff) | 0x10_0000_0000_0000 == (b & 0xf_ffff_ffff_ffff)
                + 0x10_0000_0000_0000) by (bit_vector);
            assert(b & 0xf_ffff_ffff_ffff <= 0xf_ffff_ffff_ffff) by (bit_vector);
        }
        if exp >= 1075 {
            let sh: u64 = exp - 1075;
            if sh >= 12 {
                proof {
                    lemma2_to64();
                    lemma2_to64_rest();
                    if sh > 12 {
                        lemma_pow2_strictly_increases(12, sh as nat);
                    }
                    lemma_mul_inequality(pow2(12) as int, pow2(sh as nat) as int, m as int);
                    lemma_mul_is_commutative(pow2(12) as int, m as int);
                    lemma_mul_is_commutative(pow2(sh as nat) as int, m as int);
                    lemma_mul_inequality(0x10_0000_0000_0000, m as int, pow2(12) as int);
                    assert(m * pow2(sh as nat) >= m * pow2(12));
                    assert(m * pow2(12) >= 0x10_0000_0000_0000 * pow2(12));
                }
                TruncParts { nan: false, inf: false, neg, over: true, mag: 0 }
            } else {
                proof {
                    lemma2_to64();
                    if sh < 11 {
                        lemma_pow2_strictly_increases(sh as nat, 11);
                    }
                    lemma_mul_inequality(pow2(sh as nat) as int, pow2(11) as int, m as int);
                    lemma_mul_is_commutative(pow2(sh as nat) as int, m as int);
                    lemma_mul_is_commutative(pow2(11) as int, m as int);
                    lemma_mul_inequality(m as int, 0x1f_ffff_ffff_ffff, pow2(11) as int);
                    assert(m * pow2(sh as nat) <= m * pow2(11));
                    assert(m * pow2(11) <= 0x1f_ffff_ffff_ffff * 0x800);
                    lemma_u64_shl_is_mul(m, sh);
                }
                TruncParts { nan: false, inf: false, neg, over: false, mag: m << sh }
            }
        } else {
            let sh: u64 = 1075 - exp;
            proof {
                lemma_u64_shr_is_div(m, sh);
            }
            TruncParts { nan: false, inf: false, neg, over: false, mag: m >> sh }
        }
    }
}

/// Narrow a wire number to a signed 64-bit integer by the stated rule.
pub fn f64_bits_to_i64(b: u64) -> (r: i64)
    ensures
        r == f64_to_int_sat(b, i64::MIN as int, i64::MAX as int),
{
    let p = trunc_parts(b);
    if p.nan {
        0
    } else if p.inf {
        if p.neg {
            i64::MIN
        } else {
            i64::MAX
        }
    } else if p.neg {
        if p.over || p.mag >= 0x8000_0000_0000_0000 {
            i64::MIN
        } else {
            -(p.mag as i64)
        }
    } else {
        if p.over || p.mag > 0x7fff_ffff_ffff_ffff {
            i64::MAX
        } else {
            p.mag as i64
        }
    }
}

/// Narrow a wire number to an unsigned 64-bit integer by the stated rule.
pub fn f64_bits_to_u64(b: u64) -> (r: u64)
    ensures
        r == f64_to_int_sat(b, 0, u64::MAX as int),
{
    let p = trunc_parts(b);
    if p.nan {
        0
    } else if p.inf {
        if p.neg {
            0
        } else {
            u64::MAX
        }
    } else if p.neg {
        0
    } else if p.over {
        u64::MAX
    } else {
        p.mag
    }
}

/// Narrow a wire number to an unsigned 32-bit integer by the stated rule.
pub fn f64_bits_to_u32(b: u64) -> (r: u32)
    ensures
        r == f64_to_int_sat(b, 0, u32::MAX as int),
{
    let p = trunc_parts(b);
    if p.nan {
        0
    } else if p.inf {
        if p.neg {
            0
        } else {
            u32::MAX
        }
    } else if p.neg {
        0
    } else if p.over || p.mag > 0xffff_ffff {
        u32::MAX
    } else {
        p.mag as u32
    }
}

/// Narrow a wire number to an unsigned 16-bit integer by the stated rule.
pub fn f64_bits_to_u16(b: u64) -> (r: u16)
    ensures
        r == f64_to_int_sat(b, 0, u16::MAX as int),
{
    let p = trunc_parts(b);
    if p.nan {
        0
    } else if p.inf {
        if p.neg {
            0
        } else {
            u16::MAX
        }
    } else if p.neg {
        0
    } else if p.over || p.mag > 0xffff {
        u16::MAX
    } else {
        p.mag as u16
    }
}

} // verus!
