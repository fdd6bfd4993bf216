//! Bit-width-aware fixed-point (Q16) multiply primitives.
//!
//! Every multiply in the oscillator's right-hand side goes through these
//! functions. The policy: rescale dynamically by a shift derived from the
//! operands' bit lengths to keep precision, and saturate with the proper sign
//! when a product cannot be represented, never wrap silently.
use vstd::prelude::*;

verus! {

/// Sign of an integer: 1, -1 or 0.
pub open spec fn sgn(x: int) -> int {
    if x > 0 {
        1
    } else if x < 0 {
        -1
    } else {
        0
    }
}

/// Truncating (round-toward-zero) division, as Rust's `/` computes it
/// on signed integers. Meaningful for `b != 0`.
pub open spec fn tdiv(a: int, b: int) -> int {
    if b > 0 {
        if a >= 0 {
            a / b
        } else {
            -((-a) / b)
        }
    } else {
        if a >= 0 {
            -(a / (-b))
        } else {
            (-a) / (-b)
        }
    }
}

/// Clamp an integer into the `i32` range.
pub open spec fn sat_i32(x: int) -> i32 {
    if x > i32::MAX {
        i32::MAX
    } else if x < i32::MIN {
        i32::MIN
    } else {
        x as i32
    }
}

/// Absolute value of an `i32`, as a `u32` so that `i32::MIN` is representable.
pub open spec fn abs_i32(y: i32) -> u32 {
    if y >= 0 {
        y as u32
    } else {
        (-(y as int)) as u32
    }
}

fn abs_u32(y: i32) -> (r: u32)
    ensures
        r == abs_i32(y),
{
    if y >= 0 {
        y as u32
    } else {
        (-(y as i64)) as u32
    }
}

pub(crate) fn sign_i32(x: i32) -> (r: i32)
    ensures
        r == sgn(x as int),
{
    if x > 0 {
        1
    } else if x < 0 {
        -1
    } else {
        0
    }
}

/// The dynamic rescaling shift for `fmul`: how far the first operand is
/// shifted down before the native multiply, derived from the leading-zero
/// counts of both operands and capped at the full Q16 scale of 16.
pub open spec fn fmul_shr(y: i32, omega: i32) -> u32 {
    let zeros = vstd::std_specs::bits::u32_leading_zeros(abs_i32(y)) + vstd::std_specs::bits::u32_leading_zeros(abs_i32(omega));
    if 33 - zeros <= 0 {
        0u32
    } else if 33 - zeros >= 16 {
        16u32
    } else {
        (33 - zeros) as u32
    }
}

/// What `fmul` returns: the first operand pre-shifted by `fmul_shr`, the
/// native product if it fits, shifted back by the rest of the Q16 scale;
/// `None` when the product overflows even after maximal rescaling.
pub open spec fn fmul_spec(y: i32, omega: i32) -> Option<i32> {
    let shr = fmul_shr(y, omega);
    let ys = y >> shr;
    if ys * omega > i32::MAX || ys * omega < i32::MIN {
        None
    } else {
        Some(((ys * omega) as i32) >> ((16 - shr) as u32))
    }
}

/// Fixed-point Q16 product of `y` and `omega` with dynamic rescaling;
/// `None` when the product overflows even after maximal rescaling.
#[inline]
pub fn fmul(y: i32, omega: i32) -> (r: Option<i32>)
    ensures
        r == fmul_spec(y, omega),
{
    proof {
        vstd::std_specs::bits::axiom_u32_leading_zeros(abs_i32(y));
        vstd::std_specs::bits::axiom_u32_leading_zeros(abs_i32(omega));
    }
    let ylz: u32 = abs_u32(y).leading_zeros();
    let omegalz: u32 = abs_u32(omega).leading_zeros();
    let zeros: u32 = ylz + omegalz;
    let shr: u32 = if zeros >= 33 {
        0
    } else if 33 - zeros >= 16 {
        16
    } else {
        33 - zeros
    };
    match (y >> shr).checked_mul(omega) {
        Some(yomega) => Some(yomega >> (16 - shr)),
        None => None,
    }
}

/// The sign-correct saturated value that `mult3` falls back to when a
/// rescaled product still overflows: the maximum magnitude with the sign
/// of the three-way product.
pub open spec fn mult3_sat(y: i32, omega: i32, zeta: i32) -> i32 {
    (i32::MAX * (sgn(y as int) * sgn(omega as int) * sgn(zeta as int))) as i32
}

/// What `mult3` returns: two chained `fmul`s, with the ternary sign-based
/// saturation when either one overflows.
pub open spec fn mult3_spec(y: i32, omega: i32, zeta: i32) -> i32 {
    match fmul_spec(y, omega) {
        Some(yomega) => match fmul_spec(yomega, zeta) {
            Some(r) => r,
            None => mult3_sat(y, omega, zeta),
        },
        None => mult3_sat(y, omega, zeta),
    }
}

fn sat_with_sign(y: i32, omega: i32, zeta: i32) -> (r: i32)
    ensures
        r == mult3_sat(y, omega, zeta),
{
    let s1: i32 = sign_i32(y);
    let s2: i32 = sign_i32(omega);
    let s3: i32 = sign_i32(zeta);
    proof {
        assert(-1 <= s1 * s2 <= 1 && (s1 * s2) * s3 == s1 as int * s2 as int * s3 as int)
            by (nonlinear_arith)
            requires
                -1 <= s1 <= 1,
                -1 <= s2 <= 1,
        ;
        assert(-1 <= (s1 * s2) * s3 <= 1) by (nonlinear_arith)
            requires
                -1 <= s1 * s2 <= 1,
                -1 <= s3 <= 1,
        ;
    }
    let s12: i32 = s1 * s2;
    let s: i32 = s12 * s3;
    i32::MAX * s
}

/// Fixed-point Q16 product of three values, `y * omega * zeta`, chaining two
/// `fmul`s; on overflow of either step it saturates to the maximum magnitude
/// with the sign of the three-way product.
#[inline]
pub fn mult3(y: i32, omega: i32, zeta: i32) -> (r: i32)
    ensures
        r == mult3_spec(y, omega, zeta),
{
    match fmul(y, omega) {
        Some(yomega) => match fmul(yomega, zeta) {
            Some(r) => r,
            None => sat_with_sign(y, omega, zeta),
        },
        None => sat_with_sign(y, omega, zeta),
    }
}

/// Saturating 32-bit addition: clamps to the `i32` bounds instead of
/// wrapping.
pub(crate) fn saturating_add_i32(a: i32, b: i32) -> (r: i32)
    ensures
        r == sat_i32(a as int + b as int),
{
    match a.checked_add(b) {
        Some(r) => r,
        None => {
            if a >= 0 {
                i32::MAX
            } else {
                i32::MIN
            }
        },
    }
}

/// Multiply by a sign factor in `{-1, 0, 1}`. The one unrepresentable case,
/// negating `i32::MIN`, is excluded by the callers.
pub(crate) fn mul_sign(s: i32, a: i32) -> (r: i32)
    requires
        -1 <= s <= 1,
        s == -1 ==> a != i32::MIN,
    ensures
        r as int == s as int * a as int,
{
    proof {
        assert(s == 1 ==> s as int * a as int == a as int) by (nonlinear_arith);
        assert(s == 0 ==> s as int * a as int == 0) by (nonlinear_arith);
        assert(s == -1 ==> s as int * a as int == -(a as int)) by (nonlinear_arith);
    }
    s * a
}

/// Multiply by a sign factor in `{-1, 0, 1}`, clamping the one
/// unrepresentable product, the negation of `i32::MIN`, to `i32::MAX`.
pub(crate) fn mul_sign_sat(s: i32, a: i32) -> (r: i32)
    requires
        -1 <= s <= 1,
    ensures
        r == sat_i32(s as int * a as int),
{
    if s == -1 && a == i32::MIN {
        proof {
            assert(s == -1 ==> s as int * a as int == -(a as int)) by (nonlinear_arith);
        }
        i32::MAX
    } else {
        mul_sign(s, a)
    }
}

/// What `mult_div` returns: the exact product `a * b`, computed at double
/// width, divided by `c` with truncation, then clamped to the `i32` range.
pub open spec fn mult_div_spec(a: i32, b: i32, c: i32) -> i32 {
    sat_i32(tdiv(a as int * b as int, c as int))
}

/// `a * b / c` over a widened (double-width) intermediate product: the
/// quotient truncates toward zero and saturates to the `i32` bounds on
/// overflow instead of wrapping.
pub fn mult_div(a: i32, b: i32, c: i32) -> (r: i32)
    requires
        c != 0,
    ensures
        r == mult_div_spec(a, b, c),
{
    proof {
        assert(-0x4000_0000_0000_0000 <= a as int * b as int <= 0x4000_0000_0000_0000)
            by (nonlinear_arith)
            requires
                -0x8000_0000 <= a <= 0x7fff_ffff,
                -0x8000_0000 <= b <= 0x7fff_ffff,
        ;
    }
    let wide: i64 = (a as i64) * (b as i64);
    let negative: bool = (wide < 0) != (c < 0);
    let wide_abs: u64 = if wide >= 0 {
        wide as u64
    } else {
        (-wide) as u64
    };
    let c_abs: u64 = if c >= 0 {
        c as u64
    } else {
        (-(c as i64)) as u64
    };
    let q: u64 = wide_abs / c_abs;
    if negative {
        if q > 0x8000_0000u64 {
            i32::MIN
        } else {
            (-(q as i64)) as i32
        }
    } else {
        if q > 0x7fff_ffffu64 {
            i32::MAX
        } else {
            q as i32
        }
    }
}

} // verus!
