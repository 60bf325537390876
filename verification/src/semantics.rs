//! Reference semantics of the arithmetized instructions.
//!
//! Operands and results are 32- or 64-bit machine words carried in `u64`;
//! signed operations read them as two's complement.  These functions compute
//! the witness values the opcode circuits assign, and their contracts are the
//! arithmetic facts the circuit constraints encode.

use crate::allocator::flag_of;
use vstd::arithmetic::div_mod::{
    lemma_fundamental_div_mod, lemma_fundamental_div_mod_converse, lemma_multiply_divide_lt,
    lemma_mod_division_less_than_divisor, lemma_remainder_lower,
};
use vstd::arithmetic::mul::{lemma_mul_is_commutative, lemma_mul_nonnegative, lemma_mul_upper_bound};
use vstd::prelude::*;

verus! {

/// The size of the value space: two to the operand width.
pub open spec fn size_mod(is_i32: bool) -> int {
    if is_i32 {
        0x1_0000_0000
    } else {
        0x1_0000_0000_0000_0000
    }
}

/// The weight of the sign bit: half the value space.
pub open spec fn half_mod(is_i32: bool) -> int {
    if is_i32 {
        0x8000_0000
    } else {
        0x8000_0000_0000_0000
    }
}

/// `x` is a value of the chosen width.
pub open spec fn in_width(is_i32: bool, x: u64) -> bool {
    x < size_mod(is_i32)
}

/// The magnitude of `x` read as two's complement: `x` itself when
/// non-negative, its negation otherwise.
pub open spec fn mag_val(is_i32: bool, x: u64) -> int {
    if flag_of(is_i32, x) == 1 {
        size_mod(is_i32) - x
    } else {
        x as int
    }
}

/// The top bit is set exactly on values at or above the sign-bit weight, and
/// the magnitude is positive exactly on nonzero values and never exceeds the
/// sign-bit weight.
pub proof fn lemma_flag_and_mag(is_i32: bool, x: u64)
    requires
        in_width(is_i32, x),
    ensures
        flag_of(is_i32, x) == if x >= half_mod(is_i32) {
            1int
        } else {
            0int
        },
        flag_of(is_i32, x) == 1 ==> 0 < mag_val(is_i32, x) <= half_mod(is_i32),
        flag_of(is_i32, x) == 0 ==> mag_val(is_i32, x) == x && x < half_mod(is_i32),
        x == 0 <==> mag_val(is_i32, x) == 0,
        0 <= mag_val(is_i32, x) <= half_mod(is_i32),
{
    lemma_fundamental_div_mod(x as int, half_mod(is_i32));
    lemma_mod_division_less_than_divisor(x as int, half_mod(is_i32));
}

/// The sign flag of `x`, as the circuits compute it.
pub fn top_flag(is_i32: bool, x: u64) -> (r: bool)
    requires
        in_width(is_i32, x),
    ensures
        flag_of(is_i32, x) == if r {
            1int
        } else {
            0int
        },
{
    proof {
        lemma_flag_and_mag(is_i32, x);
    }
    if is_i32 {
        x >= 0x8000_0000
    } else {
        x >= 0x8000_0000_0000_0000
    }
}

/// The two's-complement magnitude of `x`.
pub fn normalize(is_i32: bool, x: u64) -> (r: u64)
    requires
        in_width(is_i32, x),
    ensures
        r == mag_val(is_i32, x),
        x != 0 ==> r != 0,
        r <= half_mod(is_i32),
{
    proof {
        lemma_flag_and_mag(is_i32, x);
    }
    if top_flag(is_i32, x) {
        if is_i32 {
            0x1_0000_0000u64 - x
        } else {
            ((0x1_0000_0000_0000_0000u128 - x as u128) as u64)
        }
    } else {
        x
    }
}

/// Wrapping addition: the result is the sum reduced to the operand width,
/// and the overflow bit is the sum's high part.
pub fn wasm_add(is_i32: bool, a: u64, b: u64) -> (r: (u64, u64))
    requires
        in_width(is_i32, a),
        in_width(is_i32, b),
    ensures
        r.0 == (a + b) % size_mod(is_i32),
        r.1 == (a + b) / size_mod(is_i32),
        a + b == r.0 + r.1 * size_mod(is_i32),
        in_width(is_i32, r.0),
        r.1 <= 1,
{
    proof {
        lemma_fundamental_div_mod(a as int + b as int, size_mod(is_i32));
        lemma_mod_division_less_than_divisor(a as int + b as int, size_mod(is_i32));
        if a + b >= 2 * size_mod(is_i32) {
            lemma_fundamental_div_mod_converse(
                a as int + b as int,
                size_mod(is_i32),
                (a + b) / size_mod(is_i32),
                (a + b) % size_mod(is_i32),
            );
        }
    }
    let s = a as u128 + b as u128;
    let n: u128 = if is_i32 {
        0x1_0000_0000
    } else {
        0x1_0000_0000_0000_0000
    };
    ((s % n) as u64, (s / n) as u64)
}

/// Wrapping subtraction: adding the result and the overflow term back to the
/// subtrahend recovers the minuend.
pub fn wasm_sub(is_i32: bool, a: u64, b: u64) -> (r: (u64, u64))
    requires
        in_width(is_i32, a),
        in_width(is_i32, b),
    ensures
        r.0 == (a - b) % size_mod(is_i32),
        b + r.0 == a + r.1 * size_mod(is_i32),
        r.1 == (b + r.0) / size_mod(is_i32),
        in_width(is_i32, r.0),
        r.1 <= 1,
{
    let (res, ovf): (u64, u64) = if a >= b {
        (a - b, 0)
    } else {
        if is_i32 {
            (0x1_0000_0000u64 + a - b, 1)
        } else {
            (((0x1_0000_0000_0000_0000u128 + a as u128 - b as u128) as u64), 1)
        }
    };
    proof {
        lemma_fundamental_div_mod_converse(
            a as int - b as int,
            size_mod(is_i32),
            -(ovf as int),
            res as int,
        );
        lemma_fundamental_div_mod_converse(
            b as int + res as int,
            size_mod(is_i32),
            ovf as int,
            a as int,
        );
    }
    (res, ovf)
}

/// Wrapping multiplication: the result is the low part of the full product,
/// and the auxiliary value is its high part.
pub fn wasm_mul(is_i32: bool, a: u64, b: u64) -> (r: (u64, u64))
    requires
        in_width(is_i32, a),
        in_width(is_i32, b),
    ensures
        r.0 == (a * b) % size_mod(is_i32),
        r.1 == (a * b) / size_mod(is_i32),
        a * b == r.1 * size_mod(is_i32) + r.0,
        in_width(is_i32, r.0),
        r.1 < size_mod(is_i32),
{
    proof {
        lemma_mul_fits(is_i32, a, b);
    }
    let p = a as u128 * b as u128;
    let n: u128 = if is_i32 {
        0x1_0000_0000
    } else {
        0x1_0000_0000_0000_0000
    };
    ((p % n) as u64, (p / n) as u64)
}

/// Unsigned division.  Together with [`wasm_rem_u`] this is the Euclidean
/// identity: quotient times divisor plus remainder recovers the dividend,
/// and the remainder is below the divisor.
pub fn wasm_div_u(a: u64, b: u64) -> (r: u64)
    requires
        b != 0,
    ensures
        r == (a as int) / (b as int),
        r * b + (a as int) % (b as int) == a,
        (a as int) % (b as int) < b,
{
    proof {
        lemma_fundamental_div_mod(a as int, b as int);
        lemma_mod_division_less_than_divisor(a as int, b as int);
        lemma_mul_is_commutative(b as int, a as int / b as int);
    }
    a / b
}

/// Unsigned remainder.
pub fn wasm_rem_u(a: u64, b: u64) -> (r: u64)
    requires
        b != 0,
    ensures
        r == (a as int) % (b as int),
        ((a as int) / (b as int)) * b + r == a,
        r < b,
{
    proof {
        lemma_fundamental_div_mod(a as int, b as int);
        lemma_mod_division_less_than_divisor(a as int, b as int);
        lemma_mul_is_commutative(b as int, a as int / b as int);
    }
    a % b
}

/// The Euclidean identity of unsigned division and remainder, for every
/// dividend and every nonzero divisor.
pub proof fn lemma_div_rem_u(a: u64, b: u64)
    requires
        b != 0,
    ensures
        ((a as int) / (b as int)) * b + (a as int) % (b as int) == a,
        0 <= (a as int) % (b as int) < b,
        0 <= (a as int) / (b as int) <= a,
{
    lemma_fundamental_div_mod(a as int, b as int);
    lemma_mod_division_less_than_divisor(a as int, b as int);
    lemma_remainder_lower(a as int, b as int);
    lemma_mul_is_commutative(b as int, a as int / b as int);
    vstd::arithmetic::div_mod::lemma_div_nonincreasing(a as int, b as int);
}

/// The full product of two width-bounded values fits below the square of the
/// value space, and its high part fits the width.
pub proof fn lemma_mul_fits(is_i32: bool, a: u64, b: u64)
    requires
        in_width(is_i32, a),
        in_width(is_i32, b),
    ensures
        0 <= a as int * b as int,
        (a as int * b as int) < size_mod(is_i32) * size_mod(is_i32),
        a as int * b as int <= 0xffff_ffff_ffff_ffff_ffff_ffff_ffff_ffff,
        (a as int * b as int) / size_mod(is_i32) < size_mod(is_i32),
        0 <= (a as int * b as int) % size_mod(is_i32) < size_mod(is_i32),
        a as int * b as int == (a as int * b as int) / size_mod(is_i32) * size_mod(is_i32) + (
        a as int * b as int) % size_mod(is_i32),
{
    let n = size_mod(is_i32);
    lemma_mul_upper_bound(a as int, n - 1, b as int, n - 1);
    if is_i32 {
        assert((0x1_0000_0000 - 1) * (0x1_0000_0000 - 1) < 0x1_0000_0000 * 0x1_0000_0000);
    } else {
        assert((0x1_0000_0000_0000_0000 - 1) * (0x1_0000_0000_0000_0000 - 1)
            <= 0xffff_ffff_ffff_ffff_ffff_ffff_ffff_ffff);
        assert(0xffff_ffff_ffff_ffff_ffff_ffff_ffff_ffff < 0x1_0000_0000_0000_0000
            * 0x1_0000_0000_0000_0000);
    }
    lemma_mul_nonnegative(a as int, b as int);
    lemma_multiply_divide_lt(a as int * b as int, n, n);
    lemma_fundamental_div_mod(a as int * b as int, n);
    lemma_mod_division_less_than_divisor(a as int * b as int, n);
}

/// The two's-complement truncating signed quotient of `a` and `b`.
pub open spec fn div_s_val(is_i32: bool, a: u64, b: u64) -> int {
    let d = mag_val(is_i32, a) / mag_val(is_i32, b);
    if flag_of(is_i32, a) != flag_of(is_i32, b) && d != 0 {
        size_mod(is_i32) - d
    } else {
        d
    }
}

/// The two's-complement truncating signed remainder of `a` and `b`: the
/// remainder of the magnitudes, carrying the dividend's sign.
pub open spec fn rem_s_val(is_i32: bool, a: u64, b: u64) -> int {
    let m = mag_val(is_i32, a) % mag_val(is_i32, b);
    if flag_of(is_i32, a) == 1 && m != 0 {
        size_mod(is_i32) - m
    } else {
        m
    }
}

/// Signed division, excluding the overflowing quotient of the minimum value
/// by minus one.
pub fn wasm_div_s(is_i32: bool, a: u64, b: u64) -> (r: u64)
    requires
        in_width(is_i32, a),
        in_width(is_i32, b),
        b != 0,
        !(a == half_mod(is_i32) && b == size_mod(is_i32) - 1),
    ensures
        r == div_s_val(is_i32, a, b),
        in_width(is_i32, r),
{
    proof {
        lemma_flag_and_mag(is_i32, a);
        lemma_flag_and_mag(is_i32, b);
    }
    let na = normalize(is_i32, a);
    let nb = normalize(is_i32, b);
    let d = wasm_div_u(na, nb);
    let fa = top_flag(is_i32, a);
    let fb = top_flag(is_i32, b);
    proof {
        lemma_div_rem_u(na, nb);
    }
    if fa != fb && d != 0 {
        if is_i32 {
            0x1_0000_0000u64 - d
        } else {
            ((0x1_0000_0000_0000_0000u128 - d as u128) as u64)
        }
    } else {
        d
    }
}

/// Signed remainder.
pub fn wasm_rem_s(is_i32: bool, a: u64, b: u64) -> (r: u64)
    requires
        in_width(is_i32, a),
        in_width(is_i32, b),
        b != 0,
    ensures
        r == rem_s_val(is_i32, a, b),
        in_width(is_i32, r),
{
    proof {
        lemma_flag_and_mag(is_i32, a);
        lemma_flag_and_mag(is_i32, b);
    }
    let na = normalize(is_i32, a);
    let nb = normalize(is_i32, b);
    let m = wasm_rem_u(na, nb);
    let fa = top_flag(is_i32, a);
    if fa && m != 0 {
        if is_i32 {
            0x1_0000_0000u64 - m
        } else {
            ((0x1_0000_0000_0000_0000u128 - m as u128) as u64)
        }
    } else {
        m
    }
}

/// The signed remainder carries the sign of the dividend, or is zero:
/// two's-complement truncating division semantics.
pub proof fn lemma_rem_s_sign(is_i32: bool, a: u64, b: u64)
    requires
        in_width(is_i32, a),
        in_width(is_i32, b),
        b != 0,
    ensures
        rem_s_val(is_i32, a, b) != 0 ==> (rem_s_val(is_i32, a, b) >= half_mod(is_i32)) == (a
            >= half_mod(is_i32)),
        0 <= rem_s_val(is_i32, a, b) < size_mod(is_i32),
{
    lemma_flag_and_mag(is_i32, a);
    lemma_flag_and_mag(is_i32, b);
    let na = mag_val(is_i32, a);
    let nb = mag_val(is_i32, b);
    lemma_fundamental_div_mod(na, nb);
    lemma_mod_division_less_than_divisor(na, nb);
    lemma_remainder_lower(na, nb);
    let m = na % nb;
    assert(0 <= m <= na);
}

/// Signed strictly-less-than on two's-complement values: a set sign bit
/// orders below a clear one, and equal signs compare as raw values.
pub open spec fn signed_lt(is_i32: bool, a: u64, b: u64) -> bool {
    if flag_of(is_i32, a) != flag_of(is_i32, b) {
        flag_of(is_i32, a) == 1
    } else {
        a < b
    }
}

/// Whether the relational operation holds on the operands.
pub open spec fn rel_holds(op: crate::encode::RelOp, sign: bool, is_i32: bool, a: u64, b: u64) -> bool {
    match op {
        crate::encode::RelOp::Eq => a == b,
        crate::encode::RelOp::Ne => a != b,
        crate::encode::RelOp::Lt => if sign {
            signed_lt(is_i32, a, b)
        } else {
            a < b
        },
        crate::encode::RelOp::Gt => if sign {
            signed_lt(is_i32, b, a)
        } else {
            a > b
        },
        crate::encode::RelOp::Le => if sign {
            !signed_lt(is_i32, b, a)
        } else {
            a <= b
        },
        crate::encode::RelOp::Ge => if sign {
            !signed_lt(is_i32, a, b)
        } else {
            a >= b
        },
    }
}

/// Evaluate a relational operation.
pub fn wasm_rel(op: crate::encode::RelOp, sign: bool, is_i32: bool, a: u64, b: u64) -> (r: bool)
    requires
        in_width(is_i32, a),
        in_width(is_i32, b),
    ensures
        r == rel_holds(op, sign, is_i32, a, b),
{
    proof {
        lemma_flag_and_mag(is_i32, a);
        lemma_flag_and_mag(is_i32, b);
    }
    let lt: bool = if sign {
        let fa = top_flag(is_i32, a);
        let fb = top_flag(is_i32, b);
        if fa != fb {
            fa
        } else {
            a < b
        }
    } else {
        a < b
    };
    let gt: bool = if sign {
        let fa = top_flag(is_i32, a);
        let fb = top_flag(is_i32, b);
        if fa != fb {
            fb
        } else {
            a > b
        }
    } else {
        a > b
    };
    match op {
        crate::encode::RelOp::Eq => a == b,
        crate::encode::RelOp::Ne => a != b,
        crate::encode::RelOp::Lt => lt,
        crate::encode::RelOp::Gt => gt,
        crate::encode::RelOp::Le => !gt,
        crate::encode::RelOp::Ge => !lt,
    }
}

} // verus!
