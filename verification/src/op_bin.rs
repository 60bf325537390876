//! The arithmetic binary opcodes: add, sub, mul, and the four division and
//! remainder forms, at 32 or 64 bits.
//!
//! Both operands come from the shared unary-argument slots.  One selector bit
//! per operation picks the active one; their sum is constrained to one.  For
//! add and sub an overflow bit times the size modulus captures the wraparound
//! term; for mul a 64-bit high word plays that role.  Unsigned division
//! witnesses quotient and remainder with the Euclidean identity and proves
//! the remainder strictly small by witnessing the gap to the divisor.  Signed
//! division first normalizes both operands to unsigned magnitudes using their
//! top bits, runs the unsigned algorithm, and reconstructs the result's sign
//! from the exclusive-or of the operand signs, with degree-helper cells
//! keeping every constraint within the backend's degree budget.

use crate::allocator::{
    flag_of, leading_limb, lemma_u64_limbs, u64_compose, AllocatedBitCell,
    AllocatedCommonRangeCell, AllocatedU64Cell, AllocatedU64CellWithFlagBitDyn,
    AllocatedUnlimitedCell, CellAllocator,
};
use crate::builder::{constraints_zero_range, Constraint, ConstraintBuilder};
use crate::encode::{bit_val, encode_bin_spec, BinOp, LocationType, MemoryLookupKey};
use crate::etable::{
    common_row_ok, AllocatedMemoryTableLookupWriteCellWithValue, EventTableCommonConfig,
    EventTableEntryWithMemoryInfo, StepInfo, StepStatus, UniArg,
};
use crate::expr::{cv, eval, Expr};
use crate::row::Row;
use crate::semantics::{
    div_s_val, half_mod, in_width, lemma_div_rem_u, lemma_flag_and_mag, lemma_mul_fits, mag_val,
    normalize, rem_s_val, size_mod, top_flag, wasm_add, wasm_div_u, wasm_mul, wasm_rem_u,
};
use vstd::arithmetic::div_mod::{
    lemma_div_is_ordered, lemma_div_is_ordered_by_denominator, lemma_div_nonincreasing,
    lemma_fundamental_div_mod, lemma_fundamental_div_mod_converse,
};
use vstd::arithmetic::mul::{lemma_mul_basics, lemma_mul_is_commutative, lemma_mul_upper_bound};
use vstd::prelude::*;

verus! {

pub struct BinConfig {
    pub lhs: AllocatedU64CellWithFlagBitDyn,
    pub rhs: AllocatedU64CellWithFlagBitDyn,
    pub d: AllocatedU64Cell,
    pub d_flag_helper_diff: AllocatedCommonRangeCell,
    pub aux1: AllocatedU64Cell,
    pub aux2: AllocatedU64Cell,
    pub overflow: AllocatedBitCell,
    pub is_add: AllocatedBitCell,
    pub is_sub: AllocatedBitCell,
    pub is_mul: AllocatedBitCell,
    pub is_div_u: AllocatedBitCell,
    pub is_div_s: AllocatedBitCell,
    pub is_rem_u: AllocatedBitCell,
    pub is_rem_s: AllocatedBitCell,
    pub is_div_s_or_rem_s: AllocatedBitCell,
    pub d_leading_u16: AllocatedUnlimitedCell,
    pub normalized_lhs: AllocatedUnlimitedCell,
    pub normalized_rhs: AllocatedUnlimitedCell,
    pub res_flag: AllocatedUnlimitedCell,
    pub size_modulus: AllocatedUnlimitedCell,
    pub overflow_mul_size_modulus: AllocatedUnlimitedCell,
    pub rhs_mul_d: AllocatedUnlimitedCell,
    pub normalized_rhs_mul_d: AllocatedUnlimitedCell,
    pub lhs_mul_rhs: AllocatedUnlimitedCell,
    pub aux1_mul_size_modulus: AllocatedUnlimitedCell,
    pub degree_helper1: AllocatedUnlimitedCell,
    pub degree_helper2: AllocatedUnlimitedCell,
    pub memory_table_lookup_stack_write: AllocatedMemoryTableLookupWriteCellWithValue,
}

pub struct BinConfigBuilder {}

/// The result value the operation produces on the given operands.
pub open spec fn bin_value(class: BinOp, is_i32: bool, l: u64, r: u64) -> int {
    match class {
        BinOp::Add => (l + r) % size_mod(is_i32),
        BinOp::Sub => (l - r) % size_mod(is_i32),
        BinOp::Mul => (l * r) % size_mod(is_i32),
        BinOp::UnsignedDiv => l as int / r as int,
        BinOp::UnsignedRem => l as int % r as int,
        BinOp::SignedDiv => div_s_val(is_i32, l, r),
        BinOp::SignedRem => rem_s_val(is_i32, l, r),
    }
}

pub open spec fn bin_is_div_or_rem(class: BinOp) -> bool {
    class is UnsignedDiv || class is UnsignedRem || class is SignedDiv || class is SignedRem
}

pub open spec fn bin_is_signed(class: BinOp) -> bool {
    class is SignedDiv || class is SignedRem
}

/// The limbs of a witness value given as an unbounded integer.
pub open spec fn limbv(x: int, k: int) -> int {
    crate::allocator::limb(x as u64, k)
}

/// One when the operand signs differ, zero otherwise.
pub open spec fn res_flag_val(is_i32: bool, l: u64, r: u64) -> int {
    if flag_of(is_i32, l) == flag_of(is_i32, r) {
        0
    } else {
        1
    }
}

/// The overflow witness: the carry of add, the borrow of sub, zero
/// otherwise.
pub open spec fn bin_overflow_val(class: BinOp, is_i32: bool, l: u64, r: u64, v: u64) -> int {
    match class {
        BinOp::Add => (l + r) / size_mod(is_i32),
        BinOp::Sub => (r + v) / size_mod(is_i32),
        _ => 0,
    }
}

/// The quotient witness of the division forms (of the magnitudes for the
/// signed ones), zero otherwise.
pub open spec fn bin_d_val(class: BinOp, is_i32: bool, l: u64, r: u64) -> int {
    match class {
        BinOp::UnsignedDiv | BinOp::UnsignedRem => l as int / r as int,
        BinOp::SignedDiv | BinOp::SignedRem => mag_val(is_i32, l) / mag_val(is_i32, r),
        _ => 0,
    }
}

/// The first auxiliary witness: the high word of mul, the remainder of the
/// division forms.
pub open spec fn bin_aux1_val(class: BinOp, is_i32: bool, l: u64, r: u64) -> int {
    match class {
        BinOp::Mul => (l * r) / size_mod(is_i32),
        BinOp::UnsignedDiv | BinOp::UnsignedRem => l as int % r as int,
        BinOp::SignedDiv | BinOp::SignedRem => mag_val(is_i32, l) % mag_val(is_i32, r),
        _ => 0,
    }
}

/// The second auxiliary witness: the gap proving the remainder is below the
/// divisor.
pub open spec fn bin_aux2_val(class: BinOp, is_i32: bool, l: u64, r: u64) -> int {
    match class {
        BinOp::UnsignedDiv | BinOp::UnsignedRem => r - (l as int % r as int) - 1,
        BinOp::SignedDiv | BinOp::SignedRem => mag_val(is_i32, r) - (mag_val(is_i32, l) % mag_val(
            is_i32,
            r,
        )) - 1,
        _ => 0,
    }
}

pub open spec fn bin_d_leading_val(class: BinOp, is_i32: bool, l: u64, r: u64) -> int {
    leading_limb(is_i32, bin_d_val(class, is_i32, l, r) as u64)
}

pub open spec fn bin_helper_diff_val(class: BinOp, is_i32: bool, l: u64, r: u64) -> int {
    if bin_d_leading_val(class, is_i32, l, r) < 0x7fff {
        0x7fff - bin_d_leading_val(class, is_i32, l, r)
    } else {
        0
    }
}

pub open spec fn bin_dh1_val(class: BinOp, is_i32: bool, l: u64, r: u64, v: u64) -> int {
    if class is SignedDiv {
        (bin_d_val(class, is_i32, l, r) + v) * res_flag_val(is_i32, l, r)
    } else {
        0
    }
}

pub open spec fn bin_dh2_val(class: BinOp, is_i32: bool, l: u64, r: u64, v: u64) -> int {
    if class is SignedRem {
        (bin_aux1_val(class, is_i32, l, r) + v) * flag_of(is_i32, l)
    } else {
        0
    }
}

/// A valid operand set: in width, divisors nonzero, the result matching the
/// operation, and no overflowing signed quotient (dividing the minimum value
/// by minus one, the one division WASM traps on; the signed remainder of that
/// pair is zero and is admitted here).
pub open spec fn bin_args_ok(class: BinOp, is_i32: bool, l: u64, r: u64, v: u64) -> bool {
    &&& in_width(is_i32, l)
    &&& in_width(is_i32, r)
    &&& in_width(is_i32, v)
    &&& bin_is_div_or_rem(class) ==> r != 0
    &&& class is SignedDiv ==> !(l == half_mod(is_i32) && r == size_mod(is_i32) - 1)
    &&& v == bin_value(class, is_i32, l, r)
}

/// A step the constraint system can witness.  Beyond a valid operand set,
/// the signed remainder of the minimum value by minus one is excluded: on
/// that pair the quotient's magnitude is exactly the sign-bit weight, so its
/// leading limb is `0x8000` while the sign-agreement constraint demands at
/// most `0x7fff`, and no common-range witness satisfies the registered
/// constraints.  Row assignment and the semantic layer handle the pair (the
/// remainder is zero, see [`crate::semantics::lemma_rem_s_sign`]); only the
/// gate must leave it out.
pub open spec fn bin_step_ok(
    step: StepStatus,
    class: BinOp,
    is_i32: bool,
    l: u64,
    r: u64,
    v: u64,
) -> bool {
    &&& step.wf()
    &&& bin_args_ok(class, is_i32, l, r, v)
    &&& class is SignedRem ==> !(l == half_mod(is_i32) && r == size_mod(is_i32) - 1)
}

/// The operand, quotient, and selector cells carry the witness.
pub open spec fn bin_assigned_low(
    cfg: BinConfig,
    row: Seq<int>,
    class: BinOp,
    is_i32: bool,
    l: u64,
    r: u64,
    v: u64,
) -> bool {
    &&& cfg.lhs.holds(row, l, is_i32)
    &&& cfg.rhs.holds(row, r, is_i32)
    &&& cfg.d.holds(row, bin_d_val(class, is_i32, l, r) as u64)
    &&& cv(row, cfg.d_flag_helper_diff.cell) == bin_helper_diff_val(class, is_i32, l, r)
    &&& cfg.aux1.holds(row, bin_aux1_val(class, is_i32, l, r) as u64)
    &&& cfg.aux2.holds(row, bin_aux2_val(class, is_i32, l, r) as u64)
    &&& cv(row, cfg.overflow.cell) == bin_overflow_val(class, is_i32, l, r, v)
    &&& cv(row, cfg.is_add.cell) == (if class is Add {
        1int
    } else {
        0int
    })
    &&& cv(row, cfg.is_sub.cell) == (if class is Sub {
        1int
    } else {
        0int
    })
    &&& cv(row, cfg.is_mul.cell) == (if class is Mul {
        1int
    } else {
        0int
    })
    &&& cv(row, cfg.is_div_u.cell) == (if class is UnsignedDiv {
        1int
    } else {
        0int
    })
    &&& cv(row, cfg.is_div_s.cell) == (if class is SignedDiv {
        1int
    } else {
        0int
    })
    &&& cv(row, cfg.is_rem_u.cell) == (if class is UnsignedRem {
        1int
    } else {
        0int
    })
    &&& cv(row, cfg.is_rem_s.cell) == (if class is SignedRem {
        1int
    } else {
        0int
    })
    &&& cv(row, cfg.is_div_s_or_rem_s.cell) == (if bin_is_signed(class) {
        1int
    } else {
        0int
    })
    &&& cv(row, cfg.d_leading_u16.cell) == bin_d_leading_val(class, is_i32, l, r)
    &&& cv(row, cfg.normalized_lhs.cell) == mag_val(is_i32, l)
    &&& cv(row, cfg.normalized_rhs.cell) == mag_val(is_i32, r)
}

/// The sign, modulus, product, and lookup cells carry the witness.
pub open spec fn bin_assigned_high(
    cfg: BinConfig,
    row: Seq<int>,
    step: StepStatus,
    class: BinOp,
    is_i32: bool,
    l: u64,
    r: u64,
    v: u64,
    lhs_uniarg: UniArg,
    rhs_uniarg: UniArg,
) -> bool {
    &&& cv(row, cfg.res_flag.cell) == res_flag_val(is_i32, l, r)
    &&& cv(row, cfg.size_modulus.cell) == size_mod(is_i32)
    &&& cv(row, cfg.overflow_mul_size_modulus.cell) == bin_overflow_val(class, is_i32, l, r, v)
        * size_mod(is_i32)
    &&& cv(row, cfg.rhs_mul_d.cell) == r * bin_d_val(class, is_i32, l, r)
    &&& cv(row, cfg.normalized_rhs_mul_d.cell) == mag_val(is_i32, r) * bin_d_val(
        class,
        is_i32,
        l,
        r,
    )
    &&& cv(row, cfg.lhs_mul_rhs.cell) == l * r
    &&& cv(row, cfg.aux1_mul_size_modulus.cell) == bin_aux1_val(class, is_i32, l, r) * size_mod(
        is_i32,
    )
    &&& cv(row, cfg.degree_helper1.cell) == bin_dh1_val(class, is_i32, l, r, v)
    &&& cv(row, cfg.degree_helper2.cell) == bin_dh2_val(class, is_i32, l, r, v)
    &&& cfg.memory_table_lookup_stack_write.holds(
        row,
        (MemoryLookupKey {
            location: LocationType::Stack,
            address: (step.sp + lhs_uniarg.pop_val() + rhs_uniarg.pop_val()) as u32,
            eid: step.eid,
            is_i32,
            value: v,
        }),
    )
}

/// The cells of a binary-operation row carry a full witness for the step.
pub open spec fn bin_assigned(
    cfg: BinConfig,
    row: Seq<int>,
    step: StepStatus,
    class: BinOp,
    is_i32: bool,
    l: u64,
    r: u64,
    v: u64,
    lhs_uniarg: UniArg,
    rhs_uniarg: UniArg,
) -> bool {
    &&& bin_assigned_low(cfg, row, class, is_i32, l, r, v)
    &&& bin_assigned_high(cfg, row, step, class, is_i32, l, r, v, lhs_uniarg, rhs_uniarg)
}

/// The opcode cells and both argument slots carry a full witness.
pub open spec fn bin_uniargs_assigned(
    cfg: BinConfig,
    common: EventTableCommonConfig,
    row: Seq<int>,
    step: StepStatus,
    class: BinOp,
    is_i32: bool,
    l: u64,
    r: u64,
    v: u64,
    lhs_uniarg: UniArg,
    rhs_uniarg: UniArg,
) -> bool {
    &&& bin_assigned(cfg, row, step, class, is_i32, l, r, v, lhs_uniarg, rhs_uniarg)
    &&& common.uniarg_configs@[0].assigned(row, rhs_uniarg, is_i32, r, (step.sp + 1) as u32, step.eid)
    &&& common.uniarg_configs@[1].assigned(
        row,
        lhs_uniarg,
        is_i32,
        l,
        (step.sp + 1 + rhs_uniarg.pop_val()) as u32,
        step.eid,
    )
}

/// A row carrying a valid binary-operation witness over an assigned common
/// context: the first argument slot pops the right operand, the second the
/// left.
pub open spec fn bin_row_ok(
    cfg: BinConfig,
    common: EventTableCommonConfig,
    row: Seq<int>,
    step: StepStatus,
    class: BinOp,
    is_i32: bool,
    l: u64,
    r: u64,
    v: u64,
    lhs_uniarg: UniArg,
    rhs_uniarg: UniArg,
) -> bool {
    &&& common_row_ok(common, row, step, rhs_uniarg, is_i32, r, lhs_uniarg, is_i32, l)
    &&& bin_step_ok(step, class, is_i32, l, r, v)
    &&& bin_assigned(cfg, row, step, class, is_i32, l, r, v, lhs_uniarg, rhs_uniarg)
}

/// Every constraint the binary-operation builder registers evaluates to zero
/// on every row that carries a valid witness.
pub open spec fn bin_gate(
    cfg: BinConfig,
    common: EventTableCommonConfig,
    cs: Seq<Constraint>,
    lo: int,
) -> bool {
    forall|
        row: Seq<int>,
        step: StepStatus,
        class: BinOp,
        is_i32: bool,
        l: u64,
        r: u64,
        v: u64,
        lhs_uniarg: UniArg,
        rhs_uniarg: UniArg,
    |
        #[trigger] bin_row_ok(cfg, common, row, step, class, is_i32, l, r, v, lhs_uniarg, rhs_uniarg)
            ==> constraints_zero_range(cs, lo, lo + 20, row)
}

impl BinConfig {
    pub open spec fn base(self) -> int {
        self.lhs.value.limb0_cell as int
    }

    pub open spec fn wf(self) -> bool {
        &&& self.lhs.wf()
        &&& self.rhs.wf()
        &&& self.d.wf()
        &&& self.aux1.wf()
        &&& self.aux2.wf()
        &&& self.rhs.value.limb0_cell == self.base() + 8
        &&& self.d.limb0_cell == self.base() + 16
        &&& self.d_flag_helper_diff.cell == self.base() + 21
        &&& self.aux1.limb0_cell == self.base() + 22
        &&& self.aux2.limb0_cell == self.base() + 27
        &&& self.overflow.cell == self.base() + 32
        &&& self.is_add.cell == self.base() + 33
        &&& self.is_sub.cell == self.base() + 34
        &&& self.is_mul.cell == self.base() + 35
        &&& self.is_div_u.cell == self.base() + 36
        &&& self.is_div_s.cell == self.base() + 37
        &&& self.is_rem_u.cell == self.base() + 38
        &&& self.is_rem_s.cell == self.base() + 39
        &&& self.is_div_s_or_rem_s.cell == self.base() + 40
        &&& self.d_leading_u16.cell == self.base() + 41
        &&& self.normalized_lhs.cell == self.base() + 42
        &&& self.normalized_rhs.cell == self.base() + 43
        &&& self.res_flag.cell == self.base() + 44
        &&& self.size_modulus.cell == self.base() + 45
        &&& self.overflow_mul_size_modulus.cell == self.base() + 46
        &&& self.rhs_mul_d.cell == self.base() + 47
        &&& self.normalized_rhs_mul_d.cell == self.base() + 48
        &&& self.lhs_mul_rhs.cell == self.base() + 49
        &&& self.aux1_mul_size_modulus.cell == self.base() + 50
        &&& self.degree_helper1.cell == self.base() + 51
        &&& self.memory_table_lookup_stack_write.wf()
        &&& self.degree_helper2.cell == self.base() + 52
        &&& self.memory_table_lookup_stack_write.value_cell.cell == self.base() + 53
    }

    pub open spec fn owns(self, i: int) -> bool {
        self.base() <= i <= self.base() + 54
    }
}

/// The quotient of a division form stays below the sign-bit weight whenever
/// the operand signs agree (excluding the overflowing signed quotient), so
/// its leading limb fits in fifteen bits.
pub proof fn lemma_bin_quotient_small(class: BinOp, is_i32: bool, l: u64, r: u64)
    requires
        in_width(is_i32, l),
        in_width(is_i32, r),
        bin_is_div_or_rem(class),
        r != 0,
        bin_is_signed(class) ==> !(l == half_mod(is_i32) && r == size_mod(is_i32) - 1),
        res_flag_val(is_i32, l, r) == 0,
    ensures
        0 <= bin_d_val(class, is_i32, l, r) < half_mod(is_i32),
{
    lemma_flag_and_mag(is_i32, l);
    lemma_flag_and_mag(is_i32, r);
    let h = half_mod(is_i32);
    if class is UnsignedDiv || class is UnsignedRem {
        lemma_fundamental_div_mod(l as int, r as int);
        if flag_of(is_i32, l) == 0 {
            lemma_div_nonincreasing(l as int, r as int);
        } else {
            lemma_div_is_ordered_by_denominator(l as int, h, r as int);
            lemma_div_is_ordered(l as int, size_mod(is_i32) - 1, h);
            if is_i32 {
                assert((0x1_0000_0000int - 1) / 0x8000_0000int == 1);
            } else {
                assert((0x1_0000_0000_0000_0000int - 1) / 0x8000_0000_0000_0000int == 1);
            }
        }
    } else {
        let nl = mag_val(is_i32, l);
        let nr = mag_val(is_i32, r);
        lemma_fundamental_div_mod(nl, nr);
        lemma_div_nonincreasing(nl, nr);
        if flag_of(is_i32, l) == 0 {
            // both operands non-negative: the quotient is at most the left
            // magnitude, itself below the sign-bit weight
        } else {
            // both negative
            if nr == 1 {
                assert(r == size_mod(is_i32) - 1);
                assert(l != half_mod(is_i32));
                assert(nl < h);
                vstd::arithmetic::div_mod::lemma_div_basics(nl);
            } else {
                lemma_div_is_ordered_by_denominator(nl, 2, nr);
                lemma_div_is_ordered(nl, h, 2);
                if is_i32 {
                    assert(0x8000_0000int / 2 == 0x4000_0000int);
                } else {
                    assert(0x8000_0000_0000_0000int / 2 == 0x4000_0000_0000_0000int);
                }
            }
        }
    }
}

/// The wraparound witness of sub: adding the result and the borrow times the
/// size modulus to the subtrahend recovers the minuend.
pub proof fn lemma_sub_witness(n: int, l: int, r: int, v: int)
    requires
        n >= 2,
        0 <= l < n,
        0 <= r < n,
        0 <= v < n,
        v == (l - r) % n,
    ensures
        r + v == l + ((r + v) / n) * n,
        0 <= (r + v) / n <= 1,
{
    lemma_fundamental_div_mod(l - r, n);
    let q = (l - r) / n;
    lemma_mul_is_commutative(n, q);
    lemma_mul_basics(n);
    assert((-q) * n == -(q * n)) by {
        vstd::arithmetic::mul::lemma_mul_unary_negation(q, n);
    }
    if q <= -2 {
        vstd::arithmetic::mul::lemma_mul_inequality(q, -2, n);
        assert(false);
    }
    if q >= 1 {
        vstd::arithmetic::mul::lemma_mul_inequality(1, q, n);
        assert(false);
    }
    lemma_fundamental_div_mod_converse(r + v, n, -q, l);
    lemma_mul_is_commutative(n, -q);
}


/// The exact polynomial each registered constraint expression evaluates to,
/// as a function of the row: the structural link between the expression
/// trees and the opcode's algebra.
pub open spec fn bin_eval_identities(
    cfg: BinConfig,
    common: EventTableCommonConfig,
    cs: Seq<Constraint>,
    lo: int,
) -> bool {
    let lhs = cfg.lhs.value.u64_cell;
    let rhs = cfg.rhs.value.u64_cell;
    let lf = cfg.lhs.flag_bit_cell;
    let rf = cfg.rhs.flag_bit_cell;
    let res = cfg.memory_table_lookup_stack_write.value_cell.cell;
    let t32 = common.uniarg_configs[0].is_i32_cell.cell;
    let du = cfg.d.u64_cell;
    let a1 = cfg.aux1.u64_cell;
    let a2 = cfg.aux2.u64_cell;
    let sm = cfg.size_modulus.cell;
    let rfl = cfg.res_flag.cell;
    &&& common.wf()
    &&& 0 <= lo && cs.len() >= lo + 20
    &&& cs[lo].exprs@.len() == 1
    &&& forall|row: Seq<int>|
        #[trigger] eval(cs[lo].exprs@[0], row) == cv(row, lhs) - u64_compose(row, cfg.lhs.value)
    &&& cs[lo + 1].exprs@.len() == 2
    &&& forall|row: Seq<int>|
        #[trigger] eval(cs[lo + 1].exprs@[0], row) == cv(row, lf) * 0x8000 + cv(
            row,
            cfg.lhs.flag_u16_rem_cell,
        ) - (cv(row, cfg.lhs.value.limb3_cell) + cv(row, t32) * (cv(row, cfg.lhs.value.limb1_cell)
            - cv(row, cfg.lhs.value.limb3_cell)))
    &&& forall|row: Seq<int>|
        #[trigger] eval(cs[lo + 1].exprs@[1], row) == cv(row, cfg.lhs.flag_u16_rem_cell) + cv(
            row,
            cfg.lhs.flag_u16_rem_diff_cell,
        ) - 0x7fff
    &&& cs[lo + 2].exprs@.len() == 1
    &&& forall|row: Seq<int>|
        #[trigger] eval(cs[lo + 2].exprs@[0], row) == cv(row, rhs) - u64_compose(row, cfg.rhs.value)
    &&& cs[lo + 3].exprs@.len() == 2
    &&& forall|row: Seq<int>|
        #[trigger] eval(cs[lo + 3].exprs@[0], row) == cv(row, rf) * 0x8000 + cv(
            row,
            cfg.rhs.flag_u16_rem_cell,
        ) - (cv(row, cfg.rhs.value.limb3_cell) + cv(row, t32) * (cv(row, cfg.rhs.value.limb1_cell)
            - cv(row, cfg.rhs.value.limb3_cell)))
    &&& forall|row: Seq<int>|
        #[trigger] eval(cs[lo + 3].exprs@[1], row) == cv(row, cfg.rhs.flag_u16_rem_cell) + cv(
            row,
            cfg.rhs.flag_u16_rem_diff_cell,
        ) - 0x7fff
    &&& cs[lo + 4].exprs@.len() == 3
    &&& forall|row: Seq<int>|
        #[trigger] eval(cs[lo + 4].exprs@[0], row) == cv(row, t32) - cv(
            row,
            common.uniarg_configs[1].is_i32_cell.cell,
        )
    &&& forall|row: Seq<int>|
        #[trigger] eval(cs[lo + 4].exprs@[1], row) == cv(
            row,
            common.uniarg_configs[0].value_cell.cell,
        ) - cv(row, rhs)
    &&& forall|row: Seq<int>|
        #[trigger] eval(cs[lo + 4].exprs@[2], row) == cv(
            row,
            common.uniarg_configs[1].value_cell.cell,
        ) - cv(row, lhs)
    &&& cs[lo + 5].exprs@.len() == 1
    &&& forall|row: Seq<int>|
        #[trigger] eval(cs[lo + 5].exprs@[0], row) == cv(row, du) - u64_compose(row, cfg.d)
    &&& cs[lo + 6].exprs@.len() == 1
    &&& forall|row: Seq<int>|
        #[trigger] eval(cs[lo + 6].exprs@[0], row) == cv(row, a1) - u64_compose(row, cfg.aux1)
    &&& cs[lo + 7].exprs@.len() == 1
    &&& forall|row: Seq<int>|
        #[trigger] eval(cs[lo + 7].exprs@[0], row) == cv(row, a2) - u64_compose(row, cfg.aux2)
    &&& cs[lo + 8].exprs@.len() == 1
    &&& forall|row: Seq<int>|
        #[trigger] eval(cs[lo + 8].exprs@[0], row) == cv(
            row,
            cfg.memory_table_lookup_stack_write.encoded_cell.cell,
        ) - crate::encode::memory_key_val(
            1,
            cv(row, common.sp_cell.cell) + cv(row, common.uniarg_configs[0].is_pop_cell.cell) + cv(
                row,
                common.uniarg_configs[1].is_pop_cell.cell,
            ),
            cv(row, common.eid_cell.cell),
            cv(row, t32),
            cv(row, res),
        )
    &&& cs[lo + 9].exprs@.len() == 1
    &&& forall|row: Seq<int>|
        #[trigger] eval(cs[lo + 9].exprs@[0], row) == cv(row, cfg.is_add.cell) + cv(
            row,
            cfg.is_sub.cell,
        ) + cv(row, cfg.is_mul.cell) + cv(row, cfg.is_div_u.cell) + cv(row, cfg.is_rem_u.cell)
            + cv(row, cfg.is_div_s.cell) + cv(row, cfg.is_rem_s.cell) - 1
    &&& cs[lo + 10].exprs@.len() == 1
    &&& forall|row: Seq<int>|
        #[trigger] eval(cs[lo + 10].exprs@[0], row) == cv(row, sm) - 0x1_0000_0000_0000_0000 + cv(
            row,
            t32,
        ) * 0xffff_ffff_0000_0000
    &&& cs[lo + 11].exprs@.len() == 3
    &&& forall|row: Seq<int>|
        #[trigger] eval(cs[lo + 11].exprs@[0], row) == cv(
            row,
            cfg.overflow_mul_size_modulus.cell,
        ) - cv(row, cfg.overflow.cell) * cv(row, sm)
    &&& forall|row: Seq<int>|
        #[trigger] eval(cs[lo + 11].exprs@[1], row) == cv(
            row,
            cfg.aux1_mul_size_modulus.cell,
        ) - cv(row, a1) * cv(row, sm)
    &&& forall|row: Seq<int>|
        #[trigger] eval(cs[lo + 11].exprs@[2], row) == cv(
            row,
            cfg.normalized_rhs_mul_d.cell,
        ) - cv(row, cfg.normalized_rhs.cell) * cv(row, du)
    &&& cs[lo + 12].exprs@.len() == 1
    &&& forall|row: Seq<int>|
        #[trigger] eval(cs[lo + 12].exprs@[0], row) == (cv(row, lhs) + cv(row, rhs) - cv(row, res)
            - cv(row, cfg.overflow_mul_size_modulus.cell)) * cv(row, cfg.is_add.cell)
    &&& cs[lo + 13].exprs@.len() == 1
    &&& forall|row: Seq<int>|
        #[trigger] eval(cs[lo + 13].exprs@[0], row) == (cv(row, rhs) + cv(row, res) - cv(row, lhs)
            - cv(row, cfg.overflow_mul_size_modulus.cell)) * cv(row, cfg.is_sub.cell)
    &&& cs[lo + 14].exprs@.len() == 2
    &&& forall|row: Seq<int>|
        #[trigger] eval(cs[lo + 14].exprs@[0], row) == cv(row, cfg.lhs_mul_rhs.cell) - cv(row, lhs)
            * cv(row, rhs)
    &&& forall|row: Seq<int>|
        #[trigger] eval(cs[lo + 14].exprs@[1], row) == (cv(row, cfg.lhs_mul_rhs.cell) - cv(
            row,
            cfg.aux1_mul_size_modulus.cell,
        ) - cv(row, res)) * cv(row, cfg.is_mul.cell)
    &&& cs[lo + 15].exprs@.len() == 5
    &&& forall|row: Seq<int>|
        #[trigger] eval(cs[lo + 15].exprs@[0], row) == cv(row, cfg.rhs_mul_d.cell) - cv(row, rhs)
            * cv(row, du)
    &&& forall|row: Seq<int>|
        #[trigger] eval(cs[lo + 15].exprs@[1], row) == (cv(row, lhs) - cv(row, cfg.rhs_mul_d.cell)
            - cv(row, a1)) * (cv(row, cfg.is_rem_u.cell) + cv(row, cfg.is_div_u.cell))
    &&& forall|row: Seq<int>|
        #[trigger] eval(cs[lo + 15].exprs@[2], row) == (cv(row, a1) + cv(row, a2) + 1 - cv(
            row,
            rhs,
        )) * (cv(row, cfg.is_rem_u.cell) + cv(row, cfg.is_div_u.cell))
    &&& forall|row: Seq<int>|
        #[trigger] eval(cs[lo + 15].exprs@[3], row) == (cv(row, res) - cv(row, du)) * cv(
            row,
            cfg.is_div_u.cell,
        )
    &&& forall|row: Seq<int>|
        #[trigger] eval(cs[lo + 15].exprs@[4], row) == (cv(row, res) - cv(row, a1)) * cv(
            row,
            cfg.is_rem_u.cell,
        )
    &&& cs[lo + 16].exprs@.len() == 1
    &&& forall|row: Seq<int>|
        #[trigger] eval(cs[lo + 16].exprs@[0], row) == cv(row, rfl) - (cv(row, lf) + cv(row, rf)
            - (2 * cv(row, lf)) * cv(row, rf))
    &&& cs[lo + 17].exprs@.len() == 7
    &&& forall|row: Seq<int>|
        #[trigger] eval(cs[lo + 17].exprs@[0], row) == cv(row, cfg.is_div_s_or_rem_s.cell) - (cv(
            row,
            cfg.is_div_s.cell,
        ) + cv(row, cfg.is_rem_s.cell))
    &&& forall|row: Seq<int>|
        #[trigger] eval(cs[lo + 17].exprs@[1], row) == cv(row, cfg.normalized_lhs.cell) - (cv(
            row,
            lhs,
        ) * (1 - cv(row, lf)) + (cv(row, sm) - cv(row, lhs)) * cv(row, lf))
    &&& forall|row: Seq<int>|
        #[trigger] eval(cs[lo + 17].exprs@[2], row) == cv(row, cfg.normalized_rhs.cell) - (cv(
            row,
            rhs,
        ) * (1 - cv(row, rf)) + (cv(row, sm) - cv(row, rhs)) * cv(row, rf))
    &&& forall|row: Seq<int>|
        #[trigger] eval(cs[lo + 17].exprs@[3], row) == cv(row, cfg.d_leading_u16.cell) - (cv(
            row,
            cfg.d.limb3_cell,
        ) + cv(row, t32) * (cv(row, cfg.d.limb1_cell) - cv(row, cfg.d.limb3_cell)))
    &&& forall|row: Seq<int>|
        #[trigger] eval(cs[lo + 17].exprs@[4], row) == (cv(row, cfg.d_leading_u16.cell) + cv(
            row,
            cfg.d_flag_helper_diff.cell,
        ) - 0x7fff) * (1 - cv(row, rfl))
    &&& forall|row: Seq<int>|
        #[trigger] eval(cs[lo + 17].exprs@[5], row) == (cv(row, cfg.normalized_lhs.cell) - cv(
            row,
            cfg.normalized_rhs_mul_d.cell,
        ) - cv(row, a1)) * cv(row, cfg.is_div_s_or_rem_s.cell)
    &&& forall|row: Seq<int>|
        #[trigger] eval(cs[lo + 17].exprs@[6], row) == (cv(row, a1) + cv(row, a2) + 1 - cv(
            row,
            cfg.normalized_rhs.cell,
        )) * cv(row, cfg.is_div_s_or_rem_s.cell)
    &&& cs[lo + 18].exprs@.len() == 3
    &&& forall|row: Seq<int>|
        #[trigger] eval(cs[lo + 18].exprs@[0], row) == ((cv(row, res) - cv(row, du)) * (1 - cv(
            row,
            rfl,
        ))) * cv(row, cfg.is_div_s.cell)
    &&& forall|row: Seq<int>|
        #[trigger] eval(cs[lo + 18].exprs@[1], row) == (cv(row, cfg.degree_helper1.cell) - (cv(
            row,
            du,
        ) + cv(row, res)) * cv(row, rfl)) * cv(row, cfg.is_div_s.cell)
    &&& forall|row: Seq<int>|
        #[trigger] eval(cs[lo + 18].exprs@[2], row) == ((cv(row, res) + cv(row, du) - cv(row, sm))
            * cv(row, cfg.degree_helper1.cell)) * cv(row, cfg.is_div_s.cell)
    &&& cs[lo + 19].exprs@.len() == 3
    &&& forall|row: Seq<int>|
        #[trigger] eval(cs[lo + 19].exprs@[0], row) == ((cv(row, res) - cv(row, a1)) * (1 - cv(
            row,
            lf,
        ))) * cv(row, cfg.is_rem_s.cell)
    &&& forall|row: Seq<int>|
        #[trigger] eval(cs[lo + 19].exprs@[1], row) == (cv(row, cfg.degree_helper2.cell) - (cv(
            row,
            a1,
        ) + cv(row, res)) * cv(row, lf)) * cv(row, cfg.is_rem_s.cell)
    &&& forall|row: Seq<int>|
        #[trigger] eval(cs[lo + 19].exprs@[2], row) == ((cv(row, res) + cv(row, a1) - cv(row, sm))
            * cv(row, cfg.degree_helper2.cell)) * cv(row, cfg.is_rem_s.cell)
}

/// The kinds this opcode's cells occupy, in allocation order.
pub open spec fn bin_cell_kinds() -> Seq<crate::allocator::CellKind> {
    crate::allocator::u64_flag_cell_kinds() + crate::allocator::u64_flag_cell_kinds()
        + crate::allocator::u64_cell_kinds() + seq![crate::allocator::CellKind::CommonRange]
        + crate::allocator::u64_cell_kinds() + crate::allocator::u64_cell_kinds() + seq![
        crate::allocator::CellKind::Bit,
        crate::allocator::CellKind::Bit,
        crate::allocator::CellKind::Bit,
        crate::allocator::CellKind::Bit,
        crate::allocator::CellKind::Bit,
        crate::allocator::CellKind::Bit,
        crate::allocator::CellKind::Bit,
        crate::allocator::CellKind::Bit,
        crate::allocator::CellKind::Bit,
        crate::allocator::CellKind::Unlimited,
        crate::allocator::CellKind::Unlimited,
        crate::allocator::CellKind::Unlimited,
        crate::allocator::CellKind::Unlimited,
        crate::allocator::CellKind::Unlimited,
        crate::allocator::CellKind::Unlimited,
        crate::allocator::CellKind::Unlimited,
        crate::allocator::CellKind::Unlimited,
        crate::allocator::CellKind::Unlimited,
        crate::allocator::CellKind::Unlimited,
        crate::allocator::CellKind::Unlimited,
        crate::allocator::CellKind::Unlimited,
        crate::allocator::CellKind::Unlimited,
        crate::allocator::CellKind::Unlimited,
    ]
}

impl BinConfigBuilder {
    /// Declare the cells and constraints of the arithmetic binary opcodes.
    #[verifier::rlimit(100)]
    pub fn configure(
        common: &EventTableCommonConfig,
        alloc: &mut CellAllocator,
        cb: &mut ConstraintBuilder,
    ) -> (cfg: BinConfig)
        requires
            common.wf(),
        ensures
            cfg.wf(),
            cfg.base() == old(alloc).count(),
            final(alloc).count() == old(alloc).count() + 55,
            final(alloc).kinds@ == old(alloc).kinds@ + bin_cell_kinds(),
            final(cb).constraints@.len() == old(cb).constraints@.len() + 20,
            forall|j: int|
                0 <= j < old(cb).constraints@.len() ==> final(cb).constraints@[j] == old(
                    cb,
                ).constraints@[j],
            bin_eval_identities(
                cfg,
                *common,
                final(cb).constraints@,
                old(cb).constraints@.len() as int,
            ),
            bin_gate(cfg, *common, final(cb).constraints@, old(cb).constraints@.len() as int),
    {
        let ghost lo = cb.constraints@.len() as int;
        let rhs_arg = common.uniarg_configs[0];
        let lhs_arg = common.uniarg_configs[1];
        let is_i32_cell = rhs_arg.is_i32_cell.cell;
        let lhs = alloc.alloc_u64_with_flag_bit_cell_dyn(cb, is_i32_cell);
        let rhs = alloc.alloc_u64_with_flag_bit_cell_dyn(cb, is_i32_cell);
        let mut u_exprs: Vec<Expr> = Vec::new();
        let e_u0 = Expr::cell(rhs_arg.is_i32_cell.cell).minus(Expr::cell(lhs_arg.is_i32_cell.cell));
        let e_u1 = Expr::cell(rhs_arg.value_cell.cell).minus(Expr::cell(rhs.value.u64_cell));
        let e_u2 = Expr::cell(lhs_arg.value_cell.cell).minus(Expr::cell(lhs.value.u64_cell));
        u_exprs.push(e_u0);
        u_exprs.push(e_u1);
        u_exprs.push(e_u2);
        cb.push("op_bin: uniarg", u_exprs);
        let d = alloc.alloc_u64_cell(cb);
        let d_flag_helper_diff = alloc.alloc_common_range_cell();
        let aux1 = alloc.alloc_u64_cell(cb);
        let aux2 = alloc.alloc_u64_cell(cb);
        let overflow = alloc.alloc_bit_cell();
        let is_add = alloc.alloc_bit_cell();
        let is_sub = alloc.alloc_bit_cell();
        let is_mul = alloc.alloc_bit_cell();
        let is_div_u = alloc.alloc_bit_cell();
        let is_div_s = alloc.alloc_bit_cell();
        let is_rem_u = alloc.alloc_bit_cell();
        let is_rem_s = alloc.alloc_bit_cell();
        let is_div_s_or_rem_s = alloc.alloc_bit_cell();
        let d_leading_u16 = alloc.alloc_unlimited_cell();
        let normalized_lhs = alloc.alloc_unlimited_cell();
        let normalized_rhs = alloc.alloc_unlimited_cell();
        let res_flag = alloc.alloc_unlimited_cell();
        let size_modulus = alloc.alloc_unlimited_cell();
        let overflow_mul_size_modulus = alloc.alloc_unlimited_cell();
        let rhs_mul_d = alloc.alloc_unlimited_cell();
        let normalized_rhs_mul_d = alloc.alloc_unlimited_cell();
        let lhs_mul_rhs = alloc.alloc_unlimited_cell();
        let aux1_mul_size_modulus = alloc.alloc_unlimited_cell();
        let degree_helper1 = alloc.alloc_unlimited_cell();
        let degree_helper2 = alloc.alloc_unlimited_cell();
        let memory_table_lookup_stack_write = alloc.alloc_memory_table_lookup_write_cell_with_value(
            "op_bin stack write",
            cb,
            LocationType::Stack,
            Expr::cell(common.sp_cell.cell).plus(
                Expr::cell(common.uniarg_configs[0].is_pop_cell.cell),
            ).plus(Expr::cell(common.uniarg_configs[1].is_pop_cell.cell)),
            Expr::cell(common.eid_cell.cell),
            Expr::cell(is_i32_cell),
        );
        let res_cell = memory_table_lookup_stack_write.value_cell.cell;
        let mut sel_exprs: Vec<Expr> = Vec::new();
        let e_sel = Expr::cell(is_add.cell).plus(Expr::cell(is_sub.cell)).plus(
            Expr::cell(is_mul.cell),
        ).plus(Expr::cell(is_div_u.cell)).plus(Expr::cell(is_rem_u.cell)).plus(
            Expr::cell(is_div_s.cell),
        ).plus(Expr::cell(is_rem_s.cell)).minus(Expr::constant(1));
        sel_exprs.push(e_sel);
        cb.push("bin: selector", sel_exprs);
        let mut sm_exprs: Vec<Expr> = Vec::new();
        let e_sm = Expr::cell(size_modulus.cell).minus(
            Expr::constant(0x1_0000_0000_0000_0000),
        ).plus(Expr::cell(is_i32_cell).times(Expr::constant(0xffff_ffff_0000_0000)));
        sm_exprs.push(e_sm);
        cb.push("bin: size modulus", sm_exprs);
        let mut dg_exprs: Vec<Expr> = Vec::new();
        let e_g0 = Expr::cell(overflow_mul_size_modulus.cell).minus(
            Expr::cell(overflow.cell).times(Expr::cell(size_modulus.cell)),
        );
        let e_g1 = Expr::cell(aux1_mul_size_modulus.cell).minus(
            Expr::cell(aux1.u64_cell).times(Expr::cell(size_modulus.cell)),
        );
        let e_g2 = Expr::cell(normalized_rhs_mul_d.cell).minus(
            Expr::cell(normalized_rhs.cell).times(Expr::cell(d.u64_cell)),
        );
        dg_exprs.push(e_g0);
        dg_exprs.push(e_g1);
        dg_exprs.push(e_g2);
        cb.push("bin: degree helper", dg_exprs);
        let mut add_exprs: Vec<Expr> = Vec::new();
        let e_add = Expr::cell(lhs.value.u64_cell).plus(Expr::cell(rhs.value.u64_cell)).minus(
            Expr::cell(res_cell),
        ).minus(Expr::cell(overflow_mul_size_modulus.cell)).times(Expr::cell(is_add.cell));
        add_exprs.push(e_add);
        cb.push("c.bin.add", add_exprs);
        let mut sub_exprs: Vec<Expr> = Vec::new();
        let e_sub = Expr::cell(rhs.value.u64_cell).plus(Expr::cell(res_cell)).minus(
            Expr::cell(lhs.value.u64_cell),
        ).minus(Expr::cell(overflow_mul_size_modulus.cell)).times(Expr::cell(is_sub.cell));
        sub_exprs.push(e_sub);
        cb.push("c.bin.sub", sub_exprs);
        let mut mul_exprs: Vec<Expr> = Vec::new();
        let e_m0 = Expr::cell(lhs_mul_rhs.cell).minus(
            Expr::cell(lhs.value.u64_cell).times(Expr::cell(rhs.value.u64_cell)),
        );
        let e_m1 = Expr::cell(lhs_mul_rhs.cell).minus(Expr::cell(aux1_mul_size_modulus.cell)).minus(
            Expr::cell(res_cell),
        ).times(Expr::cell(is_mul.cell));
        mul_exprs.push(e_m0);
        mul_exprs.push(e_m1);
        cb.push("bin: mul constraints", mul_exprs);
        let mut du_exprs: Vec<Expr> = Vec::new();
        let e_d0 = Expr::cell(rhs_mul_d.cell).minus(
            Expr::cell(rhs.value.u64_cell).times(Expr::cell(d.u64_cell)),
        );
        let e_d1 = Expr::cell(lhs.value.u64_cell).minus(Expr::cell(rhs_mul_d.cell)).minus(
            Expr::cell(aux1.u64_cell),
        ).times(Expr::cell(is_rem_u.cell).plus(Expr::cell(is_div_u.cell)));
        let e_d2 = Expr::cell(aux1.u64_cell).plus(Expr::cell(aux2.u64_cell)).plus(
            Expr::constant(1),
        ).minus(Expr::cell(rhs.value.u64_cell)).times(
            Expr::cell(is_rem_u.cell).plus(Expr::cell(is_div_u.cell)),
        );
        let e_d3 = Expr::cell(res_cell).minus(Expr::cell(d.u64_cell)).times(
            Expr::cell(is_div_u.cell),
        );
        let e_d4 = Expr::cell(res_cell).minus(Expr::cell(aux1.u64_cell)).times(
            Expr::cell(is_rem_u.cell),
        );
        du_exprs.push(e_d0);
        du_exprs.push(e_d1);
        du_exprs.push(e_d2);
        du_exprs.push(e_d3);
        du_exprs.push(e_d4);
        cb.push("bin: div_u/rem_u constraints", du_exprs);
        let mut rf_exprs: Vec<Expr> = Vec::new();
        let e_rf = Expr::cell(res_flag.cell).minus(
            Expr::cell(lhs.flag_bit_cell).plus(Expr::cell(rhs.flag_bit_cell)).minus(
                Expr::constant(2).times(Expr::cell(lhs.flag_bit_cell)).times(
                    Expr::cell(rhs.flag_bit_cell),
                ),
            ),
        );
        rf_exprs.push(e_rf);
        cb.push("bin: res flag", rf_exprs);
        let mut sc_exprs: Vec<Expr> = Vec::new();
        let e_s0 = Expr::cell(is_div_s_or_rem_s.cell).minus(
            Expr::cell(is_div_s.cell).plus(Expr::cell(is_rem_s.cell)),
        );
        let e_s1 = Expr::cell(normalized_lhs.cell).minus(
            Expr::cell(lhs.value.u64_cell).times(
                Expr::constant(1).minus(Expr::cell(lhs.flag_bit_cell)),
            ).plus(
                Expr::cell(size_modulus.cell).minus(Expr::cell(lhs.value.u64_cell)).times(
                    Expr::cell(lhs.flag_bit_cell),
                ),
            ),
        );
        let e_s2 = Expr::cell(normalized_rhs.cell).minus(
            Expr::cell(rhs.value.u64_cell).times(
                Expr::constant(1).minus(Expr::cell(rhs.flag_bit_cell)),
            ).plus(
                Expr::cell(size_modulus.cell).minus(Expr::cell(rhs.value.u64_cell)).times(
                    Expr::cell(rhs.flag_bit_cell),
                ),
            ),
        );
        let e_s3 = Expr::cell(d_leading_u16.cell).minus(
            Expr::cell(d.limb3_cell).plus(
                Expr::cell(is_i32_cell).times(
                    Expr::cell(d.limb1_cell).minus(Expr::cell(d.limb3_cell)),
                ),
            ),
        );
        let e_s4 = Expr::cell(d_leading_u16.cell).plus(Expr::cell(d_flag_helper_diff.cell)).minus(
            Expr::constant(0x7fff),
        ).times(Expr::constant(1).minus(Expr::cell(res_flag.cell)));
        let e_s5 = Expr::cell(normalized_lhs.cell).minus(Expr::cell(normalized_rhs_mul_d.cell)).minus(
            Expr::cell(aux1.u64_cell),
        ).times(Expr::cell(is_div_s_or_rem_s.cell));
        let e_s6 = Expr::cell(aux1.u64_cell).plus(Expr::cell(aux2.u64_cell)).plus(
            Expr::constant(1),
        ).minus(Expr::cell(normalized_rhs.cell)).times(Expr::cell(is_div_s_or_rem_s.cell));
        sc_exprs.push(e_s0);
        sc_exprs.push(e_s1);
        sc_exprs.push(e_s2);
        sc_exprs.push(e_s3);
        sc_exprs.push(e_s4);
        sc_exprs.push(e_s5);
        sc_exprs.push(e_s6);
        cb.push("bin: div_s/rem_s constraints common", sc_exprs);
        let mut dv_exprs: Vec<Expr> = Vec::new();
        let e_v0 = Expr::cell(res_cell).minus(Expr::cell(d.u64_cell)).times(
            Expr::constant(1).minus(Expr::cell(res_flag.cell)),
        ).times(Expr::cell(is_div_s.cell));
        let e_v1 = Expr::cell(degree_helper1.cell).minus(
            Expr::cell(d.u64_cell).plus(Expr::cell(res_cell)).times(Expr::cell(res_flag.cell)),
        ).times(Expr::cell(is_div_s.cell));
        let e_v2 = Expr::cell(res_cell).plus(Expr::cell(d.u64_cell)).minus(
            Expr::cell(size_modulus.cell),
        ).times(Expr::cell(degree_helper1.cell)).times(Expr::cell(is_div_s.cell));
        dv_exprs.push(e_v0);
        dv_exprs.push(e_v1);
        dv_exprs.push(e_v2);
        cb.push("bin: div_s constraints res", dv_exprs);
        let mut rs_exprs: Vec<Expr> = Vec::new();
        let e_w0 = Expr::cell(res_cell).minus(Expr::cell(aux1.u64_cell)).times(
            Expr::constant(1).minus(Expr::cell(lhs.flag_bit_cell)),
        ).times(Expr::cell(is_rem_s.cell));
        let e_w1 = Expr::cell(degree_helper2.cell).minus(
            Expr::cell(aux1.u64_cell).plus(Expr::cell(res_cell)).times(
                Expr::cell(lhs.flag_bit_cell),
            ),
        ).times(Expr::cell(is_rem_s.cell));
        let e_w2 = Expr::cell(res_cell).plus(Expr::cell(aux1.u64_cell)).minus(
            Expr::cell(size_modulus.cell),
        ).times(Expr::cell(degree_helper2.cell)).times(Expr::cell(is_rem_s.cell));
        rs_exprs.push(e_w0);
        rs_exprs.push(e_w1);
        rs_exprs.push(e_w2);
        cb.push("bin: rem_s constraints res", rs_exprs);
        let cfg = BinConfig {
            lhs,
            rhs,
            d,
            d_flag_helper_diff,
            aux1,
            aux2,
            overflow,
            is_add,
            is_sub,
            is_mul,
            is_div_u,
            is_div_s,
            is_rem_u,
            is_rem_s,
            is_div_s_or_rem_s,
            d_leading_u16,
            normalized_lhs,
            normalized_rhs,
            res_flag,
            size_modulus,
            overflow_mul_size_modulus,
            rhs_mul_d,
            normalized_rhs_mul_d,
            lhs_mul_rhs,
            aux1_mul_size_modulus,
            degree_helper1,
            degree_helper2,
            memory_table_lookup_stack_write,
        };
        proof {
            assert(alloc.kinds@ =~= old(alloc).kinds@ + bin_cell_kinds());
            assert(bin_eval_identities(cfg, *common, cb.constraints@, lo));
            lemma_bin_gate(cfg, *common, cb.constraints@, lo);
        }
        cfg
    }
}

/// The arithmetic facts of one valid binary-operation row: every constraint
/// polynomial vanishes on the witness values.
pub proof fn lemma_bin_row_arith(
    cfg: BinConfig,
    common: EventTableCommonConfig,
    row: Seq<int>,
    step: StepStatus,
    class: BinOp,
    is_i32: bool,
    l: u64,
    r: u64,
    v: u64,
    lua: UniArg,
    rua: UniArg,
)
    requires
        bin_row_ok(cfg, common, row, step, class, is_i32, l, r, v, lua, rua),
    ensures
        0 <= bin_d_val(class, is_i32, l, r) < 0x1_0000_0000_0000_0000,
        0 <= bin_aux1_val(class, is_i32, l, r) < 0x1_0000_0000_0000_0000,
        0 <= bin_aux2_val(class, is_i32, l, r) < 0x1_0000_0000_0000_0000,
        0 <= bin_overflow_val(class, is_i32, l, r, v) <= 1,
        (l + r - v - bin_overflow_val(class, is_i32, l, r, v) * size_mod(is_i32)) * cv(
            row,
            cfg.is_add.cell,
        ) == 0,
        (r + v - l - bin_overflow_val(class, is_i32, l, r, v) * size_mod(is_i32)) * cv(
            row,
            cfg.is_sub.cell,
        ) == 0,
        (l * r - bin_aux1_val(class, is_i32, l, r) * size_mod(is_i32) - v) * cv(
            row,
            cfg.is_mul.cell,
        ) == 0,
        (l - r * bin_d_val(class, is_i32, l, r) - bin_aux1_val(class, is_i32, l, r)) * (cv(
            row,
            cfg.is_rem_u.cell,
        ) + cv(row, cfg.is_div_u.cell)) == 0,
        (bin_aux1_val(class, is_i32, l, r) + bin_aux2_val(class, is_i32, l, r) + 1 - r) * (cv(
            row,
            cfg.is_rem_u.cell,
        ) + cv(row, cfg.is_div_u.cell)) == 0,
        (v - bin_d_val(class, is_i32, l, r)) * cv(row, cfg.is_div_u.cell) == 0,
        (v - bin_aux1_val(class, is_i32, l, r)) * cv(row, cfg.is_rem_u.cell) == 0,
        res_flag_val(is_i32, l, r) - (flag_of(is_i32, l) + flag_of(is_i32, r) - (2 * flag_of(
            is_i32,
            l,
        )) * flag_of(is_i32, r)) == 0,
        mag_val(is_i32, l) - (l * (1 - flag_of(is_i32, l)) + (size_mod(is_i32) - l) * flag_of(
            is_i32,
            l,
        )) == 0,
        mag_val(is_i32, r) - (r * (1 - flag_of(is_i32, r)) + (size_mod(is_i32) - r) * flag_of(
            is_i32,
            r,
        )) == 0,
        bin_d_leading_val(class, is_i32, l, r) - (limbv(bin_d_val(class, is_i32, l, r), 3)
            + bit_val(is_i32) * (limbv(bin_d_val(class, is_i32, l, r), 1) - limbv(
            bin_d_val(class, is_i32, l, r),
            3,
        ))) == 0,
        (bin_d_leading_val(class, is_i32, l, r) + bin_helper_diff_val(class, is_i32, l, r)
            - 0x7fff) * (1 - res_flag_val(is_i32, l, r)) == 0,
        (mag_val(is_i32, l) - mag_val(is_i32, r) * bin_d_val(class, is_i32, l, r) - bin_aux1_val(
            class,
            is_i32,
            l,
            r,
        )) * cv(row, cfg.is_div_s_or_rem_s.cell) == 0,
        (bin_aux1_val(class, is_i32, l, r) + bin_aux2_val(class, is_i32, l, r) + 1 - mag_val(
            is_i32,
            r,
        )) * cv(row, cfg.is_div_s_or_rem_s.cell) == 0,
        ((v - bin_d_val(class, is_i32, l, r)) * (1 - res_flag_val(is_i32, l, r))) * cv(
            row,
            cfg.is_div_s.cell,
        ) == 0,
        (bin_dh1_val(class, is_i32, l, r, v) - (bin_d_val(class, is_i32, l, r) + v) * res_flag_val(
            is_i32,
            l,
            r,
        )) * cv(row, cfg.is_div_s.cell) == 0,
        ((v + bin_d_val(class, is_i32, l, r) - size_mod(is_i32)) * bin_dh1_val(
            class,
            is_i32,
            l,
            r,
            v,
        )) * cv(row, cfg.is_div_s.cell) == 0,
        ((v - bin_aux1_val(class, is_i32, l, r)) * (1 - flag_of(is_i32, l))) * cv(
            row,
            cfg.is_rem_s.cell,
        ) == 0,
        (bin_dh2_val(class, is_i32, l, r, v) - (bin_aux1_val(class, is_i32, l, r) + v) * flag_of(
            is_i32,
            l,
        )) * cv(row, cfg.is_rem_s.cell) == 0,
        ((v + bin_aux1_val(class, is_i32, l, r) - size_mod(is_i32)) * bin_dh2_val(
            class,
            is_i32,
            l,
            r,
            v,
        )) * cv(row, cfg.is_rem_s.cell) == 0,
{
    let n = size_mod(is_i32);
    let dv = bin_d_val(class, is_i32, l, r);
    let a1 = bin_aux1_val(class, is_i32, l, r);
    let a2 = bin_aux2_val(class, is_i32, l, r);
    let ov = bin_overflow_val(class, is_i32, l, r, v);
    let rfv = res_flag_val(is_i32, l, r);
    let lfv = flag_of(is_i32, l);
    let rgv = flag_of(is_i32, r);
    let nl = mag_val(is_i32, l);
    let nr = mag_val(is_i32, r);
    let dlv = bin_d_leading_val(class, is_i32, l, r);
    let hdv = bin_helper_diff_val(class, is_i32, l, r);
    let dh1v = bin_dh1_val(class, is_i32, l, r, v);
    let dh2v = bin_dh2_val(class, is_i32, l, r, v);
    lemma_flag_and_mag(is_i32, l);
    lemma_flag_and_mag(is_i32, r);
    lemma_u64_limbs(dv as u64);
    lemma_mul_basics(l + r - v - ov * n);
    lemma_mul_basics(r + v - l - ov * n);
    lemma_mul_basics(l * r - a1 * n - v);
    lemma_mul_basics(l - r * dv - a1);
    lemma_mul_basics(a1 + a2 + 1 - r);
    lemma_mul_basics(v - dv);
    lemma_mul_basics(v - a1);
    lemma_mul_basics(l as int);
    lemma_mul_basics(n - l);
    lemma_mul_basics(r as int);
    lemma_mul_basics(n - r);
    lemma_mul_basics(rgv);
    lemma_mul_basics(2 * lfv);
    lemma_mul_basics(limbv(dv, 1) - limbv(dv, 3));
    lemma_mul_basics(dlv + hdv - 0x7fff);
    lemma_mul_basics(1 - rfv);
    lemma_mul_basics(nl - nr * dv - a1);
    lemma_mul_basics(a1 + a2 + 1 - nr);
    lemma_mul_basics((v - dv) * (1 - rfv));
    lemma_mul_basics(dh1v - (dv + v) * rfv);
    lemma_mul_basics(dv + v);
    lemma_mul_basics(v + dv - n);
    lemma_mul_basics((v + dv - n) * dh1v);
    lemma_mul_basics(dh1v);
    lemma_mul_basics((v - a1) * (1 - lfv));
    lemma_mul_basics(1 - lfv);
    lemma_mul_basics(dh2v - (a1 + v) * lfv);
    lemma_mul_basics(a1 + v);
    lemma_mul_basics(v + a1 - n);
    lemma_mul_basics((v + a1 - n) * dh2v);
    lemma_mul_basics(dh2v);
    lemma_mul_basics(lfv);
    match class {
        BinOp::Add => {
            lemma_fundamental_div_mod(l + r, n);
            lemma_mul_is_commutative(n, ov);
            if ov >= 2 {
                vstd::arithmetic::mul::lemma_mul_inequality(2, ov, n);
                assert(false);
            }
            if ov < 0 {
                vstd::arithmetic::mul::lemma_mul_inequality(ov, -1, n);
                assert(false);
            }
        },
        BinOp::Sub => {
            lemma_sub_witness(n, l as int, r as int, v as int);
        },
        BinOp::Mul => {
            lemma_mul_fits(is_i32, l, r);
            lemma_mul_is_commutative(n, a1);
        },
        BinOp::UnsignedDiv | BinOp::UnsignedRem => {
            lemma_fundamental_div_mod(l as int, r as int);
            lemma_div_rem_u(l, r);
            lemma_mul_is_commutative(r as int, dv);
            lemma_div_nonincreasing(l as int, r as int);
            if rfv == 0 {
                lemma_bin_quotient_small(class, is_i32, l, r);
                lemma_quotient_leading(is_i32, dv as u64);
            }
        },
        BinOp::SignedDiv | BinOp::SignedRem => {
            lemma_fundamental_div_mod(nl, nr);
            vstd::arithmetic::div_mod::lemma_mod_division_less_than_divisor(nl, nr);
            lemma_mul_is_commutative(nr, dv);
            lemma_div_nonincreasing(nl, nr);
            vstd::arithmetic::div_mod::lemma_div_pos_is_pos(nl, nr);
            if rfv == 0 {
                lemma_bin_quotient_small(class, is_i32, l, r);
                lemma_quotient_leading(is_i32, dv as u64);
            }
        },
    }
}

/// The first half of the registered constraints hold on a valid row.
#[verifier::rlimit(100)]
pub proof fn lemma_bin_gate_low(
    cfg: BinConfig,
    common: EventTableCommonConfig,
    cs: Seq<Constraint>,
    lo: int,
    row: Seq<int>,
    step: StepStatus,
    class: BinOp,
    is_i32: bool,
    l: u64,
    r: u64,
    v: u64,
    lua: UniArg,
    rua: UniArg,
)
    requires
        bin_eval_identities(cfg, common, cs, lo),
        bin_row_ok(cfg, common, row, step, class, is_i32, l, r, v, lua, rua),
    ensures
        constraints_zero_range(cs, lo, lo + 10, row),
{
    lemma_bin_row_arith(cfg, common, row, step, class, is_i32, l, r, v, lua, rua);
    lemma_u64_limbs(l);
    lemma_u64_limbs(r);
    lemma_u64_limbs(bin_d_val(class, is_i32, l, r) as u64);
    lemma_u64_limbs(bin_aux1_val(class, is_i32, l, r) as u64);
    lemma_u64_limbs(bin_aux2_val(class, is_i32, l, r) as u64);
    lemma_flag_and_mag(is_i32, l);
    lemma_flag_and_mag(is_i32, r);
    crate::allocator::lemma_flag_from_leading(is_i32, l);
    crate::allocator::lemma_flag_from_leading(is_i32, r);
    lemma_fundamental_div_mod(leading_limb(is_i32, l), 0x8000);
    lemma_fundamental_div_mod(leading_limb(is_i32, r), 0x8000);
    lemma_mul_basics(crate::allocator::limb(l, 1) - crate::allocator::limb(l, 3));
    lemma_mul_basics(crate::allocator::limb(r, 1) - crate::allocator::limb(r, 3));
    assert(crate::builder::constraint_zero(cs[lo], row));
    assert(crate::builder::constraint_zero(cs[lo + 1], row));
    assert(crate::builder::constraint_zero(cs[lo + 2], row));
    assert(crate::builder::constraint_zero(cs[lo + 3], row));
    assert(crate::builder::constraint_zero(cs[lo + 4], row));
    assert(crate::builder::constraint_zero(cs[lo + 5], row));
    assert(crate::builder::constraint_zero(cs[lo + 6], row));
    assert(crate::builder::constraint_zero(cs[lo + 7], row));
    assert(crate::builder::constraint_zero(cs[lo + 8], row));
    assert(crate::builder::constraint_zero(cs[lo + 9], row));
}

/// The second half of the registered constraints hold on a valid row.
#[verifier::rlimit(100)]
pub proof fn lemma_bin_gate_high(
    cfg: BinConfig,
    common: EventTableCommonConfig,
    cs: Seq<Constraint>,
    lo: int,
    row: Seq<int>,
    step: StepStatus,
    class: BinOp,
    is_i32: bool,
    l: u64,
    r: u64,
    v: u64,
    lua: UniArg,
    rua: UniArg,
)
    requires
        bin_eval_identities(cfg, common, cs, lo),
        bin_row_ok(cfg, common, row, step, class, is_i32, l, r, v, lua, rua),
    ensures
        constraints_zero_range(cs, lo + 10, lo + 20, row),
{
    lemma_bin_row_arith(cfg, common, row, step, class, is_i32, l, r, v, lua, rua);
    lemma_u64_limbs(bin_d_val(class, is_i32, l, r) as u64);
    lemma_flag_and_mag(is_i32, l);
    lemma_flag_and_mag(is_i32, r);
    lemma_mul_basics(
        limbv(bin_d_val(class, is_i32, l, r), 1) - limbv(bin_d_val(class, is_i32, l, r), 3),
    );
    assert(crate::builder::constraint_zero(cs[lo + 10], row));
    assert(crate::builder::constraint_zero(cs[lo + 11], row));
    assert(crate::builder::constraint_zero(cs[lo + 12], row));
    assert(crate::builder::constraint_zero(cs[lo + 13], row));
    assert(crate::builder::constraint_zero(cs[lo + 14], row));
    assert(crate::builder::constraint_zero(cs[lo + 15], row));
    assert(crate::builder::constraint_zero(cs[lo + 16], row));
    assert(crate::builder::constraint_zero(cs[lo + 17], row));
    assert(crate::builder::constraint_zero(cs[lo + 18], row));
    assert(crate::builder::constraint_zero(cs[lo + 19], row));
}

/// Every constraint registered by the binary-operation builder evaluates to
/// zero on every row that carries a valid witness.
#[verifier::rlimit(100)]
pub proof fn lemma_bin_gate(
    cfg: BinConfig,
    common: EventTableCommonConfig,
    cs: Seq<Constraint>,
    lo: int,
)
    requires
        bin_eval_identities(cfg, common, cs, lo),
    ensures
        bin_gate(cfg, common, cs, lo),
{
    assert forall|
        row: Seq<int>,
        step: StepStatus,
        class: BinOp,
        is_i32: bool,
        l: u64,
        r: u64,
        v: u64,
        lua: UniArg,
        rua: UniArg,
    |
        bin_row_ok(cfg, common, row, step, class, is_i32, l, r, v, lua, rua) implies constraints_zero_range(
        cs,
        lo,
        lo + 20,
        row,
    ) by {
        lemma_bin_gate_low(cfg, common, cs, lo, row, step, class, is_i32, l, r, v, lua, rua);
        lemma_bin_gate_high(cfg, common, cs, lo, row, step, class, is_i32, l, r, v, lua, rua);
    }
}

/// A quotient below the sign-bit weight has a leading limb of at most
/// fifteen bits.
pub proof fn lemma_quotient_leading(is_i32: bool, d: u64)
    requires
        d < half_mod(is_i32),
    ensures
        0 <= leading_limb(is_i32, d) <= 0x7fff,
{
    lemma_u64_limbs(d);
    if is_i32 {
        lemma_div_is_ordered(d as int, 0x7fff_ffff, 0x1_0000);
        assert(0x7fff_ffffint / 0x1_0000int == 0x7fff);
    } else {
        lemma_div_is_ordered(d as int, 0x7fff_ffff_ffff_ffff, 0x1_0000_0000_0000);
        assert(0x7fff_ffff_ffff_ffffint / 0x1_0000_0000_0000int == 0x7fff);
    }
}

impl BinConfig {
    /// The encoded opcode: the class tag, the selected operation's tag, and
    /// the width bit.
    pub fn opcode(&self, common: &EventTableCommonConfig) -> (r: Expr)
        requires
            common.wf(),
        ensures
            forall|row: Seq<int>|
                #[trigger] eval(r, row) == 1 * 0x1000_0000_0000_0000_0000_0000 + (cv(
                    row,
                    self.is_sub.cell,
                ) * 1 + cv(row, self.is_mul.cell) * 2 + cv(row, self.is_div_u.cell) * 3 + cv(
                    row,
                    self.is_rem_u.cell,
                ) * 4 + cv(row, self.is_div_s.cell) * 5 + cv(row, self.is_rem_s.cell) * 6)
                    * 0x1_0000_0000_0000_0000_0000 + cv(
                    row,
                    common.uniarg_configs[0].is_i32_cell.cell,
                ) * 0x1_0000_0000_0000_0000,
    {
        Expr::constant(0x1000_0000_0000_0000_0000_0000).plus(
            Expr::cell(self.is_sub.cell).times(Expr::constant(1)).plus(
                Expr::cell(self.is_mul.cell).times(Expr::constant(2)),
            ).plus(Expr::cell(self.is_div_u.cell).times(Expr::constant(3))).plus(
                Expr::cell(self.is_rem_u.cell).times(Expr::constant(4)),
            ).plus(Expr::cell(self.is_div_s.cell).times(Expr::constant(5))).plus(
                Expr::cell(self.is_rem_s.cell).times(Expr::constant(6)),
            ).times(Expr::constant(0x1_0000_0000_0000_0000_0000)),
        ).plus(
            Expr::cell(common.uniarg_configs[0].is_i32_cell.cell).times(
                Expr::constant(0x1_0000_0000_0000_0000),
            ),
        )
    }

    /// On an assigned row the opcode expression evaluates to the canonical
    /// binary-operation encoding.
    pub proof fn lemma_opcode_value(
        &self,
        op: Expr,
        common: EventTableCommonConfig,
        row: Seq<int>,
        step: StepStatus,
        class: BinOp,
        is_i32: bool,
        l: u64,
        r: u64,
        v: u64,
        lua: UniArg,
        rua: UniArg,
    )
        requires
            forall|rw: Seq<int>|
                #[trigger] eval(op, rw) == 1 * 0x1000_0000_0000_0000_0000_0000 + (cv(
                    rw,
                    self.is_sub.cell,
                ) * 1 + cv(rw, self.is_mul.cell) * 2 + cv(rw, self.is_div_u.cell) * 3 + cv(
                    rw,
                    self.is_rem_u.cell,
                ) * 4 + cv(rw, self.is_div_s.cell) * 5 + cv(rw, self.is_rem_s.cell) * 6)
                    * 0x1_0000_0000_0000_0000_0000 + cv(
                    rw,
                    common.uniarg_configs[0].is_i32_cell.cell,
                ) * 0x1_0000_0000_0000_0000,
            bin_row_ok(*self, common, row, step, class, is_i32, l, r, v, lua, rua),
        ensures
            eval(op, row) == encode_bin_spec(class, is_i32),
    {
    }

    /// Fill the opcode's cells from one binary-operation step, including both
    /// argument slots and the stack-write claim.
    pub fn assign(
        &self,
        common: &EventTableCommonConfig,
        row: &mut Row,
        step: &StepStatus,
        entry: &EventTableEntryWithMemoryInfo,
    )
        requires
            self.wf(),
            common.wf(),
            common.top() < self.base(),
            self.base() + 54 < old(row)@.len(),
            forall|i: int| self.owns(i) ==> #[trigger] old(row).unassigned(i),
            forall|i: int|
                common.uniarg_configs@[0].owns(i) || common.uniarg_configs@[1].owns(i)
                    ==> #[trigger] old(row).unassigned(i),
            (entry.step_info is I32BinOp || entry.step_info is I64BinOp),
            step.wf(),
            entry.step_info is I32BinOp ==> bin_args_ok(
                entry.step_info->I32BinOp_class,
                true,
                entry.step_info->I32BinOp_left,
                entry.step_info->I32BinOp_right,
                entry.step_info->I32BinOp_value,
            ),
            entry.step_info is I64BinOp ==> bin_args_ok(
                entry.step_info->I64BinOp_class,
                false,
                entry.step_info->I64BinOp_left,
                entry.step_info->I64BinOp_right,
                entry.step_info->I64BinOp_value,
            ),
        ensures
            final(row)@.len() == old(row)@.len(),
            entry.step_info is I32BinOp ==> bin_uniargs_assigned(
                *self,
                *common,
                final(row)@,
                *step,
                entry.step_info->I32BinOp_class,
                true,
                entry.step_info->I32BinOp_left,
                entry.step_info->I32BinOp_right,
                entry.step_info->I32BinOp_value,
                entry.step_info->I32BinOp_lhs_uniarg,
                entry.step_info->I32BinOp_rhs_uniarg,
            ),
            entry.step_info is I64BinOp ==> bin_uniargs_assigned(
                *self,
                *common,
                final(row)@,
                *step,
                entry.step_info->I64BinOp_class,
                false,
                entry.step_info->I64BinOp_left,
                entry.step_info->I64BinOp_right,
                entry.step_info->I64BinOp_value,
                entry.step_info->I64BinOp_lhs_uniarg,
                entry.step_info->I64BinOp_rhs_uniarg,
            ),
            forall|i: int|
                #![trigger final(row)@[i]]
                0 <= i < old(row)@.len() && !self.owns(i) && !common.uniarg_configs@[0].owns(i)
                    && !common.uniarg_configs@[1].owns(i) ==> final(row)@[i] == old(row)@[i],
            forall|i: int|
                0 <= i < old(row)@.len() && !self.owns(i) && !common.uniarg_configs@[0].owns(i)
                    && !common.uniarg_configs@[1].owns(i) ==> #[trigger] final(row).unassigned(i)
                    == old(row).unassigned(i),
    {
        match entry.step_info {
            StepInfo::I32BinOp { class, left, right, value, lhs_uniarg, rhs_uniarg } => {
                self.assign_step(common, row, step, class, true, left, right, value, lhs_uniarg, rhs_uniarg);
            },
            StepInfo::I64BinOp { class, left, right, value, lhs_uniarg, rhs_uniarg } => {
                self.assign_step(common, row, step, class, false, left, right, value, lhs_uniarg, rhs_uniarg);
            },
            _ => {
                proof {
                    assert(false);
                }
            },
        }
    }

    /// Fill the cells for one operation with its operands already extracted.
    #[verifier::rlimit(100)]
    fn assign_step(
        &self,
        common: &EventTableCommonConfig,
        row: &mut Row,
        step: &StepStatus,
        class: BinOp,
        is_i32: bool,
        l: u64,
        r: u64,
        v: u64,
        lhs_uniarg: UniArg,
        rhs_uniarg: UniArg,
    )
        requires
            self.wf(),
            common.wf(),
            common.top() < self.base(),
            self.base() + 54 < old(row)@.len(),
            forall|i: int| self.owns(i) ==> #[trigger] old(row).unassigned(i),
            forall|i: int|
                common.uniarg_configs@[0].owns(i) || common.uniarg_configs@[1].owns(i)
                    ==> #[trigger] old(row).unassigned(i),
            step.wf(),
            bin_args_ok(class, is_i32, l, r, v),
        ensures
            final(row)@.len() == old(row)@.len(),
            bin_uniargs_assigned(
                *self,
                *common,
                final(row)@,
                *step,
                class,
                is_i32,
                l,
                r,
                v,
                lhs_uniarg,
                rhs_uniarg,
            ),
            forall|i: int|
                #![trigger final(row)@[i]]
                0 <= i < old(row)@.len() && !self.owns(i) && !common.uniarg_configs@[0].owns(i)
                    && !common.uniarg_configs@[1].owns(i) ==> final(row)@[i] == old(row)@[i],
            forall|i: int|
                0 <= i < old(row)@.len() && !self.owns(i) && !common.uniarg_configs@[0].owns(i)
                    && !common.uniarg_configs@[1].owns(i) ==> #[trigger] final(row).unassigned(i)
                    == old(row).unassigned(i),
    {
        let (d_v, aux1_v, overflow_v) = self.assign_low(row, class, is_i32, l, r, v);
        self.assign_high(
            common,
            row,
            step,
            class,
            is_i32,
            l,
            r,
            v,
            lhs_uniarg,
            rhs_uniarg,
            d_v,
            aux1_v,
            overflow_v,
        );
    }

    /// The handles of the operand, quotient, and selector cells.
    pub open spec fn owns_low(self, i: int) -> bool {
        self.base() <= i <= self.base() + 43
    }

    /// Fill the operand, quotient, and selector cells; the computed quotient,
    /// remainder, and overflow witnesses are returned for the product cells.
    #[verifier::rlimit(100)]
    fn assign_low(&self, row: &mut Row, class: BinOp, is_i32: bool, l: u64, r: u64, v: u64) -> (w:
        (u64, u64, u64))
        requires
            self.wf(),
            self.base() + 54 < old(row)@.len(),
            forall|i: int| self.owns(i) ==> #[trigger] old(row).unassigned(i),
            bin_args_ok(class, is_i32, l, r, v),
        ensures
            final(row)@.len() == old(row)@.len(),
            w.0 == bin_d_val(class, is_i32, l, r),
            w.1 == bin_aux1_val(class, is_i32, l, r),
            w.2 == bin_overflow_val(class, is_i32, l, r, v),
            bin_assigned_low(*self, final(row)@, class, is_i32, l, r, v),
            forall|i: int|
                #![trigger final(row)@[i]]
                0 <= i < old(row)@.len() && !self.owns_low(i) ==> final(row)@[i] == old(row)@[i],
            forall|i: int|
                0 <= i < old(row)@.len() && !self.owns_low(i) ==> #[trigger] final(row).unassigned(
                    i,
                ) == old(row).unassigned(i),
    {
        let w = self.assign_operands(row, class, is_i32, l, r, v);
        self.assign_flags(row, class, is_i32, l, r, w.0);
        w
    }

    /// The handles of the operand and auxiliary compound cells.
    pub open spec fn owns_operands(self, i: int) -> bool {
        self.base() <= i <= self.base() + 31
    }

    /// Fill the operand compounds and the quotient, remainder, and gap
    /// witnesses.
    #[verifier::rlimit(100)]
    fn assign_operands(
        &self,
        row: &mut Row,
        class: BinOp,
        is_i32: bool,
        l: u64,
        r: u64,
        v: u64,
    ) -> (w: (u64, u64, u64))
        requires
            self.wf(),
            self.base() + 54 < old(row)@.len(),
            forall|i: int| self.owns(i) ==> #[trigger] old(row).unassigned(i),
            bin_args_ok(class, is_i32, l, r, v),
        ensures
            final(row)@.len() == old(row)@.len(),
            w.0 == bin_d_val(class, is_i32, l, r),
            w.1 == bin_aux1_val(class, is_i32, l, r),
            w.2 == bin_overflow_val(class, is_i32, l, r, v),
            self.lhs.holds(final(row)@, l, is_i32),
            self.rhs.holds(final(row)@, r, is_i32),
            self.d.holds(final(row)@, bin_d_val(class, is_i32, l, r) as u64),
            cv(final(row)@, self.d_flag_helper_diff.cell) == bin_helper_diff_val(
                class,
                is_i32,
                l,
                r,
            ),
            self.aux1.holds(final(row)@, bin_aux1_val(class, is_i32, l, r) as u64),
            self.aux2.holds(final(row)@, bin_aux2_val(class, is_i32, l, r) as u64),
            forall|i: int|
                #![trigger final(row)@[i]]
                0 <= i < old(row)@.len() && !self.owns_operands(i) ==> final(row)@[i] == old(
                    row,
                )@[i],
            forall|i: int|
                0 <= i < old(row)@.len() && !self.owns_operands(i) ==> #[trigger] final(row).unassigned(
                    i,
                ) == old(row).unassigned(i),
    {
        let n128: u128 = if is_i32 {
            0x1_0000_0000
        } else {
            0x1_0000_0000_0000_0000
        };
        self.lhs.assign(row, l, is_i32);
        self.rhs.assign(row, r, is_i32);
        let nl = normalize(is_i32, l);
        let nr = normalize(is_i32, r);
        proof {
            lemma_flag_and_mag(is_i32, l);
            lemma_flag_and_mag(is_i32, r);
            lemma_mul_fits(is_i32, l, r);
        }
        let (d_v, aux1_v, aux2_v, overflow_v): (u64, u64, u64, u64) = match class {
            BinOp::Add => {
                let (_, ovf) = wasm_add(is_i32, l, r);
                (0, 0, 0, ovf)
            },
            BinOp::Sub => {
                let sum = (r as u128 + v as u128) / n128;
                proof {
                    lemma_sub_witness(n128 as int, l as int, r as int, v as int);
                }
                (0, 0, 0, sum as u64)
            },
            BinOp::Mul => {
                let (_, high) = wasm_mul(is_i32, l, r);
                (0, high, 0, 0)
            },
            BinOp::UnsignedDiv | BinOp::UnsignedRem => {
                let q = wasm_div_u(l, r);
                let m = wasm_rem_u(l, r);
                (q, m, r - m - 1, 0)
            },
            BinOp::SignedDiv | BinOp::SignedRem => {
                let q = wasm_div_u(nl, nr);
                let m = wasm_rem_u(nl, nr);
                (q, m, nr - m - 1, 0)
            },
        };
        self.d.assign(row, d_v);
        let d_leading: u64 = if is_i32 {
            (d_v / 0x1_0000) % 0x1_0000
        } else {
            d_v / 0x1_0000_0000_0000
        };
        proof {
            lemma_u64_limbs(d_v);
        }
        row.set_u64(
            self.d_flag_helper_diff.cell,
            if d_leading < 0x7fff {
                0x7fff - d_leading
            } else {
                0
            },
        );
        self.aux1.assign(row, aux1_v);
        self.aux2.assign(row, aux2_v);
        proof {
            assert forall|i: int| 0 <= i < old(row)@.len() && !self.owns_operands(i) implies row@[i]
                == old(row)@[i] by {
                assert(!self.lhs.owns(i));
                assert(!self.rhs.owns(i));
                assert(!self.d.owns(i));
                assert(!self.aux1.owns(i));
                assert(!self.aux2.owns(i));
            }
        }
        (d_v, aux1_v, overflow_v)
    }

    /// Fill the overflow, selector, leading-limb, and magnitude cells.
    #[verifier::rlimit(100)]
    fn assign_flags(&self, row: &mut Row, class: BinOp, is_i32: bool, l: u64, r: u64, d_v: u64)
        requires
            self.wf(),
            self.base() + 54 < old(row)@.len(),
            forall|i: int|
                self.base() + 32 <= i <= self.base() + 43 ==> #[trigger] old(row).unassigned(i),
            in_width(is_i32, l),
            in_width(is_i32, r),
            d_v == bin_d_val(class, is_i32, l, r),
            exists|vv: u64| #[trigger] bin_args_ok(class, is_i32, l, r, vv),
        ensures
            final(row)@.len() == old(row)@.len(),
            cv(final(row)@, self.d_leading_u16.cell) == bin_d_leading_val(class, is_i32, l, r),
            cv(final(row)@, self.normalized_lhs.cell) == mag_val(is_i32, l),
            cv(final(row)@, self.normalized_rhs.cell) == mag_val(is_i32, r),
            cv(final(row)@, self.is_add.cell) == (if class is Add {
                1int
            } else {
                0int
            }),
            cv(final(row)@, self.is_sub.cell) == (if class is Sub {
                1int
            } else {
                0int
            }),
            cv(final(row)@, self.is_mul.cell) == (if class is Mul {
                1int
            } else {
                0int
            }),
            cv(final(row)@, self.is_div_u.cell) == (if class is UnsignedDiv {
                1int
            } else {
                0int
            }),
            cv(final(row)@, self.is_div_s.cell) == (if class is SignedDiv {
                1int
            } else {
                0int
            }),
            cv(final(row)@, self.is_rem_u.cell) == (if class is UnsignedRem {
                1int
            } else {
                0int
            }),
            cv(final(row)@, self.is_rem_s.cell) == (if class is SignedRem {
                1int
            } else {
                0int
            }),
            cv(final(row)@, self.is_div_s_or_rem_s.cell) == (if bin_is_signed(class) {
                1int
            } else {
                0int
            }),
            forall|vv: u64|
                #[trigger] bin_args_ok(class, is_i32, l, r, vv) ==> cv(
                    final(row)@,
                    self.overflow.cell,
                ) == bin_overflow_val(class, is_i32, l, r, vv),
            forall|i: int|
                #![trigger final(row)@[i]]
                0 <= i < old(row)@.len() && !(self.base() + 32 <= i <= self.base() + 43)
                    ==> final(row)@[i] == old(row)@[i],
            forall|i: int|
                0 <= i < old(row)@.len() && !(self.base() + 32 <= i <= self.base() + 43)
                    ==> #[trigger] final(row).unassigned(i) == old(row).unassigned(i),
    {
        let nl = normalize(is_i32, l);
        let nr = normalize(is_i32, r);
        let d_leading: u64 = if is_i32 {
            (d_v / 0x1_0000) % 0x1_0000
        } else {
            d_v / 0x1_0000_0000_0000
        };
        proof {
            lemma_u64_limbs(d_v);
            lemma_flag_and_mag(is_i32, l);
            lemma_flag_and_mag(is_i32, r);
        }
        let overflow_v: u64 = match class {
            BinOp::Add => {
                let s = (l as u128 + r as u128) / (if is_i32 {
                    0x1_0000_0000u128
                } else {
                    0x1_0000_0000_0000_0000u128
                });
                s as u64
            },
            BinOp::Sub => {
                proof {
                    let vv = choose|vv: u64| bin_args_ok(class, is_i32, l, r, vv);
                    lemma_sub_witness(size_mod(is_i32), l as int, r as int, vv as int);
                }
                if l >= r {
                    0
                } else {
                    1
                }
            },
            _ => 0,
        };
        row.set_u64(self.overflow.cell, overflow_v);
        row.set_bit(self.is_add.cell, matches!(class, BinOp::Add));
        row.set_bit(self.is_sub.cell, matches!(class, BinOp::Sub));
        row.set_bit(self.is_mul.cell, matches!(class, BinOp::Mul));
        row.set_bit(self.is_div_u.cell, matches!(class, BinOp::UnsignedDiv));
        row.set_bit(self.is_div_s.cell, matches!(class, BinOp::SignedDiv));
        row.set_bit(self.is_rem_u.cell, matches!(class, BinOp::UnsignedRem));
        row.set_bit(self.is_rem_s.cell, matches!(class, BinOp::SignedRem));
        row.set_bit(
            self.is_div_s_or_rem_s.cell,
            matches!(class, BinOp::SignedDiv) || matches!(class, BinOp::SignedRem),
        );
        row.set_u64(self.d_leading_u16.cell, d_leading);
        row.set_u64(self.normalized_lhs.cell, nl);
        row.set_u64(self.normalized_rhs.cell, nr);
    }

    /// Fill the sign, modulus, product, and lookup cells, and both argument
    /// slots.
    #[verifier::rlimit(100)]
    fn assign_high(
        &self,
        common: &EventTableCommonConfig,
        row: &mut Row,
        step: &StepStatus,
        class: BinOp,
        is_i32: bool,
        l: u64,
        r: u64,
        v: u64,
        lhs_uniarg: UniArg,
        rhs_uniarg: UniArg,
        d_v: u64,
        aux1_v: u64,
        overflow_v: u64,
    )
        requires
            self.wf(),
            common.wf(),
            common.top() < self.base(),
            self.base() + 54 < old(row)@.len(),
            forall|i: int|
                self.base() + 44 <= i <= self.base() + 54 ==> #[trigger] old(row).unassigned(i),
            forall|i: int|
                common.uniarg_configs@[0].owns(i) || common.uniarg_configs@[1].owns(i)
                    ==> #[trigger] old(row).unassigned(i),
            bin_args_ok(class, is_i32, l, r, v),
            step.wf(),
            d_v == bin_d_val(class, is_i32, l, r),
            aux1_v == bin_aux1_val(class, is_i32, l, r),
            overflow_v == bin_overflow_val(class, is_i32, l, r, v),
        ensures
            final(row)@.len() == old(row)@.len(),
            bin_assigned_high(
                *self,
                final(row)@,
                *step,
                class,
                is_i32,
                l,
                r,
                v,
                lhs_uniarg,
                rhs_uniarg,
            ),
            common.uniarg_configs@[0].assigned(
                final(row)@,
                rhs_uniarg,
                is_i32,
                r,
                (step.sp + 1) as u32,
                step.eid,
            ),
            common.uniarg_configs@[1].assigned(
                final(row)@,
                lhs_uniarg,
                is_i32,
                l,
                (step.sp + 1 + rhs_uniarg.pop_val()) as u32,
                step.eid,
            ),
            forall|i: int|
                #![trigger final(row)@[i]]
                0 <= i < old(row)@.len() && !(self.base() + 44 <= i <= self.base() + 54)
                    && !common.uniarg_configs@[0].owns(i) && !common.uniarg_configs@[1].owns(i)
                    ==> final(row)@[i] == old(row)@[i],
            forall|i: int|
                0 <= i < old(row)@.len() && !(self.base() + 44 <= i <= self.base() + 54)
                    && !common.uniarg_configs@[0].owns(i) && !common.uniarg_configs@[1].owns(i)
                    ==> #[trigger] final(row).unassigned(i) == old(row).unassigned(i),
    {
        let n128: u128 = if is_i32 {
            0x1_0000_0000
        } else {
            0x1_0000_0000_0000_0000
        };
        let la = top_flag(is_i32, l);
        let rb = top_flag(is_i32, r);
        let nr = normalize(is_i32, r);
        proof {
            lemma_flag_and_mag(is_i32, l);
            lemma_flag_and_mag(is_i32, r);
            lemma_mul_fits(is_i32, l, r);
            lemma_mul_fits(false, nr, d_v);
            lemma_mul_fits(false, r, d_v);
            vstd::arithmetic::mul::lemma_mul_upper_bound(
                overflow_v as int,
                1,
                n128 as int,
                0x1_0000_0000_0000_0000,
            );
            vstd::arithmetic::mul::lemma_mul_upper_bound(
                aux1_v as int,
                0xffff_ffff_ffff_ffff,
                n128 as int,
                0x1_0000_0000_0000_0000,
            );
            lemma_mul_basics(n128 as int);
        }
        row.set_bit(self.res_flag.cell, la != rb);
        row.set_u128(self.size_modulus.cell, n128);
        row.set_u128(self.overflow_mul_size_modulus.cell, overflow_v as u128 * n128);
        row.set_u128(self.rhs_mul_d.cell, r as u128 * d_v as u128);
        row.set_u128(self.normalized_rhs_mul_d.cell, nr as u128 * d_v as u128);
        row.set_u128(self.lhs_mul_rhs.cell, l as u128 * r as u128);
        row.set_u128(self.aux1_mul_size_modulus.cell, aux1_v as u128 * n128);
        let rf_bit: u128 = if la != rb {
            1
        } else {
            0
        };
        let lf_bit: u128 = if la {
            1
        } else {
            0
        };
        row.set_u128(
            self.degree_helper1.cell,
            if matches!(class, BinOp::SignedDiv) {
                (d_v as u128 + v as u128) * rf_bit
            } else {
                0
            },
        );
        row.set_u128(
            self.degree_helper2.cell,
            if matches!(class, BinOp::SignedRem) {
                (aux1_v as u128 + v as u128) * lf_bit
            } else {
                0
            },
        );
        self.memory_table_lookup_stack_write.assign(
            row,
            MemoryLookupKey {
                location: LocationType::Stack,
                address: step.sp + (if matches!(lhs_uniarg, UniArg::Pop) {
                    1
                } else {
                    0
                }) + (if matches!(rhs_uniarg, UniArg::Pop) {
                    1
                } else {
                    0
                }),
                eid: step.eid,
                is_i32,
                value: v,
            },
        );
        common.uniarg_configs[0].assign(row, rhs_uniarg, is_i32, r, step.sp + 1, step.eid);
        common.uniarg_configs[1].assign(
            row,
            lhs_uniarg,
            is_i32,
            l,
            step.sp + 1 + (if matches!(rhs_uniarg, UniArg::Pop) {
                1
            } else {
                0
            }),
            step.eid,
        );
        proof {
            assert forall|i: int|
                0 <= i < old(row)@.len() && !(self.base() + 44 <= i <= self.base() + 54)
                    && !common.uniarg_configs@[0].owns(i) && !common.uniarg_configs@[1].owns(i) implies row@[i]
                == old(row)@[i] by {
                assert(!self.memory_table_lookup_stack_write.owns(i));
            }
        }
    }

    /// One memory-table entry is written per step.
    pub fn memory_writing_ops(&self, _entry: &EventTableEntryWithMemoryInfo) -> (r: u32)
        ensures
            r == 1,
    {
        1
    }

    /// One claimed memory write beyond the argument reads.
    pub fn mops(&self) -> (r: Option<Expr>)
        ensures
            r is Some,
            forall|row: Seq<int>| #[trigger] eval(r.unwrap(), row) == 1,
    {
        Some(Expr::constant(1))
    }

    /// The pushed result moves the stack top by one; the argument pops are
    /// accounted by the argument slots.
    pub fn sp_diff(&self) -> (r: Option<Expr>)
        ensures
            r is Some,
            forall|row: Seq<int>| #[trigger] eval(r.unwrap(), row) == -1,
    {
        Some(Expr::constant(0).minus(Expr::constant(1)))
    }
}

} // verus!
