//! The relational opcodes: equality, inequality, and the four orderings,
//! signed or unsigned, at 32 or 64 bits.
//!
//! The circuit witnesses the absolute difference of the raw operands with its
//! direction in two mutually exclusive bits, and proves that the difference
//! is zero exactly when the equality bit is set with the inverse gadget
//! `diff * diff_inv + res_is_eq = 1`, whose inverse witness comes from the
//! field backend.  Signed orderings split on the four sign combinations:
//! opposite signs are decided by the sign bit alone, equal signs fall back to
//! the raw comparison.

use crate::allocator::{
    flag_of, lemma_u64_limbs, u64_compose, AllocatedBitCell, AllocatedU64Cell,
    AllocatedU64CellWithFlagBitDynSign, AllocatedUnlimitedCell, CellAllocator,
};
use crate::builder::{
    constraints_zero_mod_range, constraint_zero_mod, Constraint, ConstraintBuilder,
};
use crate::encode::{bit_val, encode_rel_spec, LocationType, MemoryLookupKey, RelOp};
use crate::etable::{
    common_row_ok, AllocatedMemoryTableLookupWriteCell, EventTableCommonConfig,
    EventTableEntryWithMemoryInfo, StepInfo, StepStatus, UniArg,
};
use crate::expr::{cv, eval, Expr};
use crate::fieldval::FieldVal;
use crate::row::Row;
use crate::semantics::{in_width, lemma_flag_and_mag, rel_holds, top_flag};
use vstd::arithmetic::div_mod::{lemma_fundamental_div_mod, lemma_mod_multiples_basic, lemma_small_mod};
use vstd::arithmetic::mul::{lemma_mul_basics, lemma_mul_is_commutative};
use vstd::prelude::*;

verus! {

pub struct RelConfig {
    pub op_is_sign: AllocatedBitCell,
    pub lhs: AllocatedU64CellWithFlagBitDynSign,
    pub rhs: AllocatedU64CellWithFlagBitDynSign,
    pub diff: AllocatedU64Cell,
    pub diff_inv: AllocatedUnlimitedCell,
    pub res: AllocatedUnlimitedCell,
    pub res_is_eq: AllocatedBitCell,
    pub res_is_lt: AllocatedBitCell,
    pub res_is_gt: AllocatedBitCell,
    pub op_is_eq: AllocatedBitCell,
    pub op_is_ne: AllocatedBitCell,
    pub op_is_lt: AllocatedBitCell,
    pub op_is_gt: AllocatedBitCell,
    pub op_is_le: AllocatedBitCell,
    pub op_is_ge: AllocatedBitCell,
    pub same_sign_lt: AllocatedUnlimitedCell,
    pub same_sign_gt: AllocatedUnlimitedCell,
    pub l_pos_r_pos: AllocatedUnlimitedCell,
    pub l_pos_r_neg: AllocatedUnlimitedCell,
    pub l_neg_r_pos: AllocatedUnlimitedCell,
    pub l_neg_r_neg: AllocatedUnlimitedCell,
    pub memory_table_lookup_stack_write: AllocatedMemoryTableLookupWriteCell,
}

pub struct RelConfigBuilder {}

/// The sign flag the circuit extracts: the operand's top bit on signed
/// comparisons, zero on unsigned ones.
pub open spec fn rel_flag(sign: bool, is_i32: bool, x: u64) -> int {
    if sign {
        flag_of(is_i32, x)
    } else {
        0
    }
}

/// The absolute difference of the raw operands.
pub open spec fn rel_diff_val(l: u64, r: u64) -> u64 {
    if l >= r {
        (l - r) as u64
    } else {
        (r - l) as u64
    }
}

/// A valid relational step: operands in width and the result the boolean the
/// operation yields.
pub open spec fn rel_step_ok(
    step: StepStatus,
    class: RelOp,
    sign: bool,
    is_i32: bool,
    l: u64,
    r: u64,
    v: u64,
) -> bool {
    &&& step.wf()
    &&& in_width(is_i32, l)
    &&& in_width(is_i32, r)
    &&& v == bit_val(rel_holds(class, sign, is_i32, l, r))
}

/// The cells of a relational row carry a full witness for the step; the
/// inverse cell holds whatever the field backend supplied.
pub open spec fn rel_assigned(
    cfg: RelConfig,
    row: Seq<int>,
    step: StepStatus,
    class: RelOp,
    sign: bool,
    is_i32: bool,
    l: u64,
    r: u64,
    v: u64,
    lhs_uniarg: UniArg,
    rhs_uniarg: UniArg,
) -> bool {
    let lf = rel_flag(sign, is_i32, l);
    let rf = rel_flag(sign, is_i32, r);
    &&& cv(row, cfg.op_is_sign.cell) == bit_val(sign)
    &&& cfg.lhs.holds(row, l, is_i32, sign)
    &&& cfg.rhs.holds(row, r, is_i32, sign)
    &&& cfg.diff.holds(row, rel_diff_val(l, r))
    &&& cv(row, cfg.res.cell) == v
    &&& cv(row, cfg.res_is_eq.cell) == bit_val(l == r)
    &&& cv(row, cfg.res_is_lt.cell) == bit_val(l < r)
    &&& cv(row, cfg.res_is_gt.cell) == bit_val(l > r)
    &&& cv(row, cfg.op_is_eq.cell) == bit_val(class is Eq)
    &&& cv(row, cfg.op_is_ne.cell) == bit_val(class is Ne)
    &&& cv(row, cfg.op_is_lt.cell) == bit_val(class is Lt)
    &&& cv(row, cfg.op_is_gt.cell) == bit_val(class is Gt)
    &&& cv(row, cfg.op_is_le.cell) == bit_val(class is Le)
    &&& cv(row, cfg.op_is_ge.cell) == bit_val(class is Ge)
    &&& cv(row, cfg.same_sign_lt.cell) == bit_val(lf == rf && l < r)
    &&& cv(row, cfg.same_sign_gt.cell) == bit_val(lf == rf && l > r)
    &&& cv(row, cfg.l_pos_r_pos.cell) == bit_val(lf == 0 && rf == 0)
    &&& cv(row, cfg.l_pos_r_neg.cell) == bit_val(lf == 0 && rf == 1)
    &&& cv(row, cfg.l_neg_r_pos.cell) == bit_val(lf == 1 && rf == 0)
    &&& cv(row, cfg.l_neg_r_neg.cell) == bit_val(lf == 1 && rf == 1)
    &&& cfg.memory_table_lookup_stack_write.holds(
        row,
        (MemoryLookupKey {
            location: LocationType::Stack,
            address: (step.sp + lhs_uniarg.pop_val() + rhs_uniarg.pop_val()) as u32,
            eid: step.eid,
            is_i32: true,
            value: v,
        }),
    )
}

/// A row carrying a valid relational witness over an assigned common
/// context.
pub open spec fn rel_row_ok(
    cfg: RelConfig,
    common: EventTableCommonConfig,
    row: Seq<int>,
    step: StepStatus,
    class: RelOp,
    sign: bool,
    is_i32: bool,
    l: u64,
    r: u64,
    v: u64,
    lhs_uniarg: UniArg,
    rhs_uniarg: UniArg,
) -> bool {
    &&& common_row_ok(common, row, step, rhs_uniarg, is_i32, r, lhs_uniarg, is_i32, l)
    &&& rel_step_ok(step, class, sign, is_i32, l, r, v)
    &&& rel_assigned(cfg, row, step, class, sign, is_i32, l, r, v, lhs_uniarg, rhs_uniarg)
}

/// The inverse witness is a multiplicative inverse of the difference in the
/// backend's field whenever the difference is nonzero.
pub open spec fn rel_inv_ok(d: u64, inv: int, p: int) -> bool {
    d != 0 ==> (d * inv) % p == 1
}

/// Every constraint the relational builder registers vanishes, in any field
/// whose characteristic admits the supplied inverse witness, on every row
/// that carries a valid relational witness.
pub open spec fn rel_gate(
    cfg: RelConfig,
    common: EventTableCommonConfig,
    cs: Seq<Constraint>,
    lo: int,
) -> bool {
    forall|
        row: Seq<int>,
        step: StepStatus,
        class: RelOp,
        sign: bool,
        is_i32: bool,
        l: u64,
        r: u64,
        v: u64,
        lua: UniArg,
        rua: UniArg,
        p: int,
    |
        #![trigger rel_row_ok(cfg, common, row, step, class, sign, is_i32, l, r, v, lua, rua), rel_inv_ok(
            rel_diff_val(l, r),
            cv(row, cfg.diff_inv.cell),
            p,
        )]
        rel_row_ok(cfg, common, row, step, class, sign, is_i32, l, r, v, lua, rua) && p >= 2
            && rel_inv_ok(rel_diff_val(l, r), cv(row, cfg.diff_inv.cell), p)
            ==> constraints_zero_mod_range(cs, lo, lo + 10, row, p)
}

impl RelConfig {
    pub open spec fn base(self) -> int {
        self.op_is_sign.cell as int
    }

    pub open spec fn wf(self) -> bool {
        &&& self.lhs.wf()
        &&& self.rhs.wf()
        &&& self.diff.wf()
        &&& self.lhs.value.limb0_cell == self.base() + 1
        &&& self.rhs.value.limb0_cell == self.base() + 9
        &&& self.diff.limb0_cell == self.base() + 17
        &&& self.diff_inv.cell == self.base() + 22
        &&& self.res.cell == self.base() + 23
        &&& self.res_is_eq.cell == self.base() + 24
        &&& self.res_is_lt.cell == self.base() + 25
        &&& self.res_is_gt.cell == self.base() + 26
        &&& self.op_is_eq.cell == self.base() + 27
        &&& self.op_is_ne.cell == self.base() + 28
        &&& self.op_is_lt.cell == self.base() + 29
        &&& self.op_is_gt.cell == self.base() + 30
        &&& self.op_is_le.cell == self.base() + 31
        &&& self.op_is_ge.cell == self.base() + 32
        &&& self.same_sign_lt.cell == self.base() + 33
        &&& self.same_sign_gt.cell == self.base() + 34
        &&& self.l_pos_r_pos.cell == self.base() + 35
        &&& self.l_pos_r_neg.cell == self.base() + 36
        &&& self.l_neg_r_pos.cell == self.base() + 37
        &&& self.l_neg_r_neg.cell == self.base() + 38
        &&& self.memory_table_lookup_stack_write.encoded_cell.cell == self.base() + 39
    }

    pub open spec fn owns(self, i: int) -> bool {
        self.base() <= i <= self.base() + 39
    }
}

/// The exact polynomial each registered constraint expression evaluates to.
pub open spec fn rel_eval_identities(
    cfg: RelConfig,
    common: EventTableCommonConfig,
    cs: Seq<Constraint>,
    lo: int,
) -> bool {
    let lhs = cfg.lhs.value.u64_cell;
    let rhs = cfg.rhs.value.u64_cell;
    let lf = cfg.lhs.flag_bit_cell;
    let rf = cfg.rhs.flag_bit_cell;
    let sg = cfg.op_is_sign.cell;
    let t32 = common.uniarg_configs[0].is_i32_cell.cell;
    let du = cfg.diff.u64_cell;
    let eq = cfg.res_is_eq.cell;
    let lt = cfg.res_is_lt.cell;
    let gt = cfg.res_is_gt.cell;
    let res = cfg.res.cell;
    &&& common.wf()
    &&& 0 <= lo && cs.len() >= lo + 10
    &&& cs[lo].exprs@.len() == 1
    &&& forall|row: Seq<int>|
        #[trigger] eval(cs[lo].exprs@[0], row) == cv(row, lhs) - u64_compose(row, cfg.lhs.value)
    &&& cs[lo + 1].exprs@.len() == 3
    &&& forall|row: Seq<int>|
        #[trigger] eval(cs[lo + 1].exprs@[0], row) == (cv(row, lf) * 0x8000 + cv(
            row,
            cfg.lhs.flag_u16_rem_cell,
        ) - (cv(row, cfg.lhs.value.limb3_cell) + cv(row, t32) * (cv(row, cfg.lhs.value.limb1_cell)
            - cv(row, cfg.lhs.value.limb3_cell)))) * cv(row, sg)
    &&& forall|row: Seq<int>|
        #[trigger] eval(cs[lo + 1].exprs@[1], row) == (1 - cv(row, sg)) * cv(row, lf)
    &&& forall|row: Seq<int>|
        #[trigger] eval(cs[lo + 1].exprs@[2], row) == cv(row, cfg.lhs.flag_u16_rem_cell) + cv(
            row,
            cfg.lhs.flag_u16_rem_diff_cell,
        ) - 0x7fff
    &&& cs[lo + 2].exprs@.len() == 1
    &&& forall|row: Seq<int>|
        #[trigger] eval(cs[lo + 2].exprs@[0], row) == cv(row, rhs) - u64_compose(row, cfg.rhs.value)
    &&& cs[lo + 3].exprs@.len() == 3
    &&& forall|row: Seq<int>|
        #[trigger] eval(cs[lo + 3].exprs@[0], row) == (cv(row, rf) * 0x8000 + cv(
            row,
            cfg.rhs.flag_u16_rem_cell,
        ) - (cv(row, cfg.rhs.value.limb3_cell) + cv(row, t32) * (cv(row, cfg.rhs.value.limb1_cell)
            - cv(row, cfg.rhs.value.limb3_cell)))) * cv(row, sg)
    &&& forall|row: Seq<int>|
        #[trigger] eval(cs[lo + 3].exprs@[1], row) == (1 - cv(row, sg)) * cv(row, rf)
    &&& forall|row: Seq<int>|
        #[trigger] eval(cs[lo + 3].exprs@[2], row) == cv(row, cfg.rhs.flag_u16_rem_cell) + cv(
            row,
            cfg.rhs.flag_u16_rem_diff_cell,
        ) - 0x7fff
    &&& cs[lo + 4].exprs@.len() == 3
    &&& forall|row: Seq<int>|
        #[trigger] eval(cs[lo + 4].exprs@[0], row) == cv(row, t32) - cv(
            row,
            common.uniarg_configs[1].is_i32_cell.cell,
        )
    &&& forall|row: Seq<int>|
        #[trigger] eval(cs[lo + 4].exprs@[1], row) == cv(
            row,
            common.uniarg_configs[0].value_cell.cell,
        ) - cv(row, rhs)
    &&& forall|row: Seq<int>|
        #[trigger] eval(cs[lo + 4].exprs@[2], row) == cv(
            row,
            common.uniarg_configs[1].value_cell.cell,
        ) - cv(row, lhs)
    &&& cs[lo + 5].exprs@.len() == 1
    &&& forall|row: Seq<int>|
        #[trigger] eval(cs[lo + 5].exprs@[0], row) == cv(row, du) - u64_compose(row, cfg.diff)
    &&& cs[lo + 6].exprs@.len() == 1
    &&& forall|row: Seq<int>|
        #[trigger] eval(cs[lo + 6].exprs@[0], row) == cv(row, cfg.op_is_eq.cell) + cv(
            row,
            cfg.op_is_ne.cell,
        ) + cv(row, cfg.op_is_lt.cell) + cv(row, cfg.op_is_gt.cell) + cv(row, cfg.op_is_le.cell)
            + cv(row, cfg.op_is_ge.cell) - 1
    &&& cs[lo + 7].exprs@.len() == 4
    &&& forall|row: Seq<int>|
        #[trigger] eval(cs[lo + 7].exprs@[0], row) == cv(row, lhs) + cv(row, lt) * cv(row, du) - cv(
            row,
            gt,
        ) * cv(row, du) - cv(row, rhs)
    &&& forall|row: Seq<int>|
        #[trigger] eval(cs[lo + 7].exprs@[1], row) == cv(row, gt) + cv(row, lt) + cv(row, eq) - 1
    &&& forall|row: Seq<int>|
        #[trigger] eval(cs[lo + 7].exprs@[2], row) == cv(row, du) * cv(row, eq)
    &&& forall|row: Seq<int>|
        #[trigger] eval(cs[lo + 7].exprs@[3], row) == cv(row, du) * cv(row, cfg.diff_inv.cell) + cv(
            row,
            eq,
        ) - 1
    &&& cs[lo + 8].exprs@.len() == 12
    &&& forall|row: Seq<int>|
        #[trigger] eval(cs[lo + 8].exprs@[0], row) == cv(row, cfg.l_pos_r_pos.cell) - (1 - cv(
            row,
            lf,
        )) * (1 - cv(row, rf))
    &&& forall|row: Seq<int>|
        #[trigger] eval(cs[lo + 8].exprs@[1], row) == cv(row, cfg.l_pos_r_neg.cell) - (1 - cv(
            row,
            lf,
        )) * cv(row, rf)
    &&& forall|row: Seq<int>|
        #[trigger] eval(cs[lo + 8].exprs@[2], row) == cv(row, cfg.l_neg_r_pos.cell) - cv(row, lf)
            * (1 - cv(row, rf))
    &&& forall|row: Seq<int>|
        #[trigger] eval(cs[lo + 8].exprs@[3], row) == cv(row, cfg.l_neg_r_neg.cell) - cv(row, lf)
            * cv(row, rf)
    &&& forall|row: Seq<int>|
        #[trigger] eval(cs[lo + 8].exprs@[4], row) == cv(row, cfg.op_is_eq.cell) * (cv(row, res)
            - cv(row, eq))
    &&& forall|row: Seq<int>|
        #[trigger] eval(cs[lo + 8].exprs@[5], row) == cv(row, cfg.op_is_ne.cell) * (cv(row, res)
            - 1 + cv(row, eq))
    &&& forall|row: Seq<int>|
        #[trigger] eval(cs[lo + 8].exprs@[6], row) == cv(row, cfg.same_sign_lt.cell) - (cv(
            row,
            cfg.l_pos_r_pos.cell,
        ) + cv(row, cfg.l_neg_r_neg.cell)) * cv(row, lt)
    &&& forall|row: Seq<int>|
        #[trigger] eval(cs[lo + 8].exprs@[7], row) == cv(row, cfg.same_sign_gt.cell) - (cv(
            row,
            cfg.l_pos_r_pos.cell,
        ) + cv(row, cfg.l_neg_r_neg.cell)) * cv(row, gt)
    &&& forall|row: Seq<int>|
        #[trigger] eval(cs[lo + 8].exprs@[8], row) == cv(row, cfg.op_is_lt.cell) * (cv(row, res)
            - cv(row, cfg.l_neg_r_pos.cell) - cv(row, cfg.same_sign_lt.cell))
    &&& forall|row: Seq<int>|
        #[trigger] eval(cs[lo + 8].exprs@[9], row) == cv(row, cfg.op_is_le.cell) * (cv(row, res)
            - cv(row, cfg.l_neg_r_pos.cell) - cv(row, cfg.same_sign_lt.cell) - cv(row, eq))
    &&& forall|row: Seq<int>|
        #[trigger] eval(cs[lo + 8].exprs@[10], row) == cv(row, cfg.op_is_gt.cell) * (cv(row, res)
            - cv(row, cfg.l_pos_r_neg.cell) - cv(row, cfg.same_sign_gt.cell))
    &&& forall|row: Seq<int>|
        #[trigger] eval(cs[lo + 8].exprs@[11], row) == cv(row, cfg.op_is_ge.cell) * (cv(row, res)
            - cv(row, cfg.l_pos_r_neg.cell) - cv(row, cfg.same_sign_gt.cell) - cv(row, eq))
    &&& cs[lo + 9].exprs@.len() == 1
    &&& forall|row: Seq<int>|
        #[trigger] eval(cs[lo + 9].exprs@[0], row) == cv(
            row,
            cfg.memory_table_lookup_stack_write.encoded_cell.cell,
        ) - crate::encode::memory_key_val(
            1,
            cv(row, common.sp_cell.cell) + cv(row, common.uniarg_configs[0].is_pop_cell.cell) + cv(
                row,
                common.uniarg_configs[1].is_pop_cell.cell,
            ),
            cv(row, common.eid_cell.cell),
            1,
            cv(row, res),
        )
}

/// All registered constraints vanish modulo `p` on one valid row whose
/// inverse witness fits `p`.
#[verifier::rlimit(100)]
pub proof fn lemma_rel_row_zero(
    cfg: RelConfig,
    common: EventTableCommonConfig,
    cs: Seq<Constraint>,
    lo: int,
    row: Seq<int>,
    step: StepStatus,
    class: RelOp,
    sign: bool,
    is_i32: bool,
    l: u64,
    r: u64,
    v: u64,
    lua: UniArg,
    rua: UniArg,
    p: int,
)
    requires
        rel_eval_identities(cfg, common, cs, lo),
        rel_row_ok(cfg, common, row, step, class, sign, is_i32, l, r, v, lua, rua),
        p >= 2,
        rel_inv_ok(rel_diff_val(l, r), cv(row, cfg.diff_inv.cell), p),
    ensures
        constraints_zero_mod_range(cs, lo, lo + 10, row, p),
{
    let dv = rel_diff_val(l, r);
    let lfv = rel_flag(sign, is_i32, l);
    let rfv = rel_flag(sign, is_i32, r);
    let inv = cv(row, cfg.diff_inv.cell);
    lemma_u64_limbs(l);
    lemma_u64_limbs(r);
    lemma_u64_limbs(dv);
    lemma_flag_and_mag(is_i32, l);
    lemma_flag_and_mag(is_i32, r);
    crate::allocator::lemma_flag_from_leading(is_i32, l);
    crate::allocator::lemma_flag_from_leading(is_i32, r);
    lemma_fundamental_div_mod(crate::allocator::leading_limb(is_i32, l), 0x8000);
    lemma_fundamental_div_mod(crate::allocator::leading_limb(is_i32, r), 0x8000);
    lemma_mul_basics(crate::allocator::limb(l, 1) - crate::allocator::limb(l, 3));
    lemma_mul_basics(crate::allocator::limb(r, 1) - crate::allocator::limb(r, 3));
    lemma_mul_basics(cv(row, cfg.lhs.flag_bit_cell));
    lemma_mul_basics(cv(row, cfg.rhs.flag_bit_cell));
    lemma_mul_basics(
        cv(row, cfg.lhs.flag_bit_cell) * 0x8000 + cv(row, cfg.lhs.flag_u16_rem_cell) - (cv(
            row,
            cfg.lhs.value.limb3_cell,
        ) + cv(row, common.uniarg_configs[0].is_i32_cell.cell) * (cv(
            row,
            cfg.lhs.value.limb1_cell,
        ) - cv(row, cfg.lhs.value.limb3_cell))),
    );
    lemma_mul_basics(
        cv(row, cfg.rhs.flag_bit_cell) * 0x8000 + cv(row, cfg.rhs.flag_u16_rem_cell) - (cv(
            row,
            cfg.rhs.value.limb3_cell,
        ) + cv(row, common.uniarg_configs[0].is_i32_cell.cell) * (cv(
            row,
            cfg.rhs.value.limb1_cell,
        ) - cv(row, cfg.rhs.value.limb3_cell))),
    );
    lemma_mul_basics(dv as int);
    lemma_mul_basics(inv);
    lemma_mul_basics(1 - lfv);
    lemma_mul_basics(1 - rfv);
    lemma_mul_basics(rfv);
    lemma_mul_basics(lfv);
    lemma_mul_basics(bit_val(lfv == 0 && rfv == 0) + bit_val(lfv == 1 && rfv == 1));
    assert forall|j: int| lo <= j < lo + 10 implies constraint_zero_mod(#[trigger] cs[j], row, p) by {
        assert forall|i: int| 0 <= i < cs[j].exprs@.len() implies #[trigger] eval(
            cs[j].exprs@[i],
            row,
        ) % p == 0 by {
            if j == lo + 7 && i == 3 {
                // the inverse gadget: zero only in the field
                if dv == 0 {
                    assert(l == r);
                    assert(eval(cs[j].exprs@[i], row) == 0);
                    lemma_small_mod(0, p as nat);
                } else {
                    assert(l != r);
                    assert(eval(cs[j].exprs@[i], row) == dv * inv - 1);
                    lemma_fundamental_div_mod(dv * inv, p);
                    lemma_mod_multiples_basic((dv * inv) / p, p);
                    assert((dv * inv - 1) % p == 0) by {
                        lemma_mod_multiples_basic((dv * inv) / p, p);
                        assert(dv * inv - 1 == ((dv * inv) / p) * p) by {
                            lemma_mul_is_commutative(p, (dv * inv) / p);
                        }
                    }
                }
            } else {
                assert(eval(cs[j].exprs@[i], row) == 0);
                lemma_small_mod(0, p as nat);
            }
        }
    }
}

/// The kinds this opcode's cells occupy, in allocation order.
pub open spec fn rel_cell_kinds() -> Seq<crate::allocator::CellKind> {
    seq![crate::allocator::CellKind::Bit] + crate::allocator::u64_flag_cell_kinds()
        + crate::allocator::u64_flag_cell_kinds() + crate::allocator::u64_cell_kinds() + seq![
        crate::allocator::CellKind::Unlimited,
        crate::allocator::CellKind::Unlimited,
        crate::allocator::CellKind::Bit,
        crate::allocator::CellKind::Bit,
        crate::allocator::CellKind::Bit,
        crate::allocator::CellKind::Bit,
        crate::allocator::CellKind::Bit,
        crate::allocator::CellKind::Bit,
        crate::allocator::CellKind::Bit,
        crate::allocator::CellKind::Bit,
        crate::allocator::CellKind::Bit,
        crate::allocator::CellKind::Unlimited,
        crate::allocator::CellKind::Unlimited,
        crate::allocator::CellKind::Unlimited,
        crate::allocator::CellKind::Unlimited,
        crate::allocator::CellKind::Unlimited,
        crate::allocator::CellKind::Unlimited,
        crate::allocator::CellKind::Unlimited,
    ]
}

impl RelConfigBuilder {
    /// Declare the cells and constraints of the relational opcodes.
    #[verifier::rlimit(100)]
    pub fn configure(
        common: &EventTableCommonConfig,
        alloc: &mut CellAllocator,
        cb: &mut ConstraintBuilder,
    ) -> (cfg: RelConfig)
        requires
            common.wf(),
        ensures
            cfg.wf(),
            cfg.base() == old(alloc).count(),
            final(alloc).count() == old(alloc).count() + 40,
            final(alloc).kinds@ == old(alloc).kinds@ + rel_cell_kinds(),
            final(cb).constraints@.len() == old(cb).constraints@.len() + 10,
            forall|j: int|
                0 <= j < old(cb).constraints@.len() ==> final(cb).constraints@[j] == old(
                    cb,
                ).constraints@[j],
            rel_eval_identities(cfg, *common, final(cb).constraints@, old(cb).constraints@.len() as int),
            rel_gate(cfg, *common, final(cb).constraints@, old(cb).constraints@.len() as int),
    {
        let ghost lo = cb.constraints@.len() as int;
        let rhs_arg = common.uniarg_configs[0];
        let lhs_arg = common.uniarg_configs[1];
        let is_i32_cell = rhs_arg.is_i32_cell.cell;
        let op_is_sign = alloc.alloc_bit_cell();
        let lhs = alloc.alloc_u64_with_flag_bit_cell_dyn_sign(cb, is_i32_cell, op_is_sign.cell);
        let rhs = alloc.alloc_u64_with_flag_bit_cell_dyn_sign(cb, is_i32_cell, op_is_sign.cell);
        let mut u_exprs: Vec<Expr> = Vec::new();
        u_exprs.push(Expr::cell(rhs_arg.is_i32_cell.cell).minus(Expr::cell(lhs_arg.is_i32_cell.cell)));
        u_exprs.push(Expr::cell(rhs_arg.value_cell.cell).minus(Expr::cell(rhs.value.u64_cell)));
        u_exprs.push(Expr::cell(lhs_arg.value_cell.cell).minus(Expr::cell(lhs.value.u64_cell)));
        cb.push("op_rel: uniarg", u_exprs);
        let diff = alloc.alloc_u64_cell(cb);
        let diff_inv = alloc.alloc_unlimited_cell();
        let res = alloc.alloc_unlimited_cell();
        let res_is_eq = alloc.alloc_bit_cell();
        let res_is_lt = alloc.alloc_bit_cell();
        let res_is_gt = alloc.alloc_bit_cell();
        let op_is_eq = alloc.alloc_bit_cell();
        let op_is_ne = alloc.alloc_bit_cell();
        let op_is_lt = alloc.alloc_bit_cell();
        let op_is_gt = alloc.alloc_bit_cell();
        let op_is_le = alloc.alloc_bit_cell();
        let op_is_ge = alloc.alloc_bit_cell();
        let same_sign_lt = alloc.alloc_unlimited_cell();
        let same_sign_gt = alloc.alloc_unlimited_cell();
        let l_pos_r_pos = alloc.alloc_unlimited_cell();
        let l_pos_r_neg = alloc.alloc_unlimited_cell();
        let l_neg_r_pos = alloc.alloc_unlimited_cell();
        let l_neg_r_neg = alloc.alloc_unlimited_cell();
        let mut sel_exprs: Vec<Expr> = Vec::new();
        sel_exprs.push(
            Expr::cell(op_is_eq.cell).plus(Expr::cell(op_is_ne.cell)).plus(
                Expr::cell(op_is_lt.cell),
            ).plus(Expr::cell(op_is_gt.cell)).plus(Expr::cell(op_is_le.cell)).plus(
                Expr::cell(op_is_ge.cell),
            ).minus(Expr::constant(1)),
        );
        cb.push("rel: selector", sel_exprs);
        let mut cd_exprs: Vec<Expr> = Vec::new();
        cd_exprs.push(
            Expr::cell(lhs.value.u64_cell).plus(
                Expr::cell(res_is_lt.cell).times(Expr::cell(diff.u64_cell)),
            ).minus(Expr::cell(res_is_gt.cell).times(Expr::cell(diff.u64_cell))).minus(
                Expr::cell(rhs.value.u64_cell),
            ),
        );
        cd_exprs.push(
            Expr::cell(res_is_gt.cell).plus(Expr::cell(res_is_lt.cell)).plus(
                Expr::cell(res_is_eq.cell),
            ).minus(Expr::constant(1)),
        );
        cd_exprs.push(Expr::cell(diff.u64_cell).times(Expr::cell(res_is_eq.cell)));
        cd_exprs.push(
            Expr::cell(diff.u64_cell).times(Expr::cell(diff_inv.cell)).plus(
                Expr::cell(res_is_eq.cell),
            ).minus(Expr::constant(1)),
        );
        cb.push("rel: compare diff", cd_exprs);
        let mut op_exprs: Vec<Expr> = Vec::new();
        op_exprs.push(
            Expr::cell(l_pos_r_pos.cell).minus(
                Expr::constant(1).minus(Expr::cell(lhs.flag_bit_cell)).times(
                    Expr::constant(1).minus(Expr::cell(rhs.flag_bit_cell)),
                ),
            ),
        );
        op_exprs.push(
            Expr::cell(l_pos_r_neg.cell).minus(
                Expr::constant(1).minus(Expr::cell(lhs.flag_bit_cell)).times(
                    Expr::cell(rhs.flag_bit_cell),
                ),
            ),
        );
        op_exprs.push(
            Expr::cell(l_neg_r_pos.cell).minus(
                Expr::cell(lhs.flag_bit_cell).times(
                    Expr::constant(1).minus(Expr::cell(rhs.flag_bit_cell)),
                ),
            ),
        );
        op_exprs.push(
            Expr::cell(l_neg_r_neg.cell).minus(
                Expr::cell(lhs.flag_bit_cell).times(Expr::cell(rhs.flag_bit_cell)),
            ),
        );
        op_exprs.push(
            Expr::cell(op_is_eq.cell).times(
                Expr::cell(res.cell).minus(Expr::cell(res_is_eq.cell)),
            ),
        );
        op_exprs.push(
            Expr::cell(op_is_ne.cell).times(
                Expr::cell(res.cell).minus(Expr::constant(1)).plus(Expr::cell(res_is_eq.cell)),
            ),
        );
        op_exprs.push(
            Expr::cell(same_sign_lt.cell).minus(
                Expr::cell(l_pos_r_pos.cell).plus(Expr::cell(l_neg_r_neg.cell)).times(
                    Expr::cell(res_is_lt.cell),
                ),
            ),
        );
        op_exprs.push(
            Expr::cell(same_sign_gt.cell).minus(
                Expr::cell(l_pos_r_pos.cell).plus(Expr::cell(l_neg_r_neg.cell)).times(
                    Expr::cell(res_is_gt.cell),
                ),
            ),
        );
        op_exprs.push(
            Expr::cell(op_is_lt.cell).times(
                Expr::cell(res.cell).minus(Expr::cell(l_neg_r_pos.cell)).minus(
                    Expr::cell(same_sign_lt.cell),
                ),
            ),
        );
        op_exprs.push(
            Expr::cell(op_is_le.cell).times(
                Expr::cell(res.cell).minus(Expr::cell(l_neg_r_pos.cell)).minus(
                    Expr::cell(same_sign_lt.cell),
                ).minus(Expr::cell(res_is_eq.cell)),
            ),
        );
        op_exprs.push(
            Expr::cell(op_is_gt.cell).times(
                Expr::cell(res.cell).minus(Expr::cell(l_pos_r_neg.cell)).minus(
                    Expr::cell(same_sign_gt.cell),
                ),
            ),
        );
        op_exprs.push(
            Expr::cell(op_is_ge.cell).times(
                Expr::cell(res.cell).minus(Expr::cell(l_pos_r_neg.cell)).minus(
                    Expr::cell(same_sign_gt.cell),
                ).minus(Expr::cell(res_is_eq.cell)),
            ),
        );
        cb.push("rel: compare op res", op_exprs);
        let memory_table_lookup_stack_write = alloc.alloc_memory_table_lookup_write_cell(
            "op_rel stack write",
            cb,
            LocationType::Stack,
            Expr::cell(common.sp_cell.cell).plus(
                Expr::cell(common.uniarg_configs[0].is_pop_cell.cell),
            ).plus(Expr::cell(common.uniarg_configs[1].is_pop_cell.cell)),
            Expr::cell(common.eid_cell.cell),
            Expr::constant(1),
            Expr::cell(res.cell),
        );
        let cfg = RelConfig {
            op_is_sign,
            lhs,
            rhs,
            diff,
            diff_inv,
            res,
            res_is_eq,
            res_is_lt,
            res_is_gt,
            op_is_eq,
            op_is_ne,
            op_is_lt,
            op_is_gt,
            op_is_le,
            op_is_ge,
            same_sign_lt,
            same_sign_gt,
            l_pos_r_pos,
            l_pos_r_neg,
            l_neg_r_pos,
            l_neg_r_neg,
            memory_table_lookup_stack_write,
        };
        proof {
            assert(alloc.kinds@ =~= old(alloc).kinds@ + rel_cell_kinds());
            assert(rel_eval_identities(cfg, *common, cb.constraints@, lo));
            assert forall|
                row: Seq<int>,
                step: StepStatus,
                class: RelOp,
                sign: bool,
                is_i32: bool,
                l: u64,
                r: u64,
                v: u64,
                lua: UniArg,
                rua: UniArg,
                p: int,
            |
                rel_row_ok(cfg, *common, row, step, class, sign, is_i32, l, r, v, lua, rua) && p
                    >= 2 && rel_inv_ok(rel_diff_val(l, r), cv(row, cfg.diff_inv.cell), p) implies constraints_zero_mod_range(
                cb.constraints@,
                lo,
                lo + 10,
                row,
                p,
            ) by {
                lemma_rel_row_zero(
                    cfg,
                    *common,
                    cb.constraints@,
                    lo,
                    row,
                    step,
                    class,
                    sign,
                    is_i32,
                    l,
                    r,
                    v,
                    lua,
                    rua,
                    p,
                );
            }
        }
        cfg
    }
}

/// The sign-slot, operand, difference, and outcome cells carry the witness.
pub open spec fn rel_assigned_low(
    cfg: RelConfig,
    row: Seq<int>,
    sign: bool,
    is_i32: bool,
    l: u64,
    r: u64,
    v: u64,
    dinv: FieldVal,
) -> bool {
    &&& cv(row, cfg.op_is_sign.cell) == bit_val(sign)
    &&& cfg.lhs.holds(row, l, is_i32, sign)
    &&& cfg.rhs.holds(row, r, is_i32, sign)
    &&& cfg.diff.holds(row, rel_diff_val(l, r))
    &&& cv(row, cfg.diff_inv.cell) == (if rel_diff_val(l, r) != 0 {
        dinv.as_nat() as int
    } else {
        0int
    })
}

impl RelConfig {
    /// The encoded opcode: the class tag, the selected operation's tag, the
    /// signedness bit, and the width bit.
    pub fn opcode(&self, common: &EventTableCommonConfig) -> (r: Expr)
        requires
            common.wf(),
        ensures
            forall|row: Seq<int>|
                #[trigger] eval(r, row) == 2 * 0x1000_0000_0000_0000_0000_0000 + (cv(
                    row,
                    self.op_is_ne.cell,
                ) * 1 + cv(row, self.op_is_gt.cell) * 2 + cv(row, self.op_is_ge.cell) * 3 + cv(
                    row,
                    self.op_is_lt.cell,
                ) * 4 + cv(row, self.op_is_le.cell) * 5) * 0x1_0000_0000_0000_0000_0000 + cv(
                    row,
                    self.op_is_sign.cell,
                ) * 0x100_0000_0000_0000_0000 + cv(
                    row,
                    common.uniarg_configs[0].is_i32_cell.cell,
                ) * 0x1_0000_0000_0000_0000,
    {
        Expr::constant(2 * 0x1000_0000_0000_0000_0000_0000).plus(
            Expr::cell(self.op_is_ne.cell).times(Expr::constant(1)).plus(
                Expr::cell(self.op_is_gt.cell).times(Expr::constant(2)),
            ).plus(Expr::cell(self.op_is_ge.cell).times(Expr::constant(3))).plus(
                Expr::cell(self.op_is_lt.cell).times(Expr::constant(4)),
            ).plus(Expr::cell(self.op_is_le.cell).times(Expr::constant(5))).times(
                Expr::constant(0x1_0000_0000_0000_0000_0000),
            ),
        ).plus(Expr::cell(self.op_is_sign.cell).times(Expr::constant(0x100_0000_0000_0000_0000))).plus(
            Expr::cell(common.uniarg_configs[0].is_i32_cell.cell).times(
                Expr::constant(0x1_0000_0000_0000_0000),
            ),
        )
    }

    /// On an assigned row the opcode expression evaluates to the canonical
    /// relational encoding.
    pub proof fn lemma_opcode_value(
        &self,
        op: Expr,
        common: EventTableCommonConfig,
        row: Seq<int>,
        step: StepStatus,
        class: RelOp,
        sign: bool,
        is_i32: bool,
        l: u64,
        r: u64,
        v: u64,
        lua: UniArg,
        rua: UniArg,
    )
        requires
            forall|rw: Seq<int>|
                #[trigger] eval(op, rw) == 2 * 0x1000_0000_0000_0000_0000_0000 + (cv(
                    rw,
                    self.op_is_ne.cell,
                ) * 1 + cv(rw, self.op_is_gt.cell) * 2 + cv(rw, self.op_is_ge.cell) * 3 + cv(
                    rw,
                    self.op_is_lt.cell,
                ) * 4 + cv(rw, self.op_is_le.cell) * 5) * 0x1_0000_0000_0000_0000_0000 + cv(
                    rw,
                    self.op_is_sign.cell,
                ) * 0x100_0000_0000_0000_0000 + cv(
                    rw,
                    common.uniarg_configs[0].is_i32_cell.cell,
                ) * 0x1_0000_0000_0000_0000,
            rel_row_ok(*self, common, row, step, class, sign, is_i32, l, r, v, lua, rua),
        ensures
            eval(op, row) == encode_rel_spec(class, sign, is_i32),
    {
    }

    /// Fill the opcode's cells from one relational step.  The inverse
    /// witness for the equality gadget is supplied by the field backend and
    /// written as given.
    pub fn assign(
        &self,
        common: &EventTableCommonConfig,
        row: &mut Row,
        step: &StepStatus,
        entry: &EventTableEntryWithMemoryInfo,
        diff_inv: FieldVal,
    )
        requires
            self.wf(),
            common.wf(),
            common.top() < self.base(),
            self.base() + 39 < old(row)@.len(),
            forall|i: int| self.owns(i) ==> #[trigger] old(row).unassigned(i),
            forall|i: int|
                common.uniarg_configs@[0].owns(i) || common.uniarg_configs@[1].owns(i)
                    ==> #[trigger] old(row).unassigned(i),
            (entry.step_info is I32RelOp || entry.step_info is I64RelOp),
            entry.step_info is I32RelOp ==> rel_step_ok(
                *step,
                entry.step_info->I32RelOp_class,
                entry.step_info->I32RelOp_sign,
                true,
                entry.step_info->I32RelOp_left,
                entry.step_info->I32RelOp_right,
                entry.step_info->I32RelOp_value,
            ),
            entry.step_info is I64RelOp ==> rel_step_ok(
                *step,
                entry.step_info->I64RelOp_class,
                entry.step_info->I64RelOp_sign,
                false,
                entry.step_info->I64RelOp_left,
                entry.step_info->I64RelOp_right,
                entry.step_info->I64RelOp_value,
            ),
        ensures
            final(row)@.len() == old(row)@.len(),
            entry.step_info is I32RelOp ==> rel_uniargs_assigned(
                *self,
                *common,
                final(row)@,
                *step,
                entry.step_info->I32RelOp_class,
                entry.step_info->I32RelOp_sign,
                true,
                entry.step_info->I32RelOp_left,
                entry.step_info->I32RelOp_right,
                entry.step_info->I32RelOp_value,
                entry.step_info->I32RelOp_lhs_uniarg,
                entry.step_info->I32RelOp_rhs_uniarg,
                diff_inv,
            ),
            entry.step_info is I64RelOp ==> rel_uniargs_assigned(
                *self,
                *common,
                final(row)@,
                *step,
                entry.step_info->I64RelOp_class,
                entry.step_info->I64RelOp_sign,
                false,
                entry.step_info->I64RelOp_left,
                entry.step_info->I64RelOp_right,
                entry.step_info->I64RelOp_value,
                entry.step_info->I64RelOp_lhs_uniarg,
                entry.step_info->I64RelOp_rhs_uniarg,
                diff_inv,
            ),
            forall|i: int|
                #![trigger final(row)@[i]]
                0 <= i < old(row)@.len() && !self.owns(i) && !common.uniarg_configs@[0].owns(i)
                    && !common.uniarg_configs@[1].owns(i) ==> final(row)@[i] == old(row)@[i],
            forall|i: int|
                0 <= i < old(row)@.len() && !self.owns(i) && !common.uniarg_configs@[0].owns(i)
                    && !common.uniarg_configs@[1].owns(i) ==> #[trigger] final(row).unassigned(i)
                    == old(row).unassigned(i),
    {
        match entry.step_info {
            StepInfo::I32RelOp { class, sign, left, right, value, lhs_uniarg, rhs_uniarg } => {
                self.assign_step(
                    common,
                    row,
                    step,
                    class,
                    sign,
                    true,
                    left,
                    right,
                    value,
                    lhs_uniarg,
                    rhs_uniarg,
                    diff_inv,
                );
            },
            StepInfo::I64RelOp { class, sign, left, right, value, lhs_uniarg, rhs_uniarg } => {
                self.assign_step(
                    common,
                    row,
                    step,
                    class,
                    sign,
                    false,
                    left,
                    right,
                    value,
                    lhs_uniarg,
                    rhs_uniarg,
                    diff_inv,
                );
            },
            _ => {
                proof {
                    assert(false);
                }
            },
        }
    }

    /// Fill the cells for one comparison with its operands already
    /// extracted.
    #[verifier::rlimit(100)]
    fn assign_step(
        &self,
        common: &EventTableCommonConfig,
        row: &mut Row,
        step: &StepStatus,
        class: RelOp,
        sign: bool,
        is_i32: bool,
        l: u64,
        r: u64,
        v: u64,
        lhs_uniarg: UniArg,
        rhs_uniarg: UniArg,
        diff_inv: FieldVal,
    )
        requires
            self.wf(),
            common.wf(),
            common.top() < self.base(),
            self.base() + 39 < old(row)@.len(),
            forall|i: int| self.owns(i) ==> #[trigger] old(row).unassigned(i),
            forall|i: int|
                common.uniarg_configs@[0].owns(i) || common.uniarg_configs@[1].owns(i)
                    ==> #[trigger] old(row).unassigned(i),
            rel_step_ok(*step, class, sign, is_i32, l, r, v),
        ensures
            final(row)@.len() == old(row)@.len(),
            rel_uniargs_assigned(
                *self,
                *common,
                final(row)@,
                *step,
                class,
                sign,
                is_i32,
                l,
                r,
                v,
                lhs_uniarg,
                rhs_uniarg,
                diff_inv,
            ),
            forall|i: int|
                #![trigger final(row)@[i]]
                0 <= i < old(row)@.len() && !self.owns(i) && !common.uniarg_configs@[0].owns(i)
                    && !common.uniarg_configs@[1].owns(i) ==> final(row)@[i] == old(row)@[i],
            forall|i: int|
                0 <= i < old(row)@.len() && !self.owns(i) && !common.uniarg_configs@[0].owns(i)
                    && !common.uniarg_configs@[1].owns(i) ==> #[trigger] final(row).unassigned(i)
                    == old(row).unassigned(i),
    {
        self.assign_low(row, sign, is_i32, l, r, v, diff_inv);
        self.assign_high(common, row, step, class, sign, is_i32, l, r, v, lhs_uniarg, rhs_uniarg);
    }

    /// The handles of the sign, operand, difference, and inverse cells.
    pub open spec fn owns_low(self, i: int) -> bool {
        self.base() <= i <= self.base() + 22
    }

    /// Fill the sign slot, the operand compounds, the difference, the
    /// inverse witness, and the outcome bits.
    #[verifier::rlimit(100)]
    fn assign_low(
        &self,
        row: &mut Row,
        sign: bool,
        is_i32: bool,
        l: u64,
        r: u64,
        v: u64,
        diff_inv: FieldVal,
    )
        requires
            self.wf(),
            self.base() + 39 < old(row)@.len(),
            forall|i: int| self.owns(i) ==> #[trigger] old(row).unassigned(i),
            in_width(is_i32, l),
            in_width(is_i32, r),
        ensures
            final(row)@.len() == old(row)@.len(),
            rel_assigned_low(*self, final(row)@, sign, is_i32, l, r, v, diff_inv),
            forall|i: int|
                #![trigger final(row)@[i]]
                0 <= i < old(row)@.len() && !self.owns_low(i) ==> final(row)@[i] == old(row)@[i],
            forall|i: int|
                0 <= i < old(row)@.len() && !self.owns_low(i) ==> #[trigger] final(row).unassigned(
                    i,
                ) == old(row).unassigned(i),
    {
        row.set_bit(self.op_is_sign.cell, sign);
        self.lhs.assign(row, l, is_i32, sign);
        self.rhs.assign(row, r, is_i32, sign);
        let diff = if l >= r {
            l - r
        } else {
            r - l
        };
        self.diff.assign(row, diff);
        if diff != 0 {
            row.set(self.diff_inv.cell, diff_inv);
        } else {
            row.set_u64(self.diff_inv.cell, 0);
        }
        proof {
            assert forall|i: int| 0 <= i < old(row)@.len() && !self.owns_low(i) implies row@[i]
                == old(row)@[i] by {
                assert(!self.lhs.owns(i));
                assert(!self.rhs.owns(i));
                assert(!self.diff.owns(i));
            }
        }
    }

    /// Fill the operation selectors, the sign-combination cells, and the
    /// stack-write claim, and both argument slots.
    #[verifier::rlimit(100)]
    fn assign_high(
        &self,
        common: &EventTableCommonConfig,
        row: &mut Row,
        step: &StepStatus,
        class: RelOp,
        sign: bool,
        is_i32: bool,
        l: u64,
        r: u64,
        v: u64,
        lhs_uniarg: UniArg,
        rhs_uniarg: UniArg,
    )
        requires
            self.wf(),
            common.wf(),
            common.top() < self.base(),
            self.base() + 39 < old(row)@.len(),
            forall|i: int|
                self.base() + 23 <= i <= self.base() + 39 ==> #[trigger] old(row).unassigned(i),
            forall|i: int|
                common.uniarg_configs@[0].owns(i) || common.uniarg_configs@[1].owns(i)
                    ==> #[trigger] old(row).unassigned(i),
            rel_step_ok(*step, class, sign, is_i32, l, r, v),
        ensures
            final(row)@.len() == old(row)@.len(),
            cv(final(row)@, self.res.cell) == v,
            cv(final(row)@, self.res_is_eq.cell) == bit_val(l == r),
            cv(final(row)@, self.res_is_lt.cell) == bit_val(l < r),
            cv(final(row)@, self.res_is_gt.cell) == bit_val(l > r),
            cv(final(row)@, self.op_is_eq.cell) == bit_val(class is Eq),
            cv(final(row)@, self.op_is_ne.cell) == bit_val(class is Ne),
            cv(final(row)@, self.op_is_lt.cell) == bit_val(class is Lt),
            cv(final(row)@, self.op_is_gt.cell) == bit_val(class is Gt),
            cv(final(row)@, self.op_is_le.cell) == bit_val(class is Le),
            cv(final(row)@, self.op_is_ge.cell) == bit_val(class is Ge),
            cv(final(row)@, self.same_sign_lt.cell) == bit_val(
                rel_flag(sign, is_i32, l) == rel_flag(sign, is_i32, r) && l < r,
            ),
            cv(final(row)@, self.same_sign_gt.cell) == bit_val(
                rel_flag(sign, is_i32, l) == rel_flag(sign, is_i32, r) && l > r,
            ),
            cv(final(row)@, self.l_pos_r_pos.cell) == bit_val(
                rel_flag(sign, is_i32, l) == 0 && rel_flag(sign, is_i32, r) == 0,
            ),
            cv(final(row)@, self.l_pos_r_neg.cell) == bit_val(
                rel_flag(sign, is_i32, l) == 0 && rel_flag(sign, is_i32, r) == 1,
            ),
            cv(final(row)@, self.l_neg_r_pos.cell) == bit_val(
                rel_flag(sign, is_i32, l) == 1 && rel_flag(sign, is_i32, r) == 0,
            ),
            cv(final(row)@, self.l_neg_r_neg.cell) == bit_val(
                rel_flag(sign, is_i32, l) == 1 && rel_flag(sign, is_i32, r) == 1,
            ),
            self.memory_table_lookup_stack_write.holds(
                final(row)@,
                (MemoryLookupKey {
                    location: LocationType::Stack,
                    address: (step.sp + lhs_uniarg.pop_val() + rhs_uniarg.pop_val()) as u32,
                    eid: step.eid,
                    is_i32: true,
                    value: v,
                }),
            ),
            common.uniarg_configs@[0].assigned(
                final(row)@,
                rhs_uniarg,
                is_i32,
                r,
                (step.sp + 1) as u32,
                step.eid,
            ),
            common.uniarg_configs@[1].assigned(
                final(row)@,
                lhs_uniarg,
                is_i32,
                l,
                (step.sp + 1 + rhs_uniarg.pop_val()) as u32,
                step.eid,
            ),
            forall|i: int|
                #![trigger final(row)@[i]]
                0 <= i < old(row)@.len() && !(self.base() + 23 <= i <= self.base() + 39)
                    && !common.uniarg_configs@[0].owns(i) && !common.uniarg_configs@[1].owns(i)
                    ==> final(row)@[i] == old(row)@[i],
            forall|i: int|
                0 <= i < old(row)@.len() && !(self.base() + 23 <= i <= self.base() + 39)
                    && !common.uniarg_configs@[0].owns(i) && !common.uniarg_configs@[1].owns(i)
                    ==> #[trigger] final(row).unassigned(i) == old(row).unassigned(i),
    {
        let lneg = if sign {
            top_flag(is_i32, l)
        } else {
            false
        };
        let rneg = if sign {
            top_flag(is_i32, r)
        } else {
            false
        };
        proof {
            lemma_flag_and_mag(is_i32, l);
            lemma_flag_and_mag(is_i32, r);
        }
        row.set_u64(self.res.cell, v);
        row.set_bit(self.res_is_eq.cell, l == r);
        row.set_bit(self.res_is_lt.cell, l < r);
        row.set_bit(self.res_is_gt.cell, l > r);
        row.set_bit(self.op_is_eq.cell, matches!(class, RelOp::Eq));
        row.set_bit(self.op_is_ne.cell, matches!(class, RelOp::Ne));
        row.set_bit(self.op_is_lt.cell, matches!(class, RelOp::Lt));
        row.set_bit(self.op_is_gt.cell, matches!(class, RelOp::Gt));
        row.set_bit(self.op_is_le.cell, matches!(class, RelOp::Le));
        row.set_bit(self.op_is_ge.cell, matches!(class, RelOp::Ge));
        row.set_bit(self.same_sign_lt.cell, lneg == rneg && l < r);
        row.set_bit(self.same_sign_gt.cell, lneg == rneg && l > r);
        row.set_bit(self.l_pos_r_pos.cell, !lneg && !rneg);
        row.set_bit(self.l_pos_r_neg.cell, !lneg && rneg);
        row.set_bit(self.l_neg_r_pos.cell, lneg && !rneg);
        row.set_bit(self.l_neg_r_neg.cell, lneg && rneg);
        self.memory_table_lookup_stack_write.assign(
            row,
            MemoryLookupKey {
                location: LocationType::Stack,
                address: step.sp + (if matches!(lhs_uniarg, UniArg::Pop) {
                    1
                } else {
                    0
                }) + (if matches!(rhs_uniarg, UniArg::Pop) {
                    1
                } else {
                    0
                }),
                eid: step.eid,
                is_i32: true,
                value: v,
            },
        );
        common.uniarg_configs[0].assign(row, rhs_uniarg, is_i32, r, step.sp + 1, step.eid);
        common.uniarg_configs[1].assign(
            row,
            lhs_uniarg,
            is_i32,
            l,
            step.sp + 1 + (if matches!(rhs_uniarg, UniArg::Pop) {
                1
            } else {
                0
            }),
            step.eid,
        );
        proof {
            assert forall|i: int|
                0 <= i < old(row)@.len() && !(self.base() + 23 <= i <= self.base() + 39)
                    && !common.uniarg_configs@[0].owns(i) && !common.uniarg_configs@[1].owns(i) implies row@[i]
                == old(row)@[i] by {
                assert(!self.memory_table_lookup_stack_write.owns(i));
            }
        }
    }

    /// One memory-table entry is written per step.
    pub fn memory_writing_ops(&self, _entry: &EventTableEntryWithMemoryInfo) -> (r: u32)
        ensures
            r == 1,
    {
        1
    }

    /// One claimed memory write beyond the argument reads.
    pub fn mops(&self) -> (r: Option<Expr>)
        ensures
            r is Some,
            forall|row: Seq<int>| #[trigger] eval(r.unwrap(), row) == 1,
    {
        Some(Expr::constant(1))
    }

    /// The pushed result moves the stack top by one; the argument pops are
    /// accounted by the argument slots.
    pub fn sp_diff(&self) -> (r: Option<Expr>)
        ensures
            r is Some,
            forall|row: Seq<int>| #[trigger] eval(r.unwrap(), row) == -1,
    {
        Some(Expr::constant(0).minus(Expr::constant(1)))
    }
}

/// The opcode cells and both argument slots carry a full witness.
pub open spec fn rel_uniargs_assigned(
    cfg: RelConfig,
    common: EventTableCommonConfig,
    row: Seq<int>,
    step: StepStatus,
    class: RelOp,
    sign: bool,
    is_i32: bool,
    l: u64,
    r: u64,
    v: u64,
    lhs_uniarg: UniArg,
    rhs_uniarg: UniArg,
    dinv: FieldVal,
) -> bool {
    &&& rel_assigned(cfg, row, step, class, sign, is_i32, l, r, v, lhs_uniarg, rhs_uniarg)
    &&& cv(row, cfg.diff_inv.cell) == (if rel_diff_val(l, r) != 0 {
        dinv.as_nat() as int
    } else {
        0int
    })
    &&& common.uniarg_configs@[0].assigned(row, rhs_uniarg, is_i32, r, (step.sp + 1) as u32, step.eid)
    &&& common.uniarg_configs@[1].assigned(
        row,
        lhs_uniarg,
        is_i32,
        l,
        (step.sp + 1 + rhs_uniarg.pop_val()) as u32,
        step.eid,
    )
}

} // verus!
