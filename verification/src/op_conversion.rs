//! The width-conversion opcodes: wrap a 64-bit value to 32 bits, and sign-
//! or zero-extend 8-, 16-, and 32-bit values to a wider result.
//!
//! A single value cell and one flag bit per source width select the shape.
//! The operand is split as `value = d * modulus + flag * shift + rem` where
//! `shift` is the sign-bit weight of the chosen width and `modulus` twice
//! that; `rem < shift` is enforced by witnessing the gap.  The result is
//! composed as `flag * padding * sign_op + flag * shift + rem`: `padding` is
//! all-ones above the shift point, filling the high bits exactly when the
//! conversion is signed.

use crate::allocator::{
    lemma_u64_limbs, u64_compose, AllocatedBitCell, AllocatedU64Cell, AllocatedUnlimitedCell,
    CellAllocator,
};
use crate::builder::{constraints_zero_range, Constraint, ConstraintBuilder};
use crate::encode::{bit_val, encode_conversion_spec, LocationType, MemoryLookupKey};
use crate::etable::{
    common_assigned, AllocatedMemoryTableLookupWriteCellWithValue, EventTableCommonConfig,
    EventTableEntryWithMemoryInfo, StepInfo, StepStatus, UniArg,
};
use crate::expr::{cv, eval, Expr};
use crate::row::Row;
use vstd::arithmetic::div_mod::{
    lemma_fundamental_div_mod, lemma_fundamental_div_mod_converse,
    lemma_mod_division_less_than_divisor,
};
use vstd::arithmetic::mul::{lemma_mul_basics, lemma_mul_is_commutative};
use vstd::prelude::*;

verus! {

pub struct ConversionConfig {
    pub value: AllocatedU64Cell,
    pub value_is_i8: AllocatedBitCell,
    pub value_is_i16: AllocatedBitCell,
    pub value_is_i32: AllocatedBitCell,
    pub value_is_i64: AllocatedBitCell,
    pub res_is_i32: AllocatedBitCell,
    pub res_is_i64: AllocatedBitCell,
    pub sign_op: AllocatedBitCell,
    pub is_i32_wrap_i64: AllocatedBitCell,
    pub flag_bit: AllocatedBitCell,
    pub shift: AllocatedUnlimitedCell,
    pub padding: AllocatedUnlimitedCell,
    pub d: AllocatedU64Cell,
    pub rem: AllocatedU64Cell,
    pub rem_helper: AllocatedU64Cell,
    pub modulus: AllocatedUnlimitedCell,
    pub memory_table_lookup_stack_write: AllocatedMemoryTableLookupWriteCellWithValue,
}

pub struct ConversionConfigBuilder {}

/// Whether the step is one of the conversion family's variants.
pub open spec fn conv_is(info: StepInfo) -> bool {
    ||| info is I32WrapI64
    ||| info is I64ExtendI32
    ||| info is I32SignExtendI8
    ||| info is I32SignExtendI16
    ||| info is I64SignExtendI8
    ||| info is I64SignExtendI16
    ||| info is I64SignExtendI32
}

pub open spec fn conv_value(info: StepInfo) -> u64 {
    match info {
        StepInfo::I32WrapI64 { value, .. } => value,
        StepInfo::I64ExtendI32 { value, .. } => value,
        StepInfo::I32SignExtendI8 { value, .. } => value,
        StepInfo::I32SignExtendI16 { value, .. } => value,
        StepInfo::I64SignExtendI8 { value, .. } => value,
        StepInfo::I64SignExtendI16 { value, .. } => value,
        StepInfo::I64SignExtendI32 { value, .. } => value,
        _ => 0,
    }
}

pub open spec fn conv_result(info: StepInfo) -> u64 {
    match info {
        StepInfo::I32WrapI64 { result, .. } => result,
        StepInfo::I64ExtendI32 { result, .. } => result,
        StepInfo::I32SignExtendI8 { result, .. } => result,
        StepInfo::I32SignExtendI16 { result, .. } => result,
        StepInfo::I64SignExtendI8 { result, .. } => result,
        StepInfo::I64SignExtendI16 { result, .. } => result,
        StepInfo::I64SignExtendI32 { result, .. } => result,
        _ => 0,
    }
}

pub open spec fn conv_uniarg(info: StepInfo) -> UniArg {
    match info {
        StepInfo::I32WrapI64 { uniarg, .. } => uniarg,
        StepInfo::I64ExtendI32 { uniarg, .. } => uniarg,
        StepInfo::I32SignExtendI8 { uniarg, .. } => uniarg,
        StepInfo::I32SignExtendI16 { uniarg, .. } => uniarg,
        StepInfo::I64SignExtendI8 { uniarg, .. } => uniarg,
        StepInfo::I64SignExtendI16 { uniarg, .. } => uniarg,
        StepInfo::I64SignExtendI32 { uniarg, .. } => uniarg,
        _ => UniArg::Pop,
    }
}

/// The conversion is a sign extension (the wrap is not; the 32-to-64
/// extension carries its own signedness flag).
pub open spec fn conv_sign(info: StepInfo) -> bool {
    match info {
        StepInfo::I32WrapI64 { .. } => false,
        StepInfo::I64ExtendI32 { sign, .. } => sign,
        _ => true,
    }
}

pub open spec fn conv_value_is_i8(info: StepInfo) -> bool {
    info is I32SignExtendI8 || info is I64SignExtendI8
}

pub open spec fn conv_value_is_i16(info: StepInfo) -> bool {
    info is I32SignExtendI16 || info is I64SignExtendI16
}

pub open spec fn conv_value_is_i32(info: StepInfo) -> bool {
    info is I64ExtendI32 || info is I64SignExtendI32
}

pub open spec fn conv_value_is_i64(info: StepInfo) -> bool {
    info is I32WrapI64
}

pub open spec fn conv_res_is_i32(info: StepInfo) -> bool {
    info is I32WrapI64 || info is I32SignExtendI8 || info is I32SignExtendI16
}

pub open spec fn conv_res_is_i64(info: StepInfo) -> bool {
    !conv_res_is_i32(info)
}

/// The operand is a 32-bit value for the 32-bit source variants.
pub open spec fn conv_operand_is_i32(info: StepInfo) -> bool {
    info is I64ExtendI32 || info is I32SignExtendI8 || info is I32SignExtendI16
}

/// The sign-bit weight of the source width (the wrap uses the 32-bit weight
/// so the split constraint degenerates correctly).
pub open spec fn conv_shift(info: StepInfo) -> int {
    if conv_value_is_i8(info) {
        0x80
    } else if conv_value_is_i16(info) {
        0x8000
    } else {
        0x8000_0000
    }
}

/// All-ones above the source width, up to the result width.
pub open spec fn conv_padding(info: StepInfo) -> int {
    (if conv_value_is_i8(info) {
        0xffff_ff00
    } else if conv_value_is_i16(info) {
        0xffff_0000int
    } else {
        0int
    }) + (if conv_res_is_i64(info) {
        0xffff_ffff_0000_0000
    } else {
        0int
    })
}

pub open spec fn conv_modulus(info: StepInfo) -> int {
    2 * conv_shift(info)
}

/// The split witnesses of the operand.
pub open spec fn conv_d(info: StepInfo) -> int {
    conv_value(info) as int / conv_modulus(info)
}

pub open spec fn conv_flag(info: StepInfo) -> int {
    (conv_value(info) as int % conv_modulus(info)) / conv_shift(info)
}

pub open spec fn conv_rem(info: StepInfo) -> int {
    (conv_value(info) as int % conv_modulus(info)) % conv_shift(info)
}

/// The composed result the constraints force.
pub open spec fn conv_result_val(info: StepInfo) -> int {
    conv_flag(info) * conv_padding(info) * bit_val(conv_sign(info)) + conv_flag(info) * conv_shift(
        info,
    ) + conv_rem(info)
}

/// A valid conversion step: the operand fits its source type and the result
/// is the composed conversion of the operand.
pub open spec fn conv_step_ok(step: StepStatus, info: StepInfo) -> bool {
    &&& step.wf()
    &&& conv_is(info)
    &&& conv_operand_is_i32(info) ==> conv_value(info) < 0x1_0000_0000
    &&& conv_result(info) == conv_result_val(info)
}

/// The cells of a conversion row carry a full witness for the step.
pub open spec fn conv_assigned(
    cfg: ConversionConfig,
    row: Seq<int>,
    step: StepStatus,
    info: StepInfo,
) -> bool {
    &&& cfg.value.holds(row, conv_value(info))
    &&& cv(row, cfg.value_is_i8.cell) == bit_val(conv_value_is_i8(info))
    &&& cv(row, cfg.value_is_i16.cell) == bit_val(conv_value_is_i16(info))
    &&& cv(row, cfg.value_is_i32.cell) == bit_val(conv_value_is_i32(info))
    &&& cv(row, cfg.value_is_i64.cell) == bit_val(conv_value_is_i64(info))
    &&& cv(row, cfg.res_is_i32.cell) == bit_val(conv_res_is_i32(info))
    &&& cv(row, cfg.res_is_i64.cell) == bit_val(conv_res_is_i64(info))
    &&& cv(row, cfg.sign_op.cell) == bit_val(conv_sign(info))
    &&& cv(row, cfg.is_i32_wrap_i64.cell) == bit_val(info is I32WrapI64)
    &&& cv(row, cfg.flag_bit.cell) == conv_flag(info)
    &&& cv(row, cfg.shift.cell) == conv_shift(info)
    &&& cv(row, cfg.padding.cell) == conv_padding(info)
    &&& cfg.d.holds(row, conv_d(info) as u64)
    &&& cfg.rem.holds(row, conv_rem(info) as u64)
    &&& cfg.rem_helper.holds(row, (conv_shift(info) - 1 - conv_rem(info)) as u64)
    &&& cv(row, cfg.modulus.cell) == conv_modulus(info)
    &&& cfg.memory_table_lookup_stack_write.holds(
        row,
        (MemoryLookupKey {
            location: LocationType::Stack,
            address: (step.sp + conv_uniarg(info).pop_val()) as u32,
            eid: step.eid,
            is_i32: conv_res_is_i32(info),
            value: conv_result(info),
        }),
    )
}

/// A row carrying a valid conversion witness over an assigned common
/// context, with the operand loaded through the first argument slot.
pub open spec fn conv_row_ok(
    cfg: ConversionConfig,
    common: EventTableCommonConfig,
    row: Seq<int>,
    step: StepStatus,
    info: StepInfo,
) -> bool {
    &&& common.wf()
    &&& conv_step_ok(step, info)
    &&& common_assigned(common, row, step)
    &&& common.uniarg_configs@[0].assigned(
        row,
        conv_uniarg(info),
        conv_operand_is_i32(info),
        conv_value(info),
        (step.sp + 1) as u32,
        step.eid,
    )
    &&& conv_assigned(cfg, row, step, info)
}

/// Every constraint the conversion builder registers evaluates to zero on
/// every row that carries a valid conversion witness.
pub open spec fn conv_gate(
    cfg: ConversionConfig,
    common: EventTableCommonConfig,
    cs: Seq<Constraint>,
    lo: int,
) -> bool {
    forall|row: Seq<int>, step: StepStatus, info: StepInfo|
        #[trigger] conv_row_ok(cfg, common, row, step, info) ==> constraints_zero_range(
            cs,
            lo,
            lo + 10,
            row,
        )
}

impl ConversionConfig {
    pub open spec fn base(self) -> int {
        self.value.limb0_cell as int
    }

    pub open spec fn wf(self) -> bool {
        &&& self.value.wf()
        &&& self.d.wf()
        &&& self.rem.wf()
        &&& self.rem_helper.wf()
        &&& self.memory_table_lookup_stack_write.wf()
        &&& self.value_is_i8.cell == self.base() + 5
        &&& self.value_is_i16.cell == self.base() + 6
        &&& self.value_is_i32.cell == self.base() + 7
        &&& self.value_is_i64.cell == self.base() + 8
        &&& self.res_is_i32.cell == self.base() + 9
        &&& self.res_is_i64.cell == self.base() + 10
        &&& self.sign_op.cell == self.base() + 11
        &&& self.is_i32_wrap_i64.cell == self.base() + 12
        &&& self.flag_bit.cell == self.base() + 13
        &&& self.shift.cell == self.base() + 14
        &&& self.padding.cell == self.base() + 15
        &&& self.d.limb0_cell == self.base() + 16
        &&& self.rem.limb0_cell == self.base() + 21
        &&& self.rem_helper.limb0_cell == self.base() + 26
        &&& self.modulus.cell == self.base() + 31
        &&& self.memory_table_lookup_stack_write.value_cell.cell == self.base() + 32
    }

    pub open spec fn owns(self, i: int) -> bool {
        self.base() <= i <= self.base() + 33
    }
}

/// The split and composition facts of one valid conversion row.
pub proof fn lemma_conv_arith(info: StepInfo)
    requires
        conv_is(info),
        conv_operand_is_i32(info) ==> conv_value(info) < 0x1_0000_0000,
    ensures
        conv_value(info) == conv_d(info) * conv_modulus(info) + conv_flag(info) * conv_shift(info)
            + conv_rem(info),
        0 <= conv_rem(info) < conv_shift(info),
        0 <= conv_flag(info) <= 1,
        0 <= conv_d(info) < 0x1_0000_0000_0000_0000,
        info is I32WrapI64 ==> conv_flag(info) * conv_shift(info) + conv_rem(info) == conv_value(
            info,
        ) as int % 0x1_0000_0000,
{
    let v = conv_value(info) as int;
    let m = conv_modulus(info);
    let sh = conv_shift(info);
    lemma_fundamental_div_mod(v, m);
    lemma_mod_division_less_than_divisor(v, m);
    lemma_fundamental_div_mod(v % m, sh);
    lemma_mod_division_less_than_divisor(v % m, sh);
    lemma_mul_is_commutative(m, conv_d(info));
    lemma_mul_is_commutative(sh, conv_flag(info));
    assert(conv_flag(info) < 2 && conv_flag(info) >= 0) by {
        lemma_fundamental_div_mod(v % m, sh);
        if conv_flag(info) >= 2 {
            vstd::arithmetic::mul::lemma_mul_inequality(2, conv_flag(info), sh);
            lemma_mul_is_commutative(sh, conv_flag(info));
            assert(false);
        }
        vstd::arithmetic::div_mod::lemma_div_pos_is_pos(v % m, sh);
    }
    assert(conv_d(info) < 0x1_0000_0000_0000_0000 && conv_d(info) >= 0) by {
        vstd::arithmetic::div_mod::lemma_div_nonincreasing(v, m);
        vstd::arithmetic::div_mod::lemma_div_pos_is_pos(v, m);
    }
}

/// The exact polynomial each registered constraint expression evaluates to.
pub open spec fn conv_eval_identities(
    cfg: ConversionConfig,
    common: EventTableCommonConfig,
    cs: Seq<Constraint>,
    lo: int,
) -> bool {
    let val = cfg.value.u64_cell;
    let res = cfg.memory_table_lookup_stack_write.value_cell.cell;
    let v8 = cfg.value_is_i8.cell;
    let v16 = cfg.value_is_i16.cell;
    let v32 = cfg.value_is_i32.cell;
    let v64 = cfg.value_is_i64.cell;
    let r32 = cfg.res_is_i32.cell;
    let r64 = cfg.res_is_i64.cell;
    let wrap = cfg.is_i32_wrap_i64.cell;
    let fl = cfg.flag_bit.cell;
    let sh = cfg.shift.cell;
    let pad = cfg.padding.cell;
    let md = cfg.modulus.cell;
    &&& common.wf()
    &&& 0 <= lo && cs.len() >= lo + 10
    &&& cs[lo].exprs@.len() == 1
    &&& forall|row: Seq<int>|
        #[trigger] eval(cs[lo].exprs@[0], row) == cv(row, val) - u64_compose(row, cfg.value)
    &&& cs[lo + 1].exprs@.len() == 1
    &&& forall|row: Seq<int>|
        #[trigger] eval(cs[lo + 1].exprs@[0], row) == cv(row, cfg.d.u64_cell) - u64_compose(
            row,
            cfg.d,
        )
    &&& cs[lo + 2].exprs@.len() == 1
    &&& forall|row: Seq<int>|
        #[trigger] eval(cs[lo + 2].exprs@[0], row) == cv(row, cfg.rem.u64_cell) - u64_compose(
            row,
            cfg.rem,
        )
    &&& cs[lo + 3].exprs@.len() == 1
    &&& forall|row: Seq<int>|
        #[trigger] eval(cs[lo + 3].exprs@[0], row) == cv(row, cfg.rem_helper.u64_cell)
            - u64_compose(row, cfg.rem_helper)
    &&& cs[lo + 4].exprs@.len() == 1
    &&& forall|row: Seq<int>|
        #[trigger] eval(cs[lo + 4].exprs@[0], row) == cv(
            row,
            common.uniarg_configs[0].value_cell.cell,
        ) - cv(row, val)
    &&& cs[lo + 5].exprs@.len() == 1
    &&& forall|row: Seq<int>|
        #[trigger] eval(cs[lo + 5].exprs@[0], row) == cv(
            row,
            cfg.memory_table_lookup_stack_write.encoded_cell.cell,
        ) - crate::encode::memory_key_val(
            1,
            cv(row, common.sp_cell.cell) + cv(row, common.uniarg_configs[0].is_pop_cell.cell),
            cv(row, common.eid_cell.cell),
            cv(row, r32),
            cv(row, res),
        )
    &&& cs[lo + 6].exprs@.len() == 2
    &&& forall|row: Seq<int>|
        #[trigger] eval(cs[lo + 6].exprs@[0], row) == cv(row, wrap) * (cv(row, v64) + cv(row, r32)
            - 2)
    &&& forall|row: Seq<int>|
        #[trigger] eval(cs[lo + 6].exprs@[1], row) == cv(row, wrap) * (cv(
            row,
            cfg.value.limb1_cell,
        ) * 0x1_0000 + cv(row, cfg.value.limb0_cell) - cv(row, res))
    &&& cs[lo + 7].exprs@.len() == 3
    &&& forall|row: Seq<int>|
        #[trigger] eval(cs[lo + 7].exprs@[0], row) == cv(row, sh) - (cv(row, v8) * 0x80 + cv(
            row,
            v16,
        ) * 0x8000 + (cv(row, v32) + cv(row, v64)) * 0x8000_0000)
    &&& forall|row: Seq<int>|
        #[trigger] eval(cs[lo + 7].exprs@[1], row) == cv(row, pad) - (cv(row, v8) * 0xffff_ff00
            + cv(row, v16) * 0xffff_0000 + cv(row, r64) * 0xffff_ffff_0000_0000)
    &&& forall|row: Seq<int>|
        #[trigger] eval(cs[lo + 7].exprs@[2], row) == cv(row, md) - cv(row, sh) * 2
    &&& cs[lo + 8].exprs@.len() == 2
    &&& forall|row: Seq<int>|
        #[trigger] eval(cs[lo + 8].exprs@[0], row) == cv(row, val) - cv(row, cfg.d.u64_cell) * cv(
            row,
            md,
        ) - cv(row, fl) * cv(row, sh) - cv(row, cfg.rem.u64_cell)
    &&& forall|row: Seq<int>|
        #[trigger] eval(cs[lo + 8].exprs@[1], row) == cv(row, cfg.rem.u64_cell) + 1 + cv(
            row,
            cfg.rem_helper.u64_cell,
        ) - cv(row, sh)
    &&& cs[lo + 9].exprs@.len() == 1
    &&& forall|row: Seq<int>|
        #[trigger] eval(cs[lo + 9].exprs@[0], row) == (cv(row, fl) * cv(row, pad)) * cv(
            row,
            cfg.sign_op.cell,
        ) + cv(row, fl) * cv(row, sh) + cv(row, cfg.rem.u64_cell) - cv(row, res)
}

/// All registered constraints vanish on one valid conversion row.
#[verifier::rlimit(100)]
pub proof fn lemma_conv_row_zero(
    cfg: ConversionConfig,
    common: EventTableCommonConfig,
    cs: Seq<Constraint>,
    lo: int,
    row: Seq<int>,
    step: StepStatus,
    info: StepInfo,
)
    requires
        conv_eval_identities(cfg, common, cs, lo),
        conv_row_ok(cfg, common, row, step, info),
    ensures
        constraints_zero_range(cs, lo, lo + 10, row),
{
    lemma_conv_arith(info);
    lemma_u64_limbs(conv_value(info));
    lemma_u64_limbs(conv_d(info) as u64);
    lemma_u64_limbs(conv_rem(info) as u64);
    lemma_u64_limbs((conv_shift(info) - 1 - conv_rem(info)) as u64);
    lemma_mul_basics(cv(row, cfg.value_is_i64.cell) + cv(row, cfg.res_is_i32.cell) - 2);
    lemma_mul_basics(
        cv(row, cfg.value.limb1_cell) * 0x1_0000 + cv(row, cfg.value.limb0_cell) - cv(
            row,
            cfg.memory_table_lookup_stack_write.value_cell.cell,
        ),
    );
    lemma_mul_basics(conv_padding(info));
    lemma_mul_basics(conv_flag(info) * conv_padding(info));
    lemma_mul_basics(conv_shift(info));
    lemma_mul_is_commutative(conv_shift(info), 2);
    if info is I32WrapI64 {
        let v = conv_value(info);
        lemma_fundamental_div_mod_converse(
            v as int,
            0x1_0000_0000,
            crate::allocator::limb(v, 2) + crate::allocator::limb(v, 3) * 0x1_0000,
            crate::allocator::limb(v, 0) + crate::allocator::limb(v, 1) * 0x1_0000,
        );
    }
    assert(crate::builder::constraint_zero(cs[lo], row));
    assert(crate::builder::constraint_zero(cs[lo + 1], row));
    assert(crate::builder::constraint_zero(cs[lo + 2], row));
    assert(crate::builder::constraint_zero(cs[lo + 3], row));
    assert(crate::builder::constraint_zero(cs[lo + 4], row));
    assert(crate::builder::constraint_zero(cs[lo + 5], row));
    assert(crate::builder::constraint_zero(cs[lo + 6], row));
    assert(crate::builder::constraint_zero(cs[lo + 7], row));
    assert(crate::builder::constraint_zero(cs[lo + 8], row));
    assert(crate::builder::constraint_zero(cs[lo + 9], row));
}

/// The kinds this opcode's cells occupy, in allocation order.
pub open spec fn conv_cell_kinds() -> Seq<crate::allocator::CellKind> {
    crate::allocator::u64_cell_kinds() + seq![
        crate::allocator::CellKind::Bit,
        crate::allocator::CellKind::Bit,
        crate::allocator::CellKind::Bit,
        crate::allocator::CellKind::Bit,
        crate::allocator::CellKind::Bit,
        crate::allocator::CellKind::Bit,
        crate::allocator::CellKind::Bit,
        crate::allocator::CellKind::Bit,
        crate::allocator::CellKind::Bit,
        crate::allocator::CellKind::Unlimited,
        crate::allocator::CellKind::Unlimited,
    ] + crate::allocator::u64_cell_kinds() + crate::allocator::u64_cell_kinds()
        + crate::allocator::u64_cell_kinds() + seq![
        crate::allocator::CellKind::Unlimited,
        crate::allocator::CellKind::Unlimited,
        crate::allocator::CellKind::Unlimited,
    ]
}

impl ConversionConfigBuilder {
    /// Declare the cells and constraints of the conversion opcodes.
    #[verifier::rlimit(100)]
    pub fn configure(
        common: &EventTableCommonConfig,
        alloc: &mut CellAllocator,
        cb: &mut ConstraintBuilder,
    ) -> (cfg: ConversionConfig)
        requires
            common.wf(),
        ensures
            cfg.wf(),
            cfg.base() == old(alloc).count(),
            final(alloc).count() == old(alloc).count() + 34,
            final(alloc).kinds@ == old(alloc).kinds@ + conv_cell_kinds(),
            final(cb).constraints@.len() == old(cb).constraints@.len() + 10,
            forall|j: int|
                0 <= j < old(cb).constraints@.len() ==> final(cb).constraints@[j] == old(
                    cb,
                ).constraints@[j],
            conv_eval_identities(
                cfg,
                *common,
                final(cb).constraints@,
                old(cb).constraints@.len() as int,
            ),
            conv_gate(cfg, *common, final(cb).constraints@, old(cb).constraints@.len() as int),
    {
        let ghost lo = cb.constraints@.len() as int;
        let value_arg = common.uniarg_configs[0];
        let value = alloc.alloc_u64_cell(cb);
        let value_is_i8 = alloc.alloc_bit_cell();
        let value_is_i16 = alloc.alloc_bit_cell();
        let value_is_i32 = alloc.alloc_bit_cell();
        let value_is_i64 = alloc.alloc_bit_cell();
        let res_is_i32 = alloc.alloc_bit_cell();
        let res_is_i64 = alloc.alloc_bit_cell();
        let sign_op = alloc.alloc_bit_cell();
        let is_i32_wrap_i64 = alloc.alloc_bit_cell();
        let flag_bit = alloc.alloc_bit_cell();
        let shift = alloc.alloc_unlimited_cell();
        let padding = alloc.alloc_unlimited_cell();
        let d = alloc.alloc_u64_cell(cb);
        let rem = alloc.alloc_u64_cell(cb);
        let rem_helper = alloc.alloc_u64_cell(cb);
        let modulus = alloc.alloc_unlimited_cell();
        let mut u_exprs: Vec<Expr> = Vec::new();
        u_exprs.push(Expr::cell(value_arg.value_cell.cell).minus(Expr::cell(value.u64_cell)));
        cb.push("op_conversion: uniarg", u_exprs);
        let memory_table_lookup_stack_write = alloc.alloc_memory_table_lookup_write_cell_with_value(
            "op_conversion stack write",
            cb,
            LocationType::Stack,
            Expr::cell(common.sp_cell.cell).plus(Expr::cell(value_arg.is_pop_cell.cell)),
            Expr::cell(common.eid_cell.cell),
            Expr::cell(res_is_i32.cell),
        );
        let res_cell = memory_table_lookup_stack_write.value_cell.cell;
        let mut w_exprs: Vec<Expr> = Vec::new();
        w_exprs.push(
            Expr::cell(is_i32_wrap_i64.cell).times(
                Expr::cell(value_is_i64.cell).plus(Expr::cell(res_is_i32.cell)).minus(
                    Expr::constant(2),
                ),
            ),
        );
        w_exprs.push(
            Expr::cell(is_i32_wrap_i64.cell).times(
                Expr::cell(value.limb1_cell).times(Expr::constant(0x1_0000)).plus(
                    Expr::cell(value.limb0_cell),
                ).minus(Expr::cell(res_cell)),
            ),
        );
        cb.push("op_conversion i32_wrap_i64", w_exprs);
        let mut h_exprs: Vec<Expr> = Vec::new();
        h_exprs.push(
            Expr::cell(shift.cell).minus(
                Expr::cell(value_is_i8.cell).times(Expr::constant(0x80)).plus(
                    Expr::cell(value_is_i16.cell).times(Expr::constant(0x8000)),
                ).plus(
                    Expr::cell(value_is_i32.cell).plus(Expr::cell(value_is_i64.cell)).times(
                        Expr::constant(0x8000_0000),
                    ),
                ),
            ),
        );
        h_exprs.push(
            Expr::cell(padding.cell).minus(
                Expr::cell(value_is_i8.cell).times(Expr::constant(0xffff_ff00)).plus(
                    Expr::cell(value_is_i16.cell).times(Expr::constant(0xffff_0000)),
                ).plus(Expr::cell(res_is_i64.cell).times(Expr::constant(0xffff_ffff_0000_0000))),
            ),
        );
        h_exprs.push(
            Expr::cell(modulus.cell).minus(Expr::cell(shift.cell).times(Expr::constant(2))),
        );
        cb.push("op_conversion helper", h_exprs);
        let mut s_exprs: Vec<Expr> = Vec::new();
        s_exprs.push(
            Expr::cell(value.u64_cell).minus(
                Expr::cell(d.u64_cell).times(Expr::cell(modulus.cell)),
            ).minus(Expr::cell(flag_bit.cell).times(Expr::cell(shift.cell))).minus(
                Expr::cell(rem.u64_cell),
            ),
        );
        s_exprs.push(
            Expr::cell(rem.u64_cell).plus(Expr::constant(1)).plus(
                Expr::cell(rem_helper.u64_cell),
            ).minus(Expr::cell(shift.cell)),
        );
        cb.push("op_conversion: split operand", s_exprs);
        let mut x_exprs: Vec<Expr> = Vec::new();
        x_exprs.push(
            Expr::cell(flag_bit.cell).times(Expr::cell(padding.cell)).times(
                Expr::cell(sign_op.cell),
            ).plus(Expr::cell(flag_bit.cell).times(Expr::cell(shift.cell))).plus(
                Expr::cell(rem.u64_cell),
            ).minus(Expr::cell(res_cell)),
        );
        cb.push("op_conversion: sign extension", x_exprs);
        let cfg = ConversionConfig {
            value,
            value_is_i8,
            value_is_i16,
            value_is_i32,
            value_is_i64,
            res_is_i32,
            res_is_i64,
            sign_op,
            is_i32_wrap_i64,
            flag_bit,
            shift,
            padding,
            d,
            rem,
            rem_helper,
            modulus,
            memory_table_lookup_stack_write,
        };
        proof {
            assert(alloc.kinds@ =~= old(alloc).kinds@ + conv_cell_kinds());
            assert(conv_eval_identities(cfg, *common, cb.constraints@, lo));
            assert forall|row: Seq<int>, step: StepStatus, info: StepInfo|
                conv_row_ok(cfg, *common, row, step, info) implies constraints_zero_range(
                cb.constraints@,
                lo,
                lo + 10,
                row,
            ) by {
                lemma_conv_row_zero(cfg, *common, cb.constraints@, lo, row, step, info);
            }
        }
        cfg
    }
}

impl ConversionConfig {
    /// The encoded opcode: the class tag, the signedness and operand-type
    /// bits, and the width-presence bits.
    pub fn opcode(&self, common: &EventTableCommonConfig) -> (r: Expr)
        requires
            common.wf(),
        ensures
            forall|row: Seq<int>|
                #[trigger] eval(r, row) == 3 * 0x1000_0000_0000_0000_0000_0000 + cv(
                    row,
                    self.sign_op.cell,
                ) * 0x80_0000_0000_0000_0000 + cv(row, common.uniarg_configs[0].is_i32_cell.cell)
                    * 0x40_0000_0000_0000_0000 + cv(row, self.value_is_i8.cell)
                    * 0x20_0000_0000_0000_0000 + cv(row, self.value_is_i16.cell)
                    * 0x10_0000_0000_0000_0000 + cv(row, self.value_is_i32.cell)
                    * 0x8_0000_0000_0000_0000 + cv(row, self.value_is_i64.cell)
                    * 0x4_0000_0000_0000_0000 + cv(row, self.res_is_i32.cell)
                    * 0x2_0000_0000_0000_0000 + cv(row, self.res_is_i64.cell)
                    * 0x1_0000_0000_0000_0000,
    {
        Expr::constant(3 * 0x1000_0000_0000_0000_0000_0000).plus(
            Expr::cell(self.sign_op.cell).times(Expr::constant(0x80_0000_0000_0000_0000)),
        ).plus(
            Expr::cell(common.uniarg_configs[0].is_i32_cell.cell).times(
                Expr::constant(0x40_0000_0000_0000_0000),
            ),
        ).plus(Expr::cell(self.value_is_i8.cell).times(Expr::constant(0x20_0000_0000_0000_0000))).plus(
            Expr::cell(self.value_is_i16.cell).times(Expr::constant(0x10_0000_0000_0000_0000)),
        ).plus(Expr::cell(self.value_is_i32.cell).times(Expr::constant(0x8_0000_0000_0000_0000))).plus(
            Expr::cell(self.value_is_i64.cell).times(Expr::constant(0x4_0000_0000_0000_0000)),
        ).plus(Expr::cell(self.res_is_i32.cell).times(Expr::constant(0x2_0000_0000_0000_0000))).plus(
            Expr::cell(self.res_is_i64.cell).times(Expr::constant(0x1_0000_0000_0000_0000)),
        )
    }

    /// Fill the opcode's cells from one conversion step, including the
    /// argument slot and the stack-write claim.
    #[verifier::rlimit(100)]
    pub fn assign(
        &self,
        common: &EventTableCommonConfig,
        row: &mut Row,
        step: &StepStatus,
        entry: &EventTableEntryWithMemoryInfo,
    )
        requires
            self.wf(),
            common.wf(),
            common.top() < self.base(),
            self.base() + 33 < old(row)@.len(),
            forall|i: int| self.owns(i) ==> #[trigger] old(row).unassigned(i),
            forall|i: int|
                common.uniarg_configs@[0].owns(i) ==> #[trigger] old(row).unassigned(i),
            conv_step_ok(*step, entry.step_info),
        ensures
            final(row)@.len() == old(row)@.len(),
            conv_assigned(*self, final(row)@, *step, entry.step_info),
            common.uniarg_configs@[0].assigned(
                final(row)@,
                conv_uniarg(entry.step_info),
                conv_operand_is_i32(entry.step_info),
                conv_value(entry.step_info),
                (step.sp + 1) as u32,
                step.eid,
            ),
            forall|i: int|
                #![trigger final(row)@[i]]
                0 <= i < old(row)@.len() && !self.owns(i) && !common.uniarg_configs@[0].owns(i)
                    ==> final(row)@[i] == old(row)@[i],
            forall|i: int|
                0 <= i < old(row)@.len() && !self.owns(i) && !common.uniarg_configs@[0].owns(i)
                    ==> #[trigger] final(row).unassigned(i) == old(row).unassigned(i),
    {
        let (v, result, uniarg, is_i8, is_i16, is_i32v, is_i64, r32, sign, wrap, op_is_i32) =
            conv_params(entry);
        let shift_v: u64 = if is_i8 {
            0x80
        } else if is_i16 {
            0x8000
        } else {
            0x8000_0000
        };
        let padding_v: u64 = (if is_i8 {
            0xffff_ff00u64
        } else if is_i16 {
            0xffff_0000u64
        } else {
            0u64
        }) + (if r32 {
            0u64
        } else {
            0xffff_ffff_0000_0000u64
        });
        let modulus_v: u64 = 2 * shift_v;
        let d_v = v / modulus_v;
        let vm = v % modulus_v;
        let flag_v = vm / shift_v;
        let rem_v = vm % shift_v;
        proof {
            lemma_conv_arith(entry.step_info);
            vstd::arithmetic::div_mod::lemma_div_denominator(v as int, modulus_v as int, 1);
        }
        self.value.assign(row, v);
        row.set_bit(self.value_is_i8.cell, is_i8);
        row.set_bit(self.value_is_i16.cell, is_i16);
        row.set_bit(self.value_is_i32.cell, is_i32v);
        row.set_bit(self.value_is_i64.cell, is_i64);
        row.set_bit(self.res_is_i32.cell, r32);
        row.set_bit(self.res_is_i64.cell, !r32);
        row.set_bit(self.sign_op.cell, sign);
        row.set_bit(self.is_i32_wrap_i64.cell, wrap);
        row.set_u64(self.flag_bit.cell, flag_v);
        row.set_u64(self.shift.cell, shift_v);
        row.set_u64(self.padding.cell, padding_v);
        self.d.assign(row, d_v);
        self.rem.assign(row, rem_v);
        self.rem_helper.assign(row, shift_v - 1 - rem_v);
        row.set_u64(self.modulus.cell, modulus_v);
        self.memory_table_lookup_stack_write.assign(
            row,
            MemoryLookupKey {
                location: LocationType::Stack,
                address: step.sp + (if matches!(uniarg, UniArg::Pop) {
                    1
                } else {
                    0
                }),
                eid: step.eid,
                is_i32: r32,
                value: result,
            },
        );
        common.uniarg_configs[0].assign(row, uniarg, op_is_i32, v, step.sp + 1, step.eid);
        proof {
            assert forall|i: int|
                0 <= i < old(row)@.len() && !self.owns(i) && !common.uniarg_configs@[0].owns(i) implies row@[i]
                == old(row)@[i] by {
                assert(!self.value.owns(i));
                assert(!self.d.owns(i));
                assert(!self.rem.owns(i));
                assert(!self.rem_helper.owns(i));
                assert(!self.memory_table_lookup_stack_write.owns(i));
            }
        }
    }

    /// On an assigned row the opcode expression evaluates to the canonical
    /// conversion encoding.
    pub proof fn lemma_opcode_value(
        &self,
        op: Expr,
        common: EventTableCommonConfig,
        row: Seq<int>,
        step: StepStatus,
        info: StepInfo,
    )
        requires
            forall|rw: Seq<int>|
                #[trigger] eval(op, rw) == 3 * 0x1000_0000_0000_0000_0000_0000 + cv(
                    rw,
                    self.sign_op.cell,
                ) * 0x80_0000_0000_0000_0000 + cv(rw, common.uniarg_configs[0].is_i32_cell.cell)
                    * 0x40_0000_0000_0000_0000 + cv(rw, self.value_is_i8.cell)
                    * 0x20_0000_0000_0000_0000 + cv(rw, self.value_is_i16.cell)
                    * 0x10_0000_0000_0000_0000 + cv(rw, self.value_is_i32.cell)
                    * 0x8_0000_0000_0000_0000 + cv(rw, self.value_is_i64.cell)
                    * 0x4_0000_0000_0000_0000 + cv(rw, self.res_is_i32.cell)
                    * 0x2_0000_0000_0000_0000 + cv(rw, self.res_is_i64.cell)
                    * 0x1_0000_0000_0000_0000,
            conv_row_ok(*self, common, row, step, info),
        ensures
            eval(op, row) == encode_conversion_spec(
                conv_sign(info),
                conv_operand_is_i32(info),
                conv_value_is_i8(info),
                conv_value_is_i16(info),
                conv_value_is_i32(info),
                conv_value_is_i64(info),
                conv_res_is_i32(info),
                conv_res_is_i64(info),
            ),
    {
    }

    /// One memory-table entry is written per step.
    pub fn memory_writing_ops(&self, _entry: &EventTableEntryWithMemoryInfo) -> (r: u32)
        ensures
            r == 1,
    {
        1
    }

    /// One claimed memory write beyond the argument read.
    pub fn mops(&self) -> (r: Option<Expr>)
        ensures
            r is Some,
            forall|row: Seq<int>| #[trigger] eval(r.unwrap(), row) == 1,
    {
        Some(Expr::constant(1))
    }

    /// The pushed result moves the stack top by one; the argument pop is
    /// accounted by the argument slot.
    pub fn sp_diff(&self) -> (r: Option<Expr>)
        ensures
            r is Some,
            forall|row: Seq<int>| #[trigger] eval(r.unwrap(), row) == -1,
    {
        Some(Expr::constant(0).minus(Expr::constant(1)))
    }
}

/// Extract one conversion step's operands and shape bits.
fn conv_params(entry: &EventTableEntryWithMemoryInfo) -> (w: (
    u64,
    u64,
    UniArg,
    bool,
    bool,
    bool,
    bool,
    bool,
    bool,
    bool,
    bool,
))
    requires
        conv_is(entry.step_info),
    ensures
        w.0 == conv_value(entry.step_info),
        w.1 == conv_result(entry.step_info),
        w.2 == conv_uniarg(entry.step_info),
        w.3 == conv_value_is_i8(entry.step_info),
        w.4 == conv_value_is_i16(entry.step_info),
        w.5 == conv_value_is_i32(entry.step_info),
        w.6 == conv_value_is_i64(entry.step_info),
        w.7 == conv_res_is_i32(entry.step_info),
        w.8 == conv_sign(entry.step_info),
        w.9 == (entry.step_info is I32WrapI64),
        w.10 == conv_operand_is_i32(entry.step_info),
{
    match entry.step_info {
        StepInfo::I32WrapI64 { value, result, uniarg } => (
            value,
            result,
            uniarg,
            false,
            false,
            false,
            true,
            true,
            false,
            true,
            false,
        ),
        StepInfo::I64ExtendI32 { value, result, sign, uniarg } => (
            value,
            result,
            uniarg,
            false,
            false,
            true,
            false,
            false,
            sign,
            false,
            true,
        ),
        StepInfo::I32SignExtendI8 { value, result, uniarg } => (
            value,
            result,
            uniarg,
            true,
            false,
            false,
            false,
            true,
            true,
            false,
            true,
        ),
        StepInfo::I32SignExtendI16 { value, result, uniarg } => (
            value,
            result,
            uniarg,
            false,
            true,
            false,
            false,
            true,
            true,
            false,
            true,
        ),
        StepInfo::I64SignExtendI8 { value, result, uniarg } => (
            value,
            result,
            uniarg,
            true,
            false,
            false,
            false,
            false,
            true,
            false,
            false,
        ),
        StepInfo::I64SignExtendI16 { value, result, uniarg } => (
            value,
            result,
            uniarg,
            false,
            true,
            false,
            false,
            false,
            true,
            false,
            false,
        ),
        StepInfo::I64SignExtendI32 { value, result, uniarg } => (
            value,
            result,
            uniarg,
            false,
            false,
            true,
            false,
            false,
            true,
            false,
            false,
        ),
        _ => {
            proof {
                assert(false);
            }
            (0, 0, UniArg::Pop, false, false, false, false, false, false, false, false)
        },
    }
}

} // verus!
