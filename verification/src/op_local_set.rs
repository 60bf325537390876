//! The local-set opcode: pop a value from the stack and write it back into
//! the local slot at an opcode-declared offset above the stack pointer.
//!
//! The circuit claims one stack-read entry at the stack top and one
//! stack-write entry at the target slot, both carrying the same value and
//! type; the offset cell is constrained to the common range.

use crate::allocator::{lemma_u64_limbs, AllocatedCommonRangeCell, CellAllocator, COMMON_RANGE_BOUND};
use crate::builder::{constraints_zero_range, Constraint, ConstraintBuilder};
use crate::encode::{encode_local_set_spec, MemoryLookupKey, LocationType, VarType};
use crate::etable::{
    common_assigned, AllocatedMemoryTableLookupWriteCell, EventTableCommonConfig,
    EventTableEntryWithMemoryInfo, StackReadLookup, StepInfo, StepStatus,
};
use crate::expr::{cv, eval, Expr};
use crate::row::Row;
use vstd::prelude::*;

verus! {

pub struct LocalSetConfig {
    pub stack_reading_lookup: StackReadLookup,
    pub offset_cell: AllocatedCommonRangeCell,
    pub memory_table_lookup_stack_write: AllocatedMemoryTableLookupWriteCell,
}

pub struct LocalSetConfigBuilder {}

/// The stack-read key a local-set step claims: the popped value at the stack
/// top.
pub open spec fn local_set_read_key(step: StepStatus, vtype: VarType, value: u64) -> MemoryLookupKey {
    MemoryLookupKey {
        location: LocationType::Stack,
        address: (step.sp + 1) as u32,
        eid: step.eid,
        is_i32: vtype is I32,
        value,
    }
}

/// The stack-write key: the same value rewritten at the target local slot.
pub open spec fn local_set_write_key(
    step: StepStatus,
    vtype: VarType,
    depth: u32,
    value: u64,
) -> MemoryLookupKey {
    MemoryLookupKey {
        location: LocationType::Stack,
        address: (step.sp + 1 + depth) as u32,
        eid: step.eid,
        is_i32: vtype is I32,
        value,
    }
}

/// The bounds a local-set step must respect.
pub open spec fn local_set_step_ok(step: StepStatus, depth: u32, value: u64) -> bool {
    &&& step.wf()
    &&& depth < COMMON_RANGE_BOUND
    &&& step.sp + 1 + depth < crate::encode::KEY_EID_BOUND
}

/// The cells of a local-set row carry a full witness for the step.
pub open spec fn local_set_assigned(
    cfg: LocalSetConfig,
    row: Seq<int>,
    step: StepStatus,
    vtype: VarType,
    depth: u32,
    value: u64,
) -> bool {
    &&& cv(row, cfg.offset_cell.cell) == depth
    &&& cfg.stack_reading_lookup.holds(row, local_set_read_key(step, vtype, value))
    &&& cfg.memory_table_lookup_stack_write.holds(row, local_set_write_key(step, vtype, depth, value))
}

/// A row carrying a valid local-set witness over an assigned common context.
pub open spec fn local_set_row_ok(
    cfg: LocalSetConfig,
    common: EventTableCommonConfig,
    row: Seq<int>,
    step: StepStatus,
    vtype: VarType,
    depth: u32,
    value: u64,
) -> bool {
    &&& common.wf()
    &&& local_set_step_ok(step, depth, value)
    &&& common_assigned(common, row, step)
    &&& local_set_assigned(cfg, row, step, vtype, depth, value)
}

/// Every constraint the local-set builder registers evaluates to zero on
/// every row that carries a valid local-set witness.
pub open spec fn local_set_gate(
    cfg: LocalSetConfig,
    common: EventTableCommonConfig,
    cs: Seq<Constraint>,
    lo: int,
) -> bool {
    forall|row: Seq<int>, step: StepStatus, vtype: VarType, depth: u32, value: u64|
        #[trigger] local_set_row_ok(cfg, common, row, step, vtype, depth, value)
            ==> constraints_zero_range(cs, lo, lo + 3, row)
}

impl LocalSetConfig {
    pub open spec fn base(self) -> int {
        self.stack_reading_lookup.value.limb0_cell as int
    }

    pub open spec fn wf(self) -> bool {
        &&& self.stack_reading_lookup.wf()
        &&& self.offset_cell.cell == self.base() + 7
        &&& self.memory_table_lookup_stack_write.encoded_cell.cell == self.base() + 8
    }

    pub open spec fn owns(self, i: int) -> bool {
        self.base() <= i <= self.base() + 8
    }
}


/// The exact polynomial each registered constraint expression evaluates to,
/// as a function of the row: the structural link between the expression
/// trees and the opcode's algebra.
pub open spec fn local_set_eval_identities(
    cfg: LocalSetConfig,
    common: EventTableCommonConfig,
    cs: Seq<Constraint>,
    lo: int,
) -> bool {
    let rval = cfg.stack_reading_lookup.value.u64_cell;
    &&& common.wf()
    &&& 0 <= lo && cs.len() >= lo + 3
    &&& cs[lo].exprs@.len() == 1
    &&& forall|row: Seq<int>|
        #[trigger] eval(cs[lo].exprs@[0], row) == cv(row, rval) - crate::allocator::u64_compose(
            row,
            cfg.stack_reading_lookup.value,
        )
    &&& cs[lo + 1].exprs@.len() == 1
    &&& forall|row: Seq<int>|
        #[trigger] eval(cs[lo + 1].exprs@[0], row) == cv(
            row,
            cfg.stack_reading_lookup.lookup_cell.cell,
        ) - crate::encode::memory_key_val(
            1,
            cv(row, common.sp_cell.cell) + 1,
            cv(row, common.eid_cell.cell),
            cv(row, cfg.stack_reading_lookup.is_i32.cell),
            cv(row, rval),
        )
    &&& cs[lo + 2].exprs@.len() == 1
    &&& forall|row: Seq<int>|
        #[trigger] eval(cs[lo + 2].exprs@[0], row) == cv(
            row,
            cfg.memory_table_lookup_stack_write.encoded_cell.cell,
        ) - crate::encode::memory_key_val(
            1,
            cv(row, common.sp_cell.cell) + 1 + cv(row, cfg.offset_cell.cell),
            cv(row, common.eid_cell.cell),
            cv(row, cfg.stack_reading_lookup.is_i32.cell),
            cv(row, rval),
        )
}

/// The kinds this opcode's cells occupy, in allocation order.
pub open spec fn local_set_cell_kinds() -> Seq<crate::allocator::CellKind> {
    crate::etable::stack_read_lookup_kinds() + seq![
        crate::allocator::CellKind::CommonRange,
        crate::allocator::CellKind::Unlimited,
    ]
}

impl LocalSetConfigBuilder {
    /// Declare the cells and constraints of the local-set opcode.
    pub fn configure(
        common: &EventTableCommonConfig,
        alloc: &mut CellAllocator,
        cb: &mut ConstraintBuilder,
    ) -> (cfg: LocalSetConfig)
        requires
            common.wf(),
        ensures
            cfg.wf(),
            cfg.base() == old(alloc).count(),
            final(alloc).count() == old(alloc).count() + 9,
            final(alloc).kinds@ == old(alloc).kinds@ + local_set_cell_kinds(),
            final(cb).constraints@.len() == old(cb).constraints@.len() + 3,
            forall|j: int|
                0 <= j < old(cb).constraints@.len() ==> final(cb).constraints@[j] == old(
                    cb,
                ).constraints@[j],
            local_set_eval_identities(
                cfg,
                *common,
                final(cb).constraints@,
                old(cb).constraints@.len() as int,
            ),
            local_set_gate(cfg, *common, final(cb).constraints@, old(cb).constraints@.len() as int),
    {
        let ghost lo = cb.constraints@.len() as int;
        let stack_reading_lookup = alloc.alloc_stack_read_lookup(
            "op_local_set stack read",
            cb,
            common.sp_cell.cell,
            common.eid_cell.cell,
            1,
        );
        let offset_cell = alloc.alloc_common_range_cell();
        let memory_table_lookup_stack_write = alloc.alloc_memory_table_lookup_write_cell(
            "op_local_set stack write",
            cb,
            LocationType::Stack,
            Expr::cell(common.sp_cell.cell).plus(Expr::constant(1)).plus(
                Expr::cell(offset_cell.cell),
            ),
            Expr::cell(common.eid_cell.cell),
            Expr::cell(stack_reading_lookup.is_i32.cell),
            Expr::cell(stack_reading_lookup.value.u64_cell),
        );
        let cfg = LocalSetConfig {
            stack_reading_lookup,
            offset_cell,
            memory_table_lookup_stack_write,
        };
        proof {
            assert(alloc.kinds@ =~= old(alloc).kinds@ + local_set_cell_kinds());
            assert(local_set_eval_identities(cfg, *common, cb.constraints@, lo));
            assert forall|row: Seq<int>, step: StepStatus, vtype: VarType, depth: u32, value: u64|
                local_set_row_ok(cfg, *common, row, step, vtype, depth, value) implies constraints_zero_range(
                cb.constraints@,
                lo,
                lo + 3,
                row,
            ) by {
                lemma_u64_limbs(value);
                assert(crate::builder::constraint_zero(cb.constraints@[lo], row));
                assert(crate::builder::constraint_zero(cb.constraints@[lo + 1], row));
                assert(crate::builder::constraint_zero(cb.constraints@[lo + 2], row));
            }
        }
        cfg
    }
}

impl LocalSetConfig {
    /// The encoded opcode: the class tag, the width bit, and the target
    /// offset.
    pub fn opcode(&self) -> (r: Expr)
        ensures
            forall|row: Seq<int>|
                #[trigger] eval(r, row) == 4 * 0x1000_0000_0000_0000_0000_0000 + cv(
                    row,
                    self.stack_reading_lookup.is_i32.cell,
                ) * 0x1_0000_0000_0000_0000_0000 + cv(row, self.offset_cell.cell),
    {
        Expr::constant(4 * 0x1000_0000_0000_0000_0000_0000).plus(
            Expr::cell(self.stack_reading_lookup.is_i32.cell).times(
                Expr::constant(0x1_0000_0000_0000_0000_0000),
            ),
        ).plus(Expr::cell(self.offset_cell.cell))
    }

    /// On an assigned row the opcode expression evaluates to the canonical
    /// local-set encoding.
    pub proof fn lemma_opcode_value(
        &self,
        op: Expr,
        row: Seq<int>,
        step: StepStatus,
        vtype: VarType,
        depth: u32,
        value: u64,
    )
        requires
            forall|r: Seq<int>|
                #[trigger] eval(op, r) == 4 * 0x1000_0000_0000_0000_0000_0000 + cv(
                    r,
                    self.stack_reading_lookup.is_i32.cell,
                ) * 0x1_0000_0000_0000_0000_0000 + cv(r, self.offset_cell.cell),
            local_set_assigned(*self, row, step, vtype, depth, value),
        ensures
            eval(op, row) == encode_local_set_spec(vtype is I32, depth as int),
    {
    }

    /// Fill the opcode's cells from one local-set step.
    pub fn assign(&self, row: &mut Row, step: &StepStatus, entry: &EventTableEntryWithMemoryInfo)
        requires
            self.wf(),
            entry.step_info is SetLocal,
            local_set_step_ok(
                *step,
                entry.step_info->SetLocal_depth,
                entry.step_info->SetLocal_value,
            ),
            self.base() + 8 < old(row)@.len(),
            forall|i: int| self.owns(i) ==> #[trigger] old(row).unassigned(i),
        ensures
            final(row)@.len() == old(row)@.len(),
            local_set_assigned(
                *self,
                final(row)@,
                *step,
                entry.step_info->SetLocal_vtype,
                entry.step_info->SetLocal_depth,
                entry.step_info->SetLocal_value,
            ),
            forall|i: int|
                #![trigger final(row)@[i]]
                0 <= i < old(row)@.len() && !self.owns(i) ==> final(row)@[i] == old(row)@[i],
            forall|i: int|
                0 <= i < old(row)@.len() && !self.owns(i) ==> #[trigger] final(row).unassigned(i)
                    == old(row).unassigned(i),
    {
        match entry.step_info {
            StepInfo::SetLocal { vtype, depth, value } => {
                let is_i32 = match vtype {
                    VarType::I32 => true,
                    VarType::I64 => false,
                };
                self.stack_reading_lookup.assign(
                    row,
                    MemoryLookupKey {
                        location: LocationType::Stack,
                        address: step.sp + 1,
                        eid: step.eid,
                        is_i32,
                        value,
                    },
                );
                row.set_u64(self.offset_cell.cell, depth as u64);
                self.memory_table_lookup_stack_write.assign(
                    row,
                    MemoryLookupKey {
                        location: LocationType::Stack,
                        address: step.sp + 1 + depth,
                        eid: step.eid,
                        is_i32,
                        value,
                    },
                );
                proof {
                    assert forall|i: int|
                        0 <= i < old(row)@.len() && !self.owns(i) implies row@[i] == old(
                        row,
                    )@[i] by {
                        assert(!self.stack_reading_lookup.owns(i));
                    }
                }
            },
            _ => {
                proof {
                    assert(false);
                }
            },
        }
    }

    /// One memory-table entry is written per step.
    pub fn memory_writing_ops(&self, _entry: &EventTableEntryWithMemoryInfo) -> (r: u32)
        ensures
            r == 1,
    {
        1
    }

    /// Two memory operations in total: one read, one write.
    pub fn mops(&self) -> (r: Option<Expr>)
        ensures
            r is Some,
            forall|row: Seq<int>| #[trigger] eval(r.unwrap(), row) == 1,
    {
        Some(Expr::constant(1))
    }

    /// The stack pointer rises by one: the popped slot is freed.
    pub fn sp_diff(&self) -> (r: Option<Expr>)
        ensures
            r is Some,
            forall|row: Seq<int>| #[trigger] eval(r.unwrap(), row) == 1,
    {
        Some(Expr::constant(1))
    }
}

} // verus!
