//! The memory-grow opcode: pop a page count, extend linear memory by it when
//! the result stays within the circuit's maximal page count, and push the
//! previous page count on success or the failure sentinel otherwise.
//!
//! Success is proved without a comparison primitive by witnessing the
//! non-negative gap between the maximal page count and the grown size in a
//! common-range cell.

use crate::allocator::{
    lemma_u64_limbs, AllocatedBitCell, AllocatedCommonRangeCell, AllocatedU64Cell, CellAllocator,
    COMMON_RANGE_BOUND,
};
use crate::builder::{constraints_zero_range, Constraint, ConstraintBuilder};
use crate::encode::{LocationType, MemoryLookupKey, KEY_EID_BOUND};
use crate::etable::{
    common_assigned, AllocatedMemoryTableLookupWriteCell, EventTableCommonConfig,
    EventTableEntryWithMemoryInfo, StackReadLookup, StepInfo, StepStatus,
};
use crate::expr::{cv, eval, Expr};
use crate::row::Row;
use vstd::arithmetic::mul::lemma_mul_basics;
use vstd::prelude::*;

verus! {

/// The failure sentinel a failed grow pushes.
pub const MEMORY_GROW_FAILURE: u64 = 0xffff_ffff;

pub struct MemoryGrowConfig {
    pub grow_size_lookup: StackReadLookup,
    pub result: AllocatedU64Cell,
    pub current_maximal_diff: AllocatedCommonRangeCell,
    pub success: AllocatedBitCell,
    pub memory_table_lookup_stack_write: AllocatedMemoryTableLookupWriteCell,
    pub maximal_memory_pages: u32,
}

pub struct MemoryGrowConfigBuilder {}

/// Whether a grow by `grow` from `pages` pages succeeds under the maximal
/// page count, and the value the opcode then pushes.
pub open spec fn memory_grow_success(pages: u32, maximal: u32, grow: u64) -> bool {
    pages + grow <= maximal
}

pub open spec fn memory_grow_value(pages: u32, maximal: u32, grow: u64) -> u64 {
    if memory_grow_success(pages, maximal, grow) {
        pages as u64
    } else {
        MEMORY_GROW_FAILURE
    }
}

/// Compute the grow outcome: whether it succeeds, and the pushed value — the
/// previous page count on success, the failure sentinel otherwise.
pub fn memory_grow_result(pages: u32, maximal: u32, grow: u64) -> (r: (bool, u64))
    ensures
        r.0 == memory_grow_success(pages, maximal, grow),
        r.1 == memory_grow_value(pages, maximal, grow),
{
    let success = pages as u128 + grow as u128 <= maximal as u128;
    (success, if success { pages as u64 } else { MEMORY_GROW_FAILURE })
}

/// A valid memory-grow step: the pushed result matches the grow outcome.
pub open spec fn memory_grow_step_ok(step: StepStatus, grow_size: u64, result: u64) -> bool {
    &&& step.wf()
    &&& grow_size < 0x1_0000_0000
    &&& result == memory_grow_value(
        step.allocated_memory_pages,
        step.maximal_memory_pages,
        grow_size,
    )
}

/// The cells of a memory-grow row carry a full witness for the step.
pub open spec fn memory_grow_assigned(
    cfg: MemoryGrowConfig,
    row: Seq<int>,
    step: StepStatus,
    grow_size: u64,
    result: u64,
) -> bool {
    let success = memory_grow_success(
        step.allocated_memory_pages,
        step.maximal_memory_pages,
        grow_size,
    );
    &&& cfg.grow_size_lookup.holds(
        row,
        (MemoryLookupKey {
            location: LocationType::Stack,
            address: (step.sp + 1) as u32,
            eid: step.eid,
            is_i32: true,
            value: grow_size,
        }),
    )
    &&& cfg.result.holds(row, result)
    &&& cv(row, cfg.success.cell) == (if success {
        1int
    } else {
        0int
    })
    &&& cv(row, cfg.current_maximal_diff.cell) == (if success {
        step.maximal_memory_pages - step.allocated_memory_pages - grow_size
    } else {
        0int
    })
    &&& cfg.memory_table_lookup_stack_write.holds(
        row,
        (MemoryLookupKey {
            location: LocationType::Stack,
            address: (step.sp + 1) as u32,
            eid: step.eid,
            is_i32: true,
            value: result,
        }),
    )
}

/// A row carrying a valid memory-grow witness over an assigned common
/// context, under the circuit's configured maximal page count.
pub open spec fn memory_grow_row_ok(
    cfg: MemoryGrowConfig,
    common: EventTableCommonConfig,
    row: Seq<int>,
    step: StepStatus,
    grow_size: u64,
    result: u64,
) -> bool {
    &&& common.wf()
    &&& memory_grow_step_ok(step, grow_size, result)
    &&& step.maximal_memory_pages == cfg.maximal_memory_pages
    &&& common_assigned(common, row, step)
    &&& memory_grow_assigned(cfg, row, step, grow_size, result)
}

/// Every constraint the memory-grow builder registers evaluates to zero on
/// every row that carries a valid memory-grow witness.
pub open spec fn memory_grow_gate(
    cfg: MemoryGrowConfig,
    common: EventTableCommonConfig,
    cs: Seq<Constraint>,
    lo: int,
) -> bool {
    forall|row: Seq<int>, step: StepStatus, grow_size: u64, result: u64|
        #[trigger] memory_grow_row_ok(cfg, common, row, step, grow_size, result)
            ==> constraints_zero_range(cs, lo, lo + 6, row)
}

impl MemoryGrowConfig {
    pub open spec fn base(self) -> int {
        self.grow_size_lookup.value.limb0_cell as int
    }

    pub open spec fn wf(self) -> bool {
        &&& self.grow_size_lookup.wf()
        &&& self.result.wf()
        &&& self.result.limb0_cell == self.base() + 7
        &&& self.current_maximal_diff.cell == self.base() + 12
        &&& self.success.cell == self.base() + 13
        &&& self.memory_table_lookup_stack_write.encoded_cell.cell == self.base() + 14
    }

    pub open spec fn owns(self, i: int) -> bool {
        self.base() <= i <= self.base() + 14
    }
}


/// The exact polynomial each registered constraint expression evaluates to,
/// as a function of the row: the structural link between the expression
/// trees and the opcode's algebra.
pub open spec fn memory_grow_eval_identities(
    cfg: MemoryGrowConfig,
    common: EventTableCommonConfig,
    cs: Seq<Constraint>,
    lo: int,
) -> bool {
    let gval = cfg.grow_size_lookup.value.u64_cell;
    let res = cfg.result.u64_cell;
    &&& common.wf()
    &&& 0 <= lo && cs.len() >= lo + 6
    &&& cs[lo].exprs@.len() == 1
    &&& forall|row: Seq<int>|
        #[trigger] eval(cs[lo].exprs@[0], row) == cv(row, gval) - crate::allocator::u64_compose(
            row,
            cfg.grow_size_lookup.value,
        )
    &&& cs[lo + 1].exprs@.len() == 1
    &&& forall|row: Seq<int>|
        #[trigger] eval(cs[lo + 1].exprs@[0], row) == cv(
            row,
            cfg.grow_size_lookup.lookup_cell.cell,
        ) - crate::encode::memory_key_val(
            1,
            cv(row, common.sp_cell.cell) + 1,
            cv(row, common.eid_cell.cell),
            cv(row, cfg.grow_size_lookup.is_i32.cell),
            cv(row, gval),
        )
    &&& cs[lo + 2].exprs@.len() == 1
    &&& forall|row: Seq<int>|
        #[trigger] eval(cs[lo + 2].exprs@[0], row) == cv(row, res) - crate::allocator::u64_compose(
            row,
            cfg.result,
        )
    &&& cs[lo + 3].exprs@.len() == 1
    &&& forall|row: Seq<int>|
        #[trigger] eval(cs[lo + 3].exprs@[0], row) == cv(row, res) - (0xffff_ffff + cv(
            row,
            cfg.success.cell,
        ) * (cv(row, common.mpages_cell.cell) - 0xffff_ffff))
    &&& cs[lo + 4].exprs@.len() == 1
    &&& forall|row: Seq<int>|
        #[trigger] eval(cs[lo + 4].exprs@[0], row) == (cv(row, common.mpages_cell.cell) + cv(
            row,
            gval,
        ) + cv(row, cfg.current_maximal_diff.cell) - cfg.maximal_memory_pages) * cv(
            row,
            cfg.success.cell,
        )
    &&& cs[lo + 5].exprs@.len() == 1
    &&& forall|row: Seq<int>|
        #[trigger] eval(cs[lo + 5].exprs@[0], row) == cv(
            row,
            cfg.memory_table_lookup_stack_write.encoded_cell.cell,
        ) - crate::encode::memory_key_val(
            1,
            cv(row, common.sp_cell.cell) + 1,
            cv(row, common.eid_cell.cell),
            1,
            cv(row, res),
        )
}

/// The kinds this opcode's cells occupy, in allocation order.
pub open spec fn memory_grow_cell_kinds() -> Seq<crate::allocator::CellKind> {
    crate::etable::stack_read_lookup_kinds() + crate::allocator::u64_cell_kinds() + seq![
        crate::allocator::CellKind::CommonRange,
        crate::allocator::CellKind::Bit,
        crate::allocator::CellKind::Unlimited,
    ]
}

impl MemoryGrowConfigBuilder {
    /// Declare the cells and constraints of the memory-grow opcode.
    pub fn configure(
        common: &EventTableCommonConfig,
        alloc: &mut CellAllocator,
        cb: &mut ConstraintBuilder,
        maximal_memory_pages: u32,
    ) -> (cfg: MemoryGrowConfig)
        requires
            common.wf(),
            maximal_memory_pages < COMMON_RANGE_BOUND,
        ensures
            cfg.wf(),
            cfg.maximal_memory_pages == maximal_memory_pages,
            cfg.base() == old(alloc).count(),
            final(alloc).count() == old(alloc).count() + 15,
            final(alloc).kinds@ == old(alloc).kinds@ + memory_grow_cell_kinds(),
            final(cb).constraints@.len() == old(cb).constraints@.len() + 6,
            forall|j: int|
                0 <= j < old(cb).constraints@.len() ==> final(cb).constraints@[j] == old(
                    cb,
                ).constraints@[j],
            memory_grow_eval_identities(
                cfg,
                *common,
                final(cb).constraints@,
                old(cb).constraints@.len() as int,
            ),
            memory_grow_gate(
                cfg,
                *common,
                final(cb).constraints@,
                old(cb).constraints@.len() as int,
            ),
    {
        let ghost lo = cb.constraints@.len() as int;
        let grow_size_lookup = alloc.alloc_stack_read_lookup(
            "op_memory_grow stack read",
            cb,
            common.sp_cell.cell,
            common.eid_cell.cell,
            1,
        );
        let result = alloc.alloc_u64_cell(cb);
        let current_maximal_diff = alloc.alloc_common_range_cell();
        let success = alloc.alloc_bit_cell();
        let mut exprs: Vec<Expr> = Vec::new();
        let e_ret = Expr::cell(result.u64_cell).minus(
            Expr::constant(0xffff_ffff).plus(
                Expr::cell(success.cell).times(
                    Expr::cell(common.mpages_cell.cell).minus(Expr::constant(0xffff_ffff)),
                ),
            ),
        );
        exprs.push(e_ret);
        cb.push("memory_grow: return value", exprs);
        let mut exprs2: Vec<Expr> = Vec::new();
        let e_max = Expr::cell(common.mpages_cell.cell).plus(
            Expr::cell(grow_size_lookup.value.u64_cell),
        ).plus(Expr::cell(current_maximal_diff.cell)).minus(
            Expr::constant(maximal_memory_pages as u128),
        ).times(Expr::cell(success.cell));
        exprs2.push(e_max);
        cb.push("memory_grow: grown size within maximal pages", exprs2);
        let memory_table_lookup_stack_write = alloc.alloc_memory_table_lookup_write_cell(
            "op_memory_grow stack write",
            cb,
            LocationType::Stack,
            Expr::cell(common.sp_cell.cell).plus(Expr::constant(1)),
            Expr::cell(common.eid_cell.cell),
            Expr::constant(1),
            Expr::cell(result.u64_cell),
        );
        let cfg = MemoryGrowConfig {
            grow_size_lookup,
            result,
            current_maximal_diff,
            success,
            memory_table_lookup_stack_write,
            maximal_memory_pages,
        };
        proof {
            assert(alloc.kinds@ =~= old(alloc).kinds@ + memory_grow_cell_kinds());
            assert(memory_grow_eval_identities(cfg, *common, cb.constraints@, lo));
            assert forall|row: Seq<int>, step: StepStatus, grow_size: u64, result_v: u64|
                memory_grow_row_ok(cfg, *common, row, step, grow_size, result_v) implies constraints_zero_range(
                cb.constraints@,
                lo,
                lo + 6,
                row,
            ) by {
                lemma_u64_limbs(grow_size);
                lemma_u64_limbs(result_v);
                assert(eval(e_max, row) == (cv(row, common.mpages_cell.cell) + cv(
                    row,
                    cfg.grow_size_lookup.value.u64_cell,
                ) + cv(row, cfg.current_maximal_diff.cell) - maximal_memory_pages) * cv(
                    row,
                    cfg.success.cell,
                ));
                assert(cb.constraints@[lo + 4].exprs@.len() == 1 && cb.constraints@[lo
                    + 4].exprs@[0] == e_max);
                assert(eval(e_ret, row) == cv(row, cfg.result.u64_cell) - (0xffff_ffff + cv(
                    row,
                    cfg.success.cell,
                ) * (cv(row, common.mpages_cell.cell) - 0xffff_ffff)));
                assert(cb.constraints@[lo + 3].exprs@.len() == 1 && cb.constraints@[lo
                    + 3].exprs@[0] == e_ret);
                if memory_grow_success(
                    step.allocated_memory_pages,
                    step.maximal_memory_pages,
                    grow_size,
                ) {
                    lemma_mul_basics(cv(row, common.mpages_cell.cell) - 0xffff_ffff);
                    lemma_mul_basics(
                        cv(row, common.mpages_cell.cell) + cv(
                            row,
                            cfg.grow_size_lookup.value.u64_cell,
                        ) + cv(row, cfg.current_maximal_diff.cell) - maximal_memory_pages,
                    );
                    assert(eval(e_max, row) == 0);
                    assert(eval(e_ret, row) == 0);
                } else {
                    lemma_mul_basics(cv(row, common.mpages_cell.cell) - 0xffff_ffff);
                    lemma_mul_basics(
                        cv(row, common.mpages_cell.cell) + cv(
                            row,
                            cfg.grow_size_lookup.value.u64_cell,
                        ) + cv(row, cfg.current_maximal_diff.cell) - maximal_memory_pages,
                    );
                    assert(eval(e_max, row) == 0);
                    assert(eval(e_ret, row) == 0);
                }
                assert(crate::builder::constraint_zero(cb.constraints@[lo], row));
                assert(crate::builder::constraint_zero(cb.constraints@[lo + 1], row));
                assert(crate::builder::constraint_zero(cb.constraints@[lo + 2], row));
                assert(crate::builder::constraint_zero(cb.constraints@[lo + 3], row));
                assert(crate::builder::constraint_zero(cb.constraints@[lo + 4], row));
                assert(crate::builder::constraint_zero(cb.constraints@[lo + 5], row));
            }
        }
        cfg
    }
}

impl MemoryGrowConfig {
    /// The encoded opcode: the bare class tag.
    pub fn opcode(&self) -> (r: Expr)
        ensures
            forall|row: Seq<int>|
                #[trigger] eval(r, row) == crate::encode::encode_memory_grow_spec(),
    {
        Expr::constant(5 * 0x1000_0000_0000_0000_0000_0000)
    }

    /// Fill the opcode's cells from one memory-grow step.
    pub fn assign(&self, row: &mut Row, step: &StepStatus, entry: &EventTableEntryWithMemoryInfo)
        requires
            self.wf(),
            entry.step_info is MemoryGrow,
            memory_grow_step_ok(
                *step,
                entry.step_info->MemoryGrow_grow_size,
                entry.step_info->MemoryGrow_result,
            ),
            self.base() + 14 < old(row)@.len(),
            forall|i: int| self.owns(i) ==> #[trigger] old(row).unassigned(i),
        ensures
            final(row)@.len() == old(row)@.len(),
            memory_grow_assigned(
                *self,
                final(row)@,
                *step,
                entry.step_info->MemoryGrow_grow_size,
                entry.step_info->MemoryGrow_result,
            ),
            forall|i: int|
                #![trigger final(row)@[i]]
                0 <= i < old(row)@.len() && !self.owns(i) ==> final(row)@[i] == old(row)@[i],
            forall|i: int|
                0 <= i < old(row)@.len() && !self.owns(i) ==> #[trigger] final(row).unassigned(i)
                    == old(row).unassigned(i),
    {
        match entry.step_info {
            StepInfo::MemoryGrow { grow_size, result } => {
                let (success, value) = memory_grow_result(
                    step.allocated_memory_pages,
                    step.maximal_memory_pages,
                    grow_size,
                );
                self.grow_size_lookup.assign(
                    row,
                    MemoryLookupKey {
                        location: LocationType::Stack,
                        address: step.sp + 1,
                        eid: step.eid,
                        is_i32: true,
                        value: grow_size,
                    },
                );
                self.result.assign(row, value);
                row.set_u64(
                    self.current_maximal_diff.cell,
                    if success {
                        step.maximal_memory_pages as u64 - step.allocated_memory_pages as u64
                            - grow_size
                    } else {
                        0
                    },
                );
                row.set_bit(self.success.cell, success);
                self.memory_table_lookup_stack_write.assign(
                    row,
                    MemoryLookupKey {
                        location: LocationType::Stack,
                        address: step.sp + 1,
                        eid: step.eid,
                        is_i32: true,
                        value,
                    },
                );
                proof {
                    assert forall|i: int|
                        0 <= i < old(row)@.len() && !self.owns(i) implies row@[i] == old(
                        row,
                    )@[i] by {
                        assert(!self.grow_size_lookup.owns(i));
                        assert(!self.result.owns(i));
                    }
                }
            },
            _ => {
                proof {
                    assert(false);
                }
            },
        }
    }

    /// One memory-table entry is written per step.
    pub fn memory_writing_ops(&self, _entry: &EventTableEntryWithMemoryInfo) -> (r: u32)
        ensures
            r == 1,
    {
        1
    }

    /// Two memory operations in total: one read, one write.
    pub fn mops(&self) -> (r: Option<Expr>)
        ensures
            r is Some,
            forall|row: Seq<int>| #[trigger] eval(r.unwrap(), row) == 1,
    {
        Some(Expr::constant(1))
    }

    /// The page-count delta for the global accumulator: the grown size on
    /// success, zero on failure.
    pub fn allocated_memory_pages_diff(&self) -> (r: Option<Expr>)
        ensures
            r is Some,
            forall|row: Seq<int>|
                #[trigger] eval(r.unwrap(), row) == cv(row, self.success.cell) * cv(
                    row,
                    self.grow_size_lookup.value.u64_cell,
                ),
    {
        Some(
            Expr::cell(self.success.cell).times(Expr::cell(self.grow_size_lookup.value.u64_cell)),
        )
    }
}

} // verus!
