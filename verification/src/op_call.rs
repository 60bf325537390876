//! The call opcode: push a new call frame.
//!
//! The step claims one jump-table entry linking the caller and the callee:
//! the current event id, the caller's frame, the call-site index, the
//! caller's function, and the return instruction just after the call.  The
//! next row's frame id becomes the current event id, its function the call
//! target, and its instruction counter zero.

use crate::allocator::{AllocatedCommonRangeCell, AllocatedUnlimitedCell, CellAllocator};
use crate::builder::{constraints_zero_range, Constraint, ConstraintBuilder};
use crate::encode::{encode_call_spec, JumpLookupKey, KEY_INDEX_BOUND};
use crate::etable::{
    common_assigned, EventTableCommonConfig, EventTableEntryWithMemoryInfo, StepInfo, StepStatus,
};
use crate::expr::{cv, eval, Expr};
use crate::row::Row;
use vstd::prelude::*;

verus! {

pub struct CallConfig {
    pub index_cell: AllocatedCommonRangeCell,
    pub frame_table_lookup: AllocatedUnlimitedCell,
}

pub struct CallConfigBuilder {}

/// The jump-table entry a call step claims.
pub open spec fn call_jump_key(step: StepStatus, index: u32) -> JumpLookupKey {
    JumpLookupKey {
        eid: step.eid,
        frame_id: step.last_jump_eid,
        index,
        fid: step.fid,
        iid: (step.iid + 1) as u32,
    }
}

/// The cells of a call row carry a full witness for the step.
pub open spec fn call_assigned(cfg: CallConfig, row: Seq<int>, step: StepStatus, index: u32) -> bool {
    &&& cv(row, cfg.index_cell.cell) == index
    &&& cv(row, cfg.frame_table_lookup.cell) == call_jump_key(step, index).encode_spec()
}

/// A row carrying a valid call witness over an assigned common context.
pub open spec fn call_row_ok(
    cfg: CallConfig,
    common: EventTableCommonConfig,
    row: Seq<int>,
    step: StepStatus,
    index: u32,
) -> bool {
    &&& common.wf()
    &&& step.wf()
    &&& index < KEY_INDEX_BOUND
    &&& cfg.frame_table_lookup == common.jtable_lookup_cell
    &&& common_assigned(common, row, step)
    &&& call_assigned(cfg, row, step, index)
}

/// Every constraint the call builder registers evaluates to zero on every
/// row that carries a valid call witness.
pub open spec fn call_gate(
    cfg: CallConfig,
    common: EventTableCommonConfig,
    cs: Seq<Constraint>,
    lo: int,
) -> bool {
    forall|row: Seq<int>, step: StepStatus, index: u32|
        #[trigger] call_row_ok(cfg, common, row, step, index) ==> constraints_zero_range(
            cs,
            lo,
            lo + 1,
            row,
        )
}

impl CallConfig {
    pub open spec fn owns(self, i: int) -> bool {
        i == self.index_cell.cell || i == self.frame_table_lookup.cell
    }
}


/// The exact polynomial the one registered constraint expression evaluates
/// to: the frame-table claim minus the packed jump key of the current
/// context, with the return instruction one past the call.
pub open spec fn call_eval_identities(
    cfg: CallConfig,
    common: EventTableCommonConfig,
    cs: Seq<Constraint>,
    lo: int,
) -> bool {
    &&& common.wf()
    &&& 0 <= lo && cs.len() >= lo + 1
    &&& cs[lo].exprs@.len() == 1
    &&& forall|row: Seq<int>|
        #[trigger] eval(cs[lo].exprs@[0], row) == cv(row, cfg.frame_table_lookup.cell)
            - crate::encode::jump_key_val(
            cv(row, common.eid_cell.cell),
            cv(row, common.frame_id_cell.cell),
            cv(row, cfg.index_cell.cell),
            cv(row, common.fid_cell.cell),
            cv(row, common.iid_cell.cell) + 1,
        )
}

impl CallConfigBuilder {
    /// Declare the cells and the frame-table constraint of the call opcode.
    pub fn configure(
        common: &EventTableCommonConfig,
        alloc: &mut CellAllocator,
        cb: &mut ConstraintBuilder,
    ) -> (cfg: CallConfig)
        requires
            common.wf(),
        ensures
            cfg.index_cell.cell == old(alloc).count(),
            cfg.frame_table_lookup == common.jtable_lookup_cell,
            final(alloc).count() == old(alloc).count() + 1,
            final(alloc).kinds@ == old(alloc).kinds@.push(
                crate::allocator::CellKind::CommonRange,
            ),
            final(cb).constraints@.len() == old(cb).constraints@.len() + 1,
            forall|j: int|
                0 <= j < old(cb).constraints@.len() ==> final(cb).constraints@[j] == old(
                    cb,
                ).constraints@[j],
            call_eval_identities(
                cfg,
                *common,
                final(cb).constraints@,
                old(cb).constraints@.len() as int,
            ),
            call_gate(cfg, *common, final(cb).constraints@, old(cb).constraints@.len() as int),
    {
        let ghost lo = cb.constraints@.len() as int;
        let index_cell = alloc.alloc_common_range_cell();
        let frame_table_lookup = common.jtable_lookup_cell;
        let key = Expr::cell(common.iid_cell.cell).plus(Expr::constant(1)).plus(
            Expr::cell(common.fid_cell.cell).times(Expr::constant(0x100_0000)),
        ).plus(Expr::cell(index_cell.cell).times(Expr::constant(0x1_0000_0000_0000))).plus(
            Expr::cell(common.frame_id_cell.cell).times(Expr::constant(0x100_0000_0000_0000_0000)),
        ).plus(
            Expr::cell(common.eid_cell.cell).times(
                Expr::constant(0x10_0000_0000_0000_0000_0000_0000),
            ),
        );
        let e = Expr::cell(frame_table_lookup.cell).minus(key);
        let mut exprs: Vec<Expr> = Vec::new();
        exprs.push(e);
        cb.push("call: frame table lookup", exprs);
        let cfg = CallConfig { index_cell, frame_table_lookup };
        proof {
            assert(call_eval_identities(cfg, *common, cb.constraints@, lo));
            assert forall|row: Seq<int>, step: StepStatus, index: u32|
                call_row_ok(cfg, *common, row, step, index) implies constraints_zero_range(
                cb.constraints@,
                lo,
                lo + 1,
                row,
            ) by {
                assert(eval(e, row) == cv(row, cfg.frame_table_lookup.cell) - (cv(
                    row,
                    common.iid_cell.cell,
                ) + 1 + cv(row, common.fid_cell.cell) * 0x100_0000 + cv(row, cfg.index_cell.cell)
                    * 0x1_0000_0000_0000 + cv(row, common.frame_id_cell.cell)
                    * 0x100_0000_0000_0000_0000 + cv(row, common.eid_cell.cell)
                    * 0x10_0000_0000_0000_0000_0000_0000));
                assert(crate::builder::constraint_zero(cb.constraints@[lo], row));
            }
        }
        cfg
    }
}

impl CallConfig {
    /// The encoded opcode: the class tag and the callee function id.
    pub fn opcode(&self) -> (r: Expr)
        ensures
            forall|row: Seq<int>|
                #[trigger] eval(r, row) == 6 * 0x1000_0000_0000_0000_0000_0000 + cv(
                    row,
                    self.index_cell.cell,
                ),
    {
        Expr::constant(6 * 0x1000_0000_0000_0000_0000_0000).plus(Expr::cell(self.index_cell.cell))
    }

    /// On an assigned row the opcode expression evaluates to the canonical
    /// call encoding.
    pub proof fn lemma_opcode_value(
        &self,
        op: Expr,
        row: Seq<int>,
        step: StepStatus,
        index: u32,
    )
        requires
            forall|r: Seq<int>|
                #[trigger] eval(op, r) == 6 * 0x1000_0000_0000_0000_0000_0000 + cv(
                    r,
                    self.index_cell.cell,
                ),
            call_assigned(*self, row, step, index),
        ensures
            eval(op, row) == encode_call_spec(index as int),
    {
    }

    /// Fill the opcode's cells from one call step: record the call-site
    /// index and claim the jump-table entry.
    pub fn assign(&self, row: &mut Row, step: &StepStatus, entry: &EventTableEntryWithMemoryInfo)
        requires
            entry.step_info is Call,
            step.wf(),
            entry.step_info->Call_index < KEY_INDEX_BOUND,
            self.index_cell.cell != self.frame_table_lookup.cell,
            self.index_cell.cell < old(row)@.len(),
            self.frame_table_lookup.cell < old(row)@.len(),
            forall|i: int| self.owns(i) ==> #[trigger] old(row).unassigned(i),
        ensures
            final(row)@.len() == old(row)@.len(),
            call_assigned(*self, final(row)@, *step, entry.step_info->Call_index),
            forall|i: int|
                #![trigger final(row)@[i]]
                0 <= i < old(row)@.len() && !self.owns(i) ==> final(row)@[i] == old(row)@[i],
            forall|i: int|
                0 <= i < old(row)@.len() && !self.owns(i) ==> #[trigger] final(row).unassigned(i)
                    == old(row).unassigned(i),
    {
        match entry.step_info {
            StepInfo::Call { index } => {
                row.set_u64(self.index_cell.cell, index as u64);
                let key = JumpLookupKey {
                    eid: step.eid,
                    frame_id: step.last_jump_eid,
                    index,
                    fid: step.fid,
                    iid: step.iid + 1,
                };
                let k = key.encode();
                row.set_u128(self.frame_table_lookup.cell, k);
            },
            _ => {
                proof {
                    assert(false);
                }
            },
        }
    }

    /// One jump-table entry is claimed per call.
    pub fn jops_expr(&self) -> (r: Option<Expr>)
        ensures
            r is Some,
            forall|row: Seq<int>| #[trigger] eval(r.unwrap(), row) == 1,
    {
        Some(Expr::constant(1))
    }

    pub fn jops(&self) -> (r: u32)
        ensures
            r == 1,
    {
        1
    }

    /// The callee runs in a frame named by the current event id.
    pub fn next_frame_id(&self, common: &EventTableCommonConfig) -> (r: Option<Expr>)
        ensures
            r is Some,
            forall|row: Seq<int>|
                #[trigger] eval(r.unwrap(), row) == cv(row, common.eid_cell.cell),
    {
        Some(Expr::cell(common.eid_cell.cell))
    }

    /// The callee's function id is the call target.
    pub fn next_fid(&self) -> (r: Option<Expr>)
        ensures
            r is Some,
            forall|row: Seq<int>| #[trigger] eval(r.unwrap(), row) == cv(row, self.index_cell.cell),
    {
        Some(Expr::cell(self.index_cell.cell))
    }

    /// The callee starts at its first instruction.
    pub fn next_iid(&self) -> (r: Option<Expr>)
        ensures
            r is Some,
            forall|row: Seq<int>| #[trigger] eval(r.unwrap(), row) == 0,
    {
        Some(Expr::constant(0))
    }
}

} // verus!
