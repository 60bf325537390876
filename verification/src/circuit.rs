//! Whole-circuit construction: every opcode family built once over one
//! shared cell arena and one shared constraint registry.
//!
//! Each family's gate is stated against the registry snapshot its builder
//! produced; because the registry is append-only, every gate carries over to
//! the final constraint list, so a single object certifies all families at
//! once.

use crate::allocator::{CellAllocator, COMMON_RANGE_BOUND};
use crate::builder::{
    constraint_zero, constraint_zero_mod, constraints_zero_mod_range, constraints_zero_range,
    Constraint, ConstraintBuilder,
};
use crate::encode::{BinOp, RelOp};
use crate::etable::{
    common_cell_kinds, common_eval_identities, common_gate, common_row_ok, EventTableCommonConfig,
    StepStatus, UniArg,
};
use crate::expr::cv;
use crate::op_bin::{bin_cell_kinds, bin_eval_identities, bin_gate, bin_row_ok, BinConfig, BinConfigBuilder};
use crate::op_call::{call_eval_identities, call_gate, call_row_ok, CallConfig, CallConfigBuilder};
use crate::op_conversion::{
    conv_cell_kinds, conv_eval_identities, conv_gate, conv_row_ok, ConversionConfig,
    ConversionConfigBuilder,
};
use crate::op_local_set::{
    local_set_cell_kinds, local_set_eval_identities, local_set_gate, local_set_row_ok,
    LocalSetConfig, LocalSetConfigBuilder,
};
use crate::op_memory_grow::{
    memory_grow_cell_kinds, memory_grow_eval_identities, memory_grow_gate, memory_grow_row_ok,
    MemoryGrowConfig, MemoryGrowConfigBuilder,
};
use crate::op_rel::{
    rel_cell_kinds, rel_eval_identities, rel_gate, rel_inv_ok, rel_row_ok, rel_diff_val, RelConfig,
    RelConfigBuilder,
};
use vstd::prelude::*;

verus! {

/// All opcode configurations of one circuit, with the registry positions of
/// each family's constraints.
pub struct EventTableConfig {
    pub common: EventTableCommonConfig,
    pub bin: BinConfig,
    pub rel: RelConfig,
    pub conversion: ConversionConfig,
    pub local_set: LocalSetConfig,
    pub memory_grow: MemoryGrowConfig,
    pub call: CallConfig,
}

impl EventTableConfig {
    /// Build every family over the shared arena and registry.  Every gate
    /// holds on the final constraint list: on any row carrying one family's
    /// valid witness, all of that family's registered constraints vanish.
    pub fn configure(
        alloc: &mut CellAllocator,
        cb: &mut ConstraintBuilder,
        maximal_memory_pages: u32,
    ) -> (r: EventTableConfig)
        requires
            maximal_memory_pages < COMMON_RANGE_BOUND,
        ensures
            r.common.wf(),
            final(cb).constraints@.len() == old(cb).constraints@.len() + 51,
            final(alloc).kinds@ == old(alloc).kinds@ + common_cell_kinds() + bin_cell_kinds()
                + rel_cell_kinds() + conv_cell_kinds() + local_set_cell_kinds()
                + memory_grow_cell_kinds() + seq![crate::allocator::CellKind::CommonRange],
            common_eval_identities(
                r.common,
                final(cb).constraints@,
                old(cb).constraints@.len() as int,
            ),
            bin_eval_identities(
                r.bin,
                r.common,
                final(cb).constraints@,
                old(cb).constraints@.len() as int + 1,
            ),
            rel_eval_identities(
                r.rel,
                r.common,
                final(cb).constraints@,
                old(cb).constraints@.len() as int + 21,
            ),
            conv_eval_identities(
                r.conversion,
                r.common,
                final(cb).constraints@,
                old(cb).constraints@.len() as int + 31,
            ),
            local_set_eval_identities(
                r.local_set,
                r.common,
                final(cb).constraints@,
                old(cb).constraints@.len() as int + 41,
            ),
            memory_grow_eval_identities(
                r.memory_grow,
                r.common,
                final(cb).constraints@,
                old(cb).constraints@.len() as int + 44,
            ),
            call_eval_identities(
                r.call,
                r.common,
                final(cb).constraints@,
                old(cb).constraints@.len() as int + 50,
            ),
            common_gate(r.common, final(cb).constraints@, old(cb).constraints@.len() as int),
            bin_gate(
                r.bin,
                r.common,
                final(cb).constraints@,
                old(cb).constraints@.len() as int + 1,
            ),
            rel_gate(
                r.rel,
                r.common,
                final(cb).constraints@,
                old(cb).constraints@.len() as int + 21,
            ),
            conv_gate(
                r.conversion,
                r.common,
                final(cb).constraints@,
                old(cb).constraints@.len() as int + 31,
            ),
            local_set_gate(
                r.local_set,
                r.common,
                final(cb).constraints@,
                old(cb).constraints@.len() as int + 41,
            ),
            memory_grow_gate(
                r.memory_grow,
                r.common,
                final(cb).constraints@,
                old(cb).constraints@.len() as int + 44,
            ),
            call_gate(
                r.call,
                r.common,
                final(cb).constraints@,
                old(cb).constraints@.len() as int + 50,
            ),
    {
        let ghost lo = cb.constraints@.len() as int;
        let common = EventTableCommonConfig::configure(alloc, cb);
        let ghost cs1 = cb.constraints@;
        let bin = BinConfigBuilder::configure(&common, alloc, cb);
        let ghost cs2 = cb.constraints@;
        let rel = RelConfigBuilder::configure(&common, alloc, cb);
        let ghost cs3 = cb.constraints@;
        let conversion = ConversionConfigBuilder::configure(&common, alloc, cb);
        let ghost cs4 = cb.constraints@;
        let local_set = LocalSetConfigBuilder::configure(&common, alloc, cb);
        let ghost cs5 = cb.constraints@;
        let memory_grow = MemoryGrowConfigBuilder::configure(
            &common,
            alloc,
            cb,
            maximal_memory_pages,
        );
        let ghost cs6 = cb.constraints@;
        let call = CallConfigBuilder::configure(&common, alloc, cb);
        let r = EventTableConfig { common, bin, rel, conversion, local_set, memory_grow, call };
        proof {
            let cs = cb.constraints@;
            assert forall|j: int| 0 <= j < cs6.len() implies cs[j] == cs6[j] by {}
            assert forall|j: int| 0 <= j < cs1.len() implies cs[j] == cs1[j] by {
                assert(cs2[j] == cs1[j]);
                assert(cs3[j] == cs2[j]);
                assert(cs4[j] == cs3[j]);
                assert(cs5[j] == cs4[j]);
                assert(cs6[j] == cs5[j]);
            }
            assert(alloc.kinds@ =~= old(alloc).kinds@ + common_cell_kinds() + bin_cell_kinds()
                + rel_cell_kinds() + conv_cell_kinds() + local_set_cell_kinds()
                + memory_grow_cell_kinds() + seq![crate::allocator::CellKind::CommonRange]);
            assert(common_eval_identities(r.common, cs, lo));
            assert(bin_eval_identities(r.bin, r.common, cs, lo + 1));
            assert(rel_eval_identities(r.rel, r.common, cs, lo + 21));
            assert(conv_eval_identities(r.conversion, r.common, cs, lo + 31));
            assert(local_set_eval_identities(r.local_set, r.common, cs, lo + 41));
            assert(memory_grow_eval_identities(r.memory_grow, r.common, cs, lo + 44));
            assert(call_eval_identities(r.call, r.common, cs, lo + 50));
            assert forall|
                row: Seq<int>,
                step: StepStatus,
                a0: UniArg,
                t0: bool,
                v0: u64,
                a1: UniArg,
                t1: bool,
                v1: u64,
            |
                common_row_ok(r.common, row, step, a0, t0, v0, a1, t1, v1) implies constraints_zero_range(
                cs,
                lo,
                lo + 1,
                row,
            ) by {
                assert(constraints_zero_range(cs1, lo, lo + 1, row));
                assert forall|j: int| lo <= j < lo + 1 implies constraint_zero(
                    #[trigger] cs[j],
                    row,
                ) by {
                    assert(constraint_zero(cs1[j], row));
                }
            }
            assert forall|
                row: Seq<int>,
                step: StepStatus,
                class: BinOp,
                is_i32: bool,
                l: u64,
                rr: u64,
                v: u64,
                lua: UniArg,
                rua: UniArg,
            |
                bin_row_ok(r.bin, r.common, row, step, class, is_i32, l, rr, v, lua, rua) implies constraints_zero_range(
                cs,
                lo + 1,
                lo + 21,
                row,
            ) by {
                assert(constraints_zero_range(cs2, lo + 1, lo + 21, row));
                assert forall|j: int| lo + 1 <= j < lo + 21 implies constraint_zero(
                    #[trigger] cs[j],
                    row,
                ) by {
                    assert(cs3[j] == cs2[j]);
                    assert(cs4[j] == cs3[j]);
                    assert(cs5[j] == cs4[j]);
                    assert(cs6[j] == cs5[j]);
                    assert(constraint_zero(cs2[j], row));
                }
            }
            assert forall|
                row: Seq<int>,
                step: StepStatus,
                class: RelOp,
                sign: bool,
                is_i32: bool,
                l: u64,
                rr: u64,
                v: u64,
                lua: UniArg,
                rua: UniArg,
                p: int,
            |
                rel_row_ok(r.rel, r.common, row, step, class, sign, is_i32, l, rr, v, lua, rua)
                    && p >= 2 && rel_inv_ok(
                    rel_diff_val(l, rr),
                    cv(row, r.rel.diff_inv.cell),
                    p,
                ) implies constraints_zero_mod_range(cs, lo + 21, lo + 31, row, p) by {
                assert(constraints_zero_mod_range(cs3, lo + 21, lo + 31, row, p));
                assert forall|j: int| lo + 21 <= j < lo + 31 implies constraint_zero_mod(
                    #[trigger] cs[j],
                    row,
                    p,
                ) by {
                    assert(cs4[j] == cs3[j]);
                    assert(cs5[j] == cs4[j]);
                    assert(cs6[j] == cs5[j]);
                    assert(constraint_zero_mod(cs3[j], row, p));
                }
            }
            assert forall|row: Seq<int>, step: StepStatus, info: crate::etable::StepInfo|
                conv_row_ok(r.conversion, r.common, row, step, info) implies constraints_zero_range(
                cs,
                lo + 31,
                lo + 41,
                row,
            ) by {
                assert(constraints_zero_range(cs4, lo + 31, lo + 41, row));
                assert forall|j: int| lo + 31 <= j < lo + 41 implies constraint_zero(
                    #[trigger] cs[j],
                    row,
                ) by {
                    assert(cs5[j] == cs4[j]);
                    assert(cs6[j] == cs5[j]);
                    assert(constraint_zero(cs4[j], row));
                }
            }
            assert forall|
                row: Seq<int>,
                step: StepStatus,
                vtype: crate::encode::VarType,
                depth: u32,
                value: u64,
            |
                local_set_row_ok(r.local_set, r.common, row, step, vtype, depth, value) implies constraints_zero_range(
                cs,
                lo + 41,
                lo + 44,
                row,
            ) by {
                assert(constraints_zero_range(cs5, lo + 41, lo + 44, row));
                assert forall|j: int| lo + 41 <= j < lo + 44 implies constraint_zero(
                    #[trigger] cs[j],
                    row,
                ) by {
                    assert(cs6[j] == cs5[j]);
                    assert(constraint_zero(cs5[j], row));
                }
            }
            assert forall|row: Seq<int>, step: StepStatus, grow_size: u64, result: u64|
                memory_grow_row_ok(r.memory_grow, r.common, row, step, grow_size, result) implies constraints_zero_range(
                cs,
                lo + 44,
                lo + 50,
                row,
            ) by {
                assert(constraints_zero_range(cs6, lo + 44, lo + 50, row));
                assert forall|j: int| lo + 44 <= j < lo + 50 implies constraint_zero(
                    #[trigger] cs[j],
                    row,
                ) by {
                    assert(constraint_zero(cs6[j], row));
                }
            }
        }
        r
    }
}

} // verus!
