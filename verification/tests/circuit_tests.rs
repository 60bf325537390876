use zkwasm::allocator::CellAllocator;
use zkwasm::builder::ConstraintBuilder;
use zkwasm::encode::{decode_jump_key, BinOp, JumpLookupKey, RelOp};
use zkwasm::etable::{
    EventTableCommonConfig, EventTableEntryWithMemoryInfo, StepInfo, StepStatus, UniArg,
};
use zkwasm::fieldval::FieldVal;
use zkwasm::op_bin::BinConfigBuilder;
use zkwasm::op_call::CallConfigBuilder;
use zkwasm::op_conversion::ConversionConfigBuilder;
use zkwasm::op_local_set::LocalSetConfigBuilder;
use zkwasm::op_memory_grow::{memory_grow_result, MemoryGrowConfigBuilder, MEMORY_GROW_FAILURE};
use zkwasm::op_rel::RelConfigBuilder;
use zkwasm::encode::VarType;
use zkwasm::row::Row;

fn cell_u128(row: &Row, i: usize) -> u128 {
    match row.vals[i] {
        Some(f) => {
            assert_eq!(f.hi, 0, "cell {} exceeds 128 bits", i);
            f.lo
        },
        None => panic!("cell {} was never assigned", i),
    }
}

fn step(eid: u32, sp: u32) -> StepStatus {
    StepStatus {
        eid,
        fid: 1,
        iid: 2,
        sp,
        allocated_memory_pages: 2,
        last_jump_eid: 0,
        maximal_memory_pages: 4,
    }
}

#[test]
fn bin_add_row_wraps_with_overflow() {
    let mut alloc = CellAllocator::new();
    let mut cb = ConstraintBuilder::new();
    let common = EventTableCommonConfig::configure(&mut alloc, &mut cb);
    let cfg = BinConfigBuilder::configure(&common, &mut alloc, &mut cb);
    let mut row = Row::new(alloc.kinds.len());
    let st = step(5, 100);
    common.assign(&mut row, &st);
    let entry = EventTableEntryWithMemoryInfo {
        step_info: StepInfo::I32BinOp {
            class: BinOp::Add,
            left: 0xffff_ffff,
            right: 1,
            value: 0,
            lhs_uniarg: UniArg::Pop,
            rhs_uniarg: UniArg::Pop,
        },
    };
    cfg.assign(&common, &mut row, &st, &entry);
    assert_eq!(cell_u128(&row, cfg.overflow.cell), 1);
    assert_eq!(cell_u128(&row, cfg.is_add.cell), 1);
    assert_eq!(cell_u128(&row, cfg.is_sub.cell), 0);
    assert_eq!(cell_u128(&row, cfg.memory_table_lookup_stack_write.value_cell.cell), 0);
    assert_eq!(cell_u128(&row, cfg.size_modulus.cell), 0x1_0000_0000);
    // the sum of the selector bits is one
    let sels = [
        cfg.is_add.cell,
        cfg.is_sub.cell,
        cfg.is_mul.cell,
        cfg.is_div_u.cell,
        cfg.is_div_s.cell,
        cfg.is_rem_u.cell,
        cfg.is_rem_s.cell,
    ];
    let total: u128 = sels.iter().map(|c| cell_u128(&row, *c)).sum();
    assert_eq!(total, 1);
}

#[test]
fn bin_signed_div_row_witnesses_magnitudes() {
    let mut alloc = CellAllocator::new();
    let mut cb = ConstraintBuilder::new();
    let common = EventTableCommonConfig::configure(&mut alloc, &mut cb);
    let cfg = BinConfigBuilder::configure(&common, &mut alloc, &mut cb);
    let mut row = Row::new(alloc.kinds.len());
    let st = step(5, 100);
    common.assign(&mut row, &st);
    // -7 / 2 == -3 at 32 bits
    let minus7 = (-7i32) as u32 as u64;
    let minus3 = (-3i32) as u32 as u64;
    let entry = EventTableEntryWithMemoryInfo {
        step_info: StepInfo::I32BinOp {
            class: BinOp::SignedDiv,
            left: minus7,
            right: 2,
            value: minus3,
            lhs_uniarg: UniArg::Pop,
            rhs_uniarg: UniArg::Pop,
        },
    };
    cfg.assign(&common, &mut row, &st, &entry);
    assert_eq!(cell_u128(&row, cfg.normalized_lhs.cell), 7);
    assert_eq!(cell_u128(&row, cfg.normalized_rhs.cell), 2);
    assert_eq!(cell_u128(&row, cfg.d.u64_cell), 3);
    assert_eq!(cell_u128(&row, cfg.aux1.u64_cell), 1);
    assert_eq!(cell_u128(&row, cfg.res_flag.cell), 1);
    assert_eq!(
        cell_u128(&row, cfg.memory_table_lookup_stack_write.value_cell.cell),
        minus3 as u128,
    );
}

#[test]
fn rel_signed_lt_row() {
    let mut alloc = CellAllocator::new();
    let mut cb = ConstraintBuilder::new();
    let common = EventTableCommonConfig::configure(&mut alloc, &mut cb);
    let cfg = RelConfigBuilder::configure(&common, &mut alloc, &mut cb);
    let mut row = Row::new(alloc.kinds.len());
    let st = step(5, 100);
    common.assign(&mut row, &st);
    // signed: -1 < 1 holds
    let minus1 = (-1i32) as u32 as u64;
    let entry = EventTableEntryWithMemoryInfo {
        step_info: StepInfo::I32RelOp {
            class: RelOp::Lt,
            sign: true,
            left: minus1,
            right: 1,
            value: 1,
            lhs_uniarg: UniArg::Pop,
            rhs_uniarg: UniArg::Pop,
        },
    };
    cfg.assign(&common, &mut row, &st, &entry, FieldVal { lo: 0, hi: 0 });
    assert_eq!(cell_u128(&row, cfg.res.cell), 1);
    assert_eq!(cell_u128(&row, cfg.l_neg_r_pos.cell), 1);
    assert_eq!(cell_u128(&row, cfg.same_sign_lt.cell), 0);
    assert_eq!(cell_u128(&row, cfg.res_is_gt.cell), 1);  // raw compare: 0xFFFFFFFF > 1
}

#[test]
fn rel_unsigned_lt_row_is_false() {
    let mut alloc = CellAllocator::new();
    let mut cb = ConstraintBuilder::new();
    let common = EventTableCommonConfig::configure(&mut alloc, &mut cb);
    let cfg = RelConfigBuilder::configure(&common, &mut alloc, &mut cb);
    let mut row = Row::new(alloc.kinds.len());
    let st = step(5, 100);
    common.assign(&mut row, &st);
    let entry = EventTableEntryWithMemoryInfo {
        step_info: StepInfo::I32RelOp {
            class: RelOp::Lt,
            sign: false,
            left: 0xffff_ffff,
            right: 1,
            value: 0,
            lhs_uniarg: UniArg::Pop,
            rhs_uniarg: UniArg::Pop,
        },
    };
    cfg.assign(&common, &mut row, &st, &entry, FieldVal { lo: 0, hi: 0 });
    assert_eq!(cell_u128(&row, cfg.res.cell), 0);
    assert_eq!(cell_u128(&row, cfg.l_neg_r_pos.cell), 0);
    assert_eq!(cell_u128(&row, cfg.op_is_sign.cell), 0);
}

#[test]
fn conversion_sign_extend_8_to_32() {
    // 0x80 sign-extends to 0xFFFFFF80; 0x7F stays 0x7F
    for (value, result) in [(0x80u64, 0xffff_ff80u64), (0x7fu64, 0x7fu64)] {
        let mut alloc = CellAllocator::new();
        let mut cb = ConstraintBuilder::new();
        let common = EventTableCommonConfig::configure(&mut alloc, &mut cb);
        let cfg = ConversionConfigBuilder::configure(&common, &mut alloc, &mut cb);
        let mut row = Row::new(alloc.kinds.len());
        let st = step(5, 100);
        common.assign(&mut row, &st);
        let entry = EventTableEntryWithMemoryInfo {
            step_info: StepInfo::I32SignExtendI8 { value, result, uniarg: UniArg::Pop },
        };
        cfg.assign(&common, &mut row, &st, &entry);
        assert_eq!(
            cell_u128(&row, cfg.memory_table_lookup_stack_write.value_cell.cell),
            result as u128,
        );
        assert_eq!(cell_u128(&row, cfg.padding.cell), 0xffff_ff00);
    }
}

#[test]
fn conversion_wrap_64_to_32() {
    let mut alloc = CellAllocator::new();
    let mut cb = ConstraintBuilder::new();
    let common = EventTableCommonConfig::configure(&mut alloc, &mut cb);
    let cfg = ConversionConfigBuilder::configure(&common, &mut alloc, &mut cb);
    let mut row = Row::new(alloc.kinds.len());
    let st = step(5, 100);
    common.assign(&mut row, &st);
    let entry = EventTableEntryWithMemoryInfo {
        step_info: StepInfo::I32WrapI64 {
            value: 0x1234_5678_9abc_def0,
            result: 0x9abc_def0,
            uniarg: UniArg::Pop,
        },
    };
    cfg.assign(&common, &mut row, &st, &entry);
    assert_eq!(
        cell_u128(&row, cfg.memory_table_lookup_stack_write.value_cell.cell),
        0x9abc_def0,
    );
    assert_eq!(cell_u128(&row, cfg.is_i32_wrap_i64.cell), 1);
}

#[test]
fn local_set_row_moves_value() {
    let mut alloc = CellAllocator::new();
    let mut cb = ConstraintBuilder::new();
    let common = EventTableCommonConfig::configure(&mut alloc, &mut cb);
    let cfg = LocalSetConfigBuilder::configure(&common, &mut alloc, &mut cb);
    let mut row = Row::new(alloc.kinds.len());
    let st = step(5, 100);
    common.assign(&mut row, &st);
    let entry = EventTableEntryWithMemoryInfo {
        step_info: StepInfo::SetLocal { vtype: VarType::I32, depth: 3, value: 7 },
    };
    cfg.assign(&mut row, &st, &entry);
    assert_eq!(cell_u128(&row, cfg.offset_cell.cell), 3);
    assert_eq!(cell_u128(&row, cfg.stack_reading_lookup.value.u64_cell), 7);
}

#[test]
fn memory_grow_success_returns_previous_pages() {
    // two pages, maximal four: growing by one succeeds and pushes two
    assert_eq!(memory_grow_result(2, 4, 1), (true, 2));
    let mut alloc = CellAllocator::new();
    let mut cb = ConstraintBuilder::new();
    let common = EventTableCommonConfig::configure(&mut alloc, &mut cb);
    let cfg = MemoryGrowConfigBuilder::configure(&common, &mut alloc, &mut cb, 4);
    let mut row = Row::new(alloc.kinds.len());
    let st = step(5, 100);
    common.assign(&mut row, &st);
    let entry = EventTableEntryWithMemoryInfo {
        step_info: StepInfo::MemoryGrow { grow_size: 1, result: 2 },
    };
    cfg.assign(&mut row, &st, &entry);
    assert_eq!(cell_u128(&row, cfg.success.cell), 1);
    assert_eq!(cell_u128(&row, cfg.result.u64_cell), 2);
    assert_eq!(cell_u128(&row, cfg.current_maximal_diff.cell), 1);
}

#[test]
fn memory_grow_failure_returns_sentinel() {
    // two pages, maximal four: growing by three fails and pushes the sentinel
    assert_eq!(memory_grow_result(2, 4, 3), (false, MEMORY_GROW_FAILURE));
    let mut alloc = CellAllocator::new();
    let mut cb = ConstraintBuilder::new();
    let common = EventTableCommonConfig::configure(&mut alloc, &mut cb);
    let cfg = MemoryGrowConfigBuilder::configure(&common, &mut alloc, &mut cb, 4);
    let mut row = Row::new(alloc.kinds.len());
    let st = step(5, 100);
    common.assign(&mut row, &st);
    let entry = EventTableEntryWithMemoryInfo {
        step_info: StepInfo::MemoryGrow { grow_size: 3, result: MEMORY_GROW_FAILURE },
    };
    cfg.assign(&mut row, &st, &entry);
    assert_eq!(cell_u128(&row, cfg.success.cell), 0);
    assert_eq!(cell_u128(&row, cfg.result.u64_cell), MEMORY_GROW_FAILURE as u128);
    assert_eq!(cell_u128(&row, cfg.current_maximal_diff.cell), 0);
}

#[test]
fn call_row_claims_jump_entry_and_redirects() {
    let mut alloc = CellAllocator::new();
    let mut cb = ConstraintBuilder::new();
    let common = EventTableCommonConfig::configure(&mut alloc, &mut cb);
    let cfg = CallConfigBuilder::configure(&common, &mut alloc, &mut cb);
    let mut row = Row::new(alloc.kinds.len());
    // calling function 4 from (eid = 10, frame = 3) at (fid = 9, iid = 6)
    let st = StepStatus {
        eid: 10,
        fid: 9,
        iid: 6,
        sp: 100,
        allocated_memory_pages: 2,
        last_jump_eid: 3,
        maximal_memory_pages: 4,
    };
    common.assign(&mut row, &st);
    let entry = EventTableEntryWithMemoryInfo { step_info: StepInfo::Call { index: 4 } };
    cfg.assign(&mut row, &st, &entry);
    let packed = match row.vals[cfg.frame_table_lookup.cell] {
        Some(f) => {
            assert_eq!(f.hi, 0);
            f.lo
        },
        None => panic!("jump claim missing"),
    };
    // the claimed entry links caller and callee and returns past the call
    assert_eq!(
        decode_jump_key(packed),
        Some(JumpLookupKey { eid: 10, frame_id: 3, index: 4, fid: 9, iid: 7 }),
    );
    assert_eq!(cell_u128(&row, cfg.index_cell.cell), 4);
}

#[test]
fn bin_unsigned_div_row_euclidean_witnesses() {
    let mut alloc = CellAllocator::new();
    let mut cb = ConstraintBuilder::new();
    let common = EventTableCommonConfig::configure(&mut alloc, &mut cb);
    let cfg = BinConfigBuilder::configure(&common, &mut alloc, &mut cb);
    let mut row = Row::new(alloc.kinds.len());
    let st = step(5, 100);
    common.assign(&mut row, &st);
    let entry = EventTableEntryWithMemoryInfo {
        step_info: StepInfo::I64BinOp {
            class: BinOp::UnsignedDiv,
            left: 23,
            right: 5,
            value: 4,
            lhs_uniarg: UniArg::Pop,
            rhs_uniarg: UniArg::Pop,
        },
    };
    cfg.assign(&common, &mut row, &st, &entry);
    assert_eq!(cell_u128(&row, cfg.d.u64_cell), 4);
    assert_eq!(cell_u128(&row, cfg.aux1.u64_cell), 3);  // remainder
    assert_eq!(cell_u128(&row, cfg.aux2.u64_cell), 1);  // divisor gap: 5 - 3 - 1
    assert_eq!(cell_u128(&row, cfg.rhs_mul_d.cell), 20);
    // quotient times divisor plus remainder recovers the dividend
    assert_eq!(
        cell_u128(&row, cfg.rhs_mul_d.cell) + cell_u128(&row, cfg.aux1.u64_cell),
        23,
    );
}

#[test]
fn bin_constant_argument_skips_stack_read() {
    let mut alloc = CellAllocator::new();
    let mut cb = ConstraintBuilder::new();
    let common = EventTableCommonConfig::configure(&mut alloc, &mut cb);
    let cfg = BinConfigBuilder::configure(&common, &mut alloc, &mut cb);
    let mut row = Row::new(alloc.kinds.len());
    let st = step(5, 100);
    common.assign(&mut row, &st);
    let entry = EventTableEntryWithMemoryInfo {
        step_info: StepInfo::I32BinOp {
            class: BinOp::Sub,
            left: 10,
            right: 4,
            value: 6,
            lhs_uniarg: UniArg::Pop,
            rhs_uniarg: UniArg::IConst(4),
        },
    };
    cfg.assign(&common, &mut row, &st, &entry);
    // the constant right argument claims no stack read
    let arg0 = common.uniarg_configs[0];
    assert_eq!(cell_u128(&row, arg0.is_pop_cell.cell), 0);
    assert_eq!(cell_u128(&row, arg0.lookup_cell.cell), 0);
    assert_eq!(cell_u128(&row, arg0.value_cell.cell), 4);
    // the popped left argument does
    let arg1 = common.uniarg_configs[1];
    assert_eq!(cell_u128(&row, arg1.is_pop_cell.cell), 1);
    assert_ne!(cell_u128(&row, arg1.lookup_cell.cell), 0);
}

#[test]
fn conversion_extend_32_to_64_signed_and_unsigned() {
    for (sign, value, result) in [
        (true, (-2i32) as u32 as u64, (-2i64) as u64),
        (false, (-2i32) as u32 as u64, 0xffff_fffe),
        (true, 7, 7),
    ] {
        let mut alloc = CellAllocator::new();
        let mut cb = ConstraintBuilder::new();
        let common = EventTableCommonConfig::configure(&mut alloc, &mut cb);
        let cfg = ConversionConfigBuilder::configure(&common, &mut alloc, &mut cb);
        let mut row = Row::new(alloc.kinds.len());
        let st = step(5, 100);
        common.assign(&mut row, &st);
        let entry = EventTableEntryWithMemoryInfo {
            step_info: StepInfo::I64ExtendI32 { value, result, sign, uniarg: UniArg::Pop },
        };
        cfg.assign(&common, &mut row, &st, &entry);
        assert_eq!(
            cell_u128(&row, cfg.memory_table_lookup_stack_write.value_cell.cell),
            result as u128,
        );
    }
}

#[test]
fn local_set_write_claim_decodes_to_target_slot() {
    let mut alloc = CellAllocator::new();
    let mut cb = ConstraintBuilder::new();
    let common = EventTableCommonConfig::configure(&mut alloc, &mut cb);
    let cfg = LocalSetConfigBuilder::configure(&common, &mut alloc, &mut cb);
    let mut row = Row::new(alloc.kinds.len());
    let st = step(5, 100);
    common.assign(&mut row, &st);
    let entry = EventTableEntryWithMemoryInfo {
        step_info: StepInfo::SetLocal { vtype: VarType::I64, depth: 3, value: 7 },
    };
    cfg.assign(&mut row, &st, &entry);
    let packed = match row.vals[cfg.memory_table_lookup_stack_write.encoded_cell.cell] {
        Some(f) => {
            assert_eq!(f.hi, 0);
            f.lo
        },
        None => panic!("write claim missing"),
    };
    let key = zkwasm::encode::decode_memory_key(packed).expect("claim must decode");
    assert_eq!(key.location, zkwasm::encode::LocationType::Stack);
    assert_eq!(key.address, 104);  // sp + 1 + depth
    assert_eq!(key.eid, 5);
    assert_eq!(key.value, 7);
    assert!(!key.is_i32);
}

#[test]
fn whole_circuit_builds_every_family_once() {
    let mut alloc = CellAllocator::new();
    let mut cb = ConstraintBuilder::new();
    let cfg = zkwasm::circuit::EventTableConfig::configure(&mut alloc, &mut cb, 4);
    assert_eq!(cb.constraints.len(), 51);
    // handles never collide: each family's cells sit above the previous one's
    assert!(cfg.common.jtable_lookup_cell.cell < cfg.bin.lhs.value.limb0_cell);
    assert!(cfg.bin.memory_table_lookup_stack_write.encoded_cell.cell < cfg.rel.op_is_sign.cell);
    assert!(cfg.rel.memory_table_lookup_stack_write.encoded_cell.cell < cfg.conversion.value.limb0_cell);
    assert!(
        cfg.conversion.memory_table_lookup_stack_write.encoded_cell.cell
            < cfg.local_set.stack_reading_lookup.value.limb0_cell
    );
    assert!(
        cfg.local_set.memory_table_lookup_stack_write.encoded_cell.cell
            < cfg.memory_grow.grow_size_lookup.value.limb0_cell
    );
    assert!(cfg.memory_grow.memory_table_lookup_stack_write.encoded_cell.cell < cfg.call.index_cell.cell);
    assert_eq!(alloc.kinds.len(), cfg.call.index_cell.cell + 1);
}

#[test]
fn bin_signed_rem_of_minimum_by_minus_one_assigns() {
    // the one signed pair whose division traps: the remainder is zero and
    // row assignment handles it
    let mut alloc = CellAllocator::new();
    let mut cb = ConstraintBuilder::new();
    let common = EventTableCommonConfig::configure(&mut alloc, &mut cb);
    let cfg = BinConfigBuilder::configure(&common, &mut alloc, &mut cb);
    let mut row = Row::new(alloc.kinds.len());
    let st = step(5, 100);
    common.assign(&mut row, &st);
    let min = (i32::MIN as u32) as u64;
    let minus1 = (-1i32) as u32 as u64;
    let entry = EventTableEntryWithMemoryInfo {
        step_info: StepInfo::I32BinOp {
            class: BinOp::SignedRem,
            left: min,
            right: minus1,
            value: 0,
            lhs_uniarg: UniArg::Pop,
            rhs_uniarg: UniArg::Pop,
        },
    };
    cfg.assign(&common, &mut row, &st, &entry);
    assert_eq!(cell_u128(&row, cfg.memory_table_lookup_stack_write.value_cell.cell), 0);
    assert_eq!(cell_u128(&row, cfg.normalized_lhs.cell), 0x8000_0000);
    assert_eq!(cell_u128(&row, cfg.normalized_rhs.cell), 1);
    assert_eq!(cell_u128(&row, cfg.d.u64_cell), 0x8000_0000);
    assert_eq!(cell_u128(&row, cfg.aux1.u64_cell), 0);
    // the quotient's leading limb overflows the sign-agreement bound: this
    // row lies outside the constraint gate's hypotheses
    assert_eq!(cell_u128(&row, cfg.d_leading_u16.cell), 0x8000);
    assert_eq!(cell_u128(&row, cfg.d_flag_helper_diff.cell), 0);
}
