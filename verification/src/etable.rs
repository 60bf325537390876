//! Per-row state shared by all opcode configurations.
//!
//! The common configuration owns the row context cells — program counter,
//! function id, event id, stack pointer, memory page count, and the current
//! call-frame id — plus the two unary-argument slots that binary opcodes load
//! their operands from.  A unary argument is either a freshly popped stack
//! value or an inlined constant, unified behind one value cell; a popped
//! argument additionally claims one stack-read entry in the external memory
//! table.
//!
//! An execution-step entry carries the opcode-family variant with its
//! operands and results; the memory accesses an opcode performs are derived
//! from it and from the row context, and each is claimed through a packed
//! lookup key that the external table must contain.

use crate::allocator::{
    AllocatedBitCell, AllocatedCommonRangeCell, AllocatedU64Cell, AllocatedUnlimitedCell,
    CellAllocator, COMMON_RANGE_BOUND,
};
use crate::builder::{Constraint, ConstraintBuilder};
use crate::encode::{
    bit_val, memory_key_val, BinOp, LocationType, MemoryLookupKey, RelOp, VarType, KEY_EID_BOUND,
    KEY_INDEX_BOUND,
};
use crate::expr::{cv, eval, Expr};
use crate::row::Row;
use vstd::prelude::*;

verus! {

/// The row context one trace step executes under.
#[derive(Clone, Copy, PartialEq, Eq, Structural, Debug)]
pub struct StepStatus {
    pub eid: u32,
    pub fid: u32,
    pub iid: u32,
    pub sp: u32,
    pub allocated_memory_pages: u32,
    pub last_jump_eid: u32,
    pub maximal_memory_pages: u32,
}

impl StepStatus {
    /// The bounds the packed lookup keys and the common-range cells rely on.
    pub open spec fn wf(self) -> bool {
        &&& 0 < self.eid < KEY_EID_BOUND
        &&& self.last_jump_eid < KEY_EID_BOUND
        &&& self.fid < KEY_INDEX_BOUND
        &&& self.iid + 1 < KEY_INDEX_BOUND
        &&& self.sp + 16 < KEY_EID_BOUND
        &&& self.allocated_memory_pages < COMMON_RANGE_BOUND
        &&& self.maximal_memory_pages < COMMON_RANGE_BOUND
    }
}

/// A unary argument: a popped stack value or an inlined constant.
#[derive(Clone, Copy, PartialEq, Eq, Structural, Debug)]
pub enum UniArg {
    Pop,
    IConst(u64),
}

impl UniArg {
    /// One on a popped argument, zero on a constant.
    pub open spec fn pop_val(self) -> int {
        if self is Pop {
            1
        } else {
            0
        }
    }
}

/// One instruction's execution record: the opcode-family variant with its
/// operands and results.  Operands of 32-bit instructions are carried in the
/// low half of the `u64` fields.
#[allow(inconsistent_fields)]
#[derive(Clone, Copy, PartialEq, Eq, Structural, Debug)]
pub enum StepInfo {
    I32BinOp {
        class: BinOp,
        left: u64,
        right: u64,
        value: u64,
        lhs_uniarg: UniArg,
        rhs_uniarg: UniArg,
    },
    I64BinOp {
        class: BinOp,
        left: u64,
        right: u64,
        value: u64,
        lhs_uniarg: UniArg,
        rhs_uniarg: UniArg,
    },
    I32RelOp {
        class: RelOp,
        sign: bool,
        left: u64,
        right: u64,
        value: u64,
        lhs_uniarg: UniArg,
        rhs_uniarg: UniArg,
    },
    I64RelOp {
        class: RelOp,
        sign: bool,
        left: u64,
        right: u64,
        value: u64,
        lhs_uniarg: UniArg,
        rhs_uniarg: UniArg,
    },
    I32WrapI64 { value: u64, result: u64, uniarg: UniArg },
    I64ExtendI32 { value: u64, result: u64, sign: bool, uniarg: UniArg },
    I32SignExtendI8 { value: u64, result: u64, uniarg: UniArg },
    I32SignExtendI16 { value: u64, result: u64, uniarg: UniArg },
    I64SignExtendI8 { value: u64, result: u64, uniarg: UniArg },
    I64SignExtendI16 { value: u64, result: u64, uniarg: UniArg },
    I64SignExtendI32 { value: u64, result: u64, uniarg: UniArg },
    SetLocal { vtype: VarType, depth: u32, value: u64 },
    MemoryGrow { grow_size: u64, result: u64 },
    Call { index: u32 },
}

/// One execution-step entry as handed to an opcode's row assignment.  The
/// memory accesses the opcode claims are derived from the step record and the
/// row context and emitted as packed lookup keys.
pub struct EventTableEntryWithMemoryInfo {
    pub step_info: StepInfo,
}

/// A claim that the external memory table holds one write entry; the packed
/// key is built from expressions fixed at configuration time.
#[derive(Clone, Copy, PartialEq, Eq, Structural, Debug)]
pub struct AllocatedMemoryTableLookupWriteCell {
    pub encoded_cell: AllocatedUnlimitedCell,
}

/// As [`AllocatedMemoryTableLookupWriteCell`], with the written value held in
/// a cell of its own that the opcode's constraints may reference.
#[derive(Clone, Copy, PartialEq, Eq, Structural, Debug)]
pub struct AllocatedMemoryTableLookupWriteCellWithValue {
    pub value_cell: AllocatedUnlimitedCell,
    pub encoded_cell: AllocatedUnlimitedCell,
}

/// A claim that the external memory table holds one stack-read entry, with
/// the read value range-checked through a 64-bit compound cell.
#[derive(Clone, Copy, PartialEq, Eq, Structural, Debug)]
pub struct StackReadLookup {
    pub value: AllocatedU64Cell,
    pub is_i32: AllocatedBitCell,
    pub lookup_cell: AllocatedUnlimitedCell,
}

impl AllocatedMemoryTableLookupWriteCell {
    pub open spec fn owns(self, i: int) -> bool {
        i == self.encoded_cell.cell
    }

    /// The cell carries the packed key of `key`.
    pub open spec fn holds(self, row: Seq<int>, key: MemoryLookupKey) -> bool {
        cv(row, self.encoded_cell.cell) == key.encode_spec()
    }

    /// Claim the write entry `key`.
    pub fn assign(&self, row: &mut Row, key: MemoryLookupKey)
        requires
            key.wf(),
            self.encoded_cell.cell < old(row)@.len(),
            old(row).unassigned(self.encoded_cell.cell as int),
        ensures
            final(row)@.len() == old(row)@.len(),
            self.holds(final(row)@, key),
            forall|i: int|
                #![trigger final(row)@[i]]
                0 <= i < old(row)@.len() && !self.owns(i) ==> final(row)@[i] == old(row)@[i],
            forall|i: int|
                0 <= i < old(row)@.len() && !self.owns(i) ==> #[trigger] final(row).unassigned(i)
                    == old(row).unassigned(i),
            forall|i: int| self.owns(i) ==> !(#[trigger] final(row).unassigned(i)),
    {
        let k = key.encode();
        row.set_u128(self.encoded_cell.cell, k);
    }
}

impl AllocatedMemoryTableLookupWriteCellWithValue {
    pub open spec fn wf(self) -> bool {
        self.encoded_cell.cell == self.value_cell.cell + 1
    }

    pub open spec fn owns(self, i: int) -> bool {
        self.value_cell.cell <= i <= self.value_cell.cell + 1
    }

    /// The cells carry the written value and the packed key of `key`.
    pub open spec fn holds(self, row: Seq<int>, key: MemoryLookupKey) -> bool {
        cv(row, self.value_cell.cell) == key.value && cv(row, self.encoded_cell.cell)
            == key.encode_spec()
    }

    /// Claim the write entry `key` and record the written value.
    pub fn assign(&self, row: &mut Row, key: MemoryLookupKey)
        requires
            key.wf(),
            self.wf(),
            self.value_cell.cell + 1 < old(row)@.len(),
            forall|i: int| self.owns(i) ==> #[trigger] old(row).unassigned(i),
        ensures
            final(row)@.len() == old(row)@.len(),
            self.holds(final(row)@, key),
            forall|i: int|
                #![trigger final(row)@[i]]
                0 <= i < old(row)@.len() && !self.owns(i) ==> final(row)@[i] == old(row)@[i],
            forall|i: int|
                0 <= i < old(row)@.len() && !self.owns(i) ==> #[trigger] final(row).unassigned(i)
                    == old(row).unassigned(i),
            forall|i: int| self.owns(i) ==> !(#[trigger] final(row).unassigned(i)),
    {
        row.set_u64(self.value_cell.cell, key.value);
        let k = key.encode();
        row.set_u128(self.encoded_cell.cell, k);
    }
}

impl StackReadLookup {
    pub open spec fn wf(self) -> bool {
        self.value.wf() && self.is_i32.cell == self.value.limb0_cell + 5 && self.lookup_cell.cell
            == self.value.limb0_cell + 6
    }

    pub open spec fn owns(self, i: int) -> bool {
        self.value.limb0_cell <= i <= self.value.limb0_cell + 6
    }

    /// The cells carry the read value, its type bit, and the packed key.
    pub open spec fn holds(self, row: Seq<int>, key: MemoryLookupKey) -> bool {
        &&& self.value.holds(row, key.value)
        &&& cv(row, self.is_i32.cell) == key.flag_val()
        &&& cv(row, self.lookup_cell.cell) == key.encode_spec()
    }

    /// Claim the stack-read entry `key` and record the value read.
    pub fn assign(&self, row: &mut Row, key: MemoryLookupKey)
        requires
            key.wf(),
            self.wf(),
            self.value.limb0_cell + 6 < old(row)@.len(),
            forall|i: int| self.owns(i) ==> #[trigger] old(row).unassigned(i),
        ensures
            final(row)@.len() == old(row)@.len(),
            self.holds(final(row)@, key),
            forall|i: int|
                #![trigger final(row)@[i]]
                0 <= i < old(row)@.len() && !self.owns(i) ==> final(row)@[i] == old(row)@[i],
            forall|i: int|
                0 <= i < old(row)@.len() && !self.owns(i) ==> #[trigger] final(row).unassigned(i)
                    == old(row).unassigned(i),
            forall|i: int| self.owns(i) ==> !(#[trigger] final(row).unassigned(i)),
    {
        self.value.assign(row, key.value);
        row.set_bit(self.is_i32.cell, key.is_i32);
        let k = key.encode();
        row.set_u128(self.lookup_cell.cell, k);
        proof {
            assert forall|i: int| 0 <= i < old(row)@.len() && !self.owns(i) implies row@[i] == old(
                row,
            )@[i] by {
                assert(!self.value.owns(i));
            }
        }
    }
}

/// The kinds a stack-read claim occupies: the value compound, the type bit,
/// and the claim cell.
pub open spec fn stack_read_lookup_kinds() -> Seq<crate::allocator::CellKind> {
    crate::allocator::u64_cell_kinds() + seq![
        crate::allocator::CellKind::Bit,
        crate::allocator::CellKind::Unlimited,
    ]
}

/// The kinds the context cells and both argument slots occupy.
pub open spec fn common_cell_kinds() -> Seq<crate::allocator::CellKind> {
    seq![
        crate::allocator::CellKind::CommonRange,
        crate::allocator::CellKind::CommonRange,
        crate::allocator::CellKind::CommonRange,
        crate::allocator::CellKind::CommonRange,
        crate::allocator::CellKind::CommonRange,
        crate::allocator::CellKind::CommonRange,
        crate::allocator::CellKind::Unlimited,
        crate::allocator::CellKind::Bit,
        crate::allocator::CellKind::Bit,
        crate::allocator::CellKind::Unlimited,
        crate::allocator::CellKind::Unlimited,
        crate::allocator::CellKind::Bit,
        crate::allocator::CellKind::Bit,
        crate::allocator::CellKind::Unlimited,
        crate::allocator::CellKind::Unlimited,
    ]
}

/// Build the packed-key expression over the given component expressions.
pub fn mem_key_expr(loc: LocationType, addr: Expr, eid: Expr, is_i32: Expr, value: Expr) -> (r:
    Expr)
    ensures
        forall|row: Seq<int>|
            #[trigger] eval(r, row) == memory_key_val(
                loc.tag_spec(),
                eval(addr, row),
                eval(eid, row),
                eval(is_i32, row),
                eval(value, row),
            ),
{
    let loc_term: u128 = (loc.tag() as u128) * 0x2_0000_0000_0000_0000;
    value.plus(is_i32.times(Expr::constant(0x1_0000_0000_0000_0000))).plus(
        Expr::constant(loc_term),
    ).plus(addr.times(Expr::constant(0x8_0000_0000_0000_0000))).plus(
        eid.times(Expr::constant(0x8000_0000_0000_0000_0000_0000)),
    )
}

impl CellAllocator {
    /// Allocate a memory-table write claim whose key components are the given
    /// expressions, and register the constraint tying the claim cell to them.
    pub fn alloc_memory_table_lookup_write_cell(
        &mut self,
        name: &'static str,
        cb: &mut ConstraintBuilder,
        loc: LocationType,
        addr: Expr,
        eid: Expr,
        is_i32: Expr,
        value: Expr,
    ) -> (r: AllocatedMemoryTableLookupWriteCell)
        ensures
            r.encoded_cell.cell == old(self).count(),
            final(self).count() == old(self).count() + 1,
            final(self).kinds@ == old(self).kinds@.push(crate::allocator::CellKind::Unlimited),
            final(cb).constraints@.len() == old(cb).constraints@.len() + 1,
            forall|j: int|
                0 <= j < old(cb).constraints@.len() ==> final(cb).constraints@[j] == old(
                    cb,
                ).constraints@[j],
            ({
                let c = final(cb).constraints@[old(cb).constraints@.len() as int];
                c.exprs@.len() == 1 && forall|row: Seq<int>|
                    #[trigger] eval(c.exprs@[0], row) == cv(row, r.encoded_cell.cell)
                        - memory_key_val(
                        loc.tag_spec(),
                        eval(addr, row),
                        eval(eid, row),
                        eval(is_i32, row),
                        eval(value, row),
                    )
            }),
    {
        let encoded_cell = self.alloc_unlimited_cell();
        let key = mem_key_expr(loc, addr, eid, is_i32, value);
        let e = Expr::cell(encoded_cell.cell).minus(key);
        let mut exprs: Vec<Expr> = Vec::new();
        exprs.push(e);
        cb.push(name, exprs);
        AllocatedMemoryTableLookupWriteCell { encoded_cell }
    }

    /// As [`Self::alloc_memory_table_lookup_write_cell`], with the written
    /// value held in a dedicated cell referenced by the key.
    pub fn alloc_memory_table_lookup_write_cell_with_value(
        &mut self,
        name: &'static str,
        cb: &mut ConstraintBuilder,
        loc: LocationType,
        addr: Expr,
        eid: Expr,
        is_i32: Expr,
    ) -> (r: AllocatedMemoryTableLookupWriteCellWithValue)
        ensures
            r.wf(),
            r.value_cell.cell == old(self).count(),
            final(self).count() == old(self).count() + 2,
            final(self).kinds@ == old(self).kinds@.push(
                crate::allocator::CellKind::Unlimited,
            ).push(crate::allocator::CellKind::Unlimited),
            final(cb).constraints@.len() == old(cb).constraints@.len() + 1,
            forall|j: int|
                0 <= j < old(cb).constraints@.len() ==> final(cb).constraints@[j] == old(
                    cb,
                ).constraints@[j],
            ({
                let c = final(cb).constraints@[old(cb).constraints@.len() as int];
                c.exprs@.len() == 1 && forall|row: Seq<int>|
                    #[trigger] eval(c.exprs@[0], row) == cv(row, r.encoded_cell.cell)
                        - memory_key_val(
                        loc.tag_spec(),
                        eval(addr, row),
                        eval(eid, row),
                        eval(is_i32, row),
                        cv(row, r.value_cell.cell),
                    )
            }),
    {
        let value_cell = self.alloc_unlimited_cell();
        let encoded_cell = self.alloc_unlimited_cell();
        let key = mem_key_expr(loc, addr, eid, is_i32, Expr::cell(value_cell.cell));
        let e = Expr::cell(encoded_cell.cell).minus(key);
        let mut exprs: Vec<Expr> = Vec::new();
        exprs.push(e);
        cb.push(name, exprs);
        AllocatedMemoryTableLookupWriteCellWithValue { value_cell, encoded_cell }
    }

    /// Allocate a stack-read claim at depth `depth` below the stack pointer,
    /// and register its key constraint and the value's limb composition.
    pub fn alloc_stack_read_lookup(
        &mut self,
        name: &'static str,
        cb: &mut ConstraintBuilder,
        sp_cell: usize,
        eid_cell: usize,
        depth: u64,
    ) -> (r: StackReadLookup)
        ensures
            r.wf(),
            r.value.limb0_cell == old(self).count(),
            final(self).count() == old(self).count() + 7,
            final(self).kinds@ == old(self).kinds@ + stack_read_lookup_kinds(),
            final(cb).constraints@.len() == old(cb).constraints@.len() + 2,
            forall|j: int|
                0 <= j < old(cb).constraints@.len() ==> final(cb).constraints@[j] == old(
                    cb,
                ).constraints@[j],
            ({
                let c = final(cb).constraints@[old(cb).constraints@.len() as int];
                c.exprs@.len() == 1 && forall|row: Seq<int>|
                    #[trigger] eval(c.exprs@[0], row) == cv(row, r.value.u64_cell)
                        - crate::allocator::u64_compose(row, r.value)
            }),
            ({
                let c = final(cb).constraints@[old(cb).constraints@.len() as int + 1];
                c.exprs@.len() == 1 && forall|row: Seq<int>|
                    #[trigger] eval(c.exprs@[0], row) == cv(row, r.lookup_cell.cell)
                        - memory_key_val(
                        1,
                        cv(row, sp_cell) + depth,
                        cv(row, eid_cell),
                        cv(row, r.is_i32.cell),
                        cv(row, r.value.u64_cell),
                    )
            }),
    {
        let value = self.alloc_u64_cell(cb);
        let is_i32 = self.alloc_bit_cell();
        let lookup_cell = self.alloc_unlimited_cell();
        let key = mem_key_expr(
            LocationType::Stack,
            Expr::cell(sp_cell).plus(Expr::constant(depth as u128)),
            Expr::cell(eid_cell),
            Expr::cell(is_i32.cell),
            Expr::cell(value.u64_cell),
        );
        let e = Expr::cell(lookup_cell.cell).minus(key);
        let mut exprs: Vec<Expr> = Vec::new();
        exprs.push(e);
        cb.push(name, exprs);
        proof {
            assert(self.kinds@ =~= old(self).kinds@ + stack_read_lookup_kinds());
        }
        StackReadLookup { value, is_i32, lookup_cell }
    }
}

/// One unary-argument slot: a pop bit, the operand's type bit, its value, and
/// the stack-read claim a popped argument makes.
#[derive(Clone, Copy, PartialEq, Eq, Structural, Debug)]
pub struct UniArgConfig {
    pub is_pop_cell: AllocatedBitCell,
    pub is_i32_cell: AllocatedBitCell,
    pub value_cell: AllocatedUnlimitedCell,
    pub lookup_cell: AllocatedUnlimitedCell,
}

impl UniArgConfig {
    pub open spec fn base(self) -> int {
        self.is_pop_cell.cell as int
    }

    pub open spec fn wf(self) -> bool {
        self.is_i32_cell.cell == self.base() + 1 && self.value_cell.cell == self.base() + 2
            && self.lookup_cell.cell == self.base() + 3
    }

    pub open spec fn owns(self, i: int) -> bool {
        self.base() <= i <= self.base() + 3
    }

    /// The slot carries argument `arg` of type `is_i32` with operand value
    /// `value`; a popped argument claims the stack read at `addr`.
    pub open spec fn assigned(
        self,
        row: Seq<int>,
        arg: UniArg,
        is_i32: bool,
        value: u64,
        addr: u32,
        eid: u32,
    ) -> bool {
        &&& cv(row, self.is_pop_cell.cell) == arg.pop_val()
        &&& cv(row, self.is_i32_cell.cell) == bit_val(is_i32)
        &&& cv(row, self.value_cell.cell) == value
        &&& cv(row, self.lookup_cell.cell) == if arg is Pop {
            memory_key_val(1, addr as int, eid as int, bit_val(is_i32), value as int)
        } else {
            0int
        }
    }

    /// Fill the slot from one argument of the current step.
    pub fn assign(&self, row: &mut Row, arg: UniArg, is_i32: bool, value: u64, addr: u32, eid: u32)
        requires
            self.wf(),
            self.base() + 3 < old(row)@.len(),
            forall|i: int| self.owns(i) ==> #[trigger] old(row).unassigned(i),
            addr < KEY_EID_BOUND,
            eid < KEY_EID_BOUND,
        ensures
            final(row)@.len() == old(row)@.len(),
            self.assigned(final(row)@, arg, is_i32, value, addr, eid),
            forall|i: int|
                #![trigger final(row)@[i]]
                0 <= i < old(row)@.len() && !self.owns(i) ==> final(row)@[i] == old(row)@[i],
            forall|i: int|
                0 <= i < old(row)@.len() && !self.owns(i) ==> #[trigger] final(row).unassigned(i)
                    == old(row).unassigned(i),
            forall|i: int| self.owns(i) ==> !(#[trigger] final(row).unassigned(i)),
    {
        let is_pop = match arg {
            UniArg::Pop => true,
            UniArg::IConst(_) => false,
        };
        row.set_bit(self.is_pop_cell.cell, is_pop);
        row.set_bit(self.is_i32_cell.cell, is_i32);
        row.set_u64(self.value_cell.cell, value);
        if is_pop {
            let key = MemoryLookupKey { location: LocationType::Stack, address: addr, eid, is_i32, value };
            let k = key.encode();
            row.set_u128(self.lookup_cell.cell, k);
        } else {
            row.set_u64(self.lookup_cell.cell, 0);
        }
    }
}


/// The exact polynomial each registered argument-slot expression evaluates
/// to: the pop bit times the difference between the slot's stack-read claim
/// and the packed key of the read it must make, the second slot popping one
/// above the first.
pub open spec fn common_eval_identities(
    cfg: EventTableCommonConfig,
    cs: Seq<Constraint>,
    lo: int,
) -> bool {
    &&& cfg.wf()
    &&& 0 <= lo && cs.len() >= lo + 1
    &&& cs[lo].exprs@.len() == 2
    &&& forall|row: Seq<int>|
        #[trigger] eval(cs[lo].exprs@[0], row) == cv(
            row,
            cfg.uniarg_configs[0].is_pop_cell.cell,
        ) * (cv(row, cfg.uniarg_configs[0].lookup_cell.cell) - memory_key_val(
            1,
            cv(row, cfg.sp_cell.cell) + 1,
            cv(row, cfg.eid_cell.cell),
            cv(row, cfg.uniarg_configs[0].is_i32_cell.cell),
            cv(row, cfg.uniarg_configs[0].value_cell.cell),
        ))
    &&& forall|row: Seq<int>|
        #[trigger] eval(cs[lo].exprs@[1], row) == cv(
            row,
            cfg.uniarg_configs[1].is_pop_cell.cell,
        ) * (cv(row, cfg.uniarg_configs[1].lookup_cell.cell) - memory_key_val(
            1,
            cv(row, cfg.sp_cell.cell) + 1 + cv(row, cfg.uniarg_configs[0].is_pop_cell.cell),
            cv(row, cfg.eid_cell.cell),
            cv(row, cfg.uniarg_configs[1].is_i32_cell.cell),
            cv(row, cfg.uniarg_configs[1].value_cell.cell),
        ))
}

/// The per-row context cells shared by every opcode configuration, plus the
/// two unary-argument slots.
pub struct EventTableCommonConfig {
    pub eid_cell: AllocatedCommonRangeCell,
    pub fid_cell: AllocatedCommonRangeCell,
    pub iid_cell: AllocatedCommonRangeCell,
    pub sp_cell: AllocatedCommonRangeCell,
    pub mpages_cell: AllocatedCommonRangeCell,
    pub frame_id_cell: AllocatedCommonRangeCell,
    pub jtable_lookup_cell: AllocatedUnlimitedCell,
    pub uniarg_configs: Vec<UniArgConfig>,
}

/// The common context cells carry the current step's row state.
pub open spec fn common_assigned(cfg: EventTableCommonConfig, row: Seq<int>, step: StepStatus) -> bool {
    &&& cv(row, cfg.eid_cell.cell) == step.eid
    &&& cv(row, cfg.fid_cell.cell) == step.fid
    &&& cv(row, cfg.iid_cell.cell) == step.iid
    &&& cv(row, cfg.sp_cell.cell) == step.sp
    &&& cv(row, cfg.mpages_cell.cell) == step.allocated_memory_pages
    &&& cv(row, cfg.frame_id_cell.cell) == step.last_jump_eid
}

/// A row carrying a full common context: the context cells hold the step's
/// state and both argument slots are filled, the second popping above the
/// first.
pub open spec fn common_row_ok(
    cfg: EventTableCommonConfig,
    row: Seq<int>,
    step: StepStatus,
    arg0: UniArg,
    is_i32_0: bool,
    v0: u64,
    arg1: UniArg,
    is_i32_1: bool,
    v1: u64,
) -> bool {
    &&& cfg.wf()
    &&& step.wf()
    &&& common_assigned(cfg, row, step)
    &&& cfg.uniarg_configs@[0].assigned(row, arg0, is_i32_0, v0, (step.sp + 1) as u32, step.eid)
    &&& cfg.uniarg_configs@[1].assigned(
        row,
        arg1,
        is_i32_1,
        v1,
        (step.sp + 1 + arg0.pop_val()) as u32,
        step.eid,
    )
}

/// The constraints registered by the common configuration hold on every row
/// that carries a full common context.
pub open spec fn common_gate(cfg: EventTableCommonConfig, cs: Seq<Constraint>, lo: int) -> bool {
    forall|row: Seq<int>, step: StepStatus, arg0: UniArg, t0: bool, v0: u64, arg1: UniArg, t1: bool, v1: u64|
        #[trigger] common_row_ok(cfg, row, step, arg0, t0, v0, arg1, t1, v1)
            ==> crate::builder::constraints_zero_range(cs, lo, lo + 1, row)
}

impl EventTableCommonConfig {
    pub open spec fn base(self) -> int {
        self.eid_cell.cell as int
    }

    /// The last cell handle the common configuration occupies.
    pub open spec fn top(self) -> int {
        self.base() + 14
    }

    pub open spec fn wf(self) -> bool {
        &&& self.fid_cell.cell == self.base() + 1
        &&& self.iid_cell.cell == self.base() + 2
        &&& self.sp_cell.cell == self.base() + 3
        &&& self.mpages_cell.cell == self.base() + 4
        &&& self.frame_id_cell.cell == self.base() + 5
        &&& self.jtable_lookup_cell.cell == self.base() + 6
        &&& self.uniarg_configs@.len() == 2
        &&& self.uniarg_configs@[0].wf()
        &&& self.uniarg_configs@[0].base() == self.base() + 7
        &&& self.uniarg_configs@[1].wf()
        &&& self.uniarg_configs@[1].base() == self.base() + 11
    }

    /// The handles of the six context cells the common assignment fills.
    pub open spec fn ctx_owns(self, i: int) -> bool {
        self.base() <= i <= self.base() + 5
    }

    /// Allocate the shared context cells and both argument slots, and
    /// register the stack-read constraints of the argument slots.
    pub fn configure(alloc: &mut CellAllocator, cb: &mut ConstraintBuilder) -> (r: Self)
        ensures
            r.wf(),
            r.base() == old(alloc).count(),
            final(alloc).count() == old(alloc).count() + 15,
            final(alloc).kinds@ == old(alloc).kinds@ + common_cell_kinds(),
            final(cb).constraints@.len() == old(cb).constraints@.len() + 1,
            forall|j: int|
                0 <= j < old(cb).constraints@.len() ==> final(cb).constraints@[j] == old(
                    cb,
                ).constraints@[j],
            common_eval_identities(r, final(cb).constraints@, old(cb).constraints@.len() as int),
            common_gate(r, final(cb).constraints@, old(cb).constraints@.len() as int),
    {
        let ghost lo = cb.constraints@.len() as int;
        let eid_cell = alloc.alloc_common_range_cell();
        let fid_cell = alloc.alloc_common_range_cell();
        let iid_cell = alloc.alloc_common_range_cell();
        let sp_cell = alloc.alloc_common_range_cell();
        let mpages_cell = alloc.alloc_common_range_cell();
        let frame_id_cell = alloc.alloc_common_range_cell();
        let jtable_lookup_cell = alloc.alloc_unlimited_cell();
        let arg0 = UniArgConfig {
            is_pop_cell: alloc.alloc_bit_cell(),
            is_i32_cell: alloc.alloc_bit_cell(),
            value_cell: alloc.alloc_unlimited_cell(),
            lookup_cell: alloc.alloc_unlimited_cell(),
        };
        let arg1 = UniArgConfig {
            is_pop_cell: alloc.alloc_bit_cell(),
            is_i32_cell: alloc.alloc_bit_cell(),
            value_cell: alloc.alloc_unlimited_cell(),
            lookup_cell: alloc.alloc_unlimited_cell(),
        };
        let key0 = mem_key_expr(
            LocationType::Stack,
            Expr::cell(sp_cell.cell).plus(Expr::constant(1)),
            Expr::cell(eid_cell.cell),
            Expr::cell(arg0.is_i32_cell.cell),
            Expr::cell(arg0.value_cell.cell),
        );
        let e0 = Expr::cell(arg0.is_pop_cell.cell).times(
            Expr::cell(arg0.lookup_cell.cell).minus(key0),
        );
        let key1 = mem_key_expr(
            LocationType::Stack,
            Expr::cell(sp_cell.cell).plus(Expr::constant(1)).plus(
                Expr::cell(arg0.is_pop_cell.cell),
            ),
            Expr::cell(eid_cell.cell),
            Expr::cell(arg1.is_i32_cell.cell),
            Expr::cell(arg1.value_cell.cell),
        );
        let e1 = Expr::cell(arg1.is_pop_cell.cell).times(
            Expr::cell(arg1.lookup_cell.cell).minus(key1),
        );
        let mut exprs: Vec<Expr> = Vec::new();
        exprs.push(e0);
        exprs.push(e1);
        cb.push("uniarg stack read", exprs);
        let mut uniarg_configs: Vec<UniArgConfig> = Vec::new();
        uniarg_configs.push(arg0);
        uniarg_configs.push(arg1);
        let r = EventTableCommonConfig {
            eid_cell,
            fid_cell,
            iid_cell,
            sp_cell,
            mpages_cell,
            frame_id_cell,
            jtable_lookup_cell,
            uniarg_configs,
        };
        proof {
            assert(alloc.kinds@ =~= old(alloc).kinds@ + common_cell_kinds());
            assert(common_eval_identities(r, cb.constraints@, lo));
            assert forall|
                row: Seq<int>,
                step: StepStatus,
                a0: UniArg,
                t0: bool,
                v0: u64,
                a1: UniArg,
                t1: bool,
                v1: u64,
            |
                common_row_ok(r, row, step, a0, t0, v0, a1, t1, v1) implies crate::builder::constraints_zero_range(
                cb.constraints@,
                lo,
                lo + 1,
                row,
            ) by {
                let c = cb.constraints@[lo];
                assert forall|i: int| 0 <= i < c.exprs@.len() implies #[trigger] eval(
                    c.exprs@[i],
                    row,
                ) == 0 by {
                    assert(c.exprs@[0] == e0 && c.exprs@[1] == e1);
                    assert(r.uniarg_configs@[0] == arg0 && r.uniarg_configs@[1] == arg1);
                    assert(eval(e0, row) == cv(row, arg0.is_pop_cell.cell) * (cv(
                        row,
                        arg0.lookup_cell.cell,
                    ) - memory_key_val(
                        1,
                        cv(row, sp_cell.cell) + 1,
                        cv(row, eid_cell.cell),
                        cv(row, arg0.is_i32_cell.cell),
                        cv(row, arg0.value_cell.cell),
                    )));
                    assert(eval(e1, row) == cv(row, arg1.is_pop_cell.cell) * (cv(
                        row,
                        arg1.lookup_cell.cell,
                    ) - memory_key_val(
                        1,
                        cv(row, sp_cell.cell) + 1 + cv(row, arg0.is_pop_cell.cell),
                        cv(row, eid_cell.cell),
                        cv(row, arg1.is_i32_cell.cell),
                        cv(row, arg1.value_cell.cell),
                    )));
                    vstd::arithmetic::mul::lemma_mul_basics(
                        cv(row, arg0.lookup_cell.cell) - memory_key_val(
                            1,
                            cv(row, sp_cell.cell) + 1,
                            cv(row, eid_cell.cell),
                            cv(row, arg0.is_i32_cell.cell),
                            cv(row, arg0.value_cell.cell),
                        ),
                    );
                    vstd::arithmetic::mul::lemma_mul_basics(
                        cv(row, arg1.lookup_cell.cell) - memory_key_val(
                            1,
                            cv(row, sp_cell.cell) + 1 + cv(row, arg0.is_pop_cell.cell),
                            cv(row, eid_cell.cell),
                            cv(row, arg1.is_i32_cell.cell),
                            cv(row, arg1.value_cell.cell),
                        ),
                    );
                    assert(cv(row, r.uniarg_configs@[0].is_pop_cell.cell) == a0.pop_val());
                    assert(cv(row, r.uniarg_configs@[1].is_pop_cell.cell) == a1.pop_val());
                    if a0 is Pop {
                        assert(eval(e0, row) == 0);
                    } else {
                        assert(eval(e0, row) == 0);
                    }
                    if a1 is Pop {
                        assert(eval(e1, row) == 0);
                    } else {
                        assert(eval(e1, row) == 0);
                    }
                }
                assert(crate::builder::constraint_zero(cb.constraints@[lo], row));
            }
        }
        r
    }

    /// Fill the six context cells from the current step's row state.
    pub fn assign(&self, row: &mut Row, step: &StepStatus)
        requires
            self.wf(),
            step.wf(),
            self.base() + 5 < old(row)@.len(),
            forall|i: int| self.ctx_owns(i) ==> #[trigger] old(row).unassigned(i),
        ensures
            final(row)@.len() == old(row)@.len(),
            common_assigned(*self, final(row)@, *step),
            forall|i: int|
                #![trigger final(row)@[i]]
                0 <= i < old(row)@.len() && !self.ctx_owns(i) ==> final(row)@[i] == old(row)@[i],
            forall|i: int|
                0 <= i < old(row)@.len() && !self.ctx_owns(i) ==> #[trigger] final(row).unassigned(
                    i,
                ) == old(row).unassigned(i),
            forall|i: int| self.ctx_owns(i) ==> !(#[trigger] final(row).unassigned(i)),
    {
        row.set_u64(self.eid_cell.cell, step.eid as u64);
        row.set_u64(self.fid_cell.cell, step.fid as u64);
        row.set_u64(self.iid_cell.cell, step.iid as u64);
        row.set_u64(self.sp_cell.cell, step.sp as u64);
        row.set_u64(self.mpages_cell.cell, step.allocated_memory_pages as u64);
        row.set_u64(self.frame_id_cell.cell, step.last_jump_eid as u64);
    }
}

} // verus!
