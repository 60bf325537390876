//! The typed cell arena.
//!
//! Cells are handed out as monotonically increasing handles from a single
//! arena; a handle is never reused, so physically adjacent opcode
//! configurations cannot collide.  Each handle carries a kind that fixes the
//! range invariant the backend enforces on it: a bit cell holds zero or one, a
//! common-range cell holds a value below [`COMMON_RANGE_BOUND`], a 16-bit limb
//! holds a value below two to the sixteenth, and an unlimited cell is
//! unconstrained (its range must be implied by other constraints).
//!
//! A 64-bit cell is a compound: four 16-bit limbs, low first, plus a value
//! cell tied to them by a composition constraint that is registered at
//! allocation time.  The variants with a flag bit additionally extract the
//! top bit of the value (of its low 32 bits when the companion type bit says
//! the value is 32-bit wide) for sign and overflow reasoning.

use crate::builder::ConstraintBuilder;
use crate::expr::{cv, eval, Expr};
use vstd::arithmetic::div_mod::{lemma_div_denominator, lemma_fundamental_div_mod};
use vstd::prelude::*;

verus! {

/// Values of common-range cells lie below this bound.
pub const COMMON_RANGE_BOUND: u64 = 0x1000_0000;

#[derive(Clone, Copy, PartialEq, Eq, Structural, Debug)]
pub enum CellKind {
    Bit,
    CommonRange,
    U16Limb,
    U64Value,
    Unlimited,
}

/// Hands out fresh cell handles and records the kind of each.
pub struct CellAllocator {
    pub kinds: Vec<CellKind>,
}

#[derive(Clone, Copy, PartialEq, Eq, Structural, Debug)]
pub struct AllocatedBitCell {
    pub cell: usize,
}

#[derive(Clone, Copy, PartialEq, Eq, Structural, Debug)]
pub struct AllocatedCommonRangeCell {
    pub cell: usize,
}

#[derive(Clone, Copy, PartialEq, Eq, Structural, Debug)]
pub struct AllocatedUnlimitedCell {
    pub cell: usize,
}

impl AllocatedBitCell {
    pub fn expr(&self) -> (r: Expr)
        ensures
            forall|row: Seq<int>| #[trigger] eval(r, row) == cv(row, self.cell),
    {
        Expr::cell(self.cell)
    }
}

impl AllocatedCommonRangeCell {
    pub fn expr(&self) -> (r: Expr)
        ensures
            forall|row: Seq<int>| #[trigger] eval(r, row) == cv(row, self.cell),
    {
        Expr::cell(self.cell)
    }
}

impl AllocatedUnlimitedCell {
    pub fn expr(&self) -> (r: Expr)
        ensures
            forall|row: Seq<int>| #[trigger] eval(r, row) == cv(row, self.cell),
    {
        Expr::cell(self.cell)
    }
}

impl CellAllocator {
    pub open spec fn count(&self) -> int {
        self.kinds@.len() as int
    }

    pub fn new() -> (r: CellAllocator)
        ensures
            r.count() == 0,
    {
        CellAllocator { kinds: Vec::new() }
    }

    fn fresh_cell(&mut self, k: CellKind) -> (r: usize)
        ensures
            r == old(self).count(),
            final(self).kinds@ == old(self).kinds@.push(k),
            final(self).count() == old(self).count() + 1,
    {
        let r = self.kinds.len();
        self.kinds.push(k);
        r
    }

    pub fn alloc_bit_cell(&mut self) -> (r: AllocatedBitCell)
        ensures
            r.cell == old(self).count(),
            final(self).kinds@ == old(self).kinds@.push(CellKind::Bit),
            final(self).count() == old(self).count() + 1,
    {
        AllocatedBitCell { cell: self.fresh_cell(CellKind::Bit) }
    }

    pub fn alloc_common_range_cell(&mut self) -> (r: AllocatedCommonRangeCell)
        ensures
            r.cell == old(self).count(),
            final(self).kinds@ == old(self).kinds@.push(CellKind::CommonRange),
            final(self).count() == old(self).count() + 1,
    {
        AllocatedCommonRangeCell { cell: self.fresh_cell(CellKind::CommonRange) }
    }

    pub fn alloc_unlimited_cell(&mut self) -> (r: AllocatedUnlimitedCell)
        ensures
            r.cell == old(self).count(),
            final(self).kinds@ == old(self).kinds@.push(CellKind::Unlimited),
            final(self).count() == old(self).count() + 1,
    {
        AllocatedUnlimitedCell { cell: self.fresh_cell(CellKind::Unlimited) }
    }
}

/// A 64-bit compound cell: a value cell plus its four 16-bit limbs.
/// The five handles are consecutive, limbs low first, value last.
#[derive(Clone, Copy, PartialEq, Eq, Structural, Debug)]
pub struct AllocatedU64Cell {
    pub limb0_cell: usize,
    pub limb1_cell: usize,
    pub limb2_cell: usize,
    pub limb3_cell: usize,
    pub u64_cell: usize,
}

/// A 64-bit compound cell with its top bit (of the low 32 bits when the
/// `is_i32` cell is one) extracted into a flag bit.  `flag_u16_rem_cell`
/// holds the leading 16-bit limb with the top bit removed, and
/// `flag_u16_rem_diff_cell` witnesses that the remainder is at most `0x7fff`.
#[derive(Clone, Copy, PartialEq, Eq, Structural, Debug)]
pub struct AllocatedU64CellWithFlagBitDyn {
    pub value: AllocatedU64Cell,
    pub flag_bit_cell: usize,
    pub flag_u16_rem_cell: usize,
    pub flag_u16_rem_diff_cell: usize,
}

/// As [`AllocatedU64CellWithFlagBitDyn`], but the flag is only extracted when
/// the `is_sign` cell is one; on unsigned operations the flag is forced to
/// zero.
#[derive(Clone, Copy, PartialEq, Eq, Structural, Debug)]
pub struct AllocatedU64CellWithFlagBitDynSign {
    pub value: AllocatedU64Cell,
    pub flag_bit_cell: usize,
    pub flag_u16_rem_cell: usize,
    pub flag_u16_rem_diff_cell: usize,
}

/// The base-65536 digits of a 64-bit value, low digit first.
pub open spec fn limb(value: u64, k: int) -> int
    recommends
        0 <= k < 4,
{
    (value as int / if k == 0 {
        1int
    } else if k == 1 {
        0x1_0000int
    } else if k == 2 {
        0x1_0000_0000int
    } else {
        0x1_0000_0000_0000int
    }) % 0x1_0000
}

/// Every 64-bit value is the weighted sum of its four limbs.
pub proof fn lemma_u64_limbs(x: u64)
    ensures
        limb(x, 0) + limb(x, 1) * 0x1_0000 + limb(x, 2) * 0x1_0000_0000 + limb(x, 3)
            * 0x1_0000_0000_0000 == x,
        forall|k: int| 0 <= k < 4 ==> 0 <= #[trigger] limb(x, k) < 0x1_0000,
        x < 0x1_0000_0000 ==> limb(x, 2) == 0 && limb(x, 3) == 0,
        x < 0x1_0000_0000 ==> limb(x, 1) == x as int / 0x1_0000,
        limb(x, 3) == x as int / 0x1_0000_0000_0000,
{
    let a = x as int;
    lemma_fundamental_div_mod(a, 0x1_0000);
    lemma_fundamental_div_mod(a / 0x1_0000, 0x1_0000);
    lemma_div_denominator(a, 0x1_0000, 0x1_0000);
    lemma_fundamental_div_mod(a / 0x1_0000_0000, 0x1_0000);
    lemma_div_denominator(a, 0x1_0000_0000, 0x1_0000);
    assert(a / 0x1_0000_0000_0000 < 0x1_0000 && a / 0x1_0000_0000_0000 >= 0) by {
        lemma_fundamental_div_mod(a, 0x1_0000_0000_0000);
    }
    assert((a / 0x1_0000_0000_0000) % 0x1_0000 == a / 0x1_0000_0000_0000) by {
        lemma_fundamental_div_mod(a / 0x1_0000_0000_0000, 0x1_0000);
    }
    if x < 0x1_0000_0000 {
        assert(a / 0x1_0000_0000 == 0 && a / 0x1_0000_0000_0000 == 0) by {
            lemma_fundamental_div_mod(a, 0x1_0000_0000);
            lemma_fundamental_div_mod(a, 0x1_0000_0000_0000);
        }
        assert(a / 0x1_0000 < 0x1_0000) by {
            lemma_fundamental_div_mod(a, 0x1_0000);
        }
        lemma_fundamental_div_mod(a / 0x1_0000, 0x1_0000);
    }
}

/// The kinds a 64-bit compound cell occupies: four limbs, then the value.
pub open spec fn u64_cell_kinds() -> Seq<CellKind> {
    seq![
        CellKind::U16Limb,
        CellKind::U16Limb,
        CellKind::U16Limb,
        CellKind::U16Limb,
        CellKind::U64Value,
    ]
}

/// The kinds a 64-bit compound cell with flag extraction occupies: the
/// compound, the flag bit, and the two remainder limbs.
pub open spec fn u64_flag_cell_kinds() -> Seq<CellKind> {
    u64_cell_kinds() + seq![CellKind::Bit, CellKind::U16Limb, CellKind::U16Limb]
}

/// The leading 16-bit limb of a value of the given width.
pub open spec fn leading_limb(is_i32: bool, value: u64) -> int {
    if is_i32 {
        limb(value, 1)
    } else {
        limb(value, 3)
    }
}

/// The top bit of a value of the given width: one exactly on values whose
/// two's-complement reading is negative.
pub open spec fn flag_of(is_i32: bool, value: u64) -> int {
    if is_i32 {
        value as int / 0x8000_0000
    } else {
        value as int / 0x8000_0000_0000_0000
    }
}

/// The weighted sum of the four limb cells of `c` on `row`.
pub open spec fn u64_compose(row: Seq<int>, c: AllocatedU64Cell) -> int {
    cv(row, c.limb0_cell) + cv(row, c.limb1_cell) * 0x1_0000 + cv(row, c.limb2_cell)
        * 0x1_0000_0000 + cv(row, c.limb3_cell) * 0x1_0000_0000_0000
}

impl AllocatedU64Cell {
    pub open spec fn wf(self) -> bool {
        self.limb1_cell == self.limb0_cell + 1 && self.limb2_cell == self.limb0_cell + 2
            && self.limb3_cell == self.limb0_cell + 3 && self.u64_cell == self.limb0_cell + 4
    }

    /// The handles this compound cell occupies (a consecutive range).
    pub open spec fn owns(self, i: int) -> bool {
        self.limb0_cell <= i <= self.limb0_cell + 4
    }

    /// All five cells hold the digits and value of `value` on `row`.
    pub open spec fn holds(self, row: Seq<int>, value: u64) -> bool {
        &&& cv(row, self.limb0_cell) == limb(value, 0)
        &&& cv(row, self.limb1_cell) == limb(value, 1)
        &&& cv(row, self.limb2_cell) == limb(value, 2)
        &&& cv(row, self.limb3_cell) == limb(value, 3)
        &&& cv(row, self.u64_cell) == value
    }

    pub fn expr(&self) -> (r: Expr)
        ensures
            forall|row: Seq<int>| #[trigger] eval(r, row) == cv(row, self.u64_cell),
    {
        Expr::cell(self.u64_cell)
    }

    /// Write `value` and its four limbs into the row.
    pub fn assign(&self, row: &mut crate::row::Row, value: u64)
        requires
            self.wf(),
            self.limb0_cell + 4 < old(row)@.len(),
            forall|i: int| self.owns(i) ==> #[trigger] old(row).unassigned(i),
        ensures
            final(row)@.len() == old(row)@.len(),
            self.holds(final(row)@, value),
            forall|i: int|
                #![trigger final(row)@[i]]
                0 <= i < old(row)@.len() && !self.owns(i) ==> final(row)@[i] == old(row)@[i],
            forall|i: int|
                0 <= i < old(row)@.len() && !self.owns(i) ==> #[trigger] final(row).unassigned(i)
                    == old(row).unassigned(i),
            forall|i: int| self.owns(i) ==> !(#[trigger] final(row).unassigned(i)),
    {
        proof {
            lemma_u64_limbs(value);
            vstd::arithmetic::div_mod::lemma_div_basics(value as int);
        }
        let l0 = value % 0x1_0000;
        let l1 = (value / 0x1_0000) % 0x1_0000;
        let l2 = (value / 0x1_0000_0000) % 0x1_0000;
        let l3 = value / 0x1_0000_0000_0000;
        row.set_u64(self.limb0_cell, l0);
        row.set_u64(self.limb1_cell, l1);
        row.set_u64(self.limb2_cell, l2);
        row.set_u64(self.limb3_cell, l3);
        row.set_u64(self.u64_cell, value);
    }
}

impl AllocatedU64CellWithFlagBitDyn {
    pub open spec fn wf(self) -> bool {
        self.value.wf() && self.flag_bit_cell == self.value.limb0_cell + 5
            && self.flag_u16_rem_cell == self.value.limb0_cell + 6 && self.flag_u16_rem_diff_cell
            == self.value.limb0_cell + 7
    }

    pub open spec fn owns(self, i: int) -> bool {
        self.value.limb0_cell <= i <= self.value.limb0_cell + 7
    }

    pub open spec fn u64_cell(self) -> usize {
        self.value.u64_cell
    }

    /// The compound holds `value`, with the flag cell carrying its top bit
    /// for the width chosen by `is_i32`.
    pub open spec fn holds(self, row: Seq<int>, value: u64, is_i32: bool) -> bool {
        &&& self.value.holds(row, value)
        &&& cv(row, self.flag_bit_cell) == flag_of(is_i32, value)
        &&& cv(row, self.flag_u16_rem_cell) == leading_limb(is_i32, value) % 0x8000
        &&& cv(row, self.flag_u16_rem_diff_cell) == 0x7fff - leading_limb(is_i32, value) % 0x8000
    }

    /// Write `value`, its limbs, and its extracted top bit into the row.
    pub fn assign(&self, row: &mut crate::row::Row, value: u64, is_i32: bool)
        requires
            self.wf(),
            self.value.limb0_cell + 7 < old(row)@.len(),
            forall|i: int| self.owns(i) ==> #[trigger] old(row).unassigned(i),
            is_i32 ==> value < 0x1_0000_0000,
        ensures
            final(row)@.len() == old(row)@.len(),
            self.holds(final(row)@, value, is_i32),
            forall|i: int|
                #![trigger final(row)@[i]]
                0 <= i < old(row)@.len() && !self.owns(i) ==> final(row)@[i] == old(row)@[i],
            forall|i: int|
                0 <= i < old(row)@.len() && !self.owns(i) ==> #[trigger] final(row).unassigned(i)
                    == old(row).unassigned(i),
            forall|i: int| self.owns(i) ==> !(#[trigger] final(row).unassigned(i)),
    {
        self.value.assign(row, value);
        let leading: u64 = if is_i32 {
            (value / 0x1_0000) % 0x1_0000
        } else {
            value / 0x1_0000_0000_0000
        };
        proof {
            lemma_u64_limbs(value);
            lemma_flag_from_leading(is_i32, value);
            lemma_fundamental_div_mod(leading_limb(is_i32, value), 0x8000);
        }
        let flag = leading / 0x8000;
        let rem = leading % 0x8000;
        row.set_u64(self.flag_bit_cell, flag);
        row.set_u64(self.flag_u16_rem_cell, rem);
        row.set_u64(self.flag_u16_rem_diff_cell, 0x7fff - rem);
        proof {
            assert forall|i: int| 0 <= i < old(row)@.len() && !self.owns(i) implies row@[i] == old(
                row,
            )@[i] by {
                assert(!self.value.owns(i));
            }
        }
    }
}

impl AllocatedU64CellWithFlagBitDynSign {
    pub open spec fn wf(self) -> bool {
        self.value.wf() && self.flag_bit_cell == self.value.limb0_cell + 5
            && self.flag_u16_rem_cell == self.value.limb0_cell + 6 && self.flag_u16_rem_diff_cell
            == self.value.limb0_cell + 7
    }

    pub open spec fn owns(self, i: int) -> bool {
        self.value.limb0_cell <= i <= self.value.limb0_cell + 7
    }

    pub open spec fn u64_cell(self) -> usize {
        self.value.u64_cell
    }

    /// The compound holds `value`; the flag cell carries its top bit on
    /// signed operations and zero otherwise.
    pub open spec fn holds(self, row: Seq<int>, value: u64, is_i32: bool, is_sign: bool) -> bool {
        &&& self.value.holds(row, value)
        &&& cv(row, self.flag_bit_cell) == if is_sign {
            flag_of(is_i32, value)
        } else {
            0int
        }
        &&& cv(row, self.flag_u16_rem_cell) == if is_sign {
            leading_limb(is_i32, value) % 0x8000
        } else {
            0int
        }
        &&& cv(row, self.flag_u16_rem_diff_cell) == 0x7fff - cv(row, self.flag_u16_rem_cell)
    }

    /// Write `value` and its limbs; extract the top bit only when `is_sign`.
    pub fn assign(&self, row: &mut crate::row::Row, value: u64, is_i32: bool, is_sign: bool)
        requires
            self.wf(),
            self.value.limb0_cell + 7 < old(row)@.len(),
            forall|i: int| self.owns(i) ==> #[trigger] old(row).unassigned(i),
            is_i32 ==> value < 0x1_0000_0000,
        ensures
            final(row)@.len() == old(row)@.len(),
            self.holds(final(row)@, value, is_i32, is_sign),
            forall|i: int|
                #![trigger final(row)@[i]]
                0 <= i < old(row)@.len() && !self.owns(i) ==> final(row)@[i] == old(row)@[i],
            forall|i: int|
                0 <= i < old(row)@.len() && !self.owns(i) ==> #[trigger] final(row).unassigned(i)
                    == old(row).unassigned(i),
            forall|i: int| self.owns(i) ==> !(#[trigger] final(row).unassigned(i)),
    {
        self.value.assign(row, value);
        let leading: u64 = if is_i32 {
            (value / 0x1_0000) % 0x1_0000
        } else {
            value / 0x1_0000_0000_0000
        };
        proof {
            lemma_u64_limbs(value);
            lemma_flag_from_leading(is_i32, value);
            lemma_fundamental_div_mod(leading_limb(is_i32, value), 0x8000);
        }
        let flag = if is_sign { leading / 0x8000 } else { 0 };
        let rem = if is_sign { leading % 0x8000 } else { 0 };
        row.set_u64(self.flag_bit_cell, flag);
        row.set_u64(self.flag_u16_rem_cell, rem);
        row.set_u64(self.flag_u16_rem_diff_cell, 0x7fff - rem);
        proof {
            assert forall|i: int| 0 <= i < old(row)@.len() && !self.owns(i) implies row@[i] == old(
                row,
            )@[i] by {
                assert(!self.value.owns(i));
            }
        }
    }
}

/// The top bit of a value is the top bit of its leading limb.
pub proof fn lemma_flag_from_leading(is_i32: bool, value: u64)
    requires
        is_i32 ==> value < 0x1_0000_0000,
    ensures
        leading_limb(is_i32, value) / 0x8000 == flag_of(is_i32, value),
        0 <= flag_of(is_i32, value) <= 1,
        0 <= leading_limb(is_i32, value) < 0x1_0000,
{
    lemma_u64_limbs(value);
    let a = value as int;
    if is_i32 {
        lemma_div_denominator(a, 0x1_0000, 0x8000);
        assert(limb(value, 1) == a / 0x1_0000);
        assert(a / 0x8000_0000 < 2) by {
            lemma_fundamental_div_mod(a, 0x8000_0000);
        }
        assert(a / 0x8000_0000 >= 0) by {
            lemma_fundamental_div_mod(a, 0x8000_0000);
        }
    } else {
        lemma_div_denominator(a, 0x1_0000_0000_0000, 0x8000);
        assert(a / 0x8000_0000_0000_0000 < 2 && a / 0x8000_0000_0000_0000 >= 0) by {
            lemma_fundamental_div_mod(a, 0x8000_0000_0000_0000);
        }
    }
}

impl CellAllocator {
    /// Allocate a 64-bit compound cell and register its limb-composition
    /// constraint.
    pub fn alloc_u64_cell(&mut self, cb: &mut ConstraintBuilder) -> (r: AllocatedU64Cell)
        ensures
            r.wf(),
            r.limb0_cell == old(self).count(),
            final(self).count() == old(self).count() + 5,
            final(self).kinds@ == old(self).kinds@ + u64_cell_kinds(),
            final(cb).constraints@.len() == old(cb).constraints@.len() + 1,
            forall|j: int|
                0 <= j < old(cb).constraints@.len() ==> final(cb).constraints@[j] == old(
                    cb,
                ).constraints@[j],
            ({
                let c = final(cb).constraints@[old(cb).constraints@.len() as int];
                c.exprs@.len() == 1 && forall|row: Seq<int>|
                    #[trigger] eval(c.exprs@[0], row) == cv(row, r.u64_cell) - u64_compose(row, r)
            }),
    {
        let limb0 = self.fresh_cell(CellKind::U16Limb);
        let limb1 = self.fresh_cell(CellKind::U16Limb);
        let limb2 = self.fresh_cell(CellKind::U16Limb);
        let limb3 = self.fresh_cell(CellKind::U16Limb);
        let u64c = self.fresh_cell(CellKind::U64Value);
        let r = AllocatedU64Cell {
            limb0_cell: limb0,
            limb1_cell: limb1,
            limb2_cell: limb2,
            limb3_cell: limb3,
            u64_cell: u64c,
        };
        let compose = Expr::cell(limb0).plus(Expr::cell(limb1).times(Expr::constant(0x1_0000))).plus(
            Expr::cell(limb2).times(Expr::constant(0x1_0000_0000)),
        ).plus(Expr::cell(limb3).times(Expr::constant(0x1_0000_0000_0000)));
        let e = Expr::cell(u64c).minus(compose);
        let mut exprs: Vec<Expr> = Vec::new();
        exprs.push(e);
        cb.push("u64 composition", exprs);
        proof {
            assert(self.kinds@ =~= old(self).kinds@ + u64_cell_kinds());
        }
        r
    }

    /// Allocate a 64-bit compound cell with top-bit extraction and register
    /// its constraints.
    pub fn alloc_u64_with_flag_bit_cell_dyn(
        &mut self,
        cb: &mut ConstraintBuilder,
        is_i32_cell: usize,
    ) -> (r: AllocatedU64CellWithFlagBitDyn)
        ensures
            r.wf(),
            r.value.limb0_cell == old(self).count(),
            final(self).count() == old(self).count() + 8,
            final(self).kinds@ == old(self).kinds@ + u64_flag_cell_kinds(),
            final(cb).constraints@.len() == old(cb).constraints@.len() + 2,
            forall|j: int|
                0 <= j < old(cb).constraints@.len() ==> final(cb).constraints@[j] == old(
                    cb,
                ).constraints@[j],
            ({
                let c = final(cb).constraints@[old(cb).constraints@.len() as int];
                c.exprs@.len() == 1 && forall|row: Seq<int>|
                    #[trigger] eval(c.exprs@[0], row) == cv(row, r.value.u64_cell) - u64_compose(
                        row,
                        r.value,
                    )
            }),
            ({
                let c = final(cb).constraints@[old(cb).constraints@.len() as int + 1];
                c.exprs@.len() == 2 && (forall|row: Seq<int>|
                    #[trigger] eval(c.exprs@[0], row) == cv(row, r.flag_bit_cell) * 0x8000 + cv(
                        row,
                        r.flag_u16_rem_cell,
                    ) - (cv(row, r.value.limb3_cell) + cv(row, is_i32_cell) * (cv(
                        row,
                        r.value.limb1_cell,
                    ) - cv(row, r.value.limb3_cell)))) && (forall|row: Seq<int>|
                    #[trigger] eval(c.exprs@[1], row) == cv(row, r.flag_u16_rem_cell) + cv(
                        row,
                        r.flag_u16_rem_diff_cell,
                    ) - 0x7fff)
            }),
    {
        let value = self.alloc_u64_cell(cb);
        let flag_bit = self.fresh_cell(CellKind::Bit);
        let rem = self.fresh_cell(CellKind::U16Limb);
        let rem_diff = self.fresh_cell(CellKind::U16Limb);
        let r = AllocatedU64CellWithFlagBitDyn {
            value,
            flag_bit_cell: flag_bit,
            flag_u16_rem_cell: rem,
            flag_u16_rem_diff_cell: rem_diff,
        };
        let leading = Expr::cell(value.limb3_cell).plus(
            Expr::cell(is_i32_cell).times(
                Expr::cell(value.limb1_cell).minus(Expr::cell(value.limb3_cell)),
            ),
        );
        let e0 = Expr::cell(flag_bit).times(Expr::constant(0x8000)).plus(Expr::cell(rem)).minus(
            leading,
        );
        let e1 = Expr::cell(rem).plus(Expr::cell(rem_diff)).minus(Expr::constant(0x7fff));
        let mut exprs: Vec<Expr> = Vec::new();
        exprs.push(e0);
        exprs.push(e1);
        cb.push("u64 flag bit", exprs);
        proof {
            assert(self.kinds@ =~= old(self).kinds@ + u64_flag_cell_kinds());
        }
        r
    }

    /// Allocate a 64-bit compound cell whose top bit is extracted only on
    /// signed operations, and register its constraints.
    pub fn alloc_u64_with_flag_bit_cell_dyn_sign(
        &mut self,
        cb: &mut ConstraintBuilder,
        is_i32_cell: usize,
        is_sign_cell: usize,
    ) -> (r: AllocatedU64CellWithFlagBitDynSign)
        ensures
            r.wf(),
            r.value.limb0_cell == old(self).count(),
            final(self).count() == old(self).count() + 8,
            final(self).kinds@ == old(self).kinds@ + u64_flag_cell_kinds(),
            final(cb).constraints@.len() == old(cb).constraints@.len() + 2,
            forall|j: int|
                0 <= j < old(cb).constraints@.len() ==> final(cb).constraints@[j] == old(
                    cb,
                ).constraints@[j],
            ({
                let c = final(cb).constraints@[old(cb).constraints@.len() as int];
                c.exprs@.len() == 1 && forall|row: Seq<int>|
                    #[trigger] eval(c.exprs@[0], row) == cv(row, r.value.u64_cell) - u64_compose(
                        row,
                        r.value,
                    )
            }),
            ({
                let c = final(cb).constraints@[old(cb).constraints@.len() as int + 1];
                c.exprs@.len() == 3 && (forall|row: Seq<int>|
                    #[trigger] eval(c.exprs@[0], row) == (cv(row, r.flag_bit_cell) * 0x8000 + cv(
                        row,
                        r.flag_u16_rem_cell,
                    ) - (cv(row, r.value.limb3_cell) + cv(row, is_i32_cell) * (cv(
                        row,
                        r.value.limb1_cell,
                    ) - cv(row, r.value.limb3_cell)))) * cv(row, is_sign_cell)) && (forall|
                    row: Seq<int>,
                |
                    #[trigger] eval(c.exprs@[1], row) == (1 - cv(row, is_sign_cell)) * cv(
                        row,
                        r.flag_bit_cell,
                    )) && (forall|row: Seq<int>|
                    #[trigger] eval(c.exprs@[2], row) == cv(row, r.flag_u16_rem_cell) + cv(
                        row,
                        r.flag_u16_rem_diff_cell,
                    ) - 0x7fff)
            }),
    {
        let value = self.alloc_u64_cell(cb);
        let flag_bit = self.fresh_cell(CellKind::Bit);
        let rem = self.fresh_cell(CellKind::U16Limb);
        let rem_diff = self.fresh_cell(CellKind::U16Limb);
        let r = AllocatedU64CellWithFlagBitDynSign {
            value,
            flag_bit_cell: flag_bit,
            flag_u16_rem_cell: rem,
            flag_u16_rem_diff_cell: rem_diff,
        };
        let leading = Expr::cell(value.limb3_cell).plus(
            Expr::cell(is_i32_cell).times(
                Expr::cell(value.limb1_cell).minus(Expr::cell(value.limb3_cell)),
            ),
        );
        let e0 = Expr::cell(flag_bit).times(Expr::constant(0x8000)).plus(Expr::cell(rem)).minus(
            leading,
        ).times(Expr::cell(is_sign_cell));
        let e1 = Expr::constant(1).minus(Expr::cell(is_sign_cell)).times(Expr::cell(flag_bit));
        let e2 = Expr::cell(rem).plus(Expr::cell(rem_diff)).minus(Expr::constant(0x7fff));
        let mut exprs: Vec<Expr> = Vec::new();
        exprs.push(e0);
        exprs.push(e1);
        exprs.push(e2);
        cb.push("u64 flag bit dyn sign", exprs);
        proof {
            assert(self.kinds@ =~= old(self).kinds@ + u64_flag_cell_kinds());
        }
        r
    }
}

} // verus!
