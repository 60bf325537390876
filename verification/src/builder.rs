//! The shared constraint registry.
//!
//! Opcode builders append named groups of expressions; the registry never
//! evaluates them.  Each group is later gated by the issuing opcode's
//! selector, so it binds only rows that execute that opcode.  Names are for
//! diagnostics only.

use crate::expr::{eval, Expr};
use vstd::prelude::*;

verus! {

/// Every expression of the constraint evaluates to zero on the row.
pub open spec fn constraint_zero(c: Constraint, row: Seq<int>) -> bool {
    forall|i: int| 0 <= i < c.exprs@.len() ==> #[trigger] eval(c.exprs@[i], row) == 0
}

/// Every constraint in `cs[lo..hi]` holds on the row.
pub open spec fn constraints_zero_range(cs: Seq<Constraint>, lo: int, hi: int, row: Seq<int>) -> bool {
    forall|j: int| lo <= j < hi ==> constraint_zero(#[trigger] cs[j], row)
}

/// Every expression of the constraint evaluates to zero in a field of
/// characteristic `p`.
pub open spec fn constraint_zero_mod(c: Constraint, row: Seq<int>, p: int) -> bool {
    forall|i: int| 0 <= i < c.exprs@.len() ==> #[trigger] eval(c.exprs@[i], row) % p == 0
}

/// Every constraint in `cs[lo..hi]` holds on the row in a field of
/// characteristic `p`.
pub open spec fn constraints_zero_mod_range(
    cs: Seq<Constraint>,
    lo: int,
    hi: int,
    row: Seq<int>,
    p: int,
) -> bool {
    forall|j: int| lo <= j < hi ==> constraint_zero_mod(#[trigger] cs[j], row, p)
}

/// One named group of expressions that must all evaluate to zero on an
/// active row.
pub struct Constraint {
    pub name: &'static str,
    pub exprs: Vec<Expr>,
}

/// Append-only registry of constraints.
pub struct ConstraintBuilder {
    pub constraints: Vec<Constraint>,
}

impl ConstraintBuilder {
    pub fn new() -> (r: ConstraintBuilder)
        ensures
            r.constraints@.len() == 0,
    {
        ConstraintBuilder { constraints: Vec::new() }
    }

    /// Register one group of constraint expressions.
    pub fn push(&mut self, name: &'static str, exprs: Vec<Expr>)
        ensures
            final(self).constraints@ == old(self).constraints@.push(
                (Constraint { name, exprs }),
            ),
            final(self).constraints@.len() == old(self).constraints@.len() + 1,
    {
        self.constraints.push(Constraint { name, exprs });
    }
}

} // verus!
