//! Constraint expressions.
//!
//! A constraint is a polynomial over the cells of a row, built eagerly as a
//! small expression tree: constants, cell references, and the three field
//! operations.  The backend later evaluates every registered expression over
//! its field and demands that each equals zero whenever the issuing opcode's
//! selector is active.  `eval` gives the reference semantics over the
//! unbounded integers: a row assignment makes a constraint hold in any prime
//! field whenever its integer evaluation is zero.

use vstd::prelude::*;

verus! {

/// A polynomial over row cells.  `Cell(i)` denotes the value of cell `i`.
pub enum Expr {
    Const(u128),
    Cell(usize),
    Add(Box<Expr>, Box<Expr>),
    Sub(Box<Expr>, Box<Expr>),
    Mul(Box<Expr>, Box<Expr>),
}

/// Integer evaluation of an expression over a row of cell values.
/// A cell outside the row evaluates to zero, matching the backend's default
/// value for a cell that no opcode assigned.
pub open spec fn eval(e: Expr, row: Seq<int>) -> int
    decreases e,
{
    match e {
        Expr::Const(c) => c as int,
        Expr::Cell(i) => if i < row.len() {
            row[i as int]
        } else {
            0
        },
        Expr::Add(a, b) => eval(*a, row) + eval(*b, row),
        Expr::Sub(a, b) => eval(*a, row) - eval(*b, row),
        Expr::Mul(a, b) => eval(*a, row) * eval(*b, row),
    }
}

/// The value of cell `c` on a row: zero when the row has no such slot.
pub open spec fn cv(row: Seq<int>, c: usize) -> int {
    if c < row.len() {
        row[c as int]
    } else {
        0
    }
}

impl Expr {
    pub fn constant(c: u128) -> (r: Expr)
        ensures
            forall|row: Seq<int>| #[trigger] eval(r, row) == c,
    {
        Expr::Const(c)
    }

    pub fn cell(i: usize) -> (r: Expr)
        ensures
            forall|row: Seq<int>|
                #[trigger] eval(r, row) == if i < row.len() {
                    row[i as int]
                } else {
                    0
                },
    {
        Expr::Cell(i)
    }

    pub fn plus(self, other: Expr) -> (r: Expr)
        ensures
            forall|row: Seq<int>| #[trigger] eval(r, row) == eval(self, row) + eval(other, row),
    {
        Expr::Add(Box::new(self), Box::new(other))
    }

    pub fn minus(self, other: Expr) -> (r: Expr)
        ensures
            forall|row: Seq<int>| #[trigger] eval(r, row) == eval(self, row) - eval(other, row),
    {
        Expr::Sub(Box::new(self), Box::new(other))
    }

    pub fn times(self, other: Expr) -> (r: Expr)
        ensures
            forall|row: Seq<int>| #[trigger] eval(r, row) == eval(self, row) * eval(other, row),
    {
        Expr::Mul(Box::new(self), Box::new(other))
    }
}

} // verus!
