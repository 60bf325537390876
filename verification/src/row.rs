//! One row of witness values.
//!
//! A row has one slot per allocated cell.  Every slot starts empty and may be
//! filled at most once per row; an empty slot denotes the backend's default
//! value zero.  The view of a row is the sequence of integers that constraint
//! expressions are evaluated over.

use crate::fieldval::FieldVal;
use vstd::prelude::*;

verus! {

pub struct Row {
    pub vals: Vec<Option<FieldVal>>,
}

impl Row {
    /// The integer value of each slot: an unassigned cell evaluates to zero.
    pub open spec fn view(&self) -> Seq<int> {
        self.vals@.map(
            |_i: int, v: Option<FieldVal>|
                match v {
                    Some(f) => f.as_nat() as int,
                    None => 0,
                },
        )
    }

    /// True when cell `c` has not been assigned yet.
    pub open spec fn unassigned(&self, c: int) -> bool {
        self.vals@[c] is None
    }

    /// A fresh row with `n` empty slots.
    pub fn new(n: usize) -> (r: Row)
        ensures
            r@.len() == n,
            r@ =~= Seq::new(n as nat, |_i: int| 0int),
            forall|c: int| 0 <= c < n ==> r.unassigned(c),
    {
        let mut vals: Vec<Option<FieldVal>> = Vec::new();
        let mut k: usize = 0;
        while k < n
            invariant
                k <= n,
                vals@.len() == k,
                forall|i: int| 0 <= i < k ==> vals@[i] is None,
            decreases n - k,
        {
            vals.push(None);
            k = k + 1;
        }
        let r = Row { vals };
        proof {
            assert(r@ =~= Seq::new(n as nat, |_i: int| 0int));
        }
        r
    }

    /// Fill cell `c` with an arbitrary witness value.
    pub fn set(&mut self, c: usize, v: FieldVal)
        requires
            c < old(self)@.len(),
            old(self).unassigned(c as int),
        ensures
            final(self)@ =~= old(self)@.update(c as int, v.as_nat() as int),
            final(self)@.len() == old(self)@.len(),
            final(self)@[c as int] == v.as_nat(),
            forall|i: int|
                0 <= i < old(self)@.len() && i != c ==> final(self).unassigned(i) == old(
                    self,
                ).unassigned(i),
            forall|i: int| 0 <= i < old(self)@.len() && i != c ==> final(self)@[i] == old(self)@[i],
            !final(self).unassigned(c as int),
    {
        self.vals.set(c, Some(v));
        proof {
            assert(self@ =~= old(self)@.update(c as int, v.as_nat() as int));
        }
    }

    /// Fill cell `c` with a 64-bit witness value.
    pub fn set_u64(&mut self, c: usize, v: u64)
        requires
            c < old(self)@.len(),
            old(self).unassigned(c as int),
        ensures
            final(self)@ =~= old(self)@.update(c as int, v as int),
            final(self)@.len() == old(self)@.len(),
            final(self)@[c as int] == v,
            forall|i: int|
                0 <= i < old(self)@.len() && i != c ==> final(self).unassigned(i) == old(
                    self,
                ).unassigned(i),
            forall|i: int| 0 <= i < old(self)@.len() && i != c ==> final(self)@[i] == old(self)@[i],
            !final(self).unassigned(c as int),
    {
        self.set(c, FieldVal::from_u64(v));
    }

    /// Fill cell `c` with a witness value of up to 128 bits.
    pub fn set_u128(&mut self, c: usize, v: u128)
        requires
            c < old(self)@.len(),
            old(self).unassigned(c as int),
        ensures
            final(self)@ =~= old(self)@.update(c as int, v as int),
            final(self)@.len() == old(self)@.len(),
            final(self)@[c as int] == v,
            forall|i: int|
                0 <= i < old(self)@.len() && i != c ==> final(self).unassigned(i) == old(
                    self,
                ).unassigned(i),
            forall|i: int| 0 <= i < old(self)@.len() && i != c ==> final(self)@[i] == old(self)@[i],
            !final(self).unassigned(c as int),
    {
        self.set(c, FieldVal::from_u128(v));
    }

    /// Fill cell `c` with zero or one.
    pub fn set_bit(&mut self, c: usize, v: bool)
        requires
            c < old(self)@.len(),
            old(self).unassigned(c as int),
        ensures
            final(self)@ =~= old(self)@.update(
                c as int,
                if v {
                    1int
                } else {
                    0int
                },
            ),
            final(self)@.len() == old(self)@.len(),
            final(self)@[c as int] == if v {
                1int
            } else {
                0int
            },
            forall|i: int|
                0 <= i < old(self)@.len() && i != c ==> final(self).unassigned(i) == old(
                    self,
                ).unassigned(i),
            forall|i: int| 0 <= i < old(self)@.len() && i != c ==> final(self)@[i] == old(self)@[i],
            !final(self).unassigned(c as int),
    {
        self.set(c, FieldVal::from_bool(v));
    }
}

} // verus!
