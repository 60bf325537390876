//! Canonical encodings shared with the external tables.
//!
//! A lookup entry is a tuple packed into a single field value by bit-shifted
//! weights; equality of the packed value between the per-step table and the
//! external memory or call table is the sole cross-table correctness
//! mechanism, so producer and consumer must agree on the layout bit for bit.
//! Within the declared field widths the packing is injective: decoding
//! recovers the packed tuple exactly.
//!
//! Opcodes are encoded the same way: a fixed class tag in a reserved high
//! range, combined with the family's flag bits and immediate operands.

use vstd::arithmetic::div_mod::{
    lemma_div_denominator, lemma_fundamental_div_mod, lemma_fundamental_div_mod_converse,
};
use vstd::prelude::*;

verus! {

/// Where a memory access lands: the value stack, the linear heap, or a
/// global.
#[derive(Clone, Copy, PartialEq, Eq, Structural, Debug)]
pub enum LocationType {
    Stack,
    Heap,
    Global,
}

impl LocationType {
    /// The numeric tag of this location kind in the packed key.
    pub open spec fn tag_spec(self) -> int {
        match self {
            LocationType::Stack => 1,
            LocationType::Heap => 2,
            LocationType::Global => 3,
        }
    }

    pub fn tag(self) -> (r: u64)
        ensures
            r == self.tag_spec(),
    {
        match self {
            LocationType::Stack => 1,
            LocationType::Heap => 2,
            LocationType::Global => 3,
        }
    }
}

/// The width of a value on the stack or in a local.
#[derive(Clone, Copy, PartialEq, Eq, Structural, Debug)]
pub enum VarType {
    I32,
    I64,
}

/// Largest exclusive bound on event ids and addresses in packed keys.
pub const KEY_EID_BOUND: u32 = 0x1000_0000;

/// Largest exclusive bound on function ids, instruction ids, and call-site
/// indices in packed jump keys.
pub const KEY_INDEX_BOUND: u32 = 0x100_0000;

/// The arithmetic binary operations.
#[derive(Clone, Copy, PartialEq, Eq, Structural, Debug)]
pub enum BinOp {
    Add,
    Sub,
    Mul,
    UnsignedDiv,
    UnsignedRem,
    SignedDiv,
    SignedRem,
}

/// The relational operations.
#[derive(Clone, Copy, PartialEq, Eq, Structural, Debug)]
pub enum RelOp {
    Eq,
    Ne,
    Gt,
    Ge,
    Lt,
    Le,
}

impl BinOp {
    /// The numeric tag of this operation in the encoded opcode.
    pub open spec fn tag_spec(self) -> int {
        match self {
            BinOp::Add => 0,
            BinOp::Sub => 1,
            BinOp::Mul => 2,
            BinOp::UnsignedDiv => 3,
            BinOp::UnsignedRem => 4,
            BinOp::SignedDiv => 5,
            BinOp::SignedRem => 6,
        }
    }
}

impl RelOp {
    /// The numeric tag of this operation in the encoded opcode.
    pub open spec fn tag_spec(self) -> int {
        match self {
            RelOp::Eq => 0,
            RelOp::Ne => 1,
            RelOp::Gt => 2,
            RelOp::Ge => 3,
            RelOp::Lt => 4,
            RelOp::Le => 5,
        }
    }
}

/// Numeric value of a flag bit.
pub open spec fn bit_val(b: bool) -> int {
    if b {
        1
    } else {
        0
    }
}

/// The encoded opcode of an arithmetic binary instruction: the class tag in
/// the reserved high range, the operation tag, and the width bit.
pub open spec fn encode_bin_spec(op: BinOp, is_i32: bool) -> int {
    1 * 0x1000_0000_0000_0000_0000_0000 + op.tag_spec() * 0x1_0000_0000_0000_0000_0000 + bit_val(
        is_i32,
    ) * 0x1_0000_0000_0000_0000
}

/// The encoded opcode of a relational instruction.
pub open spec fn encode_rel_spec(op: RelOp, sign: bool, is_i32: bool) -> int {
    2 * 0x1000_0000_0000_0000_0000_0000 + op.tag_spec() * 0x1_0000_0000_0000_0000_0000 + bit_val(
        sign,
    ) * 0x100_0000_0000_0000_0000 + bit_val(is_i32) * 0x1_0000_0000_0000_0000
}

/// The encoded opcode of a width-conversion instruction: one presence bit per
/// source width, one per result width, the operand-type bit, and the
/// signedness bit.
pub open spec fn encode_conversion_spec(
    sign_op: bool,
    value_type_is_i32: bool,
    value_is_i8: bool,
    value_is_i16: bool,
    value_is_i32: bool,
    value_is_i64: bool,
    res_is_i32: bool,
    res_is_i64: bool,
) -> int {
    3 * 0x1000_0000_0000_0000_0000_0000 + bit_val(sign_op) * 0x80_0000_0000_0000_0000 + bit_val(
        value_type_is_i32,
    ) * 0x40_0000_0000_0000_0000 + bit_val(value_is_i8) * 0x20_0000_0000_0000_0000 + bit_val(
        value_is_i16,
    ) * 0x10_0000_0000_0000_0000 + bit_val(value_is_i32) * 0x8_0000_0000_0000_0000 + bit_val(
        value_is_i64,
    ) * 0x4_0000_0000_0000_0000 + bit_val(res_is_i32) * 0x2_0000_0000_0000_0000 + bit_val(
        res_is_i64,
    ) * 0x1_0000_0000_0000_0000
}

/// The encoded opcode of a local-set instruction: the width bit and the
/// target slot's offset.
pub open spec fn encode_local_set_spec(is_i32: bool, offset: int) -> int {
    4 * 0x1000_0000_0000_0000_0000_0000 + bit_val(is_i32) * 0x1_0000_0000_0000_0000_0000 + offset
}

/// The encoded opcode of a memory-grow instruction.
pub open spec fn encode_memory_grow_spec() -> int {
    5int * 0x1000_0000_0000_0000_0000_0000
}

/// The encoded opcode of a call instruction: the callee function id stands in
/// the immediate range.
pub open spec fn encode_call_spec(index: int) -> int {
    6 * 0x1000_0000_0000_0000_0000_0000 + index
}

/// One memory-table entry: an access of `value` at `address` in `location`,
/// made at event `eid`, with the 32-bit type tag `is_i32`.
#[derive(Clone, Copy, PartialEq, Eq, Structural, Debug)]
pub struct MemoryLookupKey {
    pub location: LocationType,
    pub address: u32,
    pub eid: u32,
    pub is_i32: bool,
    pub value: u64,
}

/// One jump-table entry: event `eid` in frame `frame_id` calls function
/// `fid` via call-site `index`, and will return to instruction `iid`.
#[derive(Clone, Copy, PartialEq, Eq, Structural, Debug)]
pub struct JumpLookupKey {
    pub eid: u32,
    pub frame_id: u32,
    pub index: u32,
    pub fid: u32,
    pub iid: u32,
}

/// The packed memory key: `value`, then the type bit, the location tag, the
/// address, and the event id, at fixed bit offsets.
pub open spec fn memory_key_val(loc: int, addr: int, eid: int, flag: int, value: int) -> int {
    value + flag * 0x1_0000_0000_0000_0000 + loc * 0x2_0000_0000_0000_0000 + addr
        * 0x8_0000_0000_0000_0000 + eid * 0x8000_0000_0000_0000_0000_0000
}

/// The packed jump key: the return `iid`, then `fid`, the call-site `index`,
/// the caller frame, and the event id, at fixed bit offsets.
pub open spec fn jump_key_val(eid: int, frame_id: int, index: int, fid: int, iid: int) -> int {
    iid + fid * 0x100_0000 + index * 0x1_0000_0000_0000 + frame_id * 0x100_0000_0000_0000_0000
        + eid * 0x10_0000_0000_0000_0000_0000_0000
}

impl MemoryLookupKey {
    /// Field widths the packing relies on.
    pub open spec fn wf(self) -> bool {
        self.address < KEY_EID_BOUND && self.eid < KEY_EID_BOUND
    }

    pub open spec fn flag_val(self) -> int {
        if self.is_i32 {
            1
        } else {
            0
        }
    }

    pub open spec fn encode_spec(self) -> int {
        memory_key_val(
            self.location.tag_spec(),
            self.address as int,
            self.eid as int,
            self.flag_val(),
            self.value as int,
        )
    }

    /// Pack this entry into one field value.
    pub fn encode(self) -> (r: u128)
        requires
            self.wf(),
        ensures
            r == self.encode_spec(),
    {
        let flag: u128 = if self.is_i32 { 1 } else { 0 };
        (self.value as u128) + flag * 0x1_0000_0000_0000_0000 + (self.location.tag() as u128)
            * 0x2_0000_0000_0000_0000 + (self.address as u128) * 0x8_0000_0000_0000_0000 + (
        self.eid as u128) * 0x8000_0000_0000_0000_0000_0000
    }
}

impl JumpLookupKey {
    /// Field widths the packing relies on.
    pub open spec fn wf(self) -> bool {
        self.eid < KEY_EID_BOUND && self.frame_id < KEY_EID_BOUND && self.index < KEY_INDEX_BOUND
            && self.fid < KEY_INDEX_BOUND && self.iid < KEY_INDEX_BOUND
    }

    pub open spec fn encode_spec(self) -> int {
        jump_key_val(
            self.eid as int,
            self.frame_id as int,
            self.index as int,
            self.fid as int,
            self.iid as int,
        )
    }

    /// Pack this entry into one field value.
    pub fn encode(self) -> (r: u128)
        requires
            self.wf(),
        ensures
            r == self.encode_spec(),
    {
        (self.iid as u128) + (self.fid as u128) * 0x100_0000 + (self.index as u128)
            * 0x1_0000_0000_0000 + (self.frame_id as u128) * 0x100_0000_0000_0000_0000 + (
        self.eid as u128) * 0x10_0000_0000_0000_0000_0000_0000
    }
}

/// Unpacking a packed memory key recovers every field: the packing is
/// injective within the declared widths.
pub proof fn lemma_memory_key_extract(key: MemoryLookupKey)
    requires
        key.wf(),
    ensures
        key.encode_spec() % 0x1_0000_0000_0000_0000 == key.value,
        (key.encode_spec() / 0x1_0000_0000_0000_0000) % 2 == key.flag_val(),
        (key.encode_spec() / 0x2_0000_0000_0000_0000) % 4 == key.location.tag_spec(),
        (key.encode_spec() / 0x8_0000_0000_0000_0000) % 0x1000_0000 == key.address,
        key.encode_spec() / 0x8000_0000_0000_0000_0000_0000 == key.eid,
        0 <= key.encode_spec() < 0x8_0000_0000_0000_0000_0000_0000_0000_0000,
{
    let k = key.encode_spec();
    let v = key.value as int;
    let f = key.flag_val();
    let l = key.location.tag_spec();
    let a = key.address as int;
    let e = key.eid as int;
    let r1 = f + 2 * l + 8 * a + 0x8000_0000 * e;
    let r2 = l + 4 * a + 0x4000_0000 * e;
    let r3 = a + 0x1000_0000 * e;
    assert(k == v + 0x1_0000_0000_0000_0000 * r1);
    lemma_fundamental_div_mod_converse(k, 0x1_0000_0000_0000_0000, r1, v);
    lemma_fundamental_div_mod_converse(r1, 2, r2, f);
    lemma_fundamental_div_mod_converse(r2, 4, r3, l);
    lemma_fundamental_div_mod_converse(r3, 0x1000_0000, e, a);
    lemma_fundamental_div_mod_converse(k, 0x2_0000_0000_0000_0000, r2, f * 0x1_0000_0000_0000_0000 + v);
    lemma_fundamental_div_mod_converse(
        k,
        0x8_0000_0000_0000_0000,
        r3,
        l * 0x2_0000_0000_0000_0000 + f * 0x1_0000_0000_0000_0000 + v,
    );
    lemma_fundamental_div_mod_converse(
        k,
        0x8000_0000_0000_0000_0000_0000,
        e,
        a * 0x8_0000_0000_0000_0000 + l * 0x2_0000_0000_0000_0000 + f * 0x1_0000_0000_0000_0000
            + v,
    );
}

/// Unpacking a packed jump key recovers every field: the packing is
/// injective within the declared widths.
pub proof fn lemma_jump_key_extract(key: JumpLookupKey)
    requires
        key.wf(),
    ensures
        key.encode_spec() % 0x100_0000 == key.iid,
        (key.encode_spec() / 0x100_0000) % 0x100_0000 == key.fid,
        (key.encode_spec() / 0x1_0000_0000_0000) % 0x100_0000 == key.index,
        (key.encode_spec() / 0x100_0000_0000_0000_0000) % 0x1000_0000 == key.frame_id,
        key.encode_spec() / 0x10_0000_0000_0000_0000_0000_0000 == key.eid,
        0 <= key.encode_spec() < 0x1_0000_0000_0000_0000_0000_0000_0000_0000,
{
    let k = key.encode_spec();
    let e = key.eid as int;
    let fr = key.frame_id as int;
    let x = key.index as int;
    let f = key.fid as int;
    let i = key.iid as int;
    let r1 = f + x * 0x100_0000 + fr * 0x1_0000_0000_0000 + e * 0x1000_0000_0000_0000_0000;
    let r2 = x + fr * 0x100_0000 + e * 0x10_0000_0000_0000;
    let r3 = fr + e * 0x1000_0000;
    lemma_fundamental_div_mod_converse(k, 0x100_0000, r1, i);
    lemma_fundamental_div_mod_converse(r1, 0x100_0000, r2, f);
    lemma_fundamental_div_mod_converse(r2, 0x100_0000, r3, x);
    lemma_fundamental_div_mod_converse(r3, 0x1000_0000, e, fr);
    lemma_fundamental_div_mod_converse(k, 0x1_0000_0000_0000, r2, f * 0x100_0000 + i);
    lemma_fundamental_div_mod_converse(
        k,
        0x100_0000_0000_0000_0000,
        r3,
        x * 0x1_0000_0000_0000 + f * 0x100_0000 + i,
    );
    lemma_fundamental_div_mod_converse(
        k,
        0x10_0000_0000_0000_0000_0000_0000,
        e,
        fr * 0x100_0000_0000_0000_0000 + x * 0x1_0000_0000_0000 + f * 0x100_0000 + i,
    );
}

/// Unpack a memory key.  Returns the unique well-formed entry that packs to
/// `k`, or nothing when `k` encodes no well-formed entry.
pub fn decode_memory_key(k: u128) -> (r: Option<MemoryLookupKey>)
    ensures
        forall|key: MemoryLookupKey| key.wf() && key.encode_spec() == k ==> r == Some(key),
        r is Some ==> (r.unwrap().wf() && r.unwrap().encode_spec() == k),
{
    let value = (k % 0x1_0000_0000_0000_0000) as u64;
    let t1 = k / 0x1_0000_0000_0000_0000;
    let flag = t1 % 2;
    let t2 = t1 / 2;
    let loc_tag = t2 % 4;
    let t3 = t2 / 4;
    let address = t3 % 0x1000_0000;
    let eid = t3 / 0x1000_0000;
    proof {
        lemma_div_denominator(k as int, 0x1_0000_0000_0000_0000, 2);
        lemma_div_denominator(k as int, 0x2_0000_0000_0000_0000, 4);
        lemma_div_denominator(k as int, 0x8_0000_0000_0000_0000, 0x1000_0000);
        lemma_fundamental_div_mod(k as int, 0x1_0000_0000_0000_0000);
        lemma_fundamental_div_mod(k as int / 0x1_0000_0000_0000_0000, 2);
        lemma_fundamental_div_mod(k as int / 0x2_0000_0000_0000_0000, 4);
        lemma_fundamental_div_mod(k as int / 0x8_0000_0000_0000_0000, 0x1000_0000);
    }
    if eid >= 0x1000_0000 {
        proof {
            assert forall|key: MemoryLookupKey| key.wf() && key.encode_spec() == k implies false by {
                lemma_memory_key_extract(key);
            }
        }
        return None;
    }
    let location = if loc_tag == 1 {
        LocationType::Stack
    } else if loc_tag == 2 {
        LocationType::Heap
    } else if loc_tag == 3 {
        LocationType::Global
    } else {
        proof {
            assert forall|key: MemoryLookupKey| key.wf() && key.encode_spec() == k implies false by {
                lemma_memory_key_extract(key);
            }
        }
        return None;
    };
    let r = MemoryLookupKey {
        location,
        address: address as u32,
        eid: eid as u32,
        is_i32: flag == 1,
        value,
    };
    proof {
        lemma_memory_key_extract(r);
        assert forall|key: MemoryLookupKey| key.wf() && key.encode_spec() == k implies Some(r)
            == Some(key) by {
            lemma_memory_key_extract(key);
        }
    }
    Some(r)
}

/// Unpack a jump key.  Returns the unique well-formed entry that packs to
/// `k`, or nothing when `k` encodes no well-formed entry.
pub fn decode_jump_key(k: u128) -> (r: Option<JumpLookupKey>)
    ensures
        forall|key: JumpLookupKey| key.wf() && key.encode_spec() == k ==> r == Some(key),
        r is Some ==> (r.unwrap().wf() && r.unwrap().encode_spec() == k),
{
    let iid = k % 0x100_0000;
    let t1 = k / 0x100_0000;
    let fid = t1 % 0x100_0000;
    let t2 = t1 / 0x100_0000;
    let index = t2 % 0x100_0000;
    let t3 = t2 / 0x100_0000;
    let frame_id = t3 % 0x1000_0000;
    let eid = t3 / 0x1000_0000;
    proof {
        lemma_div_denominator(k as int, 0x100_0000, 0x100_0000);
        lemma_div_denominator(k as int, 0x1_0000_0000_0000, 0x100_0000);
        lemma_div_denominator(k as int, 0x100_0000_0000_0000_0000, 0x1000_0000);
        lemma_fundamental_div_mod(k as int, 0x100_0000);
        lemma_fundamental_div_mod(k as int / 0x100_0000, 0x100_0000);
        lemma_fundamental_div_mod(k as int / 0x1_0000_0000_0000, 0x100_0000);
        lemma_fundamental_div_mod(k as int / 0x100_0000_0000_0000_0000, 0x1000_0000);
    }
    if eid >= 0x1000_0000 {
        proof {
            assert forall|key: JumpLookupKey| key.wf() && key.encode_spec() == k implies false by {
                lemma_jump_key_extract(key);
            }
        }
        return None;
    }
    let r = JumpLookupKey {
        eid: eid as u32,
        frame_id: frame_id as u32,
        index: index as u32,
        fid: fid as u32,
        iid: iid as u32,
    };
    proof {
        lemma_jump_key_extract(r);
        assert forall|key: JumpLookupKey| key.wf() && key.encode_spec() == k implies Some(r) == Some(
            key,
        ) by {
            lemma_jump_key_extract(key);
        }
    }
    Some(r)
}

} // verus!
