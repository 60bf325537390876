use zkwasm::encode::RelOp;
use zkwasm::semantics::{
    normalize, top_flag, wasm_add, wasm_div_s, wasm_div_u, wasm_mul, wasm_rel, wasm_rem_s,
    wasm_rem_u, wasm_sub,
};

#[test]
fn add_wraps_with_overflow_bit() {
    // 32-bit: 0xFFFFFFFF + 1 wraps to 0 with the overflow bit set
    assert_eq!(wasm_add(true, 0xffff_ffff, 1), (0, 1));
    assert_eq!(wasm_add(true, 2, 3), (5, 0));
    // 64-bit wraparound
    assert_eq!(wasm_add(false, u64::MAX, 1), (0, 1));
    assert_eq!(wasm_add(false, u64::MAX, u64::MAX), (u64::MAX - 1, 1));
}

#[test]
fn sub_wraps_with_borrow_bit() {
    assert_eq!(wasm_sub(true, 5, 7), (0xffff_fffe, 1));
    assert_eq!(wasm_sub(true, 7, 5), (2, 0));
    assert_eq!(wasm_sub(false, 0, 1), (u64::MAX, 1));
}

#[test]
fn mul_low_and_high_words() {
    assert_eq!(wasm_mul(true, 0x1_0000, 0x1_0000), (0, 1));
    assert_eq!(wasm_mul(false, 1 << 32, 1 << 32), (0, 1));
    assert_eq!(wasm_mul(false, 3, 4), (12, 0));
}

#[test]
fn unsigned_div_rem_euclidean() {
    let a: u64 = 1_000_003;
    let b: u64 = 97;
    let d = wasm_div_u(a, b);
    let m = wasm_rem_u(a, b);
    assert_eq!(d * b + m, a);
    assert!(m < b);
    assert_eq!(wasm_div_u(7, 7), 1);
    assert_eq!(wasm_rem_u(7, 7), 0);
}

#[test]
fn signed_div_truncates_toward_zero() {
    // 32-bit: -7 / 2 == -3
    let minus7: u64 = (-7i32) as u32 as u64;
    let minus3: u64 = (-3i32) as u32 as u64;
    assert_eq!(wasm_div_s(true, minus7, 2), minus3);
    // -7 / -2 == 3
    let minus2: u64 = (-2i32) as u32 as u64;
    assert_eq!(wasm_div_s(true, minus7, minus2), 3);
    assert_eq!(wasm_div_s(true, 7, 2), 3);
}

#[test]
fn signed_rem_keeps_dividend_sign() {
    // -7 % 2 == -1: the remainder carries the dividend's sign
    let minus7: u64 = (-7i32) as u32 as u64;
    let minus1: u64 = (-1i32) as u32 as u64;
    assert_eq!(wasm_rem_s(true, minus7, 2), minus1);
    // 7 % -2 == 1: positive dividend gives non-negative remainder
    let minus2: u64 = (-2i32) as u32 as u64;
    assert_eq!(wasm_rem_s(true, 7, minus2), 1);
    // i32::MIN % -1 == 0: zero remainder is allowed either sign
    let min: u64 = (i32::MIN as u32) as u64;
    assert_eq!(wasm_rem_s(true, min, minus1), 0);
    // 64-bit check
    let m7: u64 = (-7i64) as u64;
    let m1: u64 = (-1i64) as u64;
    assert_eq!(wasm_rem_s(false, m7, 2), m1);
}

#[test]
fn relational_signed_and_unsigned_lt() {
    // signed: -1 < 1
    let minus1: u64 = (-1i32) as u32 as u64;
    assert!(wasm_rel(RelOp::Lt, true, true, minus1, 1));
    // unsigned: 0xFFFFFFFF < 1 is false
    assert!(!wasm_rel(RelOp::Lt, false, true, 0xffff_ffff, 1));
    assert!(wasm_rel(RelOp::Ge, false, true, 0xffff_ffff, 1));
    assert!(wasm_rel(RelOp::Le, true, true, minus1, minus1));
    assert!(wasm_rel(RelOp::Eq, false, false, 9, 9));
    assert!(wasm_rel(RelOp::Ne, false, false, 9, 8));
    assert!(wasm_rel(RelOp::Gt, true, true, 1, minus1));
}

#[test]
fn normalize_and_flag() {
    let minus5: u64 = (-5i32) as u32 as u64;
    assert_eq!(normalize(true, minus5), 5);
    assert_eq!(normalize(true, 5), 5);
    assert!(top_flag(true, minus5));
    assert!(!top_flag(true, 5));
    let m5: u64 = (-5i64) as u64;
    assert_eq!(normalize(false, m5), 5);
}
