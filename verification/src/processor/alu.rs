//! The integer operations of the `i` and `m` extensions on register
//! values: the value each one writes to its destination register.
use vstd::prelude::*;
use crate::global::{sext, sext_spec, RegT, XLen};

verus! {

/// An integer operation of two register operands.
#[derive(Debug, Clone, Copy, PartialEq, Eq, Structural)]
pub enum AluOp {
    Add,
    Sub,
    Sll,
    Slt,
    Sltu,
    Xor,
    Srl,
    Sra,
    Or,
    And,
    AddW,
    SubW,
    SllW,
    SrlW,
    SraW,
    Mul,
    MulW,
    Div,
    Divu,
    Rem,
    Remu,
    DivW,
    DivuW,
    RemW,
    RemuW,
}

/// 2^64.
pub open spec fn two64() -> int {
    0x1_0000_0000_0000_0000
}

/// `x` modulo 2^64.
pub open spec fn wrap64(x: int) -> u64 {
    (x % two64()) as u64
}

/// The mask of the shift amounts of an `xlen`-bit register: `xlen - 1`.
pub open spec fn shamt_mask(xlen: XLen) -> u64 {
    if xlen == XLen::X32 { 31 } else { 63 }
}

/// Quotient of `x / d` rounded toward zero (`d != 0`).
pub open spec fn trunc_div(x: int, d: int) -> int {
    if x >= 0 && d > 0 {
        x / d
    } else if x < 0 && d < 0 {
        (-x) / (-d)
    } else if x < 0 {
        -((-x) / d)
    } else {
        -(x / (-d))
    }
}

/// Remainder of `x / d` with the sign of `x` (`d != 0`).
pub open spec fn trunc_rem(x: int, d: int) -> int {
    if x >= 0 && d > 0 {
        x % d
    } else if x < 0 && d < 0 {
        -((-x) % (-d))
    } else if x < 0 {
        -((-x) % d)
    } else {
        x % (-d)
    }
}

/// Signed division of 64-bit values as the hardware wraps it: the
/// quotient rounded toward zero, `MIN / -1 == MIN` (`d != 0`).
pub open spec fn sdiv64(x: i64, d: i64) -> i64 {
    if x == i64::MIN && d == -1 { i64::MIN } else { trunc_div(x as int, d as int) as i64 }
}

/// Signed remainder of 64-bit values: the sign of `x`, `MIN % -1 == 0`.
pub open spec fn srem64(x: i64, d: i64) -> i64 {
    if x == i64::MIN && d == -1 { 0 } else { trunc_rem(x as int, d as int) as i64 }
}

/// The signed value of the low `len` bits of `x`.
pub open spec fn signed(x: u64, len: nat) -> i64 {
    sext_spec(x, len) as i64
}

/// The value `op` writes for operands `a` and `b` on an `xlen`-bit hart.
/// Shift amounts are the low bits of `b`; `W` operations work on the low
/// 32 bits and sign-extend their result; a division by zero gives all
/// ones and a remainder by zero gives the dividend.
pub open spec fn spec_alu(op: AluOp, xlen: XLen, a: u64, b: u64) -> u64 {
    let m = xlen.spec_mask();
    let len = xlen.spec_len();
    let sh = b & shamt_mask(xlen);
    let sh32 = b & 0x1f;
    let a32 = a & 0xffff_ffff;
    let b32 = b & 0xffff_ffff;
    match op {
        AluOp::Add => wrap64(a + b) & m,
        AluOp::Sub => wrap64(a - b + two64()) & m,
        AluOp::Sll => (a << sh) & m,
        AluOp::Slt => if signed(a, len) < signed(b, len) { 1 } else { 0 },
        AluOp::Sltu => if a < b { 1 } else { 0 },
        AluOp::Xor => (a ^ b) & m,
        AluOp::Srl => (a & m) >> sh,
        AluOp::Sra => sext_spec((a & m) >> sh, (len - sh) as nat) & m,
        AluOp::Or => (a | b) & m,
        AluOp::And => (a & b) & m,
        AluOp::AddW => sext_spec(wrap64(sext_spec(a, 32) + sext_spec(b, 32)), 32) & m,
        AluOp::SubW => sext_spec(wrap64(sext_spec(a, 32) - sext_spec(b, 32) + two64()), 32) & m,
        AluOp::SllW => sext_spec(a32 << sh32, 32) & m,
        AluOp::SrlW => sext_spec(a32 >> sh32, 32) & m,
        AluOp::SraW => sext_spec(a32 >> sh32, (32 - sh32) as nat) & m,
        AluOp::Mul => wrap64(a * b) & m,
        AluOp::MulW => sext_spec(wrap64(sext_spec(a, 32) * sext_spec(b, 32)), 32) & m,
        AluOp::Div => if signed(b, len) == 0 { m } else { (sdiv64(signed(a, len), signed(b, len)) as u64) & m },
        AluOp::Divu => if b == 0 { m } else { (a / b) & m },
        AluOp::Rem => if signed(b, len) == 0 { sext_spec(a, len) & m } else {
            (srem64(signed(a, len), signed(b, len)) as u64) & m
        },
        AluOp::Remu => if b == 0 { a & m } else { (a % b) & m },
        AluOp::DivW => if signed(b, 32) == 0 { m } else {
            sext_spec(sdiv64(signed(a, 32), signed(b, 32)) as u64, 32) & m
        },
        AluOp::DivuW => if b32 == 0 { m } else { sext_spec(a32 / b32, 32) & m },
        AluOp::RemW => if signed(b, 32) == 0 { sext_spec(a, 32) & m } else {
            sext_spec(srem64(signed(a, 32), signed(b, 32)) as u64, 32) & m
        },
        AluOp::RemuW => if b32 == 0 { sext_spec(a32, 32) & m } else { sext_spec(a32 % b32, 32) & m },
    }
}

/// Signed division as the hardware wraps it (see `sdiv64`).
pub fn sdiv(x: i64, d: i64) -> (r: i64)
    requires
        d != 0,
    ensures
        r == sdiv64(x, d),
{
    if x == i64::MIN && d == -1 {
        i64::MIN
    } else {
        match x.checked_div(d) {
            Some(q) => q,
            None => {
                proof {
                    let xi = x as int;
                    let di = d as int;
                    if xi >= 0 && di > 0 {
                        assert(xi / di <= xi) by (nonlinear_arith)
                            requires xi >= 0 && di > 0;
                    } else if xi < 0 && di < 0 {
                        assert((-xi) / (-di) <= -xi) by (nonlinear_arith)
                            requires xi < 0 && di < 0;
                        assert(-di >= 2 ==> (-xi) / (-di) <= (-xi) / 2) by (nonlinear_arith)
                            requires xi < 0 && di < 0;
                    } else if xi < 0 {
                        assert((-xi) / di <= -xi && (-xi) / di >= 0) by (nonlinear_arith)
                            requires xi < 0 && di > 0;
                    } else {
                        assert(xi / (-di) <= xi && xi / (-di) >= 0) by (nonlinear_arith)
                            requires xi >= 0 && di < 0;
                    }
                }
                i64::MIN
            },
        }
    }
}

/// Signed remainder as the hardware wraps it (see `srem64`).
pub fn srem(x: i64, d: i64) -> (r: i64)
    requires
        d != 0,
    ensures
        r == srem64(x, d),
{
    if x == i64::MIN && d == -1 {
        0
    } else {
        match x.checked_rem(d) {
            Some(q) => q,
            None => {
                proof {
                    let xi = x as int;
                    let di = d as int;
                    if xi >= 0 && di > 0 {
                        assert(xi % di < di && xi % di >= 0) by (nonlinear_arith)
                            requires xi >= 0 && di > 0;
                    } else if xi < 0 && di < 0 {
                        assert((-xi) % (-di) < -di && (-xi) % (-di) >= 0) by (nonlinear_arith)
                            requires xi < 0 && di < 0;
                    } else if xi < 0 {
                        assert((-xi) % di < di && (-xi) % di >= 0) by (nonlinear_arith)
                            requires xi < 0 && di > 0;
                    } else {
                        assert(xi % (-di) < -di && xi % (-di) >= 0) by (nonlinear_arith)
                            requires xi >= 0 && di < 0;
                    }
                }
                0
            },
        }
    }
}

/// The value `op` writes for operands `a` and `b` (see `spec_alu`).
pub fn alu(op: AluOp, xlen: XLen, a: RegT, b: RegT) -> (r: RegT)
    ensures
        r == spec_alu(op, xlen, a, b),
{
    let m = xlen.mask();
    let len = xlen.len();
    let shm: u64 = match xlen {
        XLen::X32 => 31,
        XLen::X64 => 63,
    };
    let sh = b & shm;
    let sh32 = b & 0x1f;
    let a32 = a & 0xffff_ffff;
    let b32 = b & 0xffff_ffff;
    assert(sh <= 63 && sh32 <= 31) by (bit_vector)
        requires
            sh == b & shm,
            shm == 31 || shm == 63,
            sh32 == b & 0x1f,
    ;
    match op {
        AluOp::Add => a.wrapping_add(b) & m,
        AluOp::Sub => a.wrapping_sub(b) & m,
        AluOp::Sll => (a << sh) & m,
        AluOp::Slt => if (sext(a, len) as i64) < (sext(b, len) as i64) { 1 } else { 0 },
        AluOp::Sltu => if a < b { 1 } else { 0 },
        AluOp::Xor => (a ^ b) & m,
        AluOp::Srl => (a & m) >> sh,
        AluOp::Sra => {
            assert(sh < len);
            sext((a & m) >> sh, len - sh as usize) & m
        },
        AluOp::Or => (a | b) & m,
        AluOp::And => (a & b) & m,
        AluOp::AddW => sext(sext(a, 32).wrapping_add(sext(b, 32)), 32) & m,
        AluOp::SubW => sext(sext(a, 32).wrapping_sub(sext(b, 32)), 32) & m,
        AluOp::SllW => sext(a32 << sh32, 32) & m,
        AluOp::SrlW => sext(a32 >> sh32, 32) & m,
        AluOp::SraW => sext(a32 >> sh32, 32 - sh32 as usize) & m,
        AluOp::Mul => a.wrapping_mul(b) & m,
        AluOp::MulW => {
            let x = sext(a, 32);
            let y = sext(b, 32);
            sext(x.wrapping_mul(y), 32) & m
        },
        AluOp::Div => {
            let bs = sext(b, len) as i64;
            if bs == 0 {
                m
            } else {
                (sdiv(sext(a, len) as i64, bs) as u64) & m
            }
        },
        AluOp::Divu => if b == 0 { m } else { (a / b) & m },
        AluOp::Rem => {
            let bs = sext(b, len) as i64;
            if bs == 0 {
                sext(a, len) & m
            } else {
                (srem(sext(a, len) as i64, bs) as u64) & m
            }
        },
        AluOp::Remu => if b == 0 { a & m } else { (a % b) & m },
        AluOp::DivW => {
            let bs = sext(b, 32) as i64;
            if bs == 0 {
                m
            } else {
                sext(sdiv(sext(a, 32) as i64, bs) as u64, 32) & m
            }
        },
        AluOp::DivuW => if b32 == 0 { m } else { sext(a32 / b32, 32) & m },
        AluOp::RemW => {
            let bs = sext(b, 32) as i64;
            if bs == 0 {
                sext(a, 32) & m
            } else {
                sext(srem(sext(a, 32) as i64, bs) as u64, 32) & m
            }
        },
        AluOp::RemuW => if b32 == 0 { sext(a32, 32) & m } else { sext(a32 % b32, 32) & m },
    }
}

} // verus!
