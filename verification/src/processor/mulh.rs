//! The high halves of products (`mulh`, `mulhsu`, `mulhu`), computed with
//! big integers.
use vstd::prelude::*;
use crate::global::{sext, sext_spec, RegT, XLen};
use crate::processor::exec::{add64, applied, has_m, illegal, write_rd, Effect};
use crate::processor::insn::{rd, rs1, rs2, spec_rd, spec_rs1, spec_rs2};
use crate::processor::state::ProcessorState;
use crate::processor::trap::Exception;

verus! {

/// 256 to the power `n`.
pub open spec fn p256(n: nat) -> int
    decreases n,
{
    if n == 0 { 1 } else { 256 * p256((n - 1) as nat) }
}

/// The unsigned value of the little-endian bytes `b`.
pub open spec fn le_unsigned(b: Seq<u8>) -> int
    decreases b.len(),
{
    if b.len() == 0 { 0 } else { le_unsigned(b.drop_last()) + b.last() * p256((b.len() - 1) as nat) }
}

/// The two's-complement value of the little-endian bytes `b`.
pub open spec fn le_signed(b: Seq<u8>) -> int {
    if b.len() > 0 && b.last() >= 128 { le_unsigned(b) - p256(b.len()) } else { le_unsigned(b) }
}

/// 2 to the power `n`.
pub open spec fn p2(n: nat) -> int
    decreases n,
{
    if n == 0 { 1 } else { 2 * p2((n - 1) as nat) }
}

/// `(a * b) >> shift` on big integers (rounding toward minus infinity), as
/// its two's-complement little-endian bytes (`BigInt::to_signed_bytes_le`,
/// at least one byte) and whether it is negative (`BigInt::sign`).
#[verifier::external_body]
fn bigint_mul_shr(a: i128, b: i128, shift: usize) -> (r: (Vec<u8>, bool))
    ensures
        r.0@.len() >= 1,
        le_signed(r.0@) == (a * b) / p2(shift as nat),
        r.1 == ((a * b) / p2(shift as nat) < 0),
{
    let p = (num::BigInt::from(a) * num::BigInt::from(b)) >> shift;
    let negative = match p.sign() {
        num::bigint::Sign::Minus => true,
        num::bigint::Sign::NoSign => false,
        num::bigint::Sign::Plus => false,
    };
    (p.to_signed_bytes_le(), negative)
}

proof fn lemma_p256_pos(n: nat)
    ensures
        p256(n) >= 1,
    decreases n,
{
    if n > 0 {
        lemma_p256_pos((n - 1) as nat);
    }
}

proof fn lemma_p256_mono(a: nat, c: nat)
    requires
        a <= c,
    ensures
        p256(a) <= p256(c),
    decreases c,
{
    if a < c {
        lemma_p256_mono(a, (c - 1) as nat);
        lemma_p256_pos((c - 1) as nat);
    }
}

proof fn lemma_p256_add(a: nat, c: nat)
    ensures
        p256(a + c) == p256(a) * p256(c),
    decreases c,
{
    if c > 0 {
        lemma_p256_add(a, (c - 1) as nat);
        assert(p256(a + c) == 256 * p256((a + c - 1) as nat));
        assert(p256(a) * (256 * p256((c - 1) as nat)) == 256 * (p256(a) * p256((c - 1) as nat))) by (nonlinear_arith);
    }
}

proof fn lemma_le_bound(b: Seq<u8>)
    ensures
        0 <= le_unsigned(b) < p256(b.len()),
    decreases b.len(),
{
    if b.len() > 0 {
        let n = (b.len() - 1) as nat;
        lemma_le_bound(b.drop_last());
        lemma_p256_pos(n);
        let x = b.last() as int;
        let p = p256(n);
        assert(0 <= x * p <= 255 * p) by (nonlinear_arith)
            requires
                0 <= x <= 255,
                p >= 1,
        ;
    }
}

/// The bytes above the first `n` add a multiple of `256^n`.
proof fn lemma_le_take(b: Seq<u8>, n: nat) -> (k: int)
    requires
        n <= b.len(),
    ensures
        le_unsigned(b) == le_unsigned(b.take(n as int)) + k * p256(n),
    decreases b.len(),
{
    if b.len() == n {
        assert(b.take(n as int) =~= b);
        0
    } else {
        let d = b.drop_last();
        assert(d.take(n as int) =~= b.take(n as int));
        let k0 = lemma_le_take(d, n);
        let e = (b.len() - 1 - n) as nat;
        lemma_p256_add(n, e);
        assert((b.len() - 1) as nat == n + e);
        let x = b.last() as int;
        assert(x * (p256(n) * p256(e)) == (x * p256(e)) * p256(n)) by (nonlinear_arith);
        assert(k0 * p256(n) + (x * p256(e)) * p256(n) == (k0 + x * p256(e)) * p256(n)) by (nonlinear_arith);
        k0 + x * p256(e)
    }
}

/// The register value of big integer bytes: the low `size` bytes of the
/// two's-complement value, padded with its sign when shorter.
pub fn bigint_to_reg(bytes: &Vec<u8>, negative: bool, size: usize) -> (r: RegT)
    requires
        size == 4 || size == 8,
        bytes@.len() >= 1,
        negative == (le_signed(bytes@) < 0),
    ensures
        r == le_signed(bytes@) % p256(size as nat),
{
    let len = bytes.len();
    let ghost b = bytes@;
    proof {
        lemma_le_bound(b);
        lemma_p256_pos((b.len() - 1) as nat);
        assert(b.drop_last().len() == b.len() - 1);
        lemma_le_bound(b.drop_last());
    }
    let mut value: u64 = 0;
    let mut mult: u64 = 1;
    let mut i: usize = 0;
    while i < size
        invariant
            size == 4 || size == 8,
            len == b.len(),
            b == bytes@,
            i <= size,
            i < size ==> mult == p256(i as nat),
            i <= len ==> value == le_unsigned(b.take(i as int)),
            i > len ==> value == le_unsigned(b) + (if negative { p256(i as nat) - p256(len as nat) } else { 0 }),
            value < p256(i as nat),
        decreases size - i,
    {
        let byte: u8 = if i < len {
            bytes[i]
        } else if negative {
            0xff
        } else {
            0
        };
        proof {
            lemma_p256_pos(i as nat);
            assert(p256((i + 1) as nat) == 256 * p256(i as nat));
            lemma_p256_mono((i + 1) as nat, 8);
            assert(p256(8) == 0x1_0000_0000_0000_0000) by { reveal_with_fuel(p256, 9); }
            let x = byte as int;
            let p = p256(i as nat);
            assert(value + x * p < 256 * p) by (nonlinear_arith)
                requires
                    value < p,
                    0 <= x <= 255,
            ;
            assert(x * p >= 0) by (nonlinear_arith) requires x >= 0, p >= 1;
            if i < len {
                let t = b.take(i as int + 1);
                assert(t.drop_last() =~= b.take(i as int));
                assert(t.last() == byte);
            }
            if i == len && len < size {
                assert(b.take(i as int) =~= b);
            }
        }
        value = value + (byte as u64) * mult;
        if i + 1 < size {
            proof {
                lemma_p256_mono((i + 1) as nat, 7);
                assert(p256(7) == 0x100_0000_0000_0000) by { reveal_with_fuel(p256, 9); }
            }
            mult = mult * 256;
        }
        i = i + 1;
    }
    proof {
        let n = size as nat;
        let pn = p256(n);
        lemma_p256_pos(n);
        lemma_p256_pos(len as nat);
        let v = le_signed(b);
        if len >= size {
            let k = lemma_le_take(b, n);
            let c: int = if b.last() >= 128 { 1 } else { 0 };
            if len > size {
                let e = (len - size) as nat;
                lemma_p256_add(n, e);
                assert(len as nat == n + e);
            } else {
                assert(p256(len as nat) == pn * 1);
            }
            let q: int = if len > size { p256((len - size) as nat) } else { 1 };
            assert(p256(len as nat) == pn * q);
            assert(v == value + (k - c * q) * pn) by (nonlinear_arith)
                requires
                    v == le_unsigned(b) - c * p256(len as nat),
                    le_unsigned(b) == value + k * pn,
                    p256(len as nat) == pn * q,
            ;
            vstd::arithmetic::div_mod::lemma_fundamental_div_mod_converse(v, pn, k - c * q, value as int);
        } else {
            lemma_p256_mono(len as nat, n);
            if negative {
                assert(b.last() >= 128);
                assert(v == value - pn);
                vstd::arithmetic::div_mod::lemma_fundamental_div_mod_converse(v, pn, -1, value as int);
            } else {
                assert(b.last() < 128);
                vstd::arithmetic::div_mod::lemma_fundamental_div_mod_converse(v, pn, 0, value as int);
            }
        }
    }
    value
}

/// Which high half of a product.
#[derive(Debug, Clone, Copy, PartialEq, Eq, Structural)]
pub enum MulhOp {
    /// Both operands signed.
    Mulh,
    /// First operand signed, second unsigned.
    Mulhsu,
    /// Both operands unsigned.
    Mulhu,
}

/// The operands of a high-half product as integers: the `xlen`-bit
/// register values, signed or unsigned.
pub open spec fn mulh_operands(op: MulhOp, xlen: XLen, a: u64, b: u64) -> (int, int) {
    let len = xlen.spec_len();
    let m = xlen.spec_mask();
    let sa = (sext_spec(a, len) as i64) as int;
    let sb = (sext_spec(b, len) as i64) as int;
    match op {
        MulhOp::Mulh => (sa, sb),
        MulhOp::Mulhsu => (sa, (b & m) as int),
        MulhOp::Mulhu => ((a & m) as int, (b & m) as int),
    }
}

/// The value a high-half product writes: the product shifted right by
/// `xlen` (rounding toward minus infinity), modulo 2^xlen.
pub open spec fn spec_mulh(op: MulhOp, xlen: XLen, a: u64, b: u64) -> u64 {
    let (x, y) = mulh_operands(op, xlen, a, b);
    (((x * y) / p2(xlen.spec_len())) % p256(xlen.spec_len() / 8)) as u64
}

/// Computes a high-half product (see `spec_mulh`).
pub fn mulh(op: MulhOp, xlen: XLen, a: RegT, b: RegT) -> (r: RegT)
    ensures
        r == spec_mulh(op, xlen, a, b),
{
    let len = xlen.len();
    let m = xlen.mask();
    let sa = sext(a, len) as i64;
    let sb = sext(b, len) as i64;
    let (x, y): (i128, i128) = match op {
        MulhOp::Mulh => (sa as i128, sb as i128),
        MulhOp::Mulhsu => (sa as i128, (b & m) as i128),
        MulhOp::Mulhu => ((a & m) as i128, (b & m) as i128),
    };
    let (bytes, negative) = bigint_mul_shr(x, y, len);
    let v = bigint_to_reg(&bytes, negative, xlen.size());
    proof {
        lemma_p256_pos(xlen.spec_len() / 8);
        if xlen == XLen::X32 {
            assert(p256(4) == 0x1_0000_0000) by { reveal_with_fuel(p256, 9); }
            assert(v < 0x1_0000_0000);
            assert(v < 0x1_0000_0000 ==> v & 0xffff_ffff == v) by (bit_vector);
        } else {
            crate::bits::lemma_and_bound(v, 0);
        }
    }
    v & m
}

/// The effect of `mulh`, `mulhsu` or `mulhu`: illegal without `m`.
pub open spec fn spec_mulh_effect(op: MulhOp, s: ProcessorState) -> Effect {
    let ir = s.ir;
    if !has_m(s) {
        illegal(s)
    } else {
        write_rd(s, spec_rd(ir), spec_mulh(op, s.config.xlen, s.spec_xreg(spec_rs1(ir)), s.spec_xreg(spec_rs2(ir))), 4)
    }
}

/// Executes `mulh`, `mulhsu` or `mulhu` (see `spec_mulh_effect`).
pub fn exec_mulh(s: &mut ProcessorState, op: MulhOp) -> (r: Result<(), Exception>)
    requires
        old(s).wf(),
    ensures
        final(s).wf(),
        applied(*old(s), *final(s), spec_mulh_effect(op, *old(s)), r),
{
    if s.privilege.check_extension('m').is_err() {
        return Err(Exception::IllegalInsn(s.ir));
    }
    let ir = s.ir;
    let v = mulh(op, s.config.xlen, s.xreg(rs1(ir)), s.xreg(rs2(ir)));
    let pc = add64(s.pc, 4);
    s.set_xreg(rd(ir), v);
    s.set_pc(pc);
    Ok(())
}

} // verus!
