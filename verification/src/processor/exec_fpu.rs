//! The floating-point instructions that need floating-point arithmetic.
//! The hart does everything around the arithmetic: it checks the
//! extensions and `mstatus.fs`, reads and unboxes the operands, resolves
//! the rounding mode, and, given the arithmetic's answer, sets `fflags`
//! and writes the result. The arithmetic itself is asked for with a
//! `FloatRequest` and answered with a `FloatOutcome` by the host.
use vstd::prelude::*;
use crate::bits::{field_of, with_field};
use crate::global::{sext, sext_spec, InsnT, RegT, XLen};
use crate::processor::alu::wrap64;
use crate::processor::decode::InsnKind;
use crate::processor::exec::add64;
use crate::processor::exec_mem::{lemma_low5, same_but_float};
use crate::processor::extensions::{FLen, FRegT};
use crate::processor::insn::{rd, rs1, rs2, spec_rd, spec_rs1, spec_rs2};
use crate::processor::state::ProcessorState;
use crate::processor::trap::Exception;

verus! {

/// Whether `kind` needs floating-point arithmetic.
pub open spec fn is_fpu_kind(kind: InsnKind) -> bool {
    kind == InsnKind::FADDS || kind == InsnKind::FSUBS || kind == InsnKind::FMULS || kind == InsnKind::FDIVS || kind == InsnKind::FSQRTS || kind == InsnKind::FMINS || kind == InsnKind::FMAXS || kind == InsnKind::FMADDS || kind == InsnKind::FMSUBS || kind == InsnKind::FMNSUBS || kind == InsnKind::FMNADDS || kind == InsnKind::FCVTWS || kind == InsnKind::FCVTWUS || kind == InsnKind::FCVTLS || kind == InsnKind::FCVTLUS || kind == InsnKind::FCVTSW || kind == InsnKind::FCVTSWU || kind == InsnKind::FCVTSL || kind == InsnKind::FCVTSLU || kind == InsnKind::FEQS || kind == InsnKind::FLTS || kind == InsnKind::FLES || kind == InsnKind::FCLASSS || kind == InsnKind::FADDD || kind == InsnKind::FSUBD || kind == InsnKind::FMULD || kind == InsnKind::FDIVD || kind == InsnKind::FSQRTD || kind == InsnKind::FMIND || kind == InsnKind::FMAXD || kind == InsnKind::FMADDD || kind == InsnKind::FMSUBD || kind == InsnKind::FMNSUBD || kind == InsnKind::FMNADDD || kind == InsnKind::FCVTWD || kind == InsnKind::FCVTWUD || kind == InsnKind::FCVTLD || kind == InsnKind::FCVTLUD || kind == InsnKind::FCVTDW || kind == InsnKind::FCVTDWU || kind == InsnKind::FCVTDL || kind == InsnKind::FCVTDLU || kind == InsnKind::FCVTSD || kind == InsnKind::FCVTDS || kind == InsnKind::FEQD || kind == InsnKind::FLTD || kind == InsnKind::FLED || kind == InsnKind::FCLASSD
}

/// The kinds that read the low 64 bits of their register operands.
pub open spec fn fpu_double_operands(kind: InsnKind) -> bool {
    kind == InsnKind::FADDD || kind == InsnKind::FSUBD || kind == InsnKind::FMULD || kind == InsnKind::FDIVD || kind == InsnKind::FSQRTD || kind == InsnKind::FMIND || kind == InsnKind::FMAXD || kind == InsnKind::FMADDD || kind == InsnKind::FMSUBD || kind == InsnKind::FMNSUBD || kind == InsnKind::FMNADDD || kind == InsnKind::FCVTWD || kind == InsnKind::FCVTWUD || kind == InsnKind::FCVTLD || kind == InsnKind::FCVTLUD || kind == InsnKind::FCVTSD || kind == InsnKind::FEQD || kind == InsnKind::FLTD || kind == InsnKind::FLED || kind == InsnKind::FCLASSD
}

/// The kinds that need `d`.
pub open spec fn fpu_needs_d(kind: InsnKind) -> bool {
    fpu_double_operands(kind) || kind == InsnKind::FCVTDW || kind == InsnKind::FCVTDWU || kind == InsnKind::FCVTDL || kind == InsnKind::FCVTDLU || kind == InsnKind::FCVTDS
}

/// The kinds that need RV64.
pub open spec fn fpu_needs_x64(kind: InsnKind) -> bool {
    kind == InsnKind::FCVTLS || kind == InsnKind::FCVTLUS || kind == InsnKind::FCVTSL || kind == InsnKind::FCVTSLU || kind == InsnKind::FCVTLD || kind == InsnKind::FCVTLUD || kind == InsnKind::FCVTDL || kind == InsnKind::FCVTDLU
}

/// The kinds with three operands.
pub open spec fn fpu_ternary(kind: InsnKind) -> bool {
    kind == InsnKind::FMADDS || kind == InsnKind::FMSUBS || kind == InsnKind::FMNSUBS || kind == InsnKind::FMNADDS || kind == InsnKind::FMADDD || kind == InsnKind::FMSUBD || kind == InsnKind::FMNSUBD || kind == InsnKind::FMNADDD
}

/// The kinds with two operands.
pub open spec fn fpu_binary(kind: InsnKind) -> bool {
    kind == InsnKind::FADDS || kind == InsnKind::FSUBS || kind == InsnKind::FMULS || kind == InsnKind::FDIVS || kind == InsnKind::FMINS || kind == InsnKind::FMAXS || kind == InsnKind::FEQS || kind == InsnKind::FLTS || kind == InsnKind::FLES || kind == InsnKind::FADDD || kind == InsnKind::FSUBD || kind == InsnKind::FMULD || kind == InsnKind::FDIVD || kind == InsnKind::FMIND || kind == InsnKind::FMAXD || kind == InsnKind::FEQD || kind == InsnKind::FLTD || kind == InsnKind::FLED
}

/// The classifications: the only kinds that use no rounding mode and
/// leave `fflags` alone.
pub open spec fn fpu_class(kind: InsnKind) -> bool {
    kind == InsnKind::FCLASSS || kind == InsnKind::FCLASSD
}

/// A floating-point operation to perform: the instruction, its operands
/// (unboxed register bits, or the integer operand of a conversion), the
/// rounding mode (0 to 4, as `frm` encodes it) and the destination
/// register.
#[derive(Debug, Clone, Copy, PartialEq, Eq, Structural)]
pub struct FloatRequest {
    pub kind: InsnKind,
    pub a: u64,
    pub b: u64,
    pub c: u64,
    pub rm: u64,
    pub rd: InsnT,
}

/// The answer to a `FloatRequest`: the result (the bits of a floating-point
/// result; the bits of an integer result; for a comparison 0, 1, 2 for
/// less, equal, greater and 3 for unordered; for a classification the
/// index of the class, below 10) and the exception flags in `fflags`
/// order.
#[derive(Debug, Clone, Copy, PartialEq, Eq, Structural)]
pub struct FloatOutcome {
    pub value: u64,
    pub flags: u64,
}

/// The `rs3` field of a fused multiply-add.
pub open spec fn spec_rs3(ir: InsnT) -> InsnT {
    (ir >> 27) & 0x1f
}

/// The rounding-mode field of an instruction.
pub open spec fn spec_rm(ir: InsnT) -> InsnT {
    (ir >> 12) & 7
}

/// The rounding mode used: the instruction's field when it names one (0
/// to 4), else the dynamic mode: `frm` when it names one, else
/// round-to-nearest-even. An invalid `frm` with the field 7 (dynamic) is
/// illegal (`None`).
pub open spec fn rounding_mode(frm: u64, field: InsnT) -> Option<u64> {
    if frm > 4 && field == 7 {
        None
    } else if field <= 4 {
        Some(field as u64)
    } else if frm <= 4 {
        Some(frm)
    } else {
        Some(0)
    }
}

/// Register operand `id`: NaN-unboxed to 32 bits, or its low 64 bits for
/// the double-precision kinds.
pub open spec fn fpu_operand(s: ProcessorState, kind: InsnKind, id: InsnT) -> u64 {
    let f = s.fext->0;
    let v = f.freg@[((id as u64) & 0x1f) as int];
    if fpu_double_operands(kind) {
        (v & 0xffff_ffff_ffff_ffff) as u64
    } else {
        f.flen.spec_boxed(v, FLen::F32) as u64
    }
}

/// The first operand: the integer register for the conversions from
/// integers (sign-extended or cut to 32 bits for the word forms), the low
/// 32 bits of the register for `fcvt.d.s`, else the register operand.
pub open spec fn fpu_first(s: ProcessorState, kind: InsnKind) -> u64 {
    let ir = s.ir;
    let x = s.spec_xreg(spec_rs1(ir));
    if kind == InsnKind::FCVTSW || kind == InsnKind::FCVTDW {
        sext_spec(x, 32)
    } else if kind == InsnKind::FCVTSWU || kind == InsnKind::FCVTDWU {
        x & 0xffff_ffff
    } else if kind == InsnKind::FCVTSL || kind == InsnKind::FCVTSLU || kind == InsnKind::FCVTDL || kind == InsnKind::FCVTDLU {
        x
    } else if kind == InsnKind::FCVTDS {
        (s.fext->0.freg@[((spec_rs1(ir) as u64) & 0x1f) as int] & 0xffff_ffff) as u64
    } else {
        fpu_operand(s, kind, spec_rs1(ir))
    }
}

/// The request an instruction makes, or the exception it raises: the
/// 64-bit conversions need RV64, the double kinds `d`; then `f` must be
/// enabled, built and in use (`mstatus.fs` non-zero), and the rounding
/// mode valid (see `rounding_mode`). Operands an instruction does not have
/// are 0.
pub open spec fn spec_fpu_request(kind: InsnKind, s: ProcessorState) -> Result<FloatRequest, Exception> {
    let ir = s.ir;
    let ill = Err::<FloatRequest, Exception>(Exception::IllegalInsn(ir));
    if fpu_needs_x64(kind) && s.config.xlen != XLen::X64 {
        ill
    } else if fpu_needs_d(kind) && !s.privilege.spec_has_ext(3) {
        ill
    } else if !s.privilege.spec_has_ext(5) || s.fext is None || s.spec_fs() == 0 {
        ill
    } else {
        let rm = if fpu_class(kind) { Some(0u64) } else { rounding_mode(field_of(s.fext->0.fcsr, 7, 5), spec_rm(ir)) };
        match rm {
            None => ill,
            Some(m) => Ok(FloatRequest {
                kind,
                a: fpu_first(s, kind),
                b: if fpu_binary(kind) || fpu_ternary(kind) { fpu_operand(s, kind, spec_rs2(ir)) } else { 0 },
                c: if fpu_ternary(kind) { fpu_operand(s, kind, spec_rs3(ir)) } else { 0 },
                rm: m,
                rd: spec_rd(ir),
            }),
        }
    }
}

/// Where a completed operation writes: a floating-point register (with
/// its bits) or an integer register (with its value).
#[derive(Debug, Clone, Copy, PartialEq, Eq, Structural)]
pub enum FpuWrite {
    ToF { rd: InsnT, bits: FRegT },
    ToX { rd: InsnT, value: RegT },
}

/// What completing `req` with `o` writes: single results boxed into the
/// register, double results likewise; word conversions sign-extended from
/// 32 bits and cut to XLEN, long ones cut to XLEN; comparisons 1 or 0;
/// classifications the bit of the class.
pub open spec fn fpu_write(req: FloatRequest, o: FloatOutcome, s: ProcessorState) -> FpuWrite {
    let kind = req.kind;
    let flen = s.fext->0.flen;
    let m = s.config.xlen.spec_mask();
    if kind == InsnKind::FADDS || kind == InsnKind::FSUBS || kind == InsnKind::FMULS || kind == InsnKind::FDIVS || kind == InsnKind::FSQRTS || kind == InsnKind::FMINS || kind == InsnKind::FMAXS || kind == InsnKind::FMADDS || kind == InsnKind::FMSUBS || kind == InsnKind::FMNSUBS || kind == InsnKind::FMNADDS || kind == InsnKind::FCVTSW || kind == InsnKind::FCVTSWU || kind == InsnKind::FCVTSL || kind == InsnKind::FCVTSLU || kind == InsnKind::FCVTSD {
        FpuWrite::ToF { rd: req.rd, bits: flen.spec_padding(o.value as u128, FLen::F32) }
    } else if kind == InsnKind::FADDD || kind == InsnKind::FSUBD || kind == InsnKind::FMULD || kind == InsnKind::FDIVD || kind == InsnKind::FSQRTD || kind == InsnKind::FMIND || kind == InsnKind::FMAXD || kind == InsnKind::FMADDD || kind == InsnKind::FMSUBD || kind == InsnKind::FMNSUBD || kind == InsnKind::FMNADDD || kind == InsnKind::FCVTDW || kind == InsnKind::FCVTDWU || kind == InsnKind::FCVTDL || kind == InsnKind::FCVTDLU || kind == InsnKind::FCVTDS {
        FpuWrite::ToF { rd: req.rd, bits: flen.spec_padding(o.value as u128, FLen::F64) }
    } else if kind == InsnKind::FCVTWS || kind == InsnKind::FCVTWUS || kind == InsnKind::FCVTWD || kind == InsnKind::FCVTWUD {
        FpuWrite::ToX { rd: req.rd, value: sext_spec(o.value & 0xffff_ffff, 32) & m }
    } else if kind == InsnKind::FCVTLS || kind == InsnKind::FCVTLUS || kind == InsnKind::FCVTLD || kind == InsnKind::FCVTLUD {
        FpuWrite::ToX { rd: req.rd, value: o.value & m }
    } else if kind == InsnKind::FEQS || kind == InsnKind::FEQD {
        FpuWrite::ToX { rd: req.rd, value: if o.value == 1 { 1 } else { 0 } }
    } else if kind == InsnKind::FLTS || kind == InsnKind::FLTD {
        FpuWrite::ToX { rd: req.rd, value: if o.value == 0 { 1 } else { 0 } }
    } else if kind == InsnKind::FLES || kind == InsnKind::FLED {
        FpuWrite::ToX { rd: req.rd, value: if o.value == 0 || o.value == 1 { 1 } else { 0 } }
    } else {
        FpuWrite::ToX { rd: req.rd, value: (1u64 << o.value) as u64 }
    }
}

/// Whether `o` is an answer `req` can take: a class index below 10.
pub open spec fn valid_outcome(req: FloatRequest, o: FloatOutcome) -> bool {
    fpu_class(req.kind) ==> o.value < 10
}

/// Whether `s1` is `s0` after completing `req` with `o`: `fflags` set to
/// the flags (but for a classification), the result written (a
/// floating-point write marks the state dirty), and the hart at the next
/// instruction.
pub open spec fn fpu_complete_step(req: FloatRequest, o: FloatOutcome, s0: ProcessorState, s1: ProcessorState) -> bool {
    let f = s0.fext->0;
    let fcsr = if fpu_class(req.kind) { f.fcsr } else { with_field(f.fcsr, 4, 0, o.flags) };
    &&& s1.next_pc == wrap64(s0.pc + 4)
    &&& match fpu_write(req, o, s0) {
        FpuWrite::ToF { rd, bits } => {
            &&& same_but_float(s0, s1)
            &&& s1.privilege == s0.fs_dirty()
            &&& s1.fext matches Some(f1) && f1.flen == f.flen && f1.fcsr == fcsr
                && f1.freg@ == f.freg@.update((rd & 0x1f) as int, bits)
        },
        FpuWrite::ToX { rd, value } => {
            &&& s1.xreg@ == s0.xreg_written(rd, value)
            &&& s1.hartid == s0.hartid && s1.config == s0.config && s1.aext == s0.aext
            &&& s1.pc == s0.pc && s1.ir == s0.ir && s1.wfi == s0.wfi
            &&& s1.privilege == s0.privilege
            &&& s1.fext matches Some(f1) && f1.flen == f.flen && f1.fcsr == fcsr && f1.freg@ == f.freg@
        },
    }
}

/// Whether `kind` needs floating-point arithmetic (see `is_fpu_kind`).
pub fn is_fpu(kind: InsnKind) -> (r: bool)
    ensures
        r == is_fpu_kind(kind),
{
    matches!(kind, InsnKind::FADDS | InsnKind::FSUBS | InsnKind::FMULS | InsnKind::FDIVS | InsnKind::FSQRTS | InsnKind::FMINS | InsnKind::FMAXS | InsnKind::FMADDS | InsnKind::FMSUBS | InsnKind::FMNSUBS | InsnKind::FMNADDS | InsnKind::FCVTWS | InsnKind::FCVTWUS | InsnKind::FCVTLS | InsnKind::FCVTLUS | InsnKind::FCVTSW | InsnKind::FCVTSWU | InsnKind::FCVTSL | InsnKind::FCVTSLU | InsnKind::FEQS | InsnKind::FLTS | InsnKind::FLES | InsnKind::FCLASSS | InsnKind::FADDD | InsnKind::FSUBD | InsnKind::FMULD | InsnKind::FDIVD | InsnKind::FSQRTD | InsnKind::FMIND | InsnKind::FMAXD | InsnKind::FMADDD | InsnKind::FMSUBD | InsnKind::FMNSUBD | InsnKind::FMNADDD | InsnKind::FCVTWD | InsnKind::FCVTWUD | InsnKind::FCVTLD | InsnKind::FCVTLUD | InsnKind::FCVTDW | InsnKind::FCVTDWU | InsnKind::FCVTDL | InsnKind::FCVTDLU | InsnKind::FCVTSD | InsnKind::FCVTDS | InsnKind::FEQD | InsnKind::FLTD | InsnKind::FLED | InsnKind::FCLASSD)
}

/// Reads register operand `id` of `kind` (see `fpu_operand`).
fn operand(s: &ProcessorState, kind: InsnKind, id: InsnT) -> (r: u64)
    requires
        s.wf(),
        s.fext is Some,
        id < 32,
    ensures
        r == fpu_operand(*s, kind, id),
{
    let v = s.freg(id as RegT);
    let flen = match &s.fext {
        Some(f) => f.flen,
        None => FLen::F32,
    };
    if matches!(kind, InsnKind::FADDD | InsnKind::FSUBD | InsnKind::FMULD | InsnKind::FDIVD | InsnKind::FSQRTD | InsnKind::FMIND | InsnKind::FMAXD | InsnKind::FMADDD | InsnKind::FMSUBD | InsnKind::FMNSUBD | InsnKind::FMNADDD | InsnKind::FCVTWD | InsnKind::FCVTWUD | InsnKind::FCVTLD | InsnKind::FCVTLUD | InsnKind::FCVTSD | InsnKind::FEQD | InsnKind::FLTD | InsnKind::FLED | InsnKind::FCLASSD) {
        (v & 0xffff_ffff_ffff_ffff) as u64
    } else {
        let b = flen.boxed(v, FLen::F32);
        proof {
            lemma_f32_bits(flen, v);
        }
        b as u64
    }
}

/// Computes the request of `kind` (see `spec_fpu_request`).
pub fn fpu_request(s: &ProcessorState, kind: InsnKind) -> (r: Result<FloatRequest, Exception>)
    requires
        s.wf(),
        is_fpu_kind(kind),
    ensures
        r == spec_fpu_request(kind, *s),
{
    let ir = s.ir;
    if matches!(kind, InsnKind::FCVTLS | InsnKind::FCVTLUS | InsnKind::FCVTSL | InsnKind::FCVTSLU | InsnKind::FCVTLD | InsnKind::FCVTLUD | InsnKind::FCVTDL | InsnKind::FCVTDLU) && s.config.xlen != XLen::X64 {
        return Err(Exception::IllegalInsn(ir));
    }
    if matches!(kind, InsnKind::FADDD | InsnKind::FSUBD | InsnKind::FMULD | InsnKind::FDIVD | InsnKind::FSQRTD | InsnKind::FMIND | InsnKind::FMAXD | InsnKind::FMADDD | InsnKind::FMSUBD | InsnKind::FMNSUBD | InsnKind::FMNADDD | InsnKind::FCVTWD | InsnKind::FCVTWUD | InsnKind::FCVTLD | InsnKind::FCVTLUD | InsnKind::FCVTSD | InsnKind::FEQD | InsnKind::FLTD | InsnKind::FLED | InsnKind::FCLASSD | InsnKind::FCVTDW | InsnKind::FCVTDWU | InsnKind::FCVTDL | InsnKind::FCVTDLU | InsnKind::FCVTDS) && s.privilege.check_extension('d').is_err() {
        return Err(Exception::IllegalInsn(ir));
    }
    if s.privilege.check_extension('f').is_err() || s.fext.is_none() || s.privilege.m.mstatus.fs() == 0 {
        return Err(Exception::IllegalInsn(ir));
    }
    let fcsr = match &s.fext {
        Some(f) => f.fcsr,
        None => 0,
    };
    let class = matches!(kind, InsnKind::FCLASSS | InsnKind::FCLASSD);
    let frm = crate::bits::bit_range(fcsr, 7, 5);
    let field = (ir >> 12) & 7;
    let rm: u64 = if class {
        0
    } else if frm > 4 && field == 7 {
        return Err(Exception::IllegalInsn(ir));
    } else if field <= 4 {
        field as u64
    } else if frm <= 4 {
        frm
    } else {
        0
    };
    let x = s.xreg(rs1(ir));
    let r1 = rs1(ir);
    let a = if matches!(kind, InsnKind::FCVTSW | InsnKind::FCVTDW) {
        sext(x, 32)
    } else if matches!(kind, InsnKind::FCVTSWU | InsnKind::FCVTDWU) {
        x & 0xffff_ffff
    } else if matches!(kind, InsnKind::FCVTSL | InsnKind::FCVTSLU | InsnKind::FCVTDL | InsnKind::FCVTDLU) {
        x
    } else if matches!(kind, InsnKind::FCVTDS) {
        (s.freg(r1 as RegT) & 0xffff_ffff) as u64
    } else {
        operand(s, kind, r1)
    };
    let ternary = matches!(kind, InsnKind::FMADDS | InsnKind::FMSUBS | InsnKind::FMNSUBS | InsnKind::FMNADDS | InsnKind::FMADDD | InsnKind::FMSUBD | InsnKind::FMNSUBD | InsnKind::FMNADDD);
    let binary = matches!(kind, InsnKind::FADDS | InsnKind::FSUBS | InsnKind::FMULS | InsnKind::FDIVS | InsnKind::FMINS | InsnKind::FMAXS | InsnKind::FEQS | InsnKind::FLTS | InsnKind::FLES | InsnKind::FADDD | InsnKind::FSUBD | InsnKind::FMULD | InsnKind::FDIVD | InsnKind::FMIND | InsnKind::FMAXD | InsnKind::FEQD | InsnKind::FLTD | InsnKind::FLED);
    let b = if binary || ternary { operand(s, kind, rs2(ir)) } else { 0 };
    proof {
        crate::bits::lemma_and_bound_u32(ir >> 27, 0x1f);
    }
    let c = if ternary { operand(s, kind, (ir >> 27) & 0x1f) } else { 0 };
    Ok(FloatRequest { kind, a, b, c, rm, rd: rd(ir) })
}

/// A 32-bit unboxed value fits in 32 bits.
proof fn lemma_f32_bits(flen: FLen, v: u128)
    ensures
        flen.spec_boxed(v, FLen::F32) <= 0xffff_ffff,
{
    let upper = flen.spec_mask() & !FLen::F32.spec_mask();
    crate::bits::lemma_mask_values();
    assert((v & 0xffff_ffffu128) <= 0xffff_ffffu128) by (bit_vector);
}

/// Computes what completing `req` with `o` writes (see `fpu_write`).
fn fpu_write_of(s: &ProcessorState, req: FloatRequest, o: FloatOutcome) -> (r: FpuWrite)
    requires
        s.wf(),
        s.fext is Some,
        is_fpu_kind(req.kind),
        valid_outcome(req, o),
    ensures
        r == fpu_write(req, o, *s),
{
    let kind = req.kind;
    let flen = match &s.fext {
        Some(f) => f.flen,
        None => FLen::F32,
    };
    let m = s.config.xlen.mask();
    if matches!(kind, InsnKind::FADDS | InsnKind::FSUBS | InsnKind::FMULS | InsnKind::FDIVS | InsnKind::FSQRTS | InsnKind::FMINS | InsnKind::FMAXS | InsnKind::FMADDS | InsnKind::FMSUBS | InsnKind::FMNSUBS | InsnKind::FMNADDS | InsnKind::FCVTSW | InsnKind::FCVTSWU | InsnKind::FCVTSL | InsnKind::FCVTSLU | InsnKind::FCVTSD) {
        FpuWrite::ToF { rd: req.rd, bits: flen.padding(o.value as u128, FLen::F32) }
    } else if matches!(kind, InsnKind::FADDD | InsnKind::FSUBD | InsnKind::FMULD | InsnKind::FDIVD | InsnKind::FSQRTD | InsnKind::FMIND | InsnKind::FMAXD | InsnKind::FMADDD | InsnKind::FMSUBD | InsnKind::FMNSUBD | InsnKind::FMNADDD | InsnKind::FCVTDW | InsnKind::FCVTDWU | InsnKind::FCVTDL | InsnKind::FCVTDLU | InsnKind::FCVTDS) {
        FpuWrite::ToF { rd: req.rd, bits: flen.padding(o.value as u128, FLen::F64) }
    } else if matches!(kind, InsnKind::FCVTWS | InsnKind::FCVTWUS | InsnKind::FCVTWD | InsnKind::FCVTWUD) {
        FpuWrite::ToX { rd: req.rd, value: sext(o.value & 0xffff_ffff, 32) & m }
    } else if matches!(kind, InsnKind::FCVTLS | InsnKind::FCVTLUS | InsnKind::FCVTLD | InsnKind::FCVTLUD) {
        FpuWrite::ToX { rd: req.rd, value: o.value & m }
    } else if matches!(kind, InsnKind::FEQS | InsnKind::FEQD) {
        FpuWrite::ToX { rd: req.rd, value: if o.value == 1 { 1 } else { 0 } }
    } else if matches!(kind, InsnKind::FLTS | InsnKind::FLTD) {
        FpuWrite::ToX { rd: req.rd, value: if o.value == 0 { 1 } else { 0 } }
    } else if matches!(kind, InsnKind::FLES | InsnKind::FLED) {
        FpuWrite::ToX { rd: req.rd, value: if o.value == 0 || o.value == 1 { 1 } else { 0 } }
    } else {
        FpuWrite::ToX { rd: req.rd, value: 1u64 << o.value }
    }
}

/// Completes `req` with the answer `o` (see `fpu_complete_step`).
pub fn fpu_complete(s: &mut ProcessorState, req: FloatRequest, o: FloatOutcome)
    requires
        old(s).wf(),
        old(s).fext is Some,
        is_fpu_kind(req.kind),
        valid_outcome(req, o),
    ensures
        final(s).wf(),
        fpu_complete_step(req, o, *old(s), *final(s)),
{
    let w = fpu_write_of(s, req, o);
    let pc = s.pc;
    if !matches!(req.kind, InsnKind::FCLASSS | InsnKind::FCLASSD) {
        let mut f = s.fext.take().unwrap();
        let _ = f.csr_write(1, o.flags);
        s.fext = Some(f);
    }
    match w {
        FpuWrite::ToF { rd, bits } => {
            s.set_freg(rd as RegT, bits);
            proof {
                lemma_low5(rd, 0);
            }
        },
        FpuWrite::ToX { rd, value } => {
            s.set_xreg(rd, value);
        },
    }
    s.set_pc(add64(pc, 4));
}

} // verus!
