//! The floating-point instructions that only move bits: sign injection and
//! the moves between integer and floating-point registers.
use vstd::prelude::*;
use crate::global::{sext, sext_spec, InsnT, RegT, XLen};
use crate::processor::alu::wrap64;
use crate::processor::decode::InsnKind;
use crate::processor::exec::{add64, applied, Effect};
use crate::processor::exec_mem::{lemma_low5, same_but_float};
use crate::processor::extensions::{FLen, FRegT};
use crate::processor::insn::{rd, rs1, rs2, spec_rd, spec_rs1, spec_rs2};
use crate::processor::state::ProcessorState;
use crate::processor::trap::Exception;

verus! {

/// Whether `kind` is a sign injection or a move of `f` or `d`.
pub open spec fn is_fmove_kind(kind: InsnKind) -> bool {
    ||| kind == InsnKind::FSGNJS || kind == InsnKind::FSGNJNS || kind == InsnKind::FSGNJXS
    ||| kind == InsnKind::FMVXW || kind == InsnKind::FMVWX
    ||| kind == InsnKind::FSGNJD || kind == InsnKind::FSGNJND || kind == InsnKind::FSGNJXD
    ||| kind == InsnKind::FMVXD || kind == InsnKind::FMVDX
}

/// What a sign injection or move writes: a floating-point register, an
/// integer register, or the exception it raises.
#[derive(Debug, Clone, Copy, PartialEq, Eq, Structural)]
pub enum FMoveOp {
    ToF { rd: InsnT, bits: FRegT },
    ToX { rd: InsnT, value: RegT },
    Fault(Exception),
}

/// `a` with its sign bit (bit `sign`) replaced: by that of `b` (`op` 0),
/// its complement (1), or the exclusive or of both signs (2).
pub open spec fn sign_injected(a: u128, b: u128, sign: u128, op: int) -> u128 {
    let s = if op == 0 { b } else if op == 1 { !b } else { a ^ b };
    (a & (sign - 1) as u128) | (s & sign)
}

/// The effect of a sign injection or move: the 64-bit moves need RV64 and
/// the `d` forms `d`, then `f` must be enabled, built and in use
/// (`mstatus.fs` non-zero). The single-precision injections read their
/// operands NaN-boxed; the double ones their low 64 bits. `fmv.x.w`
/// sign-extends the low 32 bits of the register; `fmv.w.x` and `fmv.d.x`
/// box the integer register's low 32 or 64 bits.
pub open spec fn spec_fmove_op(kind: InsnKind, s: ProcessorState) -> FMoveOp {
    let ir = s.ir;
    let ill = FMoveOp::Fault(Exception::IllegalInsn(ir));
    let x64_form = kind == InsnKind::FMVXD || kind == InsnKind::FMVDX;
    let d_form = x64_form || kind == InsnKind::FSGNJD || kind == InsnKind::FSGNJND || kind == InsnKind::FSGNJXD;
    if x64_form && s.config.xlen != XLen::X64 {
        ill
    } else if d_form && !s.privilege.spec_has_ext(3) {
        ill
    } else if !s.privilege.spec_has_ext(5) || s.fext is None || s.spec_fs() == 0 {
        ill
    } else {
        let f = s.fext->0;
        let r1 = f.freg@[((spec_rs1(ir) as u64) & 0x1f) as int];
        let r2 = f.freg@[((spec_rs2(ir) as u64) & 0x1f) as int];
        let x1 = s.spec_xreg(spec_rs1(ir));
        let rdi = spec_rd(ir);
        let a32 = f.flen.spec_boxed(r1, FLen::F32);
        let b32 = f.flen.spec_boxed(r2, FLen::F32);
        let a64 = r1 & 0xffff_ffff_ffff_ffff;
        let b64 = r2 & 0xffff_ffff_ffff_ffff;
        let s32: u128 = 0x8000_0000;
        let s64: u128 = 0x8000_0000_0000_0000;
        match kind {
            InsnKind::FSGNJS => FMoveOp::ToF { rd: rdi, bits: f.flen.spec_padding(sign_injected(a32, b32, s32, 0), FLen::F32) },
            InsnKind::FSGNJNS => FMoveOp::ToF { rd: rdi, bits: f.flen.spec_padding(sign_injected(a32, b32, s32, 1), FLen::F32) },
            InsnKind::FSGNJXS => FMoveOp::ToF { rd: rdi, bits: f.flen.spec_padding(sign_injected(a32, b32, s32, 2), FLen::F32) },
            InsnKind::FSGNJD => FMoveOp::ToF { rd: rdi, bits: f.flen.spec_padding(sign_injected(a64, b64, s64, 0), FLen::F64) },
            InsnKind::FSGNJND => FMoveOp::ToF { rd: rdi, bits: f.flen.spec_padding(sign_injected(a64, b64, s64, 1), FLen::F64) },
            InsnKind::FSGNJXD => FMoveOp::ToF { rd: rdi, bits: f.flen.spec_padding(sign_injected(a64, b64, s64, 2), FLen::F64) },
            InsnKind::FMVXW => FMoveOp::ToX { rd: rdi, value: sext_spec((r1 & 0xffff_ffff) as u64, 32) & s.config.xlen.spec_mask() },
            InsnKind::FMVWX => FMoveOp::ToF { rd: rdi, bits: f.flen.spec_padding((x1 & 0xffff_ffff) as u128, FLen::F32) },
            InsnKind::FMVXD => FMoveOp::ToX { rd: rdi, value: (a64 as u64) & s.config.xlen.spec_mask() },
            _ => FMoveOp::ToF { rd: rdi, bits: f.flen.spec_padding(x1 as u128, FLen::F64) },
        }
    }
}

/// Whether the step performs `op`: a floating-point register write marks
/// the state dirty; both writes continue at the next instruction.
pub open spec fn fmove_step(op: FMoveOp, s0: ProcessorState, s1: ProcessorState, r: Result<(), Exception>) -> bool {
    match op {
        FMoveOp::Fault(e) => r == Err::<(), Exception>(e) && s1 == s0,
        FMoveOp::ToF { rd, bits } => {
            let f = s0.fext->0;
            &&& r is Ok
            &&& same_but_float(s0, s1)
            &&& s1.privilege == s0.fs_dirty()
            &&& s1.fext matches Some(f1) && f1.flen == f.flen && f1.fcsr == f.fcsr
                && f1.freg@ == f.freg@.update((rd & 0x1f) as int, bits)
            &&& s1.next_pc == wrap64(s0.pc + 4)
        },
        FMoveOp::ToX { rd, value } => applied(s0, s1, Effect::Retire { rd, value, next_pc: wrap64(s0.pc + 4) }, r),
    }
}

/// Sign injection on register values (see `sign_injected`).
fn inject(a: u128, b: u128, sign: u128, op: u8) -> (r: u128)
    requires
        sign >= 1,
    ensures
        r == sign_injected(a, b, sign, op as int),
{
    let s = if op == 0 { b } else if op == 1 { !b } else { a ^ b };
    (a & (sign - 1)) | (s & sign)
}

/// Computes the effect of a sign injection or move.
fn fmove_op_of(kind: InsnKind, s: &ProcessorState) -> (r: FMoveOp)
    requires
        s.wf(),
        is_fmove_kind(kind),
    ensures
        r == spec_fmove_op(kind, *s),
{
    let ir = s.ir;
    let x64_form = matches!(kind, InsnKind::FMVXD | InsnKind::FMVDX);
    let d_form = x64_form || matches!(kind, InsnKind::FSGNJD | InsnKind::FSGNJND | InsnKind::FSGNJXD);
    if x64_form && s.config.xlen != XLen::X64 {
        return FMoveOp::Fault(Exception::IllegalInsn(ir));
    }
    if d_form && s.privilege.check_extension('d').is_err() {
        return FMoveOp::Fault(Exception::IllegalInsn(ir));
    }
    if s.privilege.check_extension('f').is_err() || s.fext.is_none() || s.privilege.m.mstatus.fs() == 0 {
        return FMoveOp::Fault(Exception::IllegalInsn(ir));
    }
    let flen = match &s.fext {
        Some(f) => f.flen,
        None => FLen::F32,
    };
    let r1 = s.freg(rs1(ir) as RegT);
    let r2 = s.freg(rs2(ir) as RegT);
    let x1 = s.xreg(rs1(ir));
    let rdi = rd(ir);
    let m = s.config.xlen.mask();
    let a32 = flen.boxed(r1, FLen::F32);
    let b32 = flen.boxed(r2, FLen::F32);
    let a64 = r1 & 0xffff_ffff_ffff_ffff;
    let b64 = r2 & 0xffff_ffff_ffff_ffff;
    match kind {
        InsnKind::FSGNJS => FMoveOp::ToF { rd: rdi, bits: flen.padding(inject(a32, b32, 0x8000_0000, 0), FLen::F32) },
        InsnKind::FSGNJNS => FMoveOp::ToF { rd: rdi, bits: flen.padding(inject(a32, b32, 0x8000_0000, 1), FLen::F32) },
        InsnKind::FSGNJXS => FMoveOp::ToF { rd: rdi, bits: flen.padding(inject(a32, b32, 0x8000_0000, 2), FLen::F32) },
        InsnKind::FSGNJD => FMoveOp::ToF { rd: rdi, bits: flen.padding(inject(a64, b64, 0x8000_0000_0000_0000, 0), FLen::F64) },
        InsnKind::FSGNJND => FMoveOp::ToF { rd: rdi, bits: flen.padding(inject(a64, b64, 0x8000_0000_0000_0000, 1), FLen::F64) },
        InsnKind::FSGNJXD => FMoveOp::ToF { rd: rdi, bits: flen.padding(inject(a64, b64, 0x8000_0000_0000_0000, 2), FLen::F64) },
        InsnKind::FMVXW => FMoveOp::ToX { rd: rdi, value: sext((r1 & 0xffff_ffff) as u64, 32) & m },
        InsnKind::FMVWX => FMoveOp::ToF { rd: rdi, bits: flen.padding((x1 & 0xffff_ffff) as u128, FLen::F32) },
        InsnKind::FMVXD => FMoveOp::ToX { rd: rdi, value: (a64 as u64) & m },
        _ => FMoveOp::ToF { rd: rdi, bits: flen.padding(x1 as u128, FLen::F64) },
    }
}

/// Executes a sign injection or move (see `spec_fmove_op` and
/// `fmove_step`).
pub fn exec_fmove(s: &mut ProcessorState, kind: InsnKind) -> (r: Result<(), Exception>)
    requires
        old(s).wf(),
        is_fmove_kind(kind),
    ensures
        final(s).wf(),
        fmove_step(spec_fmove_op(kind, *old(s)), *old(s), *final(s), r),
{
    let op = fmove_op_of(kind, s);
    let pc = s.pc;
    match op {
        FMoveOp::Fault(e) => Err(e),
        FMoveOp::ToF { rd, bits } => {
            s.set_freg(rd as RegT, bits);
            s.set_pc(add64(pc, 4));
            proof {
                lemma_low5(rd, 0);
            }
            Ok(())
        },
        FMoveOp::ToX { rd, value } => {
            s.set_xreg(rd, value);
            s.set_pc(add64(pc, 4));
            Ok(())
        },
    }
}

} // verus!
