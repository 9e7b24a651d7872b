//! Execution of the integer loads, stores and atomic memory operations of
//! the `i`, `a` and `c` extensions.
use vstd::prelude::*;
use crate::global::{sext, sext_spec, InsnT, RegT, XLen};
use crate::processor::alu::wrap64;
use crate::processor::bus::{AmoOp, Bus, Space};
use crate::processor::decode::InsnKind;
use crate::processor::exec::{add64, advance, applied, has_c, illegal, write_rd, Effect};
use crate::processor::insn::{rd, rs1, rs2, imm_i, imm_s, c_rdp, c_rs1p, c_rs2, spec_rd, spec_rs1, spec_rs2, spec_imm_i,
    spec_imm_s, spec_c_rdp, spec_c_rs1p, spec_c_rs2};
use crate::processor::load_store::{access_frame, acquire, acquire_step, amo, amo_step, check_lock, check_lock_step, load, release, spec_load, store, store_step, translatable};
use crate::processor::bus::not_held_by;
use crate::processor::extensions::{ExtensionA, ExtensionF, FLen, LCReservation};
use crate::processor::exec::same_but_regs;
use crate::processor::mmu::{Mmu, MmuOpt};
use crate::processor::state::ProcessorState;
use crate::processor::trap::Exception;

verus! {

/// How a loaded value is put in a register.
#[derive(Debug, Clone, Copy, PartialEq, Eq, Structural)]
pub enum LoadExt {
    /// Sign-extended from 8, 16 or 32 bits and cut to XLEN.
    Sext(u64),
    /// As loaded.
    Zero,
    /// Cut to XLEN.
    Mask,
}

/// The memory access an instruction makes, or the exception it raises
/// before accessing memory.
#[derive(Debug, Clone, Copy, PartialEq, Eq, Structural)]
pub enum MemOp {
    Load { addr: u64, n: u64, rd: InsnT, ext: LoadExt, inc: u64 },
    Store { addr: u64, n: u64, data: u64, inc: u64 },
    Amo { addr: u64, n: u64, op: AmoOp, src: u64, rd: InsnT },
    Fault(Exception),
}

/// The register value of loaded data `d`.
pub open spec fn load_value(ext: LoadExt, xlen: XLen, d: u64) -> u64 {
    match ext {
        LoadExt::Sext(bits) => sext_spec(d, bits as nat) & xlen.spec_mask(),
        LoadExt::Zero => d,
        LoadExt::Mask => d & xlen.spec_mask(),
    }
}

/// The offset of `c.lw`/`c.sw`: bits 12..10, 6, 5 as offset bits 5..3,
/// 2, 6.
pub open spec fn c_lw_offset(ir: InsnT) -> u64 {
    let x = ir as u64;
    (((x >> 10) & 7) << 3) | (((x >> 6) & 1) << 2) | (((x >> 5) & 1) << 6)
}

/// The offset of `c.ld`/`c.sd`: bits 12..10, 6..5 as offset bits 5..3,
/// 7..6.
pub open spec fn c_ld_offset(ir: InsnT) -> u64 {
    let x = ir as u64;
    (((x >> 10) & 7) << 3) | (((x >> 5) & 3) << 6)
}

/// The offset of `c.lwsp`: bits 12, 6..4, 3..2 as offset bits 5, 4..2,
/// 7..6.
pub open spec fn c_lwsp_offset(ir: InsnT) -> u64 {
    let x = ir as u64;
    (((x >> 12) & 1) << 5) | (((x >> 4) & 7) << 2) | (((x >> 2) & 3) << 6)
}

/// The offset of `c.ldsp`: bits 12, 6..5, 4..2 as offset bits 5, 4..3,
/// 8..6.
pub open spec fn c_ldsp_offset(ir: InsnT) -> u64 {
    let x = ir as u64;
    (((x >> 12) & 1) << 5) | (((x >> 5) & 3) << 3) | (((x >> 2) & 7) << 6)
}

/// The offset of `c.swsp`: bits 12..9, 8..7 as offset bits 5..2, 7..6.
pub open spec fn c_swsp_offset(ir: InsnT) -> u64 {
    let x = ir as u64;
    (((x >> 9) & 0xf) << 2) | (((x >> 7) & 3) << 6)
}

/// The offset of `c.sdsp`: bits 12..10, 9..7 as offset bits 5..3, 8..6.
pub open spec fn c_sdsp_offset(ir: InsnT) -> u64 {
    let x = ir as u64;
    (((x >> 10) & 7) << 3) | (((x >> 7) & 7) << 6)
}

/// The atomic operation of an AMO instruction.
pub open spec fn amo_op_of(kind: InsnKind) -> AmoOp {
    match kind {
        InsnKind::AMOSWAPW | InsnKind::AMOSWAPD => AmoOp::Swap,
        InsnKind::AMOADDW | InsnKind::AMOADDD => AmoOp::Add,
        InsnKind::AMOANDW | InsnKind::AMOADND => AmoOp::And,
        InsnKind::AMOORW | InsnKind::AMOORD => AmoOp::Or,
        InsnKind::AMOXORW | InsnKind::AMOXORD => AmoOp::Xor,
        InsnKind::AMOMAXW | InsnKind::AMOMAXD => AmoOp::Max,
        InsnKind::AMOMINW | InsnKind::AMOMIND => AmoOp::Min,
        InsnKind::AMOMAXUW | InsnKind::AMOMAXUD => AmoOp::MaxU,
        _ => AmoOp::MinU,
    }
}

/// Whether `kind` is a 32-bit AMO.
pub open spec fn is_amo_w(kind: InsnKind) -> bool {
    kind == InsnKind::AMOSWAPW || kind == InsnKind::AMOADDW || kind == InsnKind::AMOANDW || kind == InsnKind::AMOORW
        || kind == InsnKind::AMOXORW || kind == InsnKind::AMOMAXW || kind == InsnKind::AMOMINW
        || kind == InsnKind::AMOMAXUW || kind == InsnKind::AMOMINUW
}

/// Whether `kind` is a 64-bit AMO.
pub open spec fn is_amo_d(kind: InsnKind) -> bool {
    kind == InsnKind::AMOSWAPD || kind == InsnKind::AMOADDD || kind == InsnKind::AMOADND || kind == InsnKind::AMOORD
        || kind == InsnKind::AMOXORD || kind == InsnKind::AMOMAXD || kind == InsnKind::AMOMIND
        || kind == InsnKind::AMOMAXUD || kind == InsnKind::AMOMINUD
}

/// Whether `kind` is a load or store of `i`.
pub open spec fn is_base_mem_kind(kind: InsnKind) -> bool {
    kind == InsnKind::LB || kind == InsnKind::LH || kind == InsnKind::LW || kind == InsnKind::LD
        || kind == InsnKind::LBU || kind == InsnKind::LHU || kind == InsnKind::LWU || kind == InsnKind::SB
        || kind == InsnKind::SH || kind == InsnKind::SW || kind == InsnKind::SD
}

/// Whether `kind` is an integer load or store of `c` (on RV32 the kinds
/// shared with floating-point forms are not).
pub open spec fn is_c_mem_kind(kind: InsnKind, xlen: XLen) -> bool {
    kind == InsnKind::CLW || kind == InsnKind::CLWSP || kind == InsnKind::CSW || kind == InsnKind::CSWSP
        || (xlen == XLen::X64 && (kind == InsnKind::CLDFLW || kind == InsnKind::CLDSPCFLWSP
            || kind == InsnKind::CSDFSW || kind == InsnKind::CSDSPFSWSP))
}

/// Whether `kind` is executed by `exec_mem`.
pub open spec fn is_mem_kind(kind: InsnKind, xlen: XLen) -> bool {
    is_base_mem_kind(kind) || is_c_mem_kind(kind, xlen) || is_amo_w(kind) || is_amo_d(kind)
}

/// The memory access of a load or store of `i`.
pub open spec fn base_mem_op(kind: InsnKind, s: ProcessorState) -> MemOp {
    let ir = s.ir;
    let base = s.spec_xreg(spec_rs1(ir));
    let la = wrap64(base + sext_spec(spec_imm_i(ir) as u64, 12));
    let sa = wrap64(base + sext_spec(spec_imm_s(ir) as u64, 12));
    let rd = spec_rd(ir);
    let data = s.spec_xreg(spec_rs2(ir));
    let x64 = s.config.xlen == XLen::X64;
    match kind {
        InsnKind::LB => MemOp::Load { addr: la, n: 1, rd, ext: LoadExt::Sext(8), inc: 4 },
        InsnKind::LH => MemOp::Load { addr: la, n: 2, rd, ext: LoadExt::Sext(16), inc: 4 },
        InsnKind::LW => MemOp::Load { addr: la, n: 4, rd, ext: LoadExt::Sext(32), inc: 4 },
        InsnKind::LBU => MemOp::Load { addr: la, n: 1, rd, ext: LoadExt::Zero, inc: 4 },
        InsnKind::LHU => MemOp::Load { addr: la, n: 2, rd, ext: LoadExt::Zero, inc: 4 },
        InsnKind::LWU => if !x64 { MemOp::Fault(Exception::IllegalInsn(ir)) } else {
            MemOp::Load { addr: la, n: 4, rd, ext: LoadExt::Zero, inc: 4 } },
        InsnKind::LD => if !x64 { MemOp::Fault(Exception::IllegalInsn(ir)) } else {
            MemOp::Load { addr: la, n: 8, rd, ext: LoadExt::Zero, inc: 4 } },
        InsnKind::SB => MemOp::Store { addr: sa, n: 1, data, inc: 4 },
        InsnKind::SH => MemOp::Store { addr: sa, n: 2, data, inc: 4 },
        InsnKind::SW => MemOp::Store { addr: sa, n: 4, data, inc: 4 },
        _ => if !x64 { MemOp::Fault(Exception::IllegalInsn(ir)) } else { MemOp::Store { addr: sa, n: 8, data, inc: 4 } },
    }
}

/// The memory access of an integer load or store of `c`.
pub open spec fn c_mem_op(kind: InsnKind, s: ProcessorState) -> MemOp {
    let ir = s.ir;
    let rs1p = spec_c_rs1p(ir);
    let rdp = spec_c_rdp(ir);
    let rd = spec_rd(ir);
    let sp = s.spec_xreg(2);
    if !has_c(s) {
        MemOp::Fault(Exception::IllegalInsn(ir))
    } else {
        match kind {
            InsnKind::CLW => MemOp::Load { addr: wrap64(s.spec_xreg(rs1p) + c_lw_offset(ir)), n: 4, rd: rdp, ext: LoadExt::Sext(32), inc: 2 },
            InsnKind::CLDFLW => MemOp::Load { addr: wrap64(s.spec_xreg(rs1p) + c_ld_offset(ir)), n: 8, rd: rdp, ext: LoadExt::Mask, inc: 2 },
            InsnKind::CLWSP => if rd == 0 { MemOp::Fault(Exception::IllegalInsn(ir)) } else {
                MemOp::Load { addr: wrap64(sp + c_lwsp_offset(ir)), n: 4, rd, ext: LoadExt::Sext(32), inc: 2 } },
            InsnKind::CLDSPCFLWSP => if rd == 0 { MemOp::Fault(Exception::IllegalInsn(ir)) } else {
                MemOp::Load { addr: wrap64(sp + c_ldsp_offset(ir)), n: 8, rd, ext: LoadExt::Mask, inc: 2 } },
            InsnKind::CSW => MemOp::Store { addr: wrap64(s.spec_xreg(rs1p) + c_lw_offset(ir)), n: 4, data: s.spec_xreg(rdp), inc: 2 },
            InsnKind::CSDFSW => MemOp::Store { addr: wrap64(s.spec_xreg(rs1p) + c_ld_offset(ir)), n: 8, data: s.spec_xreg(rdp), inc: 2 },
            InsnKind::CSWSP => MemOp::Store { addr: wrap64(sp + c_swsp_offset(ir)), n: 4, data: s.spec_xreg(spec_c_rs2(ir)), inc: 2 },
            _ => MemOp::Store { addr: wrap64(sp + c_sdsp_offset(ir)), n: 8, data: s.spec_xreg(spec_c_rs2(ir)), inc: 2 },
        }
    }
}

/// The access of an AMO: `a` must be enabled (and the hart 64 bits wide
/// for the 64-bit forms, checked first).
pub open spec fn amo_mem_op(kind: InsnKind, s: ProcessorState) -> MemOp {
    let ir = s.ir;
    let n: u64 = if is_amo_w(kind) { 4 } else { 8 };
    if is_amo_d(kind) && s.config.xlen != XLen::X64 {
        MemOp::Fault(Exception::IllegalInsn(ir))
    } else if !s.privilege.spec_has_ext(0) {
        MemOp::Fault(Exception::IllegalInsn(ir))
    } else {
        MemOp::Amo { addr: s.spec_xreg(spec_rs1(ir)), n, op: amo_op_of(kind), src: s.spec_xreg(spec_rs2(ir)), rd: spec_rd(ir) }
    }
}

/// The memory access of `kind` (one of `is_mem_kind`).
pub open spec fn spec_mem_op(kind: InsnKind, s: ProcessorState) -> MemOp {
    if is_base_mem_kind(kind) {
        base_mem_op(kind, s)
    } else if is_amo_w(kind) || is_amo_d(kind) {
        amo_mem_op(kind, s)
    } else {
        c_mem_op(kind, s)
    }
}

/// The register value an AMO of `n` bytes writes for the value read.
pub open spec fn amo_value(n: u64, xlen: XLen, d: u64) -> u64 {
    if n == 4 { sext_spec(d, 32) & xlen.spec_mask() } else { d & xlen.spec_mask() }
}

/// Whether the step from `(s0, m0, b0)` to `(s1, m1, b1)` with result `r`
/// performs the memory access `op`, then retires or raises.
pub open spec fn mem_step<S: Space>(
    op: MemOp, s0: ProcessorState, s1: ProcessorState, m0: Mmu, m1: Mmu, b0: Bus<S>, b1: Bus<S>, r: Result<(), Exception>,
) -> bool {
    match op {
        MemOp::Fault(e) => applied(s0, s1, Effect::Raise(e), r) && m1 == m0 && b1 == b0,
        MemOp::Load { addr, n, rd, ext, inc } => {
            &&& access_frame(m0, m1, &b0, &b1, s0, addr, n, MmuOpt::Load)
            &&& match spec_load(m0, &b0, &b1, s0, addr, n) {
                Ok(d) => applied(s0, s1, write_rd(s0, rd, load_value(ext, s0.config.xlen, d), inc), r),
                Err(e) => applied(s0, s1, Effect::Raise(e), r),
            }
        },
        MemOp::Store { addr, n, data, inc } => exists|sr: Result<(), Exception>| {
            &&& #[trigger] store_step(m0, m1, &b0, &b1, s0, addr, n, data, sr)
            &&& match sr {
                Ok(_) => applied(s0, s1, advance(s0, inc), r),
                Err(e) => applied(s0, s1, Effect::Raise(e), r),
            }
        },
        MemOp::Amo { addr, n, op, src, rd } => exists|ar: Result<u64, Exception>| {
            &&& #[trigger] amo_step(m0, m1, &b0, &b1, s0, addr, n, op, src, ar)
            &&& match ar {
                Ok(d) => applied(s0, s1, write_rd(s0, rd, amo_value(n, s0.config.xlen, d), 4), r),
                Err(e) => applied(s0, s1, Effect::Raise(e), r),
            }
        },
    }
}

/// Computes the memory access of `kind` (see `spec_mem_op`).
fn mem_op_of(kind: InsnKind, s: &ProcessorState) -> (r: MemOp)
    requires
        s.wf(),
        is_mem_kind(kind, s.config.xlen),
    ensures
        r == spec_mem_op(kind, *s),
{
    let ir = s.ir;
    let x64 = s.config.xlen == XLen::X64;
    if matches!(kind, InsnKind::LB | InsnKind::LH | InsnKind::LW | InsnKind::LD | InsnKind::LBU | InsnKind::LHU
        | InsnKind::LWU | InsnKind::SB | InsnKind::SH | InsnKind::SW | InsnKind::SD) {
        let base = s.xreg(rs1(ir));
        let la = add64(base, sext(imm_i(ir) as u64, 12));
        let sa = add64(base, sext(imm_s(ir) as u64, 12));
        let rdi = rd(ir);
        let data = s.xreg(rs2(ir));
        match kind {
            InsnKind::LB => MemOp::Load { addr: la, n: 1, rd: rdi, ext: LoadExt::Sext(8), inc: 4 },
            InsnKind::LH => MemOp::Load { addr: la, n: 2, rd: rdi, ext: LoadExt::Sext(16), inc: 4 },
            InsnKind::LW => MemOp::Load { addr: la, n: 4, rd: rdi, ext: LoadExt::Sext(32), inc: 4 },
            InsnKind::LBU => MemOp::Load { addr: la, n: 1, rd: rdi, ext: LoadExt::Zero, inc: 4 },
            InsnKind::LHU => MemOp::Load { addr: la, n: 2, rd: rdi, ext: LoadExt::Zero, inc: 4 },
            InsnKind::LWU => if !x64 { MemOp::Fault(Exception::IllegalInsn(ir)) } else {
                MemOp::Load { addr: la, n: 4, rd: rdi, ext: LoadExt::Zero, inc: 4 } },
            InsnKind::LD => if !x64 { MemOp::Fault(Exception::IllegalInsn(ir)) } else {
                MemOp::Load { addr: la, n: 8, rd: rdi, ext: LoadExt::Zero, inc: 4 } },
            InsnKind::SB => MemOp::Store { addr: sa, n: 1, data, inc: 4 },
            InsnKind::SH => MemOp::Store { addr: sa, n: 2, data, inc: 4 },
            InsnKind::SW => MemOp::Store { addr: sa, n: 4, data, inc: 4 },
            _ => if !x64 { MemOp::Fault(Exception::IllegalInsn(ir)) } else { MemOp::Store { addr: sa, n: 8, data, inc: 4 } },
        }
    } else if matches!(kind, InsnKind::AMOSWAPW | InsnKind::AMOADDW | InsnKind::AMOANDW | InsnKind::AMOORW
        | InsnKind::AMOXORW | InsnKind::AMOMAXW | InsnKind::AMOMINW | InsnKind::AMOMAXUW | InsnKind::AMOMINUW
        | InsnKind::AMOSWAPD | InsnKind::AMOADDD | InsnKind::AMOADND | InsnKind::AMOORD | InsnKind::AMOXORD
        | InsnKind::AMOMAXD | InsnKind::AMOMIND | InsnKind::AMOMAXUD | InsnKind::AMOMINUD) {
        let is_w = matches!(kind, InsnKind::AMOSWAPW | InsnKind::AMOADDW | InsnKind::AMOANDW | InsnKind::AMOORW
            | InsnKind::AMOXORW | InsnKind::AMOMAXW | InsnKind::AMOMINW | InsnKind::AMOMAXUW | InsnKind::AMOMINUW);
        if !is_w && !x64 {
            return MemOp::Fault(Exception::IllegalInsn(ir));
        }
        if s.privilege.check_extension('a').is_err() {
            return MemOp::Fault(Exception::IllegalInsn(ir));
        }
        let op = match kind {
            InsnKind::AMOSWAPW | InsnKind::AMOSWAPD => AmoOp::Swap,
            InsnKind::AMOADDW | InsnKind::AMOADDD => AmoOp::Add,
            InsnKind::AMOANDW | InsnKind::AMOADND => AmoOp::And,
            InsnKind::AMOORW | InsnKind::AMOORD => AmoOp::Or,
            InsnKind::AMOXORW | InsnKind::AMOXORD => AmoOp::Xor,
            InsnKind::AMOMAXW | InsnKind::AMOMAXD => AmoOp::Max,
            InsnKind::AMOMINW | InsnKind::AMOMIND => AmoOp::Min,
            InsnKind::AMOMAXUW | InsnKind::AMOMAXUD => AmoOp::MaxU,
            _ => AmoOp::MinU,
        };
        MemOp::Amo { addr: s.xreg(rs1(ir)), n: if is_w { 4 } else { 8 }, op, src: s.xreg(rs2(ir)), rd: rd(ir) }
    } else {
        if s.privilege.check_extension('c').is_err() {
            return MemOp::Fault(Exception::IllegalInsn(ir));
        }
        let x = ir as u64;
        let rs1p = c_rs1p(ir);
        let rdp = c_rdp(ir);
        let rdi = rd(ir);
        match kind {
            InsnKind::CLW => MemOp::Load { addr: add64(s.xreg(rs1p), (((x >> 10) & 7) << 3) | (((x >> 6) & 1) << 2)
                | (((x >> 5) & 1) << 6)), n: 4, rd: rdp, ext: LoadExt::Sext(32), inc: 2 },
            InsnKind::CLDFLW => MemOp::Load { addr: add64(s.xreg(rs1p), (((x >> 10) & 7) << 3) | (((x >> 5) & 3) << 6)),
                n: 8, rd: rdp, ext: LoadExt::Mask, inc: 2 },
            InsnKind::CLWSP => if rdi == 0 { MemOp::Fault(Exception::IllegalInsn(ir)) } else {
                MemOp::Load { addr: add64(s.xreg(2), (((x >> 12) & 1) << 5) | (((x >> 4) & 7) << 2)
                    | (((x >> 2) & 3) << 6)), n: 4, rd: rdi, ext: LoadExt::Sext(32), inc: 2 } },
            InsnKind::CLDSPCFLWSP => if rdi == 0 { MemOp::Fault(Exception::IllegalInsn(ir)) } else {
                MemOp::Load { addr: add64(s.xreg(2), (((x >> 12) & 1) << 5) | (((x >> 5) & 3) << 3)
                    | (((x >> 2) & 7) << 6)), n: 8, rd: rdi, ext: LoadExt::Mask, inc: 2 } },
            InsnKind::CSW => MemOp::Store { addr: add64(s.xreg(rs1p), (((x >> 10) & 7) << 3) | (((x >> 6) & 1) << 2)
                | (((x >> 5) & 1) << 6)), n: 4, data: s.xreg(rdp), inc: 2 },
            InsnKind::CSDFSW => MemOp::Store { addr: add64(s.xreg(rs1p), (((x >> 10) & 7) << 3) | (((x >> 5) & 3) << 6)),
                n: 8, data: s.xreg(rdp), inc: 2 },
            InsnKind::CSWSP => MemOp::Store { addr: add64(s.xreg(2), (((x >> 9) & 0xf) << 2) | (((x >> 7) & 3) << 6)),
                n: 4, data: s.xreg(c_rs2(ir)), inc: 2 },
            _ => MemOp::Store { addr: add64(s.xreg(2), (((x >> 10) & 7) << 3) | (((x >> 7) & 7) << 6)), n: 8,
                data: s.xreg(c_rs2(ir)), inc: 2 },
        }
    }
}

/// Executes a load, store or AMO (see `spec_mem_op` and `mem_step`).
pub fn exec_mem<S: Space>(s: &mut ProcessorState, mmu: &mut Mmu, bus: &mut Bus<S>, kind: InsnKind) -> (r: Result<(), Exception>)
    requires
        old(s).wf(),
        old(mmu).wf(),
        old(bus).wf(),
        is_mem_kind(kind, old(s).config.xlen),
        translatable(old(s).privilege, MmuOpt::Load),
        translatable(old(s).privilege, MmuOpt::Store),
    ensures
        final(s).wf(),
        final(mmu).wf(),
        final(bus).wf(),
        mem_step(spec_mem_op(kind, *old(s)), *old(s), *final(s), *old(mmu), *final(mmu), *old(bus), *final(bus), r),
{
    let op = mem_op_of(kind, s);
    let m = s.config.xlen.mask();
    let pc = s.pc;
    match op {
        MemOp::Fault(e) => {
            assert(applied(*old(s), *s, Effect::Raise(e), Err::<(), Exception>(e)));
            assert(*mmu == *old(mmu));
            assert(*bus == *old(bus));
            assert(mem_step(spec_mem_op(kind, *old(s)), *old(s), *s, *old(mmu), *mmu, *old(bus), *bus, Err::<(), Exception>(e)));
            Err(e)
        },
        MemOp::Load { addr, n, rd, ext, inc } => {
            let d = match load(s, mmu, bus, addr, n) {
                Ok(d) => d,
                Err(e) => return Err(e),
            };
            let v = match ext {
                LoadExt::Sext(bits) => {
                    assert(bits >= 1);
                    sext(d, bits as usize) & m
                },
                LoadExt::Zero => d,
                LoadExt::Mask => d & m,
            };
            s.set_xreg(rd, v);
            s.set_pc(add64(pc, inc));
            Ok(())
        },
        MemOp::Store { addr, n, data, inc } => {
            let sr = store(s, mmu, bus, addr, n, data);
            assert(store_step(*old(mmu), *mmu, old(bus), bus, *old(s), addr, n, data, sr));
            match sr {
                Ok(_) => {
                    s.set_pc(add64(pc, inc));
                    proof { crate::bits::lemma_and_bound_u32(0, 0x1f); }
                    Ok(())
                },
                Err(e) => {
                    assert(applied(*old(s), *s, Effect::Raise(e), Err::<(), Exception>(e)));
                    Err(e)
                },
            }
        },
        MemOp::Amo { addr, n, op, src, rd } => {
            let ar = amo(s, mmu, bus, addr, n, op, src);
            assert(amo_step(*old(mmu), *mmu, old(bus), bus, *old(s), addr, n, op, src, ar));
            match ar {
                Ok(d) => {
                    let v = if n == 4 { sext(d, 32) & m } else { d & m };
                    s.set_xreg(rd, v);
                    s.set_pc(add64(pc, 4));
                    Ok(())
                },
                Err(e) => Err(e),
            }
        },
    }
}

/// The exception `lr`/`sc` raise before touching memory: the 64-bit forms
/// need RV64, and `a` must be enabled and built.
pub open spec fn lrsc_fault(kind: InsnKind, s: ProcessorState) -> Option<Exception> {
    if (kind == InsnKind::LRD || kind == InsnKind::SCD) && s.config.xlen != XLen::X64 {
        Some(Exception::IllegalInsn(s.ir))
    } else if !s.privilege.spec_has_ext(0) || s.aext is None {
        Some(Exception::IllegalInsn(s.ir))
    } else {
        None
    }
}

/// Whether `new` is `old` with only its reservation, registers and next
/// pc changed.
pub open spec fn same_but_res(old: ProcessorState, new: ProcessorState) -> bool {
    &&& new.hartid == old.hartid && new.config == old.config && new.privilege == old.privilege
    &&& new.fext == old.fext && new.pc == old.pc && new.ir == old.ir && new.wfi == old.wfi
    &&& new.aext is Some
}

/// Whether `(s1, m1, b1, r)` is what `lr.w`/`lr.d` (`n` bytes) gives from
/// `(s0, m0, b0)` once its checks passed: the hart's reservation is
/// dropped and its reservations released, the bytes are reserved, then
/// loaded; the loaded value goes to `rd` and, when the bytes were
/// reserved, the reservation records them and the retired count.
pub open spec fn lr_step<S: Space>(
    n: u64, s0: ProcessorState, s1: ProcessorState, m0: Mmu, m1: Mmu, b0: Bus<S>, b1: Bus<S>, r: Result<(), Exception>,
) -> bool {
    let addr = s0.spec_xreg(spec_rs1(s0.ir));
    let res0 = s0.aext->0.lc_res;
    let cleared = LCReservation { valid: false, ..res0 };
    exists|b_rel: Bus<S>, m_a: Mmu, b_a: Bus<S>, acq: Result<bool, Exception>| {
        &&& b_rel.space == b0.space
        &&& b_rel.lock_table@ == b0.lock_table@.filter(not_held_by(s0.hartid))
        &&& #[trigger] acquire_step(m0, m_a, &b_rel, &b_a, s0, addr, n, acq)
        &&& same_but_res(s0, s1)
        &&& match acq {
            Err(e) => r == Err::<(), Exception>(e) && m1 == m_a && b1 == b_a && s1.aext == Some(ExtensionA { lc_res: cleared })
                && s1.xreg@ == s0.xreg@ && s1.next_pc == s0.next_pc,
            Ok(ok) => {
                &&& access_frame(m_a, m1, &b_a, &b1, s0, addr, n, MmuOpt::Load)
                &&& match spec_load(m_a, &b_a, &b1, s0, addr, n) {
                    Err(e) => r == Err::<(), Exception>(e) && s1.aext == Some(ExtensionA { lc_res: cleared })
                        && s1.xreg@ == s0.xreg@ && s1.next_pc == s0.next_pc,
                    Ok(d) => {
                        &&& r is Ok
                        &&& s1.xreg@ == s0.xreg_written(spec_rd(s0.ir), if n == 4 {
                            sext_spec(d, 32) & s0.config.xlen.spec_mask() } else { d & s0.config.xlen.spec_mask() })
                        &&& s1.next_pc == wrap64(s0.pc + 4)
                        &&& s1.aext == Some(ExtensionA { lc_res: if ok {
                            LCReservation { valid: true, addr, len: n, timestamp: s0.privilege.m.instret } } else { cleared } })
                    },
                }
            },
        }
    }
}

/// Executes `lr.w`/`lr.d` (see `lrsc_fault` and `lr_step`).
pub fn exec_lr<S: Space>(s: &mut ProcessorState, mmu: &mut Mmu, bus: &mut Bus<S>, kind: InsnKind) -> (r: Result<(), Exception>)
    requires
        old(s).wf(),
        old(mmu).wf(),
        old(bus).wf(),
        kind == InsnKind::LRW || kind == InsnKind::LRD,
        translatable(old(s).privilege, MmuOpt::Load),
    ensures
        final(s).wf(),
        final(mmu).wf(),
        final(bus).wf(),
        match lrsc_fault(kind, *old(s)) {
            Some(e) => r == Err::<(), Exception>(e) && *final(s) == *old(s) && *final(mmu) == *old(mmu) && *final(bus) == *old(bus),
            None => lr_step(if kind == InsnKind::LRW { 4 } else { 8 }, *old(s), *final(s), *old(mmu), *final(mmu), *old(bus), *final(bus), r),
        },
{
    let n: u64 = if kind == InsnKind::LRW { 4 } else { 8 };
    if kind == InsnKind::LRD && s.config.xlen != XLen::X64 {
        return Err(Exception::IllegalInsn(s.ir));
    }
    if s.privilege.check_extension('a').is_err() || s.aext.is_none() {
        return Err(Exception::IllegalInsn(s.ir));
    }
    let ghost s0 = *s;
    let res0 = s.aext.unwrap().lc_res;
    let cleared = LCReservation { valid: false, ..res0 };
    s.aext = Some(ExtensionA { lc_res: cleared });
    release(s, bus);
    let ghost b_rel = *bus;
    let addr = s.xreg(rs1(s.ir));
    let acq = acquire(s, mmu, bus, addr, n);
    let ghost m_a = *mmu;
    let ghost b_a = *bus;
    assert(acquire_step(*old(mmu), m_a, &b_rel, &b_a, s0, addr, n, acq));
    let ok = match acq {
        Ok(ok) => ok,
        Err(e) => return Err(e),
    };
    let d = match load(s, mmu, bus, addr, n) {
        Ok(d) => d,
        Err(e) => return Err(e),
    };
    if ok {
        let ts = s.privilege.m.instret;
        s.aext = Some(ExtensionA { lc_res: LCReservation { valid: true, addr, len: n, timestamp: ts } });
    }
    let m = s.config.xlen.mask();
    let v = if n == 4 { sext(d, 32) & m } else { d & m };
    let pc = add64(s.pc, 4);
    s.set_xreg(rd(s.ir), v);
    s.set_pc(pc);
    Ok(())
}

/// A register number keeps its low five bits when widened.
pub proof fn lemma_low5(x: InsnT, y: u32)
    by (bit_vector)
    ensures
        (x as RegT) & 0x1f == (x & 0x1f) as RegT,
        y & 0x1f <= 0x1f,
{
}

/// A term to name the intermediate states of a step by.
pub open spec fn chosen<A>(a: A) -> bool {
    true
}

/// Whether `(s1, m1, b1, r)` is what `sc.w`/`sc.d` (`n` bytes) gives from
/// `(s0, m0, b0)` once its checks passed: the store happens only when the
/// hart's reservation is valid for exactly these bytes and the hart still
/// holds the first reservation on them; then the reservation is dropped,
/// the hart's reservations released, and `rd` gets 0 on success, 1 else.
/// A failed check or store raises with the reservation kept.
pub open spec fn sc_step<S: Space>(
    n: u64, s0: ProcessorState, s1: ProcessorState, m0: Mmu, m1: Mmu, b0: Bus<S>, b1: Bus<S>, r: Result<(), Exception>,
) -> bool {
    let addr = s0.spec_xreg(spec_rs1(s0.ir));
    let data = s0.spec_xreg(spec_rs2(s0.ir));
    let res0 = s0.aext->0.lc_res;
    let candidate = res0.valid && addr == res0.addr && res0.len == n;
    exists|m_c: Mmu, b_c: Bus<S>, chk: Result<bool, Exception>, m_s: Mmu, b_s: Bus<S>, st: Result<(), Exception>|
        #![trigger chosen((m_c, b_c, chk, m_s, b_s, st))] {
        &&& (if candidate { check_lock_step(m0, m_c, &b0, &b_c, s0, addr, n, chk) } else {
            m_c == m0 && b_c == b0 && chk == Ok::<bool, Exception>(false) })
        &&& same_but_res(s0, s1)
        &&& match chk {
            Err(e) => r == Err::<(), Exception>(e) && m1 == m_c && b1 == b_c && s1 == s0,
            Ok(success) => {
                &&& (if success { store_step(m_c, m_s, &b_c, &b_s, s0, addr, n, data, st) } else {
                    m_s == m_c && b_s == b_c && st == Ok::<(), Exception>(()) })
                &&& match st {
                    Err(e) => r == Err::<(), Exception>(e) && m1 == m_s && b1 == b_s && s1 == s0,
                    Ok(_) => {
                        &&& r is Ok && m1 == m_s
                        &&& b1.space == b_s.space
                        &&& b1.lock_table@ == b_s.lock_table@.filter(not_held_by(s0.hartid))
                        &&& s1.aext == Some(ExtensionA { lc_res: LCReservation { valid: false, ..res0 } })
                        &&& s1.xreg@ == s0.xreg_written(spec_rd(s0.ir), if success { 0 } else { 1 })
                        &&& s1.next_pc == wrap64(s0.pc + 4)
                    },
                }
            },
        }
    }
}

/// Executes `sc.w`/`sc.d` (see `lrsc_fault` and `sc_step`).
pub fn exec_sc<S: Space>(s: &mut ProcessorState, mmu: &mut Mmu, bus: &mut Bus<S>, kind: InsnKind) -> (r: Result<(), Exception>)
    requires
        old(s).wf(),
        old(mmu).wf(),
        old(bus).wf(),
        kind == InsnKind::SCW || kind == InsnKind::SCD,
        translatable(old(s).privilege, MmuOpt::Store),
    ensures
        final(s).wf(),
        final(mmu).wf(),
        final(bus).wf(),
        match lrsc_fault(kind, *old(s)) {
            Some(e) => r == Err::<(), Exception>(e) && *final(s) == *old(s) && *final(mmu) == *old(mmu) && *final(bus) == *old(bus),
            None => sc_step(if kind == InsnKind::SCW { 4 } else { 8 }, *old(s), *final(s), *old(mmu), *final(mmu), *old(bus), *final(bus), r),
        },
{
    let n: u64 = if kind == InsnKind::SCW { 4 } else { 8 };
    if kind == InsnKind::SCD && s.config.xlen != XLen::X64 {
        return Err(Exception::IllegalInsn(s.ir));
    }
    if s.privilege.check_extension('a').is_err() || s.aext.is_none() {
        return Err(Exception::IllegalInsn(s.ir));
    }
    let ir = s.ir;
    let addr = s.xreg(rs1(ir));
    let data = s.xreg(rs2(ir));
    let res0 = s.aext.unwrap().lc_res;
    let chk = if res0.valid && addr == res0.addr && res0.len == n {
        check_lock(s, mmu, bus, addr, n)
    } else {
        Ok(false)
    };
    let ghost m_c = *mmu;
    let ghost b_c = *bus;
    let success = match chk {
        Ok(v) => v,
        Err(e) => {
            assert(res0.valid && addr == res0.addr && res0.len == n ==> check_lock_step(*old(mmu), m_c, old(bus), &b_c, *old(s), addr, n, chk));
            assert(chosen((m_c, b_c, chk, m_c, b_c, Ok::<(), Exception>(()))));
            return Err(e);
        },
    };
    let st = if success { store(s, mmu, bus, addr, n, data) } else { Ok(()) };
    let ghost m_s = *mmu;
    let ghost b_s = *bus;
    assert(res0.valid && addr == res0.addr && res0.len == n ==> check_lock_step(*old(mmu), m_c, old(bus), &b_c, *old(s), addr, n, chk));
    assert(success ==> store_step(m_c, m_s, &b_c, &b_s, *old(s), addr, n, data, st));
    assert(chosen((m_c, b_c, chk, m_s, b_s, st)));
    if let Err(e) = st {
        return Err(e);
    }
    s.aext = Some(ExtensionA { lc_res: LCReservation { valid: false, ..res0 } });
    release(s, bus);
    let pc = add64(s.pc, 4);
    s.set_xreg(rd(ir), if success { 0 } else { 1 });
    s.set_pc(pc);
    Ok(())
}

/// The floating-point memory access of an instruction, or the exception
/// it raises first; `inc` is the instruction's length.
#[derive(Debug, Clone, Copy, PartialEq, Eq, Structural)]
pub enum FMemOp {
    Load { addr: u64, n: u64, rd: InsnT, w: FLen, inc: u64 },
    Store { addr: u64, n: u64, src: InsnT, inc: u64 },
    Fault(Exception),
}

/// Whether `kind` is a floating-point load or store of `c` (on RV32 the
/// kinds shared with 64-bit integer forms are).
pub open spec fn is_c_fmem_kind(kind: InsnKind, xlen: XLen) -> bool {
    kind == InsnKind::CFLD || kind == InsnKind::CFLDSP || kind == InsnKind::CFSD || kind == InsnKind::CFSDSP
        || (xlen == XLen::X32 && (kind == InsnKind::CLDFLW || kind == InsnKind::CLDSPCFLWSP
            || kind == InsnKind::CSDFSW || kind == InsnKind::CSDSPFSWSP))
}

/// Whether `kind` is a floating-point load or store.
pub open spec fn is_fmem_kind(kind: InsnKind, xlen: XLen) -> bool {
    is_c_fmem_kind(kind, xlen) || kind == InsnKind::FLW || kind == InsnKind::FSW || kind == InsnKind::FLD
        || kind == InsnKind::FSD
}

/// The access of a floating-point load or store: a compressed form needs
/// `c`, a 64-bit form `d`, then `f` must be enabled, built and in use
/// (`mstatus.fs` non-zero). `flw`/`fld` address `rs1` plus the I-format
/// immediate, `fsw`/`fsd` `rs1` plus the S-format one and store `rs2`.
pub open spec fn spec_fmem_op(kind: InsnKind, s: ProcessorState) -> FMemOp {
    let ir = s.ir;
    let ill = FMemOp::Fault(Exception::IllegalInsn(ir));
    let d_form = kind == InsnKind::CFLD || kind == InsnKind::CFLDSP || kind == InsnKind::CFSD || kind == InsnKind::CFSDSP
        || kind == InsnKind::FLD || kind == InsnKind::FSD;
    if is_c_fmem_kind(kind, s.config.xlen) && !has_c(s) {
        ill
    } else if d_form && !s.privilege.spec_has_ext(3) {
        ill
    } else if !s.privilege.spec_has_ext(5) || s.fext is None || s.spec_fs() == 0 {
        ill
    } else {
        let rs1p = s.spec_xreg(spec_c_rs1p(ir));
        let sp = s.spec_xreg(2);
        let base = s.spec_xreg(spec_rs1(ir));
        let la = wrap64(base + sext_spec(spec_imm_i(ir) as u64, 12));
        let sa = wrap64(base + sext_spec(spec_imm_s(ir) as u64, 12));
        match kind {
            InsnKind::FLW => FMemOp::Load { addr: la, n: 4, rd: spec_rd(ir), w: FLen::F32, inc: 4 },
            InsnKind::FLD => FMemOp::Load { addr: la, n: 8, rd: spec_rd(ir), w: FLen::F64, inc: 4 },
            InsnKind::FSW => FMemOp::Store { addr: sa, n: 4, src: spec_rs2(ir), inc: 4 },
            InsnKind::FSD => FMemOp::Store { addr: sa, n: 8, src: spec_rs2(ir), inc: 4 },
            InsnKind::CFLD => FMemOp::Load { addr: wrap64(rs1p + c_ld_offset(ir)), n: 8, rd: spec_c_rdp(ir), w: FLen::F64, inc: 2 },
            InsnKind::CFLDSP => FMemOp::Load { addr: wrap64(sp + c_ldsp_offset(ir)), n: 8, rd: spec_rd(ir), w: FLen::F64, inc: 2 },
            InsnKind::CLDFLW => FMemOp::Load { addr: wrap64(rs1p + c_lw_offset(ir)), n: 4, rd: spec_c_rdp(ir), w: FLen::F32, inc: 2 },
            InsnKind::CLDSPCFLWSP => FMemOp::Load { addr: wrap64(sp + c_lwsp_offset(ir)), n: 4, rd: spec_rd(ir), w: FLen::F32, inc: 2 },
            InsnKind::CFSD => FMemOp::Store { addr: wrap64(rs1p + c_ld_offset(ir)), n: 8, src: spec_c_rdp(ir), inc: 2 },
            InsnKind::CFSDSP => FMemOp::Store { addr: wrap64(sp + c_sdsp_offset(ir)), n: 8, src: spec_c_rs2(ir), inc: 2 },
            InsnKind::CSDFSW => FMemOp::Store { addr: wrap64(rs1p + c_lw_offset(ir)), n: 4, src: spec_c_rdp(ir), inc: 2 },
            _ => FMemOp::Store { addr: wrap64(sp + c_swsp_offset(ir)), n: 4, src: spec_c_rs2(ir), inc: 2 },
        }
    }
}

/// Whether `new` is `old` with only the floating-point state, the
/// privilege state and the next pc changed.
pub open spec fn same_but_float(old: ProcessorState, new: ProcessorState) -> bool {
    &&& new.hartid == old.hartid && new.config == old.config && new.aext == old.aext
    &&& new.pc == old.pc && new.ir == old.ir && new.wfi == old.wfi && new.xreg@ == old.xreg@
}

/// Whether the step performs the floating-point access `op`: a load boxes
/// the value into the register (marking the state dirty); a store writes
/// the low bits of the register.
pub open spec fn fmem_step<S: Space>(
    op: FMemOp, s0: ProcessorState, s1: ProcessorState, m0: Mmu, m1: Mmu, b0: Bus<S>, b1: Bus<S>, r: Result<(), Exception>,
) -> bool {
    &&& same_but_float(s0, s1)
    &&& match op {
        FMemOp::Fault(e) => r == Err::<(), Exception>(e) && s1 == s0 && m1 == m0 && b1 == b0,
        FMemOp::Load { addr, n, rd, w, inc } => {
            &&& access_frame(m0, m1, &b0, &b1, s0, addr, n, MmuOpt::Load)
            &&& match spec_load(m0, &b0, &b1, s0, addr, n) {
                Ok(d) => {
                    let f = s0.fext->0;
                    &&& r is Ok
                    &&& s1.privilege == s0.fs_dirty()
                    &&& s1.fext matches Some(f1) && f1.flen == f.flen && f1.fcsr == f.fcsr
                        && f1.freg@ == f.freg@.update((rd & 0x1f) as int, f.flen.spec_padding(d as u128, w))
                    &&& s1.next_pc == wrap64(s0.pc + inc)
                },
                Err(e) => r == Err::<(), Exception>(e) && s1.privilege == s0.privilege && s1.fext == s0.fext
                    && s1.next_pc == s0.next_pc,
            }
        },
        FMemOp::Store { addr, n, src, inc } => exists|sr: Result<(), Exception>| {
            &&& #[trigger] store_step(m0, m1, &b0, &b1, s0, addr, n, s0.fext->0.freg@[(src & 0x1f) as int] as u64, sr)
            &&& s1.privilege == s0.privilege && s1.fext == s0.fext
            &&& match sr {
                Ok(_) => r is Ok && s1.next_pc == wrap64(s0.pc + inc),
                Err(e) => r == Err::<(), Exception>(e) && s1.next_pc == s0.next_pc,
            }
        },
    }
}

/// The operands of a floating-point store, read from its instruction word
/// `code`: the address offset (the S-format immediate, sign-extended) and
/// the register stored (`rs2`).
pub trait FStore {
    fn offset(&self, code: InsnT) -> (r: RegT)
        ensures
            r == sext_spec(spec_imm_s(code) as u64, 12),
    {
        let high: RegT = ((imm_i(code) >> 5) & 0x7f) as RegT;
        let low = rd(code) as RegT;
        proof {
            lemma_store_fields(code);
        }
        sext((high << 5) | low, 12)
    }

    fn src(&self, code: InsnT) -> (r: InsnT)
        ensures
            r == spec_rs2(code),
    {
        imm_i(code) & 0x1f
    }
}

/// The fields of a store word, read through the I-format immediate.
proof fn lemma_store_fields(code: InsnT)
    by (bit_vector)
    ensures
        ((((code >> 20) >> 5) & 0x7f) as u64) << 5 | (((code >> 7) & 0x1f) as u64)
            == ((((code >> 25) << 5) | ((code >> 7) & 0x1f)) as u64),
{
}

/// `fsw`: stores the low 32 bits of a floating-point register.
pub struct FSW;

impl FStore for FSW {}

/// `fsd`: stores the low 64 bits of a floating-point register.
pub struct FSD;

impl FStore for FSD {}

/// Computes the access of a floating-point load or store.
fn fmem_op_of(kind: InsnKind, s: &ProcessorState) -> (r: FMemOp)
    requires
        s.wf(),
        is_fmem_kind(kind, s.config.xlen),
    ensures
        r == spec_fmem_op(kind, *s),
{
    let ir = s.ir;
    let full = matches!(kind, InsnKind::FLW | InsnKind::FSW | InsnKind::FLD | InsnKind::FSD);
    if !full && s.privilege.check_extension('c').is_err() {
        return FMemOp::Fault(Exception::IllegalInsn(ir));
    }
    let d_form = matches!(kind, InsnKind::CFLD | InsnKind::CFLDSP | InsnKind::CFSD | InsnKind::CFSDSP | InsnKind::FLD
        | InsnKind::FSD);
    if d_form && s.privilege.check_extension('d').is_err() {
        return FMemOp::Fault(Exception::IllegalInsn(ir));
    }
    if s.privilege.check_extension('f').is_err() || s.fext.is_none() || s.privilege.m.mstatus.fs() == 0 {
        return FMemOp::Fault(Exception::IllegalInsn(ir));
    }
    if full {
        let base = s.xreg(rs1(ir));
        let la = add64(base, sext(imm_i(ir) as u64, 12));
        return match kind {
            InsnKind::FLW => FMemOp::Load { addr: la, n: 4, rd: rd(ir), w: FLen::F32, inc: 4 },
            InsnKind::FLD => FMemOp::Load { addr: la, n: 8, rd: rd(ir), w: FLen::F64, inc: 4 },
            InsnKind::FSW => FMemOp::Store { addr: add64(base, FSW.offset(ir)), n: 4, src: FSW.src(ir), inc: 4 },
            _ => FMemOp::Store { addr: add64(base, FSD.offset(ir)), n: 8, src: FSD.src(ir), inc: 4 },
        };
    }
    let x = ir as u64;
    let rs1p = s.xreg(c_rs1p(ir));
    let sp = s.xreg(2);
    match kind {
        InsnKind::CFLD => FMemOp::Load { addr: add64(rs1p, (((x >> 10) & 7) << 3) | (((x >> 5) & 3) << 6)), n: 8,
            rd: c_rdp(ir), w: FLen::F64, inc: 2 },
        InsnKind::CFLDSP => FMemOp::Load { addr: add64(sp, (((x >> 12) & 1) << 5) | (((x >> 5) & 3) << 3)
            | (((x >> 2) & 7) << 6)), n: 8, rd: rd(ir), w: FLen::F64, inc: 2 },
        InsnKind::CLDFLW => FMemOp::Load { addr: add64(rs1p, (((x >> 10) & 7) << 3) | (((x >> 6) & 1) << 2)
            | (((x >> 5) & 1) << 6)), n: 4, rd: c_rdp(ir), w: FLen::F32, inc: 2 },
        InsnKind::CLDSPCFLWSP => FMemOp::Load { addr: add64(sp, (((x >> 12) & 1) << 5) | (((x >> 4) & 7) << 2)
            | (((x >> 2) & 3) << 6)), n: 4, rd: rd(ir), w: FLen::F32, inc: 2 },
        InsnKind::CFSD => FMemOp::Store { addr: add64(rs1p, (((x >> 10) & 7) << 3) | (((x >> 5) & 3) << 6)), n: 8,
            src: c_rdp(ir), inc: 2 },
        InsnKind::CFSDSP => FMemOp::Store { addr: add64(sp, (((x >> 10) & 7) << 3) | (((x >> 7) & 7) << 6)), n: 8,
            src: c_rs2(ir), inc: 2 },
        InsnKind::CSDFSW => FMemOp::Store { addr: add64(rs1p, (((x >> 10) & 7) << 3) | (((x >> 6) & 1) << 2)
            | (((x >> 5) & 1) << 6)), n: 4, src: c_rdp(ir), inc: 2 },
        _ => FMemOp::Store { addr: add64(sp, (((x >> 9) & 0xf) << 2) | (((x >> 7) & 3) << 6)), n: 4, src: c_rs2(ir), inc: 2 },
    }
}

/// Executes a floating-point load or store (see `spec_fmem_op` and
/// `fmem_step`).
pub fn exec_fmem<S: Space>(s: &mut ProcessorState, mmu: &mut Mmu, bus: &mut Bus<S>, kind: InsnKind) -> (r: Result<(), Exception>)
    requires
        old(s).wf(),
        old(mmu).wf(),
        old(bus).wf(),
        is_fmem_kind(kind, old(s).config.xlen),
        translatable(old(s).privilege, MmuOpt::Load),
        translatable(old(s).privilege, MmuOpt::Store),
    ensures
        final(s).wf(),
        final(mmu).wf(),
        final(bus).wf(),
        fmem_step(spec_fmem_op(kind, *old(s)), *old(s), *final(s), *old(mmu), *final(mmu), *old(bus), *final(bus), r),
{
    let op = fmem_op_of(kind, s);
    let pc = s.pc;
    match op {
        FMemOp::Fault(e) => Err(e),
        FMemOp::Load { addr, n, rd, w, inc } => {
            let d = match load(s, mmu, bus, addr, n) {
                Ok(d) => d,
                Err(e) => return Err(e),
            };
            let flen = match &s.fext {
                Some(f) => f.flen,
                None => FLen::F32,
            };
            let v = flen.padding(d as u128, w);
            s.set_freg(rd as RegT, v);
            s.set_pc(add64(pc, inc));
            proof { lemma_low5(rd, 0); }
            Ok(())
        },
        FMemOp::Store { addr, n, src, inc } => {
            let data = s.freg(src as RegT) as u64;
            proof { lemma_low5(src, 0); }
            let sr = store(s, mmu, bus, addr, n, data);
            assert(store_step(*old(mmu), *mmu, old(bus), bus, *old(s), addr, n, data, sr));
            match sr {
                Ok(_) => {
                    s.set_pc(add64(pc, inc));
                    Ok(())
                },
                Err(e) => Err(e),
            }
        },
    }
}

} // verus!
