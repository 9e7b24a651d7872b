//! Execution of the instructions that only read and write integer
//! registers and the program counter: arithmetic, jumps, branches and
//! their compressed forms.
use vstd::prelude::*;
use crate::global::{sext, sext_spec, InsnT, RegT, XLen};
use crate::processor::alu::{alu, spec_alu, wrap64, signed, AluOp};
use crate::processor::decode::InsnKind;
use crate::processor::insn::{c_rdp, c_rs1p, c_rs2, cb_imm, ci_imm, ciw_imm, cj_imm, spec_c_rdp, spec_c_rs1p, spec_c_rs2, spec_ci_imm, spec_ciw_imm, imm_b, imm_i, imm_j, imm_u, rd, rs1, rs2, spec_imm_b, spec_imm_i, spec_imm_j, spec_imm_u, spec_rd, spec_rs1, spec_rs2};
use crate::processor::privilege::{Privilege, PrivilegeStates};
use crate::bits::field_of;
use crate::processor::state::ProcessorState;
use crate::processor::trap::Exception;

verus! {

/// What an instruction does to the registers: write `value` to `rd` (a
/// write to `x0` is dropped) and continue at `next_pc`, or raise an
/// exception and change nothing.
#[derive(Debug, Clone, Copy, PartialEq, Eq, Structural)]
pub enum Effect {
    Retire { rd: InsnT, value: RegT, next_pc: RegT },
    Raise(Exception),
}

/// Whether `new` is `old` with the registers and next pc changed at most.
pub open spec fn same_but_regs(old: ProcessorState, new: ProcessorState) -> bool {
    &&& new.hartid == old.hartid
    &&& new.config == old.config
    &&& new.privilege == old.privilege
    &&& new.fext == old.fext
    &&& new.aext == old.aext
    &&& new.pc == old.pc
    &&& new.ir == old.ir
    &&& new.wfi == old.wfi
}

/// Whether the step from `old` to `new` with result `r` is effect `e`.
pub open spec fn applied(old: ProcessorState, new: ProcessorState, e: Effect, r: Result<(), Exception>) -> bool {
    &&& same_but_regs(old, new)
    &&& match e {
        Effect::Retire { rd, value, next_pc } => {
            &&& r is Ok
            &&& new.xreg@ == old.xreg_written(rd, value)
            &&& new.next_pc == next_pc
        },
        Effect::Raise(x) => {
            &&& r == Err::<(), Exception>(x)
            &&& new.xreg@ == old.xreg@
            &&& new.next_pc == old.next_pc
        },
    }
}

/// The illegal-instruction exception of the current instruction.
pub open spec fn illegal(s: ProcessorState) -> Effect {
    Effect::Raise(Exception::IllegalInsn(s.ir))
}

/// Whether `misa` enables extension `c`.
pub open spec fn has_c(s: ProcessorState) -> bool {
    s.privilege.spec_has_ext(2)
}

/// Whether `misa` enables extension `m`.
pub open spec fn has_m(s: ProcessorState) -> bool {
    s.privilege.spec_has_ext(12)
}

/// Continue at `pc + n`, writing nothing.
pub open spec fn advance(s: ProcessorState, n: u64) -> Effect {
    Effect::Retire { rd: 0, value: 0, next_pc: wrap64(s.pc + n) }
}

/// Write `v` to `rd` and continue at `pc + n`.
pub open spec fn write_rd(s: ProcessorState, rd: InsnT, v: RegT, n: u64) -> Effect {
    Effect::Retire { rd, value: v, next_pc: wrap64(s.pc + n) }
}

/// A jump of a 32-bit instruction to `t`, linking `pc + 4` in `rd`: the
/// target must be 4-aligned without `c` and 2-aligned with it.
pub open spec fn jump_to(s: ProcessorState, t: u64, rd: InsnT) -> Effect {
    if (!has_c(s) && t & 3 != 0) || t & 1 != 0 {
        Effect::Raise(Exception::FetchMisaligned(t))
    } else {
        Effect::Retire { rd, value: wrap64(s.pc + 4), next_pc: t }
    }
}

/// A jump of a compressed instruction to `t` (2-aligned), linking
/// `link` in `rd`.
pub open spec fn c_jump_to(t: u64, rd: InsnT, link: u64) -> Effect {
    if t & 1 != 0 {
        Effect::Raise(Exception::FetchMisaligned(t))
    } else {
        Effect::Retire { rd, value: link, next_pc: t }
    }
}

/// The condition of a branch on register values `a` and `b`.
pub open spec fn branch_taken(kind: InsnKind, xlen: XLen, a: u64, b: u64) -> bool {
    match kind {
        InsnKind::BEQ => a == b,
        InsnKind::BNE => a != b,
        InsnKind::BLT => signed(a, xlen.spec_len()) < signed(b, xlen.spec_len()),
        InsnKind::BGE => signed(a, xlen.spec_len()) >= signed(b, xlen.spec_len()),
        InsnKind::BLTU => a < b,
        _ => a >= b,
    }
}

/// The ALU operation of an R-type instruction of `i` or `m`.
pub open spec fn r_op(kind: InsnKind) -> Option<AluOp> {
    match kind {
        InsnKind::ADD => Some(AluOp::Add),
        InsnKind::SUB => Some(AluOp::Sub),
        InsnKind::SLL => Some(AluOp::Sll),
        InsnKind::SLT => Some(AluOp::Slt),
        InsnKind::SLTU => Some(AluOp::Sltu),
        InsnKind::XOR => Some(AluOp::Xor),
        InsnKind::SRL => Some(AluOp::Srl),
        InsnKind::SRA => Some(AluOp::Sra),
        InsnKind::OR => Some(AluOp::Or),
        InsnKind::AND => Some(AluOp::And),
        InsnKind::ADDW => Some(AluOp::AddW),
        InsnKind::SUBW => Some(AluOp::SubW),
        InsnKind::SLLW => Some(AluOp::SllW),
        InsnKind::SRLW => Some(AluOp::SrlW),
        InsnKind::SRAW => Some(AluOp::SraW),
        InsnKind::MUL => Some(AluOp::Mul),
        InsnKind::MULW => Some(AluOp::MulW),
        InsnKind::DIV => Some(AluOp::Div),
        InsnKind::DIVU => Some(AluOp::Divu),
        InsnKind::REM => Some(AluOp::Rem),
        InsnKind::REMU => Some(AluOp::Remu),
        InsnKind::DIVW => Some(AluOp::DivW),
        InsnKind::DIVUW => Some(AluOp::DivuW),
        InsnKind::REMW => Some(AluOp::RemW),
        InsnKind::REMUW => Some(AluOp::RemuW),
        _ => None,
    }
}

/// Whether an ALU operation works on the low 32 bits (RV64 only).
pub open spec fn is_word_op(op: AluOp) -> bool {
    op == AluOp::AddW || op == AluOp::SubW || op == AluOp::SllW || op == AluOp::SrlW || op == AluOp::SraW
        || op == AluOp::MulW || op == AluOp::DivW || op == AluOp::DivuW || op == AluOp::RemW || op == AluOp::RemuW
}

/// Whether an ALU operation belongs to `m`.
pub open spec fn is_m_op(op: AluOp) -> bool {
    op == AluOp::Mul || op == AluOp::MulW || op == AluOp::Div || op == AluOp::Divu || op == AluOp::Rem
        || op == AluOp::Remu || op == AluOp::DivW || op == AluOp::DivuW || op == AluOp::RemW || op == AluOp::RemuW
}

/// The effect of `lui`, `auipc`, a jump or a branch.
pub open spec fn spec_jump_effect(kind: InsnKind, s: ProcessorState) -> Effect {
    let ir = s.ir;
    let xlen = s.config.xlen;
    let m = xlen.spec_mask();
    let rs1v = s.spec_xreg(spec_rs1(ir));
    let rs2v = s.spec_xreg(spec_rs2(ir));
    let rd = spec_rd(ir);
    let imm = spec_imm_i(ir) as u64;
    match kind {
        InsnKind::LUI => write_rd(s, rd, sext_spec(spec_imm_u(ir) as u64, 32) & m, 4),
        InsnKind::AUIPC => write_rd(s, rd, wrap64(s.pc + sext_spec(spec_imm_u(ir) as u64, 32)) & m, 4),
        InsnKind::JAL => jump_to(s, wrap64(sext_spec(spec_imm_j(ir) as u64, 21) + s.pc), rd),
        InsnKind::JALR => jump_to(s, wrap64(sext_spec((imm >> 1) << 1, 12) + rs1v), rd),
        _ => if branch_taken(kind, xlen, rs1v, rs2v) {
            jump_to(s, wrap64(sext_spec(spec_imm_b(ir) as u64, 13) + s.pc), 0)
        } else {
            advance(s, 4)
        },
    }
}

/// Whether `kind` is `lui`, `auipc`, a jump or a branch.
pub open spec fn is_jump_kind(kind: InsnKind) -> bool {
    kind == InsnKind::LUI || kind == InsnKind::AUIPC || kind == InsnKind::JAL || kind == InsnKind::JALR
        || kind == InsnKind::BEQ || kind == InsnKind::BNE || kind == InsnKind::BLT || kind == InsnKind::BGE
        || kind == InsnKind::BLTU || kind == InsnKind::BGEU
}

/// The effect of an operation on a register and an immediate.
pub open spec fn spec_op_imm_effect(kind: InsnKind, s: ProcessorState) -> Effect {
    let ir = s.ir;
    let xlen = s.config.xlen;
    let m = xlen.spec_mask();
    let rs1v = s.spec_xreg(spec_rs1(ir));
    let rd = spec_rd(ir);
    let imm = spec_imm_i(ir) as u64;
    let simm = sext_spec(imm, 12);
    match kind {
        InsnKind::ADDI => write_rd(s, rd, spec_alu(AluOp::Add, xlen, rs1v, simm), 4),
        InsnKind::SLTI => write_rd(s, rd, spec_alu(AluOp::Slt, xlen, rs1v, simm), 4),
        InsnKind::SLTIU => write_rd(s, rd, spec_alu(AluOp::Sltu, xlen, rs1v, simm & m), 4),
        InsnKind::XORI => write_rd(s, rd, spec_alu(AluOp::Xor, xlen, rs1v, simm), 4),
        InsnKind::ORI => write_rd(s, rd, spec_alu(AluOp::Or, xlen, rs1v, simm), 4),
        InsnKind::ANDI => write_rd(s, rd, spec_alu(AluOp::And, xlen, rs1v, simm), 4),
        InsnKind::SLLI => if (xlen == XLen::X32 && imm >> 5 != 0) || (xlen == XLen::X64 && imm >> 6 != 0) {
            illegal(s)
        } else {
            write_rd(s, rd, spec_alu(AluOp::Sll, xlen, rs1v, imm), 4)
        },
        InsnKind::SRLI => write_rd(s, rd, spec_alu(AluOp::Srl, xlen, rs1v, imm), 4),
        InsnKind::SRAI => write_rd(s, rd, spec_alu(AluOp::Sra, xlen, rs1v, imm), 4),
        InsnKind::ADDIW => if xlen != XLen::X64 { illegal(s) } else {
            write_rd(s, rd, spec_alu(AluOp::AddW, xlen, rs1v, simm), 4) },
        InsnKind::SLLIW => if xlen != XLen::X64 || imm >> 5 != 0 { illegal(s) } else {
            write_rd(s, rd, spec_alu(AluOp::SllW, xlen, rs1v, imm), 4) },
        InsnKind::SRLIW => if xlen != XLen::X64 { illegal(s) } else {
            write_rd(s, rd, spec_alu(AluOp::SrlW, xlen, rs1v, imm), 4) },
        _ => if xlen != XLen::X64 { illegal(s) } else {
            write_rd(s, rd, spec_alu(AluOp::SraW, xlen, rs1v, imm), 4) },
    }
}

/// Whether `kind` operates on a register and an immediate.
pub open spec fn is_op_imm_kind(kind: InsnKind) -> bool {
    kind == InsnKind::ADDI || kind == InsnKind::SLTI || kind == InsnKind::SLTIU || kind == InsnKind::XORI
        || kind == InsnKind::ORI || kind == InsnKind::ANDI || kind == InsnKind::SLLI || kind == InsnKind::SRLI
        || kind == InsnKind::SRAI || kind == InsnKind::ADDIW || kind == InsnKind::SLLIW || kind == InsnKind::SRLIW
        || kind == InsnKind::SRAIW
}

/// The effect of operation `op` on two registers.
pub open spec fn spec_op_effect(op: AluOp, s: ProcessorState) -> Effect {
    let ir = s.ir;
    let xlen = s.config.xlen;
    if is_m_op(op) && !has_m(s) {
        illegal(s)
    } else if is_word_op(op) && xlen != XLen::X64 {
        illegal(s)
    } else {
        write_rd(s, spec_rd(ir), spec_alu(op, xlen, s.spec_xreg(spec_rs1(ir)), s.spec_xreg(spec_rs2(ir))), 4)
    }
}

/// The effect of a 32-bit instruction that only uses registers, or `None`
/// for another kind.
pub open spec fn spec_base_effect(kind: InsnKind, s: ProcessorState) -> Option<Effect> {
    if is_jump_kind(kind) {
        Some(spec_jump_effect(kind, s))
    } else if is_op_imm_kind(kind) {
        Some(spec_op_imm_effect(kind, s))
    } else if kind == InsnKind::FENCE || kind == InsnKind::FENCEI {
        Some(advance(s, 4))
    } else if kind == InsnKind::ECALL {
        Some(Effect::Raise(match s.privilege.cur {
            Privilege::M => Exception::MCall,
            Privilege::S => Exception::SCall,
            Privilege::U => Exception::UCall,
        }))
    } else if kind == InsnKind::EBREAK {
        Some(Effect::Raise(Exception::Breakpoint))
    } else {
        match r_op(kind) {
            Some(op) => Some(spec_op_effect(op, s)),
            None => None,
        }
    }
}

/// `a + b` modulo 2^64.
pub fn add64(a: u64, b: u64) -> (r: u64)
    ensures
        r == wrap64(a + b),
{
    a.wrapping_add(b)
}

/// Raises an illegal-instruction exception for the current instruction.
fn raise_illegal(s: &ProcessorState) -> (r: Result<(), Exception>)
    ensures
        r == Err::<(), Exception>(Exception::IllegalInsn(s.ir)),
{
    Err(Exception::IllegalInsn(s.ir))
}

/// Writes `v` to `rd` and continues at `pc + n`.
fn retire(s: &mut ProcessorState, rd: InsnT, v: RegT, n: u64) -> (r: Result<(), Exception>)
    requires
        old(s).wf(),
    ensures
        final(s).wf(),
        applied(*old(s), *final(s), write_rd(*old(s), rd, v, n), r),
{
    let pc = add64(s.pc, n);
    s.set_xreg(rd, v);
    s.set_pc(pc);
    Ok(())
}

/// Jumps to `t` (see `jump_to`).
fn jump(s: &mut ProcessorState, t: u64, rd: InsnT) -> (r: Result<(), Exception>)
    requires
        old(s).wf(),
    ensures
        final(s).wf(),
        applied(*old(s), *final(s), jump_to(*old(s), t, rd), r),
{
    let no_c = s.privilege.check_extension('c').is_err();
    if (no_c && t & 3 != 0) || t & 1 != 0 {
        return Err(Exception::FetchMisaligned(t));
    }
    let link = add64(s.pc, 4);
    s.set_pc(t);
    s.set_xreg(rd, link);
    Ok(())
}

/// Executes a branch.
fn exec_branch(s: &mut ProcessorState, kind: InsnKind) -> (r: Result<(), Exception>)
    requires
        old(s).wf(),
        is_jump_kind(kind),
        kind != InsnKind::LUI && kind != InsnKind::AUIPC && kind != InsnKind::JAL && kind != InsnKind::JALR,
    ensures
        final(s).wf(),
        applied(*old(s), *final(s), spec_jump_effect(kind, *old(s)), r),
{
    let ir = s.ir;
    let xlen = s.config.xlen;
    let rs1v = s.xreg(rs1(ir));
    let rs2v = s.xreg(rs2(ir));
    let len = xlen.len();
    let taken = match kind {
        InsnKind::BEQ => rs1v == rs2v,
        InsnKind::BNE => rs1v != rs2v,
        InsnKind::BLT => (sext(rs1v, len) as i64) < (sext(rs2v, len) as i64),
        InsnKind::BGE => (sext(rs1v, len) as i64) >= (sext(rs2v, len) as i64),
        InsnKind::BLTU => rs1v < rs2v,
        _ => rs1v >= rs2v,
    };
    assert(taken == branch_taken(kind, xlen, rs1v, rs2v));
    if taken {
        let t = sext(imm_b(ir) as u64, 13).wrapping_add(s.pc);
        jump(s, t, 0)
    } else {
        retire(s, 0, 0, 4)
    }
}

/// Executes `lui`, `auipc`, a jump or a branch.
fn exec_jump(s: &mut ProcessorState, kind: InsnKind) -> (r: Result<(), Exception>)
    requires
        old(s).wf(),
        is_jump_kind(kind),
    ensures
        final(s).wf(),
        applied(*old(s), *final(s), spec_jump_effect(kind, *old(s)), r),
{
    let ir = s.ir;
    let xlen = s.config.xlen;
    let m = xlen.mask();
    let rdi = rd(ir);
    match kind {
        InsnKind::LUI => retire(s, rdi, sext(imm_u(ir) as u64, 32) & m, 4),
        InsnKind::AUIPC => {
            let v = s.pc.wrapping_add(sext(imm_u(ir) as u64, 32)) & m;
            retire(s, rdi, v, 4)
        },
        InsnKind::JAL => {
            let t = sext(imm_j(ir) as u64, 21).wrapping_add(s.pc);
            jump(s, t, rdi)
        },
        InsnKind::JALR => {
            let imm = imm_i(ir) as u64;
            let rs1v = s.xreg(rs1(ir));
            jump(s, sext((imm >> 1) << 1, 12).wrapping_add(rs1v), rdi)
        },
        _ => exec_branch(s, kind),
    }
}

/// Executes an operation on a register and an immediate.
fn exec_op_imm(s: &mut ProcessorState, kind: InsnKind) -> (r: Result<(), Exception>)
    requires
        old(s).wf(),
        is_op_imm_kind(kind),
    ensures
        final(s).wf(),
        applied(*old(s), *final(s), spec_op_imm_effect(kind, *old(s)), r),
{
    let ir = s.ir;
    let xlen = s.config.xlen;
    let m = xlen.mask();
    let rs1v = s.xreg(rs1(ir));
    let rdi = rd(ir);
    let imm = imm_i(ir) as u64;
    let simm = sext(imm, 12);
    match kind {
        InsnKind::ADDI => retire(s, rdi, alu(AluOp::Add, xlen, rs1v, simm), 4),
        InsnKind::SLTI => retire(s, rdi, alu(AluOp::Slt, xlen, rs1v, simm), 4),
        InsnKind::SLTIU => retire(s, rdi, alu(AluOp::Sltu, xlen, rs1v, simm & m), 4),
        InsnKind::XORI => retire(s, rdi, alu(AluOp::Xor, xlen, rs1v, simm), 4),
        InsnKind::ORI => retire(s, rdi, alu(AluOp::Or, xlen, rs1v, simm), 4),
        InsnKind::ANDI => retire(s, rdi, alu(AluOp::And, xlen, rs1v, simm), 4),
        InsnKind::SLLI => {
            let high = match xlen {
                XLen::X32 => imm >> 5,
                XLen::X64 => imm >> 6,
            };
            if high != 0 {
                raise_illegal(s)
            } else {
                retire(s, rdi, alu(AluOp::Sll, xlen, rs1v, imm), 4)
            }
        },
        InsnKind::SRLI => retire(s, rdi, alu(AluOp::Srl, xlen, rs1v, imm), 4),
        InsnKind::SRAI => retire(s, rdi, alu(AluOp::Sra, xlen, rs1v, imm), 4),
        _ => {
            if xlen != XLen::X64 {
                return raise_illegal(s);
            }
            match kind {
                InsnKind::ADDIW => retire(s, rdi, alu(AluOp::AddW, xlen, rs1v, simm), 4),
                InsnKind::SLLIW => if imm >> 5 != 0 {
                    raise_illegal(s)
                } else {
                    retire(s, rdi, alu(AluOp::SllW, xlen, rs1v, imm), 4)
                },
                InsnKind::SRLIW => retire(s, rdi, alu(AluOp::SrlW, xlen, rs1v, imm), 4),
                _ => retire(s, rdi, alu(AluOp::SraW, xlen, rs1v, imm), 4),
            }
        },
    }
}

/// The ALU operation of an R-type kind.
fn r_op_of(kind: InsnKind) -> (r: AluOp)
    requires
        r_op(kind) is Some,
    ensures
        r_op(kind) == Some(r),
{
    match kind {
        InsnKind::ADD => AluOp::Add,
        InsnKind::SUB => AluOp::Sub,
        InsnKind::SLL => AluOp::Sll,
        InsnKind::SLT => AluOp::Slt,
        InsnKind::SLTU => AluOp::Sltu,
        InsnKind::XOR => AluOp::Xor,
        InsnKind::SRL => AluOp::Srl,
        InsnKind::SRA => AluOp::Sra,
        InsnKind::OR => AluOp::Or,
        InsnKind::AND => AluOp::And,
        InsnKind::ADDW => AluOp::AddW,
        InsnKind::SUBW => AluOp::SubW,
        InsnKind::SLLW => AluOp::SllW,
        InsnKind::SRLW => AluOp::SrlW,
        InsnKind::SRAW => AluOp::SraW,
        InsnKind::MUL => AluOp::Mul,
        InsnKind::MULW => AluOp::MulW,
        InsnKind::DIV => AluOp::Div,
        InsnKind::DIVU => AluOp::Divu,
        InsnKind::REM => AluOp::Rem,
        InsnKind::REMU => AluOp::Remu,
        InsnKind::DIVW => AluOp::DivW,
        InsnKind::DIVUW => AluOp::DivuW,
        InsnKind::REMW => AluOp::RemW,
        _ => AluOp::RemuW,
    }
}

/// Executes operation `op` on two registers.
fn exec_op(s: &mut ProcessorState, op: AluOp) -> (r: Result<(), Exception>)
    requires
        old(s).wf(),
    ensures
        final(s).wf(),
        applied(*old(s), *final(s), spec_op_effect(op, *old(s)), r),
{
    let ir = s.ir;
    let xlen = s.config.xlen;
    let is_m = match op {
        AluOp::Mul | AluOp::MulW | AluOp::Div | AluOp::Divu | AluOp::Rem | AluOp::Remu | AluOp::DivW
        | AluOp::DivuW | AluOp::RemW | AluOp::RemuW => true,
        _ => false,
    };
    let is_w = match op {
        AluOp::AddW | AluOp::SubW | AluOp::SllW | AluOp::SrlW | AluOp::SraW | AluOp::MulW | AluOp::DivW
        | AluOp::DivuW | AluOp::RemW | AluOp::RemuW => true,
        _ => false,
    };
    if is_m && s.privilege.check_extension('m').is_err() {
        return raise_illegal(s);
    }
    if is_w && xlen != XLen::X64 {
        return raise_illegal(s);
    }
    let v = alu(op, xlen, s.xreg(rs1(ir)), s.xreg(rs2(ir)));
    retire(s, rd(ir), v, 4)
}

/// Executes a 32-bit instruction that only uses registers (see
/// `spec_base_effect`).
pub fn exec_base(s: &mut ProcessorState, kind: InsnKind) -> (r: Result<(), Exception>)
    requires
        old(s).wf(),
        spec_base_effect(kind, *old(s)) is Some,
    ensures
        final(s).wf(),
        applied(*old(s), *final(s), spec_base_effect(kind, *old(s))->0, r),
{
    if matches!(kind, InsnKind::LUI | InsnKind::AUIPC | InsnKind::JAL | InsnKind::JALR | InsnKind::BEQ
        | InsnKind::BNE | InsnKind::BLT | InsnKind::BGE | InsnKind::BLTU | InsnKind::BGEU) {
        exec_jump(s, kind)
    } else if matches!(kind, InsnKind::ADDI | InsnKind::SLTI | InsnKind::SLTIU | InsnKind::XORI | InsnKind::ORI
        | InsnKind::ANDI | InsnKind::SLLI | InsnKind::SRLI | InsnKind::SRAI | InsnKind::ADDIW | InsnKind::SLLIW
        | InsnKind::SRLIW | InsnKind::SRAIW) {
        exec_op_imm(s, kind)
    } else if matches!(kind, InsnKind::FENCE | InsnKind::FENCEI) {
        retire(s, 0, 0, 4)
    } else if matches!(kind, InsnKind::ECALL) {
        match s.privilege.cur {
            Privilege::M => Err(Exception::MCall),
            Privilege::S => Err(Exception::SCall),
            Privilege::U => Err(Exception::UCall),
        }
    } else if matches!(kind, InsnKind::EBREAK) {
        Err(Exception::Breakpoint)
    } else {
        let op = r_op_of(kind);
        exec_op(s, op)
    }
}

/// The offset of `c.addi4spn`: bits 12..11, 10..7, 6, 5 as offset bits
/// 5..4, 9..6, 2, 3.
pub open spec fn c_addi4spn_offset(ir: InsnT) -> u64 {
    let x = ir as u64;
    (((x >> 6) & 1) << 2) | (((x >> 5) & 1) << 3) | (((x >> 11) & 3) << 4) | (((x >> 7) & 0xf) << 6)
}

/// The immediate of `c.addi16sp` (before sign extension from 10 bits):
/// bits 12, 6, 5, 4..3, 2 as bits 9, 4, 6, 8..7, 5.
pub open spec fn c_addi16sp_offset(ir: InsnT) -> u64 {
    let x = ir as u64;
    (((x >> 12) & 1) << 9) | (((x >> 6) & 1) << 4) | (((x >> 5) & 1) << 6) | (((x >> 3) & 3) << 7)
        | (((x >> 2) & 1) << 5)
}

/// The offset of `c.j`/`c.jal` (before sign extension from 12 bits):
/// bits 12, 11, 10..9, 8, 7, 6, 5..3, 2 as bits 11, 4, 9..8, 10, 6, 7,
/// 3..1, 5.
pub open spec fn c_jump_offset(ir: InsnT) -> u64 {
    let x = ir as u64;
    (((x >> 12) & 1) << 11) | (((x >> 11) & 1) << 4) | (((x >> 9) & 3) << 8) | (((x >> 8) & 1) << 10)
        | (((x >> 7) & 1) << 6) | (((x >> 6) & 1) << 7) | (((x >> 3) & 7) << 1) | (((x >> 2) & 1) << 5)
}

/// The offset of `c.beqz`/`c.bnez` (before sign extension from 9 bits):
/// bits 12, 11..10, 6..5, 4..3, 2 as bits 8, 4..3, 7..6, 2..1, 5.
pub open spec fn c_branch_offset(ir: InsnT) -> u64 {
    let x = ir as u64;
    (((x >> 12) & 1) << 8) | (((x >> 10) & 3) << 3) | (((x >> 5) & 3) << 6) | (((x >> 3) & 3) << 1)
        | (((x >> 2) & 1) << 5)
}

/// Whether `kind` is a compressed instruction that only uses registers.
pub open spec fn is_c_reg_kind(kind: InsnKind) -> bool {
    kind == InsnKind::CADDI14SPN || kind == InsnKind::CADDINOP || kind == InsnKind::CJALADDIW
        || kind == InsnKind::CLI || kind == InsnKind::CLUIADDI16SP || kind == InsnKind::CSRLI
        || kind == InsnKind::CSRAI || kind == InsnKind::CANDI || kind == InsnKind::CSUB || kind == InsnKind::CXOR
        || kind == InsnKind::COR || kind == InsnKind::CAND || kind == InsnKind::CSUBW || kind == InsnKind::CADDW
        || kind == InsnKind::CJ || kind == InsnKind::CBEQZ || kind == InsnKind::CBNEZ || kind == InsnKind::CSLLI
        || kind == InsnKind::CJRMV || kind == InsnKind::CJALRADDEBREAK
}

/// The effect of a compressed instruction that only uses registers
/// (`kind` one of `is_c_reg_kind`); without `c` it is illegal.
pub open spec fn spec_c_effect(kind: InsnKind, s: ProcessorState) -> Effect {
    let ir = s.ir;
    let xlen = s.config.xlen;
    let m = xlen.spec_mask();
    let rd = spec_rd(ir);
    let imm = spec_ci_imm(ir) as u64;
    let simm = sext_spec(imm, 6);
    let rs1p = spec_c_rs1p(ir);
    let rs2p = spec_c_rdp(ir);
    let rs2 = spec_c_rs2(ir);
    if !has_c(s) {
        illegal(s)
    } else {
        match kind {
            InsnKind::CADDI14SPN => if spec_ciw_imm(ir) == 0 { illegal(s) } else {
                write_rd(s, spec_c_rdp(ir), spec_alu(AluOp::Add, xlen, s.spec_xreg(2), c_addi4spn_offset(ir)), 2)
            },
            InsnKind::CADDINOP => if rd == 0 && imm == 0 {
                advance(s, 2)
            } else if rd == 0 || imm == 0 {
                illegal(s)
            } else {
                write_rd(s, rd, spec_alu(AluOp::Add, xlen, s.spec_xreg(rd), simm), 2)
            },
            InsnKind::CJALADDIW => if xlen == XLen::X64 {
                if rd == 0 { illegal(s) } else {
                    write_rd(s, rd, spec_alu(AluOp::AddW, xlen, s.spec_xreg(rd), simm), 2)
                }
            } else {
                c_jump_to(wrap64(s.pc + sext_spec(c_jump_offset(ir), 12)), 1, wrap64(s.pc + 2))
            },
            InsnKind::CLI => if rd == 0 { illegal(s) } else { write_rd(s, rd, simm & m, 2) },
            InsnKind::CLUIADDI16SP => if rd == 0 || imm == 0 {
                illegal(s)
            } else if rd == 2 {
                write_rd(s, 2, spec_alu(AluOp::Add, xlen, s.spec_xreg(2), sext_spec(c_addi16sp_offset(ir), 10)), 2)
            } else {
                write_rd(s, rd, sext_spec(imm << 12, 18) & m, 2)
            },
            InsnKind::CSRLI | InsnKind::CSRAI => if imm == 0 || (xlen == XLen::X32 && imm >> 5 != 0) {
                illegal(s)
            } else if kind == InsnKind::CSRLI {
                write_rd(s, rs1p, s.spec_xreg(rs1p) >> imm, 2)
            } else {
                write_rd(s, rs1p, sext_spec(s.spec_xreg(rs1p) >> imm, (xlen.spec_len() - imm) as nat) & m, 2)
            },
            InsnKind::CANDI => write_rd(s, rs1p, (s.spec_xreg(rs1p) & (simm & m)) & m, 2),
            InsnKind::CSUB => write_rd(s, rs1p, spec_alu(AluOp::Sub, xlen, s.spec_xreg(rs1p), s.spec_xreg(rs2p)), 2),
            InsnKind::CXOR => write_rd(s, rs1p, spec_alu(AluOp::Xor, xlen, s.spec_xreg(rs1p), s.spec_xreg(rs2p)), 2),
            InsnKind::COR => write_rd(s, rs1p, spec_alu(AluOp::Or, xlen, s.spec_xreg(rs1p), s.spec_xreg(rs2p)), 2),
            InsnKind::CAND => write_rd(s, rs1p, spec_alu(AluOp::And, xlen, s.spec_xreg(rs1p), s.spec_xreg(rs2p)), 2),
            InsnKind::CSUBW => if xlen != XLen::X64 { illegal(s) } else {
                write_rd(s, rs1p, spec_alu(AluOp::SubW, xlen, s.spec_xreg(rs1p), s.spec_xreg(rs2p)), 2)
            },
            InsnKind::CADDW => if xlen != XLen::X64 { illegal(s) } else {
                write_rd(s, rs1p, spec_alu(AluOp::AddW, xlen, s.spec_xreg(rs1p), s.spec_xreg(rs2p)), 2)
            },
            InsnKind::CJ => c_jump_to(wrap64(s.pc + sext_spec(c_jump_offset(ir), 12)), 0, 0),
            InsnKind::CBEQZ | InsnKind::CBNEZ => if (s.spec_xreg(rs1p) == 0) == (kind == InsnKind::CBEQZ) {
                c_jump_to(wrap64(sext_spec(c_branch_offset(ir), 9) + s.pc), 0, 0)
            } else {
                advance(s, 2)
            },
            InsnKind::CSLLI => if rd == 0 || imm == 0 || (xlen == XLen::X32 && imm & 32 != 0) {
                illegal(s)
            } else {
                write_rd(s, rd, (s.spec_xreg(rd) << (imm & crate::processor::alu::shamt_mask(xlen))) & m, 2)
            },
            InsnKind::CJRMV => if rs2 == 0 {
                if rd == 0 { illegal(s) } else { c_jump_to(s.spec_xreg(rd), 0, 0) }
            } else {
                if rd == 0 { illegal(s) } else { write_rd(s, rd, s.spec_xreg(rs2) & m, 2) }
            },
            _ => if rs2 == 0 && rd == 0 {
                Effect::Raise(Exception::Breakpoint)
            } else if rs2 == 0 {
                c_jump_to(s.spec_xreg(rd), 1, wrap64(s.pc + 2))
            } else if rd == 0 {
                illegal(s)
            } else {
                write_rd(s, rd, spec_alu(AluOp::Add, xlen, s.spec_xreg(rd), s.spec_xreg(rs2)), 2)
            },
        }
    }
}

/// Jumps to `t` from a compressed instruction (see `c_jump_to`).
fn c_jump(s: &mut ProcessorState, t: u64, rd: InsnT, link: u64) -> (r: Result<(), Exception>)
    requires
        old(s).wf(),
    ensures
        final(s).wf(),
        applied(*old(s), *final(s), c_jump_to(t, rd, link), r),
{
    if t & 1 != 0 {
        return Err(Exception::FetchMisaligned(t));
    }
    s.set_pc(t);
    s.set_xreg(rd, link);
    Ok(())
}

/// Executes a compressed jump or branch.
fn exec_c_jump(s: &mut ProcessorState, kind: InsnKind) -> (r: Result<(), Exception>)
    requires
        old(s).wf(),
        has_c(*old(s)),
        kind == InsnKind::CJ || kind == InsnKind::CBEQZ || kind == InsnKind::CBNEZ
            || (kind == InsnKind::CJALADDIW && old(s).config.xlen == XLen::X32),
    ensures
        final(s).wf(),
        applied(*old(s), *final(s), spec_c_effect(kind, *old(s)), r),
{
    let ir = s.ir;
    let pc = s.pc;
    match kind {
        InsnKind::CBEQZ | InsnKind::CBNEZ => {
            let imm = cb_imm(ir) as u64;
            let off = ((imm >> 1) & 0x3) << 1 | ((imm >> 5) & 0x3) << 3 | (imm & 0x1) << 5 | ((imm >> 3) & 0x3) << 6
                | ((imm >> 7) & 0x1) << 8;
            proof { lemma_c_offsets(ir, imm, off); }
            assert(off == c_branch_offset(ir));
            let v = s.xreg(c_rs1p(ir));
            let taken = match kind {
                InsnKind::CBEQZ => v == 0,
                _ => v != 0,
            };
            if taken {
                c_jump(s, add64(sext(off, 9), pc), 0, 0)
            } else {
                retire(s, 0, 0, 2)
            }
        },
        _ => {
            let imm = cj_imm(ir) as u64;
            let off = ((imm >> 1) & 0x7) << 1 | ((imm >> 9) & 0x1) << 4 | (imm & 0x1) << 5 | ((imm >> 5) & 0x1) << 6
                | ((imm >> 4) & 0x1) << 7 | ((imm >> 7) & 0x3) << 8 | ((imm >> 6) & 0x1) << 10 | ((imm >> 10) & 0x1) << 11;
            proof { lemma_c_offsets(ir, imm, off); }
            assert(off == c_jump_offset(ir));
            let t = add64(pc, sext(off, 12));
            match kind {
                InsnKind::CJ => c_jump(s, t, 0, 0),
                _ => c_jump(s, t, 1, add64(pc, 2)),
            }
        },
    }
}

/// Executes a compressed register jump, move, add or breakpoint.
fn exec_c_cr(s: &mut ProcessorState, kind: InsnKind) -> (r: Result<(), Exception>)
    requires
        old(s).wf(),
        has_c(*old(s)),
        kind == InsnKind::CJRMV || kind == InsnKind::CJALRADDEBREAK,
    ensures
        final(s).wf(),
        applied(*old(s), *final(s), spec_c_effect(kind, *old(s)), r),
{
    let ir = s.ir;
    let m = s.config.xlen.mask();
    let rdi = rd(ir);
    let rs2i = c_rs2(ir);
    match kind {
        InsnKind::CJRMV => {
            if rs2i == 0 {
                if rdi == 0 {
                    return raise_illegal(s);
                }
                let t = s.xreg(rdi);
                c_jump(s, t, 0, 0)
            } else {
                if rdi == 0 {
                    return raise_illegal(s);
                }
                let v = s.xreg(rs2i) & m;
                retire(s, rdi, v, 2)
            }
        },
        _ => {
            if rs2i == 0 && rdi == 0 {
                Err(Exception::Breakpoint)
            } else if rs2i == 0 {
                let t = s.xreg(rdi);
                let link = add64(s.pc, 2);
                c_jump(s, t, 1, link)
            } else if rdi == 0 {
                raise_illegal(s)
            } else {
                let v = alu(AluOp::Add, s.config.xlen, s.xreg(rdi), s.xreg(rs2i));
                retire(s, rdi, v, 2)
            }
        },
    }
}

/// Executes `c.addi4spn`, `c.addi`/`c.nop` or `c.addiw`.
fn exec_c_addi(s: &mut ProcessorState, kind: InsnKind) -> (r: Result<(), Exception>)
    requires
        old(s).wf(),
        has_c(*old(s)),
        kind == InsnKind::CADDI14SPN || kind == InsnKind::CADDINOP
            || (kind == InsnKind::CJALADDIW && old(s).config.xlen == XLen::X64),
    ensures
        final(s).wf(),
        applied(*old(s), *final(s), spec_c_effect(kind, *old(s)), r),
{
    let ir = s.ir;
    let xlen = s.config.xlen;
    let m = xlen.mask();
    let rdi = rd(ir);
    let imm = ci_imm(ir) as u64;
    match kind {
        InsnKind::CADDI14SPN => {
            let w = ciw_imm(ir) as u64;
            if w == 0 {
                return raise_illegal(s);
            }
            let off = ((w >> 1) & 0x1) << 2 | (w & 0x1) << 3 | ((w >> 6) & 0x3) << 4 | ((w >> 2) & 0xf) << 6;
            proof { lemma_c_offsets(ir, w, off); }
            assert(off == c_addi4spn_offset(ir));
            let v = alu(AluOp::Add, xlen, s.xreg(2), off);
            retire(s, c_rdp(ir), v, 2)
        },
        InsnKind::CADDINOP => {
            if rdi == 0 && imm == 0 {
                retire(s, 0, 0, 2)
            } else if rdi == 0 || imm == 0 {
                raise_illegal(s)
            } else {
                let v = alu(AluOp::Add, xlen, s.xreg(rdi), sext(imm, 6));
                retire(s, rdi, v, 2)
            }
        },
        _ => {
            if rdi == 0 {
                return raise_illegal(s);
            }
            let v = alu(AluOp::AddW, xlen, s.xreg(rdi), sext(imm, 6));
            retire(s, rdi, v, 2)
        },
    }
}

/// Executes `c.li`, `c.lui`/`c.addi16sp` or `c.slli`.
fn exec_c_li(s: &mut ProcessorState, kind: InsnKind) -> (r: Result<(), Exception>)
    requires
        old(s).wf(),
        has_c(*old(s)),
        kind == InsnKind::CLI || kind == InsnKind::CLUIADDI16SP || kind == InsnKind::CSLLI,
    ensures
        final(s).wf(),
        applied(*old(s), *final(s), spec_c_effect(kind, *old(s)), r),
{
    let ir = s.ir;
    let xlen = s.config.xlen;
    let m = xlen.mask();
    let rdi = rd(ir);
    let imm = ci_imm(ir) as u64;
    match kind {
        InsnKind::CLI => {
            if rdi == 0 {
                return raise_illegal(s);
            }
            retire(s, rdi, sext(imm, 6) & m, 2)
        },
        InsnKind::CLUIADDI16SP => {
            if rdi == 0 || imm == 0 {
                return raise_illegal(s);
            }
            if rdi == 2 {
                let off = ((imm >> 4) & 0x1) << 4 | (imm & 0x1) << 5 | ((imm >> 3) & 0x1) << 6 | ((imm >> 1) & 0x3) << 7
                    | ((imm >> 5) & 0x1) << 9;
                proof { lemma_c_offsets(ir, imm, off); }
                assert(off == c_addi16sp_offset(ir));
                let v = alu(AluOp::Add, xlen, s.xreg(2), sext(off, 10));
                retire(s, 2, v, 2)
            } else {
                assert(imm < 64);
                proof { lemma_c_shifts(imm, 0, 0); }
                assert(imm << 12 == imm * 4096);
                retire(s, rdi, sext(imm << 12, 18) & m, 2)
            }
        },
        _ => {
            if rdi == 0 || imm == 0 {
                return raise_illegal(s);
            }
            if xlen == XLen::X32 && imm & 32 != 0 {
                return raise_illegal(s);
            }
            let shm: u64 = match xlen {
                XLen::X32 => 31,
                XLen::X64 => 63,
            };
            let sh = imm & shm;
            proof { lemma_c_shifts(imm, shm, sh); }
            assert(sh <= 63);
            let v = (s.xreg(rdi) << sh) & m;
            retire(s, rdi, v, 2)
        },
    }
}

/// Executes a compressed operation on `x8..x15`: shifts, `c.andi` and the
/// register-register operations.
fn exec_c_alu(s: &mut ProcessorState, kind: InsnKind) -> (r: Result<(), Exception>)
    requires
        old(s).wf(),
        has_c(*old(s)),
        kind == InsnKind::CSRLI || kind == InsnKind::CSRAI || kind == InsnKind::CANDI || kind == InsnKind::CSUB
            || kind == InsnKind::CXOR || kind == InsnKind::COR || kind == InsnKind::CAND || kind == InsnKind::CSUBW
            || kind == InsnKind::CADDW,
    ensures
        final(s).wf(),
        applied(*old(s), *final(s), spec_c_effect(kind, *old(s)), r),
{
    let ir = s.ir;
    let xlen = s.config.xlen;
    let m = xlen.mask();
    let imm = ci_imm(ir) as u64;
    let rs1i = c_rs1p(ir);
    let rs2i = c_rdp(ir);
    let a = s.xreg(rs1i);
    let b = s.xreg(rs2i);
    match kind {
        InsnKind::CSRLI | InsnKind::CSRAI => {
            if imm == 0 || (xlen == XLen::X32 && imm >> 5 != 0) {
                return raise_illegal(s);
            }
            assert(imm < 64);
            let v = match kind {
                InsnKind::CSRLI => a >> imm,
                _ => {
                    let len = xlen.len();
                    proof { lemma_c_shifts(imm, len as u64, 0); }
                    assert(imm < len as u64);
                    sext(a >> imm, len - imm as usize) & m
                },
            };
            retire(s, rs1i, v, 2)
        },
        InsnKind::CANDI => retire(s, rs1i, (a & (sext(imm, 6) & m)) & m, 2),
        InsnKind::CSUB => retire(s, rs1i, alu(AluOp::Sub, xlen, a, b), 2),
        InsnKind::CXOR => retire(s, rs1i, alu(AluOp::Xor, xlen, a, b), 2),
        InsnKind::COR => retire(s, rs1i, alu(AluOp::Or, xlen, a, b), 2),
        InsnKind::CAND => retire(s, rs1i, alu(AluOp::And, xlen, a, b), 2),
        InsnKind::CSUBW => {
            if xlen != XLen::X64 {
                return raise_illegal(s);
            }
            retire(s, rs1i, alu(AluOp::SubW, xlen, a, b), 2)
        },
        _ => {
            if xlen != XLen::X64 {
                return raise_illegal(s);
            }
            retire(s, rs1i, alu(AluOp::AddW, xlen, a, b), 2)
        },
    }
}

/// The offsets the compressed formats scatter over their immediates.
proof fn lemma_c_offsets(ir: InsnT, imm: u64, off: u64)
    by (bit_vector)
    ensures
        imm == (((ir >> 10) & 7) << 5) | ((ir >> 2) & 0x1f) && off == ((imm >> 1) & 0x3) << 1 | ((imm >> 5) & 0x3) << 3
            | (imm & 0x1) << 5 | ((imm >> 3) & 0x3) << 6 | ((imm >> 7) & 0x1) << 8 ==> off == c_branch_offset(ir),
        imm == (ir >> 2) & 0x7ff && off == ((imm >> 1) & 0x7) << 1 | ((imm >> 9) & 0x1) << 4 | (imm & 0x1) << 5
            | ((imm >> 5) & 0x1) << 6 | ((imm >> 4) & 0x1) << 7 | ((imm >> 7) & 0x3) << 8 | ((imm >> 6) & 0x1) << 10
            | ((imm >> 10) & 0x1) << 11 ==> off == c_jump_offset(ir),
        imm == (ir >> 5) & 0xff && off == ((imm >> 1) & 0x1) << 2 | (imm & 0x1) << 3 | ((imm >> 6) & 0x3) << 4
            | ((imm >> 2) & 0xf) << 6 ==> off == c_addi4spn_offset(ir),
        imm == (((ir >> 12) & 1) << 5) | ((ir >> 2) & 0x1f) && off == ((imm >> 4) & 0x1) << 4 | (imm & 0x1) << 5
            | ((imm >> 3) & 0x1) << 6 | ((imm >> 1) & 0x3) << 7 | ((imm >> 5) & 0x1) << 9 ==> off == c_addi16sp_offset(ir),
{
}

/// Shift amounts of the compressed shifts and `c.lui`.
proof fn lemma_c_shifts(imm: u64, k: u64, sh: u64)
    by (bit_vector)
    ensures
        imm < 64 ==> imm << 12 == imm * 4096,
        sh == imm & k && (k == 31 || k == 63) ==> sh <= 63,
        imm < 64 && (k == 32 || k == 64) && (k == 32 ==> imm >> 5 == 0) ==> imm < k,
{
}

/// Executes a compressed instruction that only uses registers (see
/// `spec_c_effect`).
pub fn exec_c(s: &mut ProcessorState, kind: InsnKind) -> (r: Result<(), Exception>)
    requires
        old(s).wf(),
        is_c_reg_kind(kind),
    ensures
        final(s).wf(),
        applied(*old(s), *final(s), spec_c_effect(kind, *old(s)), r),
{
    if s.privilege.check_extension('c').is_err() {
        return raise_illegal(s);
    }
    let x64 = s.config.xlen == XLen::X64;
    if matches!(kind, InsnKind::CJ | InsnKind::CBEQZ | InsnKind::CBNEZ) || (kind == InsnKind::CJALADDIW && !x64) {
        exec_c_jump(s, kind)
    } else if matches!(kind, InsnKind::CJRMV | InsnKind::CJALRADDEBREAK) {
        exec_c_cr(s, kind)
    } else if matches!(kind, InsnKind::CADDI14SPN | InsnKind::CADDINOP | InsnKind::CJALADDIW) {
        exec_c_addi(s, kind)
    } else if matches!(kind, InsnKind::CLI | InsnKind::CLUIADDI16SP | InsnKind::CSLLI) {
        exec_c_li(s, kind)
    } else {
        exec_c_alu(s, kind)
    }
}

/// Whether `kind` reads and writes a CSR.
pub open spec fn is_csr_kind(kind: InsnKind) -> bool {
    kind == InsnKind::CSRRW || kind == InsnKind::CSRRS || kind == InsnKind::CSRRC || kind == InsnKind::CSRRWI
        || kind == InsnKind::CSRRSI || kind == InsnKind::CSRRCI
}

/// Whether a CSR instruction reads the CSR: always, but `csrrw`/`csrrwi`
/// only when `rd` is not `x0`.
pub open spec fn csr_reads(kind: InsnKind, ir: InsnT) -> bool {
    if kind == InsnKind::CSRRW || kind == InsnKind::CSRRWI { spec_rd(ir) != 0 } else { true }
}

/// Whether a CSR instruction writes the CSR: always, but the set/clear
/// forms only when `rs1` (or the immediate) is not 0.
pub open spec fn csr_writes(kind: InsnKind, ir: InsnT) -> bool {
    if kind == InsnKind::CSRRW || kind == InsnKind::CSRRWI { true } else { spec_rs1(ir) != 0 }
}

/// The value a CSR instruction writes, given the value `csr` read.
pub open spec fn csr_new_value(kind: InsnKind, s: ProcessorState, csr: u64) -> u64 {
    let src = s.spec_xreg(spec_rs1(s.ir));
    let uimm = spec_rs1(s.ir) as u64;
    match kind {
        InsnKind::CSRRW => src,
        InsnKind::CSRRS => src | csr,
        InsnKind::CSRRC => !src & csr,
        InsnKind::CSRRWI => uimm,
        InsnKind::CSRRSI => uimm | csr,
        _ => !uimm & csr,
    }
}

/// The step of a CSR instruction: the CSR (bits 31..20) is read when
/// `csr_reads` (else 0 is used), written with `csr_new_value` when
/// `csr_writes`, and the value read goes to `rd`. A failed read changes
/// nothing; a failed write keeps what `set_csr` changed.
pub open spec fn csr_step(kind: InsnKind, old: ProcessorState, new: ProcessorState, r: Result<(), Exception>) -> bool {
    let id = spec_imm_i(old.ir);
    let read = if csr_reads(kind, old.ir) { old.spec_csr(id) } else { Ok(0u64) };
    &&& new.hartid == old.hartid && new.config == old.config && new.aext == old.aext
    &&& new.pc == old.pc && new.ir == old.ir && new.wfi == old.wfi
    &&& match read {
        Err(e) => {
            &&& r == Err::<(), Exception>(e)
            &&& new.xreg@ == old.xreg@ && new.next_pc == old.next_pc
            &&& new.privilege == old.privilege && new.fext == old.fext
        },
        Ok(c) => {
            let (w, wr) = if csr_writes(kind, old.ir) {
                old.spec_set_csr(id, csr_new_value(kind, old, c))
            } else {
                (old, Ok(()))
            };
            &&& new.privilege == w.privilege && new.fext == w.fext
            &&& match wr {
                Err(e) => r == Err::<(), Exception>(e) && new.xreg@ == old.xreg@ && new.next_pc == old.next_pc,
                Ok(_) => r is Ok && new.xreg@ == old.xreg_written(spec_rd(old.ir), c)
                    && new.next_pc == wrap64(old.pc + 4),
            }
        },
    }
}

/// Executes a CSR instruction (see `csr_step`).
pub fn exec_csr(s: &mut ProcessorState, kind: InsnKind) -> (r: Result<(), Exception>)
    requires
        old(s).wf(),
        is_csr_kind(kind),
    ensures
        final(s).wf(),
        csr_step(kind, *old(s), *final(s), r),
{
    let ir = s.ir;
    let id = imm_i(ir);
    let rdi = rd(ir);
    let rs1i = rs1(ir);
    let reads = match kind {
        InsnKind::CSRRW | InsnKind::CSRRWI => rdi != 0,
        _ => true,
    };
    let writes = match kind {
        InsnKind::CSRRW | InsnKind::CSRRWI => true,
        _ => rs1i != 0,
    };
    let csr = if reads { s.csr(id)? } else { 0 };
    if writes {
        let src = s.xreg(rs1i);
        let uimm = rs1i as u64;
        let v = match kind {
            InsnKind::CSRRW => src,
            InsnKind::CSRRS => src | csr,
            InsnKind::CSRRC => !src & csr,
            InsnKind::CSRRWI => uimm,
            InsnKind::CSRRSI => uimm | csr,
            _ => !uimm & csr,
        };
        s.set_csr(id, v)?;
    }
    let pc = add64(s.pc, 4);
    s.set_xreg(rdi, csr);
    s.set_pc(pc);
    Ok(())
}

/// Whether `kind` is `mret`, `sret`, `wfi` or `sfence.vma`.
pub open spec fn is_sys_kind(kind: InsnKind) -> bool {
    kind == InsnKind::MRET || kind == InsnKind::SRET || kind == InsnKind::WFI || kind == InsnKind::SFENCEVMA
}

/// The exception `sret`, `wfi` or `sfence.vma` raise before acting:
/// `sret` and `sfence.vma` need `s` enabled and are illegal in S with
/// `mstatus.tsr` (resp. `tvm`) set; `wfi` is illegal with `mstatus.tw` set
/// on a hart with user mode.
pub open spec fn sys_fault(kind: InsnKind, s: ProcessorState) -> bool {
    let b = s.privilege.m.mstatus.bits;
    match kind {
        InsnKind::SRET => !s.privilege.spec_has_ext(18) || (field_of(b, 22, 22) == 1 && s.privilege.cur == Privilege::S),
        InsnKind::SFENCEVMA => !s.privilege.spec_has_ext(18) || (s.privilege.cur == Privilege::S && field_of(b, 20, 20) == 1),
        InsnKind::WFI => field_of(b, 21, 21) != 0 && s.privilege.u is Some,
        _ => false,
    }
}

/// Whether a system instruction would stop the hart: `mret` with an
/// `mstatus.mpp` that names no level, or `sret` on a hart without S mode.
pub open spec fn sys_fatal(kind: InsnKind, s: ProcessorState) -> bool {
    ||| kind == InsnKind::MRET && Privilege::spec_from_value(field_of(s.privilege.m.mstatus.bits, 12, 11)) is None
    ||| kind == InsnKind::SRET && !sys_fault(kind, s) && s.privilege.s is None
}

/// Whether `new` is `old` with only the privilege state and next pc
/// changed.
pub open spec fn same_but_priv(old: ProcessorState, new: ProcessorState) -> bool {
    &&& new.hartid == old.hartid && new.config == old.config && new.fext == old.fext && new.aext == old.aext
    &&& new.pc == old.pc && new.ir == old.ir && new.wfi == old.wfi && new.xreg@ == old.xreg@
}

/// The step of `mret`, `sret`, `wfi` or `sfence.vma` on the hart state
/// (TLB and instruction cache flushes are the caller's): the returns go
/// through `trap_return`; `wfi` continues at the next instruction when an
/// interrupt is pending in `mip`, else it is executed again;
/// `sfence.vma` continues at the next instruction.
pub open spec fn sys_step(kind: InsnKind, s0: ProcessorState, s1: ProcessorState, r: Result<(), Exception>) -> bool {
    if sys_fault(kind, s0) {
        r == Err::<(), Exception>(Exception::IllegalInsn(s0.ir)) && same_but_priv(s0, s1) && s1.privilege == s0.privilege
            && s1.next_pc == s0.next_pc
    } else {
        &&& r is Ok
        &&& same_but_priv(s0, s1)
        &&& match kind {
            InsnKind::MRET | InsnKind::SRET => {
                let (p, pc, prev) = s0.privilege.spec_trap_return(if kind == InsnKind::MRET { Privilege::M } else { Privilege::S });
                s1.privilege == (PrivilegeStates { cur: p.spec_clamp(prev), ..p }) && s1.next_pc == pc
            },
            InsnKind::WFI => s1.privilege == s0.privilege
                && s1.next_pc == (if s0.privilege.m.spec_mip() != 0 { wrap64(s0.pc + 4) } else { s0.next_pc }),
            _ => s1.privilege == s0.privilege && s1.next_pc == wrap64(s0.pc + 4),
        }
    }
}

/// Executes `mret`, `sret`, `wfi` or `sfence.vma` on the hart state (see
/// `sys_step`).
pub fn exec_sys(s: &mut ProcessorState, kind: InsnKind) -> (r: Result<(), Exception>)
    requires
        old(s).wf(),
        is_sys_kind(kind),
        !sys_fatal(kind, *old(s)),
    ensures
        final(s).wf(),
        sys_step(kind, *old(s), *final(s), r),
{
    match kind {
        InsnKind::MRET => {
            s.trap_return(&Privilege::M);
            Ok(())
        },
        InsnKind::SRET => {
            if s.privilege.check_extension('s').is_err() {
                return raise_illegal(s);
            }
            if s.privilege.m.mstatus.tsr() == 1 && s.privilege.cur == Privilege::S {
                return raise_illegal(s);
            }
            s.trap_return(&Privilege::S);
            Ok(())
        },
        InsnKind::WFI => {
            if s.privilege.m.mstatus.tw() != 0 && s.privilege.u.is_some() {
                return raise_illegal(s);
            }
            if s.privilege.m.mip() != 0 {
                let pc = add64(s.pc, 4);
                s.set_pc(pc);
            }
            Ok(())
        },
        _ => {
            if s.privilege.check_extension('s').is_err() {
                return raise_illegal(s);
            }
            if s.privilege.cur == Privilege::S && s.privilege.m.mstatus.tvm() == 1 {
                return raise_illegal(s);
            }
            let pc = add64(s.pc, 4);
            s.set_pc(pc);
            Ok(())
        },
    }
}

} // verus!
