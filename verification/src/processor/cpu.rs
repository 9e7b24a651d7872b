//! A hart: its state, MMU and instruction fetcher, and the steps that take
//! interrupts, fetch and execute instructions and take traps.
use vstd::prelude::*;
use crate::global::{InsnT, RegT};
use crate::processor::ProcessorCfg;
use crate::processor::bus::{Bus, Space};
use crate::processor::decode::{spec_decoders, InsnKind};
use crate::processor::exec::{applied, csr_step, exec_base, exec_c, exec_csr, exec_sys, is_c_reg_kind, is_csr_kind,
    is_sys_kind, spec_base_effect, spec_c_effect, sys_fatal, sys_step};
use crate::processor::exec_mem::{exec_fmem, exec_lr, exec_mem, exec_sc, fmem_step, is_fmem_kind, is_mem_kind,
    lr_step, lrsc_fault, mem_step, sc_step, spec_fmem_op, spec_mem_op, chosen};
use crate::processor::extensions::{supported_extensions, LCReservation, ExtensionA};
use crate::processor::fetcher::{fetch_rel, fetch_step, Fetcher};
use crate::processor::mmu::get_privileage;
use crate::processor::mmu::pte::supported_satp;
use crate::bits::field_of;
use crate::processor::insn::{rs1, spec_rs1};
use crate::processor::load_store::{release, translatable};
use crate::processor::mmu::{Mmu, MmuOpt};
use crate::processor::exec_float::{exec_fmove, fmove_step, is_fmove_kind, spec_fmove_op};
use crate::processor::exec_fpu::{fpu_complete, fpu_complete_step, fpu_request, is_fpu, is_fpu_kind, spec_fpu_request,
    valid_outcome, FloatOutcome, FloatRequest};
use crate::processor::mulh::{exec_mulh, spec_mulh_effect, MulhOp};
use crate::processor::privilege::{Privilege, PrivilegeStates};
use crate::processor::privilege::m::PrivM;
use crate::processor::state::ProcessorState;
use crate::processor::trap::{Exception, Interrupt, Trap};
use crate::processor::bus::not_held_by;

verus! {

/// A hart.
pub struct Processor {
    pub state: ProcessorState,
    pub mmu: Mmu,
    pub fetcher: Fetcher,
    /// The floating-point operation the hart waits for, if any.
    pub pending: Option<FloatRequest>,
}

/// The high-half product of a kind, if it is one.
pub open spec fn mulh_op(kind: InsnKind) -> Option<MulhOp> {
    match kind {
        InsnKind::MULH => Some(MulhOp::Mulh),
        InsnKind::MULHSU => Some(MulhOp::Mulhsu),
        InsnKind::MULHU => Some(MulhOp::Mulhu),
        _ => None,
    }
}

/// Whether the state allows every translation: an unsupported `satp` mode
/// is met only when no access translates.
pub open spec fn all_translatable(p: PrivilegeStates) -> bool {
    translatable(p, MmuOpt::Fetch) && translatable(p, MmuOpt::Load) && translatable(p, MmuOpt::Store)
}

/// Whether executing `kind` would stop the hart (see `sys_fatal`).
pub open spec fn exec_fatal(kind: InsnKind, s: ProcessorState) -> bool {
    is_sys_kind(kind) && sys_fatal(kind, s)
}

/// Whether every cached translation of `m` is dropped.
pub open spec fn tlb_flushed(m: Mmu) -> bool {
    forall|vpn: u64| #[trigger] m.fetch_tlb.spec_get(vpn) is None && m.load_tlb.spec_get(vpn) is None
        && m.store_tlb.spec_get(vpn) is None
}

/// Whether every cached instruction of `f` is dropped.
pub open spec fn icache_flushed(f: Fetcher) -> bool {
    forall|a: u64| #[trigger] f.icache.spec_get(a) is None
}

/// The step executing instruction `kind` makes from `(p0, b0)` to
/// `(p1, b1)` with result `r`, per instruction group. Instructions that
/// only touch registers leave the MMU, the fetcher and the bus alone
/// (`fence.i` drops the instruction cache); `mret`/`sret` drop the TLBs
/// and the instruction cache, `sfence.vma` the cached translations of
/// the page of `rs1` (or all when `rs1` is `x0`).
pub open spec fn exec_step<S: Space>(kind: InsnKind, p0: Processor, p1: Processor, b0: Bus<S>, b1: Bus<S>, r: Result<(), Exception>) -> bool {
    let s0 = p0.state;
    let s1 = p1.state;
    let regs_only = p1.mmu == p0.mmu && b1 == b0 && p1.fetcher.decoder == p0.fetcher.decoder;
    if spec_base_effect(kind, s0) is Some {
        &&& applied(s0, s1, spec_base_effect(kind, s0)->0, r) && regs_only
        &&& if kind == InsnKind::FENCEI { icache_flushed(p1.fetcher) } else { p1.fetcher == p0.fetcher }
    } else if is_c_reg_kind(kind) {
        applied(s0, s1, spec_c_effect(kind, s0), r) && regs_only && p1.fetcher == p0.fetcher
    } else if is_csr_kind(kind) {
        csr_step(kind, s0, s1, r) && regs_only && p1.fetcher == p0.fetcher
    } else if mulh_op(kind) is Some {
        applied(s0, s1, spec_mulh_effect(mulh_op(kind)->0, s0), r) && regs_only && p1.fetcher == p0.fetcher
    } else if is_mem_kind(kind, s0.config.xlen) {
        mem_step(spec_mem_op(kind, s0), s0, s1, p0.mmu, p1.mmu, b0, b1, r) && p1.fetcher == p0.fetcher
    } else if is_fmem_kind(kind, s0.config.xlen) {
        fmem_step(spec_fmem_op(kind, s0), s0, s1, p0.mmu, p1.mmu, b0, b1, r) && p1.fetcher == p0.fetcher
    } else if is_fmove_kind(kind) {
        fmove_step(spec_fmove_op(kind, s0), s0, s1, r) && regs_only && p1.fetcher == p0.fetcher
    } else if kind == InsnKind::LRW || kind == InsnKind::LRD {
        &&& p1.fetcher == p0.fetcher
        &&& match lrsc_fault(kind, s0) {
            Some(e) => r == Err::<(), Exception>(e) && s1 == s0 && p1.mmu == p0.mmu && b1 == b0,
            None => lr_step(if kind == InsnKind::LRW { 4 } else { 8 }, s0, s1, p0.mmu, p1.mmu, b0, b1, r),
        }
    } else if kind == InsnKind::SCW || kind == InsnKind::SCD {
        &&& p1.fetcher == p0.fetcher
        &&& match lrsc_fault(kind, s0) {
            Some(e) => r == Err::<(), Exception>(e) && s1 == s0 && p1.mmu == p0.mmu && b1 == b0,
            None => sc_step(if kind == InsnKind::SCW { 4 } else { 8 }, s0, s1, p0.mmu, p1.mmu, b0, b1, r),
        }
    } else {
        &&& sys_step(kind, s0, s1, r)
        &&& b1 == b0 && p1.fetcher.decoder == p0.fetcher.decoder
        &&& if kind == InsnKind::MRET || (kind == InsnKind::SRET && r is Ok) {
            tlb_flushed(p1.mmu) && icache_flushed(p1.fetcher)
        } else if kind == InsnKind::SFENCEVMA && r is Ok {
            if spec_rs1(s0.ir) == 0 {
                tlb_flushed(p1.mmu) && icache_flushed(p1.fetcher)
            } else {
                let vpn = s0.spec_xreg(spec_rs1(s0.ir)) >> 12;
                forall|o: MmuOpt, v: u64| #[trigger] p1.mmu.spec_tlb(o).spec_get(v)
                    == if v == vpn { None } else { p0.mmu.spec_tlb(o).spec_get(v) }
            }
        } else {
            p1.mmu == p0.mmu && p1.fetcher == p0.fetcher
        }
    }
}

/// The interrupt taken for the pending bits `pending`: machine external,
/// software, timer, then supervisor external, software, timer; `None`
/// when none is pending, and no interrupt when only others are (the hart
/// stops there).
pub open spec fn spec_take_interrupt(pending: RegT) -> Option<Interrupt> {
    if pending & (1u64 << 11) != 0 {
        Some(Interrupt::MEInt)
    } else if pending & (1u64 << 3) != 0 {
        Some(Interrupt::MSInt)
    } else if pending & (1u64 << 7) != 0 {
        Some(Interrupt::MTInt)
    } else if pending & (1u64 << 9) != 0 {
        Some(Interrupt::SEInt)
    } else if pending & (1u64 << 1) != 0 {
        Some(Interrupt::SSInt)
    } else if pending & (1u64 << 5) != 0 {
        Some(Interrupt::STInt)
    } else {
        None
    }
}

/// Whether trap `t` can be taken: a trap delegated to S needs S mode.
pub open spec fn trap_deliverable(s: ProcessorState, t: Trap) -> bool {
    let (int_flag, code, _) = t.spec_cause();
    s.privilege.spec_delegate_priv(code, int_flag) == Privilege::S ==> s.privilege.s is Some
}

/// The state after taking trap `t` (see `PrivilegeStates::spec_trap_enter`).
pub open spec fn trap_taken(s0: ProcessorState, s1: ProcessorState, t: Trap) -> bool {
    let (int_flag, code, val) = t.spec_cause();
    let (p, pc, tgt) = s0.privilege.spec_trap_enter(code, int_flag, val, s0.pc, s0.next_pc);
    &&& s1.privilege == (PrivilegeStates { cur: p.spec_clamp(tgt), ..p })
    &&& s1.next_pc == pc
    &&& s1.xreg@ == s0.xreg@ && s1.pc == s0.pc && s1.ir == s0.ir && s1.wfi == s0.wfi
    &&& s1.fext == s0.fext && s1.aext == s0.aext && s1.config == s0.config && s1.hartid == s0.hartid
}

/// Whether `s1` is `s0` with one more retired instruction when `retire`.
pub open spec fn counted(s0: ProcessorState, s1: ProcessorState, retire: bool) -> bool {
    let n = s0.privilege.m.instret;
    let n1: u64 = if !retire { n } else if n == u64::MAX { 0 } else { (n + 1) as u64 };
    &&& s1.privilege == (PrivilegeStates { m: PrivM { instret: n1, ..s0.privilege.m }, ..s0.privilege })
    &&& s1.xreg@ == s0.xreg@ && s1.pc == s0.pc && s1.next_pc == s0.next_pc && s1.ir == s0.ir && s1.wfi == s0.wfi
    &&& s1.fext == s0.fext && s1.aext == s0.aext && s1.config == s0.config && s1.hartid == s0.hartid
}

/// What a step stopped by a fatal condition reports.
#[derive(Debug, Clone, Copy, PartialEq, Eq, Structural)]
pub enum StepError {
    /// The instruction raised an exception.
    Exception(Exception),
    /// The hart met a state it cannot go on from.
    Halt,
    /// The instruction waits for floating-point arithmetic.
    Float(FloatRequest),
}

impl Processor {
    /// Well-formedness of the hart.
    pub open spec fn wf(&self) -> bool {
        &&& self.state.wf()
        &&& self.mmu.wf()
        &&& self.fetcher.wf()
        &&& self.pending matches Some(req) ==> self.state.fext is Some && is_fpu_kind(req.kind)
    }

    /// Hart `hartid` built for `config`, before reset.
    pub fn new(hartid: usize, config: ProcessorCfg) -> (r: Processor)
        requires
            supported_extensions(config.extensions@),
        ensures
            r.wf(),
            r.state.hartid == hartid,
            r.state.config == config,
            r.state.privilege.cur == Privilege::M,
            tlb_flushed(r.mmu),
            icache_flushed(r.fetcher),
            r.pending is None,
    {
        let state = ProcessorState::new(hartid, config);
        Processor { state, mmu: Mmu::new(), fetcher: Fetcher::new(), pending: None }
    }

    /// Resets the hart to start at `start_address` (see
    /// `ProcessorState::reset`), releasing its reservations and dropping
    /// its cached translations and instructions.
    pub fn reset<S: Space>(&mut self, bus: &mut Bus<S>, start_address: u64) -> (r: Result<(), String>)
        requires
            old(self).wf(),
            old(bus).wf(),
        ensures
            final(self).wf(),
            final(bus).wf(),
            r is Err ==> *final(self) == *old(self) && *final(bus) == *old(bus),
            r is Ok ==> {
                &&& final(self).state.next_pc == start_address && final(self).state.pc == 0
                &&& forall|i: int| 0 <= i < 32 ==> final(self).state.xreg@[i] == 0
                &&& final(bus).lock_table@ == old(bus).lock_table@.filter(not_held_by(old(self).state.hartid))
                &&& final(bus).space == old(bus).space
                &&& tlb_flushed(final(self).mmu)
                &&& icache_flushed(final(self).fetcher)
                &&& final(self).pending is None
            },
            r is Err <==> (old(self).state.config.xlen == crate::global::XLen::X32 && start_address > 0xffff_ffff),
            r matches Err(e) ==> e@ == crate::processor::state::start_addr_message(old(self).state.hartid, start_address),
    {
        if let Err(e) = self.state.reset(start_address) {
            return Err(e);
        }
        release(&self.state, bus);
        self.mmu.flush_tlb();
        self.fetcher.flush_icache();
        self.pending = None;
        Ok(())
    }

    /// The hart's state.
    pub fn state(&self) -> (r: &ProcessorState)
        ensures
            *r == self.state,
    {
        &self.state
    }

    /// The hart's state, to change.
    pub fn state_mut(&mut self) -> (r: &mut ProcessorState)
        ensures
            *r == old(self).state,
            *final(self) == (Processor { state: *final(r), ..*old(self) }),
    {
        &mut self.state
    }

    /// The hart's MMU.
    pub fn mmu(&self) -> (r: &Mmu)
        ensures
            *r == self.mmu,
    {
        &self.mmu
    }

    /// The hart's instruction fetcher.
    pub fn fetcher(&self) -> (r: &Fetcher)
        ensures
            *r == self.fetcher,
    {
        &self.fetcher
    }

    /// Executes an instruction that only uses the hart state.
    fn execute_regs<S: Space>(&mut self, bus: &Bus<S>, kind: InsnKind) -> (r: Result<(), Exception>)
        requires
            old(self).wf(),
            spec_base_effect(kind, old(self).state) is Some || is_c_reg_kind(kind) || is_csr_kind(kind)
                || mulh_op(kind) is Some,
        ensures
            final(self).pending == old(self).pending,
            final(self).wf(),
            exec_step(kind, *old(self), *final(self), *bus, *bus, r),
    {
        if matches!(kind, InsnKind::CADDI14SPN | InsnKind::CADDINOP | InsnKind::CJALADDIW | InsnKind::CLI
            | InsnKind::CLUIADDI16SP | InsnKind::CSRLI | InsnKind::CSRAI | InsnKind::CANDI | InsnKind::CSUB
            | InsnKind::CXOR | InsnKind::COR | InsnKind::CAND | InsnKind::CSUBW | InsnKind::CADDW | InsnKind::CJ
            | InsnKind::CBEQZ | InsnKind::CBNEZ | InsnKind::CSLLI | InsnKind::CJRMV | InsnKind::CJALRADDEBREAK) {
            exec_c(&mut self.state, kind)
        } else if matches!(kind, InsnKind::CSRRW | InsnKind::CSRRS | InsnKind::CSRRC | InsnKind::CSRRWI
            | InsnKind::CSRRSI | InsnKind::CSRRCI) {
            exec_csr(&mut self.state, kind)
        } else if matches!(kind, InsnKind::MULH | InsnKind::MULHSU | InsnKind::MULHU) {
            let op = match kind {
                InsnKind::MULH => MulhOp::Mulh,
                InsnKind::MULHSU => MulhOp::Mulhsu,
                _ => MulhOp::Mulhu,
            };
            exec_mulh(&mut self.state, op)
        } else {
            let r = exec_base(&mut self.state, kind);
            if kind == InsnKind::FENCEI {
                self.fetcher.flush_icache();
            }
            r
        }
    }

    /// Executes a floating-point sign injection or move.
    fn execute_fmove<S: Space>(&mut self, bus: &Bus<S>, kind: InsnKind) -> (r: Result<(), Exception>)
        requires
            old(self).wf(),
            spec_base_effect(kind, old(self).state) is None && !is_c_reg_kind(kind) && !is_csr_kind(kind)
                && mulh_op(kind) is None && !is_mem_kind(kind, old(self).state.config.xlen)
                && !is_fmem_kind(kind, old(self).state.config.xlen),
            is_fmove_kind(kind),
        ensures
            final(self).pending == old(self).pending,
            final(self).wf(),
            exec_step(kind, *old(self), *final(self), *bus, *bus, r),
    {
        exec_fmove(&mut self.state, kind)
    }

    /// Executes a load, store or atomic instruction.
    fn execute_mem<S: Space>(&mut self, bus: &mut Bus<S>, kind: InsnKind) -> (r: Result<(), Exception>)
        requires
            old(self).wf(),
            old(bus).wf(),
            all_translatable(old(self).state.privilege),
            spec_base_effect(kind, old(self).state) is None && !is_c_reg_kind(kind) && !is_csr_kind(kind)
                && mulh_op(kind) is None,
            is_mem_kind(kind, old(self).state.config.xlen) || is_fmem_kind(kind, old(self).state.config.xlen)
                || kind == InsnKind::LRW || kind == InsnKind::LRD || kind == InsnKind::SCW || kind == InsnKind::SCD,
        ensures
            final(self).pending == old(self).pending,
            final(self).wf(),
            final(bus).wf(),
            exec_step(kind, *old(self), *final(self), *old(bus), *final(bus), r),
    {
        let x64 = self.state.config.xlen == crate::global::XLen::X64;
        if matches!(kind, InsnKind::LRW | InsnKind::LRD) {
            exec_lr(&mut self.state, &mut self.mmu, bus, kind)
        } else if matches!(kind, InsnKind::SCW | InsnKind::SCD) {
            exec_sc(&mut self.state, &mut self.mmu, bus, kind)
        } else if matches!(kind, InsnKind::CFLD | InsnKind::CFLDSP | InsnKind::CFSD | InsnKind::CFSDSP
            | InsnKind::FLW | InsnKind::FSW | InsnKind::FLD | InsnKind::FSD)
            || (!x64 && matches!(kind, InsnKind::CLDFLW | InsnKind::CLDSPCFLWSP | InsnKind::CSDFSW
            | InsnKind::CSDSPFSWSP)) {
            exec_fmem(&mut self.state, &mut self.mmu, bus, kind)
        } else {
            exec_mem(&mut self.state, &mut self.mmu, bus, kind)
        }
    }

    /// Executes `mret`, `sret`, `wfi` or `sfence.vma`.
    fn execute_sys<S: Space>(&mut self, bus: &Bus<S>, kind: InsnKind) -> (r: Result<(), Exception>)
        requires
            old(self).wf(),
            is_sys_kind(kind),
            !sys_fatal(kind, old(self).state),
        ensures
            final(self).pending == old(self).pending,
            final(self).wf(),
            exec_step(kind, *old(self), *final(self), *bus, *bus, r),
    {
        let ir = self.state.ir;
        let rs1i = rs1(ir);
        let va = self.state.xreg(rs1i);
        let r = exec_sys(&mut self.state, kind);
        match kind {
            InsnKind::MRET => {
                self.mmu.flush_tlb();
                self.fetcher.flush_icache();
            },
            InsnKind::SRET => {
                if r.is_ok() {
                    self.mmu.flush_tlb();
                    self.fetcher.flush_icache();
                }
            },
            InsnKind::SFENCEVMA => {
                if r.is_ok() {
                    if rs1i != 0 {
                        self.mmu.flush_by_vpn(va >> 12);
                        self.fetcher.flush_icache_by_vpn(va >> 12);
                    } else {
                        self.mmu.flush_tlb();
                        self.fetcher.flush_icache();
                    }
                }
            },
            _ => {},
        }
        r
    }

    /// Executes instruction `kind` (the state's current instruction) (see
    /// `exec_step`).
    pub fn execute<S: Space>(&mut self, bus: &mut Bus<S>, kind: InsnKind) -> (r: Result<(), Exception>)
        requires
            old(self).wf(),
            old(bus).wf(),
            all_translatable(old(self).state.privilege),
            !exec_fatal(kind, old(self).state),
            !is_fpu_kind(kind),
        ensures
            final(self).pending == old(self).pending,
            final(self).wf(),
            final(bus).wf(),
            exec_step(kind, *old(self), *final(self), *old(bus), *final(bus), r),
    {
        if matches!(kind, InsnKind::MRET | InsnKind::SRET | InsnKind::WFI | InsnKind::SFENCEVMA) {
            self.execute_sys(bus, kind)
        } else if matches!(kind, InsnKind::LB | InsnKind::LH | InsnKind::LW | InsnKind::LD | InsnKind::LBU
            | InsnKind::LHU | InsnKind::LWU | InsnKind::SB | InsnKind::SH | InsnKind::SW | InsnKind::SD
            | InsnKind::CLW | InsnKind::CLWSP | InsnKind::CSW | InsnKind::CSWSP | InsnKind::AMOSWAPW
            | InsnKind::AMOADDW | InsnKind::AMOANDW | InsnKind::AMOORW | InsnKind::AMOXORW | InsnKind::AMOMAXW
            | InsnKind::AMOMINW | InsnKind::AMOMAXUW | InsnKind::AMOMINUW | InsnKind::AMOSWAPD | InsnKind::AMOADDD
            | InsnKind::AMOADND | InsnKind::AMOORD | InsnKind::AMOXORD | InsnKind::AMOMAXD | InsnKind::AMOMIND
            | InsnKind::AMOMAXUD | InsnKind::AMOMINUD | InsnKind::CLDFLW | InsnKind::CLDSPCFLWSP | InsnKind::CSDFSW
            | InsnKind::CSDSPFSWSP | InsnKind::CFLD | InsnKind::CFLDSP | InsnKind::CFSD | InsnKind::CFSDSP
            | InsnKind::LRW | InsnKind::LRD | InsnKind::SCW | InsnKind::SCD | InsnKind::FLW | InsnKind::FSW
            | InsnKind::FLD | InsnKind::FSD) {
            self.execute_mem(bus, kind)
        } else if matches!(kind, InsnKind::FSGNJS | InsnKind::FSGNJNS | InsnKind::FSGNJXS | InsnKind::FMVXW
            | InsnKind::FMVWX | InsnKind::FSGNJD | InsnKind::FSGNJND | InsnKind::FSGNJXD | InsnKind::FMVXD
            | InsnKind::FMVDX) {
            self.execute_fmove(bus, kind)
        } else {
            self.execute_regs(bus, kind)
        }
    }
}

/// Whether `(p1, b1, r)` is what executing one instruction gives from
/// `(p0, b0)`: the next pc becomes the pc, the instruction there is
/// fetched (see `fetch_rel`) and becomes the current one, then executed
/// (see `exec_step`) unless that would stop the hart; an instruction that
/// completes, or raises a call or breakpoint, counts as retired.
pub open spec fn insn_rel<S: Space>(p0: Processor, p1: Processor, b0: Bus<S>, b1: Bus<S>, r: Result<(), StepError>) -> bool {
    let sf = ProcessorState { pc: p0.state.next_pc, ..p0.state };
    exists|f1: Fetcher, m1: Mmu, bf: Bus<S>, fr: Result<(InsnT, InsnKind), Exception>|
        #![trigger chosen((f1, m1, bf, fr))] {
        &&& fetch_rel(p0.fetcher, f1, p0.mmu, m1, b0, bf, sf, fr)
        &&& match fr {
            Err(e) => r == Err::<(), StepError>(StepError::Exception(e)) && p1 == (Processor { state: sf, mmu: m1, fetcher: f1, pending: p0.pending })
                && b1 == bf,
            Ok((ir, kind)) => {
                let pe = Processor { state: ProcessorState { ir, ..sf }, mmu: m1, fetcher: f1, pending: p0.pending };
                if exec_fatal(kind, pe.state) {
                    r == Err::<(), StepError>(StepError::Halt) && p1 == pe && b1 == bf
                } else if is_fpu_kind(kind) {
                    b1 == bf && match spec_fpu_request(kind, pe.state) {
                        Err(e) => r == Err::<(), StepError>(StepError::Exception(e)) && p1 == pe,
                        Ok(req) => r == Err::<(), StepError>(StepError::Float(req))
                            && p1 == (Processor { pending: Some(req), ..pe }),
                    }
                } else {
                    exists|px: Processor, rx: Result<(), Exception>| #![trigger chosen((px, rx))] {
                        &&& exec_step(kind, pe, px, bf, b1, rx)
                        &&& p1.mmu == px.mmu && p1.fetcher == px.fetcher && p1.pending == px.pending
                        &&& counted(px.state, p1.state, rx is Ok || rx->Err_0.spec_executed())
                        &&& r == match rx {
                            Ok(_) => Ok::<(), StepError>(()),
                            Err(e) => Err::<(), StepError>(StepError::Exception(e)),
                        }
                    }
                }
            },
        }
    }
}

/// Whether `(p1, b1)` is `p0` after taking trap `t` on bus `b0`: the trap
/// is entered (see `trap_taken`) and the TLBs and instruction cache
/// dropped.
pub open spec fn trap_rel<S: Space>(p0: Processor, p1: Processor, b0: Bus<S>, b1: Bus<S>, t: Trap) -> bool {
    &&& trap_taken(p0.state, p1.state, t)
    &&& tlb_flushed(p1.mmu) && icache_flushed(p1.fetcher)
    &&& p1.fetcher.decoder == p0.fetcher.decoder
    &&& b1 == b0
}

/// Whether `(p1, b1, r)` is what one step of the hart gives from
/// `(p0, b0)`. A hart waiting for an interrupt stays unchanged while no
/// enabled interrupt is pending, else stops waiting. Then a pending
/// interrupt (see `spec_take_interrupt`) is taken, or else one
/// instruction is executed (see `insn_rel`) and the exception it raises
/// is taken. `r` is false when the hart stops: on a `satp` mode it cannot
/// translate with, on pending interrupts none of which it takes, on a
/// trap delegated to a missing S mode, or on an instruction it cannot
/// execute (see `exec_fatal`).
pub open spec fn step_rel<S: Space>(p0: Processor, p1: Processor, b0: Bus<S>, b1: Bus<S>, r: bool) -> bool {
    let m = p0.state.privilege.m;
    if p0.pending is Some {
        !r && p1 == p0 && b1 == b0
    } else if p0.state.wfi && m.spec_mip() & m.mie == 0 {
        r && p1 == p0 && b1 == b0
    } else {
        let q = Processor { state: ProcessorState { wfi: false, ..p0.state }, ..p0 };
        let pend = q.state.privilege.spec_pending_interrupts();
        if !all_translatable(q.state.privilege) {
            !r && p1 == q && b1 == b0
        } else if pend != 0 {
            match spec_take_interrupt(pend) {
                None => !r && p1 == q && b1 == b0,
                Some(i) => if !trap_deliverable(q.state, Trap::Interrupt(i)) {
                    !r && p1 == q && b1 == b0
                } else {
                    r && trap_rel(q, p1, b0, b1, Trap::Interrupt(i))
                },
            }
        } else {
            exists|pi: Processor, bi: Bus<S>, ri: Result<(), StepError>| #![trigger chosen((pi, bi, ri))] {
                &&& insn_rel(q, pi, b0, bi, ri)
                &&& match ri {
                    Ok(_) => r && p1 == pi && b1 == bi,
                    Err(StepError::Halt) => !r && p1 == pi && b1 == bi,
                    Err(StepError::Float(_)) => !r && p1 == pi && b1 == bi,
                    Err(StepError::Exception(e)) => if !trap_deliverable(pi.state, Trap::Exception(e)) {
                        !r && p1 == pi && b1 == bi
                    } else {
                        r && trap_rel(pi, p1, bi, b1, Trap::Exception(e))
                    },
                }
            }
        }
    }
}

/// Whether `(p1, b1)` is `(p0, b0)` after the atomic extension's check at
/// the end of a run: a load reservation taken more than 16 retired
/// instructions ago is dropped, and the hart's memory locks released.
pub open spec fn reservation_expiry<S: Space>(p0: Processor, p1: Processor, b0: Bus<S>, b1: Bus<S>) -> bool {
    let s0 = p0.state;
    if s0.aext is Some && s0.aext->0.lc_res.valid && s0.privilege.m.instret > s0.aext->0.lc_res.timestamp + 16 {
        let res = LCReservation { valid: false, ..s0.aext->0.lc_res };
        &&& p1 == (Processor { state: ProcessorState { aext: Some(ExtensionA { lc_res: res }), ..s0 }, ..p0 })
        &&& b1.space == b0.space
        &&& b1.lock_table@ == b0.lock_table@.filter(not_held_by(s0.hartid))
    } else {
        p1 == p0 && b1 == b0
    }
}

/// Whether step `j` of run `t` goes from state `j` to state `j + 1`,
/// keeping the hart running unless it is the last step and `!r`.
pub open spec fn run_link<S: Space>(t: Seq<(Processor, Bus<S>)>, j: int, r: bool) -> bool {
    step_rel(t[j].0, t[j + 1].0, t[j].1, t[j + 1].1, j + 1 < t.len() - 1 || r)
}

/// Whether the states `t` are a run of at most `n` steps: each step
/// goes on from the one before and all but the last keep the hart
/// running; the run has `n` steps when `r`, and its last step stopped
/// the hart otherwise.
pub open spec fn run_trace<S: Space>(t: Seq<(Processor, Bus<S>)>, n: nat, r: bool) -> bool {
    &&& 1 <= t.len() <= n + 1
    &&& forall|j: int| 0 <= j < t.len() - 1 ==> #[trigger] run_link(t, j, r)
    &&& r ==> t.len() == n + 1
    &&& !r ==> t.len() >= 2
}

/// Whether an unsupported `satp` mode cannot be met by any translation.
fn translatable_check(p: &PrivilegeStates) -> (r: bool)
    requires
        p.wf(),
    ensures
        r == all_translatable(*p),
{
    match &p.s {
        None => true,
        Some(s) => {
            let satp = s.satp;
            let supported = match satp.xlen {
                crate::global::XLen::X32 => true,
                crate::global::XLen::X64 => {
                    let mode = crate::bits::bit_range(satp.bits, 63, 60);
                    mode == 0 || mode == 8 || mode == 9
                },
            };
            supported || (get_privileage(p, &MmuOpt::Fetch) == 3 && get_privileage(p, &MmuOpt::Load) == 3
                && get_privileage(p, &MmuOpt::Store) == 3)
        },
    }
}

/// Whether executing `kind` would stop the hart (see `exec_fatal`).
fn exec_fatal_check(s: &ProcessorState, kind: InsnKind) -> (r: bool)
    requires
        s.wf(),
    ensures
        r == exec_fatal(kind, *s),
{
    match kind {
        InsnKind::MRET => {
            let mpp = s.privilege.m.mstatus.mpp();
            proof {
                crate::bits::lemma_field_of_bound(s.privilege.m.mstatus.bits, 12, 11);
                crate::bits::lemma_mask_values();
            }
            Privilege::from_value(mpp as u8).is_none()
        },
        InsnKind::SRET => {
            proof {
                crate::bits::lemma_field_of_bound(s.privilege.m.mstatus.bits, 12, 11);
            }
            let fault = s.privilege.check_extension('s').is_err()
                || (s.privilege.m.mstatus.tsr() == 1 && s.privilege.cur == Privilege::S);
            !fault && s.privilege.s.is_none()
        },
        _ => false,
    }
}

impl Processor {
    /// The interrupt to take for the pending bits `pending` (see
    /// `spec_take_interrupt`).
    pub fn take_interrupt(pending: RegT) -> (r: Option<Interrupt>)
        ensures
            r == spec_take_interrupt(pending),
    {
        if pending & (1u64 << 11) != 0 {
            Some(Interrupt::MEInt)
        } else if pending & (1u64 << 3) != 0 {
            Some(Interrupt::MSInt)
        } else if pending & (1u64 << 7) != 0 {
            Some(Interrupt::MTInt)
        } else if pending & (1u64 << 9) != 0 {
            Some(Interrupt::SEInt)
        } else if pending & (1u64 << 1) != 0 {
            Some(Interrupt::SSInt)
        } else if pending & (1u64 << 5) != 0 {
            Some(Interrupt::STInt)
        } else {
            None
        }
    }

    /// Whether trap `t` can be taken (see `trap_deliverable`).
    pub fn deliverable(&self, t: &Trap) -> (r: bool)
        requires
            self.wf(),
        ensures
            r == trap_deliverable(self.state, *t),
    {
        let (int_flag, code, _) = t.cause();
        proof {
            lemma_cause_code_bound(*t);
        }
        match self.state.privilege.delegate_priv(code, int_flag) {
            Privilege::S => self.state.privilege.s.is_some(),
            _ => true,
        }
    }

    /// Takes trap `t` (see `trap_rel`).
    pub fn handle_trap<S: Space>(&mut self, bus: &Bus<S>, t: Trap)
        requires
            old(self).wf(),
            trap_deliverable(old(self).state, t),
        ensures
            final(self).pending == old(self).pending,
            final(self).wf(),
            trap_rel(*old(self), *final(self), *bus, *bus, t),
    {
        let (int_flag, code, tval) = t.cause();
        proof {
            lemma_cause_code_bound(t);
        }
        self.state.trap_enter(code, int_flag, tval);
        self.mmu.flush_tlb();
        self.fetcher.flush_icache();
    }

    /// Executes one instruction (see `insn_rel`).
    pub fn one_insn<S: Space>(&mut self, bus: &mut Bus<S>) -> (r: Result<(), StepError>)
        requires
            old(self).wf(),
            old(bus).wf(),
            all_translatable(old(self).state.privilege),
        ensures
            final(self).wf(),
            final(bus).wf(),
            insn_rel(*old(self), *final(self), *old(bus), *final(bus), r),
    {
        self.state.pc = self.state.next_pc;
        let ghost sf = self.state;
        let fr = self.fetcher.fetch(&self.state, &mut self.mmu, bus);
        let ghost f1 = self.fetcher;
        let ghost m1 = self.mmu;
        let ghost bf = *bus;
        assert(chosen((f1, m1, bf, fr)));
        let (ir, kind) = match fr {
            Ok(x) => x,
            Err(e) => return Err(StepError::Exception(e)),
        };
        self.state.ir = ir;
        if exec_fatal_check(&self.state, kind) {
            return Err(StepError::Halt);
        }
        if is_fpu(kind) {
            return match fpu_request(&self.state, kind) {
                Err(e) => Err(StepError::Exception(e)),
                Ok(req) => {
                    self.pending = Some(req);
                    Err(StepError::Float(req))
                },
            };
        }
        let rx = self.execute(bus, kind);
        let ghost px = *self;
        assert(chosen((px, rx)));
        let retired = match rx {
            Ok(_) => true,
            Err(e) => e.executed(),
        };
        if retired {
            self.state.retire();
        }
        match rx {
            Ok(_) => Ok(()),
            Err(e) => Err(StepError::Exception(e)),
        }
    }

    /// One step of the hart (see `step_rel`); false when the hart stops.
    pub fn one_step<S: Space>(&mut self, bus: &mut Bus<S>) -> (r: bool)
        requires
            old(self).wf(),
            old(bus).wf(),
        ensures
            final(self).wf(),
            final(bus).wf(),
            step_rel(*old(self), *final(self), *old(bus), *final(bus), r),
    {
        if self.pending.is_some() {
            return false;
        }
        if self.state.wfi {
            let m = &self.state.privilege.m;
            if m.mip() & m.mie == 0 {
                return true;
            }
        }
        self.state.wfi = false;
        if !translatable_check(&self.state.privilege) {
            return false;
        }
        let pending = self.state.pending_interrupts();
        if pending != 0 {
            return match Self::take_interrupt(pending) {
                None => false,
                Some(i) => {
                    let t = Trap::Interrupt(i);
                    if !self.deliverable(&t) {
                        false
                    } else {
                        self.handle_trap(bus, t);
                        true
                    }
                },
            };
        }
        let ri = self.one_insn(bus);
        let ghost pi = *self;
        let ghost bi = *bus;
        assert(chosen((pi, bi, ri)));
        match ri {
            Ok(_) => true,
            Err(StepError::Halt) => false,
            Err(StepError::Float(_)) => false,
            Err(StepError::Exception(e)) => {
                let t = Trap::Exception(e);
                if !self.deliverable(&t) {
                    false
                } else {
                    self.handle_trap(bus, t);
                    true
                }
            },
        }
    }
}

impl Processor {
    /// Drops a load reservation taken more than 16 retired instructions
    /// ago (see `reservation_expiry`).
    pub fn expire_reservation<S: Space>(&mut self, bus: &mut Bus<S>)
        requires
            old(self).wf(),
            old(bus).wf(),
        ensures
            final(self).pending == old(self).pending,
            final(self).wf(),
            final(bus).wf(),
            reservation_expiry(*old(self), *final(self), *old(bus), *final(bus)),
    {
        let expired = match &self.state.aext {
            Some(a) => a.lc_res.valid && match a.lc_res.timestamp.checked_add(16) {
                Some(t) => self.state.privilege.m.instret > t,
                None => false,
            },
            None => false,
        };
        if expired {
            let res = self.state.aext.unwrap().lc_res;
            self.state.aext = Some(ExtensionA { lc_res: LCReservation { valid: false, ..res } });
            release(&self.state, bus);
        }
    }

    /// Completes the floating-point operation the hart waits for with the
    /// answer `o` (see `fpu_complete_step`); the instruction retires.
    pub fn complete_float(&mut self, o: FloatOutcome)
        requires
            old(self).wf(),
            old(self).pending matches Some(req) && valid_outcome(req, o),
        ensures
            final(self).wf(),
            final(self).pending is None,
            final(self).mmu == old(self).mmu && final(self).fetcher == old(self).fetcher,
            exists|s: ProcessorState| #![trigger chosen(s)] fpu_complete_step(old(self).pending->0, o, old(self).state, s)
                && counted(s, final(self).state, true),
    {
        let req = self.pending.unwrap();
        fpu_complete(&mut self.state, req, o);
        let ghost s = self.state;
        assert(chosen(s));
        self.state.retire();
        self.pending = None;
    }

    /// Runs `n` steps of the hart, stopping early when a step stops it
    /// (see `run_trace`), then lets the atomic extension drop an expired
    /// reservation (see `reservation_expiry`). Returns whether the hart is
    /// still running.
    pub fn step<S: Space>(&mut self, bus: &mut Bus<S>, n: usize) -> (r: bool)
        requires
            old(self).wf(),
            old(bus).wf(),
            n > 0,
        ensures
            final(self).wf(),
            final(bus).wf(),
            exists|t: Seq<(Processor, Bus<S>)>| #![trigger chosen(t)] {
                &&& run_trace(t, n as nat, r)
                &&& t[0] == (*old(self), *old(bus))
                &&& reservation_expiry(t.last().0, *final(self), t.last().1, *final(bus))
            },
    {
        let ghost mut t: Seq<(Processor, Bus<S>)> = seq![(*self, *bus)];
        let mut i: usize = 0;
        let mut running = true;
        while i < n && running
            invariant
                self.wf(),
                bus.wf(),
                i <= n,
                running ==> t.len() == i + 1,
                1 <= t.len() <= i + 1,
                t[0] == (*old(self), *old(bus)),
                t.last() == (*self, *bus),
                forall|j: int| 0 <= j < t.len() - 1 ==> #[trigger] run_link(t, j, running),
                !running ==> t.len() >= 2,
            decreases n - i,
        {
            let ghost t0 = t;
            let ok = self.one_step(bus);
            proof {
                t = t0.push((*self, *bus));
                assert forall|j: int| 0 <= j < t.len() - 1 implies #[trigger] run_link(t, j, ok) by {
                    if j + 1 < t.len() - 1 {
                        assert(t[j] == t0[j] && t[j + 1] == t0[j + 1]);
                        assert(run_link(t0, j, running));
                    }
                }
            }
            running = ok;
            i = i + 1;
        }
        let ghost tl = t;
        self.expire_reservation(bus);
        proof {
            assert(chosen(tl));
            assert(running ==> tl.len() == n + 1);
        }
        running
    }
}

/// Trap cause codes are below 16.
proof fn lemma_cause_code_bound(t: Trap)
    ensures
        t.spec_cause().1 < 16,
{
}

} // verus!
