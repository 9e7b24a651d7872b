//! The architectural state of a hart: integer registers, program counter,
//! current instruction, privilege state and the state of its extensions.
use vstd::prelude::*;
use crate::bits::{field_of, with_field};
use crate::global::{InsnT, RegT, XLen};
use crate::processor::ProcessorCfg;
use crate::processor::has_extension;
use crate::processor::trap::Exception;
use crate::processor::extensions::{supported_extensions, ExtensionA, ExtensionF, FRegT};
use crate::processor::privilege::{lemma_status_bits, mstatus_legal, valid_extensions, Privilege, PrivilegeStates};
use crate::processor::privilege::m::PrivM;
use crate::processor::privilege::s::PrivS;

verus! {

/// The state of one hart.
#[derive(Debug, Clone)]
pub struct ProcessorState {
    pub hartid: usize,
    pub config: ProcessorCfg,
    pub privilege: PrivilegeStates,
    /// `x0..x31`; `x0` always reads 0.
    pub xreg: Vec<RegT>,
    /// Floating-point state, when the hart has `f`.
    pub fext: Option<ExtensionF>,
    /// Load reservation, when the hart has `a`.
    pub aext: Option<ExtensionA>,
    /// Address of the instruction being executed.
    pub pc: RegT,
    /// Address of the next instruction.
    pub next_pc: RegT,
    /// The instruction being executed.
    pub ir: InsnT,
    /// Waiting for an interrupt.
    pub wfi: bool,
}

/// `misa` and the supported-extension letters: every supported letter is a
/// lower-case letter.
pub proof fn lemma_supported_are_valid(exts: Seq<char>)
    requires
        supported_extensions(exts),
    ensures
        valid_extensions(exts),
{
    assert forall|i: int| 0 <= i < exts.len() implies 97 <= #[trigger] (exts[i] as u64) <= 122 by {
        assert(crate::processor::extensions::supported_extension(exts[i]));
    }
}

/// The digit `d` (below 16) in lower-case hexadecimal.
pub open spec fn digit_char(d: u64) -> char {
    if d == 0 {
        '0'
    } else
    if d == 1 {
        '1'
    } else
    if d == 2 {
        '2'
    } else
    if d == 3 {
        '3'
    } else
    if d == 4 {
        '4'
    } else
    if d == 5 {
        '5'
    } else
    if d == 6 {
        '6'
    } else
    if d == 7 {
        '7'
    } else
    if d == 8 {
        '8'
    } else
    if d == 9 {
        '9'
    } else
    if d == 10 {
        'a'
    } else
    if d == 11 {
        'b'
    } else
    if d == 12 {
        'c'
    } else
    if d == 13 {
        'd'
    } else
    if d == 14 {
        'e'
    } else {
        'f'
    }
}

/// The decimal digits of `x`, most significant first, without leading
/// zeros (`0` for zero).
pub open spec fn dec_digits(x: u64) -> Seq<char>
    decreases x,
{
    if x < 10 {
        seq![digit_char(x)]
    } else {
        dec_digits(x / 10) + seq![digit_char(x % 10)]
    }
}

/// The lower-case hexadecimal digits of `x`, most significant first,
/// without leading zeros (`0` for zero).
pub open spec fn hex_digits(x: u64) -> Seq<char>
    decreases x,
{
    if x < 16 {
        seq![digit_char(x)]
    } else {
        hex_digits(x / 16) + seq![digit_char(x % 16)]
    }
}

/// The error message of a reset of hart `hartid` to an address `addr` that
/// a 32-bit hart cannot hold: `cpu<hartid>:invalid start addr 0x<addr> when
/// xlen == X32!`, the hart number in decimal and the address in hexadecimal.
pub open spec fn start_addr_message(hartid: usize, addr: u64) -> Seq<char> {
    seq!['c', 'p', 'u'] + dec_digits(hartid as u64) + seq![':', 'i', 'n', 'v', 'a', 'l', 'i', 'd', ' ', 's', 't', 'a', 'r', 't', ' ', 'a', 'd', 'd', 'r', ' ', '0', 'x']
        + hex_digits(addr) + seq![' ', 'w', 'h', 'e', 'n', ' ', 'x', 'l', 'e', 'n', ' ', '=', '=', ' ', 'X', '3', '2', '!']
}

/// The digit `d` as a character.
fn digit(d: u64) -> (c: char)
    requires
        d < 16,
    ensures
        c == digit_char(d),
{
    if d == 0 {
        '0'
    } else
    if d == 1 {
        '1'
    } else
    if d == 2 {
        '2'
    } else
    if d == 3 {
        '3'
    } else
    if d == 4 {
        '4'
    } else
    if d == 5 {
        '5'
    } else
    if d == 6 {
        '6'
    } else
    if d == 7 {
        '7'
    } else
    if d == 8 {
        '8'
    } else
    if d == 9 {
        '9'
    } else
    if d == 10 {
        'a'
    } else
    if d == 11 {
        'b'
    } else
    if d == 12 {
        'c'
    } else
    if d == 13 {
        'd'
    } else
    if d == 14 {
        'e'
    } else {
        'f'
    }
}

/// Appends the decimal digits of `x`.
fn push_dec(v: &mut Vec<char>, x: u64)
    ensures
        final(v)@ == old(v)@ + dec_digits(x),
    decreases x,
{
    if x >= 10 {
        push_dec(v, x / 10);
    }
    v.push(digit(x % 10));
    proof {
        if x >= 10 {
            assert(final(v)@ =~= old(v)@ + dec_digits(x));
        } else {
            assert(x % 10 == x);
        }
    }
}

/// Appends the hexadecimal digits of `x`.
fn push_hex(v: &mut Vec<char>, x: u64)
    ensures
        final(v)@ == old(v)@ + hex_digits(x),
    decreases x,
{
    if x >= 16 {
        push_hex(v, x / 16);
    }
    v.push(digit(x % 16));
    proof {
        if x >= 16 {
            assert(final(v)@ =~= old(v)@ + hex_digits(x));
        } else {
            assert(x % 16 == x);
        }
    }
}

/// The error message of a reset to an address a 32-bit hart cannot hold
/// (see `start_addr_message`).
fn start_addr_error(hartid: usize, addr: u64) -> (r: String)
    ensures
        r@ == start_addr_message(hartid, addr),
{
    let mut cs: Vec<char> = vec!['c', 'p', 'u'];
    push_dec(&mut cs, hartid as u64);
    let mut mid: Vec<char> = vec![':', 'i', 'n', 'v', 'a', 'l', 'i', 'd', ' ', 's', 't', 'a', 'r', 't', ' ', 'a', 'd', 'd', 'r', ' ', '0', 'x'];
    cs.append(&mut mid);
    push_hex(&mut cs, addr);
    let mut tail: Vec<char> = vec![' ', 'w', 'h', 'e', 'n', ' ', 'x', 'l', 'e', 'n', ' ', '=', '=', ' ', 'X', '3', '2', '!'];
    cs.append(&mut tail);
    proof {
        assert(cs@ =~= start_addr_message(hartid, addr));
    }
    string_from_chars(cs)
}

/// The privilege bits of a CSR address are those of its low 12 bits, which
/// stay as they are when cut again.
proof fn lemma_csr_id(id: InsnT)
    by (bit_vector)
    ensures
        (((id & 0xfff) as u64) >> 8) & 3 == (((id & 0xfff) & 0xfff) >> 8) & 3,
        (id & 0xfff) & 0xfff == id & 0xfff,
{
}

impl ProcessorState {
    /// Well-formedness of the state.
    pub open spec fn wf(&self) -> bool {
        &&& self.xreg@.len() == 32
        &&& self.xreg@[0] == 0
        &&& self.privilege.wf()
        &&& self.privilege.m.xlen == self.config.xlen
        &&& supported_extensions(self.config.extensions@)
        &&& (self.fext is Some <==> self.config.extensions@.contains('f'))
        &&& (self.aext is Some <==> self.config.extensions@.contains('a'))
        &&& (self.fext matches Some(f) ==> f.wf())
    }

    /// Register `id` (its low 5 bits): 0 for `x0`.
    pub open spec fn spec_xreg(&self, id: InsnT) -> RegT {
        let i = id & 0x1f;
        if i == 0 { 0 } else { self.xreg@[i as int] }
    }

    /// The registers after writing `value` to register `id` (its low 5
    /// bits); a write to `x0` is dropped.
    pub open spec fn xreg_written(&self, id: InsnT, value: RegT) -> Seq<RegT> {
        let i = id & 0x1f;
        if i == 0 { self.xreg@ } else { self.xreg@.update(i as int, value) }
    }

    /// Whether the floating-point state is in use (`mstatus.fs` non-zero).
    pub open spec fn spec_fs(&self) -> u64 {
        field_of(self.privilege.m.mstatus.bits, 14, 13)
    }

    /// What a read of the CSR `id` (its low 12 bits) gives at the current
    /// level: the privilege levels' registers first, then the
    /// floating-point ones while the floating-point state is in use.
    pub open spec fn spec_csr(&self, id: InsnT) -> Result<RegT, Exception> {
        let a = (id & 0xfff) as u64;
        if (self.privilege.cur.spec_value() as u64) < ((a >> 8) & 3) {
            Err(Exception::IllegalInsn(self.ir))
        } else {
            match self.privilege.spec_csr_read(a) {
                Some(v) => Ok(v),
                None => match self.fext {
                    Some(f) => if self.spec_fs() == 0 {
                        Err(Exception::IllegalInsn(self.ir))
                    } else {
                        match f.spec_csr_read(a) {
                            Some(v) => Ok(v),
                            None => Err(Exception::IllegalInsn(self.ir)),
                        }
                    },
                    None => Err(Exception::IllegalInsn(self.ir)),
                },
            }
        }
    }

    /// The state with `mstatus.fs` set to dirty.
    pub open spec fn fs_dirty(&self) -> PrivilegeStates {
        let m = self.privilege.m;
        PrivilegeStates {
            m: PrivM { mstatus: crate::processor::privilege::csrs::Status {
                xlen: m.mstatus.xlen, bits: with_field(m.mstatus.bits, 14, 13, 3), s_view: false }, ..m },
            ..self.privilege
        }
    }

    /// The outcome of software writing `value` to the CSR `id`: the new
    /// state, and `Ok` or the exception. A write the privilege levels do
    /// not take goes to the floating-point CSRs, which marks the
    /// floating-point state dirty even when no such register exists.
    pub open spec fn spec_set_csr(&self, id: InsnT, value: RegT) -> (ProcessorState, Result<(), Exception>) {
        let a = (id & 0xfff) as u64;
        if (self.privilege.cur.spec_value() as u64) < ((a >> 8) & 3) {
            (*self, Err(Exception::IllegalInsn(self.ir)))
        } else {
            match self.privilege.spec_csr_write(a, value, self.pc) {
                Some(n) => (ProcessorState { privilege: n, ..*self }, Ok(())),
                None => match self.fext {
                    Some(f) => {
                        let dirty = ProcessorState { privilege: self.fs_dirty(), ..*self };
                        match f.spec_csr_write(a, value) {
                            Some(fc) => (ProcessorState { fext: Some(ExtensionF { fcsr: fc, ..f }), ..dirty }, Ok(())),
                            None => (dirty, Err(Exception::IllegalInsn(self.ir))),
                        }
                    },
                    None => (*self, Err(Exception::IllegalInsn(self.ir))),
                },
            }
        }
    }

    /// The state of hart `hartid` built for `config`, before reset: every
    /// register zero, machine mode, and the state of the configured
    /// extensions.
    pub fn new(hartid: usize, config: ProcessorCfg) -> (r: ProcessorState)
        requires
            supported_extensions(config.extensions@),
        ensures
            r.wf(),
            r.hartid == hartid,
            r.config == config,
            forall|i: int| 0 <= i < 32 ==> r.xreg@[i] == 0,
            r.pc == 0 && r.next_pc == 0 && r.ir == 0 && !r.wfi,
            r.privilege.cur == Privilege::M,
            r.privilege.m.instret == 0,
            r.fext matches Some(f) ==> f.fcsr == 0,
            r.aext matches Some(a) ==> !a.lc_res.valid,
    {
        let privilege = PrivilegeStates::new(&config);
        let mut xreg: Vec<RegT> = Vec::new();
        let mut i: usize = 0;
        while i < 32
            invariant
                i <= 32,
                xreg@.len() == i,
                forall|j: int| 0 <= j < i ==> xreg@[j] == 0,
            decreases 32 - i,
        {
            xreg.push(0);
            i = i + 1;
        }
        let fext = if has_extension(&config.extensions, 'f') { Some(ExtensionF::new(&config)) } else { None };
        let aext = if has_extension(&config.extensions, 'a') { Some(ExtensionA::new(&config)) } else { None };
        ProcessorState { hartid, config, privilege, xreg, fext, aext, pc: 0, next_pc: 0, ir: 0, wfi: false }
    }

    /// Resets the hart to start at `start_address`: registers cleared, the
    /// next instruction at `start_address`, and `mhartid`/`misa` set. A
    /// 32-bit hart refuses an address above 32 bits, unchanged.
    pub fn reset(&mut self, start_address: u64) -> (r: Result<(), String>)
        requires
            old(self).wf(),
        ensures
            final(self).wf(),
            r is Err <==> (old(self).config.xlen == XLen::X32 && start_address > 0xffff_ffff),
            r is Err ==> *final(self) == *old(self),
            r matches Err(e) ==> e@ == start_addr_message(old(self).hartid, start_address),
            r is Ok ==> {
                &&& forall|i: int| 0 <= i < 32 ==> final(self).xreg@[i] == 0
                &&& final(self).pc == 0 && final(self).next_pc == start_address
                &&& final(self).ir == 0 && !final(self).wfi
                &&& final(self).privilege.m.mhartid == old(self).hartid as u64
                &&& final(self).privilege.cur == old(self).privilege.cur
                &&& final(self).config == old(self).config && final(self).hartid == old(self).hartid
                &&& final(self).fext == old(self).fext && final(self).aext == old(self).aext
            },
    {
        if self.config.xlen == XLen::X32 && start_address > 0xffff_ffff {
            return Err(start_addr_error(self.hartid, start_address));
        }
        let mut i: usize = 0;
        while i < 32
            invariant
                i <= 32,
                self.xreg@.len() == 32,
                forall|j: int| 0 <= j < i ==> self.xreg@[j] == 0,
                self.privilege == old(self).privilege,
                self.config == old(self).config,
                self.fext == old(self).fext && self.aext == old(self).aext,
                self.hartid == old(self).hartid,
                self.pc == old(self).pc,
            decreases 32 - i,
        {
            self.xreg.set(i, 0);
            i = i + 1;
        }
        self.pc = 0;
        self.next_pc = start_address;
        self.ir = 0;
        self.wfi = false;
        proof {
            lemma_supported_are_valid(self.config.extensions@);
        }
        let hartid = self.hartid as RegT;
        self.privilege.init_isa(hartid, &self.config);
        Ok(())
    }
}

impl ProcessorState {
    /// Reads the CSR `id` (its low 12 bits), see `spec_csr`.
    pub fn csr(&self, id: InsnT) -> (r: Result<RegT, Exception>)
        requires
            self.wf(),
        ensures
            r == self.spec_csr(id),
    {
        let trip_id = id & 0xfff;
        proof { lemma_csr_id(id); }
        if self.privilege.csr_privilege_check(trip_id).is_err() {
            return Err(Exception::IllegalInsn(self.ir));
        }

        if let Some(v) = self.privilege.csr_read(trip_id) {
            return Ok(v);
        }
        match &self.fext {
            Some(f) => {
                if self.privilege.m.mstatus.fs() == 0 {
                    Err(Exception::IllegalInsn(self.ir))
                } else {
                    match f.csr_read(trip_id as RegT) {
                        Some(v) => Ok(v),
                        None => Err(Exception::IllegalInsn(self.ir)),
                    }
                }
            },
            None => Err(Exception::IllegalInsn(self.ir)),
        }
    }

    /// Writes `value` to the CSR `id` (its low 12 bits), see `spec_set_csr`.
    pub fn set_csr(&mut self, id: InsnT, value: RegT) -> (r: Result<(), Exception>)
        requires
            old(self).wf(),
        ensures
            final(self).wf(),
            (*final(self), r) == old(self).spec_set_csr(id, value),
    {
        let trip_id = id & 0xfff;
        proof { lemma_csr_id(id); }
        if self.privilege.csr_privilege_check(trip_id).is_err() {
            return Err(Exception::IllegalInsn(self.ir));
        }

        let pc = self.pc;
        if self.privilege.csr_write(trip_id, value, pc).is_some() {
            return Ok(());
        }
        if self.fext.is_none() {
            return Err(Exception::IllegalInsn(self.ir));
        }
        proof {
            lemma_status_bits(self.privilege.m.mstatus.bits, 0, 0, 0, self.privilege.m.has_s, self.privilege.m.has_u);
        }
        self.privilege.m.mstatus.set_fs(3);
        let mut f = self.fext.take().unwrap();
        let w = f.csr_write(trip_id as RegT, value);
        self.fext = Some(f);
        match w {
            Some(_) => Ok(()),
            None => Err(Exception::IllegalInsn(self.ir)),
        }
    }

    /// `Ok` when `misa` enables extension `ext`, else an illegal-instruction
    /// exception for the current instruction.
    pub fn check_extension(&self, ext: char) -> (r: Result<(), Exception>)
        requires
            97 <= ext as u64 <= 122,
        ensures
            r is Ok <==> self.privilege.spec_has_ext((ext as u64 - 97) as u64),
            r is Err ==> r == Err::<(), Exception>(Exception::IllegalInsn(self.ir)),
    {
        match self.privilege.check_extension(ext) {
            Ok(_) => Ok(()),
            Err(_) => Err(Exception::IllegalInsn(self.ir)),
        }
    }

    /// `Ok` when the hart is `xlen` wide, else an illegal-instruction
    /// exception for the current instruction.
    pub fn check_xlen(&self, xlen: XLen) -> (r: Result<(), Exception>)
        ensures
            r is Ok <==> self.config.xlen == xlen,
            r is Err ==> r == Err::<(), Exception>(Exception::IllegalInsn(self.ir)),
    {
        if xlen == self.config.xlen {
            Ok(())
        } else {
            Err(Exception::IllegalInsn(self.ir))
        }
    }

    /// The machine-level CSRs.
    pub fn priv_m(&self) -> (r: &PrivM)
        ensures
            *r == self.privilege.m,
    {
        &self.privilege.m
    }

    /// The supervisor-level CSRs; an illegal-instruction exception when the
    /// hart has no S mode.
    pub fn priv_s(&self) -> (r: Result<&PrivS, Exception>)
        ensures
            match self.privilege.s {
                Some(s) => r == Ok::<&PrivS, Exception>(&s),
                None => r == Err::<&PrivS, Exception>(Exception::IllegalInsn(self.ir)),
            },
    {
        match &self.privilege.s {
            Some(s) => Ok(s),
            None => Err(Exception::IllegalInsn(self.ir)),
        }
    }

    /// The current privilege level.
    pub fn privilege(&self) -> (r: Privilege)
        ensures
            r == self.privilege.cur,
    {
        self.privilege.cur
    }

    /// Takes a trap with `code`, interrupt flag and trap value `val` (see
    /// `PrivilegeStates::spec_trap_enter`): the next instruction is the
    /// handler's and the hart enters the handler's level.
    pub fn trap_enter(&mut self, code: RegT, int_flag: bool, val: RegT)
        requires
            old(self).wf(),
            code < 64,
            old(self).privilege.spec_delegate_priv(code, int_flag) == Privilege::S ==> old(self).privilege.s is Some,
        ensures
            final(self).wf(),
            ({
                let (p, pc, tgt) = old(self).privilege.spec_trap_enter(code, int_flag, val, old(self).pc, old(self).next_pc);
                &&& final(self).privilege == (PrivilegeStates { cur: p.spec_clamp(tgt), ..p })
                &&& final(self).next_pc == pc
            }),
            final(self).xreg == old(self).xreg && final(self).pc == old(self).pc && final(self).ir == old(self).ir,
            final(self).fext == old(self).fext && final(self).aext == old(self).aext,
            final(self).config == old(self).config && final(self).hartid == old(self).hartid,
            final(self).wfi == old(self).wfi,
    {
        let pc = self.pc;
        let next_pc = self.next_pc;
        let (tpc, p) = self.privilege.trap_enter(code, int_flag, val, pc, next_pc);
        self.next_pc = tpc;
        self.privilege.set_priv(p);
    }

    /// Returns from a trap handled at `cur` (see
    /// `PrivilegeStates::spec_trap_return`).
    pub fn trap_return(&mut self, cur: &Privilege)
        requires
            old(self).wf(),
            *cur != Privilege::U,
            *cur == Privilege::S ==> old(self).privilege.s is Some,
            *cur == Privilege::M ==> Privilege::spec_from_value(field_of(old(self).privilege.m.mstatus.bits, 12, 11)) is Some,
        ensures
            final(self).wf(),
            ({
                let (p, pc, prev) = old(self).privilege.spec_trap_return(*cur);
                &&& final(self).privilege == (PrivilegeStates { cur: p.spec_clamp(prev), ..p })
                &&& final(self).next_pc == pc
            }),
            final(self).xreg == old(self).xreg && final(self).pc == old(self).pc && final(self).ir == old(self).ir,
            final(self).fext == old(self).fext && final(self).aext == old(self).aext,
            final(self).config == old(self).config && final(self).hartid == old(self).hartid,
            final(self).wfi == old(self).wfi,
    {
        let (tpc, p) = self.privilege.trap_return(cur);
        self.next_pc = tpc;
        self.privilege.set_priv(p);
    }

    /// The interrupts that may be taken now.
    pub fn pending_interrupts(&self) -> (r: RegT)
        requires
            self.wf(),
        ensures
            r == self.privilege.spec_pending_interrupts(),
    {
        self.privilege.pending_interrupts()
    }

    /// The address of the current instruction.
    pub fn pc(&self) -> (r: RegT)
        ensures
            r == self.pc,
    {
        self.pc
    }

    /// Sets the address of the next instruction.
    pub fn set_pc(&mut self, pc: RegT)
        ensures
            *final(self) == (ProcessorState { next_pc: pc, ..*old(self) }),
    {
        self.next_pc = pc;
    }

    /// The current instruction.
    pub fn ir(&self) -> (r: InsnT)
        ensures
            r == self.ir,
    {
        self.ir
    }

    /// Sets the current instruction.
    pub fn set_ir(&mut self, ir: InsnT)
        ensures
            *final(self) == (ProcessorState { ir, ..*old(self) }),
    {
        self.ir = ir;
    }

    /// The address of the next instruction.
    pub fn next_pc(&self) -> (r: RegT)
        ensures
            r == self.next_pc,
    {
        self.next_pc
    }

    /// The number of retired instructions.
    pub fn insns_cnt(&self) -> (r: u64)
        ensures
            r == self.privilege.m.instret,
    {
        self.privilege.m.instret
    }

    /// Counts one more retired instruction (modulo 2^64).
    pub fn retire(&mut self)
        requires
            old(self).wf(),
        ensures
            final(self).wf(),
            final(self).privilege.m.instret == (if old(self).privilege.m.instret == u64::MAX { 0 } else {
                (old(self).privilege.m.instret + 1) as u64 }),
            final(self).privilege == (PrivilegeStates {
                m: PrivM { instret: final(self).privilege.m.instret, ..old(self).privilege.m },
                ..old(self).privilege
            }),
            *final(self) == (ProcessorState { privilege: final(self).privilege, ..*old(self) }),
    {
        self.privilege.m.instret = self.privilege.m.instret.wrapping_add(1);
    }

    /// Register `id` (its low 5 bits); `x0` reads 0.
    pub fn xreg(&self, id: InsnT) -> (r: RegT)
        requires
            self.wf(),
        ensures
            r == self.spec_xreg(id),
    {
        let trip_id = id & 0x1f;
        proof { crate::bits::lemma_and_bound_u32(id, 0x1f); }
        if trip_id == 0 {
            0
        } else {
            self.xreg[trip_id as usize]
        }
    }

    /// Writes register `id` (its low 5 bits); a write to `x0` is dropped.
    pub fn set_xreg(&mut self, id: InsnT, value: RegT)
        requires
            old(self).wf(),
        ensures
            final(self).wf(),
            final(self).xreg@ == old(self).xreg_written(id, value),
            *final(self) == (ProcessorState { xreg: final(self).xreg, ..*old(self) }),
    {
        let trip_id = id & 0x1f;
        proof { crate::bits::lemma_and_bound_u32(id, 0x1f); }
        if trip_id != 0 {
            self.xreg.set(trip_id as usize, value);
        }
    }

    /// Whether the hart waits for an interrupt.
    pub fn wfi(&self) -> (r: bool)
        ensures
            r == self.wfi,
    {
        self.wfi
    }

    /// Sets whether the hart waits for an interrupt.
    pub fn set_wfi(&mut self, value: bool)
        ensures
            *final(self) == (ProcessorState { wfi: value, ..*old(self) }),
    {
        self.wfi = value;
    }

    /// The hart's id.
    pub fn hartid(&self) -> (r: usize)
        ensures
            r == self.hartid,
    {
        self.hartid
    }

    /// The hart's configuration.
    pub fn config(&self) -> (r: &ProcessorCfg)
        ensures
            *r == self.config,
    {
        &self.config
    }

    /// The ISA string of the hart (see `spec_isa_string`).
    pub fn isa_string(&self) -> (r: String)
        ensures
            r@ == spec_isa_string(self.config),
    {
        let mut cs: Vec<char> = Vec::new();
        cs.push('r');
        cs.push('v');
        match self.config.xlen {
            XLen::X32 => {
                cs.push('3');
                cs.push('2');
            },
            XLen::X64 => {
                cs.push('6');
                cs.push('4');
            },
        }
        let ghost head = cs@;
        let exts = &self.config.extensions;
        let mut i: usize = 0;
        while i < exts.len()
            invariant
                i <= exts@.len(),
                head == spec_isa_string(self.config).subrange(0, 4),
                exts@ == self.config.extensions@,
                cs@ == head + exts@.subrange(0, i as int),
            decreases exts@.len() - i,
        {
            cs.push(exts[i]);
            proof {
                assert(exts@.subrange(0, i as int + 1) == exts@.subrange(0, i as int).push(exts@[i as int]));
            }
            i = i + 1;
        }
        proof {
            assert(exts@.subrange(0, exts@.len() as int) == exts@);
        }
        string_from_chars(cs)
    }
}

/// The ISA string of a configuration: `rv`, the register width, then the
/// extension letters as configured.
pub open spec fn spec_isa_string(cfg: ProcessorCfg) -> Seq<char> {
    seq!['r', 'v'] + (if cfg.xlen == XLen::X32 { seq!['3', '2'] } else { seq!['6', '4'] }) + cfg.extensions@
}

/// The string of the characters `cs`, in order (`String::from_iter`).
#[verifier::external_body]
fn string_from_chars(cs: Vec<char>) -> (r: String)
    ensures
        r@ == cs@,
{
    String::from_iter(cs)
}

impl ProcessorState {
    /// Floating-point register `id` (its low 5 bits).
    pub fn freg(&self, id: RegT) -> (r: FRegT)
        requires
            self.wf(),
            self.fext is Some,
        ensures
            r == self.fext->0.freg@[(id & 0x1f) as int],
    {
        match &self.fext {
            Some(f) => f.freg(id),
            None => 0,
        }
    }

    /// Writes floating-point register `id` (its low 5 bits) and marks the
    /// floating-point state dirty.
    pub fn set_freg(&mut self, id: RegT, value: FRegT)
        requires
            old(self).wf(),
            old(self).fext is Some,
        ensures
            final(self).wf(),
            final(self).privilege == old(self).fs_dirty(),
            final(self).fext matches Some(f) && f.flen == old(self).fext->0.flen && f.fcsr == old(self).fext->0.fcsr
                && f.freg@ == old(self).fext->0.freg@.update((id & 0x1f) as int, value),
            final(self).xreg@ == old(self).xreg@,
            final(self).hartid == old(self).hartid && final(self).config == old(self).config,
            final(self).aext == old(self).aext && final(self).pc == old(self).pc && final(self).next_pc == old(self).next_pc,
            final(self).ir == old(self).ir && final(self).wfi == old(self).wfi,
    {
        proof {
            lemma_status_bits(self.privilege.m.mstatus.bits, 0, 0, 0, self.privilege.m.has_s, self.privilege.m.has_u);
        }
        self.privilege.m.mstatus.set_fs(3);
        let mut f = self.fext.take().unwrap();
        proof { crate::bits::lemma_and_bound(id, 0x1f); }
        f.freg.set((id & 0x1f) as usize, value);
        self.fext = Some(f);
    }
}


/// The floating-point state has one dirty flag, `mstatus.fs`, and software
/// reading `mstatus` sees it as it is. Writing a floating-point register
/// (`set_freg`) leaves it dirty (3), and so does every write that goes to
/// the floating-point CSRs; marking it dirty keeps `mstatus` legal; and
/// software writing `v` to `mstatus` or `sstatus` sets it to `v`'s field.
pub proof fn lemma_fs_dirty(s: ProcessorState, id: InsnT, value: RegT)
    requires
        s.wf(),
    ensures
        s.privilege.m.spec_read(0x300) matches Some(v) && field_of(v, 14, 13) == s.spec_fs(),
        field_of(s.fs_dirty().m.mstatus.bits, 14, 13) == 3,
        mstatus_legal(s.privilege.m.mstatus.bits, s.privilege.m.has_s, s.privilege.m.has_u)
            ==> mstatus_legal(s.fs_dirty().m.mstatus.bits, s.privilege.m.has_s, s.privilege.m.has_u),
        (s.privilege.cur.spec_value() as u64) >= ((((id & 0xfff) as u64) >> 8) & 3)
            && s.privilege.spec_csr_write((id & 0xfff) as u64, value, s.pc) is None && s.fext is Some
            ==> field_of(s.spec_set_csr(id, value).0.privilege.m.mstatus.bits, 14, 13) == 3,
        s.privilege.spec_csr_write(0x300, value, s.pc) matches Some(p1) ==> field_of(p1.m.mstatus.bits, 14, 13) == field_of(value, 14, 13),
        s.privilege.spec_csr_write(0x100, value, s.pc) matches Some(p1) ==> field_of(p1.m.mstatus.bits, 14, 13) == field_of(value, 14, 13),
{
    let b = s.privilege.m.mstatus.bits;
    let dirty = field_of(b, 14, 13) == 3 && field_of(b, 16, 15) == 3;
    lemma_status_bits(b, if dirty { 1u64 } else { 0u64 }, 0, 0, s.privilege.m.has_s, s.privilege.m.has_u);
    lemma_status_bits(b, value, 0, 0, s.privilege.m.has_s, s.privilege.m.has_u);
    let w = crate::processor::privilege::m::mstatus_rw_mask(s.privilege.m.xlen);
    lemma_status_bits((b & !w) | (value & w), value, 0, 0, s.privilege.m.has_s, s.privilege.m.has_u);
}

} // verus!
