//! Privilege levels and the machine/supervisor/user CSR state of a hart.
use vstd::prelude::*;
use crate::bits::{bit_range, field_of, set_bit_range, with_field};
use crate::global::{InsnT, RegT, XLen};
use crate::processor::{has_extension, ProcessorCfg};
use csrs::{popped_m, popped_s, pushed_m, pushed_s, trap_pc, Cause, Satp, Status, Tvec};
use m::{legal_mstatus_bits, xlen_mask, xmask, PrivM, IRQ_MASK, MIP_RW_MASK};
use s::PrivS;
use u::PrivU;

pub mod csrs;
pub mod m;
pub mod s;
pub mod u;

verus! {

/// A privilege level, with the encoding used in `mstatus.mpp` and CSR
/// addresses.
#[derive(Debug, Clone, Copy, PartialEq, Eq, Structural)]
pub enum Privilege {
    U,
    S,
    M,
}

impl Privilege {
    /// The two-bit encoding of the level: U = 0, S = 1, M = 3.
    pub open spec fn spec_value(self) -> u8 {
        match self {
            Privilege::U => 0,
            Privilege::S => 1,
            Privilege::M => 3,
        }
    }

    /// The level with encoding `v`, if any (2 encodes no level).
    pub open spec fn spec_from_value(v: u64) -> Option<Privilege> {
        if v == 0 {
            Some(Privilege::U)
        } else if v == 1 {
            Some(Privilege::S)
        } else if v == 3 {
            Some(Privilege::M)
        } else {
            None
        }
    }

    /// The two-bit encoding of the level.
    pub fn value(&self) -> (r: u8)
        ensures
            r == self.spec_value(),
    {
        match self {
            Privilege::U => 0,
            Privilege::S => 1,
            Privilege::M => 3,
        }
    }

    /// The level with encoding `v`, if any.
    pub fn from_value(v: u8) -> (r: Option<Privilege>)
        ensures
            r == Self::spec_from_value(v as u64),
    {
        if v == 0 {
            Some(Privilege::U)
        } else if v == 1 {
            Some(Privilege::S)
        } else if v == 3 {
            Some(Privilege::M)
        } else {
            None
        }
    }
}

/// Decoding an encoding gives back the level.
pub proof fn lemma_privilege_value_roundtrip(p: Privilege)
    ensures
        Privilege::spec_from_value(p.spec_value() as u64) == Some(p),
{
}


/// The `sstatus` fields software may write (`sie`, `upie`, `spie`, `spp`,
/// `fs`, `xs`, `sum`, `mxr`); they are the `mstatus` fields of those names.
pub const SSTATUS_RW_MASK: u64 = 0xde132;

/// The `mstatus` bits `sstatus` shows (the writable ones plus `sd` and `uxl`).
pub open spec fn sstatus_read_mask(xlen: XLen) -> u64 {
    if xlen == XLen::X32 { 0x800d_e132u64 } else { 0x8000_0003_000d_e132u64 }
}

/// The interrupt bits supervisor mode can see in `sip`/`sie`.
pub const SIP_MASK: u64 = 0x333;

/// `xcause` bits after a trap with `code`.
pub open spec fn cause_written(c: Cause, code: u64, int_flag: bool) -> u64 {
    let top: u64 = if c.xlen == XLen::X32 { 31 } else { 63 };
    with_field(with_field(c.bits, 3, 0, code), top, top, if int_flag { 1 } else { 0 })
}

/// The `misa` bits of the extensions `exts` (`a` is bit 0).
pub open spec fn ext_bits(exts: Seq<char>) -> u64
    decreases exts.len(),
{
    if exts.len() == 0 {
        0
    } else {
        ext_bits(exts.drop_last()) | (1u64 << ((exts.last() as u64) - 97) as u64)
    }
}

/// Whether every extension is named by a lower-case letter.
pub open spec fn valid_extensions(exts: Seq<char>) -> bool {
    forall|i: int| 0 <= i < exts.len() ==> 97 <= #[trigger] (exts[i] as u64) <= 122
}

/// The privilege levels of a hart, their CSRs and the current level.
#[derive(Debug, Clone, Copy)]
pub struct PrivilegeStates {
    pub m: PrivM,
    pub s: Option<PrivS>,
    pub u: Option<PrivU>,
    pub cur: Privilege,
}

impl PrivilegeStates {
    /// Well-formedness: the machine CSRs know which levels exist, S needs U,
    /// and the current level is one the hart has.
    pub open spec fn wf(self) -> bool {
        &&& self.m.wf()
        &&& mstatus_legal(self.m.mstatus.bits, self.m.has_s, self.m.has_u)
        &&& self.m.has_s == self.s is Some
        &&& self.m.has_u == self.u is Some
        &&& (self.s is Some ==> self.s->0.wf() && self.s->0.xlen == self.m.xlen)
        &&& (self.cur == Privilege::S ==> self.s is Some)
        &&& (self.cur == Privilege::U ==> self.u is Some)
    }

    /// Whether `misa` enables the extension with letter index `i` (`a` = 0).
    pub open spec fn spec_has_ext(self, i: u64) -> bool {
        self.m.misa & (1u64 << i) != 0
    }

    /// Whether the level `p` is the one `set_priv(p)` gives: levels the hart
    /// lacks fall back to M.
    pub open spec fn spec_clamp(self, p: Privilege) -> Privilege {
        if p == Privilege::S && self.s is None {
            Privilege::M
        } else if p == Privilege::U && self.u is None {
            Privilege::M
        } else {
            p
        }
    }

    /// Whether a supervisor access to `satp` traps (`mstatus.tvm` in S).
    pub open spec fn spec_tvm_trap(self) -> bool {
        self.cur == Privilege::S && field_of(self.m.mstatus.bits, 20, 20) != 0
    }

    /// Whether the counter at `addr` is hidden from the current level by
    /// `mcounteren` (and, in U, by `scounteren`).
    pub open spec fn spec_counter_disabled(self, addr: u64) -> bool {
        let bit = addr & 0x1f;
        let mdis = self.m.mcounteren & (1u64 << bit) == 0;
        match self.cur {
            Privilege::S => mdis,
            Privilege::U => mdis || (self.s is Some && self.s->0.scounteren & (1u64 << bit) == 0),
            Privilege::M => false,
        }
    }

    /// What a read of the CSR at `addr` returns at the current level, or
    /// `None` when the level that owns `addr` has no such readable register.
    pub open spec fn spec_csr_read(self, addr: u64) -> Option<u64> {
        let p = (addr >> 8) & 3;
        let xm = xmask(self.m.xlen);
        if p == 3 {
            self.m.spec_read(addr)
        } else if p == 1 {
            match self.s {
                None => None,
                Some(s) => {
                    if addr == 0x100 {
                        Some((self.m.spec_mstatus() & sstatus_read_mask(self.m.xlen)) | (s.uie & 1))
                    } else if addr == 0x104 {
                        Some(self.m.mideleg & self.m.mie & SIP_MASK)
                    } else if addr == 0x105 {
                        Some(s.stvec.bits)
                    } else if addr == 0x106 {
                        Some(s.scounteren)
                    } else if addr == 0x140 {
                        Some(s.sscratch)
                    } else if addr == 0x141 {
                        Some(s.sepc)
                    } else if addr == 0x142 {
                        Some(s.scause.bits)
                    } else if addr == 0x143 {
                        Some(s.stval)
                    } else if addr == 0x144 {
                        Some(self.m.mideleg & self.m.spec_mip() & SIP_MASK)
                    } else if addr == 0x180 {
                        if self.spec_tvm_trap() { None } else { Some(s.satp.bits) }
                    } else {
                        None
                    }
                },
            }
        } else if p == 0 {
            match self.u {
                None => None,
                Some(_) => {
                    let dis = self.spec_counter_disabled(addr);
                    if addr == 0xc00 {
                        if dis { None } else { Some(0) }
                    } else if addr == 0xc02 {
                        if dis { None } else { Some(self.m.instret & xm) }
                    } else if addr == 0xc80 {
                        if dis || self.m.xlen != XLen::X32 { None } else { Some(0) }
                    } else if addr == 0xc82 {
                        if dis || self.m.xlen != XLen::X32 { None } else { Some((self.m.instret >> 32) & 0xffff_ffffu64) }
                    } else {
                        None
                    }
                },
            }
        } else {
            None
        }
    }

    /// The state after software at the current level writes `value` to the
    /// CSR at `addr` with the program counter at `pc`, or `None` when the
    /// level that owns `addr` has no such writable register.
    pub open spec fn spec_csr_write(self, addr: u64, value: u64, pc: u64) -> Option<PrivilegeStates> {
        let p = (addr >> 8) & 3;
        let xm = xmask(self.m.xlen);
        let v = value & xm;
        if p == 3 {
            let ignored = value & 4 == 0 && pc & 3 == 2;
            match self.m.spec_write(addr, value, ignored) {
                Some(m) => Some(PrivilegeStates { m, ..self }),
                None => None,
            }
        } else if p == 1 {
            match self.s {
                None => None,
                Some(s) => {
                    if addr == 0x100 {
                        let b = (self.m.mstatus.bits & !SSTATUS_RW_MASK) | (value & SSTATUS_RW_MASK);
                        Some(PrivilegeStates {
                            m: PrivM { mstatus: Status { xlen: self.m.xlen, bits: b, s_view: false }, ..self.m },
                            s: Some(PrivS { uie: value & 1, ..s }),
                            ..self
                        })
                    } else if addr == 0x104 {
                        let d = self.m.mideleg & SIP_MASK;
                        Some(PrivilegeStates { m: PrivM { mie: (self.m.mie & !d) | (value & d), ..self.m }, ..self })
                    } else if addr == 0x105 {
                        Some(PrivilegeStates { s: Some(PrivS { stvec: Tvec { xlen: s.xlen, bits: v & !2u64 }, ..s }), ..self })
                    } else if addr == 0x106 {
                        Some(PrivilegeStates { s: Some(PrivS { scounteren: value & 5, ..s }), ..self })
                    } else if addr == 0x140 {
                        Some(PrivilegeStates { s: Some(PrivS { sscratch: v, ..s }), ..self })
                    } else if addr == 0x141 {
                        Some(PrivilegeStates { s: Some(PrivS { sepc: v, ..s }), ..self })
                    } else if addr == 0x142 {
                        let top: u64 = if s.xlen == XLen::X32 { 0x8000_0000u64 } else { 0x8000_0000_0000_0000u64 };
                        Some(PrivilegeStates { s: Some(PrivS { scause: Cause { xlen: s.xlen, bits: v & (0xf | top) }, ..s }), ..self })
                    } else if addr == 0x143 {
                        Some(PrivilegeStates { s: Some(PrivS { stval: v, ..s }), ..self })
                    } else if addr == 0x144 {
                        let d = self.m.mideleg & 2;
                        Some(PrivilegeStates { m: PrivM { mip: (self.m.mip & !d) | (value & d), ..self.m }, ..self })
                    } else if addr == 0x180 {
                        if self.spec_tvm_trap() {
                            None
                        } else {
                            Some(PrivilegeStates { s: Some(PrivS { satp: Satp { xlen: s.xlen, bits: v }, ..s }), ..self })
                        }
                    } else {
                        None
                    }
                },
            }
        } else {
            None
        }
    }

    /// The level a trap with `code` is taken in: S when it is delegated by
    /// `mideleg`/`medeleg` and the hart is not in M, else M.
    pub open spec fn spec_delegate_priv(self, code: u64, int_flag: bool) -> Privilege {
        let deleg = if int_flag { self.m.mideleg } else { self.m.medeleg };
        if self.cur != Privilege::M && (deleg >> code) & 1 == 1 { Privilege::S } else { Privilege::M }
    }

    /// The interrupts that are pending, enabled and may be taken now; when
    /// any is for M it shadows those delegated to S.
    pub open spec fn spec_pending_interrupts(self) -> u64 {
        let pendings = self.m.spec_mip() & self.m.mie;
        let deleg = self.m.mideleg;
        let mie = field_of(self.m.mstatus.bits, 3, 3);
        let sie = field_of(self.m.mstatus.bits, 1, 1);
        let m_enabled = self.cur != Privilege::M || mie == 1;
        let s_enabled = self.cur == Privilege::U || (self.cur == Privilege::S && sie == 1);
        let m_pendings = if m_enabled { pendings & !deleg } else { 0 };
        let s_pendings = if s_enabled { pendings & deleg } else { 0 };
        if pendings == 0 { 0 } else if m_pendings == 0 { s_pendings } else { m_pendings }
    }

    /// The state, target pc and target level after a trap with `code` and
    /// trap value `val`, taken at `pc` (exceptions) or before `next_pc`
    /// (interrupts). The current level is left to the caller.
    pub open spec fn spec_trap_enter(self, code: u64, int_flag: bool, val: u64, pc: u64, next_pc: u64)
        -> (PrivilegeStates, u64, Privilege) {
        let tgt = self.spec_delegate_priv(code, int_flag);
        let epc = if int_flag { next_pc } else { pc };
        let curv = self.cur.spec_value() as u64;
        let xlen = self.m.xlen;
        if tgt == Privilege::M {
            let m1 = PrivM {
                mepc: epc,
                mtval: val,
                mcause: Cause { xlen, bits: cause_written(self.m.mcause, code, int_flag) },
                mstatus: Status { xlen, bits: self.m.legal_mstatus(pushed_m(self.m.mstatus.bits, curv)), s_view: false },
                ..self.m
            };
            (PrivilegeStates { m: m1, ..self }, trap_pc(self.m.mtvec, code, int_flag), Privilege::M)
        } else {
            let s = self.s->0;
            let s1 = PrivS {
                sepc: epc,
                stval: val,
                scause: Cause { xlen: s.xlen, bits: cause_written(s.scause, code, int_flag) },
                ..s
            };
            let m1 = PrivM { mstatus: Status { xlen, bits: pushed_s(self.m.mstatus.bits, curv), s_view: false }, ..self.m };
            (PrivilegeStates { m: m1, s: Some(s1), ..self }, trap_pc(s.stvec, code, int_flag), Privilege::S)
        }
    }

    /// The state, return pc and previous level after returning from a trap
    /// handled at `cur_p`. Without the C extension the pc is aligned to 4.
    pub open spec fn spec_trap_return(self, cur_p: Privilege) -> (PrivilegeStates, u64, Privilege) {
        let epc = if cur_p == Privilege::M { self.m.mepc } else { self.s->0.sepc };
        let b = self.m.mstatus.bits;
        let nb = if cur_p == Privilege::M { self.m.legal_mstatus(popped_m(b)) } else { popped_s(b) };
        let xpp = if cur_p == Privilege::M {
            Privilege::spec_from_value(field_of(b, 12, 11))->0
        } else {
            Privilege::spec_from_value(field_of(b, 8, 8))->0
        };
        let pc = if !self.spec_has_ext(2) { (epc >> 2) << 2 } else { epc };
        (PrivilegeStates { m: PrivM { mstatus: Status { xlen: self.m.xlen, bits: nb, s_view: false }, ..self.m }, ..self }, pc, xpp)
    }
}

impl PrivilegeStates {
    /// The privilege state at reset for `cfg`: S exists when the hart has
    /// both `u` and `s`, U when it has `u`; the hart starts in M. Without U,
    /// `mstatus.mpp` is fixed at M.
    pub fn new(cfg: &ProcessorCfg) -> (r: PrivilegeStates)
        ensures
            r.wf(),
            r.cur == Privilege::M,
            r.m.xlen == cfg.xlen,
            (r.u is Some) == cfg.extensions@.contains('u'),
            (r.s is Some) == (cfg.extensions@.contains('u') && cfg.extensions@.contains('s')),
            r.m.mstatus.bits == (if r.u is Some { 0u64 } else { with_field(0, 12, 11, 3) }),
            mstatus_legal(r.m.mstatus.bits, r.m.has_s, r.m.has_u),
            r.m.misa == 0 && r.m.mie == 0 && r.m.mip == 0 && r.m.mideleg == 0 && r.m.medeleg == 0,
            r.m.instret == 0,
            r.m.irq.si is None && r.m.irq.ti is None && r.m.irq.ei is None,
    {
        let mut m = PrivM::new(cfg);
        let has_u = has_extension(&cfg.extensions, 'u');
        let has_s = has_u && has_extension(&cfg.extensions, 's');
        let u = if has_u { Some(PrivU::new(cfg, &m)) } else { None };
        let s = if has_s { Some(PrivS::new(cfg, &m)) } else { None };
        m.has_u = has_u;
        m.has_s = has_s;
        if !has_u {
            m.mstatus.set_mpp(3);
        }
        proof {
            lemma_status_bits(0, 0, 0, 0, has_s, has_u);
        }
        PrivilegeStates { m, s, u, cur: Privilege::M }
    }

    /// Switches to level `p`; a level the hart lacks becomes M.
    pub fn set_priv(&mut self, p: Privilege)
        requires
            old(self).wf(),
        ensures
            final(self).wf(),
            *final(self) == (PrivilegeStates { cur: old(self).spec_clamp(p), ..*old(self) }),
    {
        self.cur = match p {
            Privilege::S if self.s.is_none() => Privilege::M,
            Privilege::U if self.u.is_none() => Privilege::M,
            _ => p,
        };
    }

    /// The current level.
    pub fn cur_privilege(&self) -> (r: Privilege)
        ensures
            r == self.cur,
    {
        self.cur
    }

    /// `Ok` when `misa` enables extension `ext` (a lower-case letter).
    pub fn check_extension(&self, ext: char) -> (r: Result<(), ()>)
        requires
            97 <= ext as u64 <= 122,
        ensures
            r is Ok <==> self.spec_has_ext((ext as u64 - 97) as u64),
    {
        let i = ext as u64 - 97;
        if self.m.misa & (1u64 << i) != 0 {
            Ok(())
        } else {
            Err(())
        }
    }

    /// Makes `minstret`/`instret` read `cnt` retired instructions.
    pub fn delegate_insns_cnt(&mut self, cnt: u64)
        ensures
            *final(self) == (PrivilegeStates { m: PrivM { instret: cnt, ..old(self).m }, ..*old(self) }),
    {
        self.m.instret = cnt;
    }

    /// Connects `mip.meip` and `mip.seip` to the external interrupt line,
    /// now at `pending`.
    pub fn delegate_ei(&mut self, pending: bool)
        ensures
            *final(self) == (PrivilegeStates {
                m: PrivM { irq: m::IrqLines { ei: Some(pending), ..old(self).m.irq }, ..old(self).m },
                ..*old(self)
            }),
    {
        self.m.irq.ei = Some(pending);
    }

    /// Connects `mip.msip` and `mip.mtip` to the software and timer
    /// interrupt lines, now at `msip` and `mtip`.
    pub fn delegate_si_ti(&mut self, msip: bool, mtip: bool)
        ensures
            *final(self) == (PrivilegeStates {
                m: PrivM { irq: m::IrqLines { si: Some(msip), ti: Some(mtip), ..old(self).m.irq }, ..old(self).m },
                ..*old(self)
            }),
    {
        self.m.irq.si = Some(msip);
        self.m.irq.ti = Some(mtip);
    }

    /// Sets `mhartid` and records the configured extensions and width in
    /// `misa` (and `mstatus.uxl`/`sxl` on RV64).
    pub fn init_isa(&mut self, hartid: RegT, cfg: &ProcessorCfg)
        requires
            old(self).wf(),
            cfg.xlen == old(self).m.xlen,
            valid_extensions(cfg.extensions@),
        ensures
            final(self).wf(),
            final(self).cur == old(self).cur,
            final(self).s == old(self).s && final(self).u == old(self).u,
            final(self).m.mhartid == hartid,
            final(self).m.misa == (if cfg.xlen == XLen::X32 {
                with_field(old(self).m.misa | ext_bits(cfg.extensions@), 31, 30, 1)
            } else {
                with_field(old(self).m.misa | ext_bits(cfg.extensions@), 63, 62, 2)
            }),
            final(self).m.mstatus.bits == (if cfg.xlen == XLen::X32 {
                old(self).m.mstatus.bits
            } else {
                with_field(with_field(old(self).m.mstatus.bits, 33, 32, 2), 35, 34, 2)
            }),
            final(self).m == (PrivM { mhartid: hartid, misa: final(self).m.misa, mstatus: final(self).m.mstatus, ..old(self).m }),
            forall|i: int| 0 <= i < cfg.extensions@.len()
                ==> final(self).spec_has_ext(((#[trigger] cfg.extensions@[i] as u64) - 97) as u64),
    {
        proof {
            lemma_status_bits(self.m.mstatus.bits, 0, 0, 0, self.m.has_s, self.m.has_u);
        }
        self.m.mhartid = hartid;
        let mut misa = self.m.misa;
        let mut i: usize = 0;
        proof {
            assert(cfg.extensions@.subrange(0, 0) =~= Seq::<char>::empty());
            lemma_or_facts(misa, 0, 0);
        }
        while i < cfg.extensions.len()
            invariant
                i <= cfg.extensions.len(),
                valid_extensions(cfg.extensions@),
                misa == old(self).m.misa | ext_bits(cfg.extensions@.subrange(0, i as int)),
            decreases cfg.extensions.len() - i,
        {
            let c = cfg.extensions[i];
            assert(97 <= cfg.extensions@[i as int] as u64 <= 122);
            let b = (c as u64) - 97;
            proof {
                let sub = cfg.extensions@.subrange(0, i as int + 1);
                assert(sub.drop_last() == cfg.extensions@.subrange(0, i as int));
                assert(sub.last() == c);
                let x = old(self).m.misa;
                let e = ext_bits(cfg.extensions@.subrange(0, i as int));
                lemma_or_facts(x, e, 1u64 << b);
            }
            misa = misa | (1u64 << b);
            i = i + 1;
        }
        proof {
            assert(cfg.extensions@.subrange(0, cfg.extensions@.len() as int) == cfg.extensions@);
        }
        match cfg.xlen {
            XLen::X32 => {
                misa = set_bit_range(misa, 31, 30, 1);
            },
            XLen::X64 => {
                misa = set_bit_range(misa, 63, 62, 2);
                self.m.mstatus.set_uxl(2);
                self.m.mstatus.set_sxl(2);
            },
        }
        self.m.misa = misa;
        proof {
            assert forall|i: int| 0 <= i < cfg.extensions@.len()
                implies self.spec_has_ext(((#[trigger] cfg.extensions@[i] as u64) - 97) as u64) by {
                let k = ((cfg.extensions@[i] as u64) - 97) as u64;
                assert(97 <= cfg.extensions@[i] as u64 <= 122);
                lemma_ext_bits_has(cfg.extensions@, i);
                lemma_misa_bits(ext_bits(cfg.extensions@), old(self).m.misa, k);
                lemma_misa_bits(old(self).m.misa | ext_bits(cfg.extensions@), 0, k);
            }
        }
    }

    /// `Ok` when the current level may access the CSR at `id` (its bits
    /// 9..8 name a level no higher than the current one).
    pub fn csr_privilege_check(&self, id: InsnT) -> (r: Result<(), ()>)
        ensures
            r is Ok <==> self.cur.spec_value() >= ((id & 0xfff) >> 8) & 3,
    {
        let trip_id = id & 0xfff;
        let cur_priv = self.cur.value();
        proof { crate::bits::lemma_and_bound_u32(trip_id >> 8, 3); }
        let csr_priv = ((trip_id >> 8) & 0x3) as u8;
        if cur_priv < csr_priv {
            return Err(());
        }
        Ok(())
    }

    /// The machine CSRs.
    pub fn m(&self) -> (r: &PrivM)
        ensures
            *r == self.m,
    {
        &self.m
    }

    /// The supervisor CSRs, if the hart has S.
    pub fn s(&self) -> (r: Option<&PrivS>)
        ensures
            r == match self.s { Some(s) => Some(&s), None => None::<&PrivS> },
    {
        match &self.s {
            Some(s) => Some(s),
            None => None,
        }
    }

    /// The user CSRs, if the hart has U.
    pub fn u(&self) -> (r: Option<&PrivU>)
        ensures
            r == match self.u { Some(u) => Some(&u), None => None::<&PrivU> },
    {
        match &self.u {
            Some(u) => Some(u),
            None => None,
        }
    }

    /// The interrupts that may be taken now (a mask of `mip` bits).
    pub fn pending_interrupts(&self) -> (r: RegT)
        requires
            self.wf(),
        ensures
            r == self.spec_pending_interrupts(),
    {
        let m = &self.m;
        let pendings = m.mip() & m.mie;
        if pendings == 0 {
            return 0;
        }
        let mie = m.mstatus.mie();
        let sie = m.mstatus.sie();
        let deleg = m.mideleg;
        let m_enabled = self.cur != Privilege::M || mie == 1;
        let m_pendings = if m_enabled { pendings & !deleg } else { 0 };
        let s_enabled = self.cur == Privilege::U || (self.cur == Privilege::S && sie == 1);
        let s_pendings = if s_enabled { pendings & deleg } else { 0 };
        if m_pendings == 0 {
            s_pendings
        } else {
            m_pendings
        }
    }

    /// The level a trap with `code` is taken in.
    pub fn delegate_priv(&self, code: RegT, int_flag: bool) -> (r: Privilege)
        requires
            code < 64,
        ensures
            r == self.spec_delegate_priv(code, int_flag),
    {
        let deleg = if int_flag { self.m.mideleg } else { self.m.medeleg };
        let delegated = self.cur != Privilege::M && (deleg >> code) & 1 == 1;
        if delegated {
            Privilege::S
        } else {
            Privilege::M
        }
    }

    /// Takes a trap with `code` and trap value `val` at `pc` (`next_pc` for
    /// interrupts): records the cause, return address and value in the
    /// target level's CSRs, pushes the interrupt enable and privilege in
    /// `mstatus`, and returns the handler address and the target level.
    pub fn trap_enter(&mut self, code: RegT, int_flag: bool, val: RegT, pc: RegT, next_pc: RegT) -> (r: (RegT, Privilege))
        requires
            old(self).wf(),
            code < 64,
            old(self).spec_delegate_priv(code, int_flag) == Privilege::S ==> old(self).s is Some,
        ensures
            final(self).wf(),
            (*final(self), r.0, r.1) == old(self).spec_trap_enter(code, int_flag, val, pc, next_pc),
    {
        proof {
            lemma_mstatus_stays_legal(*old(self), 0, 0, pc, code, int_flag, val, next_pc, Privilege::M);
        }
        let tgt = self.delegate_priv(code, int_flag);
        let epc = if int_flag { next_pc } else { pc };
        let cur = self.cur;
        match tgt {
            Privilege::M => {
                let tpc = self.m.mtvec.get_trap_pc(code, int_flag);
                self.m.mcause.set_cause(code, int_flag);
                self.m.mepc = epc;
                self.m.mtval = val;
                self.m.mstatus.push_privilege(&Privilege::M, &cur);
                let b = self.m.legalize_mstatus(self.m.mstatus.bits);
                self.m.mstatus.bits = b;
                (tpc, Privilege::M)
            },
            _ => {
                let mut s = self.s.unwrap();
                let tpc = s.stvec.get_trap_pc(code, int_flag);
                s.scause.set_cause(code, int_flag);
                s.sepc = epc;
                s.stval = val;
                self.s = Some(s);
                self.m.mstatus.push_privilege(&Privilege::S, &cur);
                (tpc, Privilege::S)
            },
        }
    }

    /// Returns from a trap handled at `cur_p`: pops the interrupt enable and
    /// previous privilege from `mstatus` and returns the saved pc (aligned to
    /// 4 without the C extension) and the previous level.
    pub fn trap_return(&mut self, cur_p: &Privilege) -> (r: (RegT, Privilege))
        requires
            old(self).wf(),
            *cur_p != Privilege::U,
            *cur_p == Privilege::S ==> old(self).s is Some,
            *cur_p == Privilege::M ==> Privilege::spec_from_value(field_of(old(self).m.mstatus.bits, 12, 11)) is Some,
        ensures
            final(self).wf(),
            (*final(self), r.0, r.1) == old(self).spec_trap_return(*cur_p),
    {
        proof {
            lemma_mstatus_stays_legal(*old(self), 0, 0, 0, 0, false, 0, 0, *cur_p);
        }
        let epc = match cur_p {
            Privilege::M => self.m.mepc,
            _ => self.s.unwrap().sepc,
        };
        let xpp = self.m.mstatus.pop_privilege(cur_p);
        if *cur_p == Privilege::M {
            let b = self.m.legalize_mstatus(self.m.mstatus.bits);
            self.m.mstatus.bits = b;
        }
        let pc = if self.check_extension('c').is_err() {
            (epc >> 2) << 2
        } else {
            epc
        };
        (pc, xpp)
    }

    /// The level that owns the CSR at `id` (bits 9..8), if any.
    pub fn get_priv_by_csr_idx(&self, id: InsnT) -> (r: Result<Privilege, ()>)
        ensures
            match Privilege::spec_from_value(((id >> 8) & 3) as u64) {
                Some(p) => r == Ok::<Privilege, ()>(p),
                None => r is Err,
            },
    {
        proof { crate::bits::lemma_and_bound_u32(id >> 8, 3); }
        let csr_priv = ((id >> 8) & 0x3) as u8;
        match Privilege::from_value(csr_priv) {
            Some(p) => Ok(p),
            None => Err(()),
        }
    }
}

impl PrivilegeStates {
    /// Whether the counter at `addr` is hidden from the current level.
    pub fn counter_disabled(&self, addr: u64) -> (r: bool)
        ensures
            r == self.spec_counter_disabled(addr),
    {
        let bit = addr & 0x1f;
        proof { crate::bits::lemma_and_bound(addr, 0x1f); }
        let mdis = self.m.mcounteren & (1u64 << bit) == 0;
        match self.cur {
            Privilege::S => mdis,
            Privilege::U => match &self.s {
                Some(s) => mdis || s.scounteren & (1u64 << bit) == 0,
                None => mdis,
            },
            Privilege::M => false,
        }
    }

    /// Reads the CSR at `addr` for the current level; `None` when the level
    /// that owns `addr` has no such readable register here.
    pub fn csr_read(&self, addr: InsnT) -> (r: Option<RegT>)
        requires
            self.wf(),
        ensures
            r == self.spec_csr_read(addr as u64),
    {
        let a = addr as u64;
        let p = (a >> 8) & 3;
        let xm = xlen_mask(self.m.xlen);
        if p == 3 {
            self.m.read(a)
        } else if p == 1 {
            match &self.s {
                None => None,
                Some(s) => {
                    if a == 0x100 {
                        let rm: RegT = match self.m.xlen {
                            XLen::X32 => 0x800d_e132,
                            XLen::X64 => 0x8000_0003_000d_e132,
                        };
                        Some((self.m.mstatus().bits & rm) | (s.uie & 1))
                    } else if a == 0x104 {
                        Some(self.m.mideleg & self.m.mie & SIP_MASK)
                    } else if a == 0x105 {
                        Some(s.stvec.bits)
                    } else if a == 0x106 {
                        Some(s.scounteren)
                    } else if a == 0x140 {
                        Some(s.sscratch)
                    } else if a == 0x141 {
                        Some(s.sepc)
                    } else if a == 0x142 {
                        Some(s.scause.bits)
                    } else if a == 0x143 {
                        Some(s.stval)
                    } else if a == 0x144 {
                        Some(self.m.mideleg & self.m.mip() & SIP_MASK)
                    } else if a == 0x180 {
                        if self.cur == Privilege::S && self.m.mstatus.tvm() != 0 {
                            None
                        } else {
                            Some(s.satp.bits)
                        }
                    } else {
                        None
                    }
                },
            }
        } else if p == 0 {
            match &self.u {
                None => None,
                Some(_) => {
                    let dis = self.counter_disabled(a);
                    if a == 0xc00 {
                        if dis { None } else { Some(0) }
                    } else if a == 0xc02 {
                        if dis { None } else { Some(self.m.instret & xm) }
                    } else if a == 0xc80 {
                        if dis || self.m.xlen != XLen::X32 { None } else { Some(0) }
                    } else if a == 0xc82 {
                        if dis || self.m.xlen != XLen::X32 { None } else { Some((self.m.instret >> 32) & 0xffff_ffff) }
                    } else {
                        None
                    }
                },
            }
        } else {
            None
        }
    }

    /// Software at the current level, with the program counter at `pc`,
    /// writes `value` to the CSR at `addr`; `None` (and no change) when the
    /// level that owns `addr` has no such writable register here. A write
    /// to `misa` that would disable C while `pc` is not 4-aligned is dropped.
    pub fn csr_write(&mut self, addr: InsnT, value: RegT, pc: RegT) -> (r: Option<()>)
        requires
            old(self).wf(),
        ensures
            final(self).wf(),
            match old(self).spec_csr_write(addr as u64, value, pc) {
                Some(n) => r == Some(()) && *final(self) == n,
                None => r is None && *final(self) == *old(self),
            },
    {
        proof {
            lemma_mstatus_stays_legal(*old(self), addr as u64, value, pc, 0, false, 0, 0, Privilege::M);
        }
        let a = addr as u64;
        let p = (a >> 8) & 3;
        let xm = xlen_mask(self.m.xlen);
        let v = value & xm;
        if p == 3 {
            let ignored = value & 4 == 0 && pc & 3 == 2;
            self.m.write(a, value, ignored)
        } else if p == 1 {
            if self.s.is_none() {
                return None;
            }
            let mut s = self.s.unwrap();
            if a == 0x100 {
                let b = (self.m.mstatus.bits & !SSTATUS_RW_MASK) | (value & SSTATUS_RW_MASK);
                self.m.mstatus = Status { xlen: self.m.xlen, bits: b, s_view: false };
                s.uie = value & 1;
            } else if a == 0x104 {
                let d = self.m.mideleg & SIP_MASK;
                self.m.mie = (self.m.mie & !d) | (value & d);
            } else if a == 0x105 {
                s.stvec = Tvec { xlen: s.xlen, bits: v & !2 };
            } else if a == 0x106 {
                s.scounteren = value & 5;
            } else if a == 0x140 {
                s.sscratch = v;
            } else if a == 0x141 {
                s.sepc = v;
            } else if a == 0x142 {
                let top: RegT = match s.xlen {
                    XLen::X32 => 0x8000_0000,
                    XLen::X64 => 0x8000_0000_0000_0000,
                };
                s.scause = Cause { xlen: s.xlen, bits: v & (0xf | top) };
            } else if a == 0x143 {
                s.stval = v;
            } else if a == 0x144 {
                let d = self.m.mideleg & 2;
                self.m.mip = (self.m.mip & !d) | (value & d);
            } else if a == 0x180 {
                if self.cur == Privilege::S && self.m.mstatus.tvm() != 0 {
                    return None;
                }
                s.satp = Satp { xlen: s.xlen, bits: v };
            } else {
                return None;
            }
            self.s = Some(s);
            Some(())
        } else {
            None
        }
    }
}

/// `x | 0` is `x`, and `|` regroups.
proof fn lemma_or_facts(x: u64, e: u64, y: u64)
    by (bit_vector)
    ensures
        x | 0 == x,
        (x | e) | y == x | (e | y),
{
}

/// `mstatus` bits: a trap into M from level `p` followed by `mret` puts
/// `p` in `mpp` and restores `mie`.
pub proof fn lemma_mstatus_push_pop_m(b: u64, p: u64, has_s: bool, has_u: bool)
    by (bit_vector)
    requires
        p == 0 || p == 1 || p == 3,
        has_u || p == 3,
        has_s || p != 1,
    ensures
        field_of(legal_mstatus_bits(pushed_m(b, p), has_s, has_u), 12, 11) == p,
        field_of(legal_mstatus_bits(popped_m(legal_mstatus_bits(pushed_m(b, p), has_s, has_u)), has_s, has_u), 3, 3)
            == field_of(b, 3, 3),
{
}

/// `mstatus` bits: a trap into S from level `p` (S or U) followed by
/// `sret` puts `p` in `spp` and restores `sie`.
pub proof fn lemma_mstatus_push_pop_s(b: u64, p: u64)
    by (bit_vector)
    requires
        p == 0 || p == 1,
    ensures
        field_of(pushed_s(b, p), 8, 8) == p,
        field_of(popped_s(pushed_s(b, p)), 1, 1) == field_of(b, 1, 1),
{
}

/// Returning from a trap undoes taking it: after a trap into M (or S), the
/// matching return goes back to the level the hart was at, to the address
/// the trap saved (aligned to 4 without C), with the interrupt enable of
/// the handling level as it was before the trap.
pub proof fn lemma_trap_return_after_trap_enter(s0: PrivilegeStates, code: u64, int_flag: bool, val: u64, pc: u64, next_pc: u64)
    requires
        s0.wf(),
        code < 64,
        s0.spec_delegate_priv(code, int_flag) == Privilege::S ==> s0.s is Some,
    ensures
        ({
            let (s1, _, tgt) = s0.spec_trap_enter(code, int_flag, val, pc, next_pc);
            let (s2, rpc, q) = s1.spec_trap_return(tgt);
            let epc = if int_flag { next_pc } else { pc };
            &&& s1.wf()
            &&& tgt == Privilege::M ==> Privilege::spec_from_value(field_of(s1.m.mstatus.bits, 12, 11)) is Some
            &&& q == s0.cur
            &&& rpc == (if s0.spec_has_ext(2) { epc } else { (epc >> 2) << 2 })
            &&& tgt == Privilege::M ==> field_of(s2.m.mstatus.bits, 3, 3) == field_of(s0.m.mstatus.bits, 3, 3)
            &&& tgt == Privilege::S ==> field_of(s2.m.mstatus.bits, 1, 1) == field_of(s0.m.mstatus.bits, 1, 1)
        }),
{
    lemma_mstatus_stays_legal(s0, 0, 0, pc, code, int_flag, val, next_pc, Privilege::M);
    let p = s0.cur.spec_value() as u64;
    let b = s0.m.mstatus.bits;
    if s0.spec_delegate_priv(code, int_flag) == Privilege::M {
        lemma_mstatus_push_pop_m(b, p, s0.m.has_s, s0.m.has_u);
    } else {
        lemma_mstatus_push_pop_s(b, p);
    }
}

/// The interrupts `pending_interrupts` offers are pending and enabled in
/// `mip`/`mie`; none is offered in M with `mstatus.mie` clear; they are
/// either all for M (not delegated) or all delegated to S; machine
/// interrupts come first: when they are enabled (below M, or in M with
/// `mstatus.mie`) and some pending one is not delegated, exactly those are
/// offered; delegated ones are offered only when supervisor interrupts are
/// enabled (in U, or in S with `mstatus.sie`), and then exactly the pending
/// delegated ones when no machine interrupt is offered.
pub proof fn lemma_pending_interrupts(s: PrivilegeStates)
    ensures
        s.spec_pending_interrupts() & !(s.m.spec_mip() & s.m.mie) == 0,
        s.cur == Privilege::M && field_of(s.m.mstatus.bits, 3, 3) == 0 ==> s.spec_pending_interrupts() == 0,
        s.spec_pending_interrupts() & s.m.mideleg == 0 || s.spec_pending_interrupts() & !s.m.mideleg == 0,
        ({
            let pend = s.m.spec_mip() & s.m.mie;
            let d = s.m.mideleg;
            let m_on = s.cur != Privilege::M || field_of(s.m.mstatus.bits, 3, 3) == 1;
            let s_on = s.cur == Privilege::U || (s.cur == Privilege::S && field_of(s.m.mstatus.bits, 1, 1) == 1);
            &&& m_on && pend & !d != 0 ==> s.spec_pending_interrupts() == pend & !d
            &&& s.spec_pending_interrupts() & d != 0 ==> s_on
            &&& s_on && !(m_on && pend & !d != 0) ==> s.spec_pending_interrupts() == pend & d
        }),
{
    let pend = s.m.spec_mip() & s.m.mie;
    let d = s.m.mideleg;
    assert(pend & !d & !pend == 0 && pend & d & !pend == 0 && 0u64 & !pend == 0 && pend & !d & d == 0
        && (pend & d) & !d == 0 && 0u64 & d == 0 && (pend == 0 ==> pend & !d == 0 && pend & d == 0)) by (bit_vector);
}

/// What a read gives back of a write: a whole-register machine or
/// supervisor CSR (`medeleg`, `mscratch`, `mepc`, `mtval`, `sscratch`,
/// `sepc`, `stval`) reads back the value written, cut to XLEN, and writing
/// it leaves every other such register as it was.
pub proof fn lemma_csr_read_after_write(s0: PrivilegeStates, addr: u64, value: u64, pc: u64, other: u64)
    requires
        s0.wf(),
        plain_csr(addr),
        plain_csr(other),
        other != addr,
        s0.spec_csr_write(addr, value, pc) is Some,
    ensures
        s0.spec_csr_write(addr, value, pc)->0.spec_csr_read(addr) == Some(value & xmask(s0.m.xlen)),
        s0.spec_csr_write(addr, value, pc)->0.spec_csr_read(other) == s0.spec_csr_read(other),
{
    assert((0x302u64 >> 8) & 3 == 3 && (0x340u64 >> 8) & 3 == 3 && (0x341u64 >> 8) & 3 == 3
        && (0x343u64 >> 8) & 3 == 3 && (0x140u64 >> 8) & 3 == 1 && (0x141u64 >> 8) & 3 == 1
        && (0x143u64 >> 8) & 3 == 1) by (bit_vector);
}

/// The CSRs that hold a whole register value with no fields.
pub open spec fn plain_csr(addr: u64) -> bool {
    addr == 0x302 || addr == 0x340 || addr == 0x341 || addr == 0x343 || addr == 0x140 || addr == 0x141 || addr == 0x143
}


/// Whether `mstatus` bits `b` hold the values a hart's levels fix: without
/// U, `mpp` is M and `tw` is clear; with U but no S, `mpp` is U or M;
/// without S, `tvm` and `tsr` are clear.
pub open spec fn mstatus_legal(b: u64, has_s: bool, has_u: bool) -> bool {
    &&& !has_u ==> field_of(b, 12, 11) == 3 && field_of(b, 21, 21) == 0
    &&& has_u && !has_s ==> field_of(b, 12, 11) == 0 || field_of(b, 12, 11) == 3
    &&& !has_s ==> field_of(b, 20, 20) == 0 && field_of(b, 22, 22) == 0
}

/// Bit facts of the status registers: legalising gives legal bits, the
/// writes and trap steps that do not legalise leave the fixed fields
/// alone, `sstatus` masks out the machine-only fields, and the addresses
/// of the status and counter CSRs belong to their levels.
pub proof fn lemma_status_bits(b: u64, v: u64, u: u64, p: u64, has_s: bool, has_u: bool)
    by (bit_vector)
    requires
        !has_u ==> !has_s,
    ensures
        mstatus_legal(legal_mstatus_bits(b, has_s, has_u), has_s, has_u),
        has_u && !has_s ==> field_of(legal_mstatus_bits(b, has_s, has_u), 12, 11)
            == (if field_of(b, 12, 11) != 0 { 3u64 } else { 0u64 }),
        field_of((b & !0x807f_ffbbu64) | (v & 0x807f_ffbbu64), 12, 11) == field_of(v, 12, 11),
        field_of((b & !0x8000_0000_007f_ffbbu64) | (v & 0x8000_0000_007f_ffbbu64), 12, 11) == field_of(v, 12, 11),
        mstatus_legal(b, has_s, has_u) ==> mstatus_legal((b & !SSTATUS_RW_MASK) | (v & SSTATUS_RW_MASK), has_s, has_u),
        mstatus_legal(b, has_s, has_u) ==> mstatus_legal(pushed_s(b, p), has_s, has_u),
        mstatus_legal(b, has_s, has_u) ==> mstatus_legal(popped_s(b), has_s, has_u),
        mstatus_legal(if has_u { 0u64 } else { with_field(0, 12, 11, 3) }, has_s, has_u),
        field_of((b & 0x800d_e132u64) | (u & 1), 3, 3) == 0 && field_of((b & 0x800d_e132u64) | (u & 1), 7, 7) == 0
            && field_of((b & 0x800d_e132u64) | (u & 1), 12, 11) == 0 && field_of((b & 0x800d_e132u64) | (u & 1), 17, 17) == 0
            && field_of((b & 0x800d_e132u64) | (u & 1), 20, 20) == 0 && field_of((b & 0x800d_e132u64) | (u & 1), 21, 21) == 0
            && field_of((b & 0x800d_e132u64) | (u & 1), 22, 22) == 0,
        field_of((b & 0x8000_0003_000d_e132u64) | (u & 1), 3, 3) == 0
            && field_of((b & 0x8000_0003_000d_e132u64) | (u & 1), 7, 7) == 0
            && field_of((b & 0x8000_0003_000d_e132u64) | (u & 1), 12, 11) == 0
            && field_of((b & 0x8000_0003_000d_e132u64) | (u & 1), 17, 17) == 0
            && field_of((b & 0x8000_0003_000d_e132u64) | (u & 1), 20, 20) == 0
            && field_of((b & 0x8000_0003_000d_e132u64) | (u & 1), 21, 21) == 0
            && field_of((b & 0x8000_0003_000d_e132u64) | (u & 1), 22, 22) == 0
            && field_of((b & 0x8000_0003_000d_e132u64) | (u & 1), 35, 34) == 0,
        field_of(with_field(b, 14, 13, 3), 14, 13) == 3,
        mstatus_legal(b, has_s, has_u) ==> mstatus_legal(with_field(with_field(b, 33, 32, 2), 35, 34, 2), has_s, has_u),
        mstatus_legal(b, has_s, has_u) ==> mstatus_legal(with_field(b, 31, 31, v), has_s, has_u)
            && mstatus_legal(with_field(b, 63, 63, v), has_s, has_u),
        mstatus_legal(b, has_s, has_u) ==> mstatus_legal(with_field(b, 14, 13, 3), has_s, has_u),
        field_of(with_field(b, 31, 31, v), 14, 13) == field_of(b, 14, 13),
        field_of(with_field(b, 63, 63, v), 14, 13) == field_of(b, 14, 13),
        v <= 1 ==> field_of(with_field(b, 31, 31, v), 31, 31) == v && field_of(with_field(b, 63, 63, v), 63, 63) == v,
        field_of(legal_mstatus_bits(b, has_s, has_u), 14, 13) == field_of(b, 14, 13),
        field_of((b & !0x807f_ffbbu64) | (v & 0x807f_ffbbu64), 14, 13) == field_of(v, 14, 13),
        field_of((b & !0x8000_0000_007f_ffbbu64) | (v & 0x8000_0000_007f_ffbbu64), 14, 13) == field_of(v, 14, 13),
        field_of((b & !SSTATUS_RW_MASK) | (v & SSTATUS_RW_MASK), 14, 13) == field_of(v, 14, 13),
        (0x100u64 >> 8) & 3 == 1 && (0x300u64 >> 8) & 3 == 3,
        (0xb02u64 >> 8) & 3 == 3 && (0xb82u64 >> 8) & 3 == 3,
        (0xc02u64 >> 8) & 3 == 0 && (0xc82u64 >> 8) & 3 == 0,
{
}

/// `mstatus` stays legal: whatever software writes to whichever CSR, and
/// whatever trap is taken or returned from, the fields the hart's levels
/// fix keep their fixed values; and on a hart with U but no S, a write to
/// `mstatus` stores M in `mpp` for any non-zero value and U for zero.
pub proof fn lemma_mstatus_stays_legal(
    p: PrivilegeStates, addr: u64, value: u64, pc: u64, code: u64, int_flag: bool, val: u64, next_pc: u64, cur_p: Privilege,
)
    requires
        p.wf(),
    ensures
        p.spec_csr_write(addr, value, pc) matches Some(p1) ==> p1.m.has_s == p.m.has_s && p1.m.has_u == p.m.has_u
            && mstatus_legal(p1.m.mstatus.bits, p.m.has_s, p.m.has_u),
        p.m.has_u && !p.m.has_s ==> (p.spec_csr_write(0x300, value, pc) matches Some(p1)
            && field_of(p1.m.mstatus.bits, 12, 11) == (if field_of(value, 12, 11) != 0 { 3u64 } else { 0u64 })),
        mstatus_legal(p.spec_trap_enter(code, int_flag, val, pc, next_pc).0.m.mstatus.bits, p.m.has_s, p.m.has_u),
        mstatus_legal(p.spec_trap_return(cur_p).0.m.mstatus.bits, p.m.has_s, p.m.has_u),
{
    let b = p.m.mstatus.bits;
    let w = m::mstatus_rw_mask(p.m.xlen);
    let curv = p.cur.spec_value() as u64;
    lemma_status_bits(b, value, 0, curv, p.m.has_s, p.m.has_u);
    lemma_status_bits((b & !w) | (value & w), value, 0, curv, p.m.has_s, p.m.has_u);
    lemma_status_bits(pushed_m(b, curv), value, 0, curv, p.m.has_s, p.m.has_u);
    lemma_status_bits(popped_m(b), value, 0, curv, p.m.has_s, p.m.has_u);
}

/// `sstatus` never shows the machine-only fields of `mstatus`: whatever
/// the state, a read of `sstatus` has `mie`, `mpie`, `mpp`, `mprv`, `tvm`,
/// `tw` and `tsr` (and, on RV64, `sxl`) clear.
pub proof fn lemma_sstatus_hides_machine_fields(p: PrivilegeStates)
    requires
        p.wf(),
        p.s is Some,
    ensures
        p.spec_csr_read(0x100) matches Some(v) && field_of(v, 3, 3) == 0 && field_of(v, 7, 7) == 0
            && field_of(v, 12, 11) == 0 && field_of(v, 17, 17) == 0 && field_of(v, 20, 20) == 0
            && field_of(v, 21, 21) == 0 && field_of(v, 22, 22) == 0
            && (p.m.xlen != XLen::X32 ==> field_of(v, 35, 34) == 0),
{
    lemma_status_bits(p.m.spec_mstatus(), 0, p.s->0.uie, 0, p.m.has_s, p.m.has_u);
}

/// The retired-instruction counter reaches the counter CSRs, and user
/// mode's counters mirror the machine ones: `minstret` reads the count cut
/// to the register width and, on RV32, `minstreth` its high word; where
/// user mode may read them, `instret`/`instreth` read the same.
pub proof fn lemma_instret_counters(p: PrivilegeStates)
    requires
        p.wf(),
    ensures
        p.spec_csr_read(0xb02) == Some(p.m.instret & xmask(p.m.xlen)),
        p.m.xlen == XLen::X32 ==> p.spec_csr_read(0xb82) == Some((p.m.instret >> 32) & 0xffff_ffffu64),
        p.u is Some && !p.spec_counter_disabled(0xc02) ==> p.spec_csr_read(0xc02) == p.spec_csr_read(0xb02),
        p.u is Some && p.m.xlen == XLen::X32 && !p.spec_counter_disabled(0xc82)
            ==> p.spec_csr_read(0xc82) == p.spec_csr_read(0xb82),
{
    lemma_status_bits(0, 0, 0, 0, p.m.has_s, p.m.has_u);
}

/// The levels a hart has fix fields of `mstatus` at every state: in any
/// well-formed state (and every operation keeps the state well formed,
/// from `PrivilegeStates::new` on), `mstatus` as software reads it has
/// `mpp` at M and `tw` clear on a hart without U, `mpp` at U or M on a
/// hart with U but no S, and `tvm` and `tsr` clear on a hart without S.
pub proof fn lemma_levels_fix_mstatus(p: PrivilegeStates)
    requires
        p.wf(),
    ensures
        mstatus_legal(p.m.mstatus.bits, p.m.has_s, p.m.has_u),
        p.spec_csr_read(0x300) matches Some(v) && mstatus_legal(v, p.m.has_s, p.m.has_u),
        p.m.has_u == p.u is Some && p.m.has_s == p.s is Some,
{
    let b = p.m.mstatus.bits;
    let dirty = field_of(b, 14, 13) == 3 && field_of(b, 16, 15) == 3;
    lemma_status_bits(b, if dirty { 1u64 } else { 0u64 }, 0, 0, p.m.has_s, p.m.has_u);
}

/// `mstatus.sd` summarises the floating-point and extension state at every
/// state: it reads 1 exactly when both `fs` and `xs` are 3 (dirty); and
/// the high halves of the counters (`mcycleh`, `minstreth`) can be read
/// exactly on a 32-bit hart.
pub proof fn lemma_mstatus_sd(m: PrivM)
    requires
        m.wf(),
    ensures
        m.spec_read(0x300) matches Some(v) && field_of(v, m::sd_bit(m.xlen), m::sd_bit(m.xlen))
            == (if field_of(m.mstatus.bits, 14, 13) == 3 && field_of(m.mstatus.bits, 16, 15) == 3 { 1u64 } else { 0u64 }),
        m.spec_read(0xb80) is Some <==> m.xlen == XLen::X32,
        m.spec_read(0xb82) is Some <==> m.xlen == XLen::X32,
{
    let b = m.mstatus.bits;
    let dirty = field_of(b, 14, 13) == 3 && field_of(b, 16, 15) == 3;
    lemma_status_bits(b, if dirty { 1u64 } else { 0u64 }, 0, 0, m.has_s, m.has_u);
}

/// Bit facts of `misa`: a set bit stays set under `|` with anything, a
/// bit is set in itself, and setting `mxl` leaves the extension bits.
proof fn lemma_misa_bits(a: u64, b: u64, k: u64)
    by (bit_vector)
    requires
        k < 26,
    ensures
        a & (1u64 << k) != 0 ==> (a | b) & (1u64 << k) != 0 && (b | a) & (1u64 << k) != 0,
        (1u64 << k) & (1u64 << k) != 0,
        with_field(a, 31, 30, 1) & (1u64 << k) == a & (1u64 << k),
        with_field(a, 63, 62, 2) & (1u64 << k) == a & (1u64 << k),
{
}

/// Every extension of `exts` has its bit in `ext_bits(exts)`.
pub proof fn lemma_ext_bits_has(exts: Seq<char>, i: int)
    requires
        valid_extensions(exts),
        0 <= i < exts.len(),
    ensures
        ext_bits(exts) & (1u64 << ((exts[i] as u64) - 97) as u64) != 0,
    decreases exts.len(),
{
    let k = ((exts[i] as u64) - 97) as u64;
    let rest = exts.drop_last();
    let top = (1u64 << ((exts.last() as u64) - 97) as u64);
    assert(97 <= exts[i] as u64 <= 122);
    if i == exts.len() - 1 {
        lemma_misa_bits(top, ext_bits(rest), k);
    } else {
        assert(valid_extensions(rest)) by {
            assert forall|j: int| 0 <= j < rest.len() implies 97 <= #[trigger] (rest[j] as u64) <= 122 by {
                assert(rest[j] == exts[j]);
            }
        }
        assert(rest[i] == exts[i]);
        lemma_ext_bits_has(rest, i);
        lemma_misa_bits(ext_bits(rest), top, k);
    }
}

/// Bit `k` of `x`, as a shift and as a mask.
proof fn lemma_bit_k(x: u64, k: u64)
    by (bit_vector)
    requires
        k < 64,
    ensures
        ((x >> k) & 1 == 1) == (x & (1u64 << k) != 0),
{
}

/// Where a trap is taken: outside machine mode, an interrupt with `code`
/// goes to supervisor mode exactly when bit `code` of `mideleg` is set,
/// and an exception exactly when bit `code` of `medeleg` is set; every
/// other trap goes to machine mode. Taking the trap switches to that level.
pub proof fn lemma_delegation(p: PrivilegeStates, code: u64, int_flag: bool, val: u64, pc: u64, next_pc: u64)
    requires
        code < 64,
    ensures
        (p.spec_delegate_priv(code, int_flag) == Privilege::S) == (p.cur != Privilege::M
            && if int_flag { p.m.mideleg & (1u64 << code) != 0 } else { p.m.medeleg & (1u64 << code) != 0 }),
        p.spec_delegate_priv(code, int_flag) == Privilege::S || p.spec_delegate_priv(code, int_flag) == Privilege::M,
        p.spec_trap_enter(code, int_flag, val, pc, next_pc).2 == p.spec_delegate_priv(code, int_flag),
{
    lemma_bit_k(p.m.mideleg, code);
    lemma_bit_k(p.m.medeleg, code);
}

} // verus!
