//! Machine-mode CSRs.
use vstd::prelude::*;
use crate::bits::{field_of, with_field, mask_of};
use crate::global::{RegT, XLen};
use super::csrs::{Status, Tvec, Cause};
use crate::processor::ProcessorCfg;

verus! {

/// The bits of a register of width `xlen`.
pub open spec fn xmask(xlen: XLen) -> u64 {
    if xlen == XLen::X32 { 0xffff_ffffu64 } else { 0xffff_ffff_ffff_ffffu64 }
}

/// The bits of a register of width `xlen`.
pub fn xlen_mask(xlen: XLen) -> (r: RegT)
    ensures
        r == xmask(xlen),
{
    match xlen {
        XLen::X32 => 0xffff_ffff,
        XLen::X64 => 0xffff_ffff_ffff_ffff,
    }
}

/// The bit of `mstatus.sd`.
pub open spec fn sd_bit(xlen: XLen) -> u64 {
    if xlen == XLen::X32 { 31 } else { 63 }
}

/// The writable bits of `mstatus` (every field but `uxl`/`sxl`).
pub open spec fn mstatus_rw_mask(xlen: XLen) -> u64 {
    if xlen == XLen::X32 { 0x807f_ffbbu64 } else { 0x8000_0000_007f_ffbbu64 }
}

/// The interrupt bits of `mie`/`mideleg` (`usip`..`meip`).
pub const IRQ_MASK: u64 = 0xbbb;

/// The software-writable bits of `mip`.
pub const MIP_RW_MASK: u64 = 0x333;

/// The interrupt lines a hart reads `mip.msip`, `mip.mtip` and
/// `mip.meip`/`mip.seip` from, once they are connected.
#[derive(Debug, Clone, Copy, PartialEq, Eq, Structural)]
pub struct IrqLines {
    /// Software interrupt line (from the CLINT), if connected.
    pub si: Option<bool>,
    /// Timer interrupt line (from the CLINT), if connected.
    pub ti: Option<bool>,
    /// External interrupt line (from the PLIC), if connected.
    pub ei: Option<bool>,
}

/// The machine-mode CSRs of a hart.
#[derive(Debug, Clone, Copy)]
pub struct PrivM {
    pub xlen: XLen,
    /// Whether the hart has supervisor mode (else `tvm`/`tsr` read 0).
    pub has_s: bool,
    /// Whether the hart has user mode (else `mpp` is always M, `tw` 0).
    pub has_u: bool,
    pub mstatus: Status,
    pub misa: RegT,
    pub medeleg: RegT,
    pub mideleg: RegT,
    pub mie: RegT,
    pub mtvec: Tvec,
    pub mcounteren: RegT,
    pub mscratch: RegT,
    pub mepc: RegT,
    pub mcause: Cause,
    pub mtval: RegT,
    pub mip: RegT,
    pub pmpcfg0: RegT,
    pub pmpcfg1: RegT,
    pub pmpcfg2: RegT,
    pub pmpcfg3: RegT,
    pub pmpaddr0: RegT,
    pub pmpaddr1: RegT,
    pub pmpaddr2: RegT,
    pub pmpaddr3: RegT,
    pub pmpaddr4: RegT,
    pub pmpaddr5: RegT,
    pub pmpaddr6: RegT,
    pub pmpaddr7: RegT,
    pub pmpaddr8: RegT,
    pub pmpaddr9: RegT,
    pub pmpaddr10: RegT,
    pub pmpaddr11: RegT,
    pub pmpaddr12: RegT,
    pub pmpaddr13: RegT,
    pub pmpaddr14: RegT,
    pub pmpaddr15: RegT,
    pub mhartid: RegT,
    /// The number of retired instructions, read by `minstret`/`instret`.
    pub instret: u64,
    pub irq: IrqLines,
}

impl PrivM {
    /// Structural well-formedness: every register has the hart's width.
    pub open spec fn wf(self) -> bool {
        &&& self.mstatus.xlen == self.xlen
        &&& !self.mstatus.s_view
        &&& self.mtvec.xlen == self.xlen
        &&& self.mcause.xlen == self.xlen
        &&& (!self.has_u ==> !self.has_s)
        &&& self.pmp_bounded()
    }

    /// Every `pmpaddr` register holds only its writable bits.
    pub open spec fn pmp_bounded(self) -> bool {
        let m = pmpaddr_mask(self.xlen);
        &&& self.pmpaddr0 <= m && self.pmpaddr1 <= m && self.pmpaddr2 <= m && self.pmpaddr3 <= m
        &&& self.pmpaddr4 <= m && self.pmpaddr5 <= m && self.pmpaddr6 <= m && self.pmpaddr7 <= m
        &&& self.pmpaddr8 <= m && self.pmpaddr9 <= m && self.pmpaddr10 <= m && self.pmpaddr11 <= m
        &&& self.pmpaddr12 <= m && self.pmpaddr13 <= m && self.pmpaddr14 <= m && self.pmpaddr15 <= m
    }

    /// `mstatus` as software reads it: `sd` summarises `fs` and `xs`.
    pub open spec fn spec_mstatus(self) -> u64 {
        let b = self.mstatus.bits;
        let dirty = field_of(b, 14, 13) == 3 && field_of(b, 16, 15) == 3;
        with_field(b, sd_bit(self.xlen), sd_bit(self.xlen), if dirty { 1 } else { 0 })
    }

    /// `mip` as software reads it: the connected lines override their bits.
    pub open spec fn spec_mip(self) -> u64 {
        let b0 = match self.irq.si {
            Some(s) => with_field(self.mip, 3, 3, if s { 1 } else { 0 }),
            None => self.mip,
        };
        let b1 = match self.irq.ti {
            Some(t) => with_field(b0, 7, 7, if t { 1 } else { 0 }),
            None => b0,
        };
        match self.irq.ei {
            Some(e) => with_field(with_field(b1, 11, 11, if e { 1 } else { 0 }), 9, 9, if e { 1 } else { 0 }),
            None => b1,
        }
    }

    /// The `pmpaddr` register `i`.
    pub open spec fn spec_pmpaddr(self, i: int) -> u64 {
        if i == 0 { self.pmpaddr0 } else if i == 1 { self.pmpaddr1 } else if i == 2 { self.pmpaddr2 }
        else if i == 3 { self.pmpaddr3 } else if i == 4 { self.pmpaddr4 } else if i == 5 { self.pmpaddr5 }
        else if i == 6 { self.pmpaddr6 } else if i == 7 { self.pmpaddr7 } else if i == 8 { self.pmpaddr8 }
        else if i == 9 { self.pmpaddr9 } else if i == 10 { self.pmpaddr10 } else if i == 11 { self.pmpaddr11 }
        else if i == 12 { self.pmpaddr12 } else if i == 13 { self.pmpaddr13 } else if i == 14 { self.pmpaddr14 }
        else { self.pmpaddr15 }
    }

    /// The `pmpcfg` register `i`.
    pub open spec fn spec_pmpcfg(self, i: int) -> u64 {
        if i == 0 { self.pmpcfg0 } else if i == 1 { self.pmpcfg1 } else if i == 2 { self.pmpcfg2 } else { self.pmpcfg3 }
    }

    /// What a read of the machine CSR at `addr` returns, or `None` when
    /// there is no such register or it cannot be read at this width.
    pub open spec fn spec_read(self, addr: u64) -> Option<u64> {
        let xm = xmask(self.xlen);
        if addr == 0x300 { Some(self.spec_mstatus()) }
        else if addr == 0x301 { Some(self.misa) }
        else if addr == 0x302 { Some(self.medeleg) }
        else if addr == 0x303 { Some(self.mideleg) }
        else if addr == 0x304 { Some(self.mie) }
        else if addr == 0x305 { Some(self.mtvec.bits) }
        else if addr == 0x306 { Some(self.mcounteren) }
        else if addr == 0x340 { Some(self.mscratch) }
        else if addr == 0x341 { Some(self.mepc) }
        else if addr == 0x342 { Some(self.mcause.bits) }
        else if addr == 0x343 { Some(self.mtval) }
        else if addr == 0x344 { Some(self.spec_mip()) }
        else if 0x3a0 <= addr <= 0x3a3 { Some(self.spec_pmpcfg(addr - 0x3a0)) }
        else if 0x3b0 <= addr <= 0x3bf { Some(self.spec_pmpaddr(addr - 0x3b0)) }
        else if addr == 0x7a0 { Some(xm) }
        else if addr == 0xb00 { Some(0) }
        else if addr == 0xb02 { Some(self.instret & xm) }
        else if addr == 0xb80 { if self.xlen == XLen::X32 { Some(0) } else { None } }
        else if addr == 0xb82 { if self.xlen == XLen::X32 { Some((self.instret >> 32) & 0xffff_ffffu64) } else { None } }
        else if 0xf11 <= addr <= 0xf13 { Some(0) }
        else if addr == 0xf14 { Some(self.mhartid) }
        else { None }
    }

    /// `mstatus` bits after software writes `value`: the writable fields
    /// take `value`, then `mpp`, `tvm`, `tsr` and `tw` are legalised for the
    /// privilege levels the hart has.
    pub open spec fn spec_mstatus_written(self, value: u64) -> u64 {
        let w = mstatus_rw_mask(self.xlen);
        self.legal_mstatus((self.mstatus.bits & !w) | (value & w))
    }

    /// `mstatus` bits with `mpp`, `tvm`, `tsr` and `tw` legalised.
    pub open spec fn legal_mstatus(self, b: u64) -> u64 {
        legal_mstatus_bits(b, self.has_s, self.has_u)
    }

    /// The state after software writes `value` to the machine CSR at
    /// `addr`, or `None` when there is no such writable register. A write
    /// to `misa` is dropped when `misa_ignored`.
    pub open spec fn spec_write(self, addr: u64, value: u64, misa_ignored: bool) -> Option<PrivM> {
        let xm = xmask(self.xlen);
        let v = value & xm;
        if addr == 0x300 {
            Some(PrivM { mstatus: Status { xlen: self.xlen, bits: self.spec_mstatus_written(value), s_view: false }, ..self })
        } else if addr == 0x301 {
            if misa_ignored { Some(self) } else {
                Some(PrivM { misa: (self.misa & !0x102du64) | (value & 0x102du64), ..self })
            }
        } else if addr == 0x302 { Some(PrivM { medeleg: v, ..self }) }
        else if addr == 0x303 { Some(PrivM { mideleg: value & IRQ_MASK, ..self }) }
        else if addr == 0x304 { Some(PrivM { mie: value & IRQ_MASK, ..self }) }
        else if addr == 0x305 { Some(PrivM { mtvec: Tvec { xlen: self.xlen, bits: v & !2u64 }, ..self }) }
        else if addr == 0x306 { Some(PrivM { mcounteren: value & 5u64, ..self }) }
        else if addr == 0x340 { Some(PrivM { mscratch: v, ..self }) }
        else if addr == 0x341 { Some(PrivM { mepc: v, ..self }) }
        else if addr == 0x342 {
            Some(PrivM { mcause: Cause { xlen: self.xlen, bits: v & (0xf | (1u64 << sd_bit(self.xlen))) }, ..self })
        }
        else if addr == 0x343 { Some(PrivM { mtval: v, ..self }) }
        else if addr == 0x344 { Some(PrivM { mip: (self.mip & !MIP_RW_MASK) | (value & MIP_RW_MASK), ..self }) }
        else if addr == 0x3a0 { Some(PrivM { pmpcfg0: v, ..self }) }
        else if addr == 0x3a1 { Some(PrivM { pmpcfg1: v, ..self }) }
        else if addr == 0x3a2 { Some(PrivM { pmpcfg2: v, ..self }) }
        else if addr == 0x3a3 { Some(PrivM { pmpcfg3: v, ..self }) }
        else if 0x3b0 <= addr <= 0x3bf {
            Some(self.with_pmpaddr((addr - 0x3b0) as int, value & pmpaddr_mask(self.xlen)))
        }
        else { None }
    }

    /// The state with `pmpaddr` register `i` set to `v`.
    pub open spec fn with_pmpaddr(self, i: int, v: u64) -> PrivM {
        if i == 0 { PrivM { pmpaddr0: v, ..self } } else if i == 1 { PrivM { pmpaddr1: v, ..self } }
        else if i == 2 { PrivM { pmpaddr2: v, ..self } } else if i == 3 { PrivM { pmpaddr3: v, ..self } }
        else if i == 4 { PrivM { pmpaddr4: v, ..self } } else if i == 5 { PrivM { pmpaddr5: v, ..self } }
        else if i == 6 { PrivM { pmpaddr6: v, ..self } } else if i == 7 { PrivM { pmpaddr7: v, ..self } }
        else if i == 8 { PrivM { pmpaddr8: v, ..self } } else if i == 9 { PrivM { pmpaddr9: v, ..self } }
        else if i == 10 { PrivM { pmpaddr10: v, ..self } } else if i == 11 { PrivM { pmpaddr11: v, ..self } }
        else if i == 12 { PrivM { pmpaddr12: v, ..self } } else if i == 13 { PrivM { pmpaddr13: v, ..self } }
        else if i == 14 { PrivM { pmpaddr14: v, ..self } } else { PrivM { pmpaddr15: v, ..self } }
    }
}

impl PrivM {
    /// Machine CSRs at reset: all zero, for a hart with every privilege level.
    pub fn new(cfg: &ProcessorCfg) -> (r: PrivM)
        ensures
            r.wf(),
            r.xlen == cfg.xlen,
            r.has_s && r.has_u,
            r.mstatus.bits == 0 && r.misa == 0 && r.mie == 0 && r.mip == 0,
            r.mideleg == 0 && r.medeleg == 0 && r.mcounteren == 0,
            r.pmpcfg0 == 0 && r.pmpcfg1 == 0 && r.pmpcfg2 == 0 && r.pmpcfg3 == 0,
            forall|i: int| 0 <= i < 16 ==> r.spec_pmpaddr(i) == 0,
            r.instret == 0,
            r.irq.si is None && r.irq.ti is None && r.irq.ei is None,
    {
        let xlen = cfg.xlen;
        PrivM {
            xlen,
            has_s: true,
            has_u: true,
            mstatus: Status { xlen, bits: 0, s_view: false },
            misa: 0,
            medeleg: 0,
            mideleg: 0,
            mie: 0,
            mtvec: Tvec { xlen, bits: 0 },
            mcounteren: 0,
            mscratch: 0,
            mepc: 0,
            mcause: Cause { xlen, bits: 0 },
            mtval: 0,
            mip: 0,
            pmpcfg0: 0,
            pmpcfg1: 0,
            pmpcfg2: 0,
            pmpcfg3: 0,
            pmpaddr0: 0,
            pmpaddr1: 0,
            pmpaddr2: 0,
            pmpaddr3: 0,
            pmpaddr4: 0,
            pmpaddr5: 0,
            pmpaddr6: 0,
            pmpaddr7: 0,
            pmpaddr8: 0,
            pmpaddr9: 0,
            pmpaddr10: 0,
            pmpaddr11: 0,
            pmpaddr12: 0,
            pmpaddr13: 0,
            pmpaddr14: 0,
            pmpaddr15: 0,
            mhartid: 0,
            instret: 0,
            irq: IrqLines { si: None, ti: None, ei: None },
        }
    }

    /// `mstatus` as software reads it.
    pub fn mstatus(&self) -> (r: Status)
        ensures
            r.xlen == self.xlen,
            r.bits == self.spec_mstatus(),
    {
        let b = self.mstatus.bits;
        let dirty = self.mstatus.fs() == 3 && self.mstatus.xs() == 3;
        let sd: RegT = if dirty { 1 } else { 0 };
        let bits = match self.xlen {
            XLen::X32 => crate::bits::set_bit_range(b, 31, 31, sd),
            XLen::X64 => crate::bits::set_bit_range(b, 63, 63, sd),
        };
        Status { xlen: self.xlen, bits, s_view: false }
    }

    /// `mip` as software reads it.
    pub fn mip(&self) -> (r: RegT)
        ensures
            r == self.spec_mip(),
    {
        let b0 = match self.irq.si {
            Some(s) => crate::bits::set_bit_range(self.mip, 3, 3, if s { 1 } else { 0 }),
            None => self.mip,
        };
        let b1 = match self.irq.ti {
            Some(t) => crate::bits::set_bit_range(b0, 7, 7, if t { 1 } else { 0 }),
            None => b0,
        };
        match self.irq.ei {
            Some(e) => crate::bits::set_bit_range(
                crate::bits::set_bit_range(b1, 11, 11, if e { 1 } else { 0 }),
                9,
                9,
                if e { 1 } else { 0 },
            ),
            None => b1,
        }
    }

    /// The `pmpaddr` register `i`.
    pub fn pmpaddr(&self, i: usize) -> (r: RegT)
        requires
            i < 16,
        ensures
            r == self.spec_pmpaddr(i as int),
    {
        match i {
            0 => self.pmpaddr0,
            1 => self.pmpaddr1,
            2 => self.pmpaddr2,
            3 => self.pmpaddr3,
            4 => self.pmpaddr4,
            5 => self.pmpaddr5,
            6 => self.pmpaddr6,
            7 => self.pmpaddr7,
            8 => self.pmpaddr8,
            9 => self.pmpaddr9,
            10 => self.pmpaddr10,
            11 => self.pmpaddr11,
            12 => self.pmpaddr12,
            13 => self.pmpaddr13,
            14 => self.pmpaddr14,
            _ => self.pmpaddr15,
        }
    }

    /// Sets the `pmpaddr` register `i`.
    pub fn set_pmpaddr(&mut self, i: usize, v: RegT)
        requires
            i < 16,
        ensures
            *final(self) == old(self).with_pmpaddr(i as int, v),
    {
        match i {
            0 => self.pmpaddr0 = v,
            1 => self.pmpaddr1 = v,
            2 => self.pmpaddr2 = v,
            3 => self.pmpaddr3 = v,
            4 => self.pmpaddr4 = v,
            5 => self.pmpaddr5 = v,
            6 => self.pmpaddr6 = v,
            7 => self.pmpaddr7 = v,
            8 => self.pmpaddr8 = v,
            9 => self.pmpaddr9 = v,
            10 => self.pmpaddr10 = v,
            11 => self.pmpaddr11 = v,
            12 => self.pmpaddr12 = v,
            13 => self.pmpaddr13 = v,
            14 => self.pmpaddr14 = v,
            _ => self.pmpaddr15 = v,
        }
    }

    /// The `pmpcfg` register `i`.
    pub fn pmpcfg(&self, i: usize) -> (r: RegT)
        requires
            i < 4,
        ensures
            r == self.spec_pmpcfg(i as int),
    {
        match i {
            0 => self.pmpcfg0,
            1 => self.pmpcfg1,
            2 => self.pmpcfg2,
            _ => self.pmpcfg3,
        }
    }

    /// `mstatus` bits with `mpp`, `tvm`, `tsr` and `tw` legalised.
    pub fn legalize_mstatus(&self, b: RegT) -> (r: RegT)
        ensures
            r == self.legal_mstatus(b),
    {
        let mpp = crate::bits::bit_range(b, 12, 11);
        let b1 = if !self.has_u {
            crate::bits::set_bit_range(b, 12, 11, 3)
        } else if !self.has_s {
            crate::bits::set_bit_range(b, 12, 11, if mpp != 0 { 3 } else { 0 })
        } else {
            b
        };
        let b2 = if !self.has_s {
            crate::bits::set_bit_range(crate::bits::set_bit_range(b1, 20, 20, 0), 22, 22, 0)
        } else {
            b1
        };
        if !self.has_u {
            crate::bits::set_bit_range(b2, 21, 21, 0)
        } else {
            b2
        }
    }

    /// Reads the machine CSR at `addr`; `None` when there is no such
    /// register or it cannot be read at this width.
    pub fn read(&self, addr: u64) -> (r: Option<RegT>)
        ensures
            r == self.spec_read(addr),
    {
        let xm = xlen_mask(self.xlen);
        if addr == 0x300 {
            Some(self.mstatus().bits)
        } else if addr == 0x301 {
            Some(self.misa)
        } else if addr == 0x302 {
            Some(self.medeleg)
        } else if addr == 0x303 {
            Some(self.mideleg)
        } else if addr == 0x304 {
            Some(self.mie)
        } else if addr == 0x305 {
            Some(self.mtvec.bits)
        } else if addr == 0x306 {
            Some(self.mcounteren)
        } else if addr == 0x340 {
            Some(self.mscratch)
        } else if addr == 0x341 {
            Some(self.mepc)
        } else if addr == 0x342 {
            Some(self.mcause.bits)
        } else if addr == 0x343 {
            Some(self.mtval)
        } else if addr == 0x344 {
            Some(self.mip())
        } else if 0x3a0 <= addr && addr <= 0x3a3 {
            Some(self.pmpcfg((addr - 0x3a0) as usize))
        } else if 0x3b0 <= addr && addr <= 0x3bf {
            Some(self.pmpaddr((addr - 0x3b0) as usize))
        } else if addr == 0x7a0 {
            Some(xm)
        } else if addr == 0xb00 {
            Some(0)
        } else if addr == 0xb02 {
            Some(self.instret & xm)
        } else if addr == 0xb80 {
            if self.xlen == XLen::X32 { Some(0) } else { None }
        } else if addr == 0xb82 {
            if self.xlen == XLen::X32 { Some((self.instret >> 32) & 0xffff_ffff) } else { None }
        } else if 0xf11 <= addr && addr <= 0xf13 {
            Some(0)
        } else if addr == 0xf14 {
            Some(self.mhartid)
        } else {
            None
        }
    }

    /// Software writes `value` to the machine CSR at `addr`; `None` (and no
    /// change) when there is no such writable register. A write to `misa`
    /// is dropped when `misa_ignored`.
    pub fn write(&mut self, addr: u64, value: RegT, misa_ignored: bool) -> (r: Option<()>)
        ensures
            old(self).wf() ==> final(self).wf(),
            match old(self).spec_write(addr, value, misa_ignored) {
                Some(n) => r == Some(()) && *final(self) == n,
                None => r is None && *final(self) == *old(self),
            },
    {
        let xm = xlen_mask(self.xlen);
        let v = value & xm;
        if addr == 0x300 {
            let w: RegT = match self.xlen {
                XLen::X32 => 0x807f_ffbb,
                XLen::X64 => 0x8000_0000_007f_ffbb,
            };
            let b = self.legalize_mstatus((self.mstatus.bits & !w) | (value & w));
            self.mstatus = Status { xlen: self.xlen, bits: b, s_view: false };
        } else if addr == 0x301 {
            if !misa_ignored {
                self.misa = (self.misa & !0x102d) | (value & 0x102d);
            }
        } else if addr == 0x302 {
            self.medeleg = v;
        } else if addr == 0x303 {
            self.mideleg = value & IRQ_MASK;
        } else if addr == 0x304 {
            self.mie = value & IRQ_MASK;
        } else if addr == 0x305 {
            self.mtvec = Tvec { xlen: self.xlen, bits: v & !2 };
        } else if addr == 0x306 {
            self.mcounteren = value & 5;
        } else if addr == 0x340 {
            self.mscratch = v;
        } else if addr == 0x341 {
            self.mepc = v;
        } else if addr == 0x342 {
            let top: RegT = match self.xlen {
                XLen::X32 => 1u64 << 31u64,
                XLen::X64 => 1u64 << 63u64,
            };
            self.mcause = Cause { xlen: self.xlen, bits: v & (0xf | top) };
        } else if addr == 0x343 {
            self.mtval = v;
        } else if addr == 0x344 {
            self.mip = (self.mip & !MIP_RW_MASK) | (value & MIP_RW_MASK);
        } else if addr == 0x3a0 {
            self.pmpcfg0 = v;
        } else if addr == 0x3a1 {
            self.pmpcfg1 = v;
        } else if addr == 0x3a2 {
            self.pmpcfg2 = v;
        } else if addr == 0x3a3 {
            self.pmpcfg3 = v;
        } else if 0x3b0 <= addr && addr <= 0x3bf {
            let pm: RegT = match self.xlen {
                XLen::X32 => 0xffff_ffff,
                XLen::X64 => 0x003f_ffff_ffff_ffff,
            };
            proof {
                crate::bits::lemma_and_bound(value, 0xffff_ffffu64);
                crate::bits::lemma_and_bound(value, 0x003f_ffff_ffff_ffffu64);
            }
            self.set_pmpaddr((addr - 0x3b0) as usize, value & pm);
        } else {
            return None;
        }
        Some(())
    }
}

/// `mstatus` bits with `mpp`, `tvm`, `tsr` and `tw` legalised for a hart
/// with (`has_s`) or without supervisor mode and with (`has_u`) or without
/// user mode: without U, `mpp` is M and `tw` is 0; with U but not S, a
/// nonzero `mpp` is M; without S, `tvm` and `tsr` are 0.
pub open spec fn legal_mstatus_bits(b: u64, has_s: bool, has_u: bool) -> u64 {
    let mpp = field_of(b, 12, 11);
    let b1 = if !has_u {
        with_field(b, 12, 11, 3)
    } else if !has_s {
        with_field(b, 12, 11, if mpp != 0 { 3 } else { 0 })
    } else {
        b
    };
    let b2 = if !has_s { with_field(with_field(b1, 20, 20, 0), 22, 22, 0) } else { b1 };
    if !has_u { with_field(b2, 21, 21, 0) } else { b2 }
}

/// The bits of a `pmpaddr` register: 32 on RV32, 54 on RV64.
pub open spec fn pmpaddr_mask(xlen: XLen) -> u64 {
    if xlen == XLen::X32 { 0xffff_ffffu64 } else { 0x003f_ffff_ffff_ffffu64 }
}

} // verus!
