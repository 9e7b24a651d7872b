//! Control and status registers with named bit fields.
//!
//! Each register keeps its raw bits; a field `f` of bits `msb..=lsb` is read
//! by `f()` and written by `set_f(value)`, which keeps the low bits of
//! `value` that fit in the field.
use vstd::prelude::*;
use crate::bits::{bit_range, field_of, set_bit_range, with_field};
use crate::global::{RegT, XLen};
use super::Privilege;

verus! {

/// The number of bits of a register of the given width.
pub open spec fn xlen_bits(xlen: XLen) -> u64 {
    match xlen {
        XLen::X32 => 32,
        XLen::X64 => 64,
    }
}

/// The machine status register (`mstatus`).
#[derive(Debug, Clone, Copy, PartialEq, Eq, Structural)]
pub struct Status {
    pub xlen: XLen,
    pub bits: RegT,
    /// Whether reads give the supervisor's view: the fields only machine
    /// mode sees (`mie`, `mpie`, `mpp`, `mprv`, `tvm`, `tw`, `tsr`, `sxl`)
    /// read as 0, whatever is written to them.
    pub s_view: bool,
}

impl Status {
    /// A status register of `xlen` bits (32 or 64) holding `bits`.
    pub fn new(xlen: usize, bits: RegT) -> (r: Status)
        requires
            xlen == 32 || xlen == 64,
        ensures
            xlen == 32 ==> r.xlen == XLen::X32,
            xlen == 64 ==> r.xlen == XLen::X64,
            r.bits == bits,
            !r.s_view,
    {
        Status { xlen: if xlen == 32 { XLen::X32 } else { XLen::X64 }, bits, s_view: false }
    }

    /// The raw value.
    pub fn get(&self) -> (r: RegT)
        ensures
            r == self.bits,
    {
        self.bits
    }

    /// Replaces the raw value.
    pub fn set(&mut self, bits: RegT)
        ensures
            final(self).bits == bits,
            final(self).xlen == old(self).xlen,
            final(self).s_view == old(self).s_view,
    {
        self.bits = bits;
    }

    /// User interrupt enable. (bits 0..0)
    pub fn uie(&self) -> (r: RegT)
        ensures
            r == field_of(self.bits, 0, 0),
    {
        bit_range(self.bits, 0, 0)
    }

    /// Writes the `uie` field, cut to its width.
    pub fn set_uie(&mut self, value: RegT)
        ensures
            final(self).bits == with_field(old(self).bits, 0, 0, value),
            final(self).xlen == old(self).xlen,
            final(self).s_view == old(self).s_view,
    {
        self.bits = set_bit_range(self.bits, 0, 0, value);
    }

    /// Supervisor interrupt enable. (bits 1..1)
    pub fn sie(&self) -> (r: RegT)
        ensures
            r == field_of(self.bits, 1, 1),
    {
        bit_range(self.bits, 1, 1)
    }

    /// Writes the `sie` field, cut to its width.
    pub fn set_sie(&mut self, value: RegT)
        ensures
            final(self).bits == with_field(old(self).bits, 1, 1, value),
            final(self).xlen == old(self).xlen,
            final(self).s_view == old(self).s_view,
    {
        self.bits = set_bit_range(self.bits, 1, 1, value);
    }

    /// Machine interrupt enable. (bits 3..3)
    pub fn mie(&self) -> (r: RegT)
        ensures
            r == (if self.s_view { 0 } else { field_of(self.bits, 3, 3) }),
    {
        if self.s_view {
            0
        } else {
            bit_range(self.bits, 3, 3)
        }
    }

    /// Writes the `mie` field, cut to its width.
    pub fn set_mie(&mut self, value: RegT)
        ensures
            final(self).bits == with_field(old(self).bits, 3, 3, value),
            final(self).xlen == old(self).xlen,
            final(self).s_view == old(self).s_view,
    {
        self.bits = set_bit_range(self.bits, 3, 3, value);
    }

    /// User interrupt enable before the trap. (bits 4..4)
    pub fn upie(&self) -> (r: RegT)
        ensures
            r == field_of(self.bits, 4, 4),
    {
        bit_range(self.bits, 4, 4)
    }

    /// Writes the `upie` field, cut to its width.
    pub fn set_upie(&mut self, value: RegT)
        ensures
            final(self).bits == with_field(old(self).bits, 4, 4, value),
            final(self).xlen == old(self).xlen,
            final(self).s_view == old(self).s_view,
    {
        self.bits = set_bit_range(self.bits, 4, 4, value);
    }

    /// Supervisor interrupt enable before the trap. (bits 5..5)
    pub fn spie(&self) -> (r: RegT)
        ensures
            r == field_of(self.bits, 5, 5),
    {
        bit_range(self.bits, 5, 5)
    }

    /// Writes the `spie` field, cut to its width.
    pub fn set_spie(&mut self, value: RegT)
        ensures
            final(self).bits == with_field(old(self).bits, 5, 5, value),
            final(self).xlen == old(self).xlen,
            final(self).s_view == old(self).s_view,
    {
        self.bits = set_bit_range(self.bits, 5, 5, value);
    }

    /// Machine interrupt enable before the trap. (bits 7..7)
    pub fn mpie(&self) -> (r: RegT)
        ensures
            r == (if self.s_view { 0 } else { field_of(self.bits, 7, 7) }),
    {
        if self.s_view {
            0
        } else {
            bit_range(self.bits, 7, 7)
        }
    }

    /// Writes the `mpie` field, cut to its width.
    pub fn set_mpie(&mut self, value: RegT)
        ensures
            final(self).bits == with_field(old(self).bits, 7, 7, value),
            final(self).xlen == old(self).xlen,
            final(self).s_view == old(self).s_view,
    {
        self.bits = set_bit_range(self.bits, 7, 7, value);
    }

    /// Privilege before a trap into supervisor mode. (bits 8..8)
    pub fn spp(&self) -> (r: RegT)
        ensures
            r == field_of(self.bits, 8, 8),
    {
        bit_range(self.bits, 8, 8)
    }

    /// Writes the `spp` field, cut to its width.
    pub fn set_spp(&mut self, value: RegT)
        ensures
            final(self).bits == with_field(old(self).bits, 8, 8, value),
            final(self).xlen == old(self).xlen,
            final(self).s_view == old(self).s_view,
    {
        self.bits = set_bit_range(self.bits, 8, 8, value);
    }

    /// Privilege before a trap into machine mode. (bits 12..11)
    pub fn mpp(&self) -> (r: RegT)
        ensures
            r == (if self.s_view { 0 } else { field_of(self.bits, 12, 11) }),
    {
        if self.s_view {
            0
        } else {
            bit_range(self.bits, 12, 11)
        }
    }

    /// Writes the `mpp` field, cut to its width.
    pub fn set_mpp(&mut self, value: RegT)
        ensures
            final(self).bits == with_field(old(self).bits, 12, 11, value),
            final(self).xlen == old(self).xlen,
            final(self).s_view == old(self).s_view,
    {
        self.bits = set_bit_range(self.bits, 12, 11, value);
    }

    /// Floating-point unit state. (bits 14..13)
    pub fn fs(&self) -> (r: RegT)
        ensures
            r == field_of(self.bits, 14, 13),
    {
        bit_range(self.bits, 14, 13)
    }

    /// Writes the `fs` field, cut to its width.
    pub fn set_fs(&mut self, value: RegT)
        ensures
            final(self).bits == with_field(old(self).bits, 14, 13, value),
            final(self).xlen == old(self).xlen,
            final(self).s_view == old(self).s_view,
    {
        self.bits = set_bit_range(self.bits, 14, 13, value);
    }

    /// Extension state. (bits 16..15)
    pub fn xs(&self) -> (r: RegT)
        ensures
            r == field_of(self.bits, 16, 15),
    {
        bit_range(self.bits, 16, 15)
    }

    /// Writes the `xs` field, cut to its width.
    pub fn set_xs(&mut self, value: RegT)
        ensures
            final(self).bits == with_field(old(self).bits, 16, 15, value),
            final(self).xlen == old(self).xlen,
            final(self).s_view == old(self).s_view,
    {
        self.bits = set_bit_range(self.bits, 16, 15, value);
    }

    /// Modify privilege of loads and stores. (bits 17..17)
    pub fn mprv(&self) -> (r: RegT)
        ensures
            r == (if self.s_view { 0 } else { field_of(self.bits, 17, 17) }),
    {
        if self.s_view {
            0
        } else {
            bit_range(self.bits, 17, 17)
        }
    }

    /// Writes the `mprv` field, cut to its width.
    pub fn set_mprv(&mut self, value: RegT)
        ensures
            final(self).bits == with_field(old(self).bits, 17, 17, value),
            final(self).xlen == old(self).xlen,
            final(self).s_view == old(self).s_view,
    {
        self.bits = set_bit_range(self.bits, 17, 17, value);
    }

    /// Permit supervisor access to user memory. (bits 18..18)
    pub fn sum(&self) -> (r: RegT)
        ensures
            r == field_of(self.bits, 18, 18),
    {
        bit_range(self.bits, 18, 18)
    }

    /// Writes the `sum` field, cut to its width.
    pub fn set_sum(&mut self, value: RegT)
        ensures
            final(self).bits == with_field(old(self).bits, 18, 18, value),
            final(self).xlen == old(self).xlen,
            final(self).s_view == old(self).s_view,
    {
        self.bits = set_bit_range(self.bits, 18, 18, value);
    }

    /// Make executable pages readable. (bits 19..19)
    pub fn mxr(&self) -> (r: RegT)
        ensures
            r == field_of(self.bits, 19, 19),
    {
        bit_range(self.bits, 19, 19)
    }

    /// Writes the `mxr` field, cut to its width.
    pub fn set_mxr(&mut self, value: RegT)
        ensures
            final(self).bits == with_field(old(self).bits, 19, 19, value),
            final(self).xlen == old(self).xlen,
            final(self).s_view == old(self).s_view,
    {
        self.bits = set_bit_range(self.bits, 19, 19, value);
    }

    /// Trap virtual memory management. (bits 20..20)
    pub fn tvm(&self) -> (r: RegT)
        ensures
            r == (if self.s_view { 0 } else { field_of(self.bits, 20, 20) }),
    {
        if self.s_view {
            0
        } else {
            bit_range(self.bits, 20, 20)
        }
    }

    /// Writes the `tvm` field, cut to its width.
    pub fn set_tvm(&mut self, value: RegT)
        ensures
            final(self).bits == with_field(old(self).bits, 20, 20, value),
            final(self).xlen == old(self).xlen,
            final(self).s_view == old(self).s_view,
    {
        self.bits = set_bit_range(self.bits, 20, 20, value);
    }

    /// Timeout wait. (bits 21..21)
    pub fn tw(&self) -> (r: RegT)
        ensures
            r == (if self.s_view { 0 } else { field_of(self.bits, 21, 21) }),
    {
        if self.s_view {
            0
        } else {
            bit_range(self.bits, 21, 21)
        }
    }

    /// Writes the `tw` field, cut to its width.
    pub fn set_tw(&mut self, value: RegT)
        ensures
            final(self).bits == with_field(old(self).bits, 21, 21, value),
            final(self).xlen == old(self).xlen,
            final(self).s_view == old(self).s_view,
    {
        self.bits = set_bit_range(self.bits, 21, 21, value);
    }

    /// Trap SRET. (bits 22..22)
    pub fn tsr(&self) -> (r: RegT)
        ensures
            r == (if self.s_view { 0 } else { field_of(self.bits, 22, 22) }),
    {
        if self.s_view {
            0
        } else {
            bit_range(self.bits, 22, 22)
        }
    }

    /// Writes the `tsr` field, cut to its width.
    pub fn set_tsr(&mut self, value: RegT)
        ensures
            final(self).bits == with_field(old(self).bits, 22, 22, value),
            final(self).xlen == old(self).xlen,
            final(self).s_view == old(self).s_view,
    {
        self.bits = set_bit_range(self.bits, 22, 22, value);
    }

    /// State dirty summary (bit 31 or 63).
    pub fn sd(&self) -> (r: RegT)
        ensures
            self.xlen == XLen::X32 ==> r == field_of(self.bits, 31, 31),
            self.xlen == XLen::X64 ==> r == field_of(self.bits, 63, 63),
    {
        match self.xlen {
            XLen::X32 => bit_range(self.bits, 31, 31),
            XLen::X64 => bit_range(self.bits, 63, 63),
        }
    }

    /// Writes the `sd` field, cut to its width.
    pub fn set_sd(&mut self, value: RegT)
        ensures
            old(self).xlen == XLen::X32 ==> final(self).bits == with_field(old(self).bits, 31, 31, value),
            old(self).xlen == XLen::X64 ==> final(self).bits == with_field(old(self).bits, 63, 63, value),
            final(self).xlen == old(self).xlen,
            final(self).s_view == old(self).s_view,
    {
        self.bits = match self.xlen {
            XLen::X32 => set_bit_range(self.bits, 31, 31, value),
            XLen::X64 => set_bit_range(self.bits, 63, 63, value),
        };
    }

    /// User XLEN (bits 33..32, RV64 only).
    pub fn uxl(&self) -> (r: RegT)
        ensures
            self.xlen == XLen::X32 ==> r == 0,
            self.xlen == XLen::X64 ==> r == field_of(self.bits, 33, 32),
    {
        match self.xlen {
            XLen::X32 => 0,
            XLen::X64 => bit_range(self.bits, 33, 32),
        }
    }

    /// Writes the `uxl` field (RV64 only), cut to its width.
    pub fn set_uxl(&mut self, value: RegT)
        ensures
            old(self).xlen == XLen::X32 ==> final(self).bits == old(self).bits,
            old(self).xlen == XLen::X64 ==> final(self).bits == with_field(old(self).bits, 33, 32, value),
            final(self).xlen == old(self).xlen,
            final(self).s_view == old(self).s_view,
    {
        if self.xlen == XLen::X64 {
            self.bits = set_bit_range(self.bits, 33, 32, value);
        }
    }

    /// Supervisor XLEN (bits 35..34, RV64 only).
    pub fn sxl(&self) -> (r: RegT)
        ensures
            self.xlen == XLen::X32 || self.s_view ==> r == 0,
            self.xlen == XLen::X64 && !self.s_view ==> r == field_of(self.bits, 35, 34),
    {
        if self.s_view {
            return 0;
        }
        match self.xlen {
            XLen::X32 => 0,
            XLen::X64 => bit_range(self.bits, 35, 34),
        }
    }

    /// Writes the `sxl` field (RV64 only), cut to its width.
    pub fn set_sxl(&mut self, value: RegT)
        ensures
            old(self).xlen == XLen::X32 ==> final(self).bits == old(self).bits,
            old(self).xlen == XLen::X64 ==> final(self).bits == with_field(old(self).bits, 35, 34, value),
            final(self).xlen == old(self).xlen,
            final(self).s_view == old(self).s_view,
    {
        if self.xlen == XLen::X64 {
            self.bits = set_bit_range(self.bits, 35, 34, value);
        }
    }
}

/// A trap vector base register (`mtvec`, `stvec`).
#[derive(Debug, Clone, Copy, PartialEq, Eq, Structural)]
pub struct Tvec {
    pub xlen: XLen,
    pub bits: RegT,
}

impl Tvec {
    /// The raw value.
    pub fn get(&self) -> (r: RegT)
        ensures
            r == self.bits,
    {
        self.bits
    }

    /// Vectored mode (bit 0).
    pub fn mode(&self) -> (r: RegT)
        ensures
            r == field_of(self.bits, 0, 0),
    {
        bit_range(self.bits, 0, 0)
    }

    /// Writes the `mode` field, cut to its width.
    pub fn set_mode(&mut self, value: RegT)
        ensures
            final(self).bits == with_field(old(self).bits, 0, 0, value),
            final(self).xlen == old(self).xlen,
    {
        self.bits = set_bit_range(self.bits, 0, 0, value);
    }

    /// The vector base address shifted right by 2.
    pub fn base(&self) -> (r: RegT)
        ensures
            self.xlen == XLen::X32 ==> r == field_of(self.bits, 31, 2),
            self.xlen == XLen::X64 ==> r == field_of(self.bits, 63, 2),
    {
        match self.xlen {
            XLen::X32 => bit_range(self.bits, 31, 2),
            XLen::X64 => bit_range(self.bits, 63, 2),
        }
    }

    /// Writes the `base` field, cut to its width.
    pub fn set_base(&mut self, value: RegT)
        ensures
            old(self).xlen == XLen::X32 ==> final(self).bits == with_field(old(self).bits, 31, 2, value),
            old(self).xlen == XLen::X64 ==> final(self).bits == with_field(old(self).bits, 63, 2, value),
            final(self).xlen == old(self).xlen,
    {
        self.bits = match self.xlen {
            XLen::X32 => set_bit_range(self.bits, 31, 2, value),
            XLen::X64 => set_bit_range(self.bits, 63, 2, value),
        };
    }
}

/// A trap cause register (`mcause`, `scause`).
#[derive(Debug, Clone, Copy, PartialEq, Eq, Structural)]
pub struct Cause {
    pub xlen: XLen,
    pub bits: RegT,
}

impl Cause {
    /// The raw value.
    pub fn get(&self) -> (r: RegT)
        ensures
            r == self.bits,
    {
        self.bits
    }

    /// The exception or interrupt code (bits 3..0).
    pub fn code(&self) -> (r: RegT)
        ensures
            r == field_of(self.bits, 3, 0),
    {
        bit_range(self.bits, 3, 0)
    }

    /// Writes the `code` field, cut to its width.
    pub fn set_code(&mut self, value: RegT)
        ensures
            final(self).bits == with_field(old(self).bits, 3, 0, value),
            final(self).xlen == old(self).xlen,
    {
        self.bits = set_bit_range(self.bits, 3, 0, value);
    }

    /// Whether the trap was an interrupt (the top bit).
    pub fn interrupt(&self) -> (r: RegT)
        ensures
            self.xlen == XLen::X32 ==> r == field_of(self.bits, 31, 31),
            self.xlen == XLen::X64 ==> r == field_of(self.bits, 63, 63),
    {
        match self.xlen {
            XLen::X32 => bit_range(self.bits, 31, 31),
            XLen::X64 => bit_range(self.bits, 63, 63),
        }
    }

    /// Writes the `interrupt` field, cut to its width.
    pub fn set_interrupt(&mut self, value: RegT)
        ensures
            old(self).xlen == XLen::X32 ==> final(self).bits == with_field(old(self).bits, 31, 31, value),
            old(self).xlen == XLen::X64 ==> final(self).bits == with_field(old(self).bits, 63, 63, value),
            final(self).xlen == old(self).xlen,
    {
        self.bits = match self.xlen {
            XLen::X32 => set_bit_range(self.bits, 31, 31, value),
            XLen::X64 => set_bit_range(self.bits, 63, 63, value),
        };
    }
}

/// The supervisor address translation and protection register (`satp`).
#[derive(Debug, Clone, Copy, PartialEq, Eq, Structural)]
pub struct Satp {
    pub xlen: XLen,
    pub bits: RegT,
}

impl Satp {
    /// The raw value.
    pub fn get(&self) -> (r: RegT)
        ensures
            r == self.bits,
    {
        self.bits
    }

    /// Physical page number of the root page table.
    pub fn ppn(&self) -> (r: RegT)
        ensures
            self.xlen == XLen::X32 ==> r == field_of(self.bits, 21, 0),
            self.xlen == XLen::X64 ==> r == field_of(self.bits, 43, 0),
    {
        match self.xlen {
            XLen::X32 => bit_range(self.bits, 21, 0),
            XLen::X64 => bit_range(self.bits, 43, 0),
        }
    }

    /// Writes the `ppn` field, cut to its width.
    pub fn set_ppn(&mut self, value: RegT)
        ensures
            old(self).xlen == XLen::X32 ==> final(self).bits == with_field(old(self).bits, 21, 0, value),
            old(self).xlen == XLen::X64 ==> final(self).bits == with_field(old(self).bits, 43, 0, value),
            final(self).xlen == old(self).xlen,
    {
        self.bits = match self.xlen {
            XLen::X32 => set_bit_range(self.bits, 21, 0, value),
            XLen::X64 => set_bit_range(self.bits, 43, 0, value),
        };
    }

    /// Address space identifier.
    pub fn asid(&self) -> (r: RegT)
        ensures
            self.xlen == XLen::X32 ==> r == field_of(self.bits, 30, 22),
            self.xlen == XLen::X64 ==> r == field_of(self.bits, 59, 44),
    {
        match self.xlen {
            XLen::X32 => bit_range(self.bits, 30, 22),
            XLen::X64 => bit_range(self.bits, 59, 44),
        }
    }

    /// Writes the `asid` field, cut to its width.
    pub fn set_asid(&mut self, value: RegT)
        ensures
            old(self).xlen == XLen::X32 ==> final(self).bits == with_field(old(self).bits, 30, 22, value),
            old(self).xlen == XLen::X64 ==> final(self).bits == with_field(old(self).bits, 59, 44, value),
            final(self).xlen == old(self).xlen,
    {
        self.bits = match self.xlen {
            XLen::X32 => set_bit_range(self.bits, 30, 22, value),
            XLen::X64 => set_bit_range(self.bits, 59, 44, value),
        };
    }

    /// Translation mode.
    pub fn mode(&self) -> (r: RegT)
        ensures
            self.xlen == XLen::X32 ==> r == field_of(self.bits, 31, 31),
            self.xlen == XLen::X64 ==> r == field_of(self.bits, 63, 60),
    {
        match self.xlen {
            XLen::X32 => bit_range(self.bits, 31, 31),
            XLen::X64 => bit_range(self.bits, 63, 60),
        }
    }

    /// Writes the `mode` field, cut to its width.
    pub fn set_mode(&mut self, value: RegT)
        ensures
            old(self).xlen == XLen::X32 ==> final(self).bits == with_field(old(self).bits, 31, 31, value),
            old(self).xlen == XLen::X64 ==> final(self).bits == with_field(old(self).bits, 63, 60, value),
            final(self).xlen == old(self).xlen,
    {
        self.bits = match self.xlen {
            XLen::X32 => set_bit_range(self.bits, 31, 31, value),
            XLen::X64 => set_bit_range(self.bits, 63, 60, value),
        };
    }
}

impl Status {
    /// Turns on the supervisor's view: from now on the fields only machine
    /// mode sees (`mie`, `mpie`, `mpp`, `mprv`, `tvm`, `tw`, `tsr`, `sxl`)
    /// read as 0, whatever is written to them; the bits themselves stay.
    pub fn as_s_priv(&mut self)
        ensures
            final(self).xlen == old(self).xlen,
            final(self).bits == old(self).bits,
            final(self).s_view,
    {
        self.s_view = true;
    }

    /// Records a trap into `tgt` taken from `cur`: the interrupt enable of
    /// `tgt` moves to its previous-enable field, `cur` goes to its
    /// previous-privilege field and the enable is cleared.
    pub fn push_privilege(&mut self, tgt: &Privilege, cur: &Privilege)
        requires
            *tgt != Privilege::U,
        ensures
            final(self).xlen == old(self).xlen,
            final(self).s_view == old(self).s_view,
            *tgt == Privilege::M && !old(self).s_view ==> final(self).bits == pushed_m(old(self).bits, cur.spec_value() as u64),
            *tgt == Privilege::M && old(self).s_view ==> final(self).bits
                == with_field(with_field(with_field(old(self).bits, 7, 7, 0), 12, 11, cur.spec_value() as u64), 3, 3, 0),
            *tgt == Privilege::S ==> final(self).bits == pushed_s(old(self).bits, cur.spec_value() as u64),
    {
        let p = cur.value();
        match tgt {
            Privilege::M => self.push_m_privilege(p),
            Privilege::S => self.push_s_privilege(p),
            Privilege::U => {},
        }
    }

    /// `mpie = mie; mpp = p; mie = 0` (in the supervisor's view `mie`
    /// reads 0).
    pub fn push_m_privilege(&mut self, p: u8)
        ensures
            final(self).xlen == old(self).xlen,
            final(self).s_view == old(self).s_view,
            !old(self).s_view ==> final(self).bits == pushed_m(old(self).bits, p as u64),
            old(self).s_view ==> final(self).bits == with_field(with_field(with_field(old(self).bits, 7, 7, 0), 12, 11, p as u64), 3, 3, 0),
    {
        let mie = self.mie();
        self.set_mpie(mie);
        self.set_mpp(p as RegT);
        self.set_mie(0);
    }

    /// `spie = sie; spp = p; sie = 0`.
    pub fn push_s_privilege(&mut self, p: u8)
        ensures
            final(self).xlen == old(self).xlen,
            final(self).s_view == old(self).s_view,
            final(self).bits == pushed_s(old(self).bits, p as u64),
    {
        let sie = self.sie();
        self.set_spie(sie);
        self.set_spp(p as RegT);
        self.set_sie(0);
    }

    /// Returns from a trap handled in `cur`: the previous enable is restored,
    /// the previous-enable field set, the previous-privilege field cleared,
    /// and the privilege it held is returned.
    pub fn pop_privilege(&mut self, cur: &Privilege) -> (r: Privilege)
        requires
            *cur != Privilege::U,
            *cur == Privilege::M && !old(self).s_view ==> Privilege::spec_from_value(field_of(old(self).bits, 12, 11)) is Some,
        ensures
            final(self).xlen == old(self).xlen,
            final(self).s_view == old(self).s_view,
            *cur == Privilege::M && !old(self).s_view ==> final(self).bits == popped_m(old(self).bits),
            *cur == Privilege::M && !old(self).s_view ==> Some(r) == Privilege::spec_from_value(field_of(old(self).bits, 12, 11)),
            *cur == Privilege::M && old(self).s_view ==> final(self).bits
                == with_field(with_field(with_field(old(self).bits, 3, 3, 0), 7, 7, 1), 12, 11, 0) && r == Privilege::U,
            *cur == Privilege::S ==> final(self).bits == popped_s(old(self).bits),
            *cur == Privilege::S ==> Some(r) == Privilege::spec_from_value(field_of(old(self).bits, 8, 8)),
    {
        let v = match cur {
            Privilege::M => self.pop_m_privilege(),
            _ => self.pop_s_privilege(),
        };
        proof {
            crate::bits::lemma_field_of_bound(old(self).bits, 8, 8);
            crate::bits::lemma_mask_values();
        }
        match Privilege::from_value(v) {
            Some(p) => p,
            None => Privilege::M,
        }
    }

    /// `mie = mpie; mpie = 1; mpp = 0`, returning the old `mpp` (in the
    /// supervisor's view `mpie` and `mpp` read 0).
    pub fn pop_m_privilege(&mut self) -> (r: u8)
        ensures
            final(self).xlen == old(self).xlen,
            final(self).s_view == old(self).s_view,
            !old(self).s_view ==> final(self).bits == popped_m(old(self).bits),
            !old(self).s_view ==> r == field_of(old(self).bits, 12, 11),
            old(self).s_view ==> final(self).bits == with_field(with_field(with_field(old(self).bits, 3, 3, 0), 7, 7, 1), 12, 11, 0),
            old(self).s_view ==> r == 0,
    {
        let mpp = self.mpp();
        let mpie = self.mpie();
        self.set_mie(mpie);
        self.set_mpie(1);
        self.set_mpp(0);
        proof {
            crate::bits::lemma_field_of_bound(old(self).bits, 12, 11);
            crate::bits::lemma_mask_values();
        }
        mpp as u8
    }

    /// `sie = spie; spie = 1; spp = 0`, returning the old `spp`.
    pub fn pop_s_privilege(&mut self) -> (r: u8)
        ensures
            final(self).xlen == old(self).xlen,
            final(self).s_view == old(self).s_view,
            final(self).bits == popped_s(old(self).bits),
            r == field_of(old(self).bits, 8, 8),
    {
        let spp = self.spp();
        let spie = self.spie();
        self.set_sie(spie);
        self.set_spie(1);
        self.set_spp(0);
        proof {
            crate::bits::lemma_field_of_bound(old(self).bits, 8, 8);
            crate::bits::lemma_mask_values();
        }
        spp as u8
    }
}

/// `mstatus` after a trap into machine mode from privilege `p`.
pub open spec fn pushed_m(bits: u64, p: u64) -> u64 {
    with_field(with_field(with_field(bits, 7, 7, field_of(bits, 3, 3)), 12, 11, p), 3, 3, 0)
}

/// `mstatus` after a trap into supervisor mode from privilege `p`.
pub open spec fn pushed_s(bits: u64, p: u64) -> u64 {
    with_field(with_field(with_field(bits, 5, 5, field_of(bits, 1, 1)), 8, 8, p), 1, 1, 0)
}

/// `mstatus` after `mret`.
pub open spec fn popped_m(bits: u64) -> u64 {
    with_field(with_field(with_field(bits, 3, 3, field_of(bits, 7, 7)), 7, 7, 1), 12, 11, 0)
}

/// `mstatus` after `sret`.
pub open spec fn popped_s(bits: u64) -> u64 {
    with_field(with_field(with_field(bits, 1, 1, field_of(bits, 5, 5)), 5, 5, 1), 8, 8, 0)
}

impl Tvec {
    /// The address a trap jumps to: the base, plus `4 * code` for an
    /// interrupt in vectored mode (modulo 2^64).
    pub fn get_trap_pc(&self, code: RegT, int_flag: bool) -> (r: RegT)
        ensures
            r == trap_pc(*self, code, int_flag),
    {
        let offset = if self.mode() == 1 && int_flag {
            code << 2
        } else {
            0
        };
        let base = self.base();
        proof {
            crate::bits::lemma_field_of_bound(self.bits, 31, 2);
            crate::bits::lemma_field_of_bound(self.bits, 63, 2);
            crate::bits::lemma_mask_values();
            assert(base <= crate::bits::mask_of(62) ==> base << 2 == base * 4) by (bit_vector);
        }
        (base << 2).wrapping_add(offset)
    }
}

/// The vector base of `tvec` (the address bits above bit 1).
pub open spec fn trap_base(tvec: Tvec) -> u64 {
    if tvec.xlen == XLen::X32 { field_of(tvec.bits, 31, 2) } else { field_of(tvec.bits, 63, 2) }
}

/// The address a trap through `tvec` with `code` jumps to (modulo 2^64).
pub open spec fn trap_pc(tvec: Tvec, code: u64, int_flag: bool) -> u64 {
    let offset: u64 = if field_of(tvec.bits, 0, 0) == 1 && int_flag { code << 2 } else { 0 };
    ((trap_base(tvec) * 4 + offset) % 0x1_0000_0000_0000_0000) as u64
}

impl Cause {
    /// Records the cause of a trap: its code and whether it is an interrupt.
    pub fn set_cause(&mut self, code: RegT, int_flag: bool)
        ensures
            final(self).xlen == old(self).xlen,
            old(self).xlen == XLen::X32 ==> final(self).bits == with_field(
                with_field(old(self).bits, 3, 0, code), 31, 31, if int_flag { 1 } else { 0 }),
            old(self).xlen == XLen::X64 ==> final(self).bits == with_field(
                with_field(old(self).bits, 3, 0, code), 63, 63, if int_flag { 1 } else { 0 }),
    {
        self.set_code(code);
        self.set_interrupt(if int_flag { 1 } else { 0 });
    }
}

} // verus!
