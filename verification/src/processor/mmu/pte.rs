//! Page table entries, virtual and physical addresses of the Sv32, Sv39
//! and Sv48 translation modes.
use vstd::prelude::*;
use crate::global::{RegT, XLen};
use crate::processor::privilege::csrs::Satp;
use crate::bits::field_of;
use crate::processor::bus::{spec_read, Bus, Space};

verus! {

/// No translation.
pub const PTE_BARE: u8 = 0;
/// Two-level page tables of 4-byte entries (RV32).
pub const PTE_SV32: u8 = 1;
/// Three-level page tables of 8-byte entries (RV64).
pub const PTE_SV39: u8 = 8;
/// Four-level page tables of 8-byte entries (RV64).
pub const PTE_SV48: u8 = 9;

/// The shape of the page tables of a translation mode.
#[derive(Debug, Clone, Copy)]
pub struct PteInfo {
    /// The `satp.mode` value.
    pub mode: u8,
    /// Number of levels.
    pub level: usize,
    /// Log2 of the size of an entry in bytes.
    pub size_shift: usize,
    /// Log2 of the page size.
    pub page_size_shift: usize,
}

/// Whether `satp` selects a mode this hart translates with: any mode on
/// RV32, Bare, Sv39 or Sv48 on RV64.
pub open spec fn supported_satp(satp: Satp) -> bool {
    satp.xlen == XLen::X32 || {
        let m = field_of(satp.bits, 63, 60);
        m == 0 || m == 8 || m == 9
    }
}

/// The page-table shape `PteInfo::new` gives for `satp`.
pub open spec fn spec_pte_info(satp: Satp) -> PteInfo {
    if satp.xlen == XLen::X32 {
        PteInfo { mode: field_of(satp.bits, 31, 31) as u8, level: 2, size_shift: 2, page_size_shift: 12 }
    } else {
        let mode = field_of(satp.bits, 63, 60) as u8;
        PteInfo {
            mode,
            level: if mode == PTE_SV39 { 3 } else if mode == PTE_SV48 { 4 } else { 0 },
            size_shift: 3,
            page_size_shift: 12,
        }
    }
}

impl PteInfo {
    /// The page-table shape selected by `satp`.
    pub fn new(satp: &Satp) -> (r: PteInfo)
        requires
            supported_satp(*satp),
        ensures
            r == spec_pte_info(*satp),
    {
        match satp.xlen {
            XLen::X32 => {
                proof {
                    crate::bits::lemma_field_of_bound(satp.bits, 31, 31);
                    crate::bits::lemma_mask_values();
                }
                PteInfo { mode: satp.mode() as u8, level: 2, size_shift: 2, page_size_shift: 12 }
            },
            XLen::X64 => {
                proof {
                    crate::bits::lemma_field_of_bound(satp.bits, 63, 60);
                    crate::bits::lemma_mask_values();
                }
                let mode = satp.mode() as u8;
                let level = if mode == PTE_SV39 {
                    3
                } else if mode == PTE_SV48 {
                    4
                } else {
                    0
                };
                PteInfo { mode, level, size_shift: 3, page_size_shift: 12 }
            },
        }
    }
}

/// The permission and status bits of a page table entry.
#[derive(Debug, Clone, Copy, PartialEq, Eq, Structural)]
pub struct PteAttr(pub u8);

impl PteAttr {
    /// Valid. (bit 0)
    pub fn v(&self) -> (r: u8)
        ensures
            r == (self.0 >> 0u8) & 1,
    {
        (self.0 >> 0u8) & 0x1
    }

    /// Readable. (bit 1)
    pub fn r(&self) -> (r: u8)
        ensures
            r == (self.0 >> 1u8) & 1,
    {
        (self.0 >> 1u8) & 0x1
    }

    /// Writable. (bit 2)
    pub fn w(&self) -> (r: u8)
        ensures
            r == (self.0 >> 2u8) & 1,
    {
        (self.0 >> 2u8) & 0x1
    }

    /// Executable. (bit 3)
    pub fn x(&self) -> (r: u8)
        ensures
            r == (self.0 >> 3u8) & 1,
    {
        (self.0 >> 3u8) & 0x1
    }

    /// Accessible to user mode. (bit 4)
    pub fn u(&self) -> (r: u8)
        ensures
            r == (self.0 >> 4u8) & 1,
    {
        (self.0 >> 4u8) & 0x1
    }

    /// Accessed. (bit 6)
    pub fn a(&self) -> (r: u8)
        ensures
            r == (self.0 >> 6u8) & 1,
    {
        (self.0 >> 6u8) & 0x1
    }

    /// Dirty. (bit 7)
    pub fn d(&self) -> (r: u8)
        ensures
            r == (self.0 >> 7u8) & 1,
    {
        (self.0 >> 7u8) & 0x1
    }

    /// Sets the accessed bit to the low bit of `value`.
    pub fn set_a(&mut self, value: u8)
        ensures
            final(self).0 == ((value & 1) << 6u8) | (old(self).0 & 0xbf),
    {
        self.0 = ((value & 1) << 6u8) | self.0 & 0xbf
    }

    /// Sets the dirty bit to the low bit of `value`.
    pub fn set_d(&mut self, value: u8)
        ensures
            final(self).0 == ((value & 1) << 7u8) | (old(self).0 & 0x7f),
    {
        self.0 = ((value & 1) << 7u8) | self.0 & 0x7f
    }

    /// The attribute byte `v`.
    pub fn from(v: u8) -> (r: PteAttr)
        ensures
            r.0 == v,
    {
        PteAttr(v)
    }
}

/// Setting the accessed (dirty) bit stores the low bit of the value there
/// and keeps every other bit.
pub proof fn lemma_pte_attr_set(x: u8, value: u8)
    ensures
        (((((value & 1) << 6u8) | (x & 0xbf)) as u8) >> 6u8) & 1 == value & 1,
        forall|b: u8| b < 8 && b != 6 ==> #[trigger] (((((value & 1) << 6u8) | (x & 0xbf)) as u8) >> b) & 1 == (x >> b) & 1,
        (((((value & 1) << 7u8) | (x & 0x7f)) as u8) >> 7u8) & 1 == value & 1,
        forall|b: u8| b < 7 ==> #[trigger] (((((value & 1) << 7u8) | (x & 0x7f)) as u8) >> b) & 1 == (x >> b) & 1,
{
    assert((((((value & 1) << 6u8) | (x & 0xbf)) as u8) >> 6u8) & 1 == value & 1
        && (((((value & 1) << 7u8) | (x & 0x7f)) as u8) >> 7u8) & 1 == value & 1) by (bit_vector);
    assert(forall|b: u8| b < 8 && b != 6 ==> #[trigger] (((((value & 1) << 6u8) | (x & 0xbf)) as u8) >> b) & 1 == (x >> b) & 1) by (bit_vector);
    assert(forall|b: u8| b < 7 ==> #[trigger] (((((value & 1) << 7u8) | (x & 0x7f)) as u8) >> b) & 1 == (x >> b) & 1) by (bit_vector);
}

/// A virtual address in Sv32 mode.
#[derive(Debug, Clone, Copy)]
pub struct Sv32Vaddr(pub RegT);

impl Sv32Vaddr {
    /// The virtual page number field of `level`.
    pub open spec fn spec_vpn(self, level: int) -> RegT {
        if level == 0 { (self.0 >> 12) & 0x3ff } else { (self.0 >> 22) & 0x3ff }
    }

    /// The virtual page number field of `level`.
    pub fn vpn(&self, level: usize) -> (r: RegT)
        requires
            level < 2,
        ensures
            r == self.spec_vpn(level as int),
    {
        match level {
            0 => (self.0 >> 12) & 0x3ff,
            _ => (self.0 >> 22) & 0x3ff,
        }
    }

    /// The raw address.
    pub fn value(&self) -> (r: RegT)
        ensures
            r == self.0,
    {
        self.0
    }

    /// The whole virtual page number.
    pub fn vpn_all(&self) -> (r: RegT)
        ensures
            r == (self.0 >> 12) & 0xfffff,
    {
        (self.0 >> 12) & 0xfffff
    }

    /// The offset within the page.
    pub fn offset(&self) -> (r: RegT)
        ensures
            r == self.0 & 0xfff,
    {
        self.0 & 0xfff
    }
}

/// A physical address in Sv32 mode.
#[derive(Debug, Clone, Copy)]
pub struct Sv32Paddr(pub RegT);

impl Sv32Paddr {
    /// The address with the physical page number field of `level` replaced
    /// by the low bits of `ppn`.
    pub open spec fn spec_set_ppn(self, level: int, ppn: RegT) -> Sv32Paddr {
        if level == 0 { Sv32Paddr((self.0 & 0xffffffff_ffc00fff) | ((ppn & 0x3ff) << 12)) } else         if level == 1 { Sv32Paddr((self.0 & 0xfffffffc_003fffff) | ((ppn & 0xfff) << 22)) } else { self }
    }

    /// Replaces the physical page number field of `level`.
    pub fn set_ppn(&mut self, level: usize, ppn: RegT)
        ensures
            *final(self) == old(self).spec_set_ppn(level as int, ppn),
    {
        match level {
            0 => self.0 = self.0 & 0xffffffff_ffc00fff | (ppn & 0x3ff) << 12,
            1 => self.0 = self.0 & 0xfffffffc_003fffff | (ppn & 0xfff) << 22,
            _ => {},
        }
    }

    /// The address, cut to the physical address width.
    pub fn value(&self) -> (r: RegT)
        ensures
            r == self.0 & 0x3_ffff_ffff,
    {
        self.0 & 0x3_ffff_ffff
    }
}

/// A page table entry in Sv32 mode.
#[derive(Debug, Clone, Copy)]
pub struct Sv32Pte(pub RegT);

impl Sv32Pte {
    /// The physical page number field of `level`.
    pub open spec fn spec_ppn(self, level: int) -> RegT {
        if level == 0 { (self.0 >> 10) & 0x3ff } else { (self.0 >> 20) & 0xfff }
    }

    /// The physical page number field of `level`.
    pub fn ppn(&self, level: usize) -> (r: RegT)
        requires
            level < 2,
        ensures
            r == self.spec_ppn(level as int),
    {
        match level {
            0 => (self.0 >> 10) & 0x3ff,
            _ => (self.0 >> 20) & 0xfff,
        }
    }

    /// The whole physical page number.
    pub fn ppn_all(&self) -> (r: RegT)
        ensures
            r == (self.0 >> 10) & 0x3fffff,
    {
        (self.0 >> 10) & 0x3fffff
    }

    /// The raw entry.
    pub fn value(&self) -> (r: RegT)
        ensures
            r == self.0,
    {
        self.0
    }

    /// The permission and status bits.
    pub fn attr(&self) -> (r: PteAttr)
        ensures
            r.0 == self.0 as u8,
    {
        PteAttr(self.0 as u8)
    }

    /// Merges `attr` into the entry: the low four bits are replaced, the
    /// accessed and dirty bits are or-ed in.
    pub fn set_attr(&mut self, attr: &PteAttr)
        ensures
            final(self).0 == (old(self).0 & 0xffffffff_fffffff0) | attr.0 as RegT,
    {
        self.0 = self.0 & 0xffffffff_fffffff0 | attr.0 as RegT
    }
}

/// A virtual address in Sv39 mode.
#[derive(Debug, Clone, Copy)]
pub struct Sv39Vaddr(pub RegT);

impl Sv39Vaddr {
    /// The virtual page number field of `level`.
    pub open spec fn spec_vpn(self, level: int) -> RegT {
        if level == 0 { (self.0 >> 12) & 0x1ff } else if level == 1 { (self.0 >> 21) & 0x1ff } else { (self.0 >> 30) & 0x1ff }
    }

    /// The virtual page number field of `level`.
    pub fn vpn(&self, level: usize) -> (r: RegT)
        requires
            level < 3,
        ensures
            r == self.spec_vpn(level as int),
    {
        match level {
            0 => (self.0 >> 12) & 0x1ff,
            1 => (self.0 >> 21) & 0x1ff,
            _ => (self.0 >> 30) & 0x1ff,
        }
    }

    /// The raw address.
    pub fn value(&self) -> (r: RegT)
        ensures
            r == self.0,
    {
        self.0
    }

    /// The whole virtual page number.
    pub fn vpn_all(&self) -> (r: RegT)
        ensures
            r == (self.0 >> 12) & 0x7ffffff,
    {
        (self.0 >> 12) & 0x7ffffff
    }

    /// The offset within the page.
    pub fn offset(&self) -> (r: RegT)
        ensures
            r == self.0 & 0xfff,
    {
        self.0 & 0xfff
    }
}

/// A physical address in Sv39 mode.
#[derive(Debug, Clone, Copy)]
pub struct Sv39Paddr(pub RegT);

impl Sv39Paddr {
    /// The address with the physical page number field of `level` replaced
    /// by the low bits of `ppn`.
    pub open spec fn spec_set_ppn(self, level: int, ppn: RegT) -> Sv39Paddr {
        if level == 0 { Sv39Paddr((self.0 & 0xffffffff_ffe00fff) | ((ppn & 0x1ff) << 12)) } else         if level == 1 { Sv39Paddr((self.0 & 0xffffffff_c01fffff) | ((ppn & 0x1ff) << 21)) } else         if level == 2 { Sv39Paddr((self.0 & 0xff000000_3fffffff) | ((ppn & 0x3ffffff) << 30)) } else { self }
    }

    /// Replaces the physical page number field of `level`.
    pub fn set_ppn(&mut self, level: usize, ppn: RegT)
        ensures
            *final(self) == old(self).spec_set_ppn(level as int, ppn),
    {
        match level {
            0 => self.0 = self.0 & 0xffffffff_ffe00fff | (ppn & 0x1ff) << 12,
            1 => self.0 = self.0 & 0xffffffff_c01fffff | (ppn & 0x1ff) << 21,
            2 => self.0 = self.0 & 0xff000000_3fffffff | (ppn & 0x3ffffff) << 30,
            _ => {},
        }
    }

    /// The address, cut to the physical address width.
    pub fn value(&self) -> (r: RegT)
        ensures
            r == self.0 & 0xff_ffff_ffff_ffff,
    {
        self.0 & 0xff_ffff_ffff_ffff
    }
}

/// A page table entry in Sv39 mode.
#[derive(Debug, Clone, Copy)]
pub struct Sv39Pte(pub RegT);

impl Sv39Pte {
    /// The physical page number field of `level`.
    pub open spec fn spec_ppn(self, level: int) -> RegT {
        if level == 0 { (self.0 >> 10) & 0x1ff } else if level == 1 { (self.0 >> 19) & 0x1ff } else { (self.0 >> 28) & 0x3ffffff }
    }

    /// The physical page number field of `level`.
    pub fn ppn(&self, level: usize) -> (r: RegT)
        requires
            level < 3,
        ensures
            r == self.spec_ppn(level as int),
    {
        match level {
            0 => (self.0 >> 10) & 0x1ff,
            1 => (self.0 >> 19) & 0x1ff,
            _ => (self.0 >> 28) & 0x3ffffff,
        }
    }

    /// The whole physical page number.
    pub fn ppn_all(&self) -> (r: RegT)
        ensures
            r == (self.0 >> 10) & 0xfffffffffff,
    {
        (self.0 >> 10) & 0xfffffffffff
    }

    /// The raw entry.
    pub fn value(&self) -> (r: RegT)
        ensures
            r == self.0,
    {
        self.0
    }

    /// The permission and status bits.
    pub fn attr(&self) -> (r: PteAttr)
        ensures
            r.0 == self.0 as u8,
    {
        PteAttr(self.0 as u8)
    }

    /// Merges `attr` into the entry: the low four bits are replaced, the
    /// accessed and dirty bits are or-ed in.
    pub fn set_attr(&mut self, attr: &PteAttr)
        ensures
            final(self).0 == (old(self).0 & 0xffffffff_fffffff0) | attr.0 as RegT,
    {
        self.0 = self.0 & 0xffffffff_fffffff0 | attr.0 as RegT
    }
}

/// A virtual address in Sv48 mode.
#[derive(Debug, Clone, Copy)]
pub struct Sv48Vaddr(pub RegT);

impl Sv48Vaddr {
    /// The virtual page number field of `level`.
    pub open spec fn spec_vpn(self, level: int) -> RegT {
        if level == 0 { (self.0 >> 12) & 0x1ff } else if level == 1 { (self.0 >> 21) & 0x1ff } else if level == 2 { (self.0 >> 30) & 0x1ff } else { (self.0 >> 39) & 0x1ff }
    }

    /// The virtual page number field of `level`.
    pub fn vpn(&self, level: usize) -> (r: RegT)
        requires
            level < 4,
        ensures
            r == self.spec_vpn(level as int),
    {
        match level {
            0 => (self.0 >> 12) & 0x1ff,
            1 => (self.0 >> 21) & 0x1ff,
            2 => (self.0 >> 30) & 0x1ff,
            _ => (self.0 >> 39) & 0x1ff,
        }
    }

    /// The raw address.
    pub fn value(&self) -> (r: RegT)
        ensures
            r == self.0,
    {
        self.0
    }

    /// The whole virtual page number.
    pub fn vpn_all(&self) -> (r: RegT)
        ensures
            r == (self.0 >> 12) & 0xfffffffff,
    {
        (self.0 >> 12) & 0xfffffffff
    }

    /// The offset within the page.
    pub fn offset(&self) -> (r: RegT)
        ensures
            r == self.0 & 0xfff,
    {
        self.0 & 0xfff
    }
}

/// A physical address in Sv48 mode.
#[derive(Debug, Clone, Copy)]
pub struct Sv48Paddr(pub RegT);

impl Sv48Paddr {
    /// The address with the physical page number field of `level` replaced
    /// by the low bits of `ppn`.
    pub open spec fn spec_set_ppn(self, level: int, ppn: RegT) -> Sv48Paddr {
        if level == 0 { Sv48Paddr((self.0 & 0xffffffff_ffe00fff) | ((ppn & 0x1ff) << 12)) } else         if level == 1 { Sv48Paddr((self.0 & 0xffffffff_c01fffff) | ((ppn & 0x1ff) << 21)) } else         if level == 2 { Sv48Paddr((self.0 & 0xffffff80_3fffffff) | ((ppn & 0x1ff) << 30)) } else         if level == 3 { Sv48Paddr((self.0 & 0xff00007f_ffffffff) | ((ppn & 0x1ffff) << 39)) } else { self }
    }

    /// Replaces the physical page number field of `level`.
    pub fn set_ppn(&mut self, level: usize, ppn: RegT)
        ensures
            *final(self) == old(self).spec_set_ppn(level as int, ppn),
    {
        match level {
            0 => self.0 = self.0 & 0xffffffff_ffe00fff | (ppn & 0x1ff) << 12,
            1 => self.0 = self.0 & 0xffffffff_c01fffff | (ppn & 0x1ff) << 21,
            2 => self.0 = self.0 & 0xffffff80_3fffffff | (ppn & 0x1ff) << 30,
            3 => self.0 = self.0 & 0xff00007f_ffffffff | (ppn & 0x1ffff) << 39,
            _ => {},
        }
    }

    /// The address, cut to the physical address width.
    pub fn value(&self) -> (r: RegT)
        ensures
            r == self.0 & 0xff_ffff_ffff_ffff,
    {
        self.0 & 0xff_ffff_ffff_ffff
    }
}

/// A page table entry in Sv48 mode.
#[derive(Debug, Clone, Copy)]
pub struct Sv48Pte(pub RegT);

impl Sv48Pte {
    /// The physical page number field of `level`.
    pub open spec fn spec_ppn(self, level: int) -> RegT {
        if level == 0 { (self.0 >> 10) & 0x1ff } else if level == 1 { (self.0 >> 19) & 0x1ff } else if level == 2 { (self.0 >> 28) & 0x1ff } else { (self.0 >> 37) & 0x1ffff }
    }

    /// The physical page number field of `level`.
    pub fn ppn(&self, level: usize) -> (r: RegT)
        requires
            level < 4,
        ensures
            r == self.spec_ppn(level as int),
    {
        match level {
            0 => (self.0 >> 10) & 0x1ff,
            1 => (self.0 >> 19) & 0x1ff,
            2 => (self.0 >> 28) & 0x1ff,
            _ => (self.0 >> 37) & 0x1ffff,
        }
    }

    /// The whole physical page number.
    pub fn ppn_all(&self) -> (r: RegT)
        ensures
            r == (self.0 >> 10) & 0xfffffffffff,
    {
        (self.0 >> 10) & 0xfffffffffff
    }

    /// The raw entry.
    pub fn value(&self) -> (r: RegT)
        ensures
            r == self.0,
    {
        self.0
    }

    /// The permission and status bits.
    pub fn attr(&self) -> (r: PteAttr)
        ensures
            r.0 == self.0 as u8,
    {
        PteAttr(self.0 as u8)
    }

    /// Merges `attr` into the entry: the low four bits are replaced, the
    /// accessed and dirty bits are or-ed in.
    pub fn set_attr(&mut self, attr: &PteAttr)
        ensures
            final(self).0 == (old(self).0 & 0xffffffff_fffffff0) | attr.0 as RegT,
    {
        self.0 = self.0 & 0xffffffff_fffffff0 | attr.0 as RegT
    }
}

/// A virtual address of one of the translation modes.
#[derive(Debug, Clone, Copy)]
pub enum Vaddr {
    Sv32(Sv32Vaddr),
    Sv39(Sv39Vaddr),
    Sv48(Sv48Vaddr),
}

/// A physical address of one of the translation modes.
#[derive(Debug, Clone, Copy)]
pub enum Paddr {
    Sv32(Sv32Paddr),
    Sv39(Sv39Paddr),
    Sv48(Sv48Paddr),
}

/// A page table entry of one of the translation modes.
#[derive(Debug, Clone, Copy)]
pub enum Pte {
    Sv32(Sv32Pte),
    Sv39(Sv39Pte),
    Sv48(Sv48Pte),
}

/// Whether `mode` is a translating mode (Sv32, Sv39 or Sv48).
pub open spec fn translating_mode(mode: u8) -> bool {
    mode == PTE_SV32 || mode == PTE_SV39 || mode == PTE_SV48
}

/// The number of page-table levels of a translating mode.
pub open spec fn mode_levels(mode: u8) -> int {
    if mode == PTE_SV32 { 2 } else if mode == PTE_SV39 { 3 } else { 4 }
}

impl Vaddr {
    /// The address `addr` read in `mode`.
    pub open spec fn spec_new(mode: u8, addr: RegT) -> Vaddr {
        if mode == PTE_SV32 {
            Vaddr::Sv32(Sv32Vaddr(addr))
        } else if mode == PTE_SV39 {
            Vaddr::Sv39(Sv39Vaddr(addr))
        } else {
            Vaddr::Sv48(Sv48Vaddr(addr))
        }
    }

    /// The address `addr` read in `mode` (a translating mode).
    pub fn new(mode: u8, addr: RegT) -> (r: Vaddr)
        requires
            translating_mode(mode),
        ensures
            r == Vaddr::spec_new(mode, addr),
    {
        if mode == PTE_SV32 {
            Vaddr::Sv32(Sv32Vaddr(addr))
        } else if mode == PTE_SV39 {
            Vaddr::Sv39(Sv39Vaddr(addr))
        } else {
            Vaddr::Sv48(Sv48Vaddr(addr))
        }
    }

    /// The mode's number of levels.
    pub open spec fn levels(self) -> int {
        match self {
            Vaddr::Sv32(_) => 2,
            Vaddr::Sv39(_) => 3,
            Vaddr::Sv48(_) => 4,
        }
    }

    /// The raw address.
    pub open spec fn spec_value(self) -> RegT {
        match self {
            Vaddr::Sv32(a) => a.0,
            Vaddr::Sv39(a) => a.0,
            Vaddr::Sv48(a) => a.0,
        }
    }

    /// The virtual page number field of `level`.
    pub open spec fn spec_vpn(self, level: int) -> RegT {
        match self {
            Vaddr::Sv32(a) => a.spec_vpn(level),
            Vaddr::Sv39(a) => a.spec_vpn(level),
            Vaddr::Sv48(a) => a.spec_vpn(level),
        }
    }

    /// The whole virtual page number.
    pub open spec fn spec_vpn_all(self) -> RegT {
        match self {
            Vaddr::Sv32(a) => (a.0 >> 12) & 0xfffff,
            Vaddr::Sv39(a) => (a.0 >> 12) & 0x7ffffff,
            Vaddr::Sv48(a) => (a.0 >> 12) & 0xf_ffffffff,
        }
    }

    /// The offset within the page.
    pub fn offset(&self) -> (r: RegT)
        ensures
            r == self.spec_value() & 0xfff,
    {
        match self {
            Vaddr::Sv32(a) => a.offset(),
            Vaddr::Sv39(a) => a.offset(),
            Vaddr::Sv48(a) => a.offset(),
        }
    }

    /// The virtual page number field of `level`.
    pub fn vpn(&self, level: usize) -> (r: RegT)
        requires
            level < self.levels(),
        ensures
            r == self.spec_vpn(level as int),
    {
        match self {
            Vaddr::Sv32(a) => a.vpn(level),
            Vaddr::Sv39(a) => a.vpn(level),
            Vaddr::Sv48(a) => a.vpn(level),
        }
    }

    /// The whole virtual page number.
    pub fn vpn_all(&self) -> (r: RegT)
        ensures
            r == self.spec_vpn_all(),
    {
        match self {
            Vaddr::Sv32(a) => a.vpn_all(),
            Vaddr::Sv39(a) => a.vpn_all(),
            Vaddr::Sv48(a) => a.vpn_all(),
        }
    }

    /// The raw address.
    pub fn value(&self) -> (r: RegT)
        ensures
            r == self.spec_value(),
    {
        match self {
            Vaddr::Sv32(a) => a.value(),
            Vaddr::Sv39(a) => a.value(),
            Vaddr::Sv48(a) => a.value(),
        }
    }
}

impl Pte {
    /// The entry `value` read in `mode`.
    pub open spec fn spec_new(mode: u8, value: RegT) -> Pte {
        if mode == PTE_SV32 {
            Pte::Sv32(Sv32Pte(value))
        } else if mode == PTE_SV39 {
            Pte::Sv39(Sv39Pte(value))
        } else {
            Pte::Sv48(Sv48Pte(value))
        }
    }

    /// The entry `value` read in `mode` (a translating mode).
    pub fn new(mode: u8, value: RegT) -> (r: Pte)
        requires
            translating_mode(mode),
        ensures
            r == Pte::spec_new(mode, value),
    {
        if mode == PTE_SV32 {
            Pte::Sv32(Sv32Pte(value))
        } else if mode == PTE_SV39 {
            Pte::Sv39(Sv39Pte(value))
        } else {
            Pte::Sv48(Sv48Pte(value))
        }
    }

    /// The raw entry.
    pub open spec fn spec_value(self) -> RegT {
        match self {
            Pte::Sv32(p) => p.0,
            Pte::Sv39(p) => p.0,
            Pte::Sv48(p) => p.0,
        }
    }

    /// The physical page number field of `level`.
    pub open spec fn spec_ppn(self, level: int) -> RegT {
        match self {
            Pte::Sv32(p) => p.spec_ppn(level),
            Pte::Sv39(p) => p.spec_ppn(level),
            Pte::Sv48(p) => p.spec_ppn(level),
        }
    }

    /// The whole physical page number.
    pub open spec fn spec_ppn_all(self) -> RegT {
        match self {
            Pte::Sv32(p) => (p.0 >> 10) & 0x3fffff,
            Pte::Sv39(p) => (p.0 >> 10) & 0xfff_ffffffff,
            Pte::Sv48(p) => (p.0 >> 10) & 0xfff_ffffffff,
        }
    }

    /// The mode's number of levels.
    pub open spec fn levels(self) -> int {
        match self {
            Pte::Sv32(_) => 2,
            Pte::Sv39(_) => 3,
            Pte::Sv48(_) => 4,
        }
    }

    /// The entry with `attr` merged in.
    pub open spec fn spec_set_attr(self, attr: PteAttr) -> Pte {
        match self {
            Pte::Sv32(p) => Pte::Sv32(Sv32Pte((p.0 & 0xffffffff_fffffff0) | attr.0 as RegT)),
            Pte::Sv39(p) => Pte::Sv39(Sv39Pte((p.0 & 0xffffffff_fffffff0) | attr.0 as RegT)),
            Pte::Sv48(p) => Pte::Sv48(Sv48Pte((p.0 & 0xffffffff_fffffff0) | attr.0 as RegT)),
        }
    }

    /// The physical page number field of `level`.
    pub fn ppn(&self, level: usize) -> (r: RegT)
        requires
            level < self.levels(),
        ensures
            r == self.spec_ppn(level as int),
    {
        match self {
            Pte::Sv32(p) => p.ppn(level),
            Pte::Sv39(p) => p.ppn(level),
            Pte::Sv48(p) => p.ppn(level),
        }
    }

    /// The whole physical page number.
    pub fn ppn_all(&self) -> (r: RegT)
        ensures
            r == self.spec_ppn_all(),
    {
        match self {
            Pte::Sv32(p) => p.ppn_all(),
            Pte::Sv39(p) => p.ppn_all(),
            Pte::Sv48(p) => p.ppn_all(),
        }
    }

    /// The permission and status bits.
    pub fn attr(&self) -> (r: PteAttr)
        ensures
            r.0 == self.spec_value() as u8,
    {
        match self {
            Pte::Sv32(p) => p.attr(),
            Pte::Sv39(p) => p.attr(),
            Pte::Sv48(p) => p.attr(),
        }
    }

    /// The raw entry.
    pub fn value(&self) -> (r: RegT)
        ensures
            r == self.spec_value(),
    {
        match self {
            Pte::Sv32(p) => p.value(),
            Pte::Sv39(p) => p.value(),
            Pte::Sv48(p) => p.value(),
        }
    }

    /// Merges `attr` into the entry.
    pub fn set_attr(&mut self, attr: &PteAttr)
        ensures
            *final(self) == old(self).spec_set_attr(*attr),
    {
        match self {
            Pte::Sv32(p) => p.set_attr(attr),
            Pte::Sv39(p) => p.set_attr(attr),
            Pte::Sv48(p) => p.set_attr(attr),
        }
    }

    /// Reads the entry at `addr`: 4 bytes in Sv32, 8 otherwise.
    pub fn load<S: Space>(info: &PteInfo, bus: &Bus<S>, addr: u64) -> (r: Result<Pte, u64>)
        requires
            translating_mode(info.mode),
            info.size_shift == 2 || info.size_shift == 3,
        ensures
            match spec_read(&bus.space, addr, if info.size_shift == 2 { 4nat } else { 8nat }) {
                Some(v) => r == Ok::<Pte, u64>(Pte::spec_new(info.mode, v)),
                None => r is Err,
            },
    {
        let n: u64 = if info.size_shift == 2 { 4 } else { 8 };
        let value = bus.read(addr, n)?;
        Ok(Pte::new(info.mode, value))
    }

    /// Writes the entry at `addr`: 4 bytes in Sv32, 8 otherwise; nothing is
    /// written when a byte does not answer.
    pub fn store<S: Space>(&self, bus: &mut Bus<S>, addr: u64) -> (r: Result<(), u64>)
        ensures
            final(bus).lock_table == old(bus).lock_table,
            r is Ok <==> spec_read(&old(bus).space, addr, self.store_len()) is Some,
            r is Ok ==> spec_read(&final(bus).space, addr, self.store_len())
                == Some(self.spec_value() & crate::processor::bus::byte_mask(self.store_len() as u64)),
            r is Ok ==> forall|a: u64| (a < addr || a as int >= addr as int + self.store_len()) ==>
                #[trigger] final(bus).space.spec_byte(a) == old(bus).space.spec_byte(a),
            r is Err ==> forall|a: u64| #[trigger] final(bus).space.spec_byte(a) == old(bus).space.spec_byte(a),
    {
        match self {
            Pte::Sv32(p) => bus.write(addr, 4, p.0),
            Pte::Sv39(p) => bus.write(addr, 8, p.0),
            Pte::Sv48(p) => bus.write(addr, 8, p.0),
        }
    }

    /// The number of bytes an entry takes in memory.
    pub open spec fn store_len(self) -> nat {
        match self {
            Pte::Sv32(_) => 4,
            _ => 8,
        }
    }
}

impl Paddr {
    /// The address with the physical page number field of `level` replaced.
    pub open spec fn spec_set_ppn(self, level: int, ppn: RegT) -> Paddr {
        match self {
            Paddr::Sv32(a) => Paddr::Sv32(a.spec_set_ppn(level, ppn)),
            Paddr::Sv39(a) => Paddr::Sv39(a.spec_set_ppn(level, ppn)),
            Paddr::Sv48(a) => Paddr::Sv48(a.spec_set_ppn(level, ppn)),
        }
    }

    /// The address cut to the physical address width.
    pub open spec fn spec_value(self) -> RegT {
        match self {
            Paddr::Sv32(a) => a.0 & 0x3_ffff_ffff,
            Paddr::Sv39(a) => a.0 & 0xff_ffff_ffff_ffff,
            Paddr::Sv48(a) => a.0 & 0xff_ffff_ffff_ffff,
        }
    }

    /// The page-aligned copy of `vaddr` (same page number and offset) in
    /// its mode.
    pub open spec fn spec_start(vaddr: Vaddr) -> Paddr {
        match vaddr {
            Vaddr::Sv32(a) => Paddr::Sv32(Sv32Paddr((((a.0 >> 12) & 0xfffff) << 12) | (a.0 & 0xfff))),
            Vaddr::Sv39(a) => Paddr::Sv39(Sv39Paddr((((a.0 >> 12) & 0x7ffffff) << 12) | (a.0 & 0xfff))),
            Vaddr::Sv48(a) => Paddr::Sv48(Sv48Paddr((((a.0 >> 12) & 0xf_ffffffff) << 12) | (a.0 & 0xfff))),
        }
    }

    /// The physical address the leaf `pte` at `level` maps `vaddr` to: the
    /// virtual page number fields below `level` are kept (a superpage), the
    /// ones from `level` up are the entry's.
    pub open spec fn spec_new(vaddr: Vaddr, pte: Pte, level: int, levels: int) -> Paddr {
        fill_ppn(Paddr::spec_start(vaddr), pte, level, levels)
    }

    /// The physical address a leaf maps a virtual address to.
    pub fn new(vaddr: &Vaddr, pte: &Pte, info: &PteInfo, level: usize) -> (r: Paddr)
        requires
            info.level == pte.levels(),
            level <= info.level,
        ensures
            r == Paddr::spec_new(*vaddr, *pte, level as int, info.level as int),
    {
        let mut pa = match vaddr {
            Vaddr::Sv32(addr) => Paddr::Sv32(Sv32Paddr(addr.vpn_all() << 12 | addr.offset())),
            Vaddr::Sv39(addr) => Paddr::Sv39(Sv39Paddr(addr.vpn_all() << 12 | addr.offset())),
            Vaddr::Sv48(addr) => Paddr::Sv48(Sv48Paddr(addr.vpn_all() << 12 | addr.offset())),
        };
        let mut i = level;
        while i < info.level
            invariant
                level <= i <= info.level,
                info.level == pte.levels(),
                fill_ppn(pa, *pte, i as int, info.level as int) == Paddr::spec_new(*vaddr, *pte, level as int, info.level as int),
            decreases info.level - i,
        {
            let p = pte.ppn(i);
            pa.set_ppn(i, p);
            i = i + 1;
        }
        pa
    }

    /// The address cut to the physical address width.
    pub fn value(&self) -> (r: RegT)
        ensures
            r == self.spec_value(),
    {
        match self {
            Paddr::Sv32(a) => a.value(),
            Paddr::Sv39(a) => a.value(),
            Paddr::Sv48(a) => a.value(),
        }
    }

    /// Replaces the physical page number field of `level`.
    pub fn set_ppn(&mut self, level: usize, ppn: RegT)
        ensures
            *final(self) == old(self).spec_set_ppn(level as int, ppn),
    {
        match self {
            Paddr::Sv32(addr) => addr.set_ppn(level, ppn),
            Paddr::Sv39(addr) => addr.set_ppn(level, ppn),
            Paddr::Sv48(addr) => addr.set_ppn(level, ppn),
        }
    }
}

/// `pa` with the physical page number fields `i .. hi` taken from `pte`.
pub open spec fn fill_ppn(pa: Paddr, pte: Pte, i: int, hi: int) -> Paddr
    decreases hi - i,
{
    if i >= hi {
        pa
    } else {
        fill_ppn(pa.spec_set_ppn(i, pte.spec_ppn(i)), pte, i + 1, hi)
    }
}


/// The bits of a physical address before it is cut to its width.
pub open spec fn paddr_bits(pa: Paddr) -> RegT {
    match pa {
        Paddr::Sv32(a) => a.0,
        Paddr::Sv39(a) => a.0,
        Paddr::Sv48(a) => a.0,
    }
}

/// Replacing a page number field, cutting an address to its width, and
/// putting a page number in front of an offset all keep the low 12 bits.
pub(crate) proof fn lemma_offset_bits(x: u64, y: u64)
    by (bit_vector)
    ensures
        ((x & 0xffffffff_ffc00fff) | ((y & 0x3ff) << 12)) & 0xfff == x & 0xfff,
        ((x & 0xfffffffc_003fffff) | ((y & 0xfff) << 22)) & 0xfff == x & 0xfff,
        ((x & 0xffffffff_ffe00fff) | ((y & 0x1ff) << 12)) & 0xfff == x & 0xfff,
        ((x & 0xffffffff_c01fffff) | ((y & 0x1ff) << 21)) & 0xfff == x & 0xfff,
        ((x & 0xff000000_3fffffff) | ((y & 0x3ffffff) << 30)) & 0xfff == x & 0xfff,
        ((x & 0xffffff80_3fffffff) | ((y & 0x1ff) << 30)) & 0xfff == x & 0xfff,
        ((x & 0xff00007f_ffffffff) | ((y & 0x1ffff) << 39)) & 0xfff == x & 0xfff,
        (x & 0x3_ffff_ffff) & 0xfff == x & 0xfff,
        (x & 0xff_ffff_ffff_ffff) & 0xfff == x & 0xfff,
        ((((x >> 12) & 0xfffff) << 12) | (x & 0xfff)) & 0xfff == x & 0xfff,
        ((((x >> 12) & 0x7ffffff) << 12) | (x & 0xfff)) & 0xfff == x & 0xfff,
        ((((x >> 12) & 0xf_ffffffff) << 12) | (x & 0xfff)) & 0xfff == x & 0xfff,
        ((y << 12u64) | (x & 0xfff)) & 0xfff == x & 0xfff,
        x & 0xfff == y & 0xfff ==> ((x >> 12u64) << 12u64) | (y & 0xfff) == x,
{
}

/// Filling page number fields keeps the offset bits.
proof fn lemma_fill_ppn_offset(pa: Paddr, pte: Pte, i: int, hi: int)
    ensures
        paddr_bits(fill_ppn(pa, pte, i, hi)) & 0xfff == paddr_bits(pa) & 0xfff,
        fill_ppn(pa, pte, i, hi) is Sv32 == pa is Sv32,
        fill_ppn(pa, pte, i, hi) is Sv39 == pa is Sv39,
    decreases hi - i,
{
    if i < hi {
        let q = pa.spec_set_ppn(i, pte.spec_ppn(i));
        lemma_offset_bits(paddr_bits(pa), pte.spec_ppn(i));
        assert(paddr_bits(q) & 0xfff == paddr_bits(pa) & 0xfff);
        lemma_fill_ppn_offset(q, pte, i + 1, hi);
    }
}

/// The physical address a leaf maps `vaddr` to keeps `vaddr`'s offset in
/// its page.
pub proof fn lemma_paddr_offset(vaddr: Vaddr, pte: Pte, level: int, levels: int)
    ensures
        Paddr::spec_new(vaddr, pte, level, levels).spec_value() & 0xfff == vaddr.spec_value() & 0xfff,
{
    let st = Paddr::spec_start(vaddr);
    lemma_offset_bits(vaddr.spec_value(), 0);
    lemma_fill_ppn_offset(st, pte, level, levels);
    let f = fill_ppn(st, pte, level, levels);
    lemma_offset_bits(paddr_bits(f), 0);
}

} // verus!
