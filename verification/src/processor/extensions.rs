//! The ISA extensions a hart can be configured with, and the state the
//! extensions with state keep: the load reservation of `a` and the
//! floating-point registers and CSRs of `f`/`d`.
use vstd::prelude::*;
use crate::global::RegT;
use crate::processor::ProcessorCfg;
use crate::processor::has_extension;
use crate::bits::{field_of, with_field, set_bit_range, bit_range};

verus! {

/// A floating-point register value.
pub type FRegT = u128;

/// The width of the floating-point registers.
#[derive(Debug, Clone, Copy, PartialEq, Eq, Structural)]
pub enum FLen {
    F32,
    F64,
    F128,
}

impl FLen {
    /// The number of bits of a register.
    pub open spec fn spec_len(self) -> nat {
        match self {
            FLen::F32 => 32,
            FLen::F64 => 64,
            FLen::F128 => 128,
        }
    }

    /// The mask of a register's bits within an `FRegT`.
    pub open spec fn spec_mask(self) -> u128 {
        match self {
            FLen::F32 => 0xffff_ffffu128,
            FLen::F64 => 0xffff_ffff_ffff_ffffu128,
            FLen::F128 => 0xffff_ffff_ffff_ffff_ffff_ffff_ffff_ffffu128,
        }
    }

    /// The number of bits of a register: 32, 64 or 128.
    pub fn len(&self) -> (r: usize)
        ensures
            r == self.spec_len(),
    {
        match self {
            FLen::F32 => 32,
            FLen::F64 => 64,
            FLen::F128 => 128,
        }
    }

    /// The number of bytes of a register: 4, 8 or 16.
    pub fn size(&self) -> (r: usize)
        ensures
            r == self.spec_len() / 8,
    {
        let l = self.len();
        proof { lemma_flen_bits(0, 0); }
        l >> 3
    }

    /// The mask of a register's bits within an `FRegT`.
    pub fn mask(&self) -> (r: FRegT)
        ensures
            r == self.spec_mask(),
    {
        match self {
            FLen::F32 => {
                proof { lemma_flen_bits(0, 0); }
                (1u128 << 32u128) - 1
            },
            FLen::F64 => {
                proof { lemma_flen_bits(0, 0); }
                (1u128 << 64u128) - 1
            },
            FLen::F128 => 0xffff_ffff_ffff_ffff_ffff_ffff_ffff_ffff,
        }
    }

    /// `v`, a value of width `w`, held in a register of this width: the
    /// bits above `w` are set (NaN-boxing).
    pub open spec fn spec_padding(self, v: u128, w: FLen) -> u128 {
        (v & w.spec_mask()) | (self.spec_mask() & !w.spec_mask())
    }

    /// The canonical quiet NaN of this width.
    pub open spec fn spec_canonical_nan(self) -> u128 {
        match self {
            FLen::F32 => 0x7fc0_0000,
            FLen::F64 => 0x7ff8_0000_0000_0000,
            FLen::F128 => 0x7fff_8000_0000_0000_0000_0000_0000_0000,
        }
    }

    /// `v`, a register of this width, read as a value of width `w`: its low
    /// `w` bits when the bits above them are all set (NaN-boxed), else the
    /// canonical NaN of width `w`.
    pub open spec fn spec_boxed(self, v: u128, w: FLen) -> u128 {
        let upper = self.spec_mask() & !w.spec_mask();
        if v & upper == upper { v & w.spec_mask() } else { w.spec_canonical_nan() }
    }

    /// Reads register value `v` as a value of width `w` (see `spec_boxed`).
    pub fn boxed(&self, v: FRegT, w: FLen) -> (r: FRegT)
        ensures
            r == self.spec_boxed(v, w),
    {
        let upper = self.mask() & !w.mask();
        if v & upper == upper {
            v & w.mask()
        } else {
            match w {
                FLen::F32 => 0x7fc0_0000,
                FLen::F64 => 0x7ff8_0000_0000_0000,
                FLen::F128 => 0x7fff_8000_0000_0000_0000_0000_0000_0000,
            }
        }
    }

    /// Boxes `v`, a value of width `w`, into a register of this width.
    pub fn padding(&self, v: FRegT, w: FLen) -> (r: FRegT)
        ensures
            r == self.spec_padding(v, w),
    {
        (v & w.mask()) | (self.mask() & !w.mask())
    }
}

/// Bit facts of register widths and `fcsr` writes.
proof fn lemma_flen_bits(f: u64, value: u64)
    by (bit_vector)
    ensures
        32usize >> 3usize == 4usize && 64usize >> 3usize == 8usize && 128usize >> 3usize == 16usize,
        (1u128 << 32u128) - 1 == 0xffff_ffffu128,
        (1u128 << 64u128) - 1 == 0xffff_ffff_ffff_ffffu128,
        f <= 0xff ==> with_field(f, 4, 0, value) <= 0xff && with_field(f, 7, 5, value) <= 0xff,
        value & 0xff <= 0xff,
{
}

/// The floating-point state of a hart: the register width, the 32
/// registers and `fcsr` (`fflags` in bits 4..0, `frm` in bits 7..5).
/// Whether the state is in use is `mstatus.fs`, which the hart keeps.
#[derive(Debug, Clone)]
pub struct ExtensionF {
    pub flen: FLen,
    pub freg: Vec<FRegT>,
    pub fcsr: RegT,
}

impl ExtensionF {
    /// Well-formedness: 32 registers and an 8-bit `fcsr`.
    pub open spec fn wf(&self) -> bool {
        self.freg@.len() == 32 && self.fcsr <= 0xff
    }

    /// The floating-point CSR at `addr` (`fflags`, `frm`, `fcsr`), if any.
    pub open spec fn spec_csr_read(&self, addr: u64) -> Option<u64> {
        if addr == 1 {
            Some(self.fcsr & 0x1f)
        } else if addr == 2 {
            Some(field_of(self.fcsr, 7, 5))
        } else if addr == 3 {
            Some(self.fcsr & 0xff)
        } else {
            None
        }
    }

    /// `fcsr` after software writes `value` to the CSR at `addr`, if any.
    pub open spec fn spec_csr_write(&self, addr: u64, value: u64) -> Option<u64> {
        if addr == 1 {
            Some(with_field(self.fcsr, 4, 0, value))
        } else if addr == 2 {
            Some(with_field(self.fcsr, 7, 5, value))
        } else if addr == 3 {
            Some(value & 0xff)
        } else {
            None
        }
    }

    /// The state at reset: registers and `fcsr` zero; the width is 128 bits
    /// with `q`, 64 with `d`, else 32.
    pub fn new(cfg: &ProcessorCfg) -> (r: ExtensionF)
        ensures
            r.wf(),
            r.fcsr == 0,
            forall|i: int| 0 <= i < 32 ==> r.freg@[i] == 0,
            r.flen == (if cfg.extensions@.contains('q') {
                FLen::F128
            } else if cfg.extensions@.contains('d') {
                FLen::F64
            } else {
                FLen::F32
            }),
    {
        let mut freg: Vec<FRegT> = Vec::new();
        let mut i: usize = 0;
        while i < 32
            invariant
                i <= 32,
                freg@.len() == i,
                forall|j: int| 0 <= j < i ==> freg@[j] == 0,
            decreases 32 - i,
        {
            freg.push(0);
            i = i + 1;
        }
        let flen = if has_extension(&cfg.extensions, 'q') {
            FLen::F128
        } else if has_extension(&cfg.extensions, 'd') {
            FLen::F64
        } else {
            FLen::F32
        };
        ExtensionF { flen, freg, fcsr: 0 }
    }

    /// Register `id` (its low 5 bits).
    pub fn freg(&self, id: RegT) -> (r: FRegT)
        requires
            self.wf(),
        ensures
            r == self.freg@[(id & 0x1f) as int],
    {
        proof { crate::bits::lemma_and_bound(id, 0x1f); }
        self.freg[(id & 0x1f) as usize]
    }

    /// Reads the floating-point CSR at `addr`.
    pub fn csr_read(&self, addr: RegT) -> (r: Option<RegT>)
        requires
            self.wf(),
        ensures
            r == self.spec_csr_read(addr),
    {
        if addr == 1 {
            Some(self.fcsr & 0x1f)
        } else if addr == 2 {
            Some(bit_range(self.fcsr, 7, 5))
        } else if addr == 3 {
            Some(self.fcsr & 0xff)
        } else {
            None
        }
    }

    /// Writes `value` to the floating-point CSR at `addr`; `None` (and no
    /// change) when there is none.
    pub fn csr_write(&mut self, addr: RegT, value: RegT) -> (r: Option<()>)
        requires
            old(self).wf(),
        ensures
            final(self).wf(),
            final(self).flen == old(self).flen,
            final(self).freg == old(self).freg,
            match old(self).spec_csr_write(addr, value) {
                Some(f) => r is Some && final(self).fcsr == f,
                None => r is None && final(self).fcsr == old(self).fcsr,
            },
    {
        let f = self.fcsr;
        if addr == 1 {
            self.fcsr = set_bit_range(f, 4, 0, value);
        } else if addr == 2 {
            self.fcsr = set_bit_range(f, 7, 5, value);
        } else if addr == 3 {
            self.fcsr = value & 0xff;
        } else {
            return None;
        }
        proof {
            lemma_flen_bits(f, value);
        }
        Some(())
    }
}

/// The load reservation a hart holds after `lr`: its address, length and
/// the retired-instruction count when it was taken.
#[derive(Debug, Clone, Copy, PartialEq, Eq, Structural)]
pub struct LCReservation {
    pub valid: bool,
    pub addr: RegT,
    pub len: u64,
    pub timestamp: u64,
}

/// The atomic-memory extension: the hart's load reservation.
#[derive(Debug, Clone, Copy, PartialEq, Eq, Structural)]
pub struct ExtensionA {
    pub lc_res: LCReservation,
}

impl ExtensionA {
    /// No reservation is held at reset.
    pub fn new(_cfg: &ProcessorCfg) -> (r: ExtensionA)
        ensures
            r.lc_res == (LCReservation { valid: false, addr: 0, len: 0, timestamp: 0 }),
    {
        ExtensionA { lc_res: LCReservation { valid: false, addr: 0, len: 0, timestamp: 0 } }
    }
}

/// The compressed-instruction extension (no state of its own).
#[derive(Debug, Clone, Copy, PartialEq, Eq, Structural)]
pub struct ExtensionC {}

impl ExtensionC {
    pub fn new(_cfg: &ProcessorCfg) -> (r: ExtensionC)
        ensures
            r == (ExtensionC {}),
    {
        ExtensionC {}
    }
}

/// The double-precision extension (its state is that of `f`).
#[derive(Debug, Clone, Copy, PartialEq, Eq, Structural)]
pub struct ExtensionD {}

impl ExtensionD {
    pub fn new(_cfg: &ProcessorCfg) -> (r: ExtensionD)
        ensures
            r == (ExtensionD {}),
    {
        ExtensionD {}
    }
}

/// The base integer instruction set (no state of its own).
#[derive(Debug, Clone, Copy, PartialEq, Eq, Structural)]
pub struct ExtensionI {}

impl ExtensionI {
    pub fn new(_cfg: &ProcessorCfg) -> (r: ExtensionI)
        ensures
            r == (ExtensionI {}),
    {
        ExtensionI {}
    }
}

/// The multiply/divide extension (no state of its own).
#[derive(Debug, Clone, Copy, PartialEq, Eq, Structural)]
pub struct ExtensionM {}

impl ExtensionM {
    pub fn new(_cfg: &ProcessorCfg) -> (r: ExtensionM)
        ensures
            r == (ExtensionM {}),
    {
        ExtensionM {}
    }
}

/// The supervisor-level instructions (no state of their own).
#[derive(Debug, Clone, Copy, PartialEq, Eq, Structural)]
pub struct ExtensionS {}

impl ExtensionS {
    pub fn new(_cfg: &ProcessorCfg) -> (r: ExtensionS)
        ensures
            r == (ExtensionS {}),
    {
        ExtensionS {}
    }
}

/// User mode (no state of its own).
#[derive(Debug, Clone, Copy, PartialEq, Eq, Structural)]
pub struct ExtensionU {}

impl ExtensionU {
    pub fn new(_cfg: &ProcessorCfg) -> (r: ExtensionU)
        ensures
            r == (ExtensionU {}),
    {
        ExtensionU {}
    }
}

/// The vector extension: declared, with no instructions.
#[derive(Debug, Clone, Copy, PartialEq, Eq, Structural)]
pub struct ExtensionV {}

/// Whether `c` names an extension a hart can be built with.
pub open spec fn supported_extension(c: char) -> bool {
    c == 'a' || c == 'c' || c == 'd' || c == 'f' || c == 'i' || c == 'm' || c == 's' || c == 'u'
}

/// Whether every extension of `exts` can be built.
pub open spec fn supported_extensions(exts: Seq<char>) -> bool {
    forall|i: int| 0 <= i < exts.len() ==> supported_extension(#[trigger] exts[i])
}

/// `Ok` when every extension of `exts` can be built, else `Err` with the
/// first one that cannot.
pub fn check_extensions(exts: &Vec<char>) -> (r: Result<(), char>)
    ensures
        r is Ok <==> supported_extensions(exts@),
        r matches Err(c) ==> exts@.contains(c) && !supported_extension(c),
{
    let mut i: usize = 0;
    while i < exts.len()
        invariant
            i <= exts.len(),
            forall|j: int| 0 <= j < i ==> supported_extension(#[trigger] exts@[j]),
        decreases exts.len() - i,
    {
        let c = exts[i];
        if !(c == 'a' || c == 'c' || c == 'd' || c == 'f' || c == 'i' || c == 'm' || c == 's' || c == 'u') {
            assert(exts@[i as int] == c);
            return Err(c);
        }
        i = i + 1;
    }
    Ok(())
}

} // verus!
