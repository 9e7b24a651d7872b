//! Register types, XLEN and sign extension shared by the whole model.
use vstd::prelude::*;

verus! {

/// An integer register value (XLEN bits are kept in the low bits).
pub type RegT = u64;

/// A signed view of an integer register.
pub type SRegT = i64;

/// A raw instruction word.
pub type InsnT = u32;

/// The width of the integer registers.
#[derive(Debug, Clone, Copy, PartialEq, Eq, Structural)]
pub enum XLen {
    X32,
    X64,
}

/// The mask of the low `len` bits of a 64-bit value.
pub open spec fn low_mask(len: nat) -> u64 {
    if len >= 64 {
        0xffff_ffff_ffff_ffffu64
    } else {
        ((1u64 << len) - 1) as u64
    }
}

/// The value of `x` with bit `len - 1` copied into every bit above it.
pub open spec fn sext_spec(x: u64, len: nat) -> u64 {
    if len >= 64 {
        x
    } else if (x >> ((len - 1) as u64)) & 1 == 1 {
        x | !low_mask(len)
    } else {
        x & low_mask(len)
    }
}

impl XLen {
    /// The number of bits of a register.
    pub open spec fn spec_len(self) -> nat {
        match self {
            XLen::X32 => 32,
            XLen::X64 => 64,
        }
    }

    /// Number of bits in a register: 32 or 64.
    pub fn len(&self) -> (r: usize)
        ensures
            r == self.spec_len(),
    {
        match self {
            XLen::X32 => 32,
            XLen::X64 => 64,
        }
    }

    /// Number of bytes in a register: 4 or 8.
    pub fn size(&self) -> (r: usize)
        ensures
            r == self.spec_len() / 8,
    {
        let l = self.len();
        proof { lemma_width_bits(0); }
        l >> 3
    }

    /// The mask of the register's bits within a `RegT`.
    pub open spec fn spec_mask(self) -> u64 {
        low_mask(self.spec_len())
    }

    /// The mask of the register's bits within a `RegT`.
    pub fn mask(&self) -> (r: RegT)
        ensures
            r == self.spec_mask(),
            *self == XLen::X32 ==> r == 0xffff_ffffu64,
            *self == XLen::X64 ==> r == 0xffff_ffff_ffff_ffffu64,
    {
        match self {
            XLen::X32 => {
                proof { lemma_width_bits(0); }
                0xffff_ffff
            },
            XLen::X64 => 0xffff_ffff_ffff_ffff,
        }
    }
}

/// Bit facts of the register widths.
proof fn lemma_width_bits(l: u64)
    by (bit_vector)
    ensures
        32usize >> 3usize == 4usize && 64usize >> 3usize == 8usize,
        (1u64 << 32u64) - 1 == 0xffff_ffffu64,
        l < 64 ==> 1u64 << l >= 1,
{
}

/// Sign-extends the low `len` bits of `x` to 64 bits.
pub fn sext(x: RegT, len: usize) -> (r: RegT)
    requires
        1 <= len,
    ensures
        r == sext_spec(x, len as nat),
{
    if len >= 64 {
        x
    } else {
        let l = len as u64;
        proof { lemma_width_bits(l); }
        let m: u64 = (1u64 << l) - 1;
        if (x >> (l - 1)) & 1 == 1 {
            x | !m
        } else {
            x & m
        }
    }
}

/// The number of bits of an instruction word.
pub fn insn_len() -> (r: usize)
    ensures
        r == 32,
{
    32
}

} // verus!
