//! Physical memory protection: the address-matching modes of the PMP
//! entries and the search for the entry that covers an access.
use vstd::prelude::*;
use crate::bits::mask_of;
use crate::global::{RegT, XLen};
use crate::processor::privilege::m::{pmpaddr_mask, PrivM};

verus! {

/// How a PMP entry matches addresses (its `a` field).
#[derive(Debug, Clone, Copy, PartialEq, Eq, Structural)]
pub enum PmpAType {
    /// Matches nothing.
    OFF,
    /// Top of range: from the previous entry's address up to this one's.
    TOR,
    /// Naturally aligned four-byte region.
    NA4,
    /// Naturally aligned power-of-two region.
    NAPOT,
}

impl PmpAType {
    /// The matching mode encoded by the two-bit value `a`.
    pub open spec fn spec_from(a: u8) -> PmpAType {
        if a & 3 == 0 {
            PmpAType::OFF
        } else if a & 3 == 1 {
            PmpAType::TOR
        } else if a & 3 == 2 {
            PmpAType::NA4
        } else {
            PmpAType::NAPOT
        }
    }

    /// The matching mode encoded by the two-bit value `a`.
    pub fn from(a: u8) -> (r: PmpAType)
        ensures
            r == PmpAType::spec_from(a),
    {
        if a & 3 == 0 {
            PmpAType::OFF
        } else if a & 3 == 1 {
            PmpAType::TOR
        } else if a & 3 == 2 {
            PmpAType::NA4
        } else {
            PmpAType::NAPOT
        }
    }

    /// The two-bit encoding.
    pub fn value(&self) -> (r: u8)
        ensures
            PmpAType::spec_from(r) == *self,
            r < 4,
    {
        proof { lemma_pmp_bits(0, 0, 0, 0, 0); }
        match self {
            PmpAType::OFF => 0,
            PmpAType::TOR => 1,
            PmpAType::NA4 => 2,
            PmpAType::NAPOT => 3,
        }
    }
}

/// One byte of a `pmpcfg` register: the permissions and matching mode of a
/// PMP entry.
#[derive(Debug, Clone, Copy, PartialEq, Eq, Structural)]
pub struct PmpCfgEntry(pub u8);

impl PmpCfgEntry {
    /// Read permission (bit 0).
    pub fn r(&self) -> (r: u8)
        ensures
            r == self.0 & 1,
    {
        self.0 & 1
    }

    /// Write permission (bit 1).
    pub fn w(&self) -> (r: u8)
        ensures
            r == (self.0 >> 1u8) & 1,
    {
        (self.0 >> 1u8) & 1
    }

    /// Execute permission (bit 2).
    pub fn x(&self) -> (r: u8)
        ensures
            r == (self.0 >> 2u8) & 1,
    {
        (self.0 >> 2u8) & 1
    }

    /// Address-matching mode (bits 4..3).
    pub fn a(&self) -> (r: u8)
        ensures
            r == (self.0 >> 3u8) & 3,
    {
        (self.0 >> 3u8) & 3
    }

    /// Locked (bit 7): the entry also binds machine mode.
    pub fn l(&self) -> (r: u8)
        ensures
            r == (self.0 >> 7u8) & 1,
    {
        (self.0 >> 7u8) & 1
    }

    /// The entry of configuration byte `v`.
    pub fn from(v: u8) -> (r: PmpCfgEntry)
        ensures
            r.0 == v,
    {
        PmpCfgEntry(v)
    }
}

/// The `pmpcfg` register holding the configuration of entry `idx`: on RV32
/// four entries per register, on RV64 eight per even register.
pub open spec fn spec_cfg_reg(m: PrivM, idx: u8) -> RegT {
    if m.xlen == XLen::X32 {
        m.spec_pmpcfg(((idx >> 2u8) & 3) as int)
    } else if (idx >> 3u8) & 1 == 0 {
        m.pmpcfg0
    } else {
        m.pmpcfg2
    }
}

/// The configuration byte of entry `idx`.
pub open spec fn spec_cfg_entry(m: PrivM, idx: u8) -> u8 {
    let offset: u8 = if m.xlen == XLen::X32 { idx & 3 } else { idx & 7 };
    (spec_cfg_reg(m, idx) >> ((offset as u64) << 3)) as u8
}

/// Walks the configurations of PMP entries 0 to 14 in order.
pub struct PmpCfgsIter {
    pub idx: u8,
}

impl PmpCfgsIter {
    /// A walk from entry 0.
    pub fn new() -> (r: PmpCfgsIter)
        ensures
            r.idx == 0,
    {
        PmpCfgsIter { idx: 0 }
    }

    /// The `pmpcfg` register holding the current entry.
    pub fn get_cfg(&self, m: &PrivM) -> (r: RegT)
        ensures
            r == spec_cfg_reg(*m, self.idx),
    {
        match m.xlen {
            XLen::X32 => {
                let i = self.idx;
                proof { lemma_pmp_bits(0, 0, 0, 0, i); }
                m.pmpcfg(((self.idx >> 2u8) & 0x3) as usize)
            },
            XLen::X64 => {
                if (self.idx >> 3u8) & 0x1 == 0 {
                    m.pmpcfg0
                } else {
                    m.pmpcfg2
                }
            },
        }
    }

    /// The configuration of the current entry.
    pub fn get_entry(&self, m: &PrivM) -> (r: PmpCfgEntry)
        ensures
            r.0 == spec_cfg_entry(*m, self.idx),
    {
        let offset: u8 = match m.xlen {
            XLen::X32 => self.idx & 0x3,
            XLen::X64 => self.idx & 0x7,
        };
        let i = self.idx;
        proof { lemma_pmp_bits(0, offset as u64, 0, 0, i); }
        let cfg = (self.get_cfg(m) >> ((offset as u64) << 3)) as u8;
        PmpCfgEntry(cfg)
    }

    /// The configuration of the current entry, moving on; `None` after
    /// entry 14.
    pub fn next(&mut self, m: &PrivM) -> (r: Option<PmpCfgEntry>)
        requires
            old(self).idx <= 15,
        ensures
            old(self).idx == 15 ==> r is None && final(self).idx == 15,
            old(self).idx < 15 ==> r == Some(PmpCfgEntry(spec_cfg_entry(*m, old(self).idx)))
                && final(self).idx == old(self).idx + 1,
    {
        if self.idx == 15 {
            None
        } else {
            let res = self.get_entry(m);
            self.idx = self.idx + 1;
            Some(res)
        }
    }
}

/// Bit facts of the PMP entry walk and address matching.
pub proof fn lemma_pmp_bits(x: u64, n: u64, a: u64, b: u64, i: u8)
    by (bit_vector)
    ensures
        0u8 & 3 == 0 && 1u8 & 3 == 1 && 2u8 & 3 == 2 && 3u8 & 3 == 3,
        (i >> 2u8) & 3 < 4,
        i & 7 < 8 && i & 3 < 8,
        n < 8 ==> n << 3u64 < 64,
        x & 1 != 0 ==> x >> 1 < x,
        x & 1 != 1 ==> x & 1 == 0,
        x <= mask_of(0) ==> x & 1 == 0,
        x <= mask_of(n) && 0 < n && n < 64 ==> x >> 1 <= mask_of((n - 1) as u64),
        a <= b ==> a >> 2 <= b >> 2 && b >> 2 <= 0x3fff_ffff_ffff_ffff,
        b + 1 == a ==> a >> 2 <= (b >> 2) + 1 && b >> 2 <= 0x3fff_ffff_ffff_ffff,
{
}

/// The number of trailing one bits of `x`.
pub open spec fn trailing_ones(x: u64) -> nat
    decreases x,
{
    if x & 1 == 0 {
        0
    } else {
        proof {
            lemma_pmp_bits(x, 0, 0, 0, 0);
        }
        1 + trailing_ones(x >> 1)
    }
}

/// A value of at most `n` bits (`n < 64`) has at most `n` trailing ones.
pub proof fn lemma_trailing_ones_bound(x: u64, n: u64)
    requires
        n < 64,
        x <= mask_of(n),
    ensures
        trailing_ones(x) <= n,
    decreases n,
{
    if x & 1 != 0 {
        if n == 0 {
            lemma_pmp_bits(x, 0, 0, 0, 0);
        } else {
            lemma_pmp_bits(x, n, 0, 0, 0);
            lemma_trailing_ones_bound(x >> 1, (n - 1) as u64);
            assert(trailing_ones(x) == 1 + trailing_ones(x >> 1));
        }
    }
}

/// The number of trailing one bits of `x`, when fewer than 64.
pub fn count_trailing_ones(x: u64) -> (r: u64)
    requires
        trailing_ones(x) < 64,
    ensures
        r == trailing_ones(x),
{
    let mut k: u64 = 0;
    let mut y = x;
    while y & 1 == 1
        invariant
            trailing_ones(x) == k + trailing_ones(y),
            trailing_ones(x) < 64,
        decreases y,
    {
        proof { lemma_pmp_bits(y, 0, 0, 0, 0); }
        k = k + 1;
        y = y >> 1;
    }
    proof { lemma_pmp_bits(y, 0, 0, 0, 0); }
    k
}

/// Whether the word address `t` (an address shifted right by 2) lies in the
/// region of entry `idx`.
pub open spec fn word_matches(m: PrivM, idx: u8, t: u64) -> bool {
    let e = spec_cfg_entry(m, idx);
    let addr = m.spec_pmpaddr(idx as int);
    match PmpAType::spec_from((e >> 3u8) & 3) {
        PmpAType::OFF => false,
        PmpAType::TOR => {
            let low = if idx == 0 { 0 } else { m.spec_pmpaddr(idx - 1) };
            low <= t && t < addr
        },
        PmpAType::NA4 => t == addr,
        PmpAType::NAPOT => {
            let k = trailing_ones(addr);
            (t >> k) == (addr >> k)
        },
    }
}

/// Whether every word of the access of `len` bytes at `addr` lies in the
/// region of entry `idx`.
pub open spec fn entry_matches(m: PrivM, idx: u8, addr: u64, len: u64) -> bool {
    forall|t: u64| (addr >> 2) <= t <= (((addr + len - 1) as u64) >> 2) ==> #[trigger] word_matches(m, idx, t)
}

/// The first of entries `i` to 14 whose region holds the whole access.
pub open spec fn first_match_from(m: PrivM, addr: u64, len: u64, i: u8) -> Option<u8>
    decreases 15 - i,
{
    if i >= 15 {
        None
    } else if entry_matches(m, i, addr, len) {
        Some(i)
    } else {
        first_match_from(m, addr, len, (i + 1) as u8)
    }
}

/// Whether the word address `t` lies in the region of entry `idx`.
pub fn word_match(m: &PrivM, idx: u8, entry: &PmpCfgEntry, t: u64) -> (r: bool)
    requires
        m.wf(),
        idx < 16,
        entry.0 == spec_cfg_entry(*m, idx),
    ensures
        r == word_matches(*m, idx, t),
{
    match PmpAType::from(entry.a()) {
        PmpAType::OFF => false,
        PmpAType::TOR => {
            let low = if idx == 0 {
                0
            } else {
                m.pmpaddr((idx - 1) as usize)
            };
            let high = m.pmpaddr(idx as usize);
            t >= low && t < high
        },
        PmpAType::NA4 => {
            let pmpaddr = m.pmpaddr(idx as usize);
            t == pmpaddr
        },
        PmpAType::NAPOT => {
            let pmpaddr = m.pmpaddr(idx as usize);
            proof {
                assert(m.spec_pmpaddr(idx as int) <= pmpaddr_mask(m.xlen));
                crate::bits::lemma_mask_values();
                if m.xlen == XLen::X32 {
                    lemma_trailing_ones_bound(pmpaddr, 32);
                } else {
                    lemma_trailing_ones_bound(pmpaddr, 54);
                }
            }
            let trailing_ones = count_trailing_ones(pmpaddr);
            (t >> trailing_ones) == (pmpaddr >> trailing_ones)
        },
    }
}

/// The configuration of the first of entries 0 to 14 whose region holds
/// every word of the access of `len` bytes at `addr` (the words from
/// `addr >> 2` to `(addr + len - 1) >> 2`; none for an empty access at a
/// word boundary, which every entry then holds).
pub fn match_pmpcfg_entry(m: &PrivM, addr: u64, len: u64) -> (r: Option<PmpCfgEntry>)
    requires
        m.wf(),
        addr as int + len as int >= 1,
        addr as int + len as int - 1 <= 0xffff_ffff_ffff_ffff,
    ensures
        r == match first_match_from(*m, addr, len, 0) {
            Some(i) => Some(PmpCfgEntry(spec_cfg_entry(*m, i))),
            None => None,
        },
{
    let lo = addr >> 2;
    let last = if len == 0 { addr - 1 } else { addr + (len - 1) };
    let hi = last >> 2;
    proof {
        lemma_pmp_bits(0, 0, addr, last, 0);
    }
    let mut iter = PmpCfgsIter::new();
    while iter.idx < 15
        invariant
            iter.idx <= 15,
            m.wf(),
            lo == addr >> 2,
            hi == ((addr + len - 1) as u64) >> 2,
            lo <= hi + 1,
            hi <= 0x3fff_ffff_ffff_ffff,
            first_match_from(*m, addr, len, 0) == first_match_from(*m, addr, len, iter.idx),
        decreases 15 - iter.idx,
    {
        let idx = iter.idx;
        let entry = iter.next(m).unwrap();
        let mut all = true;
        let mut t = lo;
        while t <= hi
            invariant
                lo <= t,
                t <= hi + 1,
                idx < 15,
                m.wf(),
                entry.0 == spec_cfg_entry(*m, idx),
                lo == addr >> 2,
                hi == ((addr + len - 1) as u64) >> 2,
                lo <= hi + 1,
                hi <= 0x3fff_ffff_ffff_ffff,
                all == forall|u: u64| lo <= u < t ==> #[trigger] word_matches(*m, idx, u),
            decreases hi + 1 - t,
        {
            let w = word_match(m, idx, &entry, t);
            all = all && w;
            t = t + 1;
        }
        if all {
            return Some(entry);
        }
    }
    None
}

} // verus!
