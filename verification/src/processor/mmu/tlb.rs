//! A direct-mapped translation lookaside buffer of 256 entries.
use vstd::prelude::*;

verus! {

/// One cached translation.
#[derive(Debug, Clone, Copy)]
pub struct TLBEntry {
    pub valid: bool,
    pub vpn: u64,
    pub ppn: u64,
}

/// A direct-mapped cache from virtual page numbers to physical page
/// numbers; page `vpn` lives in slot `vpn % 256`.
pub struct TLB {
    pub entries: Vec<TLBEntry>,
    pub size: usize,
}

/// What the slots `entries` hold for page `vpn`.
pub open spec fn tlb_lookup(entries: Seq<TLBEntry>, vpn: u64) -> Option<u64> {
    let e = entries[slot(vpn)];
    if e.valid && e.vpn == vpn { Some(e.ppn) } else { None }
}

/// The slot of page `vpn`.
pub open spec fn slot(vpn: u64) -> int {
    (vpn & 0xff) as int
}

impl TLB {
    /// Well-formedness: 256 slots.
    pub open spec fn wf(&self) -> bool {
        self.size == 256 && self.entries@.len() == 256
    }

    /// The cached physical page of `vpn`, if any.
    pub open spec fn spec_get(&self, vpn: u64) -> Option<u64> {
        tlb_lookup(self.entries@, vpn)
    }

    /// An empty TLB.
    pub fn new() -> (r: TLB)
        ensures
            r.wf(),
            forall|vpn: u64| #[trigger] r.spec_get(vpn) is None,
    {
        let mut entries: Vec<TLBEntry> = Vec::new();
        while entries.len() < 256
            invariant
                entries@.len() <= 256,
                forall|i: int| 0 <= i < entries@.len() ==> !(#[trigger] entries@[i]).valid,
            decreases 256 - entries@.len(),
        {
            entries.push(TLBEntry { valid: false, vpn: 0, ppn: 0 });
        }
        proof {
            assert forall|vpn: u64| #[trigger] slot(vpn) < 256 by {
                crate::bits::lemma_and_bound(vpn, 0xff);
            }
        }
        TLB { entries, size: 256 }
    }

    /// The cached physical page of `vpn`, if any.
    pub fn get_ppn(&self, vpn: u64) -> (r: Option<u64>)
        requires
            self.wf(),
        ensures
            r == self.spec_get(vpn),
    {
        proof { crate::bits::lemma_and_bound(vpn, 0xff); }
        assert(((self.size - 1) as u64) == 0xffu64);
        let e = self.entries[(vpn & ((self.size - 1) as u64)) as usize];
        if e.valid && e.vpn == vpn {
            Some(e.ppn)
        } else {
            None
        }
    }

    /// Caches the translation of `vpn` to `ppn`, evicting what shared its slot.
    pub fn set_entry(&mut self, vpn: u64, ppn: u64)
        requires
            old(self).wf(),
        ensures
            final(self).wf(),
            final(self).entries@ == old(self).entries@.update(slot(vpn), TLBEntry { valid: true, vpn, ppn }),
    {
        proof { crate::bits::lemma_and_bound(vpn, 0xff); }
        assert(((self.size - 1) as u64) == 0xffu64);
        let i = (vpn & ((self.size - 1) as u64)) as usize;
        self.entries.set(i, TLBEntry { valid: true, vpn, ppn });
    }

    /// Drops the cached translation of `vpn`, if any.
    pub fn invalid_by_vpn(&mut self, vpn: u64)
        requires
            old(self).wf(),
        ensures
            final(self).wf(),
            final(self).spec_get(vpn) is None,
            forall|v: u64| v != vpn ==> #[trigger] final(self).spec_get(v) == old(self).spec_get(v),
    {
        proof { crate::bits::lemma_and_bound(vpn, 0xff); }
        assert(((self.size - 1) as u64) == 0xffu64);
        let i = (vpn & ((self.size - 1) as u64)) as usize;
        let e = self.entries[i];
        if e.vpn == vpn {
            self.entries.set(i, TLBEntry { valid: false, ..e });
        }
        assert forall|v: u64| v != vpn implies #[trigger] self.spec_get(v) == old(self).spec_get(v) by {
            crate::bits::lemma_and_bound(v, 0xff);
        }
    }

    /// Drops every cached translation.
    pub fn invalid_all(&mut self)
        requires
            old(self).wf(),
        ensures
            final(self).wf(),
            forall|vpn: u64| #[trigger] final(self).spec_get(vpn) is None,
    {
        let mut i: usize = 0;
        while i < self.entries.len()
            invariant
                self.wf(),
                i <= 256,
                forall|j: int| 0 <= j < i ==> !(#[trigger] self.entries@[j]).valid,
            decreases 256 - i,
        {
            let mut e = self.entries[i];
            e.valid = false;
            self.entries.set(i, e);
            i = i + 1;
        }
        proof {
            assert forall|vpn: u64| #[trigger] slot(vpn) < 256 by {
                crate::bits::lemma_and_bound(vpn, 0xff);
            }
        }
    }
}

/// What a lookup gives back of a fill: after `set_entry(vpn, ppn)` the TLB
/// answers `ppn` for `vpn`, and every page in another slot keeps its answer.
pub proof fn lemma_tlb_get_after_set(entries: Seq<TLBEntry>, vpn: u64, ppn: u64, other: u64)
    requires
        entries.len() == 256,
    ensures
        tlb_lookup(entries.update(slot(vpn), TLBEntry { valid: true, vpn, ppn }), vpn) == Some(ppn),
        slot(other) != slot(vpn) ==> tlb_lookup(entries.update(slot(vpn), TLBEntry { valid: true, vpn, ppn }), other)
            == tlb_lookup(entries, other),
{
    crate::bits::lemma_and_bound(vpn, 0xff);
    crate::bits::lemma_and_bound(other, 0xff);
}

} // verus!
