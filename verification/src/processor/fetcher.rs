//! Instruction fetch: a decoded-instruction cache in front of the fetch
//! of 16-bit and 32-bit instructions through the MMU.
use vstd::prelude::*;
use crate::global::InsnT;
use crate::processor::decode::{spec_decode, spec_decoders, Decoder, InsnKind};
use crate::processor::decode_tree::{holds_table, lemma_tree_decodes_as_table, TreeInsnMap};
use crate::processor::alu::wrap64;
use crate::processor::bus::{spec_read, Bus, Space};
use crate::processor::exec::add64;
use crate::processor::exec_mem::chosen;
use crate::processor::load_store::{access_pa, translatable};
use crate::processor::mmu::{translate_frame, Mmu, MmuOpt};
use crate::processor::state::ProcessorState;
use crate::processor::trap::Exception;

verus! {

/// A cached instruction: its tag (address shifted right by 1), the word
/// and what it decodes to, and whether it was recently used.
#[derive(Debug, Clone, Copy)]
pub struct ICacheEntry {
    pub accessed: bool,
    pub tag: u64,
    pub insn: Option<(InsnT, InsnKind)>,
}

/// Four cache entries with a head pointer.
#[derive(Debug, Clone)]
pub struct ICacheBasket {
    pub ptr: u8,
    pub entries: Vec<ICacheEntry>,
}

/// The position after `p` in a basket.
pub open spec fn spec_next_ptr(p: u8) -> u8 {
    if p == 3 { 0 } else { (p + 1) as u8 }
}

/// The position before `p` in a basket.
pub open spec fn spec_prev_ptr(p: u8) -> u8 {
    if p == 0 { 3 } else { (p - 1) as u8 }
}

/// The position `k` steps after `p`.
pub open spec fn pos(p: u8, k: int) -> int {
    (p + k) % 4
}

/// Whether entry `e` holds an instruction with `tag`.
pub open spec fn entry_hit(e: ICacheEntry, tag: u64) -> bool {
    e.tag == tag && e.insn is Some
}

/// The first of the three positions after and at the head (head first)
/// that holds `tag`, as the number of steps from the head. The position
/// before the head is never searched.
pub open spec fn basket_hit(ptr: u8, es: Seq<ICacheEntry>, tag: u64) -> Option<int> {
    if entry_hit(es[pos(ptr, 0)], tag) {
        Some(0)
    } else if entry_hit(es[pos(ptr, 1)], tag) {
        Some(1)
    } else if entry_hit(es[pos(ptr, 2)], tag) {
        Some(2)
    } else {
        None
    }
}

/// The entries after a lookup of `tag`: entries searched before the hit
/// (all three without one) are marked unused, the hit is marked used.
pub open spec fn looked_up(ptr: u8, es: Seq<ICacheEntry>, tag: u64) -> Seq<ICacheEntry> {
    let h = basket_hit(ptr, es, tag);
    let stop = match h { Some(k) => k, None => 3 };
    Seq::new(4, |j: int| {
        let k = (j - ptr + 4) % 4;
        if k < stop { ICacheEntry { accessed: false, ..es[j] } } else if k == stop && h is Some {
            ICacheEntry { accessed: true, ..es[j] }
        } else {
            es[j]
        }
    })
}

/// The position `set_entry` fills: walking back from the position before
/// the head, the first that is empty or unused, else the head.
pub open spec fn victim(ptr: u8, es: Seq<ICacheEntry>) -> int {
    let free = |e: ICacheEntry| e.insn is None || !e.accessed;
    if free(es[pos(ptr, 3)]) {
        pos(ptr, 3)
    } else if free(es[pos(ptr, 2)]) {
        pos(ptr, 2)
    } else if free(es[pos(ptr, 1)]) {
        pos(ptr, 1)
    } else {
        ptr as int
    }
}

impl ICacheBasket {
    /// Well-formedness: four entries and the head among them.
    pub open spec fn wf(&self) -> bool {
        self.entries@.len() == 4 && self.ptr < 4
    }

    /// Whether every cached word decodes to the kind cached with it.
    pub open spec fn coherent(&self, table: Seq<crate::processor::decode::Decoder>) -> bool {
        forall|j: int| 0 <= j < 4 ==> ((#[trigger] self.entries@[j]).insn matches Some((ir, k))
            ==> crate::processor::decode::spec_decode(table, ir) == Ok::<InsnKind, crate::processor::trap::Exception>(k))
    }

    /// An empty basket.
    pub fn new() -> (r: ICacheBasket)
        ensures
            r.wf(),
            r.ptr == 0,
            forall|j: int| 0 <= j < 4 ==> (#[trigger] r.entries@[j]).insn is None && !r.entries@[j].accessed,
    {
        let e = ICacheEntry { accessed: false, tag: 0, insn: None };
        let entries = vec![e, e, e, e];
        ICacheBasket { ptr: 0, entries }
    }

    /// The position after `p`.
    pub fn next_ptr(p: u8) -> (r: u8)
        requires
            p < 4,
        ensures
            r == spec_next_ptr(p),
    {
        if p == 3 { 0 } else { p + 1 }
    }

    /// The position before `p`.
    pub fn prev_ptr(p: u8) -> (r: u8)
        requires
            p < 4,
        ensures
            r == spec_prev_ptr(p),
    {
        if p == 0 { 3 } else { p - 1 }
    }

    /// The position before the head.
    pub fn tail(&self) -> (r: u8)
        requires
            self.wf(),
        ensures
            r == spec_prev_ptr(self.ptr),
    {
        if self.ptr == 0 { 3 } else { self.ptr - 1 }
    }

    /// Looks up `tag` (see `basket_hit`): the hit becomes the head.
    pub fn get_insn(&mut self, tag: u64) -> (r: Option<(InsnT, InsnKind)>)
        requires
            old(self).wf(),
        ensures
            final(self).wf(),
            final(self).entries@ == looked_up(old(self).ptr, old(self).entries@, tag),
            match basket_hit(old(self).ptr, old(self).entries@, tag) {
                Some(k) => r == old(self).entries@[pos(old(self).ptr, k)].insn && final(self).ptr == pos(old(self).ptr, k),
                None => r is None && final(self).ptr == old(self).ptr,
            },
    {
        let ghost es0 = self.entries@;
        let ghost p0 = self.ptr;
        let mut p = self.ptr;
        let tail = self.tail();
        let mut k: u8 = 0;
        let mut found = false;
        while !found && p != tail
            invariant
                self.entries@.len() == 4,
                es0.len() == 4,
                p0 < 4,
                tail == spec_prev_ptr(p0),
                k <= 3,
                found ==> k < 3,
                p == pos(p0, k as int),
                forall|i: int| 0 <= i < k ==> !entry_hit(#[trigger] es0[pos(p0, i)], tag),
                found ==> entry_hit(es0[pos(p0, k as int)], tag) && self.ptr == p,
                !found ==> self.ptr == p0,
                forall|j: int| 0 <= j < 4 ==> {
                    let kk = (j - p0 + 4) % 4;
                    #[trigger] self.entries@[j] == if kk < k { ICacheEntry { accessed: false, ..es0[j] } }
                        else if kk == k && found { ICacheEntry { accessed: true, ..es0[j] } } else { es0[j] }
                },
            decreases 4 - k - (if found { 1int } else { 0int }),
        {
            let e = self.entries[p as usize];
            if e.tag == tag && e.insn.is_some() {
                let mut e2 = e;
                e2.accessed = true;
                self.entries.set(p as usize, e2);
                self.ptr = p;
                found = true;
            } else {
                let mut e2 = e;
                e2.accessed = false;
                self.entries.set(p as usize, e2);
                p = Self::next_ptr(p);
                k = k + 1;
            }
        }
        proof {
            if !found {
                assert(k == 3);
                assert(basket_hit(p0, es0, tag) is None);
            } else {
                assert(basket_hit(p0, es0, tag) == Some(k as int));
            }
            assert(self.entries@ =~= looked_up(p0, es0, tag));
        }
        if found {
            self.entries[p as usize].insn
        } else {
            None
        }
    }

    /// Caches `(ir, insn)` under `tag` at the `victim` position, which
    /// becomes the head.
    pub fn set_entry(&mut self, tag: u64, ir: InsnT, insn: InsnKind)
        requires
            old(self).wf(),
        ensures
            final(self).wf(),
            final(self).ptr == victim(old(self).ptr, old(self).entries@),
            final(self).entries@ == old(self).entries@.update(victim(old(self).ptr, old(self).entries@),
                ICacheEntry { accessed: true, tag, insn: Some((ir, insn)) }),
    {
        let mut p = self.tail();
        let head = self.ptr;
        let mut k: u8 = 3;
        let mut done = false;
        while !done && p != head
            invariant
                self.wf(),
                self.ptr == head,
                self.entries@ == old(self).entries@,
                k <= 3,
                p == pos(head, k as int),
                done ==> k >= 1,
                done ==> {
                    let e = self.entries@[pos(head, k as int)];
                    e.insn is None || !e.accessed
                },
                forall|i: int| k < i <= 3 ==> {
                    let e = #[trigger] self.entries@[pos(head, i)];
                    !(e.insn is None || !e.accessed)
                },
            decreases k + (if done { 0int } else { 1int }),
        {
            let e = self.entries[p as usize];
            if e.insn.is_none() || !e.accessed {
                done = true;
            } else {
                p = Self::prev_ptr(p);
                k = k - 1;
            }
        }
        assert(p as int == victim(head, old(self).entries@));
        self.entries.set(p as usize, ICacheEntry { accessed: true, tag, insn: Some((ir, insn)) });
        self.ptr = p;
    }

    /// Drops every cached instruction.
    pub fn invalid_all(&mut self)
        requires
            old(self).wf(),
        ensures
            final(self).wf(),
            final(self).ptr == old(self).ptr,
            forall|j: int| 0 <= j < 4 ==> (#[trigger] final(self).entries@[j]) == (ICacheEntry { insn: None, ..old(self).entries@[j] }),
    {
        let mut j: usize = 0;
        while j < 4
            invariant
                self.wf(),
                self.ptr == old(self).ptr,
                j <= 4,
                forall|i: int| 0 <= i < 4 ==> (#[trigger] self.entries@[i]) == if i < j {
                    ICacheEntry { insn: None, ..old(self).entries@[i] } } else { old(self).entries@[i] },
            decreases 4 - j,
        {
            let e = self.entries[j];
            self.entries.set(j, ICacheEntry { insn: None, ..e });
            j = j + 1;
        }
    }

    /// Drops the cached instructions of virtual page `vpn` (tags whose
    /// bits above bit 10 are `vpn`).
    pub fn invalid_by_vpn(&mut self, vpn: u64)
        requires
            old(self).wf(),
        ensures
            final(self).wf(),
            final(self).ptr == old(self).ptr,
            forall|j: int| 0 <= j < 4 ==> (#[trigger] final(self).entries@[j]) == if old(self).entries@[j].tag >> 11 == vpn {
                ICacheEntry { insn: None, ..old(self).entries@[j] } } else { old(self).entries@[j] },
    {
        let mut j: usize = 0;
        while j < 4
            invariant
                self.wf(),
                self.ptr == old(self).ptr,
                j <= 4,
                forall|i: int| 0 <= i < 4 ==> (#[trigger] self.entries@[i]) == if i < j && old(self).entries@[i].tag >> 11 == vpn {
                    ICacheEntry { insn: None, ..old(self).entries@[i] } } else { old(self).entries@[i] },
            decreases 4 - j,
        {
            let e = self.entries[j];
            if vpn == e.tag >> 11 {
                self.entries.set(j, ICacheEntry { insn: None, ..e });
            }
            j = j + 1;
        }
    }
}

/// The decoded-instruction cache: `size` baskets, the basket of an
/// address chosen by its bits above bit 0.
pub struct ICache {
    pub size: usize,
    pub baskets: Vec<ICacheBasket>,
}

/// The basket of address `addr` in a cache of `size` baskets.
pub open spec fn basket_of(addr: u64, size: usize) -> int {
    (((addr >> 1) as usize) & ((size - 1) as usize)) as int
}

impl ICache {
    /// Well-formedness: `size` well-formed baskets.
    pub open spec fn wf(&self) -> bool {
        &&& self.size >= 1
        &&& self.baskets@.len() == self.size
        &&& forall|i: int| 0 <= i < self.size ==> (#[trigger] self.baskets@[i]).wf()
    }

    /// What a lookup of `addr` finds (see `basket_hit`).
    pub open spec fn spec_get(&self, addr: u64) -> Option<(InsnT, InsnKind)> {
        let b = self.baskets@[basket_of(addr, self.size)];
        match basket_hit(b.ptr, b.entries@, addr >> 1) {
            Some(k) => b.entries@[pos(b.ptr, k)].insn,
            None => None,
        }
    }

    /// Whether every cached word decodes to the kind cached with it.
    pub open spec fn coherent(&self, table: Seq<crate::processor::decode::Decoder>) -> bool {
        forall|i: int| 0 <= i < self.size ==> (#[trigger] self.baskets@[i]).coherent(table)
    }

    /// An empty cache of `size` baskets.
    pub fn new(size: usize) -> (r: ICache)
        requires
            size >= 1,
        ensures
            r.wf(),
            r.size == size,
            forall|a: u64| #[trigger] r.spec_get(a) is None,
            forall|t: Seq<crate::processor::decode::Decoder>| #[trigger] r.coherent(t),
    {
        let mut baskets: Vec<ICacheBasket> = Vec::new();
        let mut i: usize = 0;
        while i < size
            invariant
                i <= size,
                baskets@.len() == i,
                forall|j: int| 0 <= j < i ==> (#[trigger] baskets@[j]).wf() && baskets@[j].ptr == 0
                    && forall|k: int| 0 <= k < 4 ==> (#[trigger] baskets@[j].entries@[k]).insn is None,
            decreases size - i,
        {
            baskets.push(ICacheBasket::new());
            i = i + 1;
        }
        let r = ICache { size, baskets };
        assert forall|a: u64| #[trigger] r.spec_get(a) is None by {
            let b = r.baskets@[basket_of(a, size)];
            crate::bits::lemma_and_bound_usize((a >> 1) as usize, (size - 1) as usize);
            assert(b.entries@[pos(b.ptr, 0)].insn is None);
        }
        r
    }

    /// The basket index of `addr`.
    fn index(&self, addr: u64) -> (r: usize)
        requires
            self.wf(),
        ensures
            r == basket_of(addr, self.size),
            r < self.size,
    {
        let m = self.size - 1;
        let x = (addr >> 1) as usize;
        proof { crate::bits::lemma_and_bound_usize(x, m); }
        x & m
    }

    /// Looks up `addr` (see `spec_get`); only its basket changes.
    pub fn get_insn(&mut self, addr: u64) -> (r: Option<(InsnT, InsnKind)>)
        requires
            old(self).wf(),
        ensures
            final(self).wf(),
            final(self).size == old(self).size,
            r == old(self).spec_get(addr),
            r is Some ==> final(self).spec_get(addr) == r,
            forall|t: Seq<crate::processor::decode::Decoder>| old(self).coherent(t) ==> #[trigger] final(self).coherent(t),
    {
        let i = self.index(addr);
        let ghost b0 = self.baskets@[i as int];
        let r = self.baskets[i].get_insn(addr >> 1);
        proof {
            let b1 = self.baskets@[i as int];
            if let Some(k) = basket_hit(b0.ptr, b0.entries@, addr >> 1) {
                assert(pos(b1.ptr, 0) == b1.ptr as int);
                assert(b1.entries@[b1.ptr as int] == ICacheEntry { accessed: true, ..b0.entries@[pos(b0.ptr, k)] });
            }
        }
        r
    }

    /// Caches `(ir, insn)` for `addr` in its basket (see `victim`).
    pub fn set_entry(&mut self, addr: u64, ir: InsnT, insn: InsnKind)
        requires
            old(self).wf(),
        ensures
            final(self).wf(),
            final(self).size == old(self).size,
            ({
                let i = basket_of(addr, old(self).size);
                let b = old(self).baskets@[i];
                &&& final(self).baskets@[i].ptr == victim(b.ptr, b.entries@)
                &&& final(self).baskets@[i].entries@ == b.entries@.update(victim(b.ptr, b.entries@),
                    ICacheEntry { accessed: true, tag: addr >> 1, insn: Some((ir, insn)) })
                &&& forall|j: int| 0 <= j < old(self).size && j != i ==> #[trigger] final(self).baskets@[j] == old(self).baskets@[j]
            }),
            forall|t: Seq<crate::processor::decode::Decoder>| old(self).coherent(t)
                && crate::processor::decode::spec_decode(t, ir) == Ok::<InsnKind, crate::processor::trap::Exception>(insn)
                ==> #[trigger] final(self).coherent(t),
    {
        let i = self.index(addr);
        self.baskets[i].set_entry(addr >> 1, ir, insn);
    }

    /// Drops every cached instruction.
    pub fn invalid_all(&mut self)
        requires
            old(self).wf(),
        ensures
            final(self).wf(),
            final(self).size == old(self).size,
            forall|a: u64| #[trigger] final(self).spec_get(a) is None,
            forall|t: Seq<crate::processor::decode::Decoder>| #[trigger] final(self).coherent(t),
    {
        let mut i: usize = 0;
        while i < self.baskets.len()
            invariant
                self.wf(),
                self.size == old(self).size,
                i <= self.size,
                forall|j: int, k: int| 0 <= j < i && 0 <= k < 4 ==> (#[trigger] self.baskets@[j].entries@[k]).insn is None,
            decreases self.size - i,
        {
            self.baskets[i].invalid_all();
            i = i + 1;
        }
        assert forall|a: u64| #[trigger] self.spec_get(a) is None by {
            let b = self.baskets@[basket_of(a, self.size)];
            let m = (self.size - 1) as usize;
            crate::bits::lemma_and_bound_usize((a >> 1) as usize, m);
            assert(b.entries@[pos(b.ptr, 0)].insn is None);
            assert(b.entries@[pos(b.ptr, 1)].insn is None);
            assert(b.entries@[pos(b.ptr, 2)].insn is None);
        }
    }

    /// Drops the cached instructions of virtual page `vpn`.
    pub fn invalid_by_vpn(&mut self, vpn: u64)
        requires
            old(self).wf(),
        ensures
            final(self).wf(),
            final(self).size == old(self).size,
            forall|j: int, k: int| 0 <= j < old(self).size && 0 <= k < 4 ==> {
                let e = old(self).baskets@[j].entries@[k];
                #[trigger] final(self).baskets@[j].entries@[k] == if e.tag >> 11 == vpn {
                    ICacheEntry { insn: None, ..e } } else { e }
            },
            forall|j: int| 0 <= j < old(self).size ==> #[trigger] final(self).baskets@[j].ptr == old(self).baskets@[j].ptr,
            forall|t: Seq<crate::processor::decode::Decoder>| old(self).coherent(t) ==> #[trigger] final(self).coherent(t),
    {
        let mut i: usize = 0;
        while i < self.baskets.len()
            invariant
                self.wf(),
                self.size == old(self).size,
                i <= self.size,
                forall|j: int, k: int| 0 <= j < self.size && 0 <= k < 4 ==> {
                    let e = old(self).baskets@[j].entries@[k];
                    #[trigger] self.baskets@[j].entries@[k] == if j < i && e.tag >> 11 == vpn {
                        ICacheEntry { insn: None, ..e } } else { e }
                },
                forall|j: int| 0 <= j < self.size ==> #[trigger] self.baskets@[j].ptr == old(self).baskets@[j].ptr,
            decreases self.size - i,
        {
            self.baskets[i].invalid_by_vpn(vpn);
            i = i + 1;
        }
    }
}

/// What a lookup gives back of a fill: once `(ir, insn)` is cached for
/// `addr`, a lookup of `addr` finds it.
pub proof fn lemma_icache_get_after_set(c0: ICache, c1: ICache, addr: u64, ir: InsnT, insn: InsnKind)
    requires
        c0.wf(),
        c1.size == c0.size,
        ({
            let i = basket_of(addr, c0.size);
            let b = c0.baskets@[i];
            &&& c1.baskets@[i].ptr == victim(b.ptr, b.entries@)
            &&& c1.baskets@[i].entries@ == b.entries@.update(victim(b.ptr, b.entries@),
                ICacheEntry { accessed: true, tag: addr >> 1, insn: Some((ir, insn)) })
        }),
    ensures
        c1.spec_get(addr) == Some((ir, insn)),
{
    let i = basket_of(addr, c0.size);
    let m = (c0.size - 1) as usize;
    crate::bits::lemma_and_bound_usize((addr >> 1) as usize, m);
    let b = c0.baskets@[i];
    assert(b.wf());
    let v = victim(b.ptr, b.entries@);
    assert(pos((v as u8), 0) == v);
}

/// The instruction of word `ir` among `table`, with the word.
pub open spec fn decoded(table: Seq<Decoder>, ir: InsnT) -> Result<(InsnT, InsnKind), Exception> {
    match spec_decode(table, ir) {
        Ok(k) => Ok((ir, k)),
        Err(e) => Err(e),
    }
}

/// Whether `(m1, b1, r)` is what fetching the instruction at `pc` from
/// memory gives from `(m0, b0)`. At an address 2 modulo 4, 16 bits are
/// read; when they are not a compressed instruction (low bits `11`), the
/// next 16 bits are read too, translated on their own when they start a
/// new page. Elsewhere 32 bits are read, of which only the low 16 are the
/// instruction when those are compressed. A read that does not answer is
/// an access fault for `pc`.
pub open spec fn fetch_step<S: Space>(
    table: Seq<Decoder>, m0: Mmu, m1: Mmu, b0: Bus<S>, b1: Bus<S>, s: ProcessorState, r: Result<(InsnT, InsnKind), Exception>,
) -> bool {
    let pc = s.pc;
    let p = s.privilege;
    let ed = s.config.enable_dirty;
    exists|m_a: Mmu, b_a: Bus<S>, m_b: Mmu, b_b: Bus<S>| #![trigger chosen((m_a, b_a, m_b, b_b))] {
        let n: u64 = if pc & 3 == 2 { 2 } else { 4 };
        &&& translate_frame(m0, m_a, &b0, &b_a, p, ed, pc, n, MmuOpt::Fetch)
        &&& match access_pa(m0, &b0, s, pc, n, MmuOpt::Fetch) {
            Err(e) => r == Err::<(InsnT, InsnKind), Exception>(e) && m1 == m_a && b1 == b_a,
            Ok(pa) => match spec_read(&b_a.space, pa, n as nat) {
                None => r == Err::<(InsnT, InsnKind), Exception>(Exception::FetchAccess(pc)) && m1 == m_a && b1 == b_a,
                Some(w) => if n == 4 {
                    &&& m1 == m_a && b1 == b_a
                    &&& r == decoded(table, if w & 3 != 3 { (w & 0xffff) as InsnT } else { w as InsnT })
                } else if w & 3 != 3 {
                    m1 == m_a && b1 == b_a && r == decoded(table, w as InsnT)
                } else {
                    let second = pc & 0xfff == 0xffe;
                    let hi_pa = if second { access_pa(m_a, &b_a, s, wrap64(pc + 2), 2, MmuOpt::Fetch) } else {
                        Ok::<u64, Exception>(wrap64(pa + 2)) };
                    &&& (if second { translate_frame(m_a, m_b, &b_a, &b_b, p, ed, wrap64(pc + 2), 2, MmuOpt::Fetch) } else {
                        m_b == m_a && b_b == b_a })
                    &&& m1 == m_b && b1 == b_b
                    &&& match hi_pa {
                        Err(e) => r == Err::<(InsnT, InsnKind), Exception>(e),
                        Ok(ph) => match spec_read(&b_b.space, ph, 2) {
                            None => r == Err::<(InsnT, InsnKind), Exception>(Exception::FetchAccess(pc)),
                            Some(hi) => r == decoded(table, (w | (hi << 16)) as InsnT),
                        },
                    }
                },
            },
        }
    }
}

/// Whether `(f1, m1, b1, r)` is what `fetch` gives from `(f0, m0, b0)` for
/// the hart in state `s`: a cached instruction is returned as is, else
/// the instruction is fetched from memory (see `fetch_step`); what is
/// returned is cached.
pub open spec fn fetch_rel<S: Space>(
    f0: Fetcher, f1: Fetcher, m0: Mmu, m1: Mmu, b0: Bus<S>, b1: Bus<S>, s: ProcessorState, r: Result<(InsnT, InsnKind), Exception>,
) -> bool {
    &&& f1.wf()
    &&& m1.wf()
    &&& f1.decoder == f0.decoder
    &&& b1.lock_table == b0.lock_table
    &&& match f0.icache.spec_get(s.pc) {
        Some(x) => r == Ok::<(InsnT, InsnKind), Exception>(x) && m1 == m0 && b1 == b0,
        None => fetch_step(spec_decoders(), m0, m1, b0, b1, s, r),
    }
    &&& r matches Ok(x) ==> f1.icache.spec_get(s.pc) == Some(x)
}

/// Fetches and decodes instructions for a hart, through its cache.
pub struct Fetcher {
    pub icache: ICache,
    pub decoder: TreeInsnMap,
}

impl Fetcher {
    /// Well-formedness: the decoder holds the whole instruction table, and
    /// the cache is well formed and holds only words with what they decode
    /// to.
    pub open spec fn wf(&self) -> bool {
        &&& self.decoder.wf()
        &&& holds_table(self.decoder.view(), spec_decoders())
        &&& self.icache.wf()
        &&& self.icache.coherent(spec_decoders())
    }

    /// A fetcher with an empty cache of 1024 baskets, decoding with every
    /// instruction the hart knows.
    pub fn new() -> (r: Fetcher)
        ensures
            r.wf(),
            forall|a: u64| #[trigger] r.icache.spec_get(a) is None,
    {
        Fetcher { icache: ICache::new(1024), decoder: TreeInsnMap::global() }
    }

    /// Drops every cached instruction.
    pub fn flush_icache(&mut self)
        requires
            old(self).wf(),
        ensures
            final(self).wf(),
            final(self).decoder == old(self).decoder,
            forall|a: u64| #[trigger] final(self).icache.spec_get(a) is None,
    {
        self.icache.invalid_all();
    }

    /// Drops the cached instructions of virtual page `vpn`.
    pub fn flush_icache_by_vpn(&mut self, vpn: u64)
        requires
            old(self).wf(),
        ensures
            final(self).wf(),
            final(self).decoder == old(self).decoder,
            final(self).icache.size == old(self).icache.size,
            forall|j: int, k: int| 0 <= j < old(self).icache.size && 0 <= k < 4 ==> {
                let e = old(self).icache.baskets@[j].entries@[k];
                #[trigger] final(self).icache.baskets@[j].entries@[k] == if e.tag >> 11 == vpn {
                    ICacheEntry { insn: None, ..e } } else { e }
            },
    {
        self.icache.invalid_by_vpn(vpn);
    }

    /// Caches and returns the instruction of word `ir` at `pc`.
    fn decode_and_cache(&mut self, pc: u64, ir: InsnT) -> (r: Result<(InsnT, InsnKind), Exception>)
        requires
            old(self).wf(),
        ensures
            final(self).wf(),
            final(self).decoder == old(self).decoder,
            r == decoded(spec_decoders(), ir),
            r matches Ok(x) ==> final(self).icache.spec_get(pc) == Some(x),
    {
        let d = self.decoder.decode(&ir);
        proof {
            lemma_tree_decodes_as_table(self.decoder.view(), ir, d);
        }
        let k = match d {
            Ok(k) => k,
            Err(e) => return Err(e),
        };
        let ghost c0 = self.icache;
        self.icache.set_entry(pc, ir, k);
        proof {
            lemma_icache_get_after_set(c0, self.icache, pc, ir, k);
        }
        Ok((ir, k))
    }

    /// Fetches the instruction at the hart's pc: from the cache when it
    /// holds it, else from memory (see `fetch_step`), caching it.
    #[verifier::rlimit(60)]
    pub fn fetch<S: Space>(&mut self, s: &ProcessorState, mmu: &mut Mmu, bus: &mut Bus<S>)
        -> (r: Result<(InsnT, InsnKind), Exception>)
        requires
            old(self).wf(),
            s.wf(),
            old(mmu).wf(),
            translatable(s.privilege, MmuOpt::Fetch),
        ensures
            fetch_rel(*old(self), *final(self), *old(mmu), *final(mmu), *old(bus), *final(bus), *s, r),
    {
        let pc = s.pc;
        let ed = s.config.enable_dirty;
        let ghost m0 = *mmu;
        let ghost b0 = *bus;
        if let Some(res) = self.icache.get_insn(pc) {
            return Ok(res);
        }
        if pc & 3 == 2 {
            let tr = mmu.translate(bus, &s.privilege, ed, pc, 2, MmuOpt::Fetch);
            let ghost m_a = *mmu;
            let ghost b_a = *bus;
            assert(chosen((m_a, b_a, m_a, b_a)));
            let pa = match tr {
                Ok(pa) => pa,
                Err(e) => return Err(e),
            };
            let lo = match bus.read(pa, 2) {
                Ok(v) => v,
                Err(_) => return Err(Exception::FetchAccess(pc)),
            };
            proof {
                crate::processor::bus::lemma_read_bound(&bus.space, pa, 2);
            }
            if lo & 3 != 3 {
                self.decode_and_cache(pc, lo as InsnT)
            } else {
                let hi_pa = if pc & 0xfff == 0xffe {
                    let pc2 = add64(pc, 2);
                    mmu.translate(bus, &s.privilege, ed, pc2, 2, MmuOpt::Fetch)
                } else {
                    Ok(add64(pa, 2))
                };
                let ghost m_b = *mmu;
                let ghost b_b = *bus;
                assert(chosen((m_a, b_a, m_b, b_b)));
                let ph = match hi_pa {
                    Ok(ph) => ph,
                    Err(e) => return Err(e),
                };
                let hi = match bus.read(ph, 2) {
                    Ok(v) => v,
                    Err(_) => return Err(Exception::FetchAccess(pc)),
                };
                proof {
                    crate::processor::bus::lemma_read_bound(&bus.space, ph, 2);
                }
                let ir = (lo | (hi << 16)) as InsnT;
                self.decode_and_cache(pc, ir)
            }
        } else {
            let tr = mmu.translate(bus, &s.privilege, ed, pc, 4, MmuOpt::Fetch);
            let ghost m_a = *mmu;
            let ghost b_a = *bus;
            assert(chosen((m_a, b_a, m_a, b_a)));
            let pa = match tr {
                Ok(pa) => pa,
                Err(e) => return Err(e),
            };
            let w = match bus.read(pa, 4) {
                Ok(v) => v,
                Err(_) => return Err(Exception::FetchAccess(pc)),
            };
            let ir = if w & 3 != 3 { (w & 0xffff) as InsnT } else { w as InsnT };
            self.decode_and_cache(pc, ir)
        }
    }
}

} // verus!
