//! Address translation: page-table walks over Sv32/Sv39/Sv48 tables, TLBs
//! of finished walks, and physical memory protection.
use vstd::prelude::*;
use crate::bits::field_of;
use crate::global::{RegT, XLen};
use crate::processor::bus::{spec_read, Bus, Space};
use crate::processor::privilege::m::PrivM;
use crate::processor::privilege::{Privilege, PrivilegeStates};
use crate::processor::trap::Exception;

pub mod tlb;
pub mod pte;
pub mod pmp;

use tlb::{slot, tlb_lookup, TLBEntry, TLB};
use pte::{Paddr, Pte, PteAttr, PteInfo, Vaddr, PTE_BARE, spec_pte_info, supported_satp, translating_mode, mode_levels};
use pmp::{first_match_from, match_pmpcfg_entry, spec_cfg_entry, PmpCfgEntry};

verus! {

/// The kind of memory access being translated.
#[derive(Debug, Clone, Copy, PartialEq, Eq, Structural)]
pub enum MmuOpt {
    Load,
    Store,
    Fetch,
}

impl MmuOpt {
    /// The access-fault exception of this kind of access at `addr`.
    pub open spec fn spec_access_exception(self, addr: RegT) -> Exception {
        match self {
            MmuOpt::Fetch => Exception::FetchAccess(addr),
            MmuOpt::Load => Exception::LoadAccess(addr),
            MmuOpt::Store => Exception::StoreAccess(addr),
        }
    }

    /// The page-fault exception of this kind of access at `addr`.
    pub open spec fn spec_pagefault_exception(self, addr: RegT) -> Exception {
        match self {
            MmuOpt::Fetch => Exception::FetchPageFault(addr),
            MmuOpt::Load => Exception::LoadPageFault(addr),
            MmuOpt::Store => Exception::StorePageFault(addr),
        }
    }

    /// Whether a PMP entry with configuration `cfg` permits this access.
    pub open spec fn spec_pmp_match(self, cfg: u8) -> bool {
        match self {
            MmuOpt::Fetch => (cfg >> 2u8) & 1 == 1,
            MmuOpt::Load => cfg & 1 == 1,
            MmuOpt::Store => (cfg >> 1u8) & 1 == 1,
        }
    }

    /// The access-fault exception of this kind of access at `addr`.
    pub fn access_exception(&self, addr: RegT) -> (r: Exception)
        ensures
            r == self.spec_access_exception(addr),
    {
        match self {
            MmuOpt::Fetch => Exception::FetchAccess(addr),
            MmuOpt::Load => Exception::LoadAccess(addr),
            MmuOpt::Store => Exception::StoreAccess(addr),
        }
    }

    /// The page-fault exception of this kind of access at `addr`.
    pub fn pagefault_exception(&self, addr: RegT) -> (r: Exception)
        ensures
            r == self.spec_pagefault_exception(addr),
    {
        match self {
            MmuOpt::Fetch => Exception::FetchPageFault(addr),
            MmuOpt::Load => Exception::LoadPageFault(addr),
            MmuOpt::Store => Exception::StorePageFault(addr),
        }
    }

    /// Whether the PMP entry `pmpcfg` permits this access.
    pub fn pmp_match(&self, pmpcfg: &PmpCfgEntry) -> (r: bool)
        ensures
            r == self.spec_pmp_match(pmpcfg.0),
    {
        match self {
            MmuOpt::Fetch => pmpcfg.x() == 1,
            MmuOpt::Load => pmpcfg.r() == 1,
            MmuOpt::Store => pmpcfg.w() == 1,
        }
    }
}

/// Whether PMP lets an access of `len` bytes at `addr` through at privilege
/// `privilege`: the first matching entry decides (machine mode passes an
/// unlocked entry); with no matching entry only machine mode passes.
pub open spec fn spec_check_pmp(m: PrivM, addr: u64, len: u64, opt: MmuOpt, privilege: u8) -> bool {
    match first_match_from(m, addr, len, 0) {
        Some(i) => {
            let cfg = spec_cfg_entry(m, i);
            (privilege == 3 && (cfg >> 7u8) & 1 == 0) || opt.spec_pmp_match(cfg)
        },
        None => privilege == 3,
    }
}

/// Whether the leaf attributes `attr` allow the access at `privilege`
/// (1 is supervisor) under `mstatus.sum` and `mstatus.mxr` of `mstatus`.
pub open spec fn spec_pte_allows(mstatus: u64, attr: u8, opt: MmuOpt, privilege: u8) -> bool {
    let priv_s = privilege == 1;
    let x = (attr >> 3u8) & 1 == 1;
    let u = (attr >> 4u8) & 1 == 1;
    let r = (attr >> 1u8) & 1 == 1;
    let w = (attr >> 2u8) & 1 == 1;
    let mxr = field_of(mstatus, 19, 19) == 1;
    let sum = field_of(mstatus, 18, 18) == 1;
    match opt {
        MmuOpt::Fetch => !(!x || u == priv_s),
        MmuOpt::Load => !(priv_s && !sum && u || !u && !priv_s || !r && !mxr || mxr && !r && !x),
        MmuOpt::Store => !(priv_s && !sum && u || !u && !priv_s || !w || !r),
    }
}

/// The privilege a data access is checked at: `mstatus.mpp` when
/// `mstatus.mprv` is set, else the current level.
pub open spec fn spec_access_privilege(p: PrivilegeStates, opt: MmuOpt) -> u8 {
    let mprv = field_of(p.m.mstatus.bits, 17, 17) == 1;
    let mpp = (field_of(p.m.mstatus.bits, 12, 11) as u8) & 3;
    if mprv && (opt == MmuOpt::Load || opt == MmuOpt::Store) { mpp } else { p.cur.spec_value() }
}

/// The bytes of a page table entry of the shape `info`.
pub open spec fn entry_len(info: PteInfo) -> nat {
    if info.size_shift == 2 { 4 } else { 8 }
}

/// Whether the page table entry `v` (its attribute byte) is invalid: not
/// valid, or writable without being readable.
pub open spec fn pte_invalid(attr: u8) -> bool {
    (attr >> 0u8) & 1 == 0 || ((attr >> 1u8) & 1 == 0 && (attr >> 2u8) & 1 == 1)
}

/// Whether the page table entry with attribute byte `attr` is a leaf.
pub open spec fn pte_leaf(attr: u8) -> bool {
    (attr >> 1u8) & 1 == 1 || (attr >> 3u8) & 1 == 1
}

/// The descent through the page tables for `vaddr` from the table at `a`
/// on `level`: the leaf entry, its address and level, or the fault.
pub open spec fn spec_descend<S: Space>(
    s: &S, m: PrivM, info: PteInfo, vaddr: Vaddr, opt: MmuOpt, a: u64, level: int,
) -> Result<(Pte, u64, int), Exception>
    decreases level,
{
    let va = vaddr.spec_value();
    let pte_addr = (a + (vaddr.spec_vpn(level) << (info.size_shift as u64))) as u64;
    if level < 0 {
        Err(opt.spec_pagefault_exception(va))
    } else if !spec_check_pmp(m, pte_addr, entry_len(info) as u64, MmuOpt::Load, 1) {
        Err(opt.spec_access_exception(va))
    } else {
        match spec_read(s, pte_addr, entry_len(info)) {
            None => Err(opt.spec_access_exception(va)),
            Some(v) => {
                let pte = Pte::spec_new(info.mode, v);
                let attr = v as u8;
                if pte_invalid(attr) {
                    Err(opt.spec_pagefault_exception(va))
                } else if pte_leaf(attr) {
                    Ok((pte, pte_addr, level))
                } else if level == 0 {
                    Err(opt.spec_pagefault_exception(va))
                } else {
                    spec_descend(s, m, info, vaddr, opt, (pte.spec_ppn_all() << 12u64) as u64, level - 1)
                }
            },
        }
    }
}

/// Whether the page number fields of `pte` below `level` are zero (a
/// superpage leaf must be aligned).
pub open spec fn low_ppns_zero(pte: Pte, level: int) -> bool {
    forall|l: int| 0 <= l < level ==> #[trigger] pte.spec_ppn(l) == 0
}

/// The attributes the walker writes back: accessed set, dirty set for a
/// store and cleared otherwise.
pub open spec fn updated_attr(attr: u8, opt: MmuOpt) -> u8 {
    let a1 = ((1u8 & 1) << 6u8) | (attr & 0xbf);
    let d: u8 = if opt == MmuOpt::Store { 1 } else { 0 };
    ((d & 1) << 7u8) | (a1 & 0x7f)
}

/// The address of the root page table: `satp.ppn` times the page size.
pub open spec fn walk_root(p: PrivilegeStates) -> u64 {
    let ppn = if p.m.xlen == XLen::X32 { field_of(p.s->0.satp.bits, 21, 0) } else { field_of(p.s->0.satp.bits, 43, 0) };
    (ppn << 12u64) as u64
}

/// What the page-table walk for `vaddr` gives: the physical address or
/// the fault, and the entry it writes back (address and new entry) when
/// it sets the accessed/dirty bits.
pub open spec fn spec_pt_walk<S: Space>(
    s: &S, p: PrivilegeStates, enable_dirty: bool, vaddr: Vaddr, opt: MmuOpt, privilege: u8, info: PteInfo,
) -> (Result<u64, Exception>, Option<(u64, Pte)>) {
    let va = vaddr.spec_value();
    match spec_descend(s, p.m, info, vaddr, opt, walk_root(p), info.level - 1) {
        Err(e) => (Err(e), None),
        Ok((leaf, pte_addr, level)) => {
            let attr = leaf.spec_value() as u8;
            if !spec_pte_allows(p.m.mstatus.bits, attr, opt, privilege) {
                (Err(opt.spec_pagefault_exception(va)), None)
            } else if !low_ppns_zero(leaf, level) {
                (Err(opt.spec_pagefault_exception(va)), None)
            } else if ((attr >> 7u8) & 1 == 0 && opt == MmuOpt::Store) || (attr >> 6u8) & 1 == 0 {
                if enable_dirty {
                    let new_pte = leaf.spec_set_attr(PteAttr(updated_attr(attr, opt)));
                    if !spec_check_pmp(p.m, pte_addr, entry_len(info) as u64, MmuOpt::Store, 1) {
                        (Err(opt.spec_access_exception(va)), None)
                    } else if spec_read(s, pte_addr, entry_len(info)) is None {
                        (Err(opt.spec_access_exception(va)), None)
                    } else {
                        (Ok(Paddr::spec_new(vaddr, new_pte, level, info.level as int).spec_value()), Some((pte_addr, new_pte)))
                    }
                } else {
                    (Err(opt.spec_pagefault_exception(va)), None)
                }
            } else {
                (Ok(Paddr::spec_new(vaddr, leaf, level, info.level as int).spec_value()), None)
            }
        },
    }
}

/// Whether PMP lets an access of `len` bytes at `addr` through.
pub fn check_pmp(m: &PrivM, addr: u64, len: u64, opt: &MmuOpt, privilege: u8) -> (r: bool)
    requires
        m.wf(),
        addr as int + len as int >= 1,
        addr as int + len as int - 1 <= 0xffff_ffff_ffff_ffff,
    ensures
        r == spec_check_pmp(*m, addr, len, *opt, privilege),
{
    if let Some(entry) = match_pmpcfg_entry(m, addr, len) {
        privilege == 3 && entry.l() == 0 || opt.pmp_match(&entry)
    } else {
        privilege == 3
    }
}

/// The privilege a data access is checked at.
pub fn get_privileage(p: &PrivilegeStates, opt: &MmuOpt) -> (r: u8)
    requires
        p.wf(),
    ensures
        r == spec_access_privilege(*p, *opt),
{
    let is_mprv = p.m.mstatus.mprv() == 1;
    proof {
        crate::bits::lemma_field_of_bound(p.m.mstatus.bits, 12, 11);
        crate::bits::lemma_mask_values();
    }
    let mpp = p.m.mstatus.mpp() as u8 & 3;
    match opt {
        MmuOpt::Load if is_mprv => mpp,
        MmuOpt::Store if is_mprv => mpp,
        _ => p.cur.value(),
    }
}

/// `Ok` when the leaf attributes `pte_attr` allow the access at
/// `privilege`, else the page fault for `addr`.
pub fn check_pte_privilege(m: &PrivM, addr: RegT, pte_attr: &PteAttr, opt: &MmuOpt, privilege: u8) -> (r: Result<(), Exception>)
    ensures
        r == if spec_pte_allows(m.mstatus.bits, pte_attr.0, *opt, privilege) {
            Ok::<(), Exception>(())
        } else {
            Err::<(), Exception>(opt.spec_pagefault_exception(addr))
        },
{
    let priv_s = privilege == 1;
    let pte_x = pte_attr.x() == 1;
    let pte_u = pte_attr.u() == 1;
    let pte_r = pte_attr.r() == 1;
    let pte_w = pte_attr.w() == 1;
    let mxr = m.mstatus.mxr() == 1;
    let sum = m.mstatus.sum() == 1;
    match opt {
        MmuOpt::Fetch => {
            if !pte_x || pte_u == priv_s {
                return Err(opt.pagefault_exception(addr));
            }
        },
        MmuOpt::Load => {
            if priv_s && !sum && pte_u || !pte_u && !priv_s || !pte_r && !mxr || mxr && !pte_r && !pte_x {
                return Err(opt.pagefault_exception(addr));
            }
        },
        MmuOpt::Store => {
            if priv_s && !sum && pte_u || !pte_u && !priv_s || !pte_w || !pte_r {
                return Err(opt.pagefault_exception(addr));
            }
        },
    }
    Ok(())
}

/// Page-number fields are below their masks.
pub proof fn lemma_vaddr_vpn_bound(vaddr: Vaddr, level: int)
    ensures
        vaddr.spec_vpn(level) <= 0x3ff,
{
    let v = vaddr.spec_value();
    assert((v >> 12u64) & 0x3ff <= 0x3ff && (v >> 22u64) & 0x3ff <= 0x3ff && (v >> 12u64) & 0x1ff <= 0x3ff
        && (v >> 21u64) & 0x1ff <= 0x3ff && (v >> 30u64) & 0x1ff <= 0x3ff && (v >> 39u64) & 0x1ff <= 0x3ff) by (bit_vector);
}

/// A table address made from a page number: at most 56 bits.
pub proof fn lemma_table_addr_bound(pte: Pte)
    ensures
        (pte.spec_ppn_all() << 12u64) <= 0xfff_ffff_ffff_f000u64,
{
    let v = pte.spec_value();
    assert(((v >> 10u64) & 0x3fffff) << 12u64 <= 0xfff_ffff_ffff_f000u64
        && ((v >> 10u64) & 0xfff_ffffffff) << 12u64 <= 0xfff_ffff_ffff_f000u64) by (bit_vector);
}

/// Walks the page tables for `vaddr` (see `spec_pt_walk`), setting the
/// accessed/dirty bits of the leaf entry when `enable_dirty` allows it.
pub fn pt_walk<S: Space>(
    bus: &mut Bus<S>,
    p: &PrivilegeStates,
    enable_dirty: bool,
    vaddr: &Vaddr,
    opt: &MmuOpt,
    privilege: u8,
    info: &PteInfo,
) -> (r: Result<u64, Exception>)
    requires
        p.wf(),
        p.s is Some,
        supported_satp(p.s->0.satp),
        *info == spec_pte_info(p.s->0.satp),
        translating_mode(info.mode),
        *vaddr == Vaddr::spec_new(info.mode, vaddr.spec_value()),
    ensures
        ({
            let (res, st) = spec_pt_walk(&old(bus).space, *p, enable_dirty, *vaddr, *opt, privilege, *info);
            &&& r == res
            &&& final(bus).lock_table == old(bus).lock_table
            &&& st is None ==> forall|x: u64| #[trigger] final(bus).space.spec_byte(x) == old(bus).space.spec_byte(x)
            &&& st matches Some((addr, pte)) ==> {
                &&& spec_read(&final(bus).space, addr, entry_len(*info))
                    == Some(pte.spec_value() & crate::processor::bus::byte_mask(entry_len(*info) as u64))
                &&& forall|x: u64| (x < addr || x as int >= addr as int + entry_len(*info)) ==>
                    #[trigger] final(bus).space.spec_byte(x) == old(bus).space.spec_byte(x)
            }
        }),
{
    let ghost s0 = bus.space;
    let m = &p.m;
    let sv = p.s.unwrap();
    let satp = sv.satp;
    assert(satp == p.s->0.satp);
    let ppn = satp.ppn();
    proof {
        crate::bits::lemma_field_of_bound(satp.bits, 21, 0);
        crate::bits::lemma_field_of_bound(satp.bits, 43, 0);
        let f1 = field_of(satp.bits, 21, 0);
        let f2 = field_of(satp.bits, 43, 0);
        assert((f1 <= crate::bits::mask_of(22) ==> f1 << 12u64 <= 0xfff_ffff_ffff_f000u64)
            && (f2 <= crate::bits::mask_of(44) ==> f2 << 12u64 <= 0xfff_ffff_ffff_f000u64)) by (bit_vector);
    }
    let mut a: u64 = ppn << 12u64;
    proof {
        crate::bits::lemma_field_of_bound(satp.bits, 31, 31);
        crate::bits::lemma_field_of_bound(satp.bits, 63, 60);
        crate::bits::lemma_mask_values();
        assert(info.level == mode_levels(info.mode));
    }
    let mut level: usize = info.level - 1;
    let ghost a0 = a;
    let va = vaddr.value();
    let len: u64 = if info.size_shift == 2 { 4 } else { 8 };
    let mut leaf_pte: Pte;
    let mut pte_addr: u64;
    loop
        invariant_except_break
            bus.space == s0,
            level < info.level,
            a <= 0xfff_ffff_ffff_f000u64,
            spec_descend(&s0, *m, *info, *vaddr, *opt, a0, info.level - 1)
                == spec_descend(&s0, *m, *info, *vaddr, *opt, a, level as int),
        invariant
            p.wf(),
            *info == spec_pte_info(p.s->0.satp),
            translating_mode(info.mode),
            info.level == mode_levels(info.mode),
            *vaddr == Vaddr::spec_new(info.mode, vaddr.spec_value()),
            va == vaddr.spec_value(),
            len == entry_len(*info),
            bus.space == s0,
            s0 == old(bus).space,
            a0 == walk_root(*p),
            bus.lock_table == old(bus).lock_table,
            *m == p.m,
            m.wf(),
        ensures
            level < info.level,
            spec_descend(&s0, *m, *info, *vaddr, *opt, a0, info.level - 1) == Ok::<(Pte, u64, int), Exception>((leaf_pte, pte_addr, level as int)),
            s0 == old(bus).space,
            a0 == walk_root(*p),
            leaf_pte == Pte::spec_new(info.mode, leaf_pte.spec_value()),
            pte_addr <= 0xfff_ffff_ffff_f000u64 + 0x1ff8,
        decreases level,
    {
        proof {
            lemma_vaddr_vpn_bound(*vaddr, level as int);
            let vp = vaddr.spec_vpn(level as int);
            let sh = info.size_shift as u64;
            assert(vp <= 0x3ff && sh <= 3 ==> vp << sh <= 0x1ff8) by (bit_vector);
        }
        pte_addr = a + (vaddr.vpn(level) << (info.size_shift as u64));
        if !check_pmp(m, pte_addr, len, &MmuOpt::Load, 1) {
            assert(spec_descend(&s0, *m, *info, *vaddr, *opt, a, level as int) == Err::<(Pte, u64, int), Exception>(opt.spec_access_exception(va)));
            return Err(opt.access_exception(va));
        }
        let pte = match Pte::load(info, bus, pte_addr) {
            Ok(pte) => pte,
            Err(_) => {
                assert(spec_descend(&s0, *m, *info, *vaddr, *opt, a, level as int) == Err::<(Pte, u64, int), Exception>(opt.spec_access_exception(va)));
                return Err(opt.access_exception(va));
            },
        };
        let attr = pte.attr();
        if attr.v() == 0 || attr.r() == 0 && attr.w() == 1 {
            return Err(opt.pagefault_exception(va));
        }
        if attr.r() == 1 || attr.x() == 1 {
            leaf_pte = pte;
            break;
        } else if level == 0 {
            return Err(opt.pagefault_exception(va));
        } else {
            proof {
                lemma_table_addr_bound(pte);
            }
            level = level - 1;
            a = pte.ppn_all() << 12u64;
        }
    }
    let attr = leaf_pte.attr();
    check_pte_privilege(m, va, &attr, opt, privilege)?;
    let mut l: usize = 0;
    while l < level
        invariant
            l <= level < info.level,
            info.level == mode_levels(info.mode),
            leaf_pte == Pte::spec_new(info.mode, leaf_pte.spec_value()),
            translating_mode(info.mode),
            forall|j: int| 0 <= j < l ==> #[trigger] leaf_pte.spec_ppn(j) == 0,
            bus.space == s0,
            s0 == old(bus).space,
            bus.lock_table == old(bus).lock_table,
            *m == p.m,
            va == vaddr.spec_value(),
            attr.0 == leaf_pte.spec_value() as u8,
            spec_pte_allows(m.mstatus.bits, attr.0, *opt, privilege),
            spec_descend(&s0, p.m, *info, *vaddr, *opt, walk_root(*p), info.level - 1)
                == Ok::<(Pte, u64, int), Exception>((leaf_pte, pte_addr, level as int)),
        decreases level - l,
    {
        if leaf_pte.ppn(l) != 0 {
            assert(!low_ppns_zero(leaf_pte, level as int));
            return Err(opt.pagefault_exception(va));
        }
        l = l + 1;
    }
    if attr.d() == 0 && *opt == MmuOpt::Store || attr.a() == 0 {
        if enable_dirty {
            let mut new_attr = leaf_pte.attr();
            new_attr.set_a(1);
            new_attr.set_d(if *opt == MmuOpt::Store { 1 } else { 0 });
            if !check_pmp(m, pte_addr, len, &MmuOpt::Store, 1) {
                return Err(opt.access_exception(va));
            }
            leaf_pte.set_attr(&new_attr);
            if leaf_pte.store(bus, pte_addr).is_err() {
                return Err(opt.access_exception(va));
            }
        } else {
            return Err(opt.pagefault_exception(va));
        }
    }
    Ok(Paddr::new(vaddr, &leaf_pte, info, level).value())
}

/// What `translate` does with the TLB entries `tlb` of the access kind:
/// the physical address or the fault, the page-table entry the walk writes
/// back, and the translation it caches (virtual and physical page).
pub open spec fn spec_translate<S: Space>(
    tlb: Seq<TLBEntry>, s: &S, p: PrivilegeStates, enable_dirty: bool, va: u64, len: u64, opt: MmuOpt,
) -> (Result<u64, Exception>, Option<(u64, Pte)>, Option<(u64, u64)>) {
    let privilege = spec_access_privilege(p, opt);
    if privilege == 3 || p.s is None {
        (Ok(va), None, None)
    } else {
        let info = spec_pte_info(p.s->0.satp);
        if info.mode == PTE_BARE {
            (Ok(va), None, None)
        } else {
            let vaddr = Vaddr::spec_new(info.mode, va);
            let vpn = vaddr.spec_vpn_all();
            match tlb_lookup(tlb, vpn) {
                Some(ppn) => (Ok((ppn << 12u64) | (va & 0xfff)), None, None),
                None => {
                    let (res, st) = spec_pt_walk(s, p, enable_dirty, vaddr, opt, privilege, info);
                    match res {
                        Err(e) => (Err(e), st, None),
                        Ok(pa) => {
                            if !spec_check_pmp(p.m, pa, len, opt, privilege) {
                                (Err(opt.spec_access_exception(va)), st, None)
                            } else {
                                (Ok(pa), st, Some((vpn, pa >> 12u64)))
                            }
                        },
                    }
                },
            }
        }
    }
}

/// Whether translating `va` walks the page tables (paging on, no cached
/// translation of its page) and the walk gives physical address 0.
pub open spec fn walks_to_zero<S: Space>(
    tlb: Seq<TLBEntry>, s: &S, p: PrivilegeStates, enable_dirty: bool, va: u64, opt: MmuOpt,
) -> bool {
    let privilege = spec_access_privilege(p, opt);
    let info = spec_pte_info(p.s->0.satp);
    let vaddr = Vaddr::spec_new(info.mode, va);
    &&& privilege != 3
    &&& p.s is Some
    &&& info.mode != PTE_BARE
    &&& tlb_lookup(tlb, vaddr.spec_vpn_all()) is None
    &&& spec_pt_walk(s, p, enable_dirty, vaddr, opt, privilege, info).0 == Ok::<u64, Exception>(0)
}

/// Whether `s1` is `s0` after the page-table walk wrote back `st` (an
/// entry of `len` bytes at its address), or `s0` itself when it wrote
/// nothing.
pub open spec fn walk_written<S: Space>(s0: &S, s1: &S, st: Option<(u64, Pte)>, len: nat) -> bool {
    match st {
        None => forall|x: u64| #[trigger] s1.spec_byte(x) == s0.spec_byte(x),
        Some((addr, pte)) => {
            &&& spec_read(s1, addr, len) == Some(pte.spec_value() & crate::processor::bus::byte_mask(len as u64))
            &&& forall|x: u64| (x < addr || x as int >= addr as int + len) ==> #[trigger] s1.spec_byte(x) == s0.spec_byte(x)
        },
    }
}

/// What a translation of `va` for an access of `len` bytes of kind `opt`
/// changes: the page-table entry the walk writes back (see
/// `walk_written`) and the TLB entry it caches; nothing else.
pub open spec fn translate_frame<S: Space>(
    m0: Mmu, m1: Mmu, b0: &Bus<S>, b1: &Bus<S>, p: PrivilegeStates, enable_dirty: bool, va: u64, len: u64, opt: MmuOpt,
) -> bool {
    let (res, st, fill) = spec_translate(m0.spec_tlb(opt).entries@, &b0.space, p, enable_dirty, va, len, opt);
    &&& m1.wf()
    &&& b1.lock_table == b0.lock_table
    &&& walk_written(&b0.space, &b1.space, st, entry_len(spec_pte_info(p.s->0.satp)))
    &&& fill is None ==> m1.spec_tlb(opt).entries@ == m0.spec_tlb(opt).entries@
    &&& fill matches Some((vpn, ppn)) ==> m1.spec_tlb(opt).entries@
        == m0.spec_tlb(opt).entries@.update(slot(vpn), TLBEntry { valid: true, vpn, ppn })
    &&& forall|o: MmuOpt| o != opt ==> #[trigger] m1.spec_tlb(o) == m0.spec_tlb(o)
}

/// The memory management unit of a hart: one TLB per kind of access.
pub struct Mmu {
    pub fetch_tlb: TLB,
    pub load_tlb: TLB,
    pub store_tlb: TLB,
}

impl Mmu {
    /// Well-formedness: every TLB is well formed.
    pub open spec fn wf(&self) -> bool {
        self.fetch_tlb.wf() && self.load_tlb.wf() && self.store_tlb.wf()
    }

    /// The TLB of the access kind `opt`.
    pub open spec fn spec_tlb(&self, opt: MmuOpt) -> TLB {
        match opt {
            MmuOpt::Fetch => self.fetch_tlb,
            MmuOpt::Load => self.load_tlb,
            MmuOpt::Store => self.store_tlb,
        }
    }

    /// A unit with empty TLBs.
    pub fn new() -> (r: Mmu)
        ensures
            r.wf(),
            forall|vpn: u64| #[trigger] r.fetch_tlb.spec_get(vpn) is None && r.load_tlb.spec_get(vpn) is None
                && r.store_tlb.spec_get(vpn) is None,
    {
        Mmu { fetch_tlb: TLB::new(), load_tlb: TLB::new(), store_tlb: TLB::new() }
    }

    /// Drops every cached translation.
    pub fn flush_tlb(&mut self)
        requires
            old(self).wf(),
        ensures
            final(self).wf(),
            forall|vpn: u64| #[trigger] final(self).fetch_tlb.spec_get(vpn) is None && final(self).load_tlb.spec_get(vpn) is None
                && final(self).store_tlb.spec_get(vpn) is None,
    {
        self.fetch_tlb.invalid_all();
        self.load_tlb.invalid_all();
        self.store_tlb.invalid_all();
    }

    /// Drops the cached translations of `vpn`.
    pub fn flush_by_vpn(&mut self, vpn: u64)
        requires
            old(self).wf(),
        ensures
            final(self).wf(),
            forall|o: MmuOpt| #[trigger] final(self).spec_tlb(o).spec_get(vpn) is None,
            forall|o: MmuOpt, v: u64| v != vpn ==> #[trigger] final(self).spec_tlb(o).spec_get(v) == old(self).spec_tlb(o).spec_get(v),
    {
        self.fetch_tlb.invalid_by_vpn(vpn);
        self.load_tlb.invalid_by_vpn(vpn);
        self.store_tlb.invalid_by_vpn(vpn);
    }

    /// Translates the virtual address `va` of an access of `len` bytes of
    /// kind `opt` (see `spec_translate`): machine-mode accesses and bare
    /// mode are not translated; a cached translation answers at once;
    /// otherwise the page tables are walked, PMP checks the result, and the
    /// translation is cached.
    pub fn translate<S: Space>(
        &mut self,
        bus: &mut Bus<S>,
        p: &PrivilegeStates,
        enable_dirty: bool,
        va: RegT,
        len: RegT,
        opt: MmuOpt,
    ) -> (r: Result<u64, Exception>)
        requires
            old(self).wf(),
            p.wf(),
            p.s is Some && spec_access_privilege(*p, opt) != 3 ==> supported_satp(p.s->0.satp),
            p.s is Some && spec_access_privilege(*p, opt) != 3 && spec_pte_info(p.s->0.satp).mode != PTE_BARE
                ==> len <= 0xff00_0000_0000_0001,
            len == 0 ==> !walks_to_zero(old(self).spec_tlb(opt).entries@, &old(bus).space, *p, enable_dirty, va, opt),
        ensures
            translate_frame(*old(self), *final(self), old(bus), final(bus), *p, enable_dirty, va, len, opt),
            r == spec_translate(old(self).spec_tlb(opt).entries@, &old(bus).space, *p, enable_dirty, va, len, opt).0,
    {
        let privilege = get_privileage(p, &opt);
        if privilege == 3 {
            return Ok(va);
        }
        if p.s.is_none() {
            return Ok(va);
        }
        let satp = p.s.unwrap().satp;
        let info = PteInfo::new(&satp);
        if info.mode == PTE_BARE {
            return Ok(va);
        }
        proof {
            crate::bits::lemma_field_of_bound(satp.bits, 31, 31);
            crate::bits::lemma_field_of_bound(satp.bits, 63, 60);
            crate::bits::lemma_mask_values();
        }
        let vaddr = Vaddr::new(info.mode, va);
        let vpn = vaddr.vpn_all();
        let cached = match opt {
            MmuOpt::Fetch => self.fetch_tlb.get_ppn(vpn),
            MmuOpt::Load => self.load_tlb.get_ppn(vpn),
            MmuOpt::Store => self.store_tlb.get_ppn(vpn),
        };
        if let Some(ppn) = cached {
            let pa = (ppn << 12u64) | vaddr.offset();
            return Ok(pa);
        }
        match pt_walk(bus, p, enable_dirty, &vaddr, &opt, privilege, &info) {
            Ok(pa) => {
                proof {
                    lemma_walk_pa_bound(&old(bus).space, *p, enable_dirty, vaddr, opt, privilege, info);
                }
                if !check_pmp(&p.m, pa, len, &opt, privilege) {
                    Err(opt.access_exception(va))
                } else {
                    match opt {
                        MmuOpt::Fetch => self.fetch_tlb.set_entry(vpn, pa >> 12u64),
                        MmuOpt::Load => self.load_tlb.set_entry(vpn, pa >> 12u64),
                        MmuOpt::Store => self.store_tlb.set_entry(vpn, pa >> 12u64),
                    }
                    Ok(pa)
                }
            },
            Err(e) => Err(e),
        }
    }
}

/// A translated address has at most 56 bits.
pub proof fn lemma_walk_pa_bound<S: Space>(
    s: &S, p: PrivilegeStates, enable_dirty: bool, vaddr: Vaddr, opt: MmuOpt, privilege: u8, info: PteInfo,
)
    ensures
        spec_pt_walk(s, p, enable_dirty, vaddr, opt, privilege, info).0 matches Ok(pa) ==> pa <= 0xff_ffff_ffff_ffffu64,
{
    let r = spec_pt_walk(s, p, enable_dirty, vaddr, opt, privilege, info).0;
    if let Ok(pa) = r {
        assert forall|y: u64| (y & 0x3_ffff_ffffu64) <= 0xff_ffff_ffff_ffffu64 && (y & 0xff_ffff_ffff_ffffu64) <= 0xff_ffff_ffff_ffffu64 by {
            crate::bits::lemma_and_bound(y, 0x3_ffff_ffffu64);
            crate::bits::lemma_and_bound(y, 0xff_ffff_ffff_ffffu64);
        }
    }
}

/// What a lookup gives back of a fill: once a translation has cached page
/// `vpn` as physical page `ppn`, every later access of the same kind to an
/// address in that page translates to `ppn` with the address's own offset
/// (while paging stays on and the access is not machine-mode).
pub proof fn lemma_translate_after_fill<S: Space>(
    tlb: Seq<TLBEntry>, s: &S, p: PrivilegeStates, enable_dirty: bool, va: u64, len: u64, opt: MmuOpt, ppn: u64,
)
    requires
        tlb.len() == 256,
        spec_access_privilege(p, opt) != 3,
        p.s is Some,
        spec_pte_info(p.s->0.satp).mode != PTE_BARE,
    ensures
        ({
            let vpn = Vaddr::spec_new(spec_pte_info(p.s->0.satp).mode, va).spec_vpn_all();
            let filled = tlb.update(slot(vpn), TLBEntry { valid: true, vpn, ppn });
            spec_translate(filled, s, p, enable_dirty, va, len, opt).0 == Ok::<u64, Exception>((ppn << 12u64) | (va & 0xfff))
        }),
{
    let vpn = Vaddr::spec_new(spec_pte_info(p.s->0.satp).mode, va).spec_vpn_all();
    tlb::lemma_tlb_get_after_set(tlb, vpn, ppn, vpn);
}


/// A page-table walk keeps the offset of the address in its page.
pub proof fn lemma_walk_offset<S: Space>(
    s: &S, p: PrivilegeStates, enable_dirty: bool, vaddr: Vaddr, opt: MmuOpt, privilege: u8, info: PteInfo,
)
    ensures
        spec_pt_walk(s, p, enable_dirty, vaddr, opt, privilege, info).0 matches Ok(pa)
            ==> pa & 0xfff == vaddr.spec_value() & 0xfff,
{
    if let Ok((leaf, pte_addr, level)) = spec_descend(s, p.m, info, vaddr, opt, walk_root(p), info.level - 1) {
        let attr = leaf.spec_value() as u8;
        pte::lemma_paddr_offset(vaddr, leaf, level, info.level as int);
        pte::lemma_paddr_offset(vaddr, leaf.spec_set_attr(PteAttr(updated_attr(attr, opt))), level, info.level as int);
    }
}

/// A translation answers the same when asked again: when translating `va`
/// gives `pa`, translating `va` again for the same kind of access, from
/// the unit and memory the first translation left, gives `pa` again; and
/// `pa` keeps `va`'s offset in its page.
pub proof fn lemma_translate_again<S: Space>(
    m0: Mmu, m1: Mmu, b0: &Bus<S>, b1: &Bus<S>, p: PrivilegeStates, enable_dirty: bool, va: u64, len: u64, opt: MmuOpt,
)
    requires
        m0.wf(),
        translate_frame(m0, m1, b0, b1, p, enable_dirty, va, len, opt),
        spec_translate(m0.spec_tlb(opt).entries@, &b0.space, p, enable_dirty, va, len, opt).0 is Ok,
    ensures
        ({
            let pa = spec_translate(m0.spec_tlb(opt).entries@, &b0.space, p, enable_dirty, va, len, opt).0->Ok_0;
            &&& spec_translate(m1.spec_tlb(opt).entries@, &b1.space, p, enable_dirty, va, len, opt).0 == Ok::<u64, Exception>(pa)
            &&& pa & 0xfff == va & 0xfff
        }),
{
    let t0 = m0.spec_tlb(opt).entries@;
    let pa = spec_translate(t0, &b0.space, p, enable_dirty, va, len, opt).0->Ok_0;
    let privilege = spec_access_privilege(p, opt);
    if privilege == 3 || p.s is None {
    } else {
        let info = spec_pte_info(p.s->0.satp);
        if info.mode != PTE_BARE {
            let vaddr = Vaddr::spec_new(info.mode, va);
            let vpn = vaddr.spec_vpn_all();
            assert(vaddr.spec_value() == va);
            match tlb_lookup(t0, vpn) {
                Some(ppn) => {
                    pte::lemma_offset_bits(va, ppn);
                },
                None => {
                    lemma_walk_offset(&b0.space, p, enable_dirty, vaddr, opt, privilege, info);
                    tlb::lemma_tlb_get_after_set(t0, vpn, pa >> 12u64, vpn);
                    pte::lemma_offset_bits(pa, va);
                },
            }
        }
    }
}

/// The bits of page-table attributes and PMP configurations as the
/// permission checks read them.
proof fn lemma_perm_bits(a: u8, m: u64)
    by (bit_vector)
    ensures
        ((a >> 1u8) & 1 == 1) == (a & 0x02 != 0),
        ((a >> 2u8) & 1 == 1) == (a & 0x04 != 0),
        ((a >> 3u8) & 1 == 1) == (a & 0x08 != 0),
        ((a >> 4u8) & 1 == 1) == (a & 0x10 != 0),
        ((a >> 7u8) & 1 == 0) == (a & 0x80 == 0),
        (a & 1 == 1) == (a & 0x01 != 0),
        (((m >> 18) & 1) == 1) == (m & 0x4_0000 != 0),
        (((m >> 19) & 1) == 1) == (m & 0x8_0000 != 0),
{
}

/// The permission rule of a page-table leaf with attributes `attr`, for
/// an access of kind `opt` at `privilege` (1 is supervisor, any other level
/// that walks the tables is user) under `mstatus`: supervisor mode reads
/// or writes a user page (`U`) only with `mstatus.SUM` set and never
/// executes one; user mode touches only user pages; a load needs `R` (or
/// `X` with `mstatus.MXR`), a store needs `R` and `W`, a fetch needs `X`.
pub proof fn lemma_pte_permissions(mstatus: u64, attr: u8, opt: MmuOpt, privilege: u8)
    ensures
        spec_pte_allows(mstatus, attr, opt, privilege) <==> {
            let u = attr & 0x10 != 0;
            let sum = mstatus & 0x4_0000 != 0;
            let mxr = mstatus & 0x8_0000 != 0;
            &&& privilege == 1 && u ==> opt != MmuOpt::Fetch && sum
            &&& privilege != 1 ==> u
            &&& match opt {
                MmuOpt::Fetch => attr & 0x08 != 0,
                MmuOpt::Load => attr & 0x02 != 0 || (mxr && attr & 0x08 != 0),
                MmuOpt::Store => attr & 0x02 != 0 && attr & 0x04 != 0,
            }
        },
{
    lemma_perm_bits(attr, mstatus);
    crate::bits::lemma_mask_values();
    assert(field_of(mstatus, 18, 18) == (mstatus >> 18) & 1);
    assert(field_of(mstatus, 19, 19) == (mstatus >> 19) & 1);
}

/// The PMP rule: with a first matching entry (among entries 0 to 14), an
/// access passes when the entry grants its kind (`R` for loads, `W` for
/// stores, `X` for fetches), or when machine mode meets an unlocked entry;
/// any other level is refused by an entry that does not grant the access,
/// and so is machine mode by a locked one. With no matching entry only
/// machine mode passes.
pub proof fn lemma_pmp_rule(m: PrivM, addr: u64, len: u64, opt: MmuOpt, privilege: u8)
    ensures
        spec_check_pmp(m, addr, len, opt, privilege) == match first_match_from(m, addr, len, 0) {
            Some(i) => {
                let cfg = spec_cfg_entry(m, i);
                let granted = match opt {
                    MmuOpt::Load => cfg & 0x01 != 0,
                    MmuOpt::Store => cfg & 0x02 != 0,
                    MmuOpt::Fetch => cfg & 0x04 != 0,
                };
                granted || (privilege == 3 && cfg & 0x80 == 0)
            },
            None => privilege == 3,
        },
{
    if let Some(i) = first_match_from(m, addr, len, 0) {
        lemma_perm_bits(spec_cfg_entry(m, i), 0);
    }
}

/// The bits the walker writes back: accessed set, dirty set for a store
/// and clear otherwise, the other attribute bits kept.
proof fn lemma_updated_attr_bits(a: u8, store: bool)
    by (bit_vector)
    ensures
        ({
            let d: u8 = if store { 1 } else { 0 };
            let n = ((d & 1) << 7u8) | ((((1u8 & 1) << 6u8) | (a & 0xbf)) & 0x7f);
            &&& n & 0x40 != 0
            &&& (n & 0x80 != 0) == store
            &&& n & 0x3f == a & 0x3f
        }),
        ((a >> 0u8) & 1 == 0) == (a & 0x01 == 0),
        ((a >> 1u8) & 1 == 0) == (a & 0x02 == 0),
{
}

/// The shape rules of the page-table walk: an entry is invalid when `V` is
/// clear or it is writable without being readable; a valid entry is a leaf
/// when it is readable or executable, and points to the next table
/// otherwise. The entry the walker writes back has `A` set, `D` set
/// exactly for a store, and every other attribute bit as it was.
pub proof fn lemma_walk_entry_rules(attr: u8, opt: MmuOpt)
    ensures
        pte_invalid(attr) == (attr & 0x01 == 0 || (attr & 0x02 == 0 && attr & 0x04 != 0)),
        pte_leaf(attr) == (attr & 0x02 != 0 || attr & 0x08 != 0),
        updated_attr(attr, opt) & 0x40 != 0,
        (updated_attr(attr, opt) & 0x80 != 0) == (opt == MmuOpt::Store),
        updated_attr(attr, opt) & 0x3f == attr & 0x3f,
{
    lemma_perm_bits(attr, 0);
    lemma_updated_attr_bits(attr, opt == MmuOpt::Store);
}

} // verus!
