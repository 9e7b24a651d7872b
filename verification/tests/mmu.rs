use terminus::global::XLen;
use terminus::processor::bus::{Bus, Ram};
use terminus::processor::decode::InsnKind;
use terminus::processor::bus::AmoOp;
use terminus::processor::fetcher::ICache;
use terminus::processor::load_store::{amo_word, load_byte, load_double_word, load_half_word, load_word, store_half_word, store_word};
use terminus::processor::mmu::{check_pmp, Mmu, MmuOpt};
use terminus::processor::privilege::{Privilege, PrivilegeStates};
use terminus::processor::trap::Exception;
use terminus::processor::state::ProcessorState;
use terminus::processor::ProcessorCfg;

const V: u64 = 1;
const R: u64 = 2;
const W: u64 = 4;
const X: u64 = 8;
const A: u64 = 0x40;
const D: u64 = 0x80;

fn pte(ppn: u64, flags: u64) -> u64 {
    (ppn << 10) | flags
}

/// A supervisor-mode hart with Sv39 rooted at 0x1000, every address allowed
/// by PMP, and a bus with tables mapping the page at 0x5000 to 0x10000.
fn setup(leaf_flags: u64) -> (PrivilegeStates, Bus<Ram>) {
    let cfg = ProcessorCfg { xlen: XLen::X64, enable_dirty: true, extensions: vec!['i', 's', 'u'], freq: 1 };
    let mut p = PrivilegeStates::new(&cfg);
    p.m.pmpcfg0 = 0x1f;
    p.m.set_pmpaddr(0, 0x3f_ffff_ffff_ffff);
    if let Some(s) = p.s.as_mut() {
        s.satp.bits = (8u64 << 60) | 1;
    }
    p.set_priv(Privilege::S);
    let mut bus = Bus::new(Ram::new(0, 0x20000));
    bus.write(0x1000, 8, pte(2, V)).unwrap();
    bus.write(0x2000, 8, pte(3, V)).unwrap();
    bus.write(0x3000 + 5 * 8, 8, pte(0x10, leaf_flags)).unwrap();
    (p, bus)
}

#[test]
fn sv39_walk_translates() {
    let (p, mut bus) = setup(V | R | W | X | A | D);
    let mut mmu = Mmu::new();
    assert_eq!(mmu.translate(&mut bus, &p, true, 0x5123, 4, MmuOpt::Load), Ok(0x10123));
    assert_eq!(mmu.translate(&mut bus, &p, true, 0x5ff8, 8, MmuOpt::Store), Ok(0x10ff8));
}

#[test]
fn unmapped_page_faults() {
    let (p, mut bus) = setup(V | R | W | X | A | D);
    let mut mmu = Mmu::new();
    assert_eq!(mmu.translate(&mut bus, &p, true, 0x6000, 4, MmuOpt::Load), Err(Exception::LoadPageFault(0x6000)));
    assert_eq!(mmu.translate(&mut bus, &p, true, 0x6000, 4, MmuOpt::Store), Err(Exception::StorePageFault(0x6000)));
    assert_eq!(mmu.translate(&mut bus, &p, true, 0x6000, 4, MmuOpt::Fetch), Err(Exception::FetchPageFault(0x6000)));
}

#[test]
fn write_to_read_only_page_faults() {
    let (p, mut bus) = setup(V | R | A | D);
    let mut mmu = Mmu::new();
    assert_eq!(mmu.translate(&mut bus, &p, true, 0x5000, 4, MmuOpt::Load), Ok(0x10000));
    assert_eq!(mmu.translate(&mut bus, &p, true, 0x5000, 4, MmuOpt::Store), Err(Exception::StorePageFault(0x5000)));
}

#[test]
fn walker_sets_accessed_and_dirty() {
    let (p, mut bus) = setup(V | R | W);
    let mut mmu = Mmu::new();
    assert_eq!(mmu.translate(&mut bus, &p, true, 0x5000, 4, MmuOpt::Store), Ok(0x10000));
    assert_eq!(bus.read(0x3000 + 5 * 8, 8), Ok(pte(0x10, V | R | W | A | D)));
}

#[test]
fn clear_accessed_bit_faults_without_dirty_update() {
    let (p, mut bus) = setup(V | R | W);
    let mut mmu = Mmu::new();
    assert_eq!(mmu.translate(&mut bus, &p, false, 0x5000, 4, MmuOpt::Load), Err(Exception::LoadPageFault(0x5000)));
}

#[test]
fn cached_translation_is_used_until_flushed() {
    let (p, mut bus) = setup(V | R | W | X | A | D);
    let mut mmu = Mmu::new();
    assert_eq!(mmu.translate(&mut bus, &p, true, 0x5010, 4, MmuOpt::Load), Ok(0x10010));
    // remap the page in memory: the TLB still answers the old frame
    bus.write(0x3000 + 5 * 8, 8, pte(0x11, V | R | W | X | A | D)).unwrap();
    assert_eq!(mmu.translate(&mut bus, &p, true, 0x5010, 4, MmuOpt::Load), Ok(0x10010));
    mmu.flush_by_vpn(0x5);
    assert_eq!(mmu.translate(&mut bus, &p, true, 0x5010, 4, MmuOpt::Load), Ok(0x11010));
    mmu.flush_tlb();
    assert_eq!(mmu.translate(&mut bus, &p, true, 0x5010, 4, MmuOpt::Load), Ok(0x11010));
}

#[test]
fn machine_mode_is_not_translated() {
    let (mut p, mut bus) = setup(V | R | W | X | A | D);
    p.set_priv(Privilege::M);
    let mut mmu = Mmu::new();
    assert_eq!(mmu.translate(&mut bus, &p, true, 0x5123, 4, MmuOpt::Load), Ok(0x5123));
}

#[test]
fn icache_get_after_set() {
    let mut c = ICache::new(16);
    assert_eq!(c.get_insn(0x100), None);
    c.set_entry(0x100, 0x13, InsnKind::ADDI);
    assert_eq!(c.get_insn(0x100), Some((0x13, InsnKind::ADDI)));
    c.invalid_by_vpn(0);
    assert_eq!(c.get_insn(0x100), None);
    c.set_entry(0x102, 0x4501, InsnKind::CLI);
    c.invalid_all();
    assert_eq!(c.get_insn(0x102), None);
}

#[test]
fn sized_loads_and_stores_through_the_mmu() {
    let (p, mut bus) = setup(V | R | W | X | A | D);
    let cfg = ProcessorCfg { xlen: XLen::X64, enable_dirty: true, extensions: vec!['i', 's', 'u'], freq: 1 };
    let mut s = ProcessorState::new(0, cfg);
    s.privilege = p;
    let mut mmu = Mmu::new();
    assert_eq!(store_word(&s, &mut mmu, &mut bus, 0x5010, 0x1122_3344_8899_aabb), Ok(()));
    assert_eq!(bus.read(0x10010, 4), Ok(0x8899_aabb));
    assert_eq!(load_word(&s, &mut mmu, &mut bus, 0x5010), Ok(0x8899_aabb));
    assert_eq!(load_half_word(&s, &mut mmu, &mut bus, 0x5012), Ok(0x8899));
    assert_eq!(load_byte(&s, &mut mmu, &mut bus, 0x5013), Ok(0x88));
    assert_eq!(load_word(&s, &mut mmu, &mut bus, 0x5012), Err(Exception::LoadMisaligned(0x5012)));
    assert_eq!(store_half_word(&s, &mut mmu, &mut bus, 0x5011, 1), Err(Exception::StoreMisaligned(0x5011)));
    assert_eq!(load_double_word(&s, &mut mmu, &mut bus, 0x6000), Err(Exception::LoadPageFault(0x6000)));
    assert_eq!(amo_word(&s, &mut mmu, &mut bus, 0x5010, AmoOp::Add, 5), Ok(0x8899_aabb));
    assert_eq!(load_word(&s, &mut mmu, &mut bus, 0x5010), Ok(0x8899_aac0));
}

#[test]
fn second_translation_gives_the_same_address() {
    let (p, mut bus) = setup(V | R | W | X);
    let mut mmu = Mmu::new();
    let first = mmu.translate(&mut bus, &p, true, 0x5abc, 4, MmuOpt::Load);
    assert_eq!(first, Ok(0x10abc));
    assert_eq!(first.unwrap() & 0xfff, 0x5abc & 0xfff);
    assert_eq!(mmu.translate(&mut bus, &p, true, 0x5abc, 4, MmuOpt::Load), first);
}

#[test]
fn empty_access_is_answered() {
    let cfg = ProcessorCfg { xlen: XLen::X64, enable_dirty: true, extensions: vec!['i', 's', 'u'], freq: 1 };
    let p = PrivilegeStates::new(&cfg);
    let mut bus = Bus::new(Ram::new(0, 0x100));
    let mut mmu = Mmu::new();
    // machine mode: no translation, whatever the length
    assert_eq!(mmu.translate(&mut bus, &p, true, 0x1234, 0, MmuOpt::Load), Ok(0x1234));
    // no PMP entry is configured: only machine mode passes
    assert!(check_pmp(&p.m, 0x1235, 0, &MmuOpt::Load, 3));
    assert!(!check_pmp(&p.m, 0x1235, 0, &MmuOpt::Load, 1));
}
