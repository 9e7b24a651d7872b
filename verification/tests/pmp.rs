use terminus::bits::set_bit_range;
use terminus::global::XLen;
use terminus::processor::mmu::pmp::{match_pmpcfg_entry, PmpAType};
use terminus::processor::privilege::m::PrivM;
use terminus::processor::ProcessorCfg;

fn cfg32() -> ProcessorCfg {
    ProcessorCfg { xlen: XLen::X32, enable_dirty: true, extensions: vec![], freq: 1000000000 }
}

#[test]
fn mod_pmp_basic_test() {
    let mut m = PrivM::new(&cfg32());
    //no valid region
    assert_eq!(match_pmpcfg_entry(&m, 0, 1), None);
    //NA4
    m.pmpcfg0 = set_bit_range(m.pmpcfg0, 4, 3, PmpAType::NA4.value() as u64);
    m.set_pmpaddr(0, 0x8000_0000 >> 2);
    assert!(match_pmpcfg_entry(&m, 0x8000_0000, 4).is_some());
    assert!(match_pmpcfg_entry(&m, 0x8000_0000, 5).is_none());

    //NAPOT
    m.pmpcfg3 = set_bit_range(m.pmpcfg3, 4, 3, PmpAType::NAPOT.value() as u64);
    m.set_pmpaddr(12, (0x2000_0000 + 0x1_0000 - 1) >> 2);
    assert!(match_pmpcfg_entry(&m, 0x2000_0000, 4).is_some());
    assert!(match_pmpcfg_entry(&m, 0x2000_ffff, 1).is_some());
    assert!(match_pmpcfg_entry(&m, 0x2000_ffff, 2).is_none());
    assert_eq!(match_pmpcfg_entry(&m, 0x2000_ffff, 1), match_pmpcfg_entry(&m, 0x2000_0000, 4));
    assert_eq!(match_pmpcfg_entry(&m, 0x1000_ffff, 1), None);
    assert_eq!(match_pmpcfg_entry(&m, 0x2001_0000, 4), None);
    //TOR
    m.pmpcfg3 = set_bit_range(m.pmpcfg3, 12, 11, PmpAType::TOR.value() as u64);
    m.set_pmpaddr(13, (0x2000_0000 + 0x1_0000) >> 2);
    m.pmpcfg3 = set_bit_range(m.pmpcfg3, 20, 19, PmpAType::TOR.value() as u64);
    m.set_pmpaddr(14, (0x2000_0000 + 0x2_0000) >> 2);
    assert!(match_pmpcfg_entry(&m, 0x2001_0000, 4).is_some());
    assert!(match_pmpcfg_entry(&m, 0x2001_ffff, 1).is_some());
    assert!(match_pmpcfg_entry(&m, 0x2001_ffff, 2).is_none());
    assert_eq!(match_pmpcfg_entry(&m, 0x2002_0000, 4), None);
    m.pmpcfg3 = set_bit_range(m.pmpcfg3, 23, 23, 1);
    assert!(match_pmpcfg_entry(&m, 0x2001_0000, 4).is_some());
}

#[test]
fn pmp_matched_entry_carries_its_config() {
    let mut m = PrivM::new(&cfg32());
    // entry 1: NA4, readable and locked
    m.pmpcfg0 = set_bit_range(m.pmpcfg0, 15, 8, 0x80 | (2 << 3) | 1);
    m.set_pmpaddr(1, 0x1000 >> 2);
    let e = match_pmpcfg_entry(&m, 0x1000, 4).unwrap();
    assert_eq!(e.r(), 1);
    assert_eq!(e.w(), 0);
    assert_eq!(e.l(), 1);
    assert_eq!(e.a(), 2);
    assert_eq!(PmpAType::from(e.a()), PmpAType::NA4);
}
