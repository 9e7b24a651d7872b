use terminus::global::XLen;
use terminus::processor::privilege::csrs::{Cause, Status, Tvec};
use terminus::processor::privilege::{Privilege, PrivilegeStates};
use terminus::processor::ProcessorCfg;

#[test]
fn csrs_test_status() {
    let mut status = Status::new(32, 0);
    status.set_xs(0xf);
    assert_eq!(status.xs(), 0x3);
    status.set_xs(0);
    assert_eq!(status.xs(), 0);
}

#[test]
fn status_push_then_pop_privilege() {
    let mut status = Status::new(64, 0);
    status.set_mie(1);
    status.push_privilege(&Privilege::M, &Privilege::S);
    assert_eq!(status.mie(), 0);
    assert_eq!(status.mpie(), 1);
    assert_eq!(status.mpp(), 1);
    let back = status.pop_privilege(&Privilege::M);
    assert_eq!(back, Privilege::S);
    assert_eq!(status.mie(), 1);
    assert_eq!(status.mpie(), 1);
}

#[test]
fn status_push_to_s_records_spp() {
    let mut status = Status::new(64, 0);
    status.set_sie(1);
    status.push_privilege(&Privilege::S, &Privilege::U);
    assert_eq!(status.sie(), 0);
    assert_eq!(status.spie(), 1);
    assert_eq!(status.spp(), 0);
    let back = status.pop_privilege(&Privilege::S);
    assert_eq!(back, Privilege::U);
    assert_eq!(status.sie(), 1);
}

#[test]
fn status_field_widths() {
    let mut status = Status::new(64, 0);
    status.set_mpp(7);
    assert_eq!(status.mpp(), 3);
    status.set_fs(3);
    assert_eq!(status.fs(), 3);
    assert_eq!(status.get(), (3 << 11) | (3 << 13));
}

#[test]
fn tvec_vectored_interrupts() {
    let mut tvec = Tvec { xlen: XLen::X64, bits: 0 };
    tvec.set_base(0x8000_0000 >> 2);
    tvec.set_mode(1);
    assert_eq!(tvec.get_trap_pc(7, true), 0x8000_0000 + 4 * 7);
    assert_eq!(tvec.get_trap_pc(2, false), 0x8000_0000);
    assert_eq!(tvec.get_trap_pc(40, true), 0x8000_0000 + 4 * 40);
    tvec.set_mode(0);
    assert_eq!(tvec.get_trap_pc(7, true), 0x8000_0000);
}

#[test]
fn cause_interrupt_bit() {
    let mut c64 = Cause { xlen: XLen::X64, bits: 0 };
    c64.set_cause(7, true);
    assert_eq!(c64.get(), (1u64 << 63) | 7);
    c64.set_cause(2, false);
    assert_eq!(c64.get(), 2);
    let mut c32 = Cause { xlen: XLen::X32, bits: 0 };
    c32.set_cause(11, true);
    assert_eq!(c32.get(), (1u64 << 31) | 11);
}

fn privilege_states(xlen: XLen, exts: Vec<char>) -> PrivilegeStates {
    let cfg = ProcessorCfg { xlen, enable_dirty: true, extensions: exts, freq: 1 };
    PrivilegeStates::new(&cfg)
}

#[test]
fn sstatus_hides_machine_fields() {
    let mut p = privilege_states(XLen::X64, vec!['i', 's', 'u']);
    // mie, mpie, mpp, mprv, tvm, tw, tsr and sie, spp set through mstatus
    let all: u64 = (1 << 3) | (1 << 7) | (3 << 11) | (1 << 17) | (7 << 20) | (1 << 1) | (1 << 8);
    assert_eq!(p.csr_write(0x300, all, 0), Some(()));
    let m = p.csr_read(0x300).unwrap();
    assert_eq!(m & all, all);
    let s = p.csr_read(0x100).unwrap();
    assert_eq!(s & ((1 << 3) | (1 << 7) | (3 << 11) | (1 << 17) | (7 << 20) | (3 << 34)), 0);
    assert_eq!(s & ((1 << 1) | (1 << 8)), (1 << 1) | (1 << 8));
}

#[test]
fn mstatus_fixed_fields_follow_the_levels() {
    let mut m_only = privilege_states(XLen::X64, vec!['i']);
    assert_eq!((m_only.csr_read(0x300).unwrap() >> 11) & 3, 3);
    m_only.csr_write(0x300, (1 << 21) | (1 << 20) | (1 << 22), 0);
    let b = m_only.csr_read(0x300).unwrap();
    assert_eq!((b >> 11) & 3, 3);
    assert_eq!((b >> 20) & 7, 0);

    let mut mu = privilege_states(XLen::X64, vec!['i', 'u']);
    mu.csr_write(0x300, 1 << 11, 0);
    assert_eq!((mu.csr_read(0x300).unwrap() >> 11) & 3, 3);
    mu.csr_write(0x300, 0, 0);
    assert_eq!((mu.csr_read(0x300).unwrap() >> 11) & 3, 0);
    mu.csr_write(0x300, 1 << 21, 0);
    assert_eq!((mu.csr_read(0x300).unwrap() >> 21) & 1, 1);
}

#[test]
fn instret_follows_the_count() {
    let mut p = privilege_states(XLen::X32, vec!['i', 's', 'u']);
    p.delegate_insns_cnt(0x1_2345_6789);
    assert_eq!(p.csr_read(0xb02), Some(0x2345_6789));
    assert_eq!(p.csr_read(0xb82), Some(1));
    p.csr_write(0x306, 5, 0);
    p.set_priv(Privilege::S);
    p.csr_write(0x106, 5, 0);
    p.set_priv(Privilege::U);
    assert_eq!(p.csr_read(0xc02), p.csr_read(0xb02));
    assert_eq!(p.csr_read(0xc82), p.csr_read(0xb82));
}

#[test]
fn status_supervisor_view_reads_machine_fields_as_zero() {
    let mut status = Status::new(64, 0);
    status.set_mie(1);
    status.as_s_priv();
    assert_eq!(status.mie(), 0);
    status.set_mie(1);
    status.set_mpp(3);
    status.set_tsr(1);
    assert_eq!(status.mie(), 0);
    assert_eq!(status.mpp(), 0);
    assert_eq!(status.tsr(), 0);
    assert_eq!(status.sxl(), 0);
    status.set_sie(1);
    assert_eq!(status.sie(), 1);
}

#[test]
fn misa_holds_every_configured_extension() {
    let cfg = ProcessorCfg { xlen: XLen::X64, enable_dirty: true, extensions: vec!['i', 'm', 'a', 'c', 's', 'u'], freq: 1 };
    let mut p = PrivilegeStates::new(&cfg);
    p.init_isa(5, &cfg);
    for e in ['i', 'm', 'a', 'c', 's', 'u'] {
        assert_eq!(p.check_extension(e), Ok(()));
    }
    assert_eq!(p.check_extension('f'), Err(()));
    assert_eq!(p.csr_read(0x301).unwrap() >> 62, 2);
    assert_eq!(p.csr_read(0xf14), Some(5));
}
