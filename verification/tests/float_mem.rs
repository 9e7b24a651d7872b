use terminus::global::XLen;
use terminus::processor::bus::{Bus, Ram};
use terminus::processor::cpu::Processor;
use terminus::processor::exec_mem::{FStore, FSD, FSW};
use terminus::processor::ProcessorCfg;

const BASE: u64 = 0x1000;

fn i_type(op: u32, f3: u32, rd: u32, rs1: u32, imm: i32) -> u32 {
    (((imm as u32) & 0xfff) << 20) | (rs1 << 15) | (f3 << 12) | (rd << 7) | op
}
fn s_type(op: u32, f3: u32, rs1: u32, rs2: u32, imm: i32) -> u32 {
    let imm = (imm as u32) & 0xfff;
    ((imm >> 5) << 25) | (rs2 << 20) | (rs1 << 15) | (f3 << 12) | ((imm & 0x1f) << 7) | op
}
fn lui(rd: u32, imm20: u32) -> u32 { (imm20 << 12) | (rd << 7) | 0x37 }
fn addi(rd: u32, rs1: u32, imm: i32) -> u32 { i_type(0x13, 0, rd, rs1, imm) }
fn csrrs(rd: u32, csr: u32, rs1: u32) -> u32 { (csr << 20) | (rs1 << 15) | (2 << 12) | (rd << 7) | 0x73 }
fn csrrw(rd: u32, csr: u32, rs1: u32) -> u32 { (csr << 20) | (rs1 << 15) | (1 << 12) | (rd << 7) | 0x73 }

fn hart(exts: Vec<char>, program: &[u32]) -> (Processor, Bus<Ram>) {
    let cfg = ProcessorCfg { xlen: XLen::X64, enable_dirty: true, extensions: exts, freq: 1000 };
    let mut p = Processor::new(0, cfg);
    let mut bus = Bus::new(Ram::new(BASE, 0x10000));
    for (i, w) in program.iter().enumerate() {
        bus.write(BASE + 4 * i as u64, 4, *w as u64).unwrap();
    }
    p.reset(&mut bus, BASE).unwrap();
    (p, bus)
}

#[test]
fn fstore_operands() {
    // fsw f7, -4(x5)
    let w = s_type(0x27, 2, 5, 7, -4);
    assert_eq!(FSW.offset(w), (-4i64) as u64);
    assert_eq!(FSW.src(w), 7);
    let w = s_type(0x27, 3, 1, 31, 0x7ff);
    assert_eq!(FSD.offset(w), 0x7ff);
    assert_eq!(FSD.src(w), 31);
}

#[test]
fn flw_boxes_and_fsw_stores_low_bits() {
    let program = [
        lui(5, 3),
        addi(6, 0, 0x123),
        s_type(0x23, 2, 5, 6, 0),
        lui(7, 2),
        csrrs(0, 0x300, 7),
        i_type(0x07, 2, 1, 5, 0),
        s_type(0x27, 2, 5, 1, 8),
        i_type(0x03, 3, 8, 5, 8),
    ];
    let (mut p, mut bus) = hart(vec!['i', 'f', 'd'], &program);
    assert!(p.step(&mut bus, 8));
    assert_eq!(p.state().freg(1), 0xffff_ffff_0000_0123);
    assert_eq!(bus.read(0x3008, 4), Ok(0x123));
    assert_eq!(p.state().xreg(8), 0x123);
}

#[test]
fn fld_fsd_round_trip() {
    let program = [
        lui(5, 3),
        addi(6, 0, -2),
        s_type(0x23, 3, 5, 6, 0),
        lui(7, 2),
        csrrs(0, 0x300, 7),
        i_type(0x07, 3, 2, 5, 0),
        s_type(0x27, 3, 5, 2, 16),
    ];
    let (mut p, mut bus) = hart(vec!['i', 'f', 'd'], &program);
    assert!(p.step(&mut bus, 7));
    assert_eq!(p.state().freg(2), 0xffff_ffff_ffff_fffe);
    assert_eq!(bus.read(0x3010, 8), Ok(0xffff_ffff_ffff_fffe));
}

#[test]
fn float_access_without_fs_is_illegal() {
    let program = [lui(5, 2), csrrw(0, 0x305, 5), i_type(0x07, 2, 1, 5, 0)];
    let (mut p, mut bus) = hart(vec!['i', 'f', 'd'], &program);
    assert!(p.step(&mut bus, 3));
    assert_eq!(p.state().csr(0x342), Ok(2));
    assert_eq!(p.state().next_pc(), 0x2000);
}

#[test]
fn fld_needs_d() {
    let program = [lui(5, 2), csrrw(0, 0x305, 5), lui(7, 2), csrrs(0, 0x300, 7), i_type(0x07, 3, 1, 5, 0)];
    let (mut p, mut bus) = hart(vec!['i', 'f'], &program);
    assert!(p.step(&mut bus, 5));
    assert_eq!(p.state().csr(0x342), Ok(2));
}

fn r_float(f7: u32, f3: u32, rd: u32, rs1: u32, rs2: u32) -> u32 {
    (f7 << 25) | (rs2 << 20) | (rs1 << 15) | (f3 << 12) | (rd << 7) | 0x53
}

#[test]
fn sign_injection_and_moves() {
    let program = [
        lui(7, 2),
        csrrs(0, 0x300, 7),
        lui(6, 0x3f800),
        r_float(0x78, 0, 1, 6, 0),
        r_float(0x10, 1, 2, 1, 1),
        r_float(0x70, 0, 8, 2, 0),
        r_float(0x79, 0, 3, 8, 0),
        r_float(0x11, 2, 4, 3, 3),
        r_float(0x71, 0, 10, 4, 0),
        r_float(0x10, 0, 5, 4, 4),
    ];
    let (mut p, mut bus) = hart(vec!['i', 'f', 'd'], &program);
    assert!(p.step(&mut bus, 10));
    assert_eq!(p.state().freg(1), 0xffff_ffff_3f80_0000);
    assert_eq!(p.state().freg(2), 0xffff_ffff_bf80_0000);
    assert_eq!(p.state().xreg(8), 0xffff_ffff_bf80_0000);
    assert_eq!(p.state().freg(3), 0xffff_ffff_bf80_0000);
    assert_eq!(p.state().freg(4), 0x7fff_ffff_bf80_0000);
    assert_eq!(p.state().xreg(10), 0x7fff_ffff_bf80_0000);
    // an operand that is not NaN-boxed reads as the canonical NaN
    assert_eq!(p.state().freg(5), 0xffff_ffff_7fc0_0000);
}

#[test]
fn fmv_x_d_needs_rv64() {
    let program = [lui(5, 2), csrrw(0, 0x305, 5), lui(7, 2), csrrs(0, 0x300, 7), r_float(0x71, 0, 10, 4, 0)];
    let cfg = ProcessorCfg { xlen: XLen::X32, enable_dirty: true, extensions: vec!['i', 'f', 'd'], freq: 1000 };
    let mut p = Processor::new(0, cfg);
    let mut bus = Bus::new(Ram::new(BASE, 0x10000));
    for (i, w) in program.iter().enumerate() {
        bus.write(BASE + 4 * i as u64, 4, *w as u64).unwrap();
    }
    p.reset(&mut bus, BASE).unwrap();
    assert!(p.step(&mut bus, 5));
    assert_eq!(p.state().csr(0x342), Ok(2));
    assert_eq!(p.state().csr(0x343), Ok(r_float(0x71, 0, 10, 4, 0) as u64));
}
