use terminus::global::XLen;
use terminus::processor::bus::{Bus, Ram};
use terminus::processor::cpu::Processor;
use terminus::processor::decode::InsnKind;
use terminus::processor::exec_fpu::{FloatOutcome, FloatRequest};
use terminus::processor::ProcessorCfg;

const BASE: u64 = 0x1000;

fn lui(rd: u32, imm20: u32) -> u32 { (imm20 << 12) | (rd << 7) | 0x37 }
fn addi(rd: u32, rs1: u32, imm: i32) -> u32 { (((imm as u32) & 0xfff) << 20) | (rs1 << 15) | (rd << 7) | 0x13 }
fn csrrs(rd: u32, csr: u32, rs1: u32) -> u32 { (csr << 20) | (rs1 << 15) | (2 << 12) | (rd << 7) | 0x73 }
fn csrrw(rd: u32, csr: u32, rs1: u32) -> u32 { (csr << 20) | (rs1 << 15) | (1 << 12) | (rd << 7) | 0x73 }
fn r_float(f7: u32, f3: u32, rd: u32, rs1: u32, rs2: u32) -> u32 {
    (f7 << 25) | (rs2 << 20) | (rs1 << 15) | (f3 << 12) | (rd << 7) | 0x53
}

/// Sets up `fs`, puts 1.0 in f1 and f2, then runs `tail`.
fn hart(tail: &[u32]) -> (Processor, Bus<Ram>) {
    let mut program = vec![
        lui(5, 2),
        csrrw(0, 0x305, 5),
        lui(7, 2),
        csrrs(0, 0x300, 7),
        lui(6, 0x3f800),
        r_float(0x78, 0, 1, 6, 0),
        r_float(0x78, 0, 2, 6, 0),
    ];
    program.extend_from_slice(tail);
    let cfg = ProcessorCfg { xlen: XLen::X64, enable_dirty: true, extensions: vec!['i', 'f', 'd'], freq: 1000 };
    let mut p = Processor::new(0, cfg);
    let mut bus = Bus::new(Ram::new(BASE, 0x10000));
    for (i, w) in program.iter().enumerate() {
        bus.write(BASE + 4 * i as u64, 4, *w as u64).unwrap();
    }
    p.reset(&mut bus, BASE).unwrap();
    assert!(p.step(&mut bus, 7));
    (p, bus)
}

#[test]
fn fadd_asks_then_writes_boxed_result() {
    let (mut p, mut bus) = hart(&[r_float(0x00, 7, 3, 1, 2)]);
    assert!(!p.step(&mut bus, 1));
    let req = FloatRequest { kind: InsnKind::FADDS, a: 0x3f80_0000, b: 0x3f80_0000, c: 0, rm: 0, rd: 3 };
    assert_eq!(p.pending, Some(req));
    // the hart waits until the operation is answered
    assert!(!p.step(&mut bus, 1));
    assert_eq!(p.state().insns_cnt(), 7);
    p.complete_float(FloatOutcome { value: 0x4000_0000, flags: 0 });
    assert_eq!(p.pending, None);
    assert_eq!(p.state().freg(3), 0xffff_ffff_4000_0000);
    assert_eq!(p.state().next_pc(), BASE + 32);
    assert_eq!(p.state().insns_cnt(), 8);
}

#[test]
fn compare_writes_one_and_sets_flags() {
    let (mut p, mut bus) = hart(&[r_float(0x50, 2, 8, 1, 2)]);
    assert!(!p.step(&mut bus, 1));
    assert_eq!(p.pending.map(|r| r.kind), Some(InsnKind::FEQS));
    p.complete_float(FloatOutcome { value: 1, flags: 0x10 });
    assert_eq!(p.state().xreg(8), 1);
    assert_eq!(p.state().csr(0x001), Ok(0x10));
}

#[test]
fn less_than_on_unordered_writes_zero() {
    let (mut p, mut bus) = hart(&[r_float(0x50, 1, 8, 1, 2)]);
    assert!(!p.step(&mut bus, 1));
    p.complete_float(FloatOutcome { value: 3, flags: 0x10 });
    assert_eq!(p.state().xreg(8), 0);
}

#[test]
fn class_sets_its_bit_and_keeps_flags() {
    let (mut p, mut bus) = hart(&[r_float(0x70, 1, 10, 1, 0)]);
    assert!(!p.step(&mut bus, 1));
    let req = p.pending.unwrap();
    assert_eq!(req.kind, InsnKind::FCLASSS);
    p.complete_float(FloatOutcome { value: 6, flags: 0x1f });
    assert_eq!(p.state().xreg(10), 1 << 6);
    assert_eq!(p.state().csr(0x001), Ok(0));
}

#[test]
fn word_conversion_sign_extends() {
    let (mut p, mut bus) = hart(&[r_float(0x60, 1, 11, 1, 0)]);
    assert!(!p.step(&mut bus, 1));
    let req = p.pending.unwrap();
    assert_eq!(req.kind, InsnKind::FCVTWS);
    assert_eq!(req.rm, 1);
    p.complete_float(FloatOutcome { value: 0xffff_fffe, flags: 0 });
    assert_eq!(p.state().xreg(11), 0xffff_ffff_ffff_fffe);
}

#[test]
fn dynamic_rounding_with_bad_frm_is_illegal() {
    let (mut p, mut bus) = hart(&[addi(9, 0, 5), csrrw(0, 0x002, 9), r_float(0x00, 7, 3, 1, 2)]);
    assert!(p.step(&mut bus, 3));
    assert_eq!(p.pending, None);
    assert_eq!(p.state().csr(0x342), Ok(2));
    assert_eq!(p.state().next_pc(), 0x2000);
}

#[test]
fn static_rounding_mode_wins() {
    let (mut p, mut bus) = hart(&[addi(9, 0, 2), csrrw(0, 0x002, 9), r_float(0x00, 3, 3, 1, 2)]);
    assert!(p.step(&mut bus, 2));
    assert!(!p.step(&mut bus, 1));
    assert_eq!(p.pending.unwrap().rm, 3);
}
