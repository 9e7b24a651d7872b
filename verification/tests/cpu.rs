use terminus::global::XLen;
use terminus::processor::bus::{Bus, Ram};
use terminus::processor::cpu::Processor;
use terminus::processor::privilege::Privilege;
use terminus::processor::ProcessorCfg;

const BASE: u64 = 0x1000;

fn i_type(op: u32, f3: u32, rd: u32, rs1: u32, imm: i32) -> u32 {
    (((imm as u32) & 0xfff) << 20) | (rs1 << 15) | (f3 << 12) | (rd << 7) | op
}
fn r_type(op: u32, f3: u32, f7: u32, rd: u32, rs1: u32, rs2: u32) -> u32 {
    (f7 << 25) | (rs2 << 20) | (rs1 << 15) | (f3 << 12) | (rd << 7) | op
}
fn s_type(f3: u32, rs1: u32, rs2: u32, imm: i32) -> u32 {
    let imm = (imm as u32) & 0xfff;
    ((imm >> 5) << 25) | (rs2 << 20) | (rs1 << 15) | (f3 << 12) | ((imm & 0x1f) << 7) | 0x23
}
fn b_type(f3: u32, rs1: u32, rs2: u32, imm: i32) -> u32 {
    let imm = (imm as u32) & 0x1fff;
    (((imm >> 12) & 1) << 31) | (((imm >> 5) & 0x3f) << 25) | (rs2 << 20) | (rs1 << 15) | (f3 << 12)
        | (((imm >> 1) & 0xf) << 8) | (((imm >> 11) & 1) << 7) | 0x63
}
fn addi(rd: u32, rs1: u32, imm: i32) -> u32 { i_type(0x13, 0, rd, rs1, imm) }
fn add(rd: u32, rs1: u32, rs2: u32) -> u32 { r_type(0x33, 0, 0, rd, rs1, rs2) }
fn lui(rd: u32, imm20: u32) -> u32 { (imm20 << 12) | (rd << 7) | 0x37 }
fn lw(rd: u32, rs1: u32, imm: i32) -> u32 { i_type(0x03, 2, rd, rs1, imm) }
fn sw(rs1: u32, rs2: u32, imm: i32) -> u32 { s_type(2, rs1, rs2, imm) }
fn bne(rs1: u32, rs2: u32, imm: i32) -> u32 { b_type(1, rs1, rs2, imm) }
fn csrrw(rd: u32, csr: u32, rs1: u32) -> u32 { (csr << 20) | (rs1 << 15) | (1 << 12) | (rd << 7) | 0x73 }
fn amo(f5: u32, f3: u32, rd: u32, rs1: u32, rs2: u32) -> u32 {
    (f5 << 27) | (rs2 << 20) | (rs1 << 15) | (f3 << 12) | (rd << 7) | 0x2f
}
const ECALL: u32 = 0x0000_0073;
const MRET: u32 = 0x3020_0073;

fn hart(xlen: XLen, program: &[u32]) -> (Processor, Bus<Ram>) {
    let cfg = ProcessorCfg { xlen, enable_dirty: true, extensions: vec!['i', 'm', 'a', 'c', 's', 'u'], freq: 1000 };
    let mut p = Processor::new(0, cfg);
    let mut bus = Bus::new(Ram::new(BASE, 0x10000));
    for (i, w) in program.iter().enumerate() {
        bus.write(BASE + 4 * i as u64, 4, *w as u64).unwrap();
    }
    p.reset(&mut bus, BASE).unwrap();
    (p, bus)
}

#[test]
fn sum_loop() {
    let program = [addi(2, 0, 5), add(1, 1, 2), addi(2, 2, -1), bne(2, 0, -8)];
    let (mut p, mut bus) = hart(XLen::X64, &program);
    assert!(p.step(&mut bus, 16));
    assert_eq!(p.state().xreg(1), 15);
    assert_eq!(p.state().xreg(2), 0);
    assert_eq!(p.state().insns_cnt(), 16);
    assert_eq!(p.state().pc(), BASE + 12);
    assert_eq!(p.state().next_pc(), BASE + 16);
}

#[test]
fn store_then_load() {
    let program = [lui(5, 3), addi(6, 0, 0x7b), sw(5, 6, 8), lw(7, 5, 8)];
    let (mut p, mut bus) = hart(XLen::X64, &program);
    assert!(p.step(&mut bus, 4));
    assert_eq!(p.state().xreg(7), 0x7b);
    assert_eq!(bus.read(0x3008, 4), Ok(0x7b));
}

#[test]
fn x0_stays_zero() {
    let program = [addi(0, 0, 9), add(0, 0, 0)];
    let (mut p, mut bus) = hart(XLen::X64, &program);
    assert!(p.step(&mut bus, 2));
    assert_eq!(p.state().xreg(0), 0);
}

#[test]
fn ecall_traps_to_mtvec() {
    let program = [lui(5, 2), csrrw(0, 0x305, 5), ECALL];
    let (mut p, mut bus) = hart(XLen::X64, &program);
    assert!(p.step(&mut bus, 3));
    assert_eq!(p.state().csr(0x341), Ok(BASE + 8));
    assert_eq!(p.state().csr(0x342), Ok(11));
    assert_eq!(p.state().next_pc(), 0x2000);
    assert_eq!(p.state().privilege(), Privilege::M);
    // an ecall is counted as executed
    assert_eq!(p.state().insns_cnt(), 3);
}

#[test]
fn illegal_instruction_traps() {
    let program = [lui(5, 2), csrrw(0, 0x305, 5), 0xffff_ffff];
    let (mut p, mut bus) = hart(XLen::X64, &program);
    assert!(p.step(&mut bus, 3));
    assert_eq!(p.state().csr(0x342), Ok(2));
    assert_eq!(p.state().csr(0x343), Ok(0xffff_ffff));
    assert_eq!(p.state().next_pc(), 0x2000);
    assert_eq!(p.state().insns_cnt(), 2);
}

#[test]
fn misaligned_load_traps() {
    let program = [lui(5, 2), csrrw(0, 0x305, 5), lui(6, 3), lw(7, 6, 2)];
    let (mut p, mut bus) = hart(XLen::X64, &program);
    assert!(p.step(&mut bus, 4));
    assert_eq!(p.state().csr(0x342), Ok(4));
    assert_eq!(p.state().csr(0x343), Ok(0x3002));
}

#[test]
fn load_outside_memory_faults() {
    let program = [lui(5, 2), csrrw(0, 0x305, 5), lui(6, 0x40000), lw(7, 6, 0)];
    let (mut p, mut bus) = hart(XLen::X64, &program);
    assert!(p.step(&mut bus, 4));
    assert_eq!(p.state().csr(0x342), Ok(5));
    assert_eq!(p.state().csr(0x343), Ok(0x4000_0000));
}

#[test]
fn mret_returns_to_mepc_in_mpp() {
    // mepc = BASE + 0x20, mpp = U (0), then mret
    let program = [addi(5, 0, 0x20), lui(6, 1), add(5, 5, 6), csrrw(0, 0x341, 5), MRET];
    let (mut p, mut bus) = hart(XLen::X64, &program);
    assert!(p.step(&mut bus, 5));
    assert_eq!(p.state().next_pc(), BASE + 0x20);
    assert_eq!(p.state().privilege(), Privilege::U);
}

#[test]
fn lr_sc_pair() {
    let program = [
        lui(5, 3),
        addi(6, 0, 0x55),
        amo(0x02, 2, 8, 5, 0),
        amo(0x03, 2, 9, 5, 6),
        amo(0x03, 2, 10, 5, 6),
    ];
    let (mut p, mut bus) = hart(XLen::X64, &program);
    assert!(p.step(&mut bus, 5));
    assert_eq!(p.state().xreg(8), 0);
    assert_eq!(p.state().xreg(9), 0);
    assert_eq!(p.state().xreg(10), 1);
    assert_eq!(bus.read(0x3000, 4), Ok(0x55));
}

#[test]
fn amoadd_word() {
    let program = [lui(5, 3), addi(6, 0, 7), sw(5, 6, 0), addi(6, 0, 5), amo(0x00, 2, 10, 5, 6)];
    let (mut p, mut bus) = hart(XLen::X64, &program);
    assert!(p.step(&mut bus, 5));
    assert_eq!(p.state().xreg(10), 7);
    assert_eq!(bus.read(0x3000, 4), Ok(12));
}

#[test]
fn multiply_and_divide() {
    let mul = |rd, a, b| r_type(0x33, 0, 1, rd, a, b);
    let div = |rd, a, b| r_type(0x33, 4, 1, rd, a, b);
    let rem = |rd, a, b| r_type(0x33, 6, 1, rd, a, b);
    let mulh = |rd, a, b| r_type(0x33, 1, 1, rd, a, b);
    let program = [addi(1, 0, -7), addi(2, 0, 2), mul(3, 1, 2), div(4, 1, 2), rem(5, 1, 2), div(6, 1, 0), mulh(7, 1, 2)];
    let (mut p, mut bus) = hart(XLen::X64, &program);
    assert!(p.step(&mut bus, 7));
    assert_eq!(p.state().xreg(3), (-14i64) as u64);
    assert_eq!(p.state().xreg(4), (-3i64) as u64);
    assert_eq!(p.state().xreg(5), (-1i64) as u64);
    assert_eq!(p.state().xreg(6), u64::MAX);
    assert_eq!(p.state().xreg(7), u64::MAX);
}

#[test]
fn rv32_wraps_registers() {
    let program = [lui(1, 0x80000), add(2, 1, 1), addi(3, 0, -1)];
    let (mut p, mut bus) = hart(XLen::X32, &program);
    assert!(p.step(&mut bus, 3));
    assert_eq!(p.state().xreg(1), 0x8000_0000);
    assert_eq!(p.state().xreg(2), 0);
    assert_eq!(p.state().xreg(3), 0xffff_ffff);
}

#[test]
fn reset_rejects_wide_start_on_rv32() {
    let cfg = ProcessorCfg { xlen: XLen::X32, enable_dirty: true, extensions: vec!['i'], freq: 1 };
    let mut p = Processor::new(3, cfg);
    let mut bus = Bus::new(Ram::new(BASE, 0x100));
    assert_eq!(p.reset(&mut bus, 0x1_0000_0000), Err(String::from("cpu3:invalid start addr 0x100000000 when xlen == X32!")));
    assert!(p.reset(&mut bus, 0xffff_f000).is_ok());
    assert_eq!(p.state().next_pc(), 0xffff_f000);
}

#[test]
fn interrupt_taken_before_instruction() {
    // enable machine timer interrupts, then raise the timer line
    let program = [lui(5, 2), csrrw(0, 0x305, 5), addi(6, 0, 0x80), csrrw(0, 0x304, 6), addi(6, 0, 8),
        csrrw(0, 0x300, 6), addi(1, 0, 1)];
    let (mut p, mut bus) = hart(XLen::X64, &program);
    assert!(p.step(&mut bus, 6));
    p.state.privilege.delegate_si_ti(false, true);
    assert!(p.step(&mut bus, 1));
    assert_eq!(p.state().csr(0x342), Ok((1u64 << 63) | 7));
    assert_eq!(p.state().next_pc(), 0x2000);
    assert_eq!(p.state().csr(0x341), Ok(BASE + 24));
    assert_eq!(p.state().xreg(1), 0);
}

#[test]
fn zero_word_is_illegal() {
    let program = [lui(5, 2), csrrw(0, 0x305, 5), 0];
    let (mut p, mut bus) = hart(XLen::X64, &program);
    assert!(p.step(&mut bus, 3));
    assert_eq!(p.state().csr(0x342), Ok(2));
    assert_eq!(p.state().csr(0x343), Ok(0));
}

#[test]
fn isa_string_lists_extensions() {
    let (p, _) = hart(XLen::X64, &[]);
    assert_eq!(p.state().isa_string(), "rv64imacsu");
    let (p32, _) = hart(XLen::X32, &[]);
    assert_eq!(p32.state().isa_string(), "rv32imacsu");
}
