use terminus::global::{sext, XLen};
use terminus::processor::alu::{alu, sdiv, srem, AluOp};
use terminus::processor::bus::{amo_u32_value, amo_u64_value, AmoOp, Bus, Ram};
use terminus::processor::decode::{Decoder, InsnKind, SimpleInsnMap};
use terminus::processor::decode_tree::TreeInsnMap;
use terminus::processor::extensions::{check_extensions, FLen};
use terminus::processor::mmu::tlb::TLB;
use terminus::processor::mulh::{mulh, MulhOp};
use terminus::processor::trap::Exception;

#[test]
fn alu_basic_ops() {
    assert_eq!(alu(AluOp::Add, XLen::X64, u64::MAX, 2), 1);
    assert_eq!(alu(AluOp::Sub, XLen::X64, 1, 2), u64::MAX);
    assert_eq!(alu(AluOp::Sub, XLen::X32, 1, 2), 0xffff_ffff);
    assert_eq!(alu(AluOp::Slt, XLen::X64, u64::MAX, 0), 1);
    assert_eq!(alu(AluOp::Sltu, XLen::X64, u64::MAX, 0), 0);
    assert_eq!(alu(AluOp::Sra, XLen::X64, 0x8000_0000_0000_0000, 4), 0xf800_0000_0000_0000);
    assert_eq!(alu(AluOp::Srl, XLen::X64, 0x8000_0000_0000_0000, 68), 0x0800_0000_0000_0000);
    assert_eq!(alu(AluOp::Sll, XLen::X32, 1, 33), 2);
    assert_eq!(alu(AluOp::AddW, XLen::X64, 0x7fff_ffff, 1), 0xffff_ffff_8000_0000);
    assert_eq!(alu(AluOp::SraW, XLen::X64, 0x8000_0000, 1), 0xffff_ffff_c000_0000);
}

#[test]
fn alu_division_edge_cases() {
    assert_eq!(alu(AluOp::Div, XLen::X64, 7, 0), u64::MAX);
    assert_eq!(alu(AluOp::Divu, XLen::X64, 7, 0), u64::MAX);
    assert_eq!(alu(AluOp::Rem, XLen::X64, 7, 0), 7);
    assert_eq!(alu(AluOp::Div, XLen::X64, i64::MIN as u64, u64::MAX), i64::MIN as u64);
    assert_eq!(alu(AluOp::Rem, XLen::X64, i64::MIN as u64, u64::MAX), 0);
    assert_eq!(alu(AluOp::Div, XLen::X64, (-7i64) as u64, 2), (-3i64) as u64);
    assert_eq!(alu(AluOp::Rem, XLen::X64, (-7i64) as u64, 2), (-1i64) as u64);
    assert_eq!(alu(AluOp::DivW, XLen::X64, 0x8000_0000, 0xffff_ffff), 0xffff_ffff_8000_0000);
    assert_eq!(alu(AluOp::RemuW, XLen::X64, 7, 0), 7);
    assert_eq!(sdiv(-7, 2), -3);
    assert_eq!(srem(-7, 2), -1);
    assert_eq!(sdiv(i64::MIN, -1), i64::MIN);
}

#[test]
fn mulh_high_halves() {
    assert_eq!(mulh(MulhOp::Mulhu, XLen::X64, u64::MAX, u64::MAX), u64::MAX - 1);
    assert_eq!(mulh(MulhOp::Mulh, XLen::X64, u64::MAX, u64::MAX), 0);
    assert_eq!(mulh(MulhOp::Mulh, XLen::X64, (-7i64) as u64, 2), u64::MAX);
    assert_eq!(mulh(MulhOp::Mulhsu, XLen::X64, u64::MAX, u64::MAX), u64::MAX);
    assert_eq!(mulh(MulhOp::Mulh, XLen::X64, 1u64 << 62, 4), 1);
    assert_eq!(mulh(MulhOp::Mulhu, XLen::X32, 0xffff_ffff, 0xffff_ffff), 0xffff_fffe);
    assert_eq!(mulh(MulhOp::Mulh, XLen::X32, 0x8000_0000, 0x8000_0000), 0x4000_0000);
}

#[test]
fn sext_widths() {
    assert_eq!(sext(0x800, 12), 0xffff_ffff_ffff_f800);
    assert_eq!(sext(0x7ff, 12), 0x7ff);
    assert_eq!(sext(0x8000_0000, 32), 0xffff_ffff_8000_0000);
}

#[test]
fn decode_known_words() {
    let map = SimpleInsnMap::global();
    assert_eq!(map.decode(&0x0000_0013), Ok(InsnKind::ADDI));
    assert_eq!(map.decode(&0x0000_0073), Ok(InsnKind::ECALL));
    assert_eq!(map.decode(&0x3020_0073), Ok(InsnKind::MRET));
    assert_eq!(map.decode(&0x1050_0073), Ok(InsnKind::WFI));
    assert_eq!(map.decode(&0x0020_80b3), Ok(InsnKind::ADD));
    assert_eq!(map.decode(&0x4020_80b3), Ok(InsnKind::SUB));
    assert_eq!(map.decode(&0x0220_80b3), Ok(InsnKind::MUL));
    assert_eq!(map.decode(&0x1005_202f), Ok(InsnKind::LRW));
    assert_eq!(map.decode(&0x0000_4501), Ok(InsnKind::CLI));
    assert_eq!(map.decode(&0x0000_0001), Ok(InsnKind::CADDINOP));
    // the all-zero word has the shape of `c.addi4spn`; executing it is illegal
    assert_eq!(map.decode(&0), Ok(InsnKind::CADDI14SPN));
    assert_eq!(map.decode(&0xffff_ffff), Err(Exception::IllegalInsn(0xffff_ffff)));
}

#[test]
fn decode_first_registered_wins() {
    let table = SimpleInsnMap::global();
    let mut map = SimpleInsnMap::new();
    assert_eq!(map.decode(&0x13), Err(Exception::IllegalInsn(0x13)));
    for d in table.entries.iter() {
        if d.decode() == InsnKind::ADDI {
            map.registery(*d);
        }
    }
    assert_eq!(map.decode(&0x13), Ok(InsnKind::ADDI));
}

#[test]
fn flen_geometry() {
    assert_eq!(FLen::F32.len(), 32);
    assert_eq!(FLen::F64.size(), 8);
    assert_eq!(FLen::F128.size(), 16);
    assert_eq!(FLen::F32.mask(), 0xffff_ffff);
    assert_eq!(FLen::F64.padding(0x3f80_0000, FLen::F32), 0xffff_ffff_3f80_0000);
    assert_eq!(FLen::F32.padding(0x1_3f80_0000, FLen::F32), 0x3f80_0000);
}

#[test]
fn extension_letters_checked() {
    assert_eq!(check_extensions(&vec!['i', 'm', 'a']), Ok(()));
    assert_eq!(check_extensions(&vec!['i', 'x', 'q']), Err('x'));
}

#[test]
fn tlb_get_after_set() {
    let mut tlb = TLB::new();
    assert_eq!(tlb.get_ppn(0x12345), None);
    tlb.set_entry(0x12345, 0x999);
    assert_eq!(tlb.get_ppn(0x12345), Some(0x999));
    tlb.invalid_by_vpn(0x12345);
    assert_eq!(tlb.get_ppn(0x12345), None);
    tlb.set_entry(7, 8);
    tlb.invalid_all();
    assert_eq!(tlb.get_ppn(7), None);
}

#[test]
fn amo_values() {
    assert_eq!(amo_u32_value(AmoOp::Add, 0xffff_ffff, 1), 0);
    assert_eq!(amo_u32_value(AmoOp::Max, 0xffff_ffff, 1), 1);
    assert_eq!(amo_u32_value(AmoOp::MaxU, 0xffff_ffff, 1), 0xffff_ffff);
    assert_eq!(amo_u64_value(AmoOp::Min, u64::MAX, 1), u64::MAX);
    assert_eq!(amo_u64_value(AmoOp::Swap, 3, 9), 9);
}

#[test]
fn bus_locks() {
    let mut bus = Bus::new(Ram::new(0, 64));
    assert_eq!(bus.lock_holder(8, 4), None);
    assert!(bus.acquire(8, 4, 1));
    assert_eq!(bus.lock_holder(8, 4), Some(1));
    assert!(!bus.acquire(8, 4, 2));
    bus.release(1);
    assert_eq!(bus.lock_holder(8, 4), None);
    assert!(bus.write(60, 8, 1).is_err());
    assert!(bus.write(56, 8, 0x0102_0304_0506_0708).is_ok());
    assert_eq!(bus.read(56, 2), Ok(0x0708));
}

#[test]
fn simple_map_replaces_same_code() {
    let mut map = SimpleInsnMap::new();
    map.registery(Decoder { code: 0x13, mask: 0x707f, kind: InsnKind::ADDI });
    map.registery(Decoder { code: 0x33, mask: 0xfe00707f, kind: InsnKind::ADD });
    assert_eq!(map.decode(&0x13), Ok(InsnKind::ADDI));
    map.registery(Decoder { code: 0x13, mask: 0x707f, kind: InsnKind::XORI });
    assert_eq!(map.entries.len(), 2);
    assert_eq!(map.decode(&0x13), Ok(InsnKind::XORI));
    assert_eq!(map.decode(&0x33), Ok(InsnKind::ADD));
}

#[test]
fn tree_map_decodes_like_the_table() {
    let table = SimpleInsnMap::global();
    let mut tree = TreeInsnMap::new();
    for d in table.entries.iter() {
        tree.registery(*d);
    }
    let words: [u32; 14] = [0x13, 0x73, 0x3020_0073, 0x1050_0073, 0x0020_80b3, 0x4020_80b3, 0x0220_80b3,
        0x1005_202f, 0x4501, 0x1, 0, 0xffff_ffff, 0x2007, 0xe000_0053];
    for w in words.iter() {
        assert_eq!(tree.decode(w), table.decode(w));
    }
    tree.lock();
    for w in words.iter() {
        assert_eq!(tree.decode(w), table.decode(w));
    }
}

#[test]
fn tree_map_rejects_unregistered() {
    let mut tree = TreeInsnMap::new();
    assert_eq!(tree.decode(&0x13), Err(Exception::IllegalInsn(0x13)));
    tree.registery(Decoder { code: 0x13, mask: 0x707f, kind: InsnKind::ADDI });
    assert_eq!(tree.decode(&0x0010_0093), Ok(InsnKind::ADDI));
    assert_eq!(tree.decode(&0x33), Err(Exception::IllegalInsn(0x33)));
    tree.lock();
    assert_eq!(tree.decode(&0x0010_0093), Ok(InsnKind::ADDI));
}

#[test]
fn global_tree_decodes_every_word_like_the_table() {
    let table = SimpleInsnMap::global();
    let tree = TreeInsnMap::global();
    let mut w: u32 = 0x1234_5678;
    for i in 0..100_000u32 {
        assert_eq!(tree.decode(&i), table.decode(&i));
        w = w.wrapping_mul(1_664_525).wrapping_add(1_013_904_223);
        assert_eq!(tree.decode(&w), table.decode(&w));
    }
    assert_eq!(tree.decode(&0x0020_80b3), Ok(InsnKind::ADD));
    assert_eq!(tree.decode(&0xffff_ffff), Err(Exception::IllegalInsn(0xffff_ffff)));
}

#[test]
fn tree_search_takes_the_branch_of_the_key_first() {
    // both decoders match 0x1013; the key's bit 12 is set, so the branch
    // holding the code with bit 12 set is searched first
    let mut tree = TreeInsnMap::new();
    tree.registery(Decoder { code: 0x13, mask: 0x7f, kind: InsnKind::ADDI });
    tree.registery(Decoder { code: 0x1013, mask: 0x707f, kind: InsnKind::SLLI });
    assert_eq!(tree.decode(&0x1013), Ok(InsnKind::SLLI));
    assert_eq!(tree.decode(&0x0013), Ok(InsnKind::ADDI));
    tree.lock();
    assert_eq!(tree.decode(&0x1013), Ok(InsnKind::SLLI));
    assert_eq!(tree.decode(&0x0013), Ok(InsnKind::ADDI));
}
