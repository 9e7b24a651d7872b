//! Instruction formats: the register and immediate fields of the 32-bit
//! formats (R, I, S, B, U, J) and of the compressed formats (CR, CI, CSS,
//! CIW, CL, CS, CA, CB, CJ).
use vstd::prelude::*;
use crate::global::InsnT;

verus! {

/// `rd`, bits 11..7 (also `rd`/`rs1` of CR and CI).
pub open spec fn spec_rd(ir: InsnT) -> InsnT {
    (ir >> 7) & 0x1f
}

/// `rs1`, bits 19..15.
pub open spec fn spec_rs1(ir: InsnT) -> InsnT {
    (ir >> 15) & 0x1f
}

/// `rs2`, bits 24..20.
pub open spec fn spec_rs2(ir: InsnT) -> InsnT {
    (ir >> 20) & 0x1f
}

/// The I immediate, bits 31..20 (12 bits, sign in bit 11).
pub open spec fn spec_imm_i(ir: InsnT) -> InsnT {
    ir >> 20
}

/// The store offset of an I-coded store: bits 31..25 above bits 11..7
/// (12 bits, sign in bit 11).
pub open spec fn spec_imm_s(ir: InsnT) -> InsnT {
    ((ir >> 25) << 5) | ((ir >> 7) & 0x1f)
}

/// The B immediate: bits 31, 7, 30..25, 11..8 as offset bits 12, 11,
/// 10..5, 4..1 (13 bits, sign in bit 12).
pub open spec fn spec_imm_b(ir: InsnT) -> InsnT {
    (((ir >> 31) & 1) << 12) | (((ir >> 7) & 1) << 11) | (((ir >> 25) & 0x3f) << 5) | (((ir >> 8) & 0xf) << 1)
}

/// The U immediate: bits 31..12 in place (32 bits).
pub open spec fn spec_imm_u(ir: InsnT) -> InsnT {
    ir & 0xffff_f000
}

/// The J immediate: bits 31, 19..12, 20, 30..21 as offset bits 20,
/// 19..12, 11, 10..1 (21 bits, sign in bit 20).
pub open spec fn spec_imm_j(ir: InsnT) -> InsnT {
    (((ir >> 31) & 1) << 20) | (((ir >> 12) & 0xff) << 12) | (((ir >> 20) & 1) << 11) | (((ir >> 21) & 0x3ff) << 1)
}

/// `rs2` of CR, CI and CSS, bits 6..2.
pub open spec fn spec_c_rs2(ir: InsnT) -> InsnT {
    (ir >> 2) & 0x1f
}

/// `rd'`/`rs2'` of CIW, CL, CS and CA: bits 4..2, naming `x8..x15`.
pub open spec fn spec_c_rdp(ir: InsnT) -> InsnT {
    (((ir >> 2) & 7) + 8) as InsnT
}

/// `rs1'`/`rd'` of CL, CS, CA and CB: bits 9..7, naming `x8..x15`.
pub open spec fn spec_c_rs1p(ir: InsnT) -> InsnT {
    (((ir >> 7) & 7) + 8) as InsnT
}

/// The CI immediate: bit 12 above bits 6..2 (6 bits).
pub open spec fn spec_ci_imm(ir: InsnT) -> InsnT {
    (((ir >> 12) & 1) << 5) | ((ir >> 2) & 0x1f)
}

/// The CSS immediate: bits 12..7 (6 bits).
pub open spec fn spec_css_imm(ir: InsnT) -> InsnT {
    (ir >> 7) & 0x3f
}

/// The CL/CS immediate: bits 12..10 above bits 6..5 (5 bits).
pub open spec fn spec_cl_imm(ir: InsnT) -> InsnT {
    (((ir >> 10) & 7) << 2) | ((ir >> 5) & 3)
}

/// The CJ immediate: bits 12..2 (11 bits).
pub open spec fn spec_cj_imm(ir: InsnT) -> InsnT {
    (ir >> 2) & 0x7ff
}

/// The CB immediate: bits 12..10 above bits 6..2 (8 bits).
pub open spec fn spec_cb_imm(ir: InsnT) -> InsnT {
    (((ir >> 10) & 7) << 5) | ((ir >> 2) & 0x1f)
}

/// The CIW immediate: bits 12..5 (8 bits).
pub open spec fn spec_ciw_imm(ir: InsnT) -> InsnT {
    (ir >> 5) & 0xff
}

/// The bounds of the fields an instruction word is cut into.
proof fn lemma_insn_field_bounds(ir: InsnT)
    by (bit_vector)
    ensures
        (ir >> 7) & 0x1f < 32,
        (ir >> 15) & 0x1f < 32,
        (ir >> 20) & 0x1f < 32,
        ir >> 20 < 0x1000,
        ((ir >> 25) << 5) | ((ir >> 7) & 0x1f) < 0x1000,
        (((ir >> 31) & 1) << 12) | (((ir >> 7) & 1) << 11) | (((ir >> 25) & 0x3f) << 5) | (((ir >> 8) & 0xf) << 1) < 0x2000,
        (((ir >> 31) & 1) << 20) | (((ir >> 12) & 0xff) << 12) | (((ir >> 20) & 1) << 11) | (((ir >> 21) & 0x3ff) << 1) < 0x20_0000,
        (ir >> 2) & 0x1f < 32,
        (ir >> 2) & 7 < 8,
        (ir >> 7) & 7 < 8,
        (((ir >> 12) & 1) << 5) | ((ir >> 2) & 0x1f) < 64,
        (ir >> 7) & 0x3f < 64,
        (((ir >> 10) & 7) << 2) | ((ir >> 5) & 3) < 32,
        (ir >> 2) & 0x7ff < 0x800,
        (((ir >> 10) & 7) << 5) | ((ir >> 2) & 0x1f) < 0x100,
        (ir >> 5) & 0xff < 0x100,
{
}

pub fn rd(ir: InsnT) -> (r: InsnT)
    ensures
        r == spec_rd(ir),
        r < 32,
{
    proof { lemma_insn_field_bounds(ir); }
    (ir >> 7) & 0x1f
}

pub fn rs1(ir: InsnT) -> (r: InsnT)
    ensures
        r == spec_rs1(ir),
        r < 32,
{
    proof { lemma_insn_field_bounds(ir); }
    (ir >> 15) & 0x1f
}

pub fn rs2(ir: InsnT) -> (r: InsnT)
    ensures
        r == spec_rs2(ir),
        r < 32,
{
    proof { lemma_insn_field_bounds(ir); }
    (ir >> 20) & 0x1f
}

pub fn imm_i(ir: InsnT) -> (r: InsnT)
    ensures
        r == spec_imm_i(ir),
        r < 0x1000,
{
    proof { lemma_insn_field_bounds(ir); }
    ir >> 20
}

pub fn imm_s(ir: InsnT) -> (r: InsnT)
    ensures
        r == spec_imm_s(ir),
        r < 0x1000,
{
    proof { lemma_insn_field_bounds(ir); }
    ((ir >> 25) << 5) | ((ir >> 7) & 0x1f)
}

pub fn imm_b(ir: InsnT) -> (r: InsnT)
    ensures
        r == spec_imm_b(ir),
        r < 0x2000,
{
    let r = (((ir >> 31) & 1) << 12) | (((ir >> 7) & 1) << 11) | (((ir >> 25) & 0x3f) << 5) | (((ir >> 8) & 0xf) << 1);
    proof { lemma_insn_field_bounds(ir); }
    r
}

pub fn imm_u(ir: InsnT) -> (r: InsnT)
    ensures
        r == spec_imm_u(ir),
{
    ir & 0xffff_f000
}

pub fn imm_j(ir: InsnT) -> (r: InsnT)
    ensures
        r == spec_imm_j(ir),
        r < 0x20_0000,
{
    let r = (((ir >> 31) & 1) << 20) | (((ir >> 12) & 0xff) << 12) | (((ir >> 20) & 1) << 11) | (((ir >> 21) & 0x3ff) << 1);
    proof { lemma_insn_field_bounds(ir); }
    r
}

pub fn c_rs2(ir: InsnT) -> (r: InsnT)
    ensures
        r == spec_c_rs2(ir),
        r < 32,
{
    proof { lemma_insn_field_bounds(ir); }
    (ir >> 2) & 0x1f
}

pub fn c_rdp(ir: InsnT) -> (r: InsnT)
    ensures
        r == spec_c_rdp(ir),
        8 <= r < 16,
{
    proof { lemma_insn_field_bounds(ir); }
    (((ir >> 2) & 7) + 8) as InsnT
}

pub fn c_rs1p(ir: InsnT) -> (r: InsnT)
    ensures
        r == spec_c_rs1p(ir),
        8 <= r < 16,
{
    proof { lemma_insn_field_bounds(ir); }
    (((ir >> 7) & 7) + 8) as InsnT
}

pub fn ci_imm(ir: InsnT) -> (r: InsnT)
    ensures
        r == spec_ci_imm(ir),
        r < 64,
{
    proof { lemma_insn_field_bounds(ir); }
    (((ir >> 12) & 1) << 5) | ((ir >> 2) & 0x1f)
}

pub fn css_imm(ir: InsnT) -> (r: InsnT)
    ensures
        r == spec_css_imm(ir),
        r < 64,
{
    proof { lemma_insn_field_bounds(ir); }
    (ir >> 7) & 0x3f
}

pub fn cl_imm(ir: InsnT) -> (r: InsnT)
    ensures
        r == spec_cl_imm(ir),
        r < 32,
{
    proof { lemma_insn_field_bounds(ir); }
    (((ir >> 10) & 7) << 2) | ((ir >> 5) & 3)
}

pub fn cj_imm(ir: InsnT) -> (r: InsnT)
    ensures
        r == spec_cj_imm(ir),
        r < 0x800,
{
    proof { lemma_insn_field_bounds(ir); }
    (ir >> 2) & 0x7ff
}

pub fn cb_imm(ir: InsnT) -> (r: InsnT)
    ensures
        r == spec_cb_imm(ir),
        r < 0x100,
{
    proof { lemma_insn_field_bounds(ir); }
    (((ir >> 10) & 7) << 5) | ((ir >> 2) & 0x1f)
}

pub fn ciw_imm(ir: InsnT) -> (r: InsnT)
    ensures
        r == spec_ciw_imm(ir),
        r < 0x100,
{
    proof { lemma_insn_field_bounds(ir); }
    (ir >> 5) & 0xff
}

} // verus!
