//! Instruction decoding: every instruction the hart executes, with the
//! bits that identify it (`code` under `mask`), and the map that finds the
//! instruction of a word.
use vstd::prelude::*;
use crate::global::InsnT;
use crate::processor::trap::Exception;

verus! {

/// An instruction the hart can execute. Compressed forms whose meaning
/// depends on the register width or on fields share one kind (such as
/// `CJALADDIW`: `c.jal` on RV32, `c.addiw` on RV64).
#[derive(Debug, Clone, Copy, PartialEq, Eq, Structural)]
pub enum InsnKind {
    BEQ,
    BNE,
    BLT,
    BGE,
    BLTU,
    BGEU,
    JALR,
    JAL,
    LUI,
    AUIPC,
    ADDI,
    ADDIW,
    SLLI,
    SLLIW,
    SRLI,
    SRLIW,
    SRAI,
    SRAIW,
    SLTI,
    SLTIU,
    XORI,
    ORI,
    ANDI,
    ADD,
    ADDW,
    SUB,
    SUBW,
    SLL,
    SLLW,
    SRL,
    SRLW,
    SRA,
    SRAW,
    SLT,
    SLTU,
    XOR,
    OR,
    AND,
    LB,
    LBU,
    LH,
    LHU,
    LW,
    LWU,
    LD,
    SB,
    SH,
    SW,
    SD,
    FENCE,
    FENCEI,
    CSRRW,
    CSRRS,
    CSRRC,
    CSRRWI,
    CSRRSI,
    CSRRCI,
    ECALL,
    EBREAK,
    MRET,
    WFI,
    MUL,
    MULH,
    MULHSU,
    MULHU,
    MULW,
    DIV,
    DIVU,
    DIVW,
    DIVUW,
    REM,
    REMU,
    REMW,
    REMUW,
    LRW,
    LRD,
    SCW,
    SCD,
    AMOSWAPW,
    AMOSWAPD,
    AMOADDW,
    AMOADDD,
    AMOANDW,
    AMOADND,
    AMOORW,
    AMOORD,
    AMOXORW,
    AMOXORD,
    AMOMAXW,
    AMOMAXD,
    AMOMINW,
    AMOMIND,
    AMOMAXUW,
    AMOMAXUD,
    AMOMINUW,
    AMOMINUD,
    CLWSP,
    CLDSPCFLWSP,
    CFLDSP,
    CSWSP,
    CSDSPFSWSP,
    CFSDSP,
    CLW,
    CLDFLW,
    CFLD,
    CSW,
    CSDFSW,
    CFSD,
    CJ,
    CJALADDIW,
    CJRMV,
    CJALRADDEBREAK,
    CBEQZ,
    CBNEZ,
    CLI,
    CLUIADDI16SP,
    CADDINOP,
    CADDI14SPN,
    CSLLI,
    CSRLI,
    CSRAI,
    CANDI,
    CAND,
    COR,
    CXOR,
    CSUB,
    CADDW,
    CSUBW,
    SRET,
    SFENCEVMA,
    FLW,
    FSW,
    FLD,
    FSD,
    FSGNJS,
    FSGNJNS,
    FSGNJXS,
    FMVXW,
    FMVWX,
    FSGNJD,
    FSGNJND,
    FSGNJXD,
    FMVXD,
    FMVDX,
    FADDS,
    FSUBS,
    FMULS,
    FDIVS,
    FSQRTS,
    FMINS,
    FMAXS,
    FMADDS,
    FMSUBS,
    FMNSUBS,
    FMNADDS,
    FCVTWS,
    FCVTWUS,
    FCVTLS,
    FCVTLUS,
    FCVTSW,
    FCVTSWU,
    FCVTSL,
    FCVTSLU,
    FEQS,
    FLTS,
    FLES,
    FCLASSS,
    FADDD,
    FSUBD,
    FMULD,
    FDIVD,
    FSQRTD,
    FMIND,
    FMAXD,
    FMADDD,
    FMSUBD,
    FMNSUBD,
    FMNADDD,
    FCVTWD,
    FCVTWUD,
    FCVTLD,
    FCVTLUD,
    FCVTDW,
    FCVTDWU,
    FCVTDL,
    FCVTDLU,
    FCVTSD,
    FCVTDS,
    FEQD,
    FLTD,
    FLED,
    FCLASSD,
}

/// One instruction of the map: a word `ir` is this instruction when
/// `ir & mask == code`.
#[derive(Debug, Clone, Copy, PartialEq, Eq, Structural)]
pub struct Decoder {
    pub code: InsnT,
    pub mask: InsnT,
    pub kind: InsnKind,
}

impl Decoder {
    /// Whether `ir` is this instruction.
    pub open spec fn spec_matched(self, ir: InsnT) -> bool {
        ir & self.mask == self.code
    }

    /// The bits that identify the instruction.
    pub fn code(&self) -> (r: InsnT)
        ensures
            r == self.code,
    {
        self.code
    }

    /// Which bits identify the instruction.
    pub fn mask(&self) -> (r: InsnT)
        ensures
            r == self.mask,
    {
        self.mask
    }

    /// Whether `ir` is this instruction.
    pub fn matched(&self, ir: &InsnT) -> (r: bool)
        ensures
            r == self.spec_matched(*ir),
    {
        *ir & self.mask == self.code
    }

    /// The instruction.
    pub fn decode(&self) -> (r: InsnKind)
        ensures
            r == self.kind,
    {
        self.kind
    }
}

/// Every instruction of the `i`, `m`, `a`, `c`, `s`, `f` and `d`
/// extensions, with its identifying bits.
pub open spec fn spec_decoders() -> Seq<Decoder> {
    seq![
        Decoder { code: 0x63, mask: 0x707f, kind: InsnKind::BEQ },
        Decoder { code: 0x1063, mask: 0x707f, kind: InsnKind::BNE },
        Decoder { code: 0x4063, mask: 0x707f, kind: InsnKind::BLT },
        Decoder { code: 0x5063, mask: 0x707f, kind: InsnKind::BGE },
        Decoder { code: 0x6063, mask: 0x707f, kind: InsnKind::BLTU },
        Decoder { code: 0x7063, mask: 0x707f, kind: InsnKind::BGEU },
        Decoder { code: 0x67, mask: 0x707f, kind: InsnKind::JALR },
        Decoder { code: 0x6f, mask: 0x7f, kind: InsnKind::JAL },
        Decoder { code: 0x37, mask: 0x7f, kind: InsnKind::LUI },
        Decoder { code: 0x17, mask: 0x7f, kind: InsnKind::AUIPC },
        Decoder { code: 0x13, mask: 0x707f, kind: InsnKind::ADDI },
        Decoder { code: 0x1b, mask: 0x707f, kind: InsnKind::ADDIW },
        Decoder { code: 0x1013, mask: 0xfc00707f, kind: InsnKind::SLLI },
        Decoder { code: 0x101b, mask: 0xfe00707f, kind: InsnKind::SLLIW },
        Decoder { code: 0x5013, mask: 0xfc00707f, kind: InsnKind::SRLI },
        Decoder { code: 0x501b, mask: 0xfe00707f, kind: InsnKind::SRLIW },
        Decoder { code: 0x40005013, mask: 0xfc00707f, kind: InsnKind::SRAI },
        Decoder { code: 0x4000501b, mask: 0xfe00707f, kind: InsnKind::SRAIW },
        Decoder { code: 0x2013, mask: 0x707f, kind: InsnKind::SLTI },
        Decoder { code: 0x3013, mask: 0x707f, kind: InsnKind::SLTIU },
        Decoder { code: 0x4013, mask: 0x707f, kind: InsnKind::XORI },
        Decoder { code: 0x6013, mask: 0x707f, kind: InsnKind::ORI },
        Decoder { code: 0x7013, mask: 0x707f, kind: InsnKind::ANDI },
        Decoder { code: 0x33, mask: 0xfe00707f, kind: InsnKind::ADD },
        Decoder { code: 0x3b, mask: 0xfe00707f, kind: InsnKind::ADDW },
        Decoder { code: 0x40000033, mask: 0xfe00707f, kind: InsnKind::SUB },
        Decoder { code: 0x4000003b, mask: 0xfe00707f, kind: InsnKind::SUBW },
        Decoder { code: 0x1033, mask: 0xfe00707f, kind: InsnKind::SLL },
        Decoder { code: 0x103b, mask: 0xfe00707f, kind: InsnKind::SLLW },
        Decoder { code: 0x5033, mask: 0xfe00707f, kind: InsnKind::SRL },
        Decoder { code: 0x503b, mask: 0xfe00707f, kind: InsnKind::SRLW },
        Decoder { code: 0x40005033, mask: 0xfe00707f, kind: InsnKind::SRA },
        Decoder { code: 0x4000503b, mask: 0xfe00707f, kind: InsnKind::SRAW },
        Decoder { code: 0x2033, mask: 0xfe00707f, kind: InsnKind::SLT },
        Decoder { code: 0x3033, mask: 0xfe00707f, kind: InsnKind::SLTU },
        Decoder { code: 0x4033, mask: 0xfe00707f, kind: InsnKind::XOR },
        Decoder { code: 0x6033, mask: 0xfe00707f, kind: InsnKind::OR },
        Decoder { code: 0x7033, mask: 0xfe00707f, kind: InsnKind::AND },
        Decoder { code: 0x3, mask: 0x707f, kind: InsnKind::LB },
        Decoder { code: 0x4003, mask: 0x707f, kind: InsnKind::LBU },
        Decoder { code: 0x1003, mask: 0x707f, kind: InsnKind::LH },
        Decoder { code: 0x5003, mask: 0x707f, kind: InsnKind::LHU },
        Decoder { code: 0x2003, mask: 0x707f, kind: InsnKind::LW },
        Decoder { code: 0x6003, mask: 0x707f, kind: InsnKind::LWU },
        Decoder { code: 0x3003, mask: 0x707f, kind: InsnKind::LD },
        Decoder { code: 0x23, mask: 0x707f, kind: InsnKind::SB },
        Decoder { code: 0x1023, mask: 0x707f, kind: InsnKind::SH },
        Decoder { code: 0x2023, mask: 0x707f, kind: InsnKind::SW },
        Decoder { code: 0x3023, mask: 0x707f, kind: InsnKind::SD },
        Decoder { code: 0xf, mask: 0x707f, kind: InsnKind::FENCE },
        Decoder { code: 0x100f, mask: 0x707f, kind: InsnKind::FENCEI },
        Decoder { code: 0x1073, mask: 0x707f, kind: InsnKind::CSRRW },
        Decoder { code: 0x2073, mask: 0x707f, kind: InsnKind::CSRRS },
        Decoder { code: 0x3073, mask: 0x707f, kind: InsnKind::CSRRC },
        Decoder { code: 0x5073, mask: 0x707f, kind: InsnKind::CSRRWI },
        Decoder { code: 0x6073, mask: 0x707f, kind: InsnKind::CSRRSI },
        Decoder { code: 0x7073, mask: 0x707f, kind: InsnKind::CSRRCI },
        Decoder { code: 0x73, mask: 0xffffffff, kind: InsnKind::ECALL },
        Decoder { code: 0x100073, mask: 0xffffffff, kind: InsnKind::EBREAK },
        Decoder { code: 0x30200073, mask: 0xffffffff, kind: InsnKind::MRET },
        Decoder { code: 0x10500073, mask: 0xffffffff, kind: InsnKind::WFI },
        Decoder { code: 0x2000033, mask: 0xfe00707f, kind: InsnKind::MUL },
        Decoder { code: 0x2001033, mask: 0xfe00707f, kind: InsnKind::MULH },
        Decoder { code: 0x2002033, mask: 0xfe00707f, kind: InsnKind::MULHSU },
        Decoder { code: 0x2003033, mask: 0xfe00707f, kind: InsnKind::MULHU },
        Decoder { code: 0x200003b, mask: 0xfe00707f, kind: InsnKind::MULW },
        Decoder { code: 0x2004033, mask: 0xfe00707f, kind: InsnKind::DIV },
        Decoder { code: 0x2005033, mask: 0xfe00707f, kind: InsnKind::DIVU },
        Decoder { code: 0x200403b, mask: 0xfe00707f, kind: InsnKind::DIVW },
        Decoder { code: 0x200503b, mask: 0xfe00707f, kind: InsnKind::DIVUW },
        Decoder { code: 0x2006033, mask: 0xfe00707f, kind: InsnKind::REM },
        Decoder { code: 0x2007033, mask: 0xfe00707f, kind: InsnKind::REMU },
        Decoder { code: 0x200603b, mask: 0xfe00707f, kind: InsnKind::REMW },
        Decoder { code: 0x200703b, mask: 0xfe00707f, kind: InsnKind::REMUW },
        Decoder { code: 0x1000202f, mask: 0xf9f0707f, kind: InsnKind::LRW },
        Decoder { code: 0x1000302f, mask: 0xf9f0707f, kind: InsnKind::LRD },
        Decoder { code: 0x1800202f, mask: 0xf800707f, kind: InsnKind::SCW },
        Decoder { code: 0x1800302f, mask: 0xf800707f, kind: InsnKind::SCD },
        Decoder { code: 0x800202f, mask: 0xf800707f, kind: InsnKind::AMOSWAPW },
        Decoder { code: 0x800302f, mask: 0xf800707f, kind: InsnKind::AMOSWAPD },
        Decoder { code: 0x202f, mask: 0xf800707f, kind: InsnKind::AMOADDW },
        Decoder { code: 0x302f, mask: 0xf800707f, kind: InsnKind::AMOADDD },
        Decoder { code: 0x6000202f, mask: 0xf800707f, kind: InsnKind::AMOANDW },
        Decoder { code: 0x6000302f, mask: 0xf800707f, kind: InsnKind::AMOADND },
        Decoder { code: 0x4000202f, mask: 0xf800707f, kind: InsnKind::AMOORW },
        Decoder { code: 0x4000302f, mask: 0xf800707f, kind: InsnKind::AMOORD },
        Decoder { code: 0x2000202f, mask: 0xf800707f, kind: InsnKind::AMOXORW },
        Decoder { code: 0x2000302f, mask: 0xf800707f, kind: InsnKind::AMOXORD },
        Decoder { code: 0xa000202f, mask: 0xf800707f, kind: InsnKind::AMOMAXW },
        Decoder { code: 0xa000302f, mask: 0xf800707f, kind: InsnKind::AMOMAXD },
        Decoder { code: 0x8000202f, mask: 0xf800707f, kind: InsnKind::AMOMINW },
        Decoder { code: 0x8000302f, mask: 0xf800707f, kind: InsnKind::AMOMIND },
        Decoder { code: 0xe000202f, mask: 0xf800707f, kind: InsnKind::AMOMAXUW },
        Decoder { code: 0xe000302f, mask: 0xf800707f, kind: InsnKind::AMOMAXUD },
        Decoder { code: 0xc000202f, mask: 0xf800707f, kind: InsnKind::AMOMINUW },
        Decoder { code: 0xc000302f, mask: 0xf800707f, kind: InsnKind::AMOMINUD },
        Decoder { code: 0x4002, mask: 0xe003, kind: InsnKind::CLWSP },
        Decoder { code: 0x6002, mask: 0xe003, kind: InsnKind::CLDSPCFLWSP },
        Decoder { code: 0x2002, mask: 0xe003, kind: InsnKind::CFLDSP },
        Decoder { code: 0xc002, mask: 0xe003, kind: InsnKind::CSWSP },
        Decoder { code: 0xe002, mask: 0xe003, kind: InsnKind::CSDSPFSWSP },
        Decoder { code: 0xa002, mask: 0xe003, kind: InsnKind::CFSDSP },
        Decoder { code: 0x4000, mask: 0xe003, kind: InsnKind::CLW },
        Decoder { code: 0x6000, mask: 0xe003, kind: InsnKind::CLDFLW },
        Decoder { code: 0x2000, mask: 0xe003, kind: InsnKind::CFLD },
        Decoder { code: 0xc000, mask: 0xe003, kind: InsnKind::CSW },
        Decoder { code: 0xe000, mask: 0xe003, kind: InsnKind::CSDFSW },
        Decoder { code: 0xa000, mask: 0xe003, kind: InsnKind::CFSD },
        Decoder { code: 0xa001, mask: 0xe003, kind: InsnKind::CJ },
        Decoder { code: 0x2001, mask: 0xe003, kind: InsnKind::CJALADDIW },
        Decoder { code: 0x8002, mask: 0xf003, kind: InsnKind::CJRMV },
        Decoder { code: 0x9002, mask: 0xf003, kind: InsnKind::CJALRADDEBREAK },
        Decoder { code: 0xc001, mask: 0xe003, kind: InsnKind::CBEQZ },
        Decoder { code: 0xe001, mask: 0xe003, kind: InsnKind::CBNEZ },
        Decoder { code: 0x4001, mask: 0xe003, kind: InsnKind::CLI },
        Decoder { code: 0x6001, mask: 0xe003, kind: InsnKind::CLUIADDI16SP },
        Decoder { code: 0x1, mask: 0xe003, kind: InsnKind::CADDINOP },
        Decoder { code: 0x0, mask: 0xe003, kind: InsnKind::CADDI14SPN },
        Decoder { code: 0x2, mask: 0xe003, kind: InsnKind::CSLLI },
        Decoder { code: 0x8001, mask: 0xec03, kind: InsnKind::CSRLI },
        Decoder { code: 0x8401, mask: 0xec03, kind: InsnKind::CSRAI },
        Decoder { code: 0x8801, mask: 0xec03, kind: InsnKind::CANDI },
        Decoder { code: 0x8c61, mask: 0xfc63, kind: InsnKind::CAND },
        Decoder { code: 0x8c41, mask: 0xfc63, kind: InsnKind::COR },
        Decoder { code: 0x8c21, mask: 0xfc63, kind: InsnKind::CXOR },
        Decoder { code: 0x8c01, mask: 0xfc63, kind: InsnKind::CSUB },
        Decoder { code: 0x9c21, mask: 0xfc63, kind: InsnKind::CADDW },
        Decoder { code: 0x9c01, mask: 0xfc63, kind: InsnKind::CSUBW },
        Decoder { code: 0x10200073, mask: 0xffffffff, kind: InsnKind::SRET },
        Decoder { code: 0x12000073, mask: 0xfe007fff, kind: InsnKind::SFENCEVMA },
        Decoder { code: 0x2007, mask: 0x707f, kind: InsnKind::FLW },
        Decoder { code: 0x2027, mask: 0x707f, kind: InsnKind::FSW },
        Decoder { code: 0x3007, mask: 0x707f, kind: InsnKind::FLD },
        Decoder { code: 0x3027, mask: 0x707f, kind: InsnKind::FSD },
        Decoder { code: 0x20000053, mask: 0xfe00707f, kind: InsnKind::FSGNJS },
        Decoder { code: 0x20001053, mask: 0xfe00707f, kind: InsnKind::FSGNJNS },
        Decoder { code: 0x20002053, mask: 0xfe00707f, kind: InsnKind::FSGNJXS },
        Decoder { code: 0xe0000053, mask: 0xfff0707f, kind: InsnKind::FMVXW },
        Decoder { code: 0xf0000053, mask: 0xfff0707f, kind: InsnKind::FMVWX },
        Decoder { code: 0x22000053, mask: 0xfe00707f, kind: InsnKind::FSGNJD },
        Decoder { code: 0x22001053, mask: 0xfe00707f, kind: InsnKind::FSGNJND },
        Decoder { code: 0x22002053, mask: 0xfe00707f, kind: InsnKind::FSGNJXD },
        Decoder { code: 0xe2000053, mask: 0xfff0707f, kind: InsnKind::FMVXD },
        Decoder { code: 0xf2000053, mask: 0xfff0707f, kind: InsnKind::FMVDX },
        Decoder { code: 0x53, mask: 0xfe00007f, kind: InsnKind::FADDS },
        Decoder { code: 0x8000053, mask: 0xfe00007f, kind: InsnKind::FSUBS },
        Decoder { code: 0x10000053, mask: 0xfe00007f, kind: InsnKind::FMULS },
        Decoder { code: 0x18000053, mask: 0xfe00007f, kind: InsnKind::FDIVS },
        Decoder { code: 0x58000053, mask: 0x7ff0007f, kind: InsnKind::FSQRTS },
        Decoder { code: 0x28000053, mask: 0xfe00707f, kind: InsnKind::FMINS },
        Decoder { code: 0x28001053, mask: 0xfe00707f, kind: InsnKind::FMAXS },
        Decoder { code: 0x43, mask: 0x600007f, kind: InsnKind::FMADDS },
        Decoder { code: 0x47, mask: 0x600007f, kind: InsnKind::FMSUBS },
        Decoder { code: 0x4b, mask: 0x600007f, kind: InsnKind::FMNSUBS },
        Decoder { code: 0x4f, mask: 0x600007f, kind: InsnKind::FMNADDS },
        Decoder { code: 0xc0000053, mask: 0xfff0007f, kind: InsnKind::FCVTWS },
        Decoder { code: 0xc0100053, mask: 0xfff0007f, kind: InsnKind::FCVTWUS },
        Decoder { code: 0xc0200053, mask: 0xfff0007f, kind: InsnKind::FCVTLS },
        Decoder { code: 0xc0300053, mask: 0xfff0007f, kind: InsnKind::FCVTLUS },
        Decoder { code: 0xd0000053, mask: 0xfff0007f, kind: InsnKind::FCVTSW },
        Decoder { code: 0xd0100053, mask: 0xfff0007f, kind: InsnKind::FCVTSWU },
        Decoder { code: 0xd0200053, mask: 0xfff0007f, kind: InsnKind::FCVTSL },
        Decoder { code: 0xd0300053, mask: 0xfff0007f, kind: InsnKind::FCVTSLU },
        Decoder { code: 0xa0002053, mask: 0xfe00707f, kind: InsnKind::FEQS },
        Decoder { code: 0xa0001053, mask: 0xfe00707f, kind: InsnKind::FLTS },
        Decoder { code: 0xa0000053, mask: 0xfe00707f, kind: InsnKind::FLES },
        Decoder { code: 0xe0001053, mask: 0xfff0707f, kind: InsnKind::FCLASSS },
        Decoder { code: 0x2000053, mask: 0xfe00007f, kind: InsnKind::FADDD },
        Decoder { code: 0xa000053, mask: 0xfe00007f, kind: InsnKind::FSUBD },
        Decoder { code: 0x12000053, mask: 0xfe00007f, kind: InsnKind::FMULD },
        Decoder { code: 0x1a000053, mask: 0xfe00007f, kind: InsnKind::FDIVD },
        Decoder { code: 0x5a000053, mask: 0xfff0007f, kind: InsnKind::FSQRTD },
        Decoder { code: 0x2a000053, mask: 0xfe00707f, kind: InsnKind::FMIND },
        Decoder { code: 0x2a001053, mask: 0xfe00707f, kind: InsnKind::FMAXD },
        Decoder { code: 0x2000043, mask: 0x600007f, kind: InsnKind::FMADDD },
        Decoder { code: 0x2000047, mask: 0x600007f, kind: InsnKind::FMSUBD },
        Decoder { code: 0x200004b, mask: 0x600007f, kind: InsnKind::FMNSUBD },
        Decoder { code: 0x200004f, mask: 0x600007f, kind: InsnKind::FMNADDD },
        Decoder { code: 0xc2000053, mask: 0xfff0007f, kind: InsnKind::FCVTWD },
        Decoder { code: 0xc2100053, mask: 0xfff0007f, kind: InsnKind::FCVTWUD },
        Decoder { code: 0xc2200053, mask: 0xfff0007f, kind: InsnKind::FCVTLD },
        Decoder { code: 0xc2300053, mask: 0xfff0007f, kind: InsnKind::FCVTLUD },
        Decoder { code: 0xd2000053, mask: 0xfff0007f, kind: InsnKind::FCVTDW },
        Decoder { code: 0xd2100053, mask: 0xfff0007f, kind: InsnKind::FCVTDWU },
        Decoder { code: 0xd2200053, mask: 0xfff0007f, kind: InsnKind::FCVTDL },
        Decoder { code: 0xd2300053, mask: 0xfff0007f, kind: InsnKind::FCVTDLU },
        Decoder { code: 0x40100053, mask: 0xfff0007f, kind: InsnKind::FCVTSD },
        Decoder { code: 0x42000053, mask: 0xfff0007f, kind: InsnKind::FCVTDS },
        Decoder { code: 0xa2002053, mask: 0xfe00707f, kind: InsnKind::FEQD },
        Decoder { code: 0xa2001053, mask: 0xfe00707f, kind: InsnKind::FLTD },
        Decoder { code: 0xa2000053, mask: 0xfe00707f, kind: InsnKind::FLED },
        Decoder { code: 0xe2001053, mask: 0xfff0707f, kind: InsnKind::FCLASSD },
    ]
}

/// The instruction table (see `spec_decoders`).
pub fn decoders() -> (r: Vec<Decoder>)
    ensures
        r@ == spec_decoders(),
{
    let v = vec![
        Decoder { code: 0x63, mask: 0x707f, kind: InsnKind::BEQ },
        Decoder { code: 0x1063, mask: 0x707f, kind: InsnKind::BNE },
        Decoder { code: 0x4063, mask: 0x707f, kind: InsnKind::BLT },
        Decoder { code: 0x5063, mask: 0x707f, kind: InsnKind::BGE },
        Decoder { code: 0x6063, mask: 0x707f, kind: InsnKind::BLTU },
        Decoder { code: 0x7063, mask: 0x707f, kind: InsnKind::BGEU },
        Decoder { code: 0x67, mask: 0x707f, kind: InsnKind::JALR },
        Decoder { code: 0x6f, mask: 0x7f, kind: InsnKind::JAL },
        Decoder { code: 0x37, mask: 0x7f, kind: InsnKind::LUI },
        Decoder { code: 0x17, mask: 0x7f, kind: InsnKind::AUIPC },
        Decoder { code: 0x13, mask: 0x707f, kind: InsnKind::ADDI },
        Decoder { code: 0x1b, mask: 0x707f, kind: InsnKind::ADDIW },
        Decoder { code: 0x1013, mask: 0xfc00707f, kind: InsnKind::SLLI },
        Decoder { code: 0x101b, mask: 0xfe00707f, kind: InsnKind::SLLIW },
        Decoder { code: 0x5013, mask: 0xfc00707f, kind: InsnKind::SRLI },
        Decoder { code: 0x501b, mask: 0xfe00707f, kind: InsnKind::SRLIW },
        Decoder { code: 0x40005013, mask: 0xfc00707f, kind: InsnKind::SRAI },
        Decoder { code: 0x4000501b, mask: 0xfe00707f, kind: InsnKind::SRAIW },
        Decoder { code: 0x2013, mask: 0x707f, kind: InsnKind::SLTI },
        Decoder { code: 0x3013, mask: 0x707f, kind: InsnKind::SLTIU },
        Decoder { code: 0x4013, mask: 0x707f, kind: InsnKind::XORI },
        Decoder { code: 0x6013, mask: 0x707f, kind: InsnKind::ORI },
        Decoder { code: 0x7013, mask: 0x707f, kind: InsnKind::ANDI },
        Decoder { code: 0x33, mask: 0xfe00707f, kind: InsnKind::ADD },
        Decoder { code: 0x3b, mask: 0xfe00707f, kind: InsnKind::ADDW },
        Decoder { code: 0x40000033, mask: 0xfe00707f, kind: InsnKind::SUB },
        Decoder { code: 0x4000003b, mask: 0xfe00707f, kind: InsnKind::SUBW },
        Decoder { code: 0x1033, mask: 0xfe00707f, kind: InsnKind::SLL },
        Decoder { code: 0x103b, mask: 0xfe00707f, kind: InsnKind::SLLW },
        Decoder { code: 0x5033, mask: 0xfe00707f, kind: InsnKind::SRL },
        Decoder { code: 0x503b, mask: 0xfe00707f, kind: InsnKind::SRLW },
        Decoder { code: 0x40005033, mask: 0xfe00707f, kind: InsnKind::SRA },
        Decoder { code: 0x4000503b, mask: 0xfe00707f, kind: InsnKind::SRAW },
        Decoder { code: 0x2033, mask: 0xfe00707f, kind: InsnKind::SLT },
        Decoder { code: 0x3033, mask: 0xfe00707f, kind: InsnKind::SLTU },
        Decoder { code: 0x4033, mask: 0xfe00707f, kind: InsnKind::XOR },
        Decoder { code: 0x6033, mask: 0xfe00707f, kind: InsnKind::OR },
        Decoder { code: 0x7033, mask: 0xfe00707f, kind: InsnKind::AND },
        Decoder { code: 0x3, mask: 0x707f, kind: InsnKind::LB },
        Decoder { code: 0x4003, mask: 0x707f, kind: InsnKind::LBU },
        Decoder { code: 0x1003, mask: 0x707f, kind: InsnKind::LH },
        Decoder { code: 0x5003, mask: 0x707f, kind: InsnKind::LHU },
        Decoder { code: 0x2003, mask: 0x707f, kind: InsnKind::LW },
        Decoder { code: 0x6003, mask: 0x707f, kind: InsnKind::LWU },
        Decoder { code: 0x3003, mask: 0x707f, kind: InsnKind::LD },
        Decoder { code: 0x23, mask: 0x707f, kind: InsnKind::SB },
        Decoder { code: 0x1023, mask: 0x707f, kind: InsnKind::SH },
        Decoder { code: 0x2023, mask: 0x707f, kind: InsnKind::SW },
        Decoder { code: 0x3023, mask: 0x707f, kind: InsnKind::SD },
        Decoder { code: 0xf, mask: 0x707f, kind: InsnKind::FENCE },
        Decoder { code: 0x100f, mask: 0x707f, kind: InsnKind::FENCEI },
        Decoder { code: 0x1073, mask: 0x707f, kind: InsnKind::CSRRW },
        Decoder { code: 0x2073, mask: 0x707f, kind: InsnKind::CSRRS },
        Decoder { code: 0x3073, mask: 0x707f, kind: InsnKind::CSRRC },
        Decoder { code: 0x5073, mask: 0x707f, kind: InsnKind::CSRRWI },
        Decoder { code: 0x6073, mask: 0x707f, kind: InsnKind::CSRRSI },
        Decoder { code: 0x7073, mask: 0x707f, kind: InsnKind::CSRRCI },
        Decoder { code: 0x73, mask: 0xffffffff, kind: InsnKind::ECALL },
        Decoder { code: 0x100073, mask: 0xffffffff, kind: InsnKind::EBREAK },
        Decoder { code: 0x30200073, mask: 0xffffffff, kind: InsnKind::MRET },
        Decoder { code: 0x10500073, mask: 0xffffffff, kind: InsnKind::WFI },
        Decoder { code: 0x2000033, mask: 0xfe00707f, kind: InsnKind::MUL },
        Decoder { code: 0x2001033, mask: 0xfe00707f, kind: InsnKind::MULH },
        Decoder { code: 0x2002033, mask: 0xfe00707f, kind: InsnKind::MULHSU },
        Decoder { code: 0x2003033, mask: 0xfe00707f, kind: InsnKind::MULHU },
        Decoder { code: 0x200003b, mask: 0xfe00707f, kind: InsnKind::MULW },
        Decoder { code: 0x2004033, mask: 0xfe00707f, kind: InsnKind::DIV },
        Decoder { code: 0x2005033, mask: 0xfe00707f, kind: InsnKind::DIVU },
        Decoder { code: 0x200403b, mask: 0xfe00707f, kind: InsnKind::DIVW },
        Decoder { code: 0x200503b, mask: 0xfe00707f, kind: InsnKind::DIVUW },
        Decoder { code: 0x2006033, mask: 0xfe00707f, kind: InsnKind::REM },
        Decoder { code: 0x2007033, mask: 0xfe00707f, kind: InsnKind::REMU },
        Decoder { code: 0x200603b, mask: 0xfe00707f, kind: InsnKind::REMW },
        Decoder { code: 0x200703b, mask: 0xfe00707f, kind: InsnKind::REMUW },
        Decoder { code: 0x1000202f, mask: 0xf9f0707f, kind: InsnKind::LRW },
        Decoder { code: 0x1000302f, mask: 0xf9f0707f, kind: InsnKind::LRD },
        Decoder { code: 0x1800202f, mask: 0xf800707f, kind: InsnKind::SCW },
        Decoder { code: 0x1800302f, mask: 0xf800707f, kind: InsnKind::SCD },
        Decoder { code: 0x800202f, mask: 0xf800707f, kind: InsnKind::AMOSWAPW },
        Decoder { code: 0x800302f, mask: 0xf800707f, kind: InsnKind::AMOSWAPD },
        Decoder { code: 0x202f, mask: 0xf800707f, kind: InsnKind::AMOADDW },
        Decoder { code: 0x302f, mask: 0xf800707f, kind: InsnKind::AMOADDD },
        Decoder { code: 0x6000202f, mask: 0xf800707f, kind: InsnKind::AMOANDW },
        Decoder { code: 0x6000302f, mask: 0xf800707f, kind: InsnKind::AMOADND },
        Decoder { code: 0x4000202f, mask: 0xf800707f, kind: InsnKind::AMOORW },
        Decoder { code: 0x4000302f, mask: 0xf800707f, kind: InsnKind::AMOORD },
        Decoder { code: 0x2000202f, mask: 0xf800707f, kind: InsnKind::AMOXORW },
        Decoder { code: 0x2000302f, mask: 0xf800707f, kind: InsnKind::AMOXORD },
        Decoder { code: 0xa000202f, mask: 0xf800707f, kind: InsnKind::AMOMAXW },
        Decoder { code: 0xa000302f, mask: 0xf800707f, kind: InsnKind::AMOMAXD },
        Decoder { code: 0x8000202f, mask: 0xf800707f, kind: InsnKind::AMOMINW },
        Decoder { code: 0x8000302f, mask: 0xf800707f, kind: InsnKind::AMOMIND },
        Decoder { code: 0xe000202f, mask: 0xf800707f, kind: InsnKind::AMOMAXUW },
        Decoder { code: 0xe000302f, mask: 0xf800707f, kind: InsnKind::AMOMAXUD },
        Decoder { code: 0xc000202f, mask: 0xf800707f, kind: InsnKind::AMOMINUW },
        Decoder { code: 0xc000302f, mask: 0xf800707f, kind: InsnKind::AMOMINUD },
        Decoder { code: 0x4002, mask: 0xe003, kind: InsnKind::CLWSP },
        Decoder { code: 0x6002, mask: 0xe003, kind: InsnKind::CLDSPCFLWSP },
        Decoder { code: 0x2002, mask: 0xe003, kind: InsnKind::CFLDSP },
        Decoder { code: 0xc002, mask: 0xe003, kind: InsnKind::CSWSP },
        Decoder { code: 0xe002, mask: 0xe003, kind: InsnKind::CSDSPFSWSP },
        Decoder { code: 0xa002, mask: 0xe003, kind: InsnKind::CFSDSP },
        Decoder { code: 0x4000, mask: 0xe003, kind: InsnKind::CLW },
        Decoder { code: 0x6000, mask: 0xe003, kind: InsnKind::CLDFLW },
        Decoder { code: 0x2000, mask: 0xe003, kind: InsnKind::CFLD },
        Decoder { code: 0xc000, mask: 0xe003, kind: InsnKind::CSW },
        Decoder { code: 0xe000, mask: 0xe003, kind: InsnKind::CSDFSW },
        Decoder { code: 0xa000, mask: 0xe003, kind: InsnKind::CFSD },
        Decoder { code: 0xa001, mask: 0xe003, kind: InsnKind::CJ },
        Decoder { code: 0x2001, mask: 0xe003, kind: InsnKind::CJALADDIW },
        Decoder { code: 0x8002, mask: 0xf003, kind: InsnKind::CJRMV },
        Decoder { code: 0x9002, mask: 0xf003, kind: InsnKind::CJALRADDEBREAK },
        Decoder { code: 0xc001, mask: 0xe003, kind: InsnKind::CBEQZ },
        Decoder { code: 0xe001, mask: 0xe003, kind: InsnKind::CBNEZ },
        Decoder { code: 0x4001, mask: 0xe003, kind: InsnKind::CLI },
        Decoder { code: 0x6001, mask: 0xe003, kind: InsnKind::CLUIADDI16SP },
        Decoder { code: 0x1, mask: 0xe003, kind: InsnKind::CADDINOP },
        Decoder { code: 0x0, mask: 0xe003, kind: InsnKind::CADDI14SPN },
        Decoder { code: 0x2, mask: 0xe003, kind: InsnKind::CSLLI },
        Decoder { code: 0x8001, mask: 0xec03, kind: InsnKind::CSRLI },
        Decoder { code: 0x8401, mask: 0xec03, kind: InsnKind::CSRAI },
        Decoder { code: 0x8801, mask: 0xec03, kind: InsnKind::CANDI },
        Decoder { code: 0x8c61, mask: 0xfc63, kind: InsnKind::CAND },
        Decoder { code: 0x8c41, mask: 0xfc63, kind: InsnKind::COR },
        Decoder { code: 0x8c21, mask: 0xfc63, kind: InsnKind::CXOR },
        Decoder { code: 0x8c01, mask: 0xfc63, kind: InsnKind::CSUB },
        Decoder { code: 0x9c21, mask: 0xfc63, kind: InsnKind::CADDW },
        Decoder { code: 0x9c01, mask: 0xfc63, kind: InsnKind::CSUBW },
        Decoder { code: 0x10200073, mask: 0xffffffff, kind: InsnKind::SRET },
        Decoder { code: 0x12000073, mask: 0xfe007fff, kind: InsnKind::SFENCEVMA },
        Decoder { code: 0x2007, mask: 0x707f, kind: InsnKind::FLW },
        Decoder { code: 0x2027, mask: 0x707f, kind: InsnKind::FSW },
        Decoder { code: 0x3007, mask: 0x707f, kind: InsnKind::FLD },
        Decoder { code: 0x3027, mask: 0x707f, kind: InsnKind::FSD },
        Decoder { code: 0x20000053, mask: 0xfe00707f, kind: InsnKind::FSGNJS },
        Decoder { code: 0x20001053, mask: 0xfe00707f, kind: InsnKind::FSGNJNS },
        Decoder { code: 0x20002053, mask: 0xfe00707f, kind: InsnKind::FSGNJXS },
        Decoder { code: 0xe0000053, mask: 0xfff0707f, kind: InsnKind::FMVXW },
        Decoder { code: 0xf0000053, mask: 0xfff0707f, kind: InsnKind::FMVWX },
        Decoder { code: 0x22000053, mask: 0xfe00707f, kind: InsnKind::FSGNJD },
        Decoder { code: 0x22001053, mask: 0xfe00707f, kind: InsnKind::FSGNJND },
        Decoder { code: 0x22002053, mask: 0xfe00707f, kind: InsnKind::FSGNJXD },
        Decoder { code: 0xe2000053, mask: 0xfff0707f, kind: InsnKind::FMVXD },
        Decoder { code: 0xf2000053, mask: 0xfff0707f, kind: InsnKind::FMVDX },
        Decoder { code: 0x53, mask: 0xfe00007f, kind: InsnKind::FADDS },
        Decoder { code: 0x8000053, mask: 0xfe00007f, kind: InsnKind::FSUBS },
        Decoder { code: 0x10000053, mask: 0xfe00007f, kind: InsnKind::FMULS },
        Decoder { code: 0x18000053, mask: 0xfe00007f, kind: InsnKind::FDIVS },
        Decoder { code: 0x58000053, mask: 0x7ff0007f, kind: InsnKind::FSQRTS },
        Decoder { code: 0x28000053, mask: 0xfe00707f, kind: InsnKind::FMINS },
        Decoder { code: 0x28001053, mask: 0xfe00707f, kind: InsnKind::FMAXS },
        Decoder { code: 0x43, mask: 0x600007f, kind: InsnKind::FMADDS },
        Decoder { code: 0x47, mask: 0x600007f, kind: InsnKind::FMSUBS },
        Decoder { code: 0x4b, mask: 0x600007f, kind: InsnKind::FMNSUBS },
        Decoder { code: 0x4f, mask: 0x600007f, kind: InsnKind::FMNADDS },
        Decoder { code: 0xc0000053, mask: 0xfff0007f, kind: InsnKind::FCVTWS },
        Decoder { code: 0xc0100053, mask: 0xfff0007f, kind: InsnKind::FCVTWUS },
        Decoder { code: 0xc0200053, mask: 0xfff0007f, kind: InsnKind::FCVTLS },
        Decoder { code: 0xc0300053, mask: 0xfff0007f, kind: InsnKind::FCVTLUS },
        Decoder { code: 0xd0000053, mask: 0xfff0007f, kind: InsnKind::FCVTSW },
        Decoder { code: 0xd0100053, mask: 0xfff0007f, kind: InsnKind::FCVTSWU },
        Decoder { code: 0xd0200053, mask: 0xfff0007f, kind: InsnKind::FCVTSL },
        Decoder { code: 0xd0300053, mask: 0xfff0007f, kind: InsnKind::FCVTSLU },
        Decoder { code: 0xa0002053, mask: 0xfe00707f, kind: InsnKind::FEQS },
        Decoder { code: 0xa0001053, mask: 0xfe00707f, kind: InsnKind::FLTS },
        Decoder { code: 0xa0000053, mask: 0xfe00707f, kind: InsnKind::FLES },
        Decoder { code: 0xe0001053, mask: 0xfff0707f, kind: InsnKind::FCLASSS },
        Decoder { code: 0x2000053, mask: 0xfe00007f, kind: InsnKind::FADDD },
        Decoder { code: 0xa000053, mask: 0xfe00007f, kind: InsnKind::FSUBD },
        Decoder { code: 0x12000053, mask: 0xfe00007f, kind: InsnKind::FMULD },
        Decoder { code: 0x1a000053, mask: 0xfe00007f, kind: InsnKind::FDIVD },
        Decoder { code: 0x5a000053, mask: 0xfff0007f, kind: InsnKind::FSQRTD },
        Decoder { code: 0x2a000053, mask: 0xfe00707f, kind: InsnKind::FMIND },
        Decoder { code: 0x2a001053, mask: 0xfe00707f, kind: InsnKind::FMAXD },
        Decoder { code: 0x2000043, mask: 0x600007f, kind: InsnKind::FMADDD },
        Decoder { code: 0x2000047, mask: 0x600007f, kind: InsnKind::FMSUBD },
        Decoder { code: 0x200004b, mask: 0x600007f, kind: InsnKind::FMNSUBD },
        Decoder { code: 0x200004f, mask: 0x600007f, kind: InsnKind::FMNADDD },
        Decoder { code: 0xc2000053, mask: 0xfff0007f, kind: InsnKind::FCVTWD },
        Decoder { code: 0xc2100053, mask: 0xfff0007f, kind: InsnKind::FCVTWUD },
        Decoder { code: 0xc2200053, mask: 0xfff0007f, kind: InsnKind::FCVTLD },
        Decoder { code: 0xc2300053, mask: 0xfff0007f, kind: InsnKind::FCVTLUD },
        Decoder { code: 0xd2000053, mask: 0xfff0007f, kind: InsnKind::FCVTDW },
        Decoder { code: 0xd2100053, mask: 0xfff0007f, kind: InsnKind::FCVTDWU },
        Decoder { code: 0xd2200053, mask: 0xfff0007f, kind: InsnKind::FCVTDL },
        Decoder { code: 0xd2300053, mask: 0xfff0007f, kind: InsnKind::FCVTDLU },
        Decoder { code: 0x40100053, mask: 0xfff0007f, kind: InsnKind::FCVTSD },
        Decoder { code: 0x42000053, mask: 0xfff0007f, kind: InsnKind::FCVTDS },
        Decoder { code: 0xa2002053, mask: 0xfe00707f, kind: InsnKind::FEQD },
        Decoder { code: 0xa2001053, mask: 0xfe00707f, kind: InsnKind::FLTD },
        Decoder { code: 0xa2000053, mask: 0xfe00707f, kind: InsnKind::FLED },
        Decoder { code: 0xe2001053, mask: 0xfff0707f, kind: InsnKind::FCLASSD },
    ];
    assert(v@ =~= spec_decoders());
    v
}

/// The instruction of `ir` among `table`: the first entry `ir` matches, or
/// an illegal-instruction exception when there is none.
pub open spec fn spec_decode(table: Seq<Decoder>, ir: InsnT) -> Result<InsnKind, Exception>
    decreases table.len(),
{
    if table.len() == 0 {
        Err(Exception::IllegalInsn(ir))
    } else if table[0].spec_matched(ir) {
        Ok(table[0].kind)
    } else {
        spec_decode(table.drop_first(), ir)
    }
}

/// The position of the first entry of `entries` with code `code`.
pub open spec fn code_index(entries: Seq<Decoder>, code: InsnT) -> Option<int>
    decreases entries.len(),
{
    if entries.len() == 0 {
        None
    } else if entries.last().code == code && code_index(entries.drop_last(), code) is None {
        Some(entries.len() - 1)
    } else {
        code_index(entries.drop_last(), code)
    }
}

/// The first entry with a code is at index `i` when the entries before it
/// have other codes.
proof fn lemma_code_index_first(entries: Seq<Decoder>, code: InsnT, i: int)
    requires
        0 <= i < entries.len(),
        entries[i].code == code,
        forall|j: int| 0 <= j < i ==> (#[trigger] entries[j]).code != code,
    ensures
        code_index(entries, code) == Some(i),
    decreases entries.len(),
{
    if i < entries.len() - 1 {
        lemma_code_index_first(entries.drop_last(), code, i);
    } else {
        lemma_code_index_none(entries.drop_last(), code);
    }
}

/// No entry has the code.
proof fn lemma_code_index_none(entries: Seq<Decoder>, code: InsnT)
    requires
        forall|j: int| 0 <= j < entries.len() ==> (#[trigger] entries[j]).code != code,
    ensures
        code_index(entries, code) is None,
    decreases entries.len(),
{
    if entries.len() > 0 {
        lemma_code_index_none(entries.drop_last(), code);
    }
}

/// A map from instruction words to instructions, filled by registering
/// decoders and searched in registration order.
pub struct SimpleInsnMap {
    pub entries: Vec<Decoder>,
}

impl SimpleInsnMap {
    /// An empty map.
    pub fn new() -> (r: SimpleInsnMap)
        ensures
            r.entries@.len() == 0,
    {
        SimpleInsnMap { entries: Vec::new() }
    }

    /// The map of every instruction of the table.
    pub fn global() -> (r: SimpleInsnMap)
        ensures
            r.entries@ == spec_decoders(),
    {
        SimpleInsnMap { entries: decoders() }
    }

    /// Registers `decoder`: it takes the place of the decoder registered
    /// with the same code, if any, else it is added last.
    pub fn registery(&mut self, decoder: Decoder)
        ensures
            final(self).entries@ == match code_index(old(self).entries@, decoder.code) {
                Some(i) => old(self).entries@.update(i, decoder),
                None => old(self).entries@.push(decoder),
            },
    {
        let mut i: usize = 0;
        while i < self.entries.len()
            invariant
                i <= self.entries@.len(),
                self.entries@ == old(self).entries@,
                forall|j: int| 0 <= j < i ==> (#[trigger] self.entries@[j]).code != decoder.code,
            decreases self.entries@.len() - i,
        {
            if self.entries[i].code == decoder.code {
                proof {
                    lemma_code_index_first(self.entries@, decoder.code, i as int);
                }
                self.entries.set(i, decoder);
                return;
            }
            i = i + 1;
        }
        proof {
            lemma_code_index_none(self.entries@, decoder.code);
        }
        self.entries.push(decoder);
    }

    /// The instruction of `ir` (see `spec_decode`).
    pub fn decode(&self, ir: &InsnT) -> (r: Result<InsnKind, Exception>)
        ensures
            r == spec_decode(self.entries@, *ir),
    {
        let mut i: usize = 0;
        proof {
            assert(self.entries@.subrange(0, self.entries@.len() as int) =~= self.entries@);
        }
        while i < self.entries.len()
            invariant
                i <= self.entries@.len(),
                spec_decode(self.entries@, *ir) == spec_decode(self.entries@.subrange(i as int, self.entries@.len() as int), *ir),
            decreases self.entries@.len() - i,
        {
            let ghost sub = self.entries@.subrange(i as int, self.entries@.len() as int);
            assert(sub[0] == self.entries@[i as int]);
            assert(sub.drop_first() =~= self.entries@.subrange(i as int + 1, self.entries@.len() as int));
            if self.entries[i].matched(ir) {
                return Ok(self.entries[i].kind);
            }
            i = i + 1;
        }
        Err(Exception::IllegalInsn(*ir))
    }
}

/// The code of row `i` of the table, as a function of the row that the
/// bit-vector solver can read.
spec fn table_code(i: u32) -> u32 {
    match i {
        0 => 0x63,
        1 => 0x1063,
        2 => 0x4063,
        3 => 0x5063,
        4 => 0x6063,
        5 => 0x7063,
        6 => 0x67,
        7 => 0x6f,
        8 => 0x37,
        9 => 0x17,
        10 => 0x13,
        11 => 0x1b,
        12 => 0x1013,
        13 => 0x101b,
        14 => 0x5013,
        15 => 0x501b,
        16 => 0x40005013,
        17 => 0x4000501b,
        18 => 0x2013,
        19 => 0x3013,
        20 => 0x4013,
        21 => 0x6013,
        22 => 0x7013,
        23 => 0x33,
        24 => 0x3b,
        25 => 0x40000033,
        26 => 0x4000003b,
        27 => 0x1033,
        28 => 0x103b,
        29 => 0x5033,
        30 => 0x503b,
        31 => 0x40005033,
        32 => 0x4000503b,
        33 => 0x2033,
        34 => 0x3033,
        35 => 0x4033,
        36 => 0x6033,
        37 => 0x7033,
        38 => 0x3,
        39 => 0x4003,
        40 => 0x1003,
        41 => 0x5003,
        42 => 0x2003,
        43 => 0x6003,
        44 => 0x3003,
        45 => 0x23,
        46 => 0x1023,
        47 => 0x2023,
        48 => 0x3023,
        49 => 0xf,
        50 => 0x100f,
        51 => 0x1073,
        52 => 0x2073,
        53 => 0x3073,
        54 => 0x5073,
        55 => 0x6073,
        56 => 0x7073,
        57 => 0x73,
        58 => 0x100073,
        59 => 0x30200073,
        60 => 0x10500073,
        61 => 0x2000033,
        62 => 0x2001033,
        63 => 0x2002033,
        64 => 0x2003033,
        65 => 0x200003b,
        66 => 0x2004033,
        67 => 0x2005033,
        68 => 0x200403b,
        69 => 0x200503b,
        70 => 0x2006033,
        71 => 0x2007033,
        72 => 0x200603b,
        73 => 0x200703b,
        74 => 0x1000202f,
        75 => 0x1000302f,
        76 => 0x1800202f,
        77 => 0x1800302f,
        78 => 0x800202f,
        79 => 0x800302f,
        80 => 0x202f,
        81 => 0x302f,
        82 => 0x6000202f,
        83 => 0x6000302f,
        84 => 0x4000202f,
        85 => 0x4000302f,
        86 => 0x2000202f,
        87 => 0x2000302f,
        88 => 0xa000202f,
        89 => 0xa000302f,
        90 => 0x8000202f,
        91 => 0x8000302f,
        92 => 0xe000202f,
        93 => 0xe000302f,
        94 => 0xc000202f,
        95 => 0xc000302f,
        96 => 0x4002,
        97 => 0x6002,
        98 => 0x2002,
        99 => 0xc002,
        100 => 0xe002,
        101 => 0xa002,
        102 => 0x4000,
        103 => 0x6000,
        104 => 0x2000,
        105 => 0xc000,
        106 => 0xe000,
        107 => 0xa000,
        108 => 0xa001,
        109 => 0x2001,
        110 => 0x8002,
        111 => 0x9002,
        112 => 0xc001,
        113 => 0xe001,
        114 => 0x4001,
        115 => 0x6001,
        116 => 0x1,
        117 => 0x0,
        118 => 0x2,
        119 => 0x8001,
        120 => 0x8401,
        121 => 0x8801,
        122 => 0x8c61,
        123 => 0x8c41,
        124 => 0x8c21,
        125 => 0x8c01,
        126 => 0x9c21,
        127 => 0x9c01,
        128 => 0x10200073,
        129 => 0x12000073,
        130 => 0x2007,
        131 => 0x2027,
        132 => 0x3007,
        133 => 0x3027,
        134 => 0x20000053,
        135 => 0x20001053,
        136 => 0x20002053,
        137 => 0xe0000053,
        138 => 0xf0000053,
        139 => 0x22000053,
        140 => 0x22001053,
        141 => 0x22002053,
        142 => 0xe2000053,
        143 => 0xf2000053,
        144 => 0x53,
        145 => 0x8000053,
        146 => 0x10000053,
        147 => 0x18000053,
        148 => 0x58000053,
        149 => 0x28000053,
        150 => 0x28001053,
        151 => 0x43,
        152 => 0x47,
        153 => 0x4b,
        154 => 0x4f,
        155 => 0xc0000053,
        156 => 0xc0100053,
        157 => 0xc0200053,
        158 => 0xc0300053,
        159 => 0xd0000053,
        160 => 0xd0100053,
        161 => 0xd0200053,
        162 => 0xd0300053,
        163 => 0xa0002053,
        164 => 0xa0001053,
        165 => 0xa0000053,
        166 => 0xe0001053,
        167 => 0x2000053,
        168 => 0xa000053,
        169 => 0x12000053,
        170 => 0x1a000053,
        171 => 0x5a000053,
        172 => 0x2a000053,
        173 => 0x2a001053,
        174 => 0x2000043,
        175 => 0x2000047,
        176 => 0x200004b,
        177 => 0x200004f,
        178 => 0xc2000053,
        179 => 0xc2100053,
        180 => 0xc2200053,
        181 => 0xc2300053,
        182 => 0xd2000053,
        183 => 0xd2100053,
        184 => 0xd2200053,
        185 => 0xd2300053,
        186 => 0x40100053,
        187 => 0x42000053,
        188 => 0xa2002053,
        189 => 0xa2001053,
        190 => 0xa2000053,
        191 => 0xe2001053,
        _ => 0,
    }
}

/// The mask of row `i` of the table (see `table_code`).
spec fn table_mask(i: u32) -> u32 {
    match i {
        0 => 0x707f,
        1 => 0x707f,
        2 => 0x707f,
        3 => 0x707f,
        4 => 0x707f,
        5 => 0x707f,
        6 => 0x707f,
        7 => 0x7f,
        8 => 0x7f,
        9 => 0x7f,
        10 => 0x707f,
        11 => 0x707f,
        12 => 0xfc00707f,
        13 => 0xfe00707f,
        14 => 0xfc00707f,
        15 => 0xfe00707f,
        16 => 0xfc00707f,
        17 => 0xfe00707f,
        18 => 0x707f,
        19 => 0x707f,
        20 => 0x707f,
        21 => 0x707f,
        22 => 0x707f,
        23 => 0xfe00707f,
        24 => 0xfe00707f,
        25 => 0xfe00707f,
        26 => 0xfe00707f,
        27 => 0xfe00707f,
        28 => 0xfe00707f,
        29 => 0xfe00707f,
        30 => 0xfe00707f,
        31 => 0xfe00707f,
        32 => 0xfe00707f,
        33 => 0xfe00707f,
        34 => 0xfe00707f,
        35 => 0xfe00707f,
        36 => 0xfe00707f,
        37 => 0xfe00707f,
        38 => 0x707f,
        39 => 0x707f,
        40 => 0x707f,
        41 => 0x707f,
        42 => 0x707f,
        43 => 0x707f,
        44 => 0x707f,
        45 => 0x707f,
        46 => 0x707f,
        47 => 0x707f,
        48 => 0x707f,
        49 => 0x707f,
        50 => 0x707f,
        51 => 0x707f,
        52 => 0x707f,
        53 => 0x707f,
        54 => 0x707f,
        55 => 0x707f,
        56 => 0x707f,
        57 => 0xffffffff,
        58 => 0xffffffff,
        59 => 0xffffffff,
        60 => 0xffffffff,
        61 => 0xfe00707f,
        62 => 0xfe00707f,
        63 => 0xfe00707f,
        64 => 0xfe00707f,
        65 => 0xfe00707f,
        66 => 0xfe00707f,
        67 => 0xfe00707f,
        68 => 0xfe00707f,
        69 => 0xfe00707f,
        70 => 0xfe00707f,
        71 => 0xfe00707f,
        72 => 0xfe00707f,
        73 => 0xfe00707f,
        74 => 0xf9f0707f,
        75 => 0xf9f0707f,
        76 => 0xf800707f,
        77 => 0xf800707f,
        78 => 0xf800707f,
        79 => 0xf800707f,
        80 => 0xf800707f,
        81 => 0xf800707f,
        82 => 0xf800707f,
        83 => 0xf800707f,
        84 => 0xf800707f,
        85 => 0xf800707f,
        86 => 0xf800707f,
        87 => 0xf800707f,
        88 => 0xf800707f,
        89 => 0xf800707f,
        90 => 0xf800707f,
        91 => 0xf800707f,
        92 => 0xf800707f,
        93 => 0xf800707f,
        94 => 0xf800707f,
        95 => 0xf800707f,
        96 => 0xe003,
        97 => 0xe003,
        98 => 0xe003,
        99 => 0xe003,
        100 => 0xe003,
        101 => 0xe003,
        102 => 0xe003,
        103 => 0xe003,
        104 => 0xe003,
        105 => 0xe003,
        106 => 0xe003,
        107 => 0xe003,
        108 => 0xe003,
        109 => 0xe003,
        110 => 0xf003,
        111 => 0xf003,
        112 => 0xe003,
        113 => 0xe003,
        114 => 0xe003,
        115 => 0xe003,
        116 => 0xe003,
        117 => 0xe003,
        118 => 0xe003,
        119 => 0xec03,
        120 => 0xec03,
        121 => 0xec03,
        122 => 0xfc63,
        123 => 0xfc63,
        124 => 0xfc63,
        125 => 0xfc63,
        126 => 0xfc63,
        127 => 0xfc63,
        128 => 0xffffffff,
        129 => 0xfe007fff,
        130 => 0x707f,
        131 => 0x707f,
        132 => 0x707f,
        133 => 0x707f,
        134 => 0xfe00707f,
        135 => 0xfe00707f,
        136 => 0xfe00707f,
        137 => 0xfff0707f,
        138 => 0xfff0707f,
        139 => 0xfe00707f,
        140 => 0xfe00707f,
        141 => 0xfe00707f,
        142 => 0xfff0707f,
        143 => 0xfff0707f,
        144 => 0xfe00007f,
        145 => 0xfe00007f,
        146 => 0xfe00007f,
        147 => 0xfe00007f,
        148 => 0x7ff0007f,
        149 => 0xfe00707f,
        150 => 0xfe00707f,
        151 => 0x600007f,
        152 => 0x600007f,
        153 => 0x600007f,
        154 => 0x600007f,
        155 => 0xfff0007f,
        156 => 0xfff0007f,
        157 => 0xfff0007f,
        158 => 0xfff0007f,
        159 => 0xfff0007f,
        160 => 0xfff0007f,
        161 => 0xfff0007f,
        162 => 0xfff0007f,
        163 => 0xfe00707f,
        164 => 0xfe00707f,
        165 => 0xfe00707f,
        166 => 0xfff0707f,
        167 => 0xfe00007f,
        168 => 0xfe00007f,
        169 => 0xfe00007f,
        170 => 0xfe00007f,
        171 => 0xfff0007f,
        172 => 0xfe00707f,
        173 => 0xfe00707f,
        174 => 0x600007f,
        175 => 0x600007f,
        176 => 0x600007f,
        177 => 0x600007f,
        178 => 0xfff0007f,
        179 => 0xfff0007f,
        180 => 0xfff0007f,
        181 => 0xfff0007f,
        182 => 0xfff0007f,
        183 => 0xfff0007f,
        184 => 0xfff0007f,
        185 => 0xfff0007f,
        186 => 0xfff0007f,
        187 => 0xfff0007f,
        188 => 0xfe00707f,
        189 => 0xfe00707f,
        190 => 0xfe00707f,
        191 => 0xfff0707f,
        _ => 0,
    }
}

/// The columns give the codes and masks of the table.
#[verifier::rlimit(100)]
proof fn lemma_table_columns()
    ensures
        spec_decoders().len() == 192,
        forall|i: int| 0 <= i < 192 ==> (#[trigger] spec_decoders()[i]).code == table_code(i as u32)
            && spec_decoders()[i].mask == table_mask(i as u32),
{
}

/// Any two rows differ on a bit that both their masks select.
#[verifier::rlimit(100)]
proof fn lemma_table_columns_disjoint()
    by (bit_vector)
    ensures
        forall|i: u32, j: u32| i < 192 && j < 192 && i != j
            ==> #[trigger] ((table_code(i) ^ table_code(j)) & table_mask(i) & table_mask(j)) != 0
                && table_code(i) != table_code(j),
{
}

/// A word that matches two patterns leaves no selected bit on which
/// their codes differ.
proof fn lemma_both_match(x: u32, c1: u32, m1: u32, c2: u32, m2: u32)
    by (bit_vector)
    requires
        x & m1 == c1,
        x & m2 == c2,
    ensures
        (c1 ^ c2) & m1 & m2 == 0,
{
}

/// No two rows of the table share a code.
pub proof fn lemma_table_codes_distinct()
    ensures
        forall|i: int, j: int| 0 <= i < spec_decoders().len() && 0 <= j < spec_decoders().len() && i != j
            ==> #[trigger] spec_decoders()[i].code != #[trigger] spec_decoders()[j].code,
{
    let s = spec_decoders();
    lemma_table_columns();
    lemma_table_columns_disjoint();
    assert forall|i: int, j: int| 0 <= i < s.len() && 0 <= j < s.len() && i != j
        implies #[trigger] s[i].code != #[trigger] s[j].code by {
        assert(((table_code(i as u32) ^ table_code(j as u32)) & table_mask(i as u32) & table_mask(j as u32)) != 0);
    }
}

/// No instruction word matches two rows of the table, so which row a word
/// is does not depend on the order in which the rows are searched.
pub proof fn lemma_table_unambiguous(ir: InsnT)
    ensures
        forall|i: int, j: int| 0 <= i < spec_decoders().len() && 0 <= j < spec_decoders().len()
            && #[trigger] spec_decoders()[i].spec_matched(ir) && #[trigger] spec_decoders()[j].spec_matched(ir)
            ==> i == j,
{
    let s = spec_decoders();
    lemma_table_columns();
    lemma_table_columns_disjoint();
    assert forall|i: int, j: int| 0 <= i < s.len() && 0 <= j < s.len()
        && #[trigger] s[i].spec_matched(ir) && #[trigger] s[j].spec_matched(ir) implies i == j by {
        if i != j {
            lemma_both_match(ir, s[i].code, s[i].mask, s[j].code, s[j].mask);
            assert(((table_code(i as u32) ^ table_code(j as u32)) & table_mask(i as u32) & table_mask(j as u32)) != 0);
        }
    }
}

} // verus!
