//! The decoded instruction representation.
//!
//! One variant per encoded instruction, not per mnemonic: overloaded
//! mnemonics are disambiguated by encoding, and each variant carries
//! exactly the operands the executor needs.  Register-list
//! instructions carry the bitmask of affected registers (bit `i` for
//! register `i`).

use vstd::prelude::*;

use crate::condition::Condition;
use crate::register::{ExtensionReg, Reg};

verus! {

/// The shift operations of the ARM ARM `Shift_C`.
#[derive(Clone, Copy, Debug, PartialEq, Eq, Structural)]
pub enum SRType {
    /// Logical shift left.
    LSL,
    /// Logical shift right.
    LSR,
    /// Arithmetic shift right.
    ASR,
    /// Rotate right with extend (through carry, by one).
    RRX,
    /// Rotate right.
    ROR,
}

/// Condition polarity of one slot of an IT block.
#[derive(Clone, Copy, Debug, PartialEq, Eq, Structural)]
pub enum ITCondition {
    /// The slot executes on the block's first condition.
    Then,
    /// The slot executes on the inverted condition.
    Else,
}

/// One expansion of a carry-dependent immediate: the expanded value
/// and the carry it produces.
#[derive(Clone, Copy, Debug, PartialEq, Eq, Structural)]
pub struct ImmCarry {
    /// The expanded immediate.
    pub imm32: u32,
    /// The carry-out of the expansion.
    pub carry: bool,
}

/// An immediate whose decoding may depend on the carry flag
/// (`ThumbExpandImm_C`): both expansions are precomputed so the
/// executor selects without re-decoding.
#[derive(Clone, Copy, Debug, PartialEq, Eq, Structural)]
pub enum Imm32Carry {
    /// The carry flag was irrelevant to the decoding.
    NoCarry {
        /// The expanded immediate.
        imm32: u32,
    },
    /// Expansions for carry-in 0 and carry-in 1.
    Carry {
        /// Value when the carry flag is clear.
        imm32_c0: ImmCarry,
        /// Value when the carry flag is set.
        imm32_c1: ImmCarry,
    },
}

/// Whether an instruction updates the APSR flags.
#[derive(Clone, Copy, Debug, PartialEq, Eq, Structural)]
pub enum SetFlags {
    /// Flags are always set.
    True,
    /// Flags are never set.
    False,
    /// Flags are set exactly when the instruction runs outside an IT
    /// block (the 16-bit encoding behaviour).
    NotInITBlock,
}

#[allow(missing_docs)]
#[derive(Clone, Copy, Debug, PartialEq, Eq, Structural)]
pub struct Reg3ShiftParams {
    pub rd: Reg,
    pub rn: Reg,
    pub rm: Reg,
    pub shift_t: SRType,
    pub shift_n: u8,
    pub setflags: SetFlags,
}

#[allow(missing_docs)]
#[derive(Clone, Copy, Debug, PartialEq, Eq, Structural)]
pub struct Reg3Params {
    pub rd: Reg,
    pub rn: Reg,
    pub rm: Reg,
    pub setflags: SetFlags,
}

#[allow(missing_docs)]
#[derive(Clone, Copy, Debug, PartialEq, Eq, Structural)]
pub struct Reg3NoSetFlagsParams {
    pub rd: Reg,
    pub rn: Reg,
    pub rm: Reg,
}

#[allow(missing_docs)]
#[derive(Clone, Copy, Debug, PartialEq, Eq, Structural)]
pub struct Reg2UsizeParams {
    pub rd: Reg,
    pub rm: Reg,
    pub rotation: usize,
}

#[allow(missing_docs)]
#[derive(Clone, Copy, Debug, PartialEq, Eq, Structural)]
pub struct Reg3UsizeParams {
    pub rd: Reg,
    pub rm: Reg,
    pub rn: Reg,
    pub rotation: usize,
}

#[allow(missing_docs)]
#[derive(Clone, Copy, Debug, PartialEq, Eq, Structural)]
pub struct Reg4NoSetFlagsParams {
    pub rd: Reg,
    pub rn: Reg,
    pub rm: Reg,
    pub ra: Reg,
}

#[allow(missing_docs)]
#[derive(Clone, Copy, Debug, PartialEq, Eq, Structural)]
pub struct Reg2ShiftParams {
    pub rd: Reg,
    pub rm: Reg,
    pub shift_t: SRType,
    pub shift_n: u8,
    pub setflags: SetFlags,
}

#[allow(missing_docs)]
#[derive(Clone, Copy, Debug, PartialEq, Eq, Structural)]
pub struct Reg2ShiftNParams {
    pub rd: Reg,
    pub rm: Reg,
    pub shift_n: u8,
    pub setflags: SetFlags,
}

#[allow(missing_docs)]
#[derive(Clone, Copy, Debug, PartialEq, Eq, Structural)]
pub struct Reg2Params {
    pub rd: Reg,
    pub rm: Reg,
    pub setflags: bool,
}

#[allow(missing_docs)]
#[derive(Clone, Copy, Debug, PartialEq, Eq, Structural)]
pub struct Reg2ImmParams {
    pub rd: Reg,
    pub rn: Reg,
    pub imm32: u32,
    pub setflags: SetFlags,
}

#[allow(missing_docs)]
#[derive(Clone, Copy, Debug, PartialEq, Eq, Structural)]
pub struct Reg2ImmCarryParams {
    pub rd: Reg,
    pub rn: Reg,
    pub imm32: Imm32Carry,
    pub setflags: bool,
}

#[allow(missing_docs)]
#[derive(Clone, Copy, Debug, PartialEq, Eq, Structural)]
pub struct RegImmCarryParams {
    pub rd: Reg,
    pub imm32: Imm32Carry,
    pub setflags: SetFlags,
}

#[allow(missing_docs)]
#[derive(Clone, Copy, Debug, PartialEq, Eq, Structural)]
pub struct RegImmCarryNoSetFlagsParams {
    pub rn: Reg,
    pub imm32: Imm32Carry,
}

#[allow(missing_docs)]
#[derive(Clone, Copy, Debug, PartialEq, Eq, Structural)]
pub struct Reg2ShiftNoSetFlagsParams {
    pub rn: Reg,
    pub rm: Reg,
    pub shift_t: SRType,
    pub shift_n: u8,
}

#[allow(missing_docs)]
#[derive(Clone, Copy, Debug, PartialEq, Eq, Structural)]
pub struct RegImmParams {
    pub r: Reg,
    pub imm32: u32,
}

#[allow(missing_docs)]
#[derive(Clone, Copy, Debug, PartialEq, Eq, Structural)]
pub struct Reg643232Params {
    pub rdlo: Reg,
    pub rdhi: Reg,
    pub rm: Reg,
    pub rn: Reg,
}

#[allow(missing_docs)]
#[derive(Clone, Copy, Debug, PartialEq, Eq, Structural)]
pub struct Reg3HighParams {
    pub rd: Reg,
    pub rn: Reg,
    pub rm: Reg,
    pub n_high: bool,
    pub m_high: bool,
}

#[allow(missing_docs)]
#[derive(Clone, Copy, Debug, PartialEq, Eq, Structural)]
pub struct Reg4HighParams {
    pub rd: Reg,
    pub rn: Reg,
    pub rm: Reg,
    pub ra: Reg,
    pub n_high: bool,
    pub m_high: bool,
}

/// A raw opcode, kept by `UDF` so an undefined encoding can be
/// reported exactly as fetched.
#[derive(Clone, Copy, Debug, PartialEq, Eq, Structural)]
pub enum ThumbCode {
    /// A 16-bit encoding.
    Thumb16 {
        /// The halfword as fetched.
        opcode: u16,
    },
    /// A 32-bit encoding, first halfword in the high bits.
    Thumb32 {
        /// The two halfwords as fetched.
        opcode: u32,
    },
}

#[allow(non_camel_case_types, missing_docs)]
#[derive(Clone, Copy, Debug, PartialEq, Eq, Structural)]
/// The decoded instruction set.  Variant names follow the ARM ARM
/// mnemonics, with the encoding variant (`t13`, `t24`, ...) spelled
/// out where one mnemonic has several shapes.
pub enum Instruction {
    // Branch instructions.
    B_t13 { cond: Condition, imm32: i32, thumb32: bool },
    B_t24 { imm32: i32, thumb32: bool },
    BL { imm32: i32 },
    BLX { rm: Reg },
    BX { rm: Reg },
    CBZ { rn: Reg, nonzero: bool, imm32: u32 },
    TBB { rn: Reg, rm: Reg },
    TBH { rn: Reg, rm: Reg },
    // Standard data-processing instructions.
    ADD_imm { params: Reg2ImmParams, thumb32: bool },
    ADD_reg { params: Reg3ShiftParams, thumb32: bool },
    ADD_sp_reg { params: Reg2ShiftParams, thumb32: bool },
    ADC_reg { params: Reg3ShiftParams, thumb32: bool },
    ADC_imm { params: Reg2ImmParams },
    ADR { params: RegImmParams, thumb32: bool },
    AND_reg { params: Reg3ShiftParams, thumb32: bool },
    AND_imm { params: Reg2ImmCarryParams },
    BIC_reg { params: Reg3ShiftParams, thumb32: bool },
    BIC_imm { params: Reg2ImmCarryParams },
    CMN_reg { params: Reg2ShiftNoSetFlagsParams, thumb32: bool },
    CMN_imm { params: RegImmParams },
    CMP_imm { params: RegImmParams, thumb32: bool },
    CMP_reg { params: Reg2ShiftNoSetFlagsParams, thumb32: bool },
    EOR_reg { params: Reg3ShiftParams, thumb32: bool },
    EOR_imm { params: Reg2ImmCarryParams },
    MOV_imm { params: RegImmCarryParams, thumb32: bool },
    MOV_reg { params: Reg2Params, thumb32: bool },
    MVN_reg { params: Reg2ShiftParams, thumb32: bool },
    MVN_imm { params: RegImmCarryParams },
    ORN_reg { params: Reg3ShiftParams },
    ORR_reg { params: Reg3ShiftParams, thumb32: bool },
    ORR_imm { params: Reg2ImmCarryParams },
    RSB_imm { params: Reg2ImmParams, thumb32: bool },
    RSB_reg { params: Reg3ShiftParams, thumb32: bool },
    SBC_reg { params: Reg3ShiftParams, thumb32: bool },
    SBC_imm { params: Reg2ImmParams },
    SUB_imm { params: Reg2ImmParams, thumb32: bool },
    SUB_reg { params: Reg3ShiftParams, thumb32: bool },
    TEQ_reg { params: Reg2ShiftNoSetFlagsParams },
    TEQ_imm { params: RegImmCarryNoSetFlagsParams },
    TST_reg { params: Reg2ShiftNoSetFlagsParams, thumb32: bool },
    TST_imm { params: RegImmCarryNoSetFlagsParams },
    // Shift instructions.
    ASR_imm { params: Reg2ShiftNParams, thumb32: bool },
    ASR_reg { params: Reg3Params, thumb32: bool },
    LSL_imm { params: Reg2ShiftNParams, thumb32: bool },
    LSL_reg { params: Reg3Params, thumb32: bool },
    LSR_imm { params: Reg2ShiftNParams, thumb32: bool },
    LSR_reg { params: Reg3Params, thumb32: bool },
    ROR_imm { params: Reg2ShiftNParams },
    ROR_reg { params: Reg3Params, thumb32: bool },
    RRX { params: Reg2Params },
    // Multiply instructions.
    MLA { params: Reg4NoSetFlagsParams },
    MLS { params: Reg4NoSetFlagsParams },
    MUL { params: Reg3Params, thumb32: bool },
    SMLAL { params: Reg643232Params },
    SMULL { params: Reg643232Params },
    UMLAL { params: Reg643232Params },
    UMULL { params: Reg643232Params },
    SMUL { params: Reg3HighParams },
    SMLA { params: Reg4HighParams },
    // Packing and unpacking instructions.
    SXTB { params: Reg2UsizeParams, thumb32: bool },
    SXTH { params: Reg2UsizeParams, thumb32: bool },
    UXTB { params: Reg2UsizeParams, thumb32: bool },
    UXTH { params: Reg2UsizeParams, thumb32: bool },
    UXTAB { params: Reg3UsizeParams },
    // Divide instructions.
    SDIV { params: Reg3NoSetFlagsParams },
    UDIV { params: Reg3NoSetFlagsParams },
    // Parallel add / sub.
    UADD8 { rd: Reg, rn: Reg, rm: Reg },
    // Miscellaneous data-processing instructions.
    BFC { rd: Reg, lsbit: usize, msbit: usize },
    BFI { rd: Reg, rn: Reg, lsbit: usize, width: usize },
    CLZ { rd: Reg, rm: Reg },
    MOVT { rd: Reg, imm16: u16 },
    REV { rd: Reg, rm: Reg, thumb32: bool },
    REV16 { rd: Reg, rm: Reg, thumb32: bool },
    REVSH { rd: Reg, rm: Reg, thumb32: bool },
    UBFX { rd: Reg, rn: Reg, lsb: usize, widthminus1: usize },
    SEL { rd: Reg, rn: Reg, rm: Reg },
    // Status register access instructions.
    MRS { rd: Reg, sysm: u8 },
    MSR_reg { rn: Reg, sysm: u8, mask: u8 },
    CPS { im: bool },
    // Load and store instructions.
    LDR_imm { rt: Reg, rn: Reg, imm32: u32, index: bool, add: bool, wback: bool, thumb32: bool },
    LDR_lit { rt: Reg, imm32: u32, add: bool, thumb32: bool },
    LDR_reg {
        rt: Reg,
        rn: Reg,
        rm: Reg,
        shift_t: SRType,
        shift_n: u8,
        index: bool,
        add: bool,
        wback: bool,
        thumb32: bool,
    },
    LDRB_imm { rt: Reg, rn: Reg, imm32: u32, index: bool, add: bool, wback: bool, thumb32: bool },
    LDRB_reg {
        rt: Reg,
        rn: Reg,
        rm: Reg,
        shift_t: SRType,
        shift_n: u8,
        index: bool,
        add: bool,
        wback: bool,
        thumb32: bool,
    },
    LDRH_imm { rt: Reg, rn: Reg, imm32: u32, index: bool, add: bool, wback: bool, thumb32: bool },
    LDRH_reg {
        rt: Reg,
        rn: Reg,
        rm: Reg,
        shift_t: SRType,
        shift_n: u8,
        index: bool,
        add: bool,
        wback: bool,
        thumb32: bool,
    },
    LDRSB_reg {
        rt: Reg,
        rn: Reg,
        rm: Reg,
        shift_t: SRType,
        shift_n: u8,
        index: bool,
        add: bool,
        wback: bool,
        thumb32: bool,
    },
    LDRSB_imm { rt: Reg, rn: Reg, imm32: u32, index: bool, add: bool, wback: bool, thumb32: bool },
    LDRSH_reg {
        rt: Reg,
        rn: Reg,
        rm: Reg,
        shift_t: SRType,
        shift_n: u8,
        index: bool,
        add: bool,
        wback: bool,
        thumb32: bool,
    },
    LDRSH_imm { rt: Reg, rn: Reg, imm32: u32, index: bool, add: bool, wback: bool, thumb32: bool },
    STR_imm { rn: Reg, rt: Reg, imm32: u32, index: bool, add: bool, wback: bool, thumb32: bool },
    STRD_imm { rn: Reg, rt: Reg, rt2: Reg, imm32: u32, index: bool, add: bool, wback: bool },
    STRB_reg {
        rm: Reg,
        rn: Reg,
        rt: Reg,
        shift_t: SRType,
        shift_n: u8,
        index: bool,
        add: bool,
        wback: bool,
        thumb32: bool,
    },
    STRH_imm { rt: Reg, rn: Reg, imm32: u32, index: bool, add: bool, wback: bool, thumb32: bool },
    STRH_reg {
        rm: Reg,
        rn: Reg,
        rt: Reg,
        shift_t: SRType,
        shift_n: u8,
        index: bool,
        add: bool,
        wback: bool,
        thumb32: bool,
    },
    LDREX { rt: Reg, rn: Reg, imm32: u32 },
    LDREXB { rt: Reg, rn: Reg },
    LDREXH { rt: Reg, rn: Reg },
    LDRD_imm { rn: Reg, rt: Reg, rt2: Reg, imm32: u32, index: bool, add: bool, wback: bool },
    STR_reg {
        rm: Reg,
        rn: Reg,
        rt: Reg,
        shift_t: SRType,
        shift_n: u8,
        index: bool,
        add: bool,
        wback: bool,
        thumb32: bool,
    },
    STRB_imm { rt: Reg, rn: Reg, imm32: u32, index: bool, add: bool, wback: bool, thumb32: bool },
    STREX { rd: Reg, rt: Reg, rn: Reg, imm32: u32 },
    STREXB { rd: Reg, rt: Reg, rn: Reg },
    STREXH { rd: Reg, rt: Reg, rn: Reg },
    // Load and store multiple instructions.
    LDM { rn: Reg, registers: u16, thumb32: bool },
    POP { registers: u16, thumb32: bool },
    PUSH { registers: u16, thumb32: bool },
    STM { rn: Reg, registers: u16, wback: bool, thumb32: bool },
    STMDB { rn: Reg, registers: u16, wback: bool },
    // Miscellaneous.
    DMB,
    DSB,
    ISB,
    IT { firstcond: Condition, mask: u8 },
    NOP { thumb32: bool },
    PLD_imm { rn: Reg, imm32: u32, add: bool },
    PLD_lit { imm32: u32, add: bool },
    PLD_reg { rn: Reg, rm: Reg, shift_t: SRType, shift_n: u8 },
    SEV { thumb32: bool },
    WFE { thumb32: bool },
    WFI { thumb32: bool },
    YIELD { thumb32: bool },
    // Exception-generating instructions.
    SVC { imm32: u32 },
    BKPT { imm32: u32 },
    // Coprocessor instructions.
    MCR { rt: Reg, coproc: u8, opc1: u8, opc2: u8, crn: u8, crm: u8 },
    MCR2 { rt: Reg, coproc: u8, opc1: u8, opc2: u8, crn: u8, crm: u8 },
    LDC_imm { coproc: u8, imm32: u32, crd: u8, rn: Reg },
    LDC2_imm { coproc: u8, imm32: u32, crd: u8, rn: Reg },
    UDF { imm32: u32, opcode: ThumbCode, thumb32: bool },
    // Floating-point load and store instructions.
    VLDR { dd: ExtensionReg, rn: Reg, add: bool, imm32: u32, single_reg: bool },
    VSTR { dd: ExtensionReg, rn: Reg, add: bool, imm32: u32, single_reg: bool },
}

/// Size in bytes of a halfword-pair encoding flag.
pub open spec fn spec_isize_t(thumb32: bool) -> usize {
    if thumb32 {
        4usize
    } else {
        2usize
    }
}

/// The size in bytes an instruction occupied in the instruction
/// stream: 4 for a consumed 32-bit encoding, otherwise 2.
pub open spec fn spec_instruction_size(instruction: Instruction) -> usize {
    match instruction {
        Instruction::ADC_imm { .. } => 4usize,
        Instruction::ADC_reg { thumb32, .. } => spec_isize_t(thumb32),
        Instruction::ADD_imm { thumb32, .. } => spec_isize_t(thumb32),
        Instruction::ADD_reg { thumb32, .. } => spec_isize_t(thumb32),
        Instruction::ADD_sp_reg { thumb32, .. } => spec_isize_t(thumb32),
        Instruction::ADR { thumb32, .. } => spec_isize_t(thumb32),
        Instruction::AND_imm { .. } => 4usize,
        Instruction::AND_reg { thumb32, .. } => spec_isize_t(thumb32),
        Instruction::ASR_imm { thumb32, .. } => spec_isize_t(thumb32),
        Instruction::ASR_reg { thumb32, .. } => spec_isize_t(thumb32),
        Instruction::B_t13 { thumb32, .. } => spec_isize_t(thumb32),
        Instruction::B_t24 { thumb32, .. } => spec_isize_t(thumb32),
        Instruction::BFI { .. } => 4usize,
        Instruction::BFC { .. } => 4usize,
        Instruction::BIC_imm { .. } => 4usize,
        Instruction::BIC_reg { thumb32, .. } => spec_isize_t(thumb32),
        Instruction::BKPT { .. } => 2usize,
        Instruction::BL { .. } => 4usize,
        Instruction::BLX { .. } => 2usize,
        Instruction::BX { .. } => 2usize,
        Instruction::CBZ { .. } => 2usize,
        Instruction::CLZ { .. } => 4usize,
        Instruction::CMN_imm { .. } => 4usize,
        Instruction::CMN_reg { thumb32, .. } => spec_isize_t(thumb32),
        Instruction::CMP_imm { thumb32, .. } => spec_isize_t(thumb32),
        Instruction::CMP_reg { thumb32, .. } => spec_isize_t(thumb32),
        Instruction::CPS { .. } => 2usize,
        Instruction::DMB { .. } => 4usize,
        Instruction::DSB { .. } => 4usize,
        Instruction::EOR_imm { .. } => 4usize,
        Instruction::EOR_reg { thumb32, .. } => spec_isize_t(thumb32),
        Instruction::ISB { .. } => 4usize,
        Instruction::IT { .. } => 2usize,
        Instruction::LDC_imm { .. } => 4usize,
        Instruction::LDC2_imm { .. } => 4usize,
        Instruction::LDM { thumb32, .. } => spec_isize_t(thumb32),
        Instruction::LDR_imm { thumb32, .. } => spec_isize_t(thumb32),
        Instruction::LDR_lit { thumb32, .. } => spec_isize_t(thumb32),
        Instruction::LDR_reg { thumb32, .. } => spec_isize_t(thumb32),
        Instruction::LDRB_imm { thumb32, .. } => spec_isize_t(thumb32),
        Instruction::LDRB_reg { thumb32, .. } => spec_isize_t(thumb32),
        Instruction::LDRD_imm { .. } => 4usize,
        Instruction::LDREX { .. } => 4usize,
        Instruction::LDREXB { .. } => 4usize,
        Instruction::LDREXH { .. } => 4usize,
        Instruction::LDRH_imm { thumb32, .. } => spec_isize_t(thumb32),
        Instruction::LDRH_reg { thumb32, .. } => spec_isize_t(thumb32),
        Instruction::LDRSB_imm { thumb32, .. } => spec_isize_t(thumb32),
        Instruction::LDRSB_reg { thumb32, .. } => spec_isize_t(thumb32),
        Instruction::LDRSH_imm { thumb32, .. } => spec_isize_t(thumb32),
        Instruction::LDRSH_reg { thumb32, .. } => spec_isize_t(thumb32),
        Instruction::LSL_imm { thumb32, .. } => spec_isize_t(thumb32),
        Instruction::LSL_reg { thumb32, .. } => spec_isize_t(thumb32),
        Instruction::LSR_imm { thumb32, .. } => spec_isize_t(thumb32),
        Instruction::LSR_reg { thumb32, .. } => spec_isize_t(thumb32),
        Instruction::MCR { .. } => 4usize,
        Instruction::MCR2 { .. } => 4usize,
        Instruction::MLA { .. } => 4usize,
        Instruction::MLS { .. } => 4usize,
        Instruction::MOV_imm { thumb32, .. } => spec_isize_t(thumb32),
        Instruction::MOV_reg { thumb32, .. } => spec_isize_t(thumb32),
        Instruction::MOVT { .. } => 4usize,
        Instruction::MRS { .. } => 4usize,
        Instruction::MSR_reg { .. } => 4usize,
        Instruction::MUL { thumb32, .. } => spec_isize_t(thumb32),
        Instruction::MVN_imm { .. } => 4usize,
        Instruction::MVN_reg { thumb32, .. } => spec_isize_t(thumb32),
        Instruction::NOP { thumb32, .. } => spec_isize_t(thumb32),
        Instruction::ORN_reg { .. } => 4usize,
        Instruction::ORR_imm { .. } => 4usize,
        Instruction::ORR_reg { thumb32, .. } => spec_isize_t(thumb32),
        Instruction::PLD_imm { .. } => 4usize,
        Instruction::PLD_lit { .. } => 4usize,
        Instruction::PLD_reg { .. } => 4usize,
        Instruction::POP { thumb32, .. } => spec_isize_t(thumb32),
        Instruction::PUSH { thumb32, .. } => spec_isize_t(thumb32),
        Instruction::REV { thumb32, .. } => spec_isize_t(thumb32),
        Instruction::REV16 { thumb32, .. } => spec_isize_t(thumb32),
        Instruction::REVSH { thumb32, .. } => spec_isize_t(thumb32),
        Instruction::ROR_imm { .. } => 4usize,
        Instruction::ROR_reg { thumb32, .. } => spec_isize_t(thumb32),
        Instruction::RRX { .. } => 4usize,
        Instruction::RSB_imm { thumb32, .. } => spec_isize_t(thumb32),
        Instruction::RSB_reg { .. } => 4usize,
        Instruction::SBC_imm { .. } => 4usize,
        Instruction::SBC_reg { thumb32, .. } => spec_isize_t(thumb32),
        Instruction::SDIV { .. } => 4usize,
        Instruction::SEL { .. } => 4usize,
        Instruction::SEV { thumb32, .. } => spec_isize_t(thumb32),
        Instruction::SMLA { .. } => 4usize,
        Instruction::SMLAL { .. } => 4usize,
        Instruction::SMUL { .. } => 4usize,
        Instruction::SMULL { .. } => 4usize,
        Instruction::STM { thumb32, .. } => spec_isize_t(thumb32),
        Instruction::STMDB { .. } => 4usize,
        Instruction::STR_imm { thumb32, .. } => spec_isize_t(thumb32),
        Instruction::STR_reg { thumb32, .. } => spec_isize_t(thumb32),
        Instruction::STRB_imm { thumb32, .. } => spec_isize_t(thumb32),
        Instruction::STRB_reg { thumb32, .. } => spec_isize_t(thumb32),
        Instruction::STRD_imm { .. } => 4usize,
        Instruction::STREX { .. } => 4usize,
        Instruction::STREXB { .. } => 4usize,
        Instruction::STREXH { .. } => 4usize,
        Instruction::STRH_imm { thumb32, .. } => spec_isize_t(thumb32),
        Instruction::STRH_reg { thumb32, .. } => spec_isize_t(thumb32),
        Instruction::SUB_imm { thumb32, .. } => spec_isize_t(thumb32),
        Instruction::SUB_reg { thumb32, .. } => spec_isize_t(thumb32),
        Instruction::SVC { .. } => 2usize,
        Instruction::SXTB { thumb32, .. } => spec_isize_t(thumb32),
        Instruction::SXTH { thumb32, .. } => spec_isize_t(thumb32),
        Instruction::TBB { .. } => 4usize,
        Instruction::TBH { .. } => 4usize,
        Instruction::TEQ_imm { .. } => 4usize,
        Instruction::TEQ_reg { .. } => 4usize,
        Instruction::TST_imm { .. } => 4usize,
        Instruction::TST_reg { thumb32, .. } => spec_isize_t(thumb32),
        Instruction::UADD8 { .. } => 4usize,
        Instruction::UBFX { .. } => 4usize,
        Instruction::UDF { thumb32, .. } => spec_isize_t(thumb32),
        Instruction::UDIV { .. } => 4usize,
        Instruction::UMLAL { .. } => 4usize,
        Instruction::UMULL { .. } => 4usize,
        Instruction::UXTAB { .. } => 4usize,
        Instruction::UXTB { thumb32, .. } => spec_isize_t(thumb32),
        Instruction::UXTH { thumb32, .. } => spec_isize_t(thumb32),
        Instruction::WFE { thumb32, .. } => spec_isize_t(thumb32),
        Instruction::WFI { thumb32, .. } => spec_isize_t(thumb32),
        Instruction::YIELD { thumb32, .. } => spec_isize_t(thumb32),
        Instruction::VLDR { .. } => 4usize,
        Instruction::VSTR { .. } => 4usize,
    }
}

/// Whether the size of this variant follows its `thumb32` marker.
fn isize_t(thumb32: bool) -> (r: usize)
    ensures
        r == spec_isize_t(thumb32),
{
    if thumb32 {
        4
    } else {
        2
    }
}

/// Get the size of an instruction in bytes: 2 or 4, per the Thumb
/// size rule.
pub fn instruction_size(instruction: &Instruction) -> (r: usize)
    ensures
        r == spec_instruction_size(*instruction),
        r == 2 || r == 4,
{
    match *instruction {
        Instruction::ADC_imm { .. } => 4,
        Instruction::ADC_reg { thumb32, .. } => isize_t(thumb32),
        Instruction::ADD_imm { thumb32, .. } => isize_t(thumb32),
        Instruction::ADD_reg { thumb32, .. } => isize_t(thumb32),
        Instruction::ADD_sp_reg { thumb32, .. } => isize_t(thumb32),
        Instruction::ADR { thumb32, .. } => isize_t(thumb32),
        Instruction::AND_imm { .. } => 4,
        Instruction::AND_reg { thumb32, .. } => isize_t(thumb32),
        Instruction::ASR_imm { thumb32, .. } => isize_t(thumb32),
        Instruction::ASR_reg { thumb32, .. } => isize_t(thumb32),
        Instruction::B_t13 { thumb32, .. } => isize_t(thumb32),
        Instruction::B_t24 { thumb32, .. } => isize_t(thumb32),
        Instruction::BFI { .. } => 4,
        Instruction::BFC { .. } => 4,
        Instruction::BIC_imm { .. } => 4,
        Instruction::BIC_reg { thumb32, .. } => isize_t(thumb32),
        Instruction::BKPT { .. } => 2,
        Instruction::BL { .. } => 4,
        Instruction::BLX { .. } => 2,
        Instruction::BX { .. } => 2,
        Instruction::CBZ { .. } => 2,
        Instruction::CLZ { .. } => 4,
        Instruction::CMN_imm { .. } => 4,
        Instruction::CMN_reg { thumb32, .. } => isize_t(thumb32),
        Instruction::CMP_imm { thumb32, .. } => isize_t(thumb32),
        Instruction::CMP_reg { thumb32, .. } => isize_t(thumb32),
        Instruction::CPS { .. } => 2,
        Instruction::DMB { .. } => 4,
        Instruction::DSB { .. } => 4,
        Instruction::EOR_imm { .. } => 4,
        Instruction::EOR_reg { thumb32, .. } => isize_t(thumb32),
        Instruction::ISB { .. } => 4,
        Instruction::IT { .. } => 2,
        Instruction::LDC_imm { .. } => 4,
        Instruction::LDC2_imm { .. } => 4,
        Instruction::LDM { thumb32, .. } => isize_t(thumb32),
        Instruction::LDR_imm { thumb32, .. } => isize_t(thumb32),
        Instruction::LDR_lit { thumb32, .. } => isize_t(thumb32),
        Instruction::LDR_reg { thumb32, .. } => isize_t(thumb32),
        Instruction::LDRB_imm { thumb32, .. } => isize_t(thumb32),
        Instruction::LDRB_reg { thumb32, .. } => isize_t(thumb32),
        Instruction::LDRD_imm { .. } => 4,
        Instruction::LDREX { .. } => 4,
        Instruction::LDREXB { .. } => 4,
        Instruction::LDREXH { .. } => 4,
        Instruction::LDRH_imm { thumb32, .. } => isize_t(thumb32),
        Instruction::LDRH_reg { thumb32, .. } => isize_t(thumb32),
        Instruction::LDRSB_imm { thumb32, .. } => isize_t(thumb32),
        Instruction::LDRSB_reg { thumb32, .. } => isize_t(thumb32),
        Instruction::LDRSH_imm { thumb32, .. } => isize_t(thumb32),
        Instruction::LDRSH_reg { thumb32, .. } => isize_t(thumb32),
        Instruction::LSL_imm { thumb32, .. } => isize_t(thumb32),
        Instruction::LSL_reg { thumb32, .. } => isize_t(thumb32),
        Instruction::LSR_imm { thumb32, .. } => isize_t(thumb32),
        Instruction::LSR_reg { thumb32, .. } => isize_t(thumb32),
        Instruction::MCR { .. } => 4,
        Instruction::MCR2 { .. } => 4,
        Instruction::MLA { .. } => 4,
        Instruction::MLS { .. } => 4,
        Instruction::MOV_imm { thumb32, .. } => isize_t(thumb32),
        Instruction::MOV_reg { thumb32, .. } => isize_t(thumb32),
        Instruction::MOVT { .. } => 4,
        Instruction::MRS { .. } => 4,
        Instruction::MSR_reg { .. } => 4,
        Instruction::MUL { thumb32, .. } => isize_t(thumb32),
        Instruction::MVN_imm { .. } => 4,
        Instruction::MVN_reg { thumb32, .. } => isize_t(thumb32),
        Instruction::NOP { thumb32, .. } => isize_t(thumb32),
        Instruction::ORN_reg { .. } => 4,
        Instruction::ORR_imm { .. } => 4,
        Instruction::ORR_reg { thumb32, .. } => isize_t(thumb32),
        Instruction::PLD_imm { .. } => 4,
        Instruction::PLD_lit { .. } => 4,
        Instruction::PLD_reg { .. } => 4,
        Instruction::POP { thumb32, .. } => isize_t(thumb32),
        Instruction::PUSH { thumb32, .. } => isize_t(thumb32),
        Instruction::REV { thumb32, .. } => isize_t(thumb32),
        Instruction::REV16 { thumb32, .. } => isize_t(thumb32),
        Instruction::REVSH { thumb32, .. } => isize_t(thumb32),
        Instruction::ROR_imm { .. } => 4,
        Instruction::ROR_reg { thumb32, .. } => isize_t(thumb32),
        Instruction::RRX { .. } => 4,
        Instruction::RSB_imm { thumb32, .. } => isize_t(thumb32),
        Instruction::RSB_reg { .. } => 4,
        Instruction::SBC_imm { .. } => 4,
        Instruction::SBC_reg { thumb32, .. } => isize_t(thumb32),
        Instruction::SDIV { .. } => 4,
        Instruction::SEL { .. } => 4,
        Instruction::SEV { thumb32, .. } => isize_t(thumb32),
        Instruction::SMLA { .. } => 4,
        Instruction::SMLAL { .. } => 4,
        Instruction::SMUL { .. } => 4,
        Instruction::SMULL { .. } => 4,
        Instruction::STM { thumb32, .. } => isize_t(thumb32),
        Instruction::STMDB { .. } => 4,
        Instruction::STR_imm { thumb32, .. } => isize_t(thumb32),
        Instruction::STR_reg { thumb32, .. } => isize_t(thumb32),
        Instruction::STRB_imm { thumb32, .. } => isize_t(thumb32),
        Instruction::STRB_reg { thumb32, .. } => isize_t(thumb32),
        Instruction::STRD_imm { .. } => 4,
        Instruction::STREX { .. } => 4,
        Instruction::STREXB { .. } => 4,
        Instruction::STREXH { .. } => 4,
        Instruction::STRH_imm { thumb32, .. } => isize_t(thumb32),
        Instruction::STRH_reg { thumb32, .. } => isize_t(thumb32),
        Instruction::SUB_imm { thumb32, .. } => isize_t(thumb32),
        Instruction::SUB_reg { thumb32, .. } => isize_t(thumb32),
        Instruction::SVC { .. } => 2,
        Instruction::SXTB { thumb32, .. } => isize_t(thumb32),
        Instruction::SXTH { thumb32, .. } => isize_t(thumb32),
        Instruction::TBB { .. } => 4,
        Instruction::TBH { .. } => 4,
        Instruction::TEQ_imm { .. } => 4,
        Instruction::TEQ_reg { .. } => 4,
        Instruction::TST_imm { .. } => 4,
        Instruction::TST_reg { thumb32, .. } => isize_t(thumb32),
        Instruction::UADD8 { .. } => 4,
        Instruction::UBFX { .. } => 4,
        Instruction::UDF { thumb32, .. } => isize_t(thumb32),
        Instruction::UDIV { .. } => 4,
        Instruction::UMLAL { .. } => 4,
        Instruction::UMULL { .. } => 4,
        Instruction::UXTAB { .. } => 4,
        Instruction::UXTB { thumb32, .. } => isize_t(thumb32),
        Instruction::UXTH { thumb32, .. } => isize_t(thumb32),
        Instruction::WFE { thumb32, .. } => isize_t(thumb32),
        Instruction::WFI { thumb32, .. } => isize_t(thumb32),
        Instruction::YIELD { thumb32, .. } => isize_t(thumb32),
        Instruction::VLDR { .. } => 4,
        Instruction::VSTR { .. } => 4,
    }
}

} // verus!
