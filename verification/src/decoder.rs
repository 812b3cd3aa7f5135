//! The Thumb decoder: a two-level dispatch from raw 16- and 32-bit
//! halfwords to the tagged instruction representation.
//!
//! Encodings are carved out of the opcode with plain quotients and
//! remainders: bits `hi:lo` of `x` are `(x / 2^lo) % 2^(hi-lo+1)`.
//! Encodings this profile does not implement decode to `UDF`
//! carrying the raw opcode, so the executor surfaces them as an
//! undefined-instruction fault; that fallback is deliberate.

use vstd::prelude::*;

use crate::condition::{spec_cond_of, Condition};
use crate::instruction::{
    spec_instruction_size, Imm32Carry, Instruction, Reg2ImmParams, Reg2Params, Reg2ShiftNParams,
    Reg2ShiftNoSetFlagsParams, Reg2ShiftParams, Reg2UsizeParams, Reg3Params, Reg3ShiftParams,
    RegImmCarryParams, RegImmParams, SRType, SetFlags, ThumbCode,
};
use crate::operation::{decode_imm_shift, sign_extend, thumb_expand_imm};
use crate::register::{spec_reg_of, Reg};

verus! {

/// Whether a halfword is the first half of a 32-bit encoding: its
/// top five bits are `0b11101`, `0b11110` or `0b11111`.
pub fn is_thumb32(hw: u16) -> (r: bool)
    ensures
        r == (hw >= 0xE800),
{
    hw >= 0xE800
}

/// `2^n` as a 16-bit register-list bit.
fn bit16(n: u16) -> (r: u16)
    requires
        n < 16,
    ensures
        r == vstd::arithmetic::power2::pow2(n as nat),
{
    proof {
        vstd::bits::lemma_u16_pow2_no_overflow(n as nat);
        vstd::bits::lemma_u16_shl_is_mul(1u16, n);
    }
    1u16 << n
}

/// The `UDF` instruction a rejected 16-bit encoding decodes to.
fn udf16(opcode: u16) -> (r: Instruction)
    ensures
        r == (Instruction::UDF {
            imm32: 0u32,
            opcode: ThumbCode::Thumb16 { opcode },
            thumb32: false,
        }),
{
    Instruction::UDF { imm32: 0, opcode: ThumbCode::Thumb16 { opcode }, thumb32: false }
}

/// The `UDF` instruction a rejected 32-bit encoding decodes to.
fn udf32(opcode: u32) -> (r: Instruction)
    ensures
        r == (Instruction::UDF {
            imm32: 0u32,
            opcode: ThumbCode::Thumb32 { opcode },
            thumb32: true,
        }),
{
    Instruction::UDF { imm32: 0, opcode: ThumbCode::Thumb32 { opcode }, thumb32: true }
}

/// ADC (register) T1: `0100000101 rm:3 rdn:3`.
pub fn decode_ADC_reg_t1(opcode: u16) -> (r: Instruction)
    ensures
        r == (Instruction::ADC_reg {
            params: Reg3ShiftParams {
                rd: spec_reg_of(opcode as int % 8),
                rn: spec_reg_of(opcode as int % 8),
                rm: spec_reg_of(opcode as int / 8 % 8),
                shift_t: SRType::LSL,
                shift_n: 0u8,
                setflags: SetFlags::NotInITBlock,
            },
            thumb32: false,
        }),
{
    Instruction::ADC_reg {
        params: Reg3ShiftParams {
            rd: Reg::from_bits(opcode % 8),
            rn: Reg::from_bits(opcode % 8),
            rm: Reg::from_bits((opcode / 8) % 8),
            shift_t: SRType::LSL,
            shift_n: 0,
            setflags: SetFlags::NotInITBlock,
        },
        thumb32: false,
    }
}

/// ADC (register) T2 is reserved on this profile and decodes to UDF.
pub fn decode_ADC_reg_t2(opcode: u32) -> (r: Instruction)
    ensures
        r == (Instruction::UDF {
            imm32: 0u32,
            opcode: ThumbCode::Thumb32 { opcode },
            thumb32: true,
        }),
{
    udf32(opcode)
}

/// ADC (immediate) T1 is reserved on this profile and decodes to UDF.
pub fn decode_ADC_imm_t1(opcode: u32) -> (r: Instruction)
    ensures
        r == (Instruction::UDF {
            imm32: 0u32,
            opcode: ThumbCode::Thumb32 { opcode },
            thumb32: true,
        }),
{
    udf32(opcode)
}

/// ADD (register) T1: `0001100 rm:3 rn:3 rd:3`.
pub fn decode_ADD_reg_t1(opcode: u16) -> (r: Instruction)
    ensures
        r == (Instruction::ADD_reg {
            params: Reg3ShiftParams {
                rd: spec_reg_of(opcode as int % 8),
                rn: spec_reg_of(opcode as int / 8 % 8),
                rm: spec_reg_of(opcode as int / 64 % 8),
                shift_t: SRType::LSL,
                shift_n: 0u8,
                setflags: SetFlags::NotInITBlock,
            },
            thumb32: false,
        }),
{
    Instruction::ADD_reg {
        params: Reg3ShiftParams {
            rd: Reg::from_bits(opcode % 8),
            rn: Reg::from_bits((opcode / 8) % 8),
            rm: Reg::from_bits((opcode / 64) % 8),
            shift_t: SRType::LSL,
            shift_n: 0,
            setflags: SetFlags::NotInITBlock,
        },
        thumb32: false,
    }
}

/// ADD (register) T2, including ADD (SP plus register):
/// `01000100 dn:1 rm:4 rdn:3`.
pub fn decode_ADD_reg_t2_ADD_SP_reg(opcode: u16) -> (r: Instruction)
    ensures
        r == (Instruction::ADD_reg {
            params: Reg3ShiftParams {
                rd: spec_reg_of(opcode as int / 128 % 2 * 8 + opcode as int % 8),
                rn: spec_reg_of(opcode as int / 128 % 2 * 8 + opcode as int % 8),
                rm: spec_reg_of(opcode as int / 8 % 16),
                shift_t: SRType::LSL,
                shift_n: 0u8,
                setflags: SetFlags::False,
            },
            thumb32: false,
        }),
{
    let rdn: Reg = Reg::from_bits((opcode / 128) % 2 * 8 + opcode % 8);
    Instruction::ADD_reg {
        params: Reg3ShiftParams {
            rd: rdn,
            rn: rdn,
            rm: Reg::from_bits((opcode / 8) % 16),
            shift_t: SRType::LSL,
            shift_n: 0,
            setflags: SetFlags::False,
        },
        thumb32: false,
    }
}

/// ADD (register) T3 is reserved on this profile and decodes to UDF.
pub fn decode_ADD_reg_t3(opcode: u32) -> (r: Instruction)
    ensures
        r == (Instruction::UDF {
            imm32: 0u32,
            opcode: ThumbCode::Thumb32 { opcode },
            thumb32: true,
        }),
{
    udf32(opcode)
}

/// ADD (immediate) T1: `0001110 imm3 rn:3 rd:3`.
pub fn decode_ADD_imm_t1(opcode: u16) -> (r: Instruction)
    ensures
        r == (Instruction::ADD_imm {
            params: Reg2ImmParams {
                rd: spec_reg_of(opcode as int % 8),
                rn: spec_reg_of(opcode as int / 8 % 8),
                imm32: (opcode / 64 % 8) as u32,
                setflags: SetFlags::NotInITBlock,
            },
            thumb32: false,
        }),
{
    Instruction::ADD_imm {
        params: Reg2ImmParams {
            rd: Reg::from_bits(opcode % 8),
            rn: Reg::from_bits((opcode / 8) % 8),
            imm32: ((opcode / 64) % 8) as u32,
            setflags: SetFlags::NotInITBlock,
        },
        thumb32: false,
    }
}

/// ADD (immediate) T2: `00110 rdn:3 imm8`.
pub fn decode_ADD_imm_t2(opcode: u16) -> (r: Instruction)
    ensures
        r == (Instruction::ADD_imm {
            params: Reg2ImmParams {
                rd: spec_reg_of(opcode as int / 256 % 8),
                rn: spec_reg_of(opcode as int / 256 % 8),
                imm32: (opcode % 256) as u32,
                setflags: SetFlags::NotInITBlock,
            },
            thumb32: false,
        }),
{
    Instruction::ADD_imm {
        params: Reg2ImmParams {
            rd: Reg::from_bits((opcode / 256) % 8),
            rn: Reg::from_bits((opcode / 256) % 8),
            imm32: (opcode % 256) as u32,
            setflags: SetFlags::NotInITBlock,
        },
        thumb32: false,
    }
}

/// ADD (SP plus immediate) T1: `10101 rd:3 imm8`, immediate times 4.
pub fn decode_ADD_SP_imm_t1(opcode: u16) -> (r: Instruction)
    ensures
        r == (Instruction::ADD_imm {
            params: Reg2ImmParams {
                rd: spec_reg_of(opcode as int / 256 % 8),
                rn: Reg::SP,
                imm32: ((opcode % 256) * 4) as u32,
                setflags: SetFlags::False,
            },
            thumb32: false,
        }),
{
    Instruction::ADD_imm {
        params: Reg2ImmParams {
            rd: Reg::from_bits((opcode / 256) % 8),
            rn: Reg::SP,
            imm32: ((opcode % 256) as u32) * 4,
            setflags: SetFlags::False,
        },
        thumb32: false,
    }
}

/// ADD (SP plus immediate) T2: `101100000 imm7`, immediate times 4.
pub fn decode_ADD_SP_imm_t2(opcode: u16) -> (r: Instruction)
    ensures
        r == (Instruction::ADD_imm {
            params: Reg2ImmParams {
                rd: Reg::SP,
                rn: Reg::SP,
                imm32: ((opcode % 128) * 4) as u32,
                setflags: SetFlags::False,
            },
            thumb32: false,
        }),
{
    Instruction::ADD_imm {
        params: Reg2ImmParams {
            rd: Reg::SP,
            rn: Reg::SP,
            imm32: ((opcode % 128) as u32) * 4,
            setflags: SetFlags::False,
        },
        thumb32: false,
    }
}

/// ADD (immediate) T3: `11110 i 01000 S rn`, `0 imm3 rd:4 imm8`, with
/// `ThumbExpandImm(i:imm3:imm8)`.
pub fn decode_ADD_imm_t3(opcode: u32) -> (r: Instruction)
    ensures
        r == (Instruction::ADD_imm {
            params: Reg2ImmParams {
                rd: spec_reg_of(opcode as int / 256 % 16),
                rn: spec_reg_of(opcode as int / 0x1_0000 % 16),
                imm32: crate::operation::spec_thumb_expand_imm(
                    (opcode as int / 0x400_0000 % 2 * 2048 + opcode as int / 4096 % 8 * 256
                        + opcode as int % 256) as u16,
                ) as u32,
                setflags: if opcode as int / 0x10_0000 % 2 == 1 {
                    SetFlags::True
                } else {
                    SetFlags::False
                },
            },
            thumb32: true,
        }),
{
    let i: u32 = (opcode / 0x400_0000) % 2;
    let imm3: u32 = (opcode / 4096) % 8;
    let imm8: u32 = opcode % 256;
    let imm12: u16 = (i * 2048 + imm3 * 256 + imm8) as u16;
    Instruction::ADD_imm {
        params: Reg2ImmParams {
            rd: Reg::from_bits(((opcode / 256) % 16) as u16),
            rn: Reg::from_bits(((opcode / 0x1_0000) % 16) as u16),
            imm32: thumb_expand_imm(imm12),
            setflags: if (opcode / 0x10_0000) % 2 == 1 {
                SetFlags::True
            } else {
                SetFlags::False
            },
        },
        thumb32: true,
    }
}

/// ADD (immediate) T4 is reserved on this profile and decodes to UDF.
pub fn decode_ADD_imm_t4(opcode: u32) -> (r: Instruction)
    ensures
        r == (Instruction::UDF {
            imm32: 0u32,
            opcode: ThumbCode::Thumb32 { opcode },
            thumb32: true,
        }),
{
    udf32(opcode)
}

/// ADR T1: `10100 rd:3 imm8`, immediate times 4.
pub fn decode_ADR_t1(opcode: u16) -> (r: Instruction)
    ensures
        r == (Instruction::ADR {
            params: RegImmParams {
                r: spec_reg_of(opcode as int / 256 % 8),
                imm32: ((opcode % 256) * 4) as u32,
            },
            thumb32: false,
        }),
{
    Instruction::ADR {
        params: RegImmParams {
            r: Reg::from_bits((opcode / 256) % 8),
            imm32: ((opcode % 256) as u32) * 4,
        },
        thumb32: false,
    }
}

/// AND (register) T1: `0100000000 rm:3 rdn:3`.
pub fn decode_AND_reg_t1(opcode: u16) -> (r: Instruction)
    ensures
        r == (Instruction::AND_reg {
            params: Reg3ShiftParams {
                rd: spec_reg_of(opcode as int % 8),
                rn: spec_reg_of(opcode as int % 8),
                rm: spec_reg_of(opcode as int / 8 % 8),
                shift_t: SRType::LSL,
                shift_n: 0u8,
                setflags: SetFlags::NotInITBlock,
            },
            thumb32: false,
        }),
{
    Instruction::AND_reg {
        params: Reg3ShiftParams {
            rd: Reg::from_bits(opcode % 8),
            rn: Reg::from_bits(opcode % 8),
            rm: Reg::from_bits((opcode / 8) % 8),
            shift_t: SRType::LSL,
            shift_n: 0,
            setflags: SetFlags::NotInITBlock,
        },
        thumb32: false,
    }
}

/// ASR (immediate) T1: `00010 imm5 rm:3 rd:3`, amount 0 meaning 32.
pub fn decode_ASR_imm_t1(opcode: u16) -> (r: Instruction)
    ensures
        r == (Instruction::ASR_imm {
            params: Reg2ShiftNParams {
                rd: spec_reg_of(opcode as int % 8),
                rm: spec_reg_of(opcode as int / 8 % 8),
                shift_n: if opcode as int / 64 % 32 == 0 {
                    32u8
                } else {
                    (opcode as int / 64 % 32) as u8
                },
                setflags: SetFlags::NotInITBlock,
            },
            thumb32: false,
        }),
{
    let shift: (SRType, u8) = decode_imm_shift(2, ((opcode / 64) % 32) as u8);
    Instruction::ASR_imm {
        params: Reg2ShiftNParams {
            rd: Reg::from_bits(opcode % 8),
            rm: Reg::from_bits((opcode / 8) % 8),
            shift_n: shift.1,
            setflags: SetFlags::NotInITBlock,
        },
        thumb32: false,
    }
}

/// ASR (register) T1: `0100000100 rm:3 rdn:3`.
pub fn decode_ASR_reg_t1(opcode: u16) -> (r: Instruction)
    ensures
        r == (Instruction::ASR_reg {
            params: Reg3Params {
                rd: spec_reg_of(opcode as int % 8),
                rn: spec_reg_of(opcode as int % 8),
                rm: spec_reg_of(opcode as int / 8 % 8),
                setflags: SetFlags::NotInITBlock,
            },
            thumb32: false,
        }),
{
    Instruction::ASR_reg {
        params: Reg3Params {
            rd: Reg::from_bits(opcode % 8),
            rn: Reg::from_bits(opcode % 8),
            rm: Reg::from_bits((opcode / 8) % 8),
            setflags: SetFlags::NotInITBlock,
        },
        thumb32: false,
    }
}

/// CMN (register) T1: `0100001011 rm:3 rn:3`.
pub fn decode_CMN_reg_t1(opcode: u16) -> (r: Instruction)
    ensures
        r == (Instruction::CMN_reg {
            params: Reg2ShiftNoSetFlagsParams {
                rn: spec_reg_of(opcode as int % 8),
                rm: spec_reg_of(opcode as int / 8 % 8),
                shift_t: SRType::LSL,
                shift_n: 0u8,
            },
            thumb32: false,
        }),
{
    Instruction::CMN_reg {
        params: Reg2ShiftNoSetFlagsParams {
            rn: Reg::from_bits(opcode % 8),
            rm: Reg::from_bits((opcode / 8) % 8),
            shift_t: SRType::LSL,
            shift_n: 0,
        },
        thumb32: false,
    }
}

/// PUSH T1: `1011010 M:1 register_list:8`; bit M adds LR.
pub fn decode_PUSH_t1(opcode: u16) -> (r: Instruction)
    ensures
        r == (Instruction::PUSH {
            registers: (opcode % 256 + opcode / 256 % 2 * 0x4000) as u16,
            thumb32: false,
        }),
{
    let regs: u16 = opcode % 256 + ((opcode / 256) % 2) * 0x4000;
    Instruction::PUSH { registers: regs, thumb32: false }
}

/// PUSH T2: `1110100100101101`, `0 M 0 register_list:13`.
pub fn decode_PUSH_t2(opcode: u32) -> (r: Instruction)
    ensures
        r == (Instruction::PUSH {
            registers: (opcode as int % 8192 + opcode as int / 16384 % 2 * 16384) as u16,
            thumb32: true,
        }),
{
    let low: u32 = opcode % 8192;
    let m: u32 = (opcode / 16384) % 2;
    Instruction::PUSH { registers: (low + m * 16384) as u16, thumb32: true }
}

/// PUSH T3: the single-register store `STR rt, [SP, #-4]!`.
pub fn decode_PUSH_t3(opcode: u32) -> (r: Instruction)
    ensures
        r == (Instruction::PUSH {
            registers: vstd::arithmetic::power2::pow2(
                (opcode as int / 4096 % 16) as nat,
            ) as u16,
            thumb32: true,
        }),
{
    let rt: u16 = ((opcode / 4096) % 16) as u16;
    Instruction::PUSH { registers: bit16(rt), thumb32: true }
}

/// ROR (register) T1: `0100000111 rm:3 rdn:3`.
pub fn decode_ROR_reg_t1(opcode: u16) -> (r: Instruction)
    ensures
        r == (Instruction::ROR_reg {
            params: Reg3Params {
                rd: spec_reg_of(opcode as int % 8),
                rn: spec_reg_of(opcode as int % 8),
                rm: spec_reg_of(opcode as int / 8 % 8),
                setflags: SetFlags::NotInITBlock,
            },
            thumb32: false,
        }),
{
    Instruction::ROR_reg {
        params: Reg3Params {
            rd: Reg::from_bits(opcode % 8),
            rn: Reg::from_bits(opcode % 8),
            rm: Reg::from_bits((opcode / 8) % 8),
            setflags: SetFlags::NotInITBlock,
        },
        thumb32: false,
    }
}

/// ROR (immediate) T1: `11101010010 S 1111`, `0 imm3 rd:4 imm2 11 rm:4`.
pub fn decode_ROR_imm_t1(opcode: u32) -> (r: Instruction)
    ensures
        r == (Instruction::ROR_imm {
            params: Reg2ShiftNParams {
                rd: spec_reg_of(opcode as int / 256 % 16),
                rm: spec_reg_of(opcode as int % 16),
                shift_n: if opcode as int / 4096 % 8 * 4 + opcode as int / 64 % 4 == 0 {
                    1u8
                } else {
                    (opcode as int / 4096 % 8 * 4 + opcode as int / 64 % 4) as u8
                },
                setflags: if opcode as int / 0x10_0000 % 2 == 1 {
                    SetFlags::True
                } else {
                    SetFlags::False
                },
            },
        }),
{
    let imm3: u32 = (opcode / 4096) % 8;
    let imm2: u32 = (opcode / 64) % 4;
    let shift: (SRType, u8) = decode_imm_shift(3, (imm3 * 4 + imm2) as u8);
    Instruction::ROR_imm {
        params: Reg2ShiftNParams {
            rd: Reg::from_bits(((opcode / 256) % 16) as u16),
            rm: Reg::from_bits((opcode % 16) as u16),
            shift_n: shift.1,
            setflags: if (opcode / 0x10_0000) % 2 == 1 {
                SetFlags::True
            } else {
                SetFlags::False
            },
        },
    }
}

/// ROR (register) T2 is reserved on this profile and decodes to UDF.
pub fn decode_ROR_reg_t2(opcode: u32) -> (r: Instruction)
    ensures
        r == (Instruction::UDF {
            imm32: 0u32,
            opcode: ThumbCode::Thumb32 { opcode },
            thumb32: true,
        }),
{
    udf32(opcode)
}

/// STR (immediate) T1: `01100 imm5 rn:3 rt:3`, immediate times 4.
pub fn decode_STR_imm_t1(opcode: u16) -> (r: Instruction)
    ensures
        r == (Instruction::STR_imm {
            rt: spec_reg_of(opcode as int % 8),
            rn: spec_reg_of(opcode as int / 8 % 8),
            imm32: (opcode as int / 64 % 32 * 4) as u32,
            index: true,
            add: true,
            wback: false,
            thumb32: false,
        }),
{
    Instruction::STR_imm {
        rt: Reg::from_bits(opcode % 8),
        rn: Reg::from_bits((opcode / 8) % 8),
        imm32: (((opcode / 64) % 32) as u32) * 4,
        index: true,
        add: true,
        wback: false,
        thumb32: false,
    }
}

/// STR (immediate) T2: `10010 rt:3 imm8`, SP-relative, times 4.
pub fn decode_STR_imm_t2(opcode: u16) -> (r: Instruction)
    ensures
        r == (Instruction::STR_imm {
            rt: spec_reg_of(opcode as int / 256 % 8),
            rn: Reg::SP,
            imm32: (opcode as int % 256 * 4) as u32,
            index: true,
            add: true,
            wback: false,
            thumb32: false,
        }),
{
    Instruction::STR_imm {
        rt: Reg::from_bits((opcode / 256) % 8),
        rn: Reg::SP,
        imm32: ((opcode % 256) as u32) * 4,
        index: true,
        add: true,
        wback: false,
        thumb32: false,
    }
}

/// STR (register) T1: `0101000 rm:3 rn:3 rt:3`.
pub fn decode_STR_reg_t1(opcode: u16) -> (r: Instruction)
    ensures
        r == (Instruction::STR_reg {
            rt: spec_reg_of(opcode as int % 8),
            rn: spec_reg_of(opcode as int / 8 % 8),
            rm: spec_reg_of(opcode as int / 64 % 8),
            shift_t: SRType::LSL,
            shift_n: 0u8,
            index: true,
            add: true,
            wback: false,
            thumb32: false,
        }),
{
    Instruction::STR_reg {
        rt: Reg::from_bits(opcode % 8),
        rn: Reg::from_bits((opcode / 8) % 8),
        rm: Reg::from_bits((opcode / 64) % 8),
        shift_t: SRType::LSL,
        shift_n: 0,
        index: true,
        add: true,
        wback: false,
        thumb32: false,
    }
}

/// STRB (immediate) T1: `01110 imm5 rn:3 rt:3`.
pub fn decode_STRB_imm_t1(opcode: u16) -> (r: Instruction)
    ensures
        r == (Instruction::STRB_imm {
            rt: spec_reg_of(opcode as int % 8),
            rn: spec_reg_of(opcode as int / 8 % 8),
            imm32: (opcode as int / 64 % 32) as u32,
            index: true,
            add: true,
            wback: false,
            thumb32: false,
        }),
{
    Instruction::STRB_imm {
        rt: Reg::from_bits(opcode % 8),
        rn: Reg::from_bits((opcode / 8) % 8),
        imm32: ((opcode / 64) % 32) as u32,
        index: true,
        add: true,
        wback: false,
        thumb32: false,
    }
}

/// STRB (register) T1: `0101010 rm:3 rn:3 rt:3`.
pub fn decode_STRB_reg_t1(opcode: u16) -> (r: Instruction)
    ensures
        r == (Instruction::STRB_reg {
            rt: spec_reg_of(opcode as int % 8),
            rn: spec_reg_of(opcode as int / 8 % 8),
            rm: spec_reg_of(opcode as int / 64 % 8),
            shift_t: SRType::LSL,
            shift_n: 0u8,
            index: true,
            add: true,
            wback: false,
            thumb32: false,
        }),
{
    Instruction::STRB_reg {
        rt: Reg::from_bits(opcode % 8),
        rn: Reg::from_bits((opcode / 8) % 8),
        rm: Reg::from_bits((opcode / 64) % 8),
        shift_t: SRType::LSL,
        shift_n: 0,
        index: true,
        add: true,
        wback: false,
        thumb32: false,
    }
}

/// STRH (immediate) T1: `10000 imm5 rn:3 rt:3`, immediate times 2.
pub fn decode_STRH_imm_t1(opcode: u16) -> (r: Instruction)
    ensures
        r == (Instruction::STRH_imm {
            rt: spec_reg_of(opcode as int % 8),
            rn: spec_reg_of(opcode as int / 8 % 8),
            imm32: (opcode as int / 64 % 32 * 2) as u32,
            index: true,
            add: true,
            wback: false,
            thumb32: false,
        }),
{
    Instruction::STRH_imm {
        rt: Reg::from_bits(opcode % 8),
        rn: Reg::from_bits((opcode / 8) % 8),
        imm32: (((opcode / 64) % 32) as u32) * 2,
        index: true,
        add: true,
        wback: false,
        thumb32: false,
    }
}

/// STRH (register) T1: `0101001 rm:3 rn:3 rt:3`.
pub fn decode_STRH_reg_t1(opcode: u16) -> (r: Instruction)
    ensures
        r == (Instruction::STRH_reg {
            rt: spec_reg_of(opcode as int % 8),
            rn: spec_reg_of(opcode as int / 8 % 8),
            rm: spec_reg_of(opcode as int / 64 % 8),
            shift_t: SRType::LSL,
            shift_n: 0u8,
            index: true,
            add: true,
            wback: false,
            thumb32: false,
        }),
{
    Instruction::STRH_reg {
        rt: Reg::from_bits(opcode % 8),
        rn: Reg::from_bits((opcode / 8) % 8),
        rm: Reg::from_bits((opcode / 64) % 8),
        shift_t: SRType::LSL,
        shift_n: 0,
        index: true,
        add: true,
        wback: false,
        thumb32: false,
    }
}

/// STRB (immediate) T2 is reserved on this profile and decodes to UDF.
pub fn decode_STRB_imm_t2(opcode: u32) -> (r: Instruction)
    ensures
        r == (Instruction::UDF {
            imm32: 0u32,
            opcode: ThumbCode::Thumb32 { opcode },
            thumb32: true,
        }),
{
    udf32(opcode)
}

/// STRB (immediate) T3 is reserved on this profile and decodes to UDF.
pub fn decode_STRB_imm_t3(opcode: u32) -> (r: Instruction)
    ensures
        r == (Instruction::UDF {
            imm32: 0u32,
            opcode: ThumbCode::Thumb32 { opcode },
            thumb32: true,
        }),
{
    udf32(opcode)
}

/// STRB (register) T2 is reserved on this profile and decodes to UDF.
pub fn decode_STRB_reg_t2(opcode: u32) -> (r: Instruction)
    ensures
        r == (Instruction::UDF {
            imm32: 0u32,
            opcode: ThumbCode::Thumb32 { opcode },
            thumb32: true,
        }),
{
    udf32(opcode)
}

/// STRH (immediate) T2 is reserved on this profile and decodes to UDF.
pub fn decode_STRH_imm_t2(opcode: u32) -> (r: Instruction)
    ensures
        r == (Instruction::UDF {
            imm32: 0u32,
            opcode: ThumbCode::Thumb32 { opcode },
            thumb32: true,
        }),
{
    udf32(opcode)
}

/// STRH (immediate) T3 is reserved on this profile and decodes to UDF.
pub fn decode_STRH_imm_t3(opcode: u32) -> (r: Instruction)
    ensures
        r == (Instruction::UDF {
            imm32: 0u32,
            opcode: ThumbCode::Thumb32 { opcode },
            thumb32: true,
        }),
{
    udf32(opcode)
}

/// STR (immediate) T3: `111110001100 rn:4`, `rt:4 imm12`.
pub fn decode_STR_imm_t3(opcode: u32) -> (r: Instruction)
    ensures
        r == (Instruction::STR_imm {
            rt: spec_reg_of(opcode as int / 4096 % 16),
            rn: spec_reg_of(opcode as int / 0x1_0000 % 16),
            imm32: (opcode as int % 4096) as u32,
            index: true,
            add: true,
            wback: false,
            thumb32: true,
        }),
{
    Instruction::STR_imm {
        rt: Reg::from_bits(((opcode / 4096) % 16) as u16),
        rn: Reg::from_bits(((opcode / 0x1_0000) % 16) as u16),
        imm32: opcode % 4096,
        index: true,
        add: true,
        wback: false,
        thumb32: true,
    }
}

/// STR (immediate) T4: `111110000100 rn:4`, `rt:4 1 P U W imm8`.
pub fn decode_STR_imm_t4(opcode: u32) -> (r: Instruction)
    ensures
        r == (Instruction::STR_imm {
            rt: spec_reg_of(opcode as int / 4096 % 16),
            rn: spec_reg_of(opcode as int / 0x1_0000 % 16),
            imm32: (opcode as int % 256) as u32,
            index: opcode as int / 1024 % 2 == 1,
            add: opcode as int / 512 % 2 == 1,
            wback: opcode as int / 256 % 2 == 1,
            thumb32: true,
        }),
{
    Instruction::STR_imm {
        rt: Reg::from_bits(((opcode / 4096) % 16) as u16),
        rn: Reg::from_bits(((opcode / 0x1_0000) % 16) as u16),
        imm32: opcode % 256,
        index: (opcode / 1024) % 2 == 1,
        add: (opcode / 512) % 2 == 1,
        wback: (opcode / 256) % 2 == 1,
        thumb32: true,
    }
}

/// STR (register) T2 is reserved on this profile and decodes to UDF.
pub fn decode_STR_reg_t2(opcode: u32) -> (r: Instruction)
    ensures
        r == (Instruction::UDF {
            imm32: 0u32,
            opcode: ThumbCode::Thumb32 { opcode },
            thumb32: true,
        }),
{
    udf32(opcode)
}

/// STRD (immediate) T1 is reserved on this profile and decodes to UDF.
pub fn decode_STRD_imm_t1(opcode: u32) -> (r: Instruction)
    ensures
        r == (Instruction::UDF {
            imm32: 0u32,
            opcode: ThumbCode::Thumb32 { opcode },
            thumb32: true,
        }),
{
    udf32(opcode)
}

/// SUB (immediate) T1: `0001111 imm3 rn:3 rd:3`.
pub fn decode_SUB_imm_t1(opcode: u16) -> (r: Instruction)
    ensures
        r == (Instruction::SUB_imm {
            params: Reg2ImmParams {
                rd: spec_reg_of(opcode as int % 8),
                rn: spec_reg_of(opcode as int / 8 % 8),
                imm32: (opcode as int / 64 % 8) as u32,
                setflags: SetFlags::NotInITBlock,
            },
            thumb32: false,
        }),
{
    Instruction::SUB_imm {
        params: Reg2ImmParams {
            rd: Reg::from_bits(opcode % 8),
            rn: Reg::from_bits((opcode / 8) % 8),
            imm32: ((opcode / 64) % 8) as u32,
            setflags: SetFlags::NotInITBlock,
        },
        thumb32: false,
    }
}

/// SUB (immediate) T2: `00111 rdn:3 imm8`.
pub fn decode_SUB_imm_t2(opcode: u16) -> (r: Instruction)
    ensures
        r == (Instruction::SUB_imm {
            params: Reg2ImmParams {
                rd: spec_reg_of(opcode as int / 256 % 8),
                rn: spec_reg_of(opcode as int / 256 % 8),
                imm32: (opcode as int % 256) as u32,
                setflags: SetFlags::NotInITBlock,
            },
            thumb32: false,
        }),
{
    Instruction::SUB_imm {
        params: Reg2ImmParams {
            rd: Reg::from_bits((opcode / 256) % 8),
            rn: Reg::from_bits((opcode / 256) % 8),
            imm32: (opcode % 256) as u32,
            setflags: SetFlags::NotInITBlock,
        },
        thumb32: false,
    }
}

/// SUB (SP minus immediate) T1: `101100001 imm7`, immediate times 4.
pub fn decode_SUB_SP_imm_t1(opcode: u16) -> (r: Instruction)
    ensures
        r == (Instruction::SUB_imm {
            params: Reg2ImmParams {
                rd: Reg::SP,
                rn: Reg::SP,
                imm32: (opcode as int % 128 * 4) as u32,
                setflags: SetFlags::False,
            },
            thumb32: false,
        }),
{
    Instruction::SUB_imm {
        params: Reg2ImmParams {
            rd: Reg::SP,
            rn: Reg::SP,
            imm32: ((opcode % 128) as u32) * 4,
            setflags: SetFlags::False,
        },
        thumb32: false,
    }
}

/// SUB (register) T1: `0001101 rm:3 rn:3 rd:3`.
pub fn decode_SUB_reg_t1(opcode: u16) -> (r: Instruction)
    ensures
        r == (Instruction::SUB_reg {
            params: Reg3ShiftParams {
                rd: spec_reg_of(opcode as int % 8),
                rn: spec_reg_of(opcode as int / 8 % 8),
                rm: spec_reg_of(opcode as int / 64 % 8),
                shift_t: SRType::LSL,
                shift_n: 0u8,
                setflags: SetFlags::NotInITBlock,
            },
            thumb32: false,
        }),
{
    Instruction::SUB_reg {
        params: Reg3ShiftParams {
            rd: Reg::from_bits(opcode % 8),
            rn: Reg::from_bits((opcode / 8) % 8),
            rm: Reg::from_bits((opcode / 64) % 8),
            shift_t: SRType::LSL,
            shift_n: 0,
            setflags: SetFlags::NotInITBlock,
        },
        thumb32: false,
    }
}


/// The signed branch offset a sign-extended field denotes.
pub open spec fn spec_branch_offset(word: u32, topbit: nat) -> i32 {
    crate::operation::sint32(
        crate::operation::spec_sign_extend(word, topbit, 32) as u32,
    ) as i32
}

/// What a 16-bit halfword decodes to: the specification the
/// executable dispatch is proved against, arm for arm.  Opaque so
/// that callers reason through `decode_16`'s contract instead of the
/// table; reveal it to inspect a concrete opcode.
#[verifier::opaque]
pub open spec fn spec_decode_16(opcode: u16) -> Instruction {
    let op = opcode as int;
    let rd3 = spec_reg_of(op % 8);
    let rn3 = spec_reg_of(op / 8 % 8);
    let rm3 = spec_reg_of(op / 64 % 8);
    let imm5 = op / 64 % 32;
    let imm8 = op % 256;
    let r8 = spec_reg_of(op / 256 % 8);
    let udf = Instruction::UDF {
        imm32: 0u32,
        opcode: ThumbCode::Thumb16 { opcode },
        thumb32: false,
    };
    if op < 0x4000 {
        let group = op / 2048;
        if group == 0 {
            if imm5 == 0 {
                Instruction::MOV_reg {
                    params: Reg2Params { rd: rd3, rm: rn3, setflags: true },
                    thumb32: false,
                }
            } else {
                Instruction::LSL_imm {
                    params: Reg2ShiftNParams {
                        rd: rd3,
                        rm: rn3,
                        shift_n: imm5 as u8,
                        setflags: SetFlags::NotInITBlock,
                    },
                    thumb32: false,
                }
            }
        } else if group == 1 {
            Instruction::LSR_imm {
                params: Reg2ShiftNParams {
                    rd: rd3,
                    rm: rn3,
                    shift_n: if imm5 == 0 {
                        32u8
                    } else {
                        imm5 as u8
                    },
                    setflags: SetFlags::NotInITBlock,
                },
                thumb32: false,
            }
        } else if group == 2 {
            Instruction::ASR_imm {
                params: Reg2ShiftNParams {
                    rd: rd3,
                    rm: rn3,
                    shift_n: if imm5 == 0 {
                        32u8
                    } else {
                        imm5 as u8
                    },
                    setflags: SetFlags::NotInITBlock,
                },
                thumb32: false,
            }
        } else if group == 3 {
            let sel = op / 512 % 4;
            if sel == 0 {
                Instruction::ADD_reg {
                    params: Reg3ShiftParams {
                        rd: rd3,
                        rn: rn3,
                        rm: rm3,
                        shift_t: SRType::LSL,
                        shift_n: 0u8,
                        setflags: SetFlags::NotInITBlock,
                    },
                    thumb32: false,
                }
            } else if sel == 1 {
                Instruction::SUB_reg {
                    params: Reg3ShiftParams {
                        rd: rd3,
                        rn: rn3,
                        rm: rm3,
                        shift_t: SRType::LSL,
                        shift_n: 0u8,
                        setflags: SetFlags::NotInITBlock,
                    },
                    thumb32: false,
                }
            } else if sel == 2 {
                Instruction::ADD_imm {
                    params: Reg2ImmParams {
                        rd: rd3,
                        rn: rn3,
                        imm32: (op / 64 % 8) as u32,
                        setflags: SetFlags::NotInITBlock,
                    },
                    thumb32: false,
                }
            } else {
                Instruction::SUB_imm {
                    params: Reg2ImmParams {
                        rd: rd3,
                        rn: rn3,
                        imm32: (op / 64 % 8) as u32,
                        setflags: SetFlags::NotInITBlock,
                    },
                    thumb32: false,
                }
            }
        } else if group == 4 {
            Instruction::MOV_imm {
                params: RegImmCarryParams {
                    rd: r8,
                    imm32: Imm32Carry::NoCarry { imm32: imm8 as u32 },
                    setflags: SetFlags::NotInITBlock,
                },
                thumb32: false,
            }
        } else if group == 5 {
            Instruction::CMP_imm {
                params: RegImmParams { r: r8, imm32: imm8 as u32 },
                thumb32: false,
            }
        } else if group == 6 {
            Instruction::ADD_imm {
                params: Reg2ImmParams {
                    rd: r8,
                    rn: r8,
                    imm32: imm8 as u32,
                    setflags: SetFlags::NotInITBlock,
                },
                thumb32: false,
            }
        } else {
            Instruction::SUB_imm {
                params: Reg2ImmParams {
                    rd: r8,
                    rn: r8,
                    imm32: imm8 as u32,
                    setflags: SetFlags::NotInITBlock,
                },
                thumb32: false,
            }
        }
    } else if op < 0x4400 {
        let dp = op / 64 % 16;
        if dp == 0 {
            Instruction::AND_reg {
                params: Reg3ShiftParams {
                    rd: rd3,
                    rn: rd3,
                    rm: rn3,
                    shift_t: SRType::LSL,
                    shift_n: 0u8,
                    setflags: SetFlags::NotInITBlock,
                },
                thumb32: false,
            }
        } else if dp == 1 {
            Instruction::EOR_reg {
                params: Reg3ShiftParams {
                    rd: rd3,
                    rn: rd3,
                    rm: rn3,
                    shift_t: SRType::LSL,
                    shift_n: 0u8,
                    setflags: SetFlags::NotInITBlock,
                },
                thumb32: false,
            }
        } else if dp == 2 {
            Instruction::LSL_reg {
                params: Reg3Params { rd: rd3, rn: rd3, rm: rn3, setflags: SetFlags::NotInITBlock },
                thumb32: false,
            }
        } else if dp == 3 {
            Instruction::LSR_reg {
                params: Reg3Params { rd: rd3, rn: rd3, rm: rn3, setflags: SetFlags::NotInITBlock },
                thumb32: false,
            }
        } else if dp == 4 {
            Instruction::ASR_reg {
                params: Reg3Params { rd: rd3, rn: rd3, rm: rn3, setflags: SetFlags::NotInITBlock },
                thumb32: false,
            }
        } else if dp == 5 {
            Instruction::ADC_reg {
                params: Reg3ShiftParams {
                    rd: rd3,
                    rn: rd3,
                    rm: rn3,
                    shift_t: SRType::LSL,
                    shift_n: 0u8,
                    setflags: SetFlags::NotInITBlock,
                },
                thumb32: false,
            }
        } else if dp == 6 {
            Instruction::SBC_reg {
                params: Reg3ShiftParams {
                    rd: rd3,
                    rn: rd3,
                    rm: rn3,
                    shift_t: SRType::LSL,
                    shift_n: 0u8,
                    setflags: SetFlags::NotInITBlock,
                },
                thumb32: false,
            }
        } else if dp == 7 {
            Instruction::ROR_reg {
                params: Reg3Params { rd: rd3, rn: rd3, rm: rn3, setflags: SetFlags::NotInITBlock },
                thumb32: false,
            }
        } else if dp == 8 {
            Instruction::TST_reg {
                params: Reg2ShiftNoSetFlagsParams {
                    rn: rd3,
                    rm: rn3,
                    shift_t: SRType::LSL,
                    shift_n: 0u8,
                },
                thumb32: false,
            }
        } else if dp == 9 {
            Instruction::RSB_imm {
                params: Reg2ImmParams {
                    rd: rd3,
                    rn: rn3,
                    imm32: 0u32,
                    setflags: SetFlags::NotInITBlock,
                },
                thumb32: false,
            }
        } else if dp == 10 {
            Instruction::CMP_reg {
                params: Reg2ShiftNoSetFlagsParams {
                    rn: rd3,
                    rm: rn3,
                    shift_t: SRType::LSL,
                    shift_n: 0u8,
                },
                thumb32: false,
            }
        } else if dp == 11 {
            Instruction::CMN_reg {
                params: Reg2ShiftNoSetFlagsParams {
                    rn: rd3,
                    rm: rn3,
                    shift_t: SRType::LSL,
                    shift_n: 0u8,
                },
                thumb32: false,
            }
        } else if dp == 12 {
            Instruction::ORR_reg {
                params: Reg3ShiftParams {
                    rd: rd3,
                    rn: rd3,
                    rm: rn3,
                    shift_t: SRType::LSL,
                    shift_n: 0u8,
                    setflags: SetFlags::NotInITBlock,
                },
                thumb32: false,
            }
        } else if dp == 13 {
            Instruction::MUL {
                params: Reg3Params { rd: rd3, rn: rn3, rm: rd3, setflags: SetFlags::NotInITBlock },
                thumb32: false,
            }
        } else if dp == 14 {
            Instruction::BIC_reg {
                params: Reg3ShiftParams {
                    rd: rd3,
                    rn: rd3,
                    rm: rn3,
                    shift_t: SRType::LSL,
                    shift_n: 0u8,
                    setflags: SetFlags::NotInITBlock,
                },
                thumb32: false,
            }
        } else {
            Instruction::MVN_reg {
                params: Reg2ShiftParams {
                    rd: rd3,
                    rm: rn3,
                    shift_t: SRType::LSL,
                    shift_n: 0u8,
                    setflags: SetFlags::NotInITBlock,
                },
                thumb32: false,
            }
        }
    } else if op < 0x4800 {
        let sel = op / 256 % 4;
        let rdn4 = spec_reg_of(op / 128 % 2 * 8 + op % 8);
        let rm4 = spec_reg_of(op / 8 % 16);
        if sel == 0 {
            Instruction::ADD_reg {
                params: Reg3ShiftParams {
                    rd: rdn4,
                    rn: rdn4,
                    rm: rm4,
                    shift_t: SRType::LSL,
                    shift_n: 0u8,
                    setflags: SetFlags::False,
                },
                thumb32: false,
            }
        } else if sel == 1 {
            Instruction::CMP_reg {
                params: Reg2ShiftNoSetFlagsParams {
                    rn: rdn4,
                    rm: rm4,
                    shift_t: SRType::LSL,
                    shift_n: 0u8,
                },
                thumb32: false,
            }
        } else if sel == 2 {
            Instruction::MOV_reg {
                params: Reg2Params { rd: rdn4, rm: rm4, setflags: false },
                thumb32: false,
            }
        } else if op / 128 % 2 == 0 {
            Instruction::BX { rm: rm4 }
        } else {
            Instruction::BLX { rm: rm4 }
        }
    } else if op < 0x5000 {
        Instruction::LDR_lit { rt: r8, imm32: (imm8 * 4) as u32, add: true, thumb32: false }
    } else if op < 0x6000 {
        let sel = op / 512 % 8;
        if sel == 0 {
            Instruction::STR_reg {
                rt: rd3,
                rn: rn3,
                rm: rm3,
                shift_t: SRType::LSL,
                shift_n: 0u8,
                index: true,
                add: true,
                wback: false,
                thumb32: false,
            }
        } else if sel == 1 {
            Instruction::STRH_reg {
                rt: rd3,
                rn: rn3,
                rm: rm3,
                shift_t: SRType::LSL,
                shift_n: 0u8,
                index: true,
                add: true,
                wback: false,
                thumb32: false,
            }
        } else if sel == 2 {
            Instruction::STRB_reg {
                rt: rd3,
                rn: rn3,
                rm: rm3,
                shift_t: SRType::LSL,
                shift_n: 0u8,
                index: true,
                add: true,
                wback: false,
                thumb32: false,
            }
        } else if sel == 3 {
            Instruction::LDRSB_reg {
                rt: rd3,
                rn: rn3,
                rm: rm3,
                shift_t: SRType::LSL,
                shift_n: 0u8,
                index: true,
                add: true,
                wback: false,
                thumb32: false,
            }
        } else if sel == 4 {
            Instruction::LDR_reg {
                rt: rd3,
                rn: rn3,
                rm: rm3,
                shift_t: SRType::LSL,
                shift_n: 0u8,
                index: true,
                add: true,
                wback: false,
                thumb32: false,
            }
        } else if sel == 5 {
            Instruction::LDRH_reg {
                rt: rd3,
                rn: rn3,
                rm: rm3,
                shift_t: SRType::LSL,
                shift_n: 0u8,
                index: true,
                add: true,
                wback: false,
                thumb32: false,
            }
        } else if sel == 6 {
            Instruction::LDRB_reg {
                rt: rd3,
                rn: rn3,
                rm: rm3,
                shift_t: SRType::LSL,
                shift_n: 0u8,
                index: true,
                add: true,
                wback: false,
                thumb32: false,
            }
        } else {
            Instruction::LDRSH_reg {
                rt: rd3,
                rn: rn3,
                rm: rm3,
                shift_t: SRType::LSL,
                shift_n: 0u8,
                index: true,
                add: true,
                wback: false,
                thumb32: false,
            }
        }
    } else if op < 0x8000 {
        let byte_access = op / 4096 % 2 == 1;
        let load = op / 2048 % 2 == 1;
        if byte_access {
            if load {
                Instruction::LDRB_imm {
                    rt: rd3,
                    rn: rn3,
                    imm32: imm5 as u32,
                    index: true,
                    add: true,
                    wback: false,
                    thumb32: false,
                }
            } else {
                Instruction::STRB_imm {
                    rt: rd3,
                    rn: rn3,
                    imm32: (op / 64 % 32) as u32,
                    index: true,
                    add: true,
                    wback: false,
                    thumb32: false,
                }
            }
        } else if load {
            Instruction::LDR_imm {
                rt: rd3,
                rn: rn3,
                imm32: (imm5 * 4) as u32,
                index: true,
                add: true,
                wback: false,
                thumb32: false,
            }
        } else {
            Instruction::STR_imm {
                rt: rd3,
                rn: rn3,
                imm32: (op / 64 % 32 * 4) as u32,
                index: true,
                add: true,
                wback: false,
                thumb32: false,
            }
        }
    } else if op < 0x9000 {
        if op / 2048 % 2 == 1 {
            Instruction::LDRH_imm {
                rt: rd3,
                rn: rn3,
                imm32: (imm5 * 2) as u32,
                index: true,
                add: true,
                wback: false,
                thumb32: false,
            }
        } else {
            Instruction::STRH_imm {
                rt: rd3,
                rn: rn3,
                imm32: (op / 64 % 32 * 2) as u32,
                index: true,
                add: true,
                wback: false,
                thumb32: false,
            }
        }
    } else if op < 0xA000 {
        if op / 2048 % 2 == 1 {
            Instruction::LDR_imm {
                rt: r8,
                rn: Reg::SP,
                imm32: (imm8 * 4) as u32,
                index: true,
                add: true,
                wback: false,
                thumb32: false,
            }
        } else {
            Instruction::STR_imm {
                rt: spec_reg_of(op / 256 % 8),
                rn: Reg::SP,
                imm32: (op % 256 * 4) as u32,
                index: true,
                add: true,
                wback: false,
                thumb32: false,
            }
        }
    } else if op < 0xB000 {
        if op / 2048 % 2 == 0 {
            Instruction::ADR {
                params: RegImmParams { r: spec_reg_of(op / 256 % 8), imm32: (op % 256 * 4) as u32 },
                thumb32: false,
            }
        } else {
            Instruction::ADD_imm {
                params: Reg2ImmParams {
                    rd: spec_reg_of(op / 256 % 8),
                    rn: Reg::SP,
                    imm32: (op % 256 * 4) as u32,
                    setflags: SetFlags::False,
                },
                thumb32: false,
            }
        }
    } else if op < 0xC000 {
        let misc = op / 256 % 16;
        if misc == 0 {
            if op / 128 % 2 == 0 {
                Instruction::ADD_imm {
                    params: Reg2ImmParams {
                        rd: Reg::SP,
                        rn: Reg::SP,
                        imm32: (op % 128 * 4) as u32,
                        setflags: SetFlags::False,
                    },
                    thumb32: false,
                }
            } else {
                Instruction::SUB_imm {
                    params: Reg2ImmParams {
                        rd: Reg::SP,
                        rn: Reg::SP,
                        imm32: (op % 128 * 4) as u32,
                        setflags: SetFlags::False,
                    },
                    thumb32: false,
                }
            }
        } else if misc == 1 || misc == 3 || misc == 9 || misc == 11 {
            Instruction::CBZ {
                rn: rd3,
                nonzero: op / 2048 % 2 == 1,
                imm32: (op / 512 % 2 * 64 + op / 8 % 32 * 2) as u32,
            }
        } else if misc == 2 {
            let ext = op / 64 % 4;
            if ext == 0 {
                Instruction::SXTH {
                    params: Reg2UsizeParams { rd: rd3, rm: rn3, rotation: 0usize },
                    thumb32: false,
                }
            } else if ext == 1 {
                Instruction::SXTB {
                    params: Reg2UsizeParams { rd: rd3, rm: rn3, rotation: 0usize },
                    thumb32: false,
                }
            } else if ext == 2 {
                Instruction::UXTH {
                    params: Reg2UsizeParams { rd: rd3, rm: rn3, rotation: 0usize },
                    thumb32: false,
                }
            } else {
                Instruction::UXTB {
                    params: Reg2UsizeParams { rd: rd3, rm: rn3, rotation: 0usize },
                    thumb32: false,
                }
            }
        } else if misc == 4 || misc == 5 {
            Instruction::PUSH {
                registers: (op % 256 + op / 256 % 2 * 0x4000) as u16,
                thumb32: false,
            }
        } else if misc == 6 {
            if opcode == 0xB662 {
                Instruction::CPS { im: false }
            } else if opcode == 0xB672 {
                Instruction::CPS { im: true }
            } else {
                udf
            }
        } else if misc == 10 {
            let rev = op / 64 % 4;
            if rev == 0 {
                Instruction::REV { rd: rd3, rm: rn3, thumb32: false }
            } else if rev == 1 {
                Instruction::REV16 { rd: rd3, rm: rn3, thumb32: false }
            } else if rev == 3 {
                Instruction::REVSH { rd: rd3, rm: rn3, thumb32: false }
            } else {
                udf
            }
        } else if misc == 12 || misc == 13 {
            Instruction::POP { registers: (imm8 + op / 256 % 2 * 0x8000) as u16, thumb32: false }
        } else if misc == 14 {
            Instruction::BKPT { imm32: imm8 as u32 }
        } else if misc == 15 {
            let mask = op % 16;
            let firstcond = op / 16 % 16;
            if mask == 0 {
                if firstcond == 1 {
                    Instruction::YIELD { thumb32: false }
                } else if firstcond == 2 {
                    Instruction::WFE { thumb32: false }
                } else if firstcond == 3 {
                    Instruction::WFI { thumb32: false }
                } else if firstcond == 4 {
                    Instruction::SEV { thumb32: false }
                } else {
                    Instruction::NOP { thumb32: false }
                }
            } else if firstcond < 15 {
                Instruction::IT { firstcond: spec_cond_of(firstcond), mask: mask as u8 }
            } else {
                udf
            }
        } else {
            udf
        }
    } else if op < 0xD000 {
        if op / 2048 % 2 == 0 {
            Instruction::STM { rn: r8, registers: imm8 as u16, wback: true, thumb32: false }
        } else {
            Instruction::LDM { rn: r8, registers: imm8 as u16, thumb32: false }
        }
    } else if op < 0xE000 {
        let cond = op / 256 % 16;
        if cond == 14 {
            udf
        } else if cond == 15 {
            Instruction::SVC { imm32: imm8 as u32 }
        } else {
            Instruction::B_t13 {
                cond: spec_cond_of(cond),
                imm32: spec_branch_offset((imm8 * 2) as u32, 8),
                thumb32: false,
            }
        }
    } else if op < 0xE800 {
        Instruction::B_t24 {
            imm32: spec_branch_offset((op % 2048 * 2) as u32, 11),
            thumb32: false,
        }
    } else {
        udf
    }
}

/// What a 32-bit encoding decodes to from its two halfwords: the
/// specification the executable dispatch is proved against.  Opaque
/// like `spec_decode_16`.
#[verifier::opaque]
pub open spec fn spec_decode_32(hw1: u16, hw2: u16) -> Instruction {
    let op = hw1 as int * 0x1_0000 + hw2 as int;
    let opu = op as u32;
    let udf = Instruction::UDF {
        imm32: 0u32,
        opcode: ThumbCode::Thumb32 { opcode: opu },
        thumb32: true,
    };
    if hw1 / 2048 == 30 && hw2 >= 0x8000 {
        let sub = hw2 as int / 4096 % 8;
        let s = hw1 as int / 1024 % 2;
        let j1 = hw2 as int / 8192 % 2;
        let j2 = hw2 as int / 2048 % 2;
        let imm11 = hw2 as int % 2048;
        if sub == 5 || sub == 7 {
            let i1: int = if j1 == s {
                1
            } else {
                0
            };
            let i2: int = if j2 == s {
                1
            } else {
                0
            };
            let value = s * 0x100_0000 + i1 * 0x80_0000 + i2 * 0x40_0000 + hw1 as int % 1024
                * 0x1000 + imm11 * 2;
            Instruction::BL { imm32: spec_branch_offset(value as u32, 24) }
        } else if sub == 4 || sub == 6 {
            udf
        } else if sub == 1 || sub == 3 {
            let i1: int = if j1 == s {
                1
            } else {
                0
            };
            let i2: int = if j2 == s {
                1
            } else {
                0
            };
            let value = s * 0x100_0000 + i1 * 0x80_0000 + i2 * 0x40_0000 + hw1 as int % 1024
                * 0x1000 + imm11 * 2;
            Instruction::B_t24 { imm32: spec_branch_offset(value as u32, 24), thumb32: true }
        } else {
            let cond = hw1 as int / 64 % 16;
            if cond < 14 {
                let value = s * 0x10_0000 + j2 * 0x8_0000 + j1 * 0x4_0000 + hw1 as int % 64
                    * 0x1000 + imm11 * 2;
                Instruction::B_t13 {
                    cond: spec_cond_of(cond),
                    imm32: spec_branch_offset(value as u32, 20),
                    thumb32: true,
                }
            } else if hw1 == 0xF3BF {
                let barrier = hw2 as int / 16 % 16;
                if barrier == 4 {
                    Instruction::DSB
                } else if barrier == 5 {
                    Instruction::DMB
                } else if barrier == 6 {
                    Instruction::ISB
                } else {
                    udf
                }
            } else if hw1 / 16 == 0xF3E {
                Instruction::MRS {
                    rd: spec_reg_of(hw2 as int / 256 % 16),
                    sysm: (hw2 as int % 256) as u8,
                }
            } else if hw1 / 16 == 0xF38 {
                Instruction::MSR_reg {
                    rn: spec_reg_of(hw1 as int % 16),
                    sysm: (hw2 as int % 256) as u8,
                    mask: (hw2 as int / 1024 % 4) as u8,
                }
            } else {
                udf
            }
        }
    } else if hw1 == 0xE92D {
        Instruction::PUSH {
            registers: (op % 8192 + op / 16384 % 2 * 16384) as u16,
            thumb32: true,
        }
    } else if opu == 0xF84D_0D04 {
        Instruction::PUSH {
            registers: vstd::arithmetic::power2::pow2((op / 4096 % 16) as nat) as u16,
            thumb32: true,
        }
    } else if hw1 / 16 == 0xF8C {
        Instruction::STR_imm {
            rt: spec_reg_of(op / 4096 % 16),
            rn: spec_reg_of(op / 0x1_0000 % 16),
            imm32: (op % 4096) as u32,
            index: true,
            add: true,
            wback: false,
            thumb32: true,
        }
    } else if hw1 / 16 == 0xF84 {
        if hw2 as int / 2048 % 2 == 1 {
            Instruction::STR_imm {
                rt: spec_reg_of(op / 4096 % 16),
                rn: spec_reg_of(op / 0x1_0000 % 16),
                imm32: (op % 256) as u32,
                index: op / 1024 % 2 == 1,
                add: op / 512 % 2 == 1,
                wback: op / 256 % 2 == 1,
                thumb32: true,
            }
        } else {
            udf
        }
    } else if hw1 / 16 == 0xF88 || hw1 / 16 == 0xF80 || hw1 / 16 == 0xF8A || hw1 / 16 == 0xF82 {
        udf
    } else if hw1 / 256 == 0xE9 && (hw1 / 64) % 2 == 0 {
        udf
    } else if hw1 / 2048 == 30 && ((hw1 / 16) % 64 == 16 || (hw1 / 16) % 64 == 17) {
        Instruction::ADD_imm {
            params: Reg2ImmParams {
                rd: spec_reg_of(op / 256 % 16),
                rn: spec_reg_of(op / 0x1_0000 % 16),
                imm32: crate::operation::spec_thumb_expand_imm(
                    (op / 0x400_0000 % 2 * 2048 + op / 4096 % 8 * 256 + op % 256) as u16,
                ) as u32,
                setflags: if op / 0x10_0000 % 2 == 1 {
                    SetFlags::True
                } else {
                    SetFlags::False
                },
            },
            thumb32: true,
        }
    } else if hw1 / 2048 == 30 && ((hw1 / 16) % 64 == 32 || (hw1 / 16) % 64 == 20 || (hw1 / 16)
        % 64 == 21) {
        udf
    } else if hw1 / 16 == 0xEB4 || hw1 / 16 == 0xEB0 {
        udf
    } else if hw1 == 0xEA4F {
        if hw2 as int / 16 % 4 == 3 {
            Instruction::ROR_imm {
                params: Reg2ShiftNParams {
                    rd: spec_reg_of(op / 256 % 16),
                    rm: spec_reg_of(op % 16),
                    shift_n: if op / 4096 % 8 * 4 + op / 64 % 4 == 0 {
                        1u8
                    } else {
                        (op / 4096 % 8 * 4 + op / 64 % 4) as u8
                    },
                    setflags: if op / 0x10_0000 % 2 == 1 {
                        SetFlags::True
                    } else {
                        SetFlags::False
                    },
                },
            }
        } else {
            udf
        }
    } else {
        udf
    }
}

/// Decode a 16-bit Thumb halfword: exactly `spec_decode_16`.  Every
/// result is a 16-bit instruction: its size is 2 bytes.
#[verifier::rlimit(100)]
#[verifier::spinoff_prover]
pub fn decode_16(opcode: u16) -> (r: Instruction)
    ensures
        r == spec_decode_16(opcode),
        spec_instruction_size(r) == 2,
{
    proof {
        reveal(spec_decode_16);
    }
    let rd3: u16 = opcode % 8;
    let rn3: u16 = (opcode / 8) % 8;
    let rm3: u16 = (opcode / 64) % 8;
    let imm5: u16 = (opcode / 64) % 32;
    let imm8: u16 = opcode % 256;
    let r8: u16 = (opcode / 256) % 8;
    if opcode < 0x4000 {
        // Shift (immediate), add, subtract, move and compare.
        let group: u16 = opcode / 2048;
        if group == 0 {
            if imm5 == 0 {
                // LSL #0 is MOV (register) T2.
                Instruction::MOV_reg {
                    params: Reg2Params {
                        rd: Reg::from_bits(rd3),
                        rm: Reg::from_bits(rn3),
                        setflags: true,
                    },
                    thumb32: false,
                }
            } else {
                Instruction::LSL_imm {
                    params: Reg2ShiftNParams {
                        rd: Reg::from_bits(rd3),
                        rm: Reg::from_bits(rn3),
                        shift_n: imm5 as u8,
                        setflags: SetFlags::NotInITBlock,
                    },
                    thumb32: false,
                }
            }
        } else if group == 1 {
            let shift: (SRType, u8) = decode_imm_shift(1, imm5 as u8);
            Instruction::LSR_imm {
                params: Reg2ShiftNParams {
                    rd: Reg::from_bits(rd3),
                    rm: Reg::from_bits(rn3),
                    shift_n: shift.1,
                    setflags: SetFlags::NotInITBlock,
                },
                thumb32: false,
            }
        } else if group == 2 {
            decode_ASR_imm_t1(opcode)
        } else if group == 3 {
            let sel: u16 = (opcode / 512) % 4;
            if sel == 0 {
                decode_ADD_reg_t1(opcode)
            } else if sel == 1 {
                decode_SUB_reg_t1(opcode)
            } else if sel == 2 {
                decode_ADD_imm_t1(opcode)
            } else {
                decode_SUB_imm_t1(opcode)
            }
        } else if group == 4 {
            Instruction::MOV_imm {
                params: RegImmCarryParams {
                    rd: Reg::from_bits(r8),
                    imm32: Imm32Carry::NoCarry { imm32: imm8 as u32 },
                    setflags: SetFlags::NotInITBlock,
                },
                thumb32: false,
            }
        } else if group == 5 {
            Instruction::CMP_imm {
                params: RegImmParams { r: Reg::from_bits(r8), imm32: imm8 as u32 },
                thumb32: false,
            }
        } else if group == 6 {
            decode_ADD_imm_t2(opcode)
        } else {
            decode_SUB_imm_t2(opcode)
        }
    } else if opcode < 0x4400 {
        // Data processing (register).
        let dp: u16 = (opcode / 64) % 16;
        if dp == 0 {
            decode_AND_reg_t1(opcode)
        } else if dp == 1 {
            Instruction::EOR_reg {
                params: Reg3ShiftParams {
                    rd: Reg::from_bits(rd3),
                    rn: Reg::from_bits(rd3),
                    rm: Reg::from_bits(rn3),
                    shift_t: SRType::LSL,
                    shift_n: 0,
                    setflags: SetFlags::NotInITBlock,
                },
                thumb32: false,
            }
        } else if dp == 2 {
            Instruction::LSL_reg {
                params: Reg3Params {
                    rd: Reg::from_bits(rd3),
                    rn: Reg::from_bits(rd3),
                    rm: Reg::from_bits(rn3),
                    setflags: SetFlags::NotInITBlock,
                },
                thumb32: false,
            }
        } else if dp == 3 {
            Instruction::LSR_reg {
                params: Reg3Params {
                    rd: Reg::from_bits(rd3),
                    rn: Reg::from_bits(rd3),
                    rm: Reg::from_bits(rn3),
                    setflags: SetFlags::NotInITBlock,
                },
                thumb32: false,
            }
        } else if dp == 4 {
            decode_ASR_reg_t1(opcode)
        } else if dp == 5 {
            decode_ADC_reg_t1(opcode)
        } else if dp == 6 {
            Instruction::SBC_reg {
                params: Reg3ShiftParams {
                    rd: Reg::from_bits(rd3),
                    rn: Reg::from_bits(rd3),
                    rm: Reg::from_bits(rn3),
                    shift_t: SRType::LSL,
                    shift_n: 0,
                    setflags: SetFlags::NotInITBlock,
                },
                thumb32: false,
            }
        } else if dp == 7 {
            decode_ROR_reg_t1(opcode)
        } else if dp == 8 {
            Instruction::TST_reg {
                params: Reg2ShiftNoSetFlagsParams {
                    rn: Reg::from_bits(rd3),
                    rm: Reg::from_bits(rn3),
                    shift_t: SRType::LSL,
                    shift_n: 0,
                },
                thumb32: false,
            }
        } else if dp == 9 {
            // RSB (immediate) T1: the immediate is always zero.
            Instruction::RSB_imm {
                params: Reg2ImmParams {
                    rd: Reg::from_bits(rd3),
                    rn: Reg::from_bits(rn3),
                    imm32: 0,
                    setflags: SetFlags::NotInITBlock,
                },
                thumb32: false,
            }
        } else if dp == 10 {
            Instruction::CMP_reg {
                params: Reg2ShiftNoSetFlagsParams {
                    rn: Reg::from_bits(rd3),
                    rm: Reg::from_bits(rn3),
                    shift_t: SRType::LSL,
                    shift_n: 0,
                },
                thumb32: false,
            }
        } else if dp == 11 {
            decode_CMN_reg_t1(opcode)
        } else if dp == 12 {
            Instruction::ORR_reg {
                params: Reg3ShiftParams {
                    rd: Reg::from_bits(rd3),
                    rn: Reg::from_bits(rd3),
                    rm: Reg::from_bits(rn3),
                    shift_t: SRType::LSL,
                    shift_n: 0,
                    setflags: SetFlags::NotInITBlock,
                },
                thumb32: false,
            }
        } else if dp == 13 {
            Instruction::MUL {
                params: Reg3Params {
                    rd: Reg::from_bits(rd3),
                    rn: Reg::from_bits(rn3),
                    rm: Reg::from_bits(rd3),
                    setflags: SetFlags::NotInITBlock,
                },
                thumb32: false,
            }
        } else if dp == 14 {
            Instruction::BIC_reg {
                params: Reg3ShiftParams {
                    rd: Reg::from_bits(rd3),
                    rn: Reg::from_bits(rd3),
                    rm: Reg::from_bits(rn3),
                    shift_t: SRType::LSL,
                    shift_n: 0,
                    setflags: SetFlags::NotInITBlock,
                },
                thumb32: false,
            }
        } else {
            Instruction::MVN_reg {
                params: Reg2ShiftParams {
                    rd: Reg::from_bits(rd3),
                    rm: Reg::from_bits(rn3),
                    shift_t: SRType::LSL,
                    shift_n: 0,
                    setflags: SetFlags::NotInITBlock,
                },
                thumb32: false,
            }
        }
    } else if opcode < 0x4800 {
        // Special data processing and branch/exchange.
        let sel: u16 = (opcode / 256) % 4;
        let rdn4: u16 = (opcode / 128) % 2 * 8 + rd3;
        let rm4: u16 = (opcode / 8) % 16;
        if sel == 0 {
            decode_ADD_reg_t2_ADD_SP_reg(opcode)
        } else if sel == 1 {
            Instruction::CMP_reg {
                params: Reg2ShiftNoSetFlagsParams {
                    rn: Reg::from_bits(rdn4),
                    rm: Reg::from_bits(rm4),
                    shift_t: SRType::LSL,
                    shift_n: 0,
                },
                thumb32: false,
            }
        } else if sel == 2 {
            Instruction::MOV_reg {
                params: Reg2Params {
                    rd: Reg::from_bits(rdn4),
                    rm: Reg::from_bits(rm4),
                    setflags: false,
                },
                thumb32: false,
            }
        } else {
            if (opcode / 128) % 2 == 0 {
                Instruction::BX { rm: Reg::from_bits(rm4) }
            } else {
                Instruction::BLX { rm: Reg::from_bits(rm4) }
            }
        }
    } else if opcode < 0x5000 {
        // LDR (literal) T1.
        Instruction::LDR_lit {
            rt: Reg::from_bits(r8),
            imm32: (imm8 as u32) * 4,
            add: true,
            thumb32: false,
        }
    } else if opcode < 0x6000 {
        // Load and store (register offset).
        let sel: u16 = (opcode / 512) % 8;
        if sel == 0 {
            decode_STR_reg_t1(opcode)
        } else if sel == 1 {
            decode_STRH_reg_t1(opcode)
        } else if sel == 2 {
            decode_STRB_reg_t1(opcode)
        } else if sel == 3 {
            Instruction::LDRSB_reg {
                rt: Reg::from_bits(rd3),
                rn: Reg::from_bits(rn3),
                rm: Reg::from_bits(rm3),
                shift_t: SRType::LSL,
                shift_n: 0,
                index: true,
                add: true,
                wback: false,
                thumb32: false,
            }
        } else if sel == 4 {
            Instruction::LDR_reg {
                rt: Reg::from_bits(rd3),
                rn: Reg::from_bits(rn3),
                rm: Reg::from_bits(rm3),
                shift_t: SRType::LSL,
                shift_n: 0,
                index: true,
                add: true,
                wback: false,
                thumb32: false,
            }
        } else if sel == 5 {
            Instruction::LDRH_reg {
                rt: Reg::from_bits(rd3),
                rn: Reg::from_bits(rn3),
                rm: Reg::from_bits(rm3),
                shift_t: SRType::LSL,
                shift_n: 0,
                index: true,
                add: true,
                wback: false,
                thumb32: false,
            }
        } else if sel == 6 {
            Instruction::LDRB_reg {
                rt: Reg::from_bits(rd3),
                rn: Reg::from_bits(rn3),
                rm: Reg::from_bits(rm3),
                shift_t: SRType::LSL,
                shift_n: 0,
                index: true,
                add: true,
                wback: false,
                thumb32: false,
            }
        } else {
            Instruction::LDRSH_reg {
                rt: Reg::from_bits(rd3),
                rn: Reg::from_bits(rn3),
                rm: Reg::from_bits(rm3),
                shift_t: SRType::LSL,
                shift_n: 0,
                index: true,
                add: true,
                wback: false,
                thumb32: false,
            }
        }
    } else if opcode < 0x8000 {
        // STR/LDR and STRB/LDRB (immediate offset).
        let byte_access: bool = (opcode / 4096) % 2 == 1;
        let load: bool = (opcode / 2048) % 2 == 1;
        if byte_access {
            if load {
                Instruction::LDRB_imm {
                    rt: Reg::from_bits(rd3),
                    rn: Reg::from_bits(rn3),
                    imm32: imm5 as u32,
                    index: true,
                    add: true,
                    wback: false,
                    thumb32: false,
                }
            } else {
                decode_STRB_imm_t1(opcode)
            }
        } else {
            if load {
                Instruction::LDR_imm {
                    rt: Reg::from_bits(rd3),
                    rn: Reg::from_bits(rn3),
                    imm32: (imm5 as u32) * 4,
                    index: true,
                    add: true,
                    wback: false,
                    thumb32: false,
                }
            } else {
                decode_STR_imm_t1(opcode)
            }
        }
    } else if opcode < 0x9000 {
        // STRH/LDRH (immediate offset).
        if (opcode / 2048) % 2 == 1 {
            Instruction::LDRH_imm {
                rt: Reg::from_bits(rd3),
                rn: Reg::from_bits(rn3),
                imm32: (imm5 as u32) * 2,
                index: true,
                add: true,
                wback: false,
                thumb32: false,
            }
        } else {
            decode_STRH_imm_t1(opcode)
        }
    } else if opcode < 0xA000 {
        // STR/LDR (SP-relative).
        if (opcode / 2048) % 2 == 1 {
            Instruction::LDR_imm {
                rt: Reg::from_bits(r8),
                rn: Reg::SP,
                imm32: (imm8 as u32) * 4,
                index: true,
                add: true,
                wback: false,
                thumb32: false,
            }
        } else {
            decode_STR_imm_t2(opcode)
        }
    } else if opcode < 0xB000 {
        // ADR and ADD (SP plus immediate).
        if (opcode / 2048) % 2 == 0 {
            decode_ADR_t1(opcode)
        } else {
            decode_ADD_SP_imm_t1(opcode)
        }
    } else if opcode < 0xC000 {
        // Miscellaneous 16-bit instructions.
        let misc: u16 = (opcode / 256) % 16;
        if misc == 0 {
            if (opcode / 128) % 2 == 0 {
                decode_ADD_SP_imm_t2(opcode)
            } else {
                decode_SUB_SP_imm_t1(opcode)
            }
        } else if misc == 1 || misc == 3 || misc == 9 || misc == 11 {
            // CBZ and CBNZ: imm32 is i:imm5:'0'.
            Instruction::CBZ {
                rn: Reg::from_bits(rd3),
                nonzero: (opcode / 2048) % 2 == 1,
                imm32: (((opcode / 512) % 2) as u32) * 64 + (((opcode / 8) % 32) as u32) * 2,
            }
        } else if misc == 2 {
            let ext: u16 = (opcode / 64) % 4;
            if ext == 0 {
                Instruction::SXTH {
                    params: Reg2UsizeParams {
                        rd: Reg::from_bits(rd3),
                        rm: Reg::from_bits(rn3),
                        rotation: 0,
                    },
                    thumb32: false,
                }
            } else if ext == 1 {
                Instruction::SXTB {
                    params: Reg2UsizeParams {
                        rd: Reg::from_bits(rd3),
                        rm: Reg::from_bits(rn3),
                        rotation: 0,
                    },
                    thumb32: false,
                }
            } else if ext == 2 {
                Instruction::UXTH {
                    params: Reg2UsizeParams {
                        rd: Reg::from_bits(rd3),
                        rm: Reg::from_bits(rn3),
                        rotation: 0,
                    },
                    thumb32: false,
                }
            } else {
                Instruction::UXTB {
                    params: Reg2UsizeParams {
                        rd: Reg::from_bits(rd3),
                        rm: Reg::from_bits(rn3),
                        rotation: 0,
                    },
                    thumb32: false,
                }
            }
        } else if misc == 4 || misc == 5 {
            decode_PUSH_t1(opcode)
        } else if misc == 6 {
            // CPS: the only allocated encodings are 0xB662 and 0xB672.
            if opcode == 0xB662 {
                Instruction::CPS { im: false }
            } else if opcode == 0xB672 {
                Instruction::CPS { im: true }
            } else {
                udf16(opcode)
            }
        } else if misc == 10 {
            let rev: u16 = (opcode / 64) % 4;
            if rev == 0 {
                Instruction::REV {
                    rd: Reg::from_bits(rd3),
                    rm: Reg::from_bits(rn3),
                    thumb32: false,
                }
            } else if rev == 1 {
                Instruction::REV16 {
                    rd: Reg::from_bits(rd3),
                    rm: Reg::from_bits(rn3),
                    thumb32: false,
                }
            } else if rev == 3 {
                Instruction::REVSH {
                    rd: Reg::from_bits(rd3),
                    rm: Reg::from_bits(rn3),
                    thumb32: false,
                }
            } else {
                udf16(opcode)
            }
        } else if misc == 12 || misc == 13 {
            // POP T1: bit P adds PC.
            let regs: u16 = imm8 + ((opcode / 256) % 2) * 0x8000;
            Instruction::POP { registers: regs, thumb32: false }
        } else if misc == 14 {
            Instruction::BKPT { imm32: imm8 as u32 }
        } else if misc == 15 {
            // IT and hints.
            let mask: u16 = opcode % 16;
            let firstcond: u16 = (opcode / 16) % 16;
            if mask == 0 {
                // Unallocated hints execute as NOP.
                if firstcond == 1 {
                    Instruction::YIELD { thumb32: false }
                } else if firstcond == 2 {
                    Instruction::WFE { thumb32: false }
                } else if firstcond == 3 {
                    Instruction::WFI { thumb32: false }
                } else if firstcond == 4 {
                    Instruction::SEV { thumb32: false }
                } else {
                    Instruction::NOP { thumb32: false }
                }
            } else {
                match Condition::from_u16(firstcond) {
                    Some(cond) => Instruction::IT { firstcond: cond, mask: mask as u8 },
                    None => udf16(opcode),
                }
            }
        } else {
            udf16(opcode)
        }
    } else if opcode < 0xD000 {
        // STM/LDM T1.
        if (opcode / 2048) % 2 == 0 {
            Instruction::STM {
                rn: Reg::from_bits(r8),
                registers: imm8,
                wback: true,
                thumb32: false,
            }
        } else {
            Instruction::LDM { rn: Reg::from_bits(r8), registers: imm8, thumb32: false }
        }
    } else if opcode < 0xE000 {
        // Conditional branch, SVC and the permanently undefined slot.
        let cond: u16 = (opcode / 256) % 16;
        if cond == 14 {
            udf16(opcode)
        } else if cond == 15 {
            Instruction::SVC { imm32: imm8 as u32 }
        } else {
            match Condition::from_u16(cond) {
                Some(c) => Instruction::B_t13 {
                    cond: c,
                    imm32: sign_extend((imm8 as u32) * 2, 8, 32),
                    thumb32: false,
                },
                None => udf16(opcode),
            }
        }
    } else if opcode < 0xE800 {
        // Unconditional branch T2.
        Instruction::B_t24 { imm32: sign_extend(((opcode % 2048) as u32) * 2, 11, 32), thumb32: false }
    } else {
        // First halfword of a 32-bit encoding: not a 16-bit instruction.
        udf16(opcode)
    }
}

/// Decode a 32-bit Thumb encoding from its two halfwords: exactly
/// `spec_decode_32`.  Every result is a 32-bit instruction: its size
/// is 4 bytes.
#[verifier::rlimit(100)]
#[verifier::spinoff_prover]
pub fn decode_32(hw1: u16, hw2: u16) -> (r: Instruction)
    ensures
        r == spec_decode_32(hw1, hw2),
        spec_instruction_size(r) == 4,
{
    proof {
        reveal(spec_decode_32);
    }
    let opcode: u32 = (hw1 as u32) * 0x1_0000 + (hw2 as u32);
    if hw1 / 2048 == 30 && hw2 >= 0x8000 {
        // Branches and miscellaneous control: `11110 ...`, `1 ...`.
        let sub: u16 = (hw2 / 4096) % 8;
        if sub == 5 || sub == 7 {
            // BL T1: imm32 is S:I1:I2:imm10:imm11:'0'.
            let s: u32 = ((hw1 / 1024) % 2) as u32;
            let imm10: u32 = (hw1 % 1024) as u32;
            let j1: u32 = ((hw2 / 8192) % 2) as u32;
            let j2: u32 = ((hw2 / 2048) % 2) as u32;
            let imm11: u32 = (hw2 % 2048) as u32;
            let i1: u32 = if j1 == s {
                1
            } else {
                0
            };
            let i2: u32 = if j2 == s {
                1
            } else {
                0
            };
            let value: u32 = s * 0x100_0000 + i1 * 0x80_0000 + i2 * 0x40_0000 + imm10 * 0x1000
                + imm11 * 2;
            Instruction::BL { imm32: sign_extend(value, 24, 32) }
        } else if sub == 4 || sub == 6 {
            udf32(opcode)
        } else if sub == 1 || sub == 3 {
            // B T4: same immediate shape as BL.
            let s: u32 = ((hw1 / 1024) % 2) as u32;
            let imm10: u32 = (hw1 % 1024) as u32;
            let j1: u32 = ((hw2 / 8192) % 2) as u32;
            let j2: u32 = ((hw2 / 2048) % 2) as u32;
            let imm11: u32 = (hw2 % 2048) as u32;
            let i1: u32 = if j1 == s {
                1
            } else {
                0
            };
            let i2: u32 = if j2 == s {
                1
            } else {
                0
            };
            let value: u32 = s * 0x100_0000 + i1 * 0x80_0000 + i2 * 0x40_0000 + imm10 * 0x1000
                + imm11 * 2;
            Instruction::B_t24 { imm32: sign_extend(value, 24, 32), thumb32: true }
        } else {
            // `sub` is 0 or 2: conditional branch or control.
            let cond: u16 = (hw1 / 64) % 16;
            if cond < 14 {
                // B T3: imm32 is S:J2:J1:imm6:imm11:'0'.
                let s: u32 = ((hw1 / 1024) % 2) as u32;
                let imm6: u32 = (hw1 % 64) as u32;
                let j1: u32 = ((hw2 / 8192) % 2) as u32;
                let j2: u32 = ((hw2 / 2048) % 2) as u32;
                let imm11: u32 = (hw2 % 2048) as u32;
                let value: u32 = s * 0x10_0000 + j2 * 0x8_0000 + j1 * 0x4_0000 + imm6 * 0x1000
                    + imm11 * 2;
                match Condition::from_u16(cond) {
                    Some(c) => Instruction::B_t13 {
                        cond: c,
                        imm32: sign_extend(value, 20, 32),
                        thumb32: true,
                    },
                    None => udf32(opcode),
                }
            } else if hw1 == 0xF3BF {
                // Barriers.
                let op: u16 = (hw2 / 16) % 16;
                if op == 4 {
                    Instruction::DSB
                } else if op == 5 {
                    Instruction::DMB
                } else if op == 6 {
                    Instruction::ISB
                } else {
                    udf32(opcode)
                }
            } else if hw1 / 16 == 0xF3E {
                Instruction::MRS {
                    rd: Reg::from_bits((hw2 / 256) % 16),
                    sysm: (hw2 % 256) as u8,
                }
            } else if hw1 / 16 == 0xF38 {
                Instruction::MSR_reg {
                    rn: Reg::from_bits(hw1 % 16),
                    sysm: (hw2 % 256) as u8,
                    mask: ((hw2 / 1024) % 4) as u8,
                }
            } else {
                udf32(opcode)
            }
        }
    } else if hw1 == 0xE92D {
        decode_PUSH_t2(opcode)
    } else if opcode == 0xF84D_0D04 {
        decode_PUSH_t3(opcode)
    } else if hw1 / 16 == 0xF8C {
        decode_STR_imm_t3(opcode)
    } else if hw1 / 16 == 0xF84 {
        if (hw2 / 2048) % 2 == 1 {
            decode_STR_imm_t4(opcode)
        } else {
            decode_STR_reg_t2(opcode)
        }
    } else if hw1 / 16 == 0xF88 {
        decode_STRB_imm_t2(opcode)
    } else if hw1 / 16 == 0xF80 {
        if (hw2 / 2048) % 2 == 1 {
            decode_STRB_imm_t3(opcode)
        } else {
            decode_STRB_reg_t2(opcode)
        }
    } else if hw1 / 16 == 0xF8A {
        decode_STRH_imm_t2(opcode)
    } else if hw1 / 16 == 0xF82 {
        decode_STRH_imm_t3(opcode)
    } else if hw1 / 256 == 0xE9 && (hw1 / 64) % 2 == 0 {
        decode_STRD_imm_t1(opcode)
    } else if hw1 / 2048 == 30 && ((hw1 / 16) % 64 == 16 || (hw1 / 16) % 64 == 17) {
        decode_ADD_imm_t3(opcode)
    } else if hw1 / 2048 == 30 && (hw1 / 16) % 64 == 32 {
        decode_ADD_imm_t4(opcode)
    } else if hw1 / 2048 == 30 && ((hw1 / 16) % 64 == 20 || (hw1 / 16) % 64 == 21) {
        decode_ADC_imm_t1(opcode)
    } else if hw1 / 16 == 0xEB4 {
        decode_ADC_reg_t2(opcode)
    } else if hw1 / 16 == 0xEB0 {
        decode_ADD_reg_t3(opcode)
    } else if hw1 == 0xEA4F {
        if (hw2 / 16) % 4 == 3 {
            decode_ROR_imm_t1(opcode)
        } else {
            udf32(opcode)
        }
    } else if hw1 / 16 == 0xFA6 {
        decode_ROR_reg_t2(opcode)
    } else {
        udf32(opcode)
    }
}

} // verus!
