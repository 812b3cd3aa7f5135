//! The arithmetic primitives, the condition truth table, shifts and
//! the decoder size rule.

use zmu_cortex_m::condition::Condition;
use zmu_cortex_m::decoder::{decode_16, decode_32, is_thumb32};
use zmu_cortex_m::instruction::{instruction_size, Instruction, SRType};
use zmu_cortex_m::operation::{
    add_with_carry, condition_passed, decode_imm_shift, lsl_c, ror_c, shift_c, sign_extend,
    thumb_expand_imm,
};
use zmu_cortex_m::register::PSR;

#[test]
fn test_add_with_carry() {
    let (result, carry, overflow) = add_with_carry(0x410, 4, false);
    assert!(result == 0x414);
    assert!(carry == false);
    assert!(overflow == false);
}

#[test]
fn add_with_carry_edges() {
    // result = (x + y + c) mod 2^32; carry iff the sum overflows;
    // overflow iff operands agree in sign and the result does not.
    assert_eq!(add_with_carry(0xFFFF_FFFF, 0, true), (0, true, false));
    assert_eq!(add_with_carry(0xFFFF_FFFF, 1, false), (0, true, false));
    assert_eq!(
        add_with_carry(0x7FFF_FFFF, 1, false),
        (0x8000_0000, false, true)
    );
    assert_eq!(
        add_with_carry(0x8000_0000, 0x8000_0000, false),
        (0, true, true)
    );
    // SUB x - y is x + NOT y + 1.
    assert_eq!(add_with_carry(5, !3, true), (2, true, false));
}

fn psr_with(n: bool, z: bool, c: bool, v: bool) -> PSR {
    PSR {
        n,
        z,
        c,
        v,
        q: false,
        t: true,
        it: 0,
        exception: 0,
    }
}

#[test]
fn condition_truth_table_exhaustive() {
    // The full 15-condition by 16-flag truth table of the ARM ARM.
    for bits in 0u32..16 {
        let n = bits & 8 != 0;
        let z = bits & 4 != 0;
        let c = bits & 2 != 0;
        let v = bits & 1 != 0;
        let psr = psr_with(n, z, c, v);
        for cond_num in 0u16..15 {
            let cond = Condition::from_u16(cond_num).unwrap();
            let expected = match cond {
                Condition::EQ => z,
                Condition::NE => !z,
                Condition::CS => c,
                Condition::CC => !c,
                Condition::MI => n,
                Condition::PL => !n,
                Condition::VS => v,
                Condition::VC => !v,
                Condition::HI => c && !z,
                Condition::LS => !c || z,
                Condition::GE => n == v,
                Condition::LT => n != v,
                Condition::GT => (n == v) && !z,
                Condition::LE => (n != v) || z,
                Condition::AL => true,
            };
            assert_eq!(condition_passed(cond, &psr), expected);
        }
    }
    // AL always passes; EQ tracks Z exactly.
    assert!(condition_passed(Condition::AL, &psr_with(true, false, true, false)));
    assert!(condition_passed(Condition::EQ, &psr_with(false, true, false, false)));
    assert!(!condition_passed(Condition::EQ, &psr_with(false, false, false, false)));
}

#[test]
fn decode_imm_shift_table() {
    assert_eq!(decode_imm_shift(0, 5), (SRType::LSL, 5));
    assert_eq!(decode_imm_shift(1, 0), (SRType::LSR, 32));
    assert_eq!(decode_imm_shift(1, 7), (SRType::LSR, 7));
    assert_eq!(decode_imm_shift(2, 0), (SRType::ASR, 32));
    assert_eq!(decode_imm_shift(3, 0), (SRType::RRX, 1));
    assert_eq!(decode_imm_shift(3, 9), (SRType::ROR, 9));
}

#[test]
fn shift_c_semantics() {
    // Amount 0 passes value and carry through.
    assert_eq!(shift_c(0x1234, SRType::LSL, 0, true), (0x1234, true));
    assert_eq!(lsl_c(1, 4), (16, false));
    assert_eq!(lsl_c(0x8000_0000, 1), (0, true));
    assert_eq!(shift_c(0x8000_0001, SRType::LSR, 1, false), (0x4000_0000, true));
    assert_eq!(shift_c(0xFFFF_FFFF, SRType::LSR, 32, false), (0, true));
    assert_eq!(shift_c(0x8000_0000, SRType::ASR, 1, false), (0xC000_0000, false));
    assert_eq!(shift_c(0x8000_0000, SRType::ASR, 32, false), (0xFFFF_FFFF, true));
    assert_eq!(shift_c(0x0000_0001, SRType::ASR, 32, true), (0, false));
    assert_eq!(ror_c(0x8000_0001, 1), (0xC000_0000, true));
    assert_eq!(shift_c(0x0000_00F1, SRType::ROR, 4, false), (0x1000_000F, false));
    assert_eq!(shift_c(0x0000_0003, SRType::RRX, 1, false), (0x0000_0001, true));
    assert_eq!(shift_c(0x0000_0002, SRType::RRX, 1, true), (0x8000_0001, false));
}

#[test]
fn sign_extend_replicates_top_bit() {
    assert_eq!(sign_extend(0x1FF, 8, 32), -1);
    assert_eq!(sign_extend(0x0FF, 8, 32), 255);
    assert_eq!(sign_extend(0x100, 8, 32), -256);
    assert_eq!(sign_extend(0xFF, 7, 32), -1);
    assert_eq!(sign_extend(0x7F, 7, 32), 127);
    assert_eq!(sign_extend(0x40, 7, 32), 64);
}

#[test]
fn thumb_expand_imm_forms() {
    // Plain byte, the three replication patterns, and a rotation.
    assert_eq!(thumb_expand_imm(0x0AB), 0xAB);
    assert_eq!(thumb_expand_imm(0x1AB), 0x00AB_00AB);
    assert_eq!(thumb_expand_imm(0x2AB), 0xAB00_AB00);
    assert_eq!(thumb_expand_imm(0x3AB), 0xABAB_ABAB);
    // Rotation 8: 0xAB (with the forced top bit) rotated right by 8.
    assert_eq!(thumb_expand_imm(0x42B), 0xAB00_0000);
}

#[test]
fn thumb_size_rule_exhaustive() {
    // Every halfword below the 32-bit prefixes decodes to a 2-byte
    // instruction; the three prefixes open 4-byte encodings.
    for op in 0u16..0xE800 {
        assert!(!is_thumb32(op));
        assert_eq!(instruction_size(&decode_16(op)), 2);
    }
    for op in 0xE800u16..=0xFFFF {
        assert!(is_thumb32(op));
    }
    // A sample across the 32-bit space, recognised or not.
    for hw1 in [0xE800u16, 0xE92D, 0xF000, 0xF3BF, 0xF7FF, 0xF8C0, 0xFFFF] {
        for hw2 in [0x0000u16, 0x8000, 0xF820, 0x8F4F, 0xFFFF] {
            assert_eq!(instruction_size(&decode_32(hw1, hw2)), 4);
        }
    }
}

#[test]
fn decoder_recognises_core_encodings() {
    // MOVS R0, #42.
    match decode_16(0x202A) {
        Instruction::MOV_imm { params, thumb32 } => {
            assert!(!thumb32);
            assert_eq!(format!("{:?}", params.rd), "R0");
        }
        other => panic!("unexpected decoding: {:?}", other),
    }
    // PUSH {R0, LR}.
    match decode_16(0xB501) {
        Instruction::PUSH { registers, thumb32 } => {
            assert!(!thumb32);
            assert_eq!(registers, 0x4001);
        }
        other => panic!("unexpected decoding: {:?}", other),
    }
    // BKPT 0xAB.
    match decode_16(0xBEAB) {
        Instruction::BKPT { imm32 } => assert_eq!(imm32, 0xAB),
        other => panic!("unexpected decoding: {:?}", other),
    }
    // DSB; DMB; ISB.
    assert!(matches!(decode_32(0xF3BF, 0x8F4F), Instruction::DSB));
    assert!(matches!(decode_32(0xF3BF, 0x8F5F), Instruction::DMB));
    assert!(matches!(decode_32(0xF3BF, 0x8F6F), Instruction::ISB));
}
