//! Shared arithmetic primitives of the executor: the ARM ARM
//! `AddWithCarry`, `SignExtend`, `Shift_C`, `ThumbExpandImm` and
//! condition evaluation.
//!
//! The specifications speak in plain integer arithmetic: a right
//! shift is a division by a power of two, a bit field is a quotient
//! and a remainder.

use vstd::prelude::*;

use vstd::arithmetic::div_mod::{
    lemma_add_mod_noop, lemma_fundamental_div_mod_converse, lemma_hoist_over_denominator,
    lemma_mod_multiples_basic,
};
use vstd::arithmetic::power2::{lemma2_to64, lemma_pow2_adds, lemma_pow2_pos, pow2};

use crate::condition::Condition;
use crate::instruction::SRType;
use crate::register::PSR;

verus! {

/// The value of a 32-bit word read as a two's-complement integer.
pub open spec fn sint32(v: u32) -> int {
    if v >= 0x8000_0000 {
        v - 0x1_0000_0000
    } else {
        v as int
    }
}

/// Reinterpret a 32-bit word as a signed integer.
pub fn u32_as_i32(v: u32) -> (r: i32)
    ensures
        r as int == sint32(v),
{
    if v >= 0x8000_0000 {
        let low: u32 = v - 0x8000_0000;
        (low as i32) + i32::MIN
    } else {
        v as i32
    }
}

/// Reinterpret a signed integer as a 32-bit word.
pub fn i32_as_u32(v: i32) -> (r: u32)
    ensures
        sint32(r) == v,
        r as int == (v as int) % 0x1_0000_0000,
{
    if v >= 0 {
        v as u32
    } else {
        let shifted: i32 = (v + 0x7FFF_FFFF) + 1;
        (shifted as u32) + 0x8000_0000
    }
}

/// `2^e` as a 64-bit value.
pub fn pow2_u64(e: u32) -> (r: u64)
    requires
        e < 64,
    ensures
        r == pow2(e as nat),
        1 <= r,
{
    proof {
        vstd::bits::lemma_u64_pow2_no_overflow(e as nat);
        vstd::bits::lemma_u64_shl_is_mul(1u64, e as u64);
        lemma_pow2_pos(e as nat);
    }
    1u64 << e
}

/// The 32-bit sum of `AddWithCarry`.
pub open spec fn spec_awc_result(x: u32, y: u32, carry_in: bool) -> int {
    (x + y + (if carry_in { 1int } else { 0int })) % 0x1_0000_0000
}

/// The carry-out of `AddWithCarry`: the unsigned sum overflowed.
pub open spec fn spec_awc_carry(x: u32, y: u32, carry_in: bool) -> bool {
    x + y + (if carry_in { 1int } else { 0int }) >= 0x1_0000_0000
}

/// The signed overflow of `AddWithCarry`: the operands agree in sign
/// and the result does not.
pub open spec fn spec_awc_overflow(x: u32, y: u32, carry_in: bool) -> bool {
    ((x >= 0x8000_0000) <==> (y >= 0x8000_0000)) && !((x >= 0x8000_0000) <==> (spec_awc_result(
        x,
        y,
        carry_in,
    ) >= 0x8000_0000))
}

/// `AddWithCarry(x, y, carry_in)` of the ARM ARM: the 32-bit sum
/// together with the carry-out and signed-overflow flags.
pub fn add_with_carry(x: u32, y: u32, carry_in: bool) -> (r: (u32, bool, bool))
    ensures
        r.0 == spec_awc_result(x, y, carry_in),
        r.1 == spec_awc_carry(x, y, carry_in),
        r.2 == spec_awc_overflow(x, y, carry_in),
{
    let cin: u64 = if carry_in { 1 } else { 0 };
    let unsigned_sum: u64 = (x as u64) + (y as u64) + cin;
    let result: u32 = (unsigned_sum % 0x1_0000_0000) as u32;
    let carry_out: bool = unsigned_sum >= 0x1_0000_0000;
    let sign_x: bool = x >= 0x8000_0000;
    let sign_y: bool = y >= 0x8000_0000;
    let sign_r: bool = result >= 0x8000_0000;
    let overflow: bool = (sign_x == sign_y) && (sign_x != sign_r);
    (result, carry_out, overflow)
}

/// The ARM ARM condition truth table over the APSR flags.
pub open spec fn spec_condition_passed(condition: Condition, psr: PSR) -> bool {
    match condition {
        Condition::EQ => psr.z,
        Condition::NE => !psr.z,
        Condition::CS => psr.c,
        Condition::CC => !psr.c,
        Condition::MI => psr.n,
        Condition::PL => !psr.n,
        Condition::VS => psr.v,
        Condition::VC => !psr.v,
        Condition::HI => psr.c && !psr.z,
        Condition::LS => !psr.c || psr.z,
        Condition::GE => psr.n == psr.v,
        Condition::LT => psr.n != psr.v,
        Condition::GT => (psr.n == psr.v) && !psr.z,
        Condition::LE => (psr.n != psr.v) || psr.z,
        Condition::AL => true,
    }
}

/// The condition test for an instruction: the two conditional branch
/// encodings and the conditions an IT block imposes.
pub fn condition_passed(condition: Condition, psr: &PSR) -> (r: bool)
    ensures
        r == spec_condition_passed(condition, *psr),
{
    match condition {
        Condition::EQ => psr.get_z(),
        Condition::NE => !psr.get_z(),
        Condition::CS => psr.get_c(),
        Condition::CC => !psr.get_c(),
        Condition::MI => psr.get_n(),
        Condition::PL => !psr.get_n(),
        Condition::VS => psr.get_v(),
        Condition::VC => !psr.get_v(),
        Condition::HI => psr.get_c() && !psr.get_z(),
        Condition::LS => !psr.get_c() || psr.get_z(),
        Condition::GE => psr.get_n() == psr.get_v(),
        Condition::LT => psr.get_n() != psr.get_v(),
        Condition::GT => (psr.get_n() == psr.get_v()) && !psr.get_z(),
        Condition::LE => (psr.get_n() != psr.get_v()) || psr.get_z(),
        Condition::AL => true,
    }
}

/// Decode an immediate shift: a 2-bit type and a 5-bit amount map to
/// the shift operation and the amount to use, where an encoded
/// amount of 0 means 32 for LSR and ASR and selects RRX for ROR.
pub fn decode_imm_shift(typebits: u8, imm5: u8) -> (r: (SRType, u8))
    ensures
        typebits % 4 == 0 ==> r == (SRType::LSL, imm5),
        typebits % 4 == 1 ==> r == (SRType::LSR, if imm5 == 0 { 32u8 } else { imm5 }),
        typebits % 4 == 2 ==> r == (SRType::ASR, if imm5 == 0 { 32u8 } else { imm5 }),
        typebits % 4 == 3 && imm5 == 0 ==> r == (SRType::RRX, 1u8),
        typebits % 4 == 3 && imm5 != 0 ==> r == (SRType::ROR, imm5),
{
    match typebits % 4 {
        0u8 => (SRType::LSL, imm5),
        1u8 => (SRType::LSR, if imm5 == 0 { 32 } else { imm5 }),
        2u8 => (SRType::ASR, if imm5 == 0 { 32 } else { imm5 }),
        _ => match imm5 {
            0u8 => (SRType::RRX, 1),
            _ => (SRType::ROR, imm5),
        },
    }
}

/// Logical shift left by `n >= 1`: the low 32 bits of the widened
/// product, and bit 32 as the carry.
pub open spec fn spec_lsl32(v: u32, n: nat) -> (int, bool) {
    if n > 32 {
        (0int, false)
    } else {
        ((v * pow2(n)) % 0x1_0000_0000, ((v * pow2(n)) / 0x1_0000_0000) % 2 == 1)
    }
}

/// Logical shift right by `n >= 1`: division by `2^n`, with the last
/// bit shifted out as the carry.
pub open spec fn spec_lsr32(v: u32, n: nat) -> (int, bool) {
    if n > 32 {
        (0int, false)
    } else {
        (v as int / pow2(n) as int, (v as int / pow2((n - 1) as nat) as int) % 2 == 1)
    }
}

/// Arithmetic shift right by `n >= 1`: signed division by `2^n`
/// (rounding down), re-encoded as a 32-bit word; amounts past 32
/// saturate at 32.
pub open spec fn spec_asr32(v: u32, n: nat) -> (int, bool) {
    let m: nat = if n > 32 {
        32nat
    } else {
        n
    };
    (
        (sint32(v) / pow2(m) as int) % 0x1_0000_0000,
        (sint32(v) / pow2((m - 1) as nat) as int) % 2 == 1,
    )
}

/// Rotate right by `n >= 1` (modulo 32): the low `n mod 32` bits wrap
/// to the top, and bit 31 of the result is the carry.
pub open spec fn spec_ror32(v: u32, n: nat) -> (int, bool) {
    let m: nat = n % 32;
    let value: int = if m == 0 {
        v as int
    } else {
        v as int / pow2(m) as int + (v as int % pow2(m) as int) * pow2((32 - m) as nat)
    };
    (value, value >= 0x8000_0000)
}

/// Rotate right with extend: the carry enters at bit 31 and bit 0
/// leaves as the new carry.
pub open spec fn spec_rrx32(v: u32, carry_in: bool) -> (int, bool) {
    ((if carry_in { 0x8000_0000int } else { 0int }) + v as int / 2, v % 2 == 1)
}

/// `LSL_C` for a nonzero amount.
pub fn lsl_c(value: u32, shift: u32) -> (r: (u32, bool))
    requires
        shift >= 1,
    ensures
        r.0 == spec_lsl32(value, shift as nat).0,
        r.1 == spec_lsl32(value, shift as nat).1,
{
    if shift > 32 {
        (0, false)
    } else {
        proof {
            vstd::bits::lemma_u64_pow2_no_overflow(shift as nat);
            lemma2_to64();
            if (shift as nat) < 32 {
                vstd::arithmetic::power2::lemma_pow2_strictly_increases(shift as nat, 32);
            }
            assert(value * pow2(shift as nat) <= 0xFFFF_FFFF_FFFF_FFFF) by (nonlinear_arith)
                requires
                    value <= 0xFFFF_FFFFu64 && pow2(shift as nat) <= pow2(32) && pow2(32)
                        == 0x1_0000_0000,
            ;
            vstd::bits::lemma_u64_shl_is_mul(value as u64, shift as u64);
        }
        let extended: u64 = (value as u64) << shift;
        (((extended % 0x1_0000_0000) as u32), (extended / 0x1_0000_0000) % 2 == 1)
    }
}

/// `LSR_C` for a nonzero amount.
pub fn lsr_c(value: u32, shift: u32) -> (r: (u32, bool))
    requires
        shift >= 1,
    ensures
        r.0 == spec_lsr32(value, shift as nat).0,
        r.1 == spec_lsr32(value, shift as nat).1,
{
    if shift > 32 {
        (0, false)
    } else {
        let pm: u64 = pow2_u64(shift);
        let pm1: u64 = pow2_u64(shift - 1);
        proof {
            lemma_pow2_pos(shift as nat);
            lemma_pow2_pos((shift - 1) as nat);
            lemma2_to64();
        }
        let q: u64 = (value as u64) / pm;
        let q1: u64 = (value as u64) / pm1;
        proof {
            assert(q < 0x1_0000_0000) by (nonlinear_arith)
                requires
                    q == (value as u64) / pm && value < 0x1_0000_0000u64 && pm >= 1,
            ;
        }
        ((q as u32), q1 % 2 == 1)
    }
}

/// `ASR_C` for a nonzero amount.
pub fn asr_c(value: u32, shift: u32) -> (r: (u32, bool))
    requires
        shift >= 1,
    ensures
        r.0 == spec_asr32(value, shift as nat).0,
        r.1 == spec_asr32(value, shift as nat).1,
{
    let m: u32 = if shift > 32 {
        32
    } else {
        shift
    };
    let extended: u64 = if value >= 0x8000_0000 {
        (value as u64) + 0xFFFF_FFFF_0000_0000
    } else {
        value as u64
    };
    let pm: u64 = pow2_u64(m);
    let pm1: u64 = pow2_u64(m - 1);
    let q: u64 = extended / pm;
    let q1: u64 = extended / pm1;
    let result: u32 = (q % 0x1_0000_0000) as u32;
    let carry: bool = q1 % 2 == 1;
    proof {
        let sv = sint32(value);
        let mm = m as nat;
        lemma_pow2_pos(mm);
        lemma_pow2_pos((mm - 1) as nat);
        lemma2_to64();
        if value >= 0x8000_0000 {
            // extended == sv + 2^64; dividing out 2^m leaves the signed
            // quotient plus a multiple of 2^32, which the final modulus
            // removes.
            lemma_pow2_adds((64 - mm) as nat, mm);
            assert(extended == sv + pow2((64 - mm) as nat) * pow2(mm));
            lemma_hoist_over_denominator(sv, pow2((64 - mm) as nat) as int, pow2(mm));
            assert(q == sv / pow2(mm) as int + pow2((64 - mm) as nat));
            lemma_pow2_adds(32, (32 - mm) as nat);
            assert(pow2((64 - mm) as nat) == pow2(32) * pow2((32 - mm) as nat));
            lemma_mod_multiples_basic(pow2((32 - mm) as nat) as int, 0x1_0000_0000);
            lemma_add_mod_noop(sv / pow2(mm) as int, pow2((64 - mm) as nat) as int, 0x1_0000_0000);
            assert(q % 0x1_0000_0000 == (sv / pow2(mm) as int) % 0x1_0000_0000);
            // Carry: the same shape one bit lower; the added term is even.
            lemma_pow2_adds((65 - mm) as nat, (mm - 1) as nat);
            assert(extended == sv + pow2((65 - mm) as nat) * pow2((mm - 1) as nat));
            lemma_hoist_over_denominator(sv, pow2((65 - mm) as nat) as int, pow2((mm - 1) as nat));
            assert(q1 == sv / pow2((mm - 1) as nat) as int + pow2((65 - mm) as nat));
            lemma_pow2_adds(1, (64 - mm) as nat);
            lemma_mod_multiples_basic(pow2((64 - mm) as nat) as int, 2);
            lemma_add_mod_noop(sv / pow2((mm - 1) as nat) as int, pow2((65 - mm) as nat) as int, 2);
            assert(q1 % 2 == (sv / pow2((mm - 1) as nat) as int) % 2);
        } else {
            assert(q == sv / pow2(mm) as int);
            assert(q <= value);
            assert(q % 0x1_0000_0000 == (sv / pow2(mm) as int) % 0x1_0000_0000);
        }
        if shift > 32 {
            assert(spec_asr32(value, shift as nat) == spec_asr32(value, 32nat));
        }
    }
    (result, carry)
}

/// `ROR_C` for a nonzero amount.
pub fn ror_c(value: u32, shift: u32) -> (r: (u32, bool))
    requires
        shift >= 1,
    ensures
        r.0 == spec_ror32(value, shift as nat).0,
        r.1 == spec_ror32(value, shift as nat).1,
{
    let m: u32 = shift % 32;
    if m == 0 {
        (value, value >= 0x8000_0000)
    } else {
        let pm: u64 = pow2_u64(m);
        let pc: u64 = pow2_u64(32 - m);
        proof {
            lemma_pow2_pos(m as nat);
            lemma_pow2_pos((32 - m) as nat);
            lemma_pow2_adds(m as nat, (32 - m) as nat);
            lemma2_to64();
            assert((value as u64) / pm < pc && ((value as u64) % pm) * pc + pc <= 0x1_0000_0000)
                by (nonlinear_arith)
                requires
                    pm >= 1 && pc >= 1 && (value as u64) < pm * pc && pm * pc == 0x1_0000_0000,
            ;
        }
        let hi: u64 = (value as u64) / pm;
        let lo: u64 = ((value as u64) % pm) * pc;
        let result: u64 = hi + lo;
        ((result as u32), result >= 0x8000_0000)
    }
}

/// `RRX_C`: rotate right by one through the carry.
pub fn rrx_c(value: u32, carry_in: bool) -> (r: (u32, bool))
    ensures
        r.0 == spec_rrx32(value, carry_in).0,
        r.1 == spec_rrx32(value, carry_in).1,
{
    let top: u32 = if carry_in {
        0x8000_0000
    } else {
        0
    };
    (top + value / 2, value % 2 == 1)
}

/// `Shift_C(value, type, amount, carry_in)` of the ARM ARM.  An
/// amount of zero passes value and carry through unchanged.
pub open spec fn spec_shift_c(value: u32, shift_t: SRType, amount: nat, carry_in: bool) -> (
    int,
    bool,
) {
    if amount == 0 {
        (value as int, carry_in)
    } else {
        match shift_t {
            SRType::LSL => spec_lsl32(value, amount),
            SRType::LSR => spec_lsr32(value, amount),
            SRType::ASR => spec_asr32(value, amount),
            SRType::ROR => spec_ror32(value, amount),
            SRType::RRX => spec_rrx32(value, carry_in),
        }
    }
}

/// Apply a decoded shift to a value, tracking the carry.
pub fn shift_c(value: u32, shift_t: SRType, amount: u32, carry_in: bool) -> (r: (u32, bool))
    requires
        shift_t == SRType::RRX ==> amount == 1,
    ensures
        r.0 == spec_shift_c(value, shift_t, amount as nat, carry_in).0,
        r.1 == spec_shift_c(value, shift_t, amount as nat, carry_in).1,
{
    if amount == 0 {
        (value, carry_in)
    } else {
        match shift_t {
            SRType::LSL => lsl_c(value, amount),
            SRType::LSR => lsr_c(value, amount),
            SRType::ASR => asr_c(value, amount),
            SRType::ROR => ror_c(value, amount),
            SRType::RRX => rrx_c(value, carry_in),
        }
    }
}

/// `SignExtend(word, topbit, size)`: the low `topbit+1` bits of the
/// word with bit `topbit` replicated through bit `size-1`, as an
/// unsigned `size`-bit pattern.
pub open spec fn spec_sign_extend(word: u32, topbit: nat, size: nat) -> int {
    let low = word as int % pow2((topbit + 1) as nat) as int;
    if low >= pow2(topbit) {
        low + pow2(size) - pow2((topbit + 1) as nat)
    } else {
        low
    }
}

/// Replicate bit `topbit` of `word` up through bit `size-1` and read
/// the result as a signed 32-bit value.
pub fn sign_extend(word: u32, topbit: u8, size: u8) -> (r: i32)
    requires
        topbit < size,
        size <= 32,
    ensures
        r as int == sint32(spec_sign_extend(word, topbit as nat, size as nat) as u32),
{
    let p1: u64 = pow2_u64((topbit as u32) + 1);
    let pt: u64 = pow2_u64(topbit as u32);
    let ps: u64 = pow2_u64(size as u32);
    proof {
        lemma_pow2_adds(topbit as nat, 1);
        lemma2_to64();
        vstd::arithmetic::power2::lemma_pow2_strictly_increases(topbit as nat, size as nat);
        vstd::arithmetic::power2::lemma_pow2_strictly_increases(
            (topbit + 1) as nat,
            (size + 1) as nat,
        );
        if (size as nat) < 32 {
            vstd::arithmetic::power2::lemma_pow2_strictly_increases(size as nat, 32);
        }
    }
    let low: u64 = (word as u64) % p1;
    if low >= pt {
        let ext: u64 = low + ps - p1;
        u32_as_i32(ext as u32)
    } else {
        u32_as_i32(low as u32)
    }
}

/// `ThumbExpandImm(imm12)`: the modified immediate constant of the
/// 32-bit data-processing encodings.  The low byte is `XY`; the
/// selector bits 11:8 choose `XY`, `00XY00XY`, `XY00XY00`, `XYXYXYXY`
/// or a rotation of `1XXXXXXX`.
pub open spec fn spec_thumb_expand_imm(imm12: u16) -> int {
    let imm8 = imm12 as int % 256;
    if imm12 / 1024 == 0 {
        let mode = (imm12 / 256) % 4;
        if mode == 0 {
            imm8
        } else if mode == 1 {
            imm8 * 0x0001_0001
        } else if mode == 2 {
            imm8 * 0x0100_0100
        } else {
            imm8 * 0x0101_0101
        }
    } else {
        let rotation = imm12 / 128;
        let value = 128 + imm12 as int % 128;
        spec_ror32(value as u32, rotation as nat).0
    }
}

/// Expand a 12-bit modified immediate field.
pub fn thumb_expand_imm(imm12: u16) -> (r: u32)
    requires
        imm12 < 4096,
    ensures
        r == spec_thumb_expand_imm(imm12),
{
    let imm8: u32 = (imm12 % 256) as u32;
    if imm12 / 1024 == 0 {
        let mode: u16 = (imm12 / 256) % 4;
        if mode == 0 {
            imm8
        } else if mode == 1 {
            imm8 * 0x0001_0001
        } else if mode == 2 {
            imm8 * 0x0100_0100
        } else {
            imm8 * 0x0101_0101
        }
    } else {
        let rotation: u32 = (imm12 / 128) as u32;
        let value: u32 = 128 + (imm12 % 128) as u32;
        let rotated: (u32, bool) = ror_c(value, rotation);
        rotated.0
    }
}

} // verus!
