//! The per-instruction executor: each decoded instruction mutates the
//! core state and issues bus transactions per the ARM ARM pseudocode.
//!
//! This profile implements the ARMv6-M set (plus the 32-bit encodings
//! the decoder recognises); executing an instruction of a later
//! profile is surfaced as an undefined-instruction fault, as a
//! Cortex-M0 would.

use vstd::prelude::*;

use crate::bus::{matrix_read16, matrix_read32, matrix_read8, matrix_write32, matrix_write8, Bus};
use crate::condition::Condition;
use crate::cpu::Core;
use crate::fault::Fault;
use crate::instruction::{Imm32Carry, Instruction, Reg2ImmParams, Reg2ShiftNoSetFlagsParams, Reg3ShiftParams, RegImmCarryNoSetFlagsParams, RegImmParams, SetFlags, ThumbCode};
use crate::operation::{add_with_carry, condition_passed, shift_c};
use crate::register::Reg;
use crate::stack::{
    bit_set, count_below, lemma_count_below_mono, lemma_mask_shift, lemma_read_words_index,
    lemma_read_words_len, lemma_sel_below_len, lemma_store_words_snoc, popped_regs, pushed_words,
    read_words, sel_below, slot_in_sram, stack_in_sram, store_words, word_slot,
};

verus! {

/// How an instruction left the program counter.
#[derive(Clone, Copy, Debug, PartialEq, Eq, Structural)]
pub enum ExecOutcome {
    /// PC was not written: the run loop advances it by the size.
    Advance,
    /// The instruction wrote PC.
    Branched,
    /// A `BKPT 0xAB`: the semihosting convention applies.
    Semihost,
}

/// The frame of ensures every executor step guarantees: the core
/// stays well formed, flash is untouched, and SRAM keeps its region
/// identity.
pub open spec fn exec_frame<T: Bus, R: Bus>(
    core0: Core,
    code0: T,
    sram0: R,
    core1: Core,
    code1: T,
    sram1: R,
) -> bool {
    core1.wf() && code1 == code0 && sram1.wf() && sram1.base_spec() == sram0.base_spec()
        && sram1.len_spec() == sram0.len_spec() && sram1.readable_spec() == sram0.readable_spec()
        && sram1.writable_spec() == sram0.writable_spec() && core1.count == core0.count
}

/// Bitwise NOT of a 32-bit word.
pub fn not32(x: u32) -> (r: u32)
    ensures
        r == 0xFFFF_FFFFu32 - x,
{
    0xFFFF_FFFF - x
}

/// The raw bits of a fetched opcode.
fn thumbcode_bits(code: ThumbCode) -> (r: u32)
    ensures
        r == (match code {
            ThumbCode::Thumb16 { opcode } => opcode as u32,
            ThumbCode::Thumb32 { opcode } => opcode,
        }),
{
    match code {
        ThumbCode::Thumb16 { opcode } => opcode as u32,
        ThumbCode::Thumb32 { opcode } => opcode,
    }
}

/// Resolve a `SetFlags` tag against the IT state.
fn setflags_on(core: &Core, sf: SetFlags) -> (r: bool)
    ensures
        r == (match sf {
            SetFlags::True => true,
            SetFlags::False => false,
            SetFlags::NotInITBlock => !core.psr.in_it_block_spec(),
        }),
{
    match sf {
        SetFlags::True => true,
        SetFlags::False => false,
        SetFlags::NotInITBlock => !core.in_it_block(),
    }
}

/// Write an ALU result: a PC destination is a branch (bit 0
/// discarded), an SP destination clears bits 1:0, any other register
/// a plain write.
fn write_result(core: &mut Core, rd: Reg, value: u32) -> (branched: bool)
    requires
        old(core).wf(),
    ensures
        final(core).wf(),
        branched == (rd == Reg::PC),
        final(core).regs@ == old(core).regs@.update(
            rd.num(),
            if rd == Reg::PC {
                (value - value % 2) as u32
            } else if rd == Reg::SP {
                (value - value % 4) as u32
            } else {
                value
            },
        ),
        final(core).psr == old(core).psr,
        final(core).primask == old(core).primask,
        final(core).control == old(core).control,
        final(core).count == old(core).count,
{
    if matches!(rd, Reg::PC) {
        core.set_pc(value);
        true
    } else {
        core.set_r(rd, value);
        false
    }
}

/// Branch with interworking: the low bit of the target selects the
/// instruction set and must be 1 (Thumb) on this profile.
fn bx_write_pc(core: &mut Core, value: u32) -> (r: Result<(), Fault>)
    requires
        old(core).wf(),
    ensures
        final(core).wf(),
        match r {
            Ok(u) => value % 2 == 1 && final(core).regs@ == old(core).regs@.update(
                15,
                (value - 1) as u32,
            ) && final(core).psr == old(core).psr,
            Err(f) => value % 2 == 0 && *final(core) == *old(core) && f == (
            Fault::UndefinedInstruction { opcode: 0, pc: old(core).regs@[15] as u32 }),
        },
        final(core).count == old(core).count,
        final(core).primask == old(core).primask,
        final(core).control == old(core).control,
{
    if value % 2 == 1 {
        core.set_pc(value - 1);
        Ok(())
    } else {
        let pc: u32 = core.get_pc();
        Err(Fault::UndefinedInstruction { opcode: 0, pc })
    }
}

/// Sign-extend the low byte of a word.
fn sxtb32(v: u32) -> (r: u32)
    ensures
        r == (if v % 256 >= 128 {
            v % 256 + 0xFFFF_FF00
        } else {
            v as int % 256
        }),
{
    let b: u32 = v % 256;
    if b >= 128 {
        b + 0xFFFF_FF00
    } else {
        b
    }
}

/// Sign-extend the low halfword of a word.
fn sxth32(v: u32) -> (r: u32)
    ensures
        r == (if v % 0x1_0000 >= 0x8000 {
            v % 0x1_0000 + 0xFFFF_0000
        } else {
            v as int % 0x1_0000
        }),
{
    let h: u32 = v % 0x1_0000;
    if h >= 0x8000 {
        h + 0xFFFF_0000
    } else {
        h
    }
}

/// The APSR view: the flag bits alone.
fn apsr_value(core: &Core) -> (r: u32)
    ensures
        r == (if core.psr.n { 0x8000_0000int } else { 0 }) + (if core.psr.z {
            0x4000_0000int
        } else {
            0
        }) + (if core.psr.c { 0x2000_0000int } else { 0 }) + (if core.psr.v {
            0x1000_0000int
        } else {
            0
        }) + (if core.psr.q { 0x0800_0000int } else { 0 }),
{
    (if core.psr.n {
        0x8000_0000u32
    } else {
        0
    }) + (if core.psr.z {
        0x4000_0000u32
    } else {
        0
    }) + (if core.psr.c {
        0x2000_0000u32
    } else {
        0
    }) + (if core.psr.v {
        0x1000_0000u32
    } else {
        0
    }) + (if core.psr.q {
        0x0800_0000u32
    } else {
        0
    })
}

/// The address an addressing-mode triple selects, and the writeback
/// value: `offset_addr = rn +/- offset`; the access goes to
/// `offset_addr` when `index`, else to `rn`.
fn mem_address(rn_val: u32, offset: u32, index: bool, add: bool) -> (r: (u32, u32))
    ensures
        r.0 == (if add {
            (rn_val + offset) % 0x1_0000_0000
        } else {
            (rn_val - offset) % 0x1_0000_0000
        }),
        r.1 == (if index {
            r.0 as int
        } else {
            rn_val as int
        }),
{
    let offset_addr: u32 = if add {
        rn_val.wrapping_add(offset)
    } else {
        rn_val.wrapping_sub(offset)
    };
    let address: u32 = if index {
        offset_addr
    } else {
        rn_val
    };
    (offset_addr, address)
}

/// The variants the top-level dispatch executes itself.
pub open spec fn is_branch_instr(instr: Instruction) -> bool {
    match instr {
        Instruction::B_t13 { .. } => true,
        Instruction::B_t24 { .. } => true,
        Instruction::BL { .. } => true,
        Instruction::BLX { .. } => true,
        Instruction::BX { .. } => true,
        Instruction::CBZ { .. } => true,
        _ => false,
    }
}

/// The variants the arithmetic stage of the dispatch executes with
/// an exact clause in `spec_execute_post`.
pub open spec fn is_arith_cmp_instr(instr: Instruction) -> bool {
    match instr {
        Instruction::ADD_imm { .. } => true,
        Instruction::SUB_imm { .. } => true,
        Instruction::ADD_reg { .. } => true,
        Instruction::SUB_reg { .. } => true,
        Instruction::CMP_imm { .. } => true,
        Instruction::CMP_reg { .. } => true,
        Instruction::CMN_imm { .. } => true,
        Instruction::CMN_reg { .. } => true,
        _ => false,
    }
}

/// The single word loads and stores the memory stage executes with
/// an exact clause in `spec_execute_post`.
pub open spec fn is_word_mem_instr(instr: Instruction) -> bool {
    match instr {
        Instruction::LDR_imm { .. } => true,
        Instruction::LDR_reg { .. } => true,
        Instruction::STR_imm { .. } => true,
        Instruction::STR_reg { .. } => true,
        _ => false,
    }
}

/// The register-list variants the memory stage executes with an
/// exact clause in `spec_execute_post`.
pub open spec fn is_list_mem_instr(instr: Instruction) -> bool {
    match instr {
        Instruction::PUSH { .. } => true,
        Instruction::POP { .. } => true,
        Instruction::LDM { .. } => true,
        _ => false,
    }
}

/// What executing one instruction did, variant by variant, relating
/// the old core and SRAM to the new ones and the outcome.
///
/// The relation is exact for the branch, add/subtract, compare,
/// push/pop/load-multiple, hint, barrier and exception-generating
/// instructions; for the remaining variants it asserts nothing
/// beyond the executor's frame conditions (their semantics are
/// pinned by their bodies and the behavioural test suite).
pub open spec fn spec_execute_post<T: Bus, R: Bus>(
    instr: Instruction,
    c0: Core,
    code: T,
    s0: R,
    c1: Core,
    s1: R,
    r: Result<ExecOutcome, Fault>,
) -> bool {
    let pc = c0.regs@[15] as int;
    match instr {
        Instruction::B_t13 { cond, imm32, .. } => s1 == s0 && c1.psr == c0.psr && ({
            let passed = crate::operation::spec_condition_passed(cond, c0.psr);
            r == Ok::<ExecOutcome, Fault>(
                if passed {
                    ExecOutcome::Branched
                } else {
                    ExecOutcome::Advance
                },
            ) && c1.regs@ == (if passed {
                c0.regs@.update(15, spec_branch_target(pc, imm32 as int))
            } else {
                c0.regs@
            })
        }),
        Instruction::B_t24 { imm32, .. } => s1 == s0 && c1.psr == c0.psr && r == Ok::<
            ExecOutcome,
            Fault,
        >(ExecOutcome::Branched) && c1.regs@ == c0.regs@.update(
            15,
            spec_branch_target(pc, imm32 as int),
        ),
        Instruction::BL { imm32 } => s1 == s0 && c1.psr == c0.psr && r == Ok::<
            ExecOutcome,
            Fault,
        >(ExecOutcome::Branched) && c1.regs@ == c0.regs@.update(14, spec_link_value(pc, 4)).update(
            15,
            spec_branch_target(pc, imm32 as int),
        ),
        Instruction::BLX { rm } => s1 == s0 && c1.psr == c0.psr && ({
            let v = c0.reg_spec(rm) as u32;
            let linked = c0.regs@.update(14, spec_link_value(pc, 2));
            if v % 2 == 1 {
                r == Ok::<ExecOutcome, Fault>(ExecOutcome::Branched) && c1.regs@ == linked.update(
                    15,
                    (v - 1) as u32,
                )
            } else {
                r == Err::<ExecOutcome, Fault>(
                    Fault::UndefinedInstruction { opcode: 0, pc: pc as u32 },
                ) && c1.regs@ == linked
            }
        }),
        Instruction::BX { rm } => s1 == s0 && c1.psr == c0.psr && ({
            let v = c0.reg_spec(rm) as u32;
            if v % 2 == 1 {
                r == Ok::<ExecOutcome, Fault>(ExecOutcome::Branched) && c1.regs@ == c0.regs@.update(
                    15,
                    (v - 1) as u32,
                )
            } else {
                r == Err::<ExecOutcome, Fault>(
                    Fault::UndefinedInstruction { opcode: 0, pc: pc as u32 },
                ) && c1.regs@ == c0.regs@
            }
        }),
        Instruction::CBZ { rn, nonzero, imm32 } => s1 == s0 && c1.psr == c0.psr && ({
            let taken = (c0.reg_spec(rn) == 0) != nonzero;
            r == Ok::<ExecOutcome, Fault>(
                if taken {
                    ExecOutcome::Branched
                } else {
                    ExecOutcome::Advance
                },
            ) && c1.regs@ == (if taken {
                c0.regs@.update(15, spec_branch_target(pc, imm32 as int))
            } else {
                c0.regs@
            })
        }),
        Instruction::ADD_imm { params, .. } => s1 == s0 && (params.rd != Reg::PC && params.rd
            != Reg::SP ==> spec_arith_post(
            c0,
            c1,
            r,
            params.rd,
            c0.reg_spec(params.rn) as u32,
            params.imm32,
            false,
            params.setflags,
        )),
        Instruction::SUB_imm { params, .. } => s1 == s0 && (params.rd != Reg::PC && params.rd
            != Reg::SP ==> spec_arith_post(
            c0,
            c1,
            r,
            params.rd,
            c0.reg_spec(params.rn) as u32,
            (0xFFFF_FFFF - params.imm32) as u32,
            true,
            params.setflags,
        )),
        Instruction::ADD_reg { params, .. } => s1 == s0 && (params.rd != Reg::PC && params.rd
            != Reg::SP && params.shift_t != crate::instruction::SRType::RRX
            ==> spec_arith_post(
            c0,
            c1,
            r,
            params.rd,
            c0.reg_spec(params.rn) as u32,
            crate::operation::spec_shift_c(
                c0.reg_spec(params.rm) as u32,
                params.shift_t,
                params.shift_n as nat,
                c0.psr.c,
            ).0 as u32,
            false,
            params.setflags,
        )),
        Instruction::SUB_reg { params, .. } => s1 == s0 && (params.rd != Reg::PC && params.rd
            != Reg::SP && params.shift_t != crate::instruction::SRType::RRX ==> ({
            let shifted = crate::operation::spec_shift_c(
                c0.reg_spec(params.rm) as u32,
                params.shift_t,
                params.shift_n as nat,
                c0.psr.c,
            ).0 as u32;
            spec_arith_post(
                c0,
                c1,
                r,
                params.rd,
                c0.reg_spec(params.rn) as u32,
                (0xFFFF_FFFF - shifted) as u32,
                true,
                params.setflags,
            )
        })),
        Instruction::CMP_imm { params, .. } => s1 == s0 && c1.regs == c0.regs && spec_flags_post(
            c0,
            c1,
            r,
            c0.reg_spec(params.r) as u32,
            (0xFFFF_FFFF - params.imm32) as u32,
            true,
        ),
        Instruction::CMP_reg { params, .. } => s1 == s0 && c1.regs == c0.regs && (params.shift_t
            != crate::instruction::SRType::RRX ==> ({
            let shifted = crate::operation::spec_shift_c(
                c0.reg_spec(params.rm) as u32,
                params.shift_t,
                params.shift_n as nat,
                c0.psr.c,
            ).0 as u32;
            spec_flags_post(
                c0,
                c1,
                r,
                c0.reg_spec(params.rn) as u32,
                (0xFFFF_FFFF - shifted) as u32,
                true,
            )
        })),
        Instruction::CMN_imm { params } => s1 == s0 && c1.regs == c0.regs && spec_flags_post(
            c0,
            c1,
            r,
            c0.reg_spec(params.r) as u32,
            params.imm32,
            false,
        ),
        Instruction::CMN_reg { params, .. } => s1 == s0 && c1.regs == c0.regs && (params.shift_t
            != crate::instruction::SRType::RRX ==> spec_flags_post(
            c0,
            c1,
            r,
            c0.reg_spec(params.rn) as u32,
            crate::operation::spec_shift_c(
                c0.reg_spec(params.rm) as u32,
                params.shift_t,
                params.shift_n as nat,
                c0.psr.c,
            ).0 as u32,
            false,
        )),
        Instruction::PUSH { registers, .. } => (stack_in_sram(
            code,
            s0,
            c0.regs@[13] - 4 * count_below(registers, 16),
            count_below(registers, 16),
        ) && !bit_set(registers, 15)) ==> (r == Ok::<ExecOutcome, Fault>(ExecOutcome::Advance)
            && c1.regs@ == c0.regs@.update(
            13,
            (c0.regs@[13] - 4 * count_below(registers, 16)) as u32,
        ) && c1.psr == c0.psr && s1.mem_spec() == store_words(
            s0.mem_spec(),
            c0.regs@[13] - 4 * count_below(registers, 16) - s0.base_spec(),
            pushed_words(c0.regs@, registers),
        )),
        Instruction::POP { registers, .. } => (stack_in_sram(
            code,
            s0,
            c0.regs@[13] as int,
            count_below(registers, 16),
        ) && !bit_set(registers, 13) && !bit_set(registers, 15)) ==> (r == Ok::<
            ExecOutcome,
            Fault,
        >(ExecOutcome::Advance) && c1.psr == c0.psr && s1 == s0 && c1.regs@ == popped_regs(
            c0.regs@,
            registers,
            read_words(
                s0.mem_spec(),
                c0.regs@[13] - s0.base_spec(),
                count_below(registers, 16),
            ),
            (c0.regs@[13] + 4 * count_below(registers, 16)) as u32,
        )),
        Instruction::LDM { rn, registers, .. } => (stack_in_sram(
            code,
            s0,
            c0.regs@[rn.num()] as int,
            count_below(registers, 16),
        ) && !bit_set(registers, 13) && !bit_set(registers, 15) && rn != Reg::SP && rn != Reg::PC)
            ==> ({
            let n = count_below(registers, 16);
            let base = c0.regs@[rn.num()] as int;
            let words = read_words(s0.mem_spec(), base - s0.base_spec(), n);
            let loaded = crate::stack::loaded_regs(c0.regs@, registers, words);
            r == Ok::<ExecOutcome, Fault>(ExecOutcome::Advance) && c1.psr == c0.psr && s1 == s0
                && c1.regs@ == (if bit_set(registers, rn.num() as nat) {
                loaded
            } else {
                loaded.update(rn.num(), (base + 4 * n) as u32)
            })
        }),
        Instruction::LDR_imm { rt, rn, imm32, index, add, wback, .. } => (rt != Reg::PC && rt
            != Reg::SP && rn != Reg::PC && rn != Reg::SP) ==> spec_word_load_post(
            c0,
            code,
            s0,
            c1,
            s1,
            r,
            rt,
            rn,
            imm32,
            index,
            add,
            wback,
        ),
        Instruction::LDR_reg { rt, rn, rm, shift_t, shift_n, index, add, wback, .. } => (rt
            != Reg::PC && rt != Reg::SP && rn != Reg::PC && rn != Reg::SP && shift_t
            != crate::instruction::SRType::RRX) ==> spec_word_load_post(
            c0,
            code,
            s0,
            c1,
            s1,
            r,
            rt,
            rn,
            crate::operation::spec_shift_c(
                c0.reg_spec(rm) as u32,
                shift_t,
                shift_n as nat,
                c0.psr.c,
            ).0 as u32,
            index,
            add,
            wback,
        ),
        Instruction::STR_imm { rt, rn, imm32, index, add, wback, .. } => (rn != Reg::PC && rn
            != Reg::SP) ==> spec_word_store_post(
            c0,
            code,
            s0,
            c1,
            s1,
            r,
            rt,
            rn,
            imm32,
            index,
            add,
            wback,
        ),
        Instruction::STR_reg { rt, rn, rm, shift_t, shift_n, index, add, wback, .. } => (rn
            != Reg::PC && rn != Reg::SP && shift_t != crate::instruction::SRType::RRX)
            ==> spec_word_store_post(
            c0,
            code,
            s0,
            c1,
            s1,
            r,
            rt,
            rn,
            crate::operation::spec_shift_c(
                c0.reg_spec(rm) as u32,
                shift_t,
                shift_n as nat,
                c0.psr.c,
            ).0 as u32,
            index,
            add,
            wback,
        ),
        Instruction::NOP { .. } => c1 == c0 && s1 == s0 && r == Ok::<ExecOutcome, Fault>(
            ExecOutcome::Advance,
        ),
        Instruction::YIELD { .. } => c1 == c0 && s1 == s0 && r == Ok::<ExecOutcome, Fault>(
            ExecOutcome::Advance,
        ),
        Instruction::WFE { .. } => c1 == c0 && s1 == s0 && r == Ok::<ExecOutcome, Fault>(
            ExecOutcome::Advance,
        ),
        Instruction::WFI { .. } => c1 == c0 && s1 == s0 && r == Ok::<ExecOutcome, Fault>(
            ExecOutcome::Advance,
        ),
        Instruction::SEV { .. } => c1 == c0 && s1 == s0 && r == Ok::<ExecOutcome, Fault>(
            ExecOutcome::Advance,
        ),
        Instruction::DMB => c1 == c0 && s1 == s0 && r == Ok::<ExecOutcome, Fault>(
            ExecOutcome::Advance,
        ),
        Instruction::DSB => c1 == c0 && s1 == s0 && r == Ok::<ExecOutcome, Fault>(
            ExecOutcome::Advance,
        ),
        Instruction::ISB => c1 == c0 && s1 == s0 && r == Ok::<ExecOutcome, Fault>(
            ExecOutcome::Advance,
        ),
        Instruction::BKPT { imm32 } => c1 == c0 && s1 == s0 && r == (if imm32 == 0xAB {
            Ok::<ExecOutcome, Fault>(ExecOutcome::Semihost)
        } else {
            Err::<ExecOutcome, Fault>(Fault::UnhandledBkpt { imm32, pc: pc as u32 })
        }),
        Instruction::SVC { imm32 } => c1 == c0 && s1 == s0 && r == Err::<ExecOutcome, Fault>(
            Fault::UnhandledSvc { imm32, pc: pc as u32 },
        ),
        Instruction::UDF { imm32, opcode, .. } => c1 == c0 && s1 == s0 && r == Err::<
            ExecOutcome,
            Fault,
        >(
            Fault::UndefinedInstruction {
                opcode: (match opcode {
                    ThumbCode::Thumb16 { opcode: bits } => bits as u32,
                    ThumbCode::Thumb32 { opcode: bits } => bits,
                }),
                pc: pc as u32,
            },
        ),
        _ => true,
    }
}

/// The register file and flags after a flag-setting arithmetic
/// write-back of `AddWithCarry(x, y, cin)` to `rd`.
pub open spec fn spec_arith_post(
    c0: Core,
    c1: Core,
    r: Result<ExecOutcome, Fault>,
    rd: Reg,
    x: u32,
    y: u32,
    cin: bool,
    setflags: SetFlags,
) -> bool {
    let result = crate::operation::spec_awc_result(x, y, cin) as u32;
    let flags = match setflags {
        SetFlags::True => true,
        SetFlags::False => false,
        SetFlags::NotInITBlock => !c0.psr.in_it_block_spec(),
    };
    let target = if flags {
        crate::register::PSR {
            n: result >= 0x8000_0000,
            z: result == 0,
            c: crate::operation::spec_awc_carry(x, y, cin),
            v: crate::operation::spec_awc_overflow(x, y, cin),
            ..c0.psr
        }
    } else {
        c0.psr
    };
    r == Ok::<ExecOutcome, Fault>(ExecOutcome::Advance) && c1.regs@ == c0.regs@.update(
        rd.num(),
        result,
    ) && c1.psr == target
}

/// The flags after a compare: `AddWithCarry(x, y, cin)` drives
/// N, Z, C and V and nothing else changes.
pub open spec fn spec_flags_post(
    c0: Core,
    c1: Core,
    r: Result<ExecOutcome, Fault>,
    x: u32,
    y: u32,
    cin: bool,
) -> bool {
    let result = crate::operation::spec_awc_result(x, y, cin) as u32;
    r == Ok::<ExecOutcome, Fault>(ExecOutcome::Advance) && c1.psr == (crate::register::PSR {
        n: result >= 0x8000_0000,
        z: result == 0,
        c: crate::operation::spec_awc_carry(x, y, cin),
        v: crate::operation::spec_awc_overflow(x, y, cin),
        ..c0.psr
    })
}

/// What a word load leaves: the target register takes the word the
/// matrix answers at the address the `(index, add, wback)` triple
/// selects, or the read's fault ends the instruction with nothing
/// changed.
pub open spec fn spec_word_load_post<T: Bus, R: Bus>(
    c0: Core,
    code: T,
    s0: R,
    c1: Core,
    s1: R,
    r: Result<ExecOutcome, Fault>,
    rt: Reg,
    rn: Reg,
    offset: u32,
    index: bool,
    add: bool,
    wback: bool,
) -> bool {
    let rn_v = c0.reg_spec(rn);
    let offset_addr = (if add {
        rn_v + offset
    } else {
        rn_v - offset
    }) % 0x1_0000_0000;
    let addr = if index {
        offset_addr
    } else {
        rn_v
    };
    s1 == s0 && match crate::bus::spec_matrix_read32(code, s0, addr as u32) {
        Ok(w) => r == Ok::<ExecOutcome, Fault>(ExecOutcome::Advance) && c1.psr == c0.psr
            && c1.regs@ == (if wback {
            c0.regs@.update(rn.num(), offset_addr as u32)
        } else {
            c0.regs@
        }).update(rt.num(), w),
        Err(f) => r == Err::<ExecOutcome, Fault>(f) && c1 == c0,
    }
}

/// What a word store leaves: the stored register's word lands
/// little-endian at the selected SRAM address, or the rejected
/// access faults with nothing changed.
pub open spec fn spec_word_store_post<T: Bus, R: Bus>(
    c0: Core,
    code: T,
    s0: R,
    c1: Core,
    s1: R,
    r: Result<ExecOutcome, Fault>,
    rt: Reg,
    rn: Reg,
    offset: u32,
    index: bool,
    add: bool,
    wback: bool,
) -> bool {
    let rn_v = c0.reg_spec(rn);
    let offset_addr = (if add {
        rn_v + offset
    } else {
        rn_v - offset
    }) % 0x1_0000_0000;
    let addr = (if index {
        offset_addr
    } else {
        rn_v
    }) as u32;
    let value = c0.reg_spec(rt) as u32;
    if crate::bus::spec_matrix_claims_write(code, s0, addr) && crate::bus::spec_can_write32(
        s0.base_spec(),
        s0.len_spec(),
        s0.writable_spec(),
        addr,
    ) {
        r == Ok::<ExecOutcome, Fault>(ExecOutcome::Advance) && c1.psr == c0.psr && c1.regs@ == (
        if wback {
            c0.regs@.update(rn.num(), offset_addr as u32)
        } else {
            c0.regs@
        }) && s1.mem_spec() == crate::bus::store_word(
            s0.mem_spec(),
            addr - s0.base_spec(),
            value,
        )
    } else {
        r == Err::<ExecOutcome, Fault>(Fault::BusFault { addr, width: 4u8, write: true }) && c1
            == c0 && s1 == s0
    }
}

/// The PC a relative branch lands on: the wrapped sum of the
/// instruction's PC, 4 and the offset, with bit 0 cleared.
pub open spec fn spec_branch_target(pc: int, offset: int) -> u32 {
    let t = (pc + 4 + offset) % 0x1_0000_0000;
    (t - t % 2) as u32
}

/// The link value `BL` leaves: the following instruction's address
/// with the Thumb bit set.
pub open spec fn spec_link_value(pc: int, gap: int) -> u32 {
    (((pc + gap) % 0x1_0000_0000) + 1) as u32
}

/// Branch to PC + 4 + offset.
fn pc_rel_branch(core: &mut Core, offset: u32)
    requires
        old(core).wf(),
    ensures
        final(core).wf(),
        final(core).regs@ == old(core).regs@.update(
            15,
            spec_branch_target(old(core).regs@[15] as int, offset as int),
        ),
        final(core).psr == old(core).psr,
        final(core).primask == old(core).primask,
        final(core).control == old(core).control,
        final(core).count == old(core).count,
{
    let pc: u32 = core.get_pc();
    let target: u32 = pc.wrapping_add(4).wrapping_add(offset);
    proof {
        vstd::arithmetic::div_mod::lemma_add_mod_noop(
            pc as int + 4,
            offset as int,
            0x1_0000_0000,
        );
        vstd::arithmetic::div_mod::lemma_small_mod((pc as int + 4) as nat % 0x1_0000_0000, 0x1_0000_0000);
    }
    core.set_pc(target);
}

/// Branch to PC + 4 + imm32 for a signed offset.
fn pc_rel_branch_signed(core: &mut Core, imm32: i32)
    requires
        old(core).wf(),
    ensures
        final(core).wf(),
        final(core).regs@ == old(core).regs@.update(
            15,
            spec_branch_target(old(core).regs@[15] as int, imm32 as int),
        ),
        final(core).psr == old(core).psr,
        final(core).primask == old(core).primask,
        final(core).control == old(core).control,
        final(core).count == old(core).count,
{
    let offset: u32 = i32_to_u32(imm32);
    proof {
        vstd::arithmetic::div_mod::lemma_add_mod_noop_right(
            old(core).regs@[15] as int + 4,
            imm32 as int,
            0x1_0000_0000,
        );
    }
    pc_rel_branch(core, offset);
}

/// The wrapped next-instruction address is even, so setting its
/// Thumb bit cannot overflow.
proof fn lemma_even_pc_gap(pc: int, gap: int)
    requires
        0 <= pc < 0x1_0000_0000,
        pc % 2 == 0,
        gap == 2 || gap == 4,
    ensures
        0 <= (pc + gap) % 0x1_0000_0000 < 0x1_0000_0000,
        ((pc + gap) % 0x1_0000_0000) % 2 == 0,
{
    if pc + gap < 0x1_0000_0000 {
        vstd::arithmetic::div_mod::lemma_small_mod((pc + gap) as nat, 0x1_0000_0000);
    } else {
        vstd::arithmetic::div_mod::lemma_fundamental_div_mod_converse(
            pc + gap,
            0x1_0000_0000,
            1,
            pc + gap - 0x1_0000_0000,
        );
    }
}

/// `B` (conditional, T1 and T3): branch when the condition passes.
fn exec_b_t13(core: &mut Core, cond: Condition, imm32: i32) -> (r: Result<ExecOutcome, Fault>)
    requires
        old(core).wf(),
    ensures
        final(core).wf(),
        final(core).psr == old(core).psr,
        final(core).primask == old(core).primask,
        final(core).control == old(core).control,
        final(core).count == old(core).count,
        ({
            let passed = crate::operation::spec_condition_passed(cond, old(core).psr);
            r == Ok::<ExecOutcome, Fault>(
                if passed {
                    ExecOutcome::Branched
                } else {
                    ExecOutcome::Advance
                },
            ) && final(core).regs@ == (if passed {
                old(core).regs@.update(
                    15,
                    spec_branch_target(old(core).regs@[15] as int, imm32 as int),
                )
            } else {
                old(core).regs@
            })
        }),
{
    if condition_passed(cond, &core.psr) {
        pc_rel_branch_signed(core, imm32);
        Ok(ExecOutcome::Branched)
    } else {
        Ok(ExecOutcome::Advance)
    }
}

/// `B` (unconditional, T2 and T4).
fn exec_b_t24(core: &mut Core, imm32: i32) -> (r: Result<ExecOutcome, Fault>)
    requires
        old(core).wf(),
    ensures
        final(core).wf(),
        final(core).psr == old(core).psr,
        final(core).primask == old(core).primask,
        final(core).control == old(core).control,
        final(core).count == old(core).count,
        r == Ok::<ExecOutcome, Fault>(ExecOutcome::Branched),
        final(core).regs@ == old(core).regs@.update(
            15,
            spec_branch_target(old(core).regs@[15] as int, imm32 as int),
        ),
{
    pc_rel_branch_signed(core, imm32);
    Ok(ExecOutcome::Branched)
}

/// `BL`: link the following instruction's address, then branch.
fn exec_bl(core: &mut Core, imm32: i32) -> (r: Result<ExecOutcome, Fault>)
    requires
        old(core).wf(),
    ensures
        final(core).wf(),
        final(core).psr == old(core).psr,
        final(core).primask == old(core).primask,
        final(core).control == old(core).control,
        final(core).count == old(core).count,
        r == Ok::<ExecOutcome, Fault>(ExecOutcome::Branched),
        final(core).regs@ == old(core).regs@.update(
            14,
            spec_link_value(old(core).regs@[15] as int, 4),
        ).update(15, spec_branch_target(old(core).regs@[15] as int, imm32 as int)),
{
    let pc: u32 = core.get_pc();
    let ret: u32 = pc.wrapping_add(4);
    proof {
        lemma_even_pc_gap(pc as int, 4);
    }
    core.set_r(Reg::LR, ret + 1);
    pc_rel_branch_signed(core, imm32);
    Ok(ExecOutcome::Branched)
}

/// `BX`: interworking branch to a register value.
fn exec_bx(core: &mut Core, rm: Reg) -> (r: Result<ExecOutcome, Fault>)
    requires
        old(core).wf(),
    ensures
        final(core).wf(),
        final(core).psr == old(core).psr,
        final(core).primask == old(core).primask,
        final(core).control == old(core).control,
        final(core).count == old(core).count,
        ({
            let v = old(core).reg_spec(rm) as u32;
            if v % 2 == 1 {
                r == Ok::<ExecOutcome, Fault>(ExecOutcome::Branched) && final(core).regs@ == old(
                    core,
                ).regs@.update(15, (v - 1) as u32)
            } else {
                r == Err::<ExecOutcome, Fault>(
                    Fault::UndefinedInstruction { opcode: 0, pc: old(core).regs@[15] as u32 },
                ) && final(core).regs@ == old(core).regs@
            }
        }),
{
    let value: u32 = core.get_r(rm);
    match bx_write_pc(core, value) {
        Ok(u) => Ok(ExecOutcome::Branched),
        Err(f) => Err(f),
    }
}

/// `BLX`: link the following instruction's address, then branch
/// with interworking.
fn exec_blx(core: &mut Core, rm: Reg) -> (r: Result<ExecOutcome, Fault>)
    requires
        old(core).wf(),
    ensures
        final(core).wf(),
        final(core).psr == old(core).psr,
        final(core).primask == old(core).primask,
        final(core).control == old(core).control,
        final(core).count == old(core).count,
        ({
            let v = old(core).reg_spec(rm) as u32;
            let linked = old(core).regs@.update(
                14,
                spec_link_value(old(core).regs@[15] as int, 2),
            );
            if v % 2 == 1 {
                r == Ok::<ExecOutcome, Fault>(ExecOutcome::Branched) && final(core).regs@
                    == linked.update(15, (v - 1) as u32)
            } else {
                r == Err::<ExecOutcome, Fault>(
                    Fault::UndefinedInstruction { opcode: 0, pc: old(core).regs@[15] as u32 },
                ) && final(core).regs@ == linked
            }
        }),
{
    let value: u32 = core.get_r(rm);
    let pc: u32 = core.get_pc();
    let ret: u32 = pc.wrapping_add(2);
    proof {
        lemma_even_pc_gap(pc as int, 2);
    }
    core.set_r(Reg::LR, ret + 1);
    match bx_write_pc(core, value) {
        Ok(u) => Ok(ExecOutcome::Branched),
        Err(f) => Err(f),
    }
}

/// `CBZ`/`CBNZ`: forward branch on a register being zero/nonzero.
fn exec_cbz(core: &mut Core, rn: Reg, nonzero: bool, imm32: u32) -> (r: Result<ExecOutcome, Fault>)
    requires
        old(core).wf(),
    ensures
        final(core).wf(),
        final(core).psr == old(core).psr,
        final(core).primask == old(core).primask,
        final(core).control == old(core).control,
        final(core).count == old(core).count,
        ({
            let taken = (old(core).reg_spec(rn) == 0) != nonzero;
            r == Ok::<ExecOutcome, Fault>(
                if taken {
                    ExecOutcome::Branched
                } else {
                    ExecOutcome::Advance
                },
            ) && final(core).regs@ == (if taken {
                old(core).regs@.update(
                    15,
                    spec_branch_target(old(core).regs@[15] as int, imm32 as int),
                )
            } else {
                old(core).regs@
            })
        }),
{
    let value: u32 = core.get_r(rn);
    if (value == 0) != nonzero {
        pc_rel_branch(core, imm32);
        Ok(ExecOutcome::Branched)
    } else {
        Ok(ExecOutcome::Advance)
    }
}

/// Execute one decoded instruction against the core and the bus
/// matrix.  The caller has already established that the instruction's
/// condition passes; on return the core is well formed, flash is
/// unchanged and SRAM keeps its region identity.
pub fn execute<T: Bus, R: Bus>(
    core: &mut Core,
    code: &mut T,
    sram: &mut R,
    instr: &Instruction,
) -> (r: Result<ExecOutcome, Fault>)
    requires
        old(core).wf(),
        old(code).wf(),
        old(sram).wf(),
        !old(code).writable_spec(),
    ensures
        exec_frame(*old(core), *old(code), *old(sram), *final(core), *final(code), *final(sram)),
        spec_execute_post(*instr, *old(core), *old(code), *old(sram), *final(core), *final(sram), r),
{
    match *instr {
        // ---- Branches ----
        Instruction::B_t13 { cond, imm32, .. } => exec_b_t13(core, cond, imm32),
        Instruction::B_t24 { imm32, .. } => exec_b_t24(core, imm32),
        Instruction::BL { imm32 } => exec_bl(core, imm32),
        Instruction::BLX { rm } => exec_blx(core, rm),
        Instruction::BX { rm } => exec_bx(core, rm),
        Instruction::CBZ { rn, nonzero, imm32 } => exec_cbz(core, rn, nonzero, imm32),
        _ => execute_alu(core, code, sram, instr),
    }
}

/// Arithmetic, compare, test, logical and move instructions.
#[verifier::rlimit(100)]
#[verifier::spinoff_prover]
fn execute_alu<T: Bus, R: Bus>(
    core: &mut Core,
    code: &mut T,
    sram: &mut R,
    instr: &Instruction,
) -> (r: Result<ExecOutcome, Fault>)
    requires
        !is_branch_instr(*instr),
        old(core).wf(),
        old(code).wf(),
        old(sram).wf(),
        !old(code).writable_spec(),
    ensures
        exec_frame(*old(core), *old(code), *old(sram), *final(core), *final(code), *final(sram)),
        spec_execute_post(*instr, *old(core), *old(code), *old(sram), *final(core), *final(sram), r),
{
    let pc: u32 = core.get_pc();
    match *instr {
        // ---- Data processing: add and subtract ----
        Instruction::ADD_imm { params, .. } => exec_add_imm(core, params),
        Instruction::SUB_imm { params, .. } => exec_sub_imm(core, params),
        Instruction::RSB_imm { params, .. } => exec_rsb_imm(core, params),
        Instruction::ADD_reg { params, .. } => exec_add_reg(core, params),
        Instruction::SUB_reg { params, .. } => exec_sub_reg(core, params),
        Instruction::RSB_reg { params, .. } => exec_rsb_reg(core, params),
        Instruction::ADC_reg { params, .. } => exec_adc_reg(core, params),
        Instruction::ADC_imm { params } => exec_adc_imm(core, params),
        Instruction::SBC_reg { params, .. } => exec_sbc_reg(core, params),
        Instruction::SBC_imm { params } => exec_sbc_imm(core, params),
        // ---- Compares and tests ----
        Instruction::CMP_imm { params, .. } => exec_cmp_imm(core, params),
        Instruction::CMP_reg { params, .. } => exec_cmp_reg(core, params),
        Instruction::CMN_imm { params } => exec_cmn_imm(core, params),
        Instruction::CMN_reg { params, .. } => exec_cmn_reg(core, params),
        Instruction::TST_reg { params, .. } => exec_tst_reg(core, params),
        Instruction::TST_imm { params } => exec_tst_imm(core, params),
        Instruction::TEQ_reg { params } => exec_teq_reg(core, params),
        Instruction::TEQ_imm { params } => exec_teq_imm(core, params),
        _ => execute_logic(core, code, sram, instr),
    }
}

/// `ADD (immediate)`: `rd := rn + imm32`, with N, Z, C and V from
/// the 32-bit sum when flags are called for.
fn exec_add_imm(core: &mut Core, params: Reg2ImmParams) -> (r: Result<ExecOutcome, Fault>)
    requires
        old(core).wf(),
    ensures
        final(core).wf(),
        final(core).count == old(core).count,
        params.rd != Reg::PC && params.rd != Reg::SP ==> ({
            let x = old(core).reg_spec(params.rn) as u32;
            let result = crate::operation::spec_awc_result(x, params.imm32, false) as u32;
            let flags = (match params.setflags {
                SetFlags::True => true,
                SetFlags::False => false,
                SetFlags::NotInITBlock => !old(core).psr.in_it_block_spec(),
            });
            let target = if flags {
                crate::register::PSR {
                    n: result >= 0x8000_0000,
                    z: result == 0,
                    c: crate::operation::spec_awc_carry(x, params.imm32, false),
                    v: crate::operation::spec_awc_overflow(x, params.imm32, false),
                    ..old(core).psr
                }
            } else {
                old(core).psr
            };
            r == Ok::<ExecOutcome, Fault>(ExecOutcome::Advance)
                && final(core).regs@ == old(core).regs@.update(params.rd.num(), result)
                && final(core).psr == target
        }),
{
    let op1: u32 = core.get_r(params.rn);
    let (result, carry, overflow) = add_with_carry(op1, params.imm32, false);
    finish_arith(core, params.rd, result, carry, overflow, params.setflags)
}

/// `SUB (immediate)`: `rd := rn - imm32`, computed as
/// `rn + NOT(imm32) + 1`, with N, Z, C and V from the sum when flags
/// are called for.
fn exec_sub_imm(core: &mut Core, params: Reg2ImmParams) -> (r: Result<ExecOutcome, Fault>)
    requires
        old(core).wf(),
    ensures
        final(core).wf(),
        final(core).count == old(core).count,
        params.rd != Reg::PC && params.rd != Reg::SP ==> ({
            let x = old(core).reg_spec(params.rn) as u32;
            let y = (0xFFFF_FFFF - params.imm32) as u32;
            let result = crate::operation::spec_awc_result(x, y, true) as u32;
            let flags = (match params.setflags {
                SetFlags::True => true,
                SetFlags::False => false,
                SetFlags::NotInITBlock => !old(core).psr.in_it_block_spec(),
            });
            let target = if flags {
                crate::register::PSR {
                    n: result >= 0x8000_0000,
                    z: result == 0,
                    c: crate::operation::spec_awc_carry(x, y, true),
                    v: crate::operation::spec_awc_overflow(x, y, true),
                    ..old(core).psr
                }
            } else {
                old(core).psr
            };
            r == Ok::<ExecOutcome, Fault>(ExecOutcome::Advance)
                && final(core).regs@ == old(core).regs@.update(params.rd.num(), result)
                && final(core).psr == target
        }),
{
    let op1: u32 = core.get_r(params.rn);
    let (result, carry, overflow) = add_with_carry(op1, not32(params.imm32), true);
    finish_arith(core, params.rd, result, carry, overflow, params.setflags)
}

/// `RSB imm`.
fn exec_rsb_imm(core: &mut Core, params: Reg2ImmParams) -> (r: Result<ExecOutcome, Fault>)
    requires
        old(core).wf(),
    ensures
        final(core).wf(),
        final(core).count == old(core).count,
{
    let op1: u32 = core.get_r(params.rn);
    let (result, carry, overflow) = add_with_carry(not32(op1), params.imm32, true);
    finish_arith(core, params.rd, result, carry, overflow, params.setflags)
}

/// `ADD (register)`: `rd := rn + shift(rm)`, with N, Z, C and V from
/// the 32-bit sum when flags are called for.
fn exec_add_reg(core: &mut Core, params: Reg3ShiftParams) -> (r: Result<ExecOutcome, Fault>)
    requires
        old(core).wf(),
    ensures
        final(core).wf(),
        final(core).count == old(core).count,
        params.rd != Reg::PC && params.rd != Reg::SP && params.shift_t != crate::instruction::SRType::RRX ==> ({
            let x = old(core).reg_spec(params.rn) as u32;
            let y = crate::operation::spec_shift_c(
                old(core).reg_spec(params.rm) as u32,
                params.shift_t,
                params.shift_n as nat,
                old(core).psr.c,
            ).0 as u32;
            let result = crate::operation::spec_awc_result(x, y, false) as u32;
            let flags = match params.setflags {
                SetFlags::True => true,
                SetFlags::False => false,
                SetFlags::NotInITBlock => !old(core).psr.in_it_block_spec(),
            };
            let target = if flags {
                crate::register::PSR {
                    n: result >= 0x8000_0000,
                    z: result == 0,
                    c: crate::operation::spec_awc_carry(x, y, false),
                    v: crate::operation::spec_awc_overflow(x, y, false),
                    ..old(core).psr
                }
            } else {
                old(core).psr
            };
            r == Ok::<ExecOutcome, Fault>(ExecOutcome::Advance)
                && final(core).regs@ == old(core).regs@.update(params.rd.num(), result)
                && final(core).psr == target
        }),
{
    let shifted: (u32, bool) = reg_shift_c(core, params.rm, params.shift_t,
        params.shift_n);
    let op1: u32 = core.get_r(params.rn);
    let (result, carry, overflow) = add_with_carry(op1, shifted.0, false);
    finish_arith(core, params.rd, result, carry, overflow, params.setflags)
}

/// `SUB (register)`: `rd := rn - shift(rm)`, computed as
/// `rn + NOT(shift(rm)) + 1`, with N, Z, C and V from the sum when
/// flags are called for.
fn exec_sub_reg(core: &mut Core, params: Reg3ShiftParams) -> (r: Result<ExecOutcome, Fault>)
    requires
        old(core).wf(),
    ensures
        final(core).wf(),
        final(core).count == old(core).count,
        params.rd != Reg::PC && params.rd != Reg::SP && params.shift_t != crate::instruction::SRType::RRX ==> ({
            let shifted = crate::operation::spec_shift_c(
                old(core).reg_spec(params.rm) as u32,
                params.shift_t,
                params.shift_n as nat,
                old(core).psr.c,
            ).0 as u32;
            let x = old(core).reg_spec(params.rn) as u32;
            let y = (0xFFFF_FFFF - shifted) as u32;
            let result = crate::operation::spec_awc_result(x, y, true) as u32;
            let flags = match params.setflags {
                SetFlags::True => true,
                SetFlags::False => false,
                SetFlags::NotInITBlock => !old(core).psr.in_it_block_spec(),
            };
            let target = if flags {
                crate::register::PSR {
                    n: result >= 0x8000_0000,
                    z: result == 0,
                    c: crate::operation::spec_awc_carry(x, y, true),
                    v: crate::operation::spec_awc_overflow(x, y, true),
                    ..old(core).psr
                }
            } else {
                old(core).psr
            };
            r == Ok::<ExecOutcome, Fault>(ExecOutcome::Advance)
                && final(core).regs@ == old(core).regs@.update(params.rd.num(), result)
                && final(core).psr == target
        }),
{
    let shifted: (u32, bool) = reg_shift_c(core, params.rm, params.shift_t,
        params.shift_n);
    let op1: u32 = core.get_r(params.rn);
    let (result, carry, overflow) = add_with_carry(op1, not32(shifted.0), true);
    finish_arith(core, params.rd, result, carry, overflow, params.setflags)
}

/// `RSB reg`.
fn exec_rsb_reg(core: &mut Core, params: Reg3ShiftParams) -> (r: Result<ExecOutcome, Fault>)
    requires
        old(core).wf(),
    ensures
        final(core).wf(),
        final(core).count == old(core).count,
{
    let shifted: (u32, bool) = reg_shift_c(core, params.rm, params.shift_t,
        params.shift_n);
    let op1: u32 = core.get_r(params.rn);
    let (result, carry, overflow) = add_with_carry(not32(op1), shifted.0, true);
    finish_arith(core, params.rd, result, carry, overflow, params.setflags)
}

/// `ADC reg`.
fn exec_adc_reg(core: &mut Core, params: Reg3ShiftParams) -> (r: Result<ExecOutcome, Fault>)
    requires
        old(core).wf(),
    ensures
        final(core).wf(),
        final(core).count == old(core).count,
{
    let shifted: (u32, bool) = reg_shift_c(core, params.rm, params.shift_t,
        params.shift_n);
    let op1: u32 = core.get_r(params.rn);
    let carry_in: bool = core.psr.c;
    let (result, carry, overflow) = add_with_carry(op1, shifted.0, carry_in);
    finish_arith(core, params.rd, result, carry, overflow, params.setflags)
}

/// `ADC imm`.
fn exec_adc_imm(core: &mut Core, params: Reg2ImmParams) -> (r: Result<ExecOutcome, Fault>)
    requires
        old(core).wf(),
    ensures
        final(core).wf(),
        final(core).count == old(core).count,
{
    let carry_in: bool = core.psr.c;
    let op1: u32 = core.get_r(params.rn);
    let (result, carry, overflow) = add_with_carry(op1, params.imm32, carry_in);
    finish_arith(core, params.rd, result, carry, overflow, params.setflags)
}

/// `SBC reg`.
fn exec_sbc_reg(core: &mut Core, params: Reg3ShiftParams) -> (r: Result<ExecOutcome, Fault>)
    requires
        old(core).wf(),
    ensures
        final(core).wf(),
        final(core).count == old(core).count,
{
    let shifted: (u32, bool) = reg_shift_c(core, params.rm, params.shift_t,
        params.shift_n);
    let op1: u32 = core.get_r(params.rn);
    let carry_in: bool = core.psr.c;
    let (result, carry, overflow) = add_with_carry(op1, not32(shifted.0), carry_in);
    finish_arith(core, params.rd, result, carry, overflow, params.setflags)
}

/// `SBC imm`.
fn exec_sbc_imm(core: &mut Core, params: Reg2ImmParams) -> (r: Result<ExecOutcome, Fault>)
    requires
        old(core).wf(),
    ensures
        final(core).wf(),
        final(core).count == old(core).count,
{
    let carry_in: bool = core.psr.c;
    let op1: u32 = core.get_r(params.rn);
    let (result, carry, overflow) = add_with_carry(op1, not32(params.imm32), carry_in);
    finish_arith(core, params.rd, result, carry, overflow, params.setflags)
}

/// `CMP (immediate)`: set N, Z, C and V from `rn - imm32`, computed
/// as `rn + NOT(imm32) + 1`.
fn exec_cmp_imm(core: &mut Core, params: RegImmParams) -> (r: Result<ExecOutcome, Fault>)
    requires
        old(core).wf(),
    ensures
        final(core).wf(),
        final(core).count == old(core).count,
        final(core).regs == old(core).regs,
        final(core).primask == old(core).primask,
        final(core).control == old(core).control,
        ({
            let x = old(core).reg_spec(params.r) as u32;
            let y = (0xFFFF_FFFF - params.imm32) as u32;
            let result = crate::operation::spec_awc_result(x, y, true) as u32;
            r == Ok::<ExecOutcome, Fault>(ExecOutcome::Advance) && final(core).psr == (
            crate::register::PSR {
                n: result >= 0x8000_0000,
                z: result == 0,
                c: crate::operation::spec_awc_carry(x, y, true),
                v: crate::operation::spec_awc_overflow(x, y, true),
                ..old(core).psr
            })
        }),
{
    let op1: u32 = core.get_r(params.r);
    let (result, carry, overflow) = add_with_carry(op1, not32(params.imm32), true);
    core.update_flags_nzcv(result, carry, overflow);
    Ok(ExecOutcome::Advance)
}

/// `CMP (register)`: set N, Z, C and V from `rn - shift(rm)`.
fn exec_cmp_reg(core: &mut Core, params: Reg2ShiftNoSetFlagsParams) -> (r: Result<ExecOutcome, Fault>)
    requires
        old(core).wf(),
    ensures
        final(core).wf(),
        final(core).count == old(core).count,
        final(core).regs == old(core).regs,
        final(core).primask == old(core).primask,
        final(core).control == old(core).control,
        params.shift_t != crate::instruction::SRType::RRX ==> ({
            let shifted = crate::operation::spec_shift_c(
                old(core).reg_spec(params.rm) as u32,
                params.shift_t,
                params.shift_n as nat,
                old(core).psr.c,
            ).0 as u32;
            let x = old(core).reg_spec(params.rn) as u32;
            let y = (0xFFFF_FFFF - shifted) as u32;
            let result = crate::operation::spec_awc_result(x, y, true) as u32;
            r == Ok::<ExecOutcome, Fault>(ExecOutcome::Advance) && final(core).psr == (
            crate::register::PSR {
                n: result >= 0x8000_0000,
                z: result == 0,
                c: crate::operation::spec_awc_carry(x, y, true),
                v: crate::operation::spec_awc_overflow(x, y, true),
                ..old(core).psr
            })
        }),
{
    let shifted: (u32, bool) = reg_shift_c(core, params.rm, params.shift_t,
        params.shift_n);
    let op1: u32 = core.get_r(params.rn);
    let (result, carry, overflow) = add_with_carry(op1, not32(shifted.0), true);
    core.update_flags_nzcv(result, carry, overflow);
    Ok(ExecOutcome::Advance)
}

/// `CMN (immediate)`: set N, Z, C and V from `rn + imm32`.
fn exec_cmn_imm(core: &mut Core, params: RegImmParams) -> (r: Result<ExecOutcome, Fault>)
    requires
        old(core).wf(),
    ensures
        final(core).wf(),
        final(core).count == old(core).count,
        final(core).regs == old(core).regs,
        final(core).primask == old(core).primask,
        final(core).control == old(core).control,
        ({
            let x = old(core).reg_spec(params.r) as u32;
            let result = crate::operation::spec_awc_result(x, params.imm32, false) as u32;
            r == Ok::<ExecOutcome, Fault>(ExecOutcome::Advance) && final(core).psr == (
            crate::register::PSR {
                n: result >= 0x8000_0000,
                z: result == 0,
                c: crate::operation::spec_awc_carry(x, params.imm32, false),
                v: crate::operation::spec_awc_overflow(x, params.imm32, false),
                ..old(core).psr
            })
        }),
{
    let op1: u32 = core.get_r(params.r);
    let (result, carry, overflow) = add_with_carry(op1, params.imm32, false);
    core.update_flags_nzcv(result, carry, overflow);
    Ok(ExecOutcome::Advance)
}

/// `CMN (register)`: set N, Z, C and V from `rn + shift(rm)`.
fn exec_cmn_reg(core: &mut Core, params: Reg2ShiftNoSetFlagsParams) -> (r: Result<ExecOutcome, Fault>)
    requires
        old(core).wf(),
    ensures
        final(core).wf(),
        final(core).count == old(core).count,
        final(core).regs == old(core).regs,
        final(core).primask == old(core).primask,
        final(core).control == old(core).control,
        params.shift_t != crate::instruction::SRType::RRX ==> ({
            let shifted = crate::operation::spec_shift_c(
                old(core).reg_spec(params.rm) as u32,
                params.shift_t,
                params.shift_n as nat,
                old(core).psr.c,
            ).0 as u32;
            let x = old(core).reg_spec(params.rn) as u32;
            let result = crate::operation::spec_awc_result(x, shifted, false) as u32;
            r == Ok::<ExecOutcome, Fault>(ExecOutcome::Advance) && final(core).psr == (
            crate::register::PSR {
                n: result >= 0x8000_0000,
                z: result == 0,
                c: crate::operation::spec_awc_carry(x, shifted, false),
                v: crate::operation::spec_awc_overflow(x, shifted, false),
                ..old(core).psr
            })
        }),
{
    let shifted: (u32, bool) = reg_shift_c(core, params.rm, params.shift_t,
        params.shift_n);
    let op1: u32 = core.get_r(params.rn);
    let (result, carry, overflow) = add_with_carry(op1, shifted.0, false);
    core.update_flags_nzcv(result, carry, overflow);
    Ok(ExecOutcome::Advance)
}

/// `TST reg`.
fn exec_tst_reg(core: &mut Core, params: Reg2ShiftNoSetFlagsParams) -> (r: Result<ExecOutcome, Fault>)
    requires
        old(core).wf(),
    ensures
        final(core).wf(),
        final(core).count == old(core).count,
{
    let shifted: (u32, bool) = reg_shift_c(core, params.rm, params.shift_t,
        params.shift_n);
    let result: u32 = core.get_r(params.rn) & shifted.0;
    core.update_flags_nzc(result, shifted.1);
    Ok(ExecOutcome::Advance)
}

/// `TST imm`.
fn exec_tst_imm(core: &mut Core, params: RegImmCarryNoSetFlagsParams) -> (r: Result<ExecOutcome, Fault>)
    requires
        old(core).wf(),
    ensures
        final(core).wf(),
        final(core).count == old(core).count,
{
    let (imm, carry) = imm32_carry(&params.imm32, core.psr.c);
    let result: u32 = core.get_r(params.rn) & imm;
    core.update_flags_nzc(result, carry);
    Ok(ExecOutcome::Advance)
}

/// `TEQ reg`.
fn exec_teq_reg(core: &mut Core, params: Reg2ShiftNoSetFlagsParams) -> (r: Result<ExecOutcome, Fault>)
    requires
        old(core).wf(),
    ensures
        final(core).wf(),
        final(core).count == old(core).count,
{
    let shifted: (u32, bool) = reg_shift_c(core, params.rm, params.shift_t,
        params.shift_n);
    let result: u32 = core.get_r(params.rn) ^ shifted.0;
    core.update_flags_nzc(result, shifted.1);
    Ok(ExecOutcome::Advance)
}

/// `TEQ imm`.
fn exec_teq_imm(core: &mut Core, params: RegImmCarryNoSetFlagsParams) -> (r: Result<ExecOutcome, Fault>)
    requires
        old(core).wf(),
    ensures
        final(core).wf(),
        final(core).count == old(core).count,
{
    let (imm, carry) = imm32_carry(&params.imm32, core.psr.c);
    let result: u32 = core.get_r(params.rn) ^ imm;
    core.update_flags_nzc(result, carry);
    Ok(ExecOutcome::Advance)
}

/// Logical, move and shifted-operand move instructions.
#[verifier::rlimit(100)]
#[verifier::spinoff_prover]
fn execute_logic<T: Bus, R: Bus>(
    core: &mut Core,
    code: &mut T,
    sram: &mut R,
    instr: &Instruction,
) -> (r: Result<ExecOutcome, Fault>)
    requires
        !is_branch_instr(*instr),
        !is_arith_cmp_instr(*instr),
        old(core).wf(),
        old(code).wf(),
        old(sram).wf(),
        !old(code).writable_spec(),
    ensures
        exec_frame(*old(core), *old(code), *old(sram), *final(core), *final(code), *final(sram)),
        spec_execute_post(*instr, *old(core), *old(code), *old(sram), *final(core), *final(sram), r),
{
    let pc: u32 = core.get_pc();
    match *instr {
        // ---- Logical operations ----
        Instruction::AND_reg { params, .. } => {
            exec_logic_reg(core, params.rd, params.rn, params.rm, params.shift_t, params.shift_n,
                params.setflags, LogicOp::And)
        },
        Instruction::EOR_reg { params, .. } => {
            exec_logic_reg(core, params.rd, params.rn, params.rm, params.shift_t, params.shift_n,
                params.setflags, LogicOp::Eor)
        },
        Instruction::ORR_reg { params, .. } => {
            exec_logic_reg(core, params.rd, params.rn, params.rm, params.shift_t, params.shift_n,
                params.setflags, LogicOp::Orr)
        },
        Instruction::ORN_reg { params } => {
            exec_logic_reg(core, params.rd, params.rn, params.rm, params.shift_t, params.shift_n,
                params.setflags, LogicOp::Orn)
        },
        Instruction::BIC_reg { params, .. } => {
            exec_logic_reg(core, params.rd, params.rn, params.rm, params.shift_t, params.shift_n,
                params.setflags, LogicOp::Bic)
        },
        Instruction::AND_imm { params } => {
            let (imm, carry) = imm32_carry(&params.imm32, core.psr.c);
            let result: u32 = core.get_r(params.rn) & imm;
            finish_logic(core, params.rd, result, carry, if params.setflags {
                SetFlags::True
            } else {
                SetFlags::False
            })
        },
        Instruction::ORR_imm { params } => {
            let (imm, carry) = imm32_carry(&params.imm32, core.psr.c);
            let result: u32 = core.get_r(params.rn) | imm;
            finish_logic(core, params.rd, result, carry, if params.setflags {
                SetFlags::True
            } else {
                SetFlags::False
            })
        },
        Instruction::EOR_imm { params } => {
            let (imm, carry) = imm32_carry(&params.imm32, core.psr.c);
            let result: u32 = core.get_r(params.rn) ^ imm;
            finish_logic(core, params.rd, result, carry, if params.setflags {
                SetFlags::True
            } else {
                SetFlags::False
            })
        },
        Instruction::BIC_imm { params } => {
            let (imm, carry) = imm32_carry(&params.imm32, core.psr.c);
            let result: u32 = core.get_r(params.rn) & not32(imm);
            finish_logic(core, params.rd, result, carry, if params.setflags {
                SetFlags::True
            } else {
                SetFlags::False
            })
        },
        Instruction::MVN_reg { params, .. } => {
            let shifted: (u32, bool) = reg_shift_c(core, params.rm, params.shift_t,
                params.shift_n);
            let result: u32 = not32(shifted.0);
            finish_logic(core, params.rd, result, shifted.1, params.setflags)
        },
        Instruction::MVN_imm { params } => {
            let (imm, carry) = imm32_carry(&params.imm32, core.psr.c);
            let result: u32 = not32(imm);
            finish_logic(core, params.rd, result, carry, params.setflags)
        },
        // ---- Moves ----
        Instruction::MOV_imm { params, .. } => {
            let (imm, carry) = imm32_carry(&params.imm32, core.psr.c);
            finish_logic(core, params.rd, imm, carry, params.setflags)
        },
        Instruction::MOV_reg { params, .. } => {
            let value: u32 = core.get_r(params.rm);
            if write_result(core, params.rd, value) {
                Ok(ExecOutcome::Branched)
            } else {
                if params.setflags {
                    core.update_flags_nz(value);
                }
                Ok(ExecOutcome::Advance)
            }
        },
        Instruction::MOVT { rd, imm16 } => {
            let low: u32 = core.get_r(rd) % 0x1_0000;
            core.set_r(rd, low + (imm16 as u32) * 0x1_0000);
            Ok(ExecOutcome::Advance)
        },
        Instruction::ADR { params, .. } => {
            let base: u32 = pc.wrapping_add(4);
            let aligned: u32 = base - base % 4;
            core.set_r(params.r, aligned.wrapping_add(params.imm32));
            Ok(ExecOutcome::Advance)
        },
        _ => execute_shift_mul(core, code, sram, instr),
    }
}

/// Shift, multiply, divide, extend and byte-reversal instructions.
#[verifier::rlimit(100)]
#[verifier::spinoff_prover]
fn execute_shift_mul<T: Bus, R: Bus>(
    core: &mut Core,
    code: &mut T,
    sram: &mut R,
    instr: &Instruction,
) -> (r: Result<ExecOutcome, Fault>)
    requires
        !is_branch_instr(*instr),
        !is_arith_cmp_instr(*instr),
        old(core).wf(),
        old(code).wf(),
        old(sram).wf(),
        !old(code).writable_spec(),
    ensures
        exec_frame(*old(core), *old(code), *old(sram), *final(core), *final(code), *final(sram)),
        spec_execute_post(*instr, *old(core), *old(code), *old(sram), *final(core), *final(sram), r),
{
    let pc: u32 = core.get_pc();
    match *instr {
        // ---- Shifts ----
        Instruction::LSL_imm { params, .. } => {
            exec_shift_imm(core, params.rd, params.rm, crate::instruction::SRType::LSL,
                params.shift_n, params.setflags)
        },
        Instruction::LSR_imm { params, .. } => {
            exec_shift_imm(core, params.rd, params.rm, crate::instruction::SRType::LSR,
                params.shift_n, params.setflags)
        },
        Instruction::ASR_imm { params, .. } => {
            exec_shift_imm(core, params.rd, params.rm, crate::instruction::SRType::ASR,
                params.shift_n, params.setflags)
        },
        Instruction::ROR_imm { params } => {
            exec_shift_imm(core, params.rd, params.rm, crate::instruction::SRType::ROR,
                params.shift_n, params.setflags)
        },
        Instruction::RRX { params } => {
            let carry_in: bool = core.psr.c;
            let shifted: (u32, bool) = shift_c(
                core.get_r(params.rm),
                crate::instruction::SRType::RRX,
                1,
                carry_in,
            );
            finish_logic(core, params.rd, shifted.0, shifted.1, if params.setflags {
                SetFlags::True
            } else {
                SetFlags::False
            })
        },
        Instruction::LSL_reg { params, .. } => {
            exec_shift_reg(core, params.rd, params.rn, params.rm,
                crate::instruction::SRType::LSL, params.setflags)
        },
        Instruction::LSR_reg { params, .. } => {
            exec_shift_reg(core, params.rd, params.rn, params.rm,
                crate::instruction::SRType::LSR, params.setflags)
        },
        Instruction::ASR_reg { params, .. } => {
            exec_shift_reg(core, params.rd, params.rn, params.rm,
                crate::instruction::SRType::ASR, params.setflags)
        },
        Instruction::ROR_reg { params, .. } => {
            exec_shift_reg(core, params.rd, params.rn, params.rm,
                crate::instruction::SRType::ROR, params.setflags)
        },
        // ---- Multiply and divide ----
        Instruction::MUL { params, .. } => {
            let op1: u32 = core.get_r(params.rn);
            let op2: u32 = core.get_r(params.rm);
            let result: u32 = op1.wrapping_mul(op2);
            if setflags_on(core, params.setflags) {
                core.update_flags_nz(result);
            }
            core.set_r(params.rd, result);
            Ok(ExecOutcome::Advance)
        },
        Instruction::UDIV { params } => {
            let op1: u32 = core.get_r(params.rn);
            let op2: u32 = core.get_r(params.rm);
            let result: u32 = if op2 == 0 {
                0
            } else {
                op1 / op2
            };
            core.set_r(params.rd, result);
            Ok(ExecOutcome::Advance)
        },
        Instruction::SDIV { params } => {
            let op1: u32 = core.get_r(params.rn);
            let op2: u32 = core.get_r(params.rm);
            core.set_r(params.rd, sdiv32(op1, op2));
            Ok(ExecOutcome::Advance)
        },
        // ---- Extends ----
        Instruction::SXTB { params, .. } => {
            let rotated: u32 = rotate_operand(core.get_r(params.rm), params.rotation);
            core.set_r(params.rd, sxtb32(rotated));
            Ok(ExecOutcome::Advance)
        },
        Instruction::SXTH { params, .. } => {
            let rotated: u32 = rotate_operand(core.get_r(params.rm), params.rotation);
            core.set_r(params.rd, sxth32(rotated));
            Ok(ExecOutcome::Advance)
        },
        Instruction::UXTB { params, .. } => {
            let rotated: u32 = rotate_operand(core.get_r(params.rm), params.rotation);
            core.set_r(params.rd, rotated % 256);
            Ok(ExecOutcome::Advance)
        },
        Instruction::UXTH { params, .. } => {
            let rotated: u32 = rotate_operand(core.get_r(params.rm), params.rotation);
            core.set_r(params.rd, rotated % 0x1_0000);
            Ok(ExecOutcome::Advance)
        },
        // ---- Byte reversals ----
        Instruction::REV { rd, rm, .. } => {
            let v: u32 = core.get_r(rm);
            let result: u32 = (v % 256) * 0x100_0000 + (v / 256 % 256) * 0x1_0000 + (v / 0x1_0000
                % 256) * 256 + v / 0x100_0000;
            core.set_r(rd, result);
            Ok(ExecOutcome::Advance)
        },
        Instruction::REV16 { rd, rm, .. } => {
            let v: u32 = core.get_r(rm);
            let result: u32 = (v / 0x1_0000 % 256) * 0x100_0000 + (v / 0x100_0000) * 0x1_0000 + (v
                % 256) * 256 + v / 256 % 256;
            core.set_r(rd, result);
            Ok(ExecOutcome::Advance)
        },
        Instruction::REVSH { rd, rm, .. } => {
            let v: u32 = core.get_r(rm);
            let swapped: u32 = (v % 256) * 256 + v / 256 % 256;
            core.set_r(rd, sxth32(swapped));
            Ok(ExecOutcome::Advance)
        },
        Instruction::CLZ { rd, rm } => {
            let v: u32 = core.get_r(rm);
            core.set_r(rd, clz32(v));
            Ok(ExecOutcome::Advance)
        },
        _ => execute_mem(core, code, sram, instr),
    }
}

/// The width and extension of a single load.
#[derive(Clone, Copy, Debug, PartialEq, Eq, Structural)]
enum LoadKind {
    Word,
    Half,
    HalfSigned,
    Byte,
    ByteSigned,
}

/// The width of a single store.
#[derive(Clone, Copy, Debug, PartialEq, Eq, Structural)]
enum StoreKind {
    Word,
    Half,
    Byte,
}

/// Shared body of the single loads: compute the address from the
/// `(index, add, wback)` triple, read, extend, write back.  For a
/// word load to a plain register the contract is exact: the target
/// takes the word the matrix answers at the selected address, the
/// base register takes the offset address under writeback, and a
/// failing read faults with the read's own fault, changing nothing.
fn exec_load<T: Bus, R: Bus>(
    core: &mut Core,
    code: &mut T,
    sram: &mut R,
    rt: Reg,
    rn: Reg,
    offset: u32,
    index: bool,
    add: bool,
    wback: bool,
    kind: LoadKind,
) -> (r: Result<ExecOutcome, Fault>)
    requires
        old(core).wf(),
        old(code).wf(),
        old(sram).wf(),
        !old(code).writable_spec(),
    ensures
        exec_frame(*old(core), *old(code), *old(sram), *final(core), *final(code), *final(sram)),
        *final(sram) == *old(sram),
        (kind == LoadKind::Word && rt != Reg::PC && rt != Reg::SP && rn != Reg::PC && rn
            != Reg::SP) ==> ({
            let rn_v = old(core).reg_spec(rn);
            let offset_addr = (if add {
                rn_v + offset
            } else {
                rn_v - offset
            }) % 0x1_0000_0000;
            let addr = if index {
                offset_addr
            } else {
                rn_v
            };
            match crate::bus::spec_matrix_read32(*old(code), *old(sram), addr as u32) {
                Ok(w) => r == Ok::<ExecOutcome, Fault>(ExecOutcome::Advance) && final(core).psr
                    == old(core).psr && final(core).regs@ == (if wback {
                    old(core).regs@.update(rn.num(), offset_addr as u32)
                } else {
                    old(core).regs@
                }).update(rt.num(), w),
                Err(f) => r == Err::<ExecOutcome, Fault>(f) && *final(core) == *old(core),
            }
        }),
{
    let rn_val: u32 = core.get_r(rn);
    let (offset_addr, address) = mem_address(rn_val, offset, index, add);
    let value: u32 = match kind {
        LoadKind::Word => {
            match matrix_read32(code, sram, address) {
                Ok(v) => v,
                Err(f) => {
                    return Err(f);
                },
            }
        },
        LoadKind::Half | LoadKind::HalfSigned => {
            match matrix_read16(code, sram, address) {
                Ok(v) => v as u32,
                Err(f) => {
                    return Err(f);
                },
            }
        },
        LoadKind::Byte | LoadKind::ByteSigned => {
            match matrix_read8(code, sram, address) {
                Ok(v) => v as u32,
                Err(f) => {
                    return Err(f);
                },
            }
        },
    };
    let extended: u32 = match kind {
        LoadKind::Word => value,
        LoadKind::Half => value,
        LoadKind::HalfSigned => sxth32(value),
        LoadKind::Byte => value,
        LoadKind::ByteSigned => sxtb32(value),
    };
    if wback {
        core.set_r(rn, offset_addr);
    }
    match kind {
        LoadKind::Word => finish_load(core, rt, extended),
        _ => {
            core.set_r(rt, extended);
            Ok(ExecOutcome::Advance)
        },
    }
}

/// Shared body of the single stores.  For a word store with a plain
/// base register the contract is exact: the stored register's word
/// lands little-endian at the selected SRAM address, the base takes
/// the offset address under writeback, and a rejected store faults
/// with the write's own fault, changing nothing.
fn exec_store<T: Bus, R: Bus>(
    core: &mut Core,
    code: &mut T,
    sram: &mut R,
    rt: Reg,
    rn: Reg,
    offset: u32,
    index: bool,
    add: bool,
    wback: bool,
    kind: StoreKind,
) -> (r: Result<ExecOutcome, Fault>)
    requires
        old(core).wf(),
        old(code).wf(),
        old(sram).wf(),
        !old(code).writable_spec(),
    ensures
        exec_frame(*old(core), *old(code), *old(sram), *final(core), *final(code), *final(sram)),
        (kind == StoreKind::Word && rn != Reg::PC && rn != Reg::SP) ==> ({
            let rn_v = old(core).reg_spec(rn);
            let offset_addr = (if add {
                rn_v + offset
            } else {
                rn_v - offset
            }) % 0x1_0000_0000;
            let addr = (if index {
                offset_addr
            } else {
                rn_v
            }) as u32;
            let value = old(core).reg_spec(rt) as u32;
            if crate::bus::spec_matrix_claims_write(*old(code), *old(sram), addr)
                && crate::bus::spec_can_write32(
                old(sram).base_spec(),
                old(sram).len_spec(),
                old(sram).writable_spec(),
                addr,
            ) {
                r == Ok::<ExecOutcome, Fault>(ExecOutcome::Advance) && final(core).psr == old(
                    core,
                ).psr && final(core).regs@ == (if wback {
                    old(core).regs@.update(rn.num(), offset_addr as u32)
                } else {
                    old(core).regs@
                }) && final(sram).mem_spec() == crate::bus::store_word(
                    old(sram).mem_spec(),
                    addr - old(sram).base_spec(),
                    value,
                )
            } else {
                r == Err::<ExecOutcome, Fault>(
                    Fault::BusFault { addr, width: 4u8, write: true },
                ) && *final(core) == *old(core) && *final(sram) == *old(sram)
            }
        }),
{
    let rn_val: u32 = core.get_r(rn);
    let (offset_addr, address) = mem_address(rn_val, offset, index, add);
    let value: u32 = core.get_r(rt);
    let stored: Result<(), Fault> = match kind {
        StoreKind::Word => matrix_write32(code, sram, address, value),
        StoreKind::Half => store_half(code, sram, address, value % 0x1_0000),
        StoreKind::Byte => matrix_write8(code, sram, address, (value % 256) as u8),
    };
    match stored {
        Ok(u) => {
            if wback {
                core.set_r(rn, offset_addr);
            }
            Ok(ExecOutcome::Advance)
        },
        Err(f) => Err(f),
    }
}

/// The shifted second operand and shifter carry of the
/// register-operand data-processing forms.
fn reg_shift_c(core: &Core, rm: Reg, shift_t: crate::instruction::SRType, shift_n: u8) -> (r: (
    u32,
    bool,
))
    requires
        core.wf(),
    ensures
        shift_t != crate::instruction::SRType::RRX ==> r.0 == crate::operation::spec_shift_c(
            core.reg_spec(rm) as u32,
            shift_t,
            shift_n as nat,
            core.psr.c,
        ).0,
        shift_t != crate::instruction::SRType::RRX ==> r.1 == crate::operation::spec_shift_c(
            core.reg_spec(rm) as u32,
            shift_t,
            shift_n as nat,
            core.psr.c,
        ).1,
{
    shift_c(core.get_r(rm), shift_t, shift_amount(shift_t, shift_n), core.psr.c)
}

/// The shifted register offset of the register addressing forms.
fn reg_offset(core: &Core, rm: Reg, shift_t: crate::instruction::SRType, shift_n: u8) -> (r: u32)
    requires
        core.wf(),
    ensures
        shift_t != crate::instruction::SRType::RRX ==> r == crate::operation::spec_shift_c(
            core.reg_spec(rm) as u32,
            shift_t,
            shift_n as nat,
            core.psr.c,
        ).0,
{
    let shifted: (u32, bool) = shift_c(
        core.get_r(rm),
        shift_t,
        shift_amount(shift_t, shift_n),
        core.psr.c,
    );
    shifted.0
}

/// Load and store instructions, single and multiple.
fn execute_mem<T: Bus, R: Bus>(
    core: &mut Core,
    code: &mut T,
    sram: &mut R,
    instr: &Instruction,
) -> (r: Result<ExecOutcome, Fault>)
    requires
        !is_branch_instr(*instr),
        !is_arith_cmp_instr(*instr),
        old(core).wf(),
        old(code).wf(),
        old(sram).wf(),
        !old(code).writable_spec(),
    ensures
        exec_frame(*old(core), *old(code), *old(sram), *final(core), *final(code), *final(sram)),
        spec_execute_post(*instr, *old(core), *old(code), *old(sram), *final(core), *final(sram), r),
{
    let pc: u32 = core.get_pc();
    match *instr {
        Instruction::LDR_imm { rt, rn, imm32, index, add, wback, .. } => {
            exec_load(core, code, sram, rt, rn, imm32, index, add, wback, LoadKind::Word)
        },
        Instruction::LDR_reg { rt, rn, rm, shift_t, shift_n, index, add, wback, .. } => {
            let offset: u32 = reg_offset(core, rm, shift_t, shift_n);
            exec_load(core, code, sram, rt, rn, offset, index, add, wback, LoadKind::Word)
        },
        Instruction::LDR_lit { rt, imm32, add, .. } => {
            let base: u32 = pc.wrapping_add(4);
            let aligned: u32 = base - base % 4;
            let address: u32 = if add {
                aligned.wrapping_add(imm32)
            } else {
                aligned.wrapping_sub(imm32)
            };
            match matrix_read32(code, sram, address) {
                Ok(value) => finish_load(core, rt, value),
                Err(f) => Err(f),
            }
        },
        Instruction::LDRB_imm { rt, rn, imm32, index, add, wback, .. } => {
            exec_load(core, code, sram, rt, rn, imm32, index, add, wback, LoadKind::Byte)
        },
        Instruction::LDRB_reg { rt, rn, rm, shift_t, shift_n, index, add, wback, .. } => {
            let offset: u32 = reg_offset(core, rm, shift_t, shift_n);
            exec_load(core, code, sram, rt, rn, offset, index, add, wback, LoadKind::Byte)
        },
        Instruction::LDRH_imm { rt, rn, imm32, index, add, wback, .. } => {
            exec_load(core, code, sram, rt, rn, imm32, index, add, wback, LoadKind::Half)
        },
        Instruction::LDRH_reg { rt, rn, rm, shift_t, shift_n, index, add, wback, .. } => {
            let offset: u32 = reg_offset(core, rm, shift_t, shift_n);
            exec_load(core, code, sram, rt, rn, offset, index, add, wback, LoadKind::Half)
        },
        Instruction::LDRSB_imm { rt, rn, imm32, index, add, wback, .. } => {
            exec_load(core, code, sram, rt, rn, imm32, index, add, wback, LoadKind::ByteSigned)
        },
        Instruction::LDRSB_reg { rt, rn, rm, shift_t, shift_n, index, add, wback, .. } => {
            let offset: u32 = reg_offset(core, rm, shift_t, shift_n);
            exec_load(core, code, sram, rt, rn, offset, index, add, wback, LoadKind::ByteSigned)
        },
        Instruction::LDRSH_imm { rt, rn, imm32, index, add, wback, .. } => {
            exec_load(core, code, sram, rt, rn, imm32, index, add, wback, LoadKind::HalfSigned)
        },
        Instruction::LDRSH_reg { rt, rn, rm, shift_t, shift_n, index, add, wback, .. } => {
            let offset: u32 = reg_offset(core, rm, shift_t, shift_n);
            exec_load(core, code, sram, rt, rn, offset, index, add, wback, LoadKind::HalfSigned)
        },
        Instruction::STR_imm { rt, rn, imm32, index, add, wback, .. } => {
            exec_store(core, code, sram, rt, rn, imm32, index, add, wback, StoreKind::Word)
        },
        Instruction::STR_reg { rt, rn, rm, shift_t, shift_n, index, add, wback, .. } => {
            let offset: u32 = reg_offset(core, rm, shift_t, shift_n);
            exec_store(core, code, sram, rt, rn, offset, index, add, wback, StoreKind::Word)
        },
        Instruction::STRB_imm { rt, rn, imm32, index, add, wback, .. } => {
            exec_store(core, code, sram, rt, rn, imm32, index, add, wback, StoreKind::Byte)
        },
        Instruction::STRB_reg { rt, rn, rm, shift_t, shift_n, index, add, wback, .. } => {
            let offset: u32 = reg_offset(core, rm, shift_t, shift_n);
            exec_store(core, code, sram, rt, rn, offset, index, add, wback, StoreKind::Byte)
        },
        Instruction::STRH_imm { rt, rn, imm32, index, add, wback, .. } => {
            exec_store(core, code, sram, rt, rn, imm32, index, add, wback, StoreKind::Half)
        },
        Instruction::STRH_reg { rt, rn, rm, shift_t, shift_n, index, add, wback, .. } => {
            let offset: u32 = reg_offset(core, rm, shift_t, shift_n);
            exec_store(core, code, sram, rt, rn, offset, index, add, wback, StoreKind::Half)
        },
        Instruction::PUSH { registers, .. } => exec_push(core, code, sram, registers),
        Instruction::POP { registers, .. } => exec_pop(core, code, sram, registers),
        Instruction::STM { rn, registers, wback, .. } => exec_stm(
            core,
            code,
            sram,
            rn,
            registers,
            wback,
        ),
        Instruction::LDM { rn, registers, .. } => exec_ldm(core, code, sram, rn, registers),
        _ => execute_misc(core, code, sram, instr),
    }
}

/// Hints, barriers, system register access and
/// exception-generating instructions; instructions of later profiles
/// fault on this one.
fn execute_misc<T: Bus, R: Bus>(
    core: &mut Core,
    code: &mut T,
    sram: &mut R,
    instr: &Instruction,
) -> (r: Result<ExecOutcome, Fault>)
    requires
        !is_branch_instr(*instr),
        !is_arith_cmp_instr(*instr),
        !is_list_mem_instr(*instr),
        !is_word_mem_instr(*instr),
        old(core).wf(),
        old(code).wf(),
        old(sram).wf(),
        !old(code).writable_spec(),
    ensures
        exec_frame(*old(core), *old(code), *old(sram), *final(core), *final(code), *final(sram)),
        spec_execute_post(*instr, *old(core), *old(code), *old(sram), *final(core), *final(sram), r),
{
    let pc: u32 = core.get_pc();
    match *instr {
        // ---- Miscellaneous ----
        Instruction::NOP { .. } => Ok(ExecOutcome::Advance),
        Instruction::YIELD { .. } => Ok(ExecOutcome::Advance),
        Instruction::WFE { .. } => Ok(ExecOutcome::Advance),
        Instruction::WFI { .. } => Ok(ExecOutcome::Advance),
        Instruction::SEV { .. } => Ok(ExecOutcome::Advance),
        Instruction::DMB => Ok(ExecOutcome::Advance),
        Instruction::DSB => Ok(ExecOutcome::Advance),
        Instruction::ISB => Ok(ExecOutcome::Advance),
        Instruction::IT { firstcond, mask } => {
            let m: u8 = mask % 16;
            if m != 0 {
                let fc: u8 = firstcond.number() as u8;
                core.psr.it = fc * 16 + m;
            }
            Ok(ExecOutcome::Advance)
        },
        Instruction::CPS { im } => {
            core.primask = im;
            Ok(ExecOutcome::Advance)
        },
        Instruction::MRS { rd, sysm } => {
            let value: u32 = if sysm == 0 || sysm == 2 || sysm == 3 {
                apsr_value(core)
            } else if sysm == 5 {
                core.psr.exception as u32
            } else if sysm == 8 {
                core.get_r(Reg::SP)
            } else if sysm == 16 {
                if core.primask {
                    1
                } else {
                    0
                }
            } else if sysm == 20 {
                core.control as u32
            } else {
                0
            };
            core.set_r(rd, value);
            Ok(ExecOutcome::Advance)
        },
        Instruction::MSR_reg { rn, sysm, .. } => {
            let value: u32 = core.get_r(rn);
            if sysm <= 3 {
                core.psr.n = value / 0x8000_0000 % 2 == 1;
                core.psr.z = value / 0x4000_0000 % 2 == 1;
                core.psr.c = value / 0x2000_0000 % 2 == 1;
                core.psr.v = value / 0x1000_0000 % 2 == 1;
                core.psr.q = value / 0x0800_0000 % 2 == 1;
            } else if sysm == 8 {
                core.set_r(Reg::SP, value - value % 4);
            } else if sysm == 16 {
                core.primask = value % 2 == 1;
            } else if sysm == 20 {
                core.control = (value % 4) as u8;
            }
            Ok(ExecOutcome::Advance)
        },
        // ---- Exception-generating ----
        Instruction::BKPT { imm32 } => {
            if imm32 == 0xAB {
                Ok(ExecOutcome::Semihost)
            } else {
                Err(Fault::UnhandledBkpt { imm32, pc })
            }
        },
        Instruction::SVC { imm32 } => Err(Fault::UnhandledSvc { imm32, pc }),
        Instruction::UDF { opcode, .. } => Err(
            Fault::UndefinedInstruction { opcode: thumbcode_bits(opcode), pc },
        ),
        _ => Err(Fault::UndefinedInstruction { opcode: 0, pc }),
    }
}

/// The two logic operand words combined.
#[derive(Clone, Copy, Debug, PartialEq, Eq, Structural)]
enum LogicOp {
    And,
    Eor,
    Orr,
    Orn,
    Bic,
}

/// Shared body of the shifted-register logical operations.
fn exec_logic_reg(
    core: &mut Core,
    rd: Reg,
    rn: Reg,
    rm: Reg,
    shift_t: crate::instruction::SRType,
    shift_n: u8,
    setflags: SetFlags,
    op: LogicOp,
) -> (r: Result<ExecOutcome, Fault>)
    requires
        old(core).wf(),
    ensures
        final(core).wf(),
        final(core).count == old(core).count,
{
    let carry_in: bool = core.psr.c;
    let shifted: (u32, bool) = shift_c(
        core.get_r(rm),
        shift_t,
        shift_amount(shift_t, shift_n),
        carry_in,
    );
    let op1: u32 = core.get_r(rn);
    let result: u32 = match op {
        LogicOp::And => op1 & shifted.0,
        LogicOp::Eor => op1 ^ shifted.0,
        LogicOp::Orr => op1 | shifted.0,
        LogicOp::Orn => op1 | not32(shifted.0),
        LogicOp::Bic => op1 & not32(shifted.0),
    };
    finish_logic(core, rd, result, shifted.1, setflags)
}

/// Shared tail of the arithmetic operations: write back and set
/// N, Z, C and V when flags are called for.
fn finish_arith(
    core: &mut Core,
    rd: Reg,
    result: u32,
    carry: bool,
    overflow: bool,
    setflags: SetFlags,
) -> (r: Result<ExecOutcome, Fault>)
    requires
        old(core).wf(),
    ensures
        final(core).wf(),
        final(core).count == old(core).count,
        final(core).primask == old(core).primask,
        final(core).control == old(core).control,
        rd != Reg::PC && rd != Reg::SP ==> ({
            let flags = match setflags {
                SetFlags::True => true,
                SetFlags::False => false,
                SetFlags::NotInITBlock => !old(core).psr.in_it_block_spec(),
            };
            let target = if flags {
                crate::register::PSR {
                    n: result >= 0x8000_0000,
                    z: result == 0,
                    c: carry,
                    v: overflow,
                    ..old(core).psr
                }
            } else {
                old(core).psr
            };
            r == Ok::<ExecOutcome, Fault>(ExecOutcome::Advance)
                && final(core).regs@ == old(core).regs@.update(rd.num(), result)
                && final(core).psr == target
        }),
{
    if write_result(core, rd, result) {
        Ok(ExecOutcome::Branched)
    } else {
        if setflags_on(core, setflags) {
            core.update_flags_nzcv(result, carry, overflow);
        }
        Ok(ExecOutcome::Advance)
    }
}

/// Shared tail of logical and move operations: write back and set
/// N, Z and the shifter carry when flags are called for.
fn finish_logic(core: &mut Core, rd: Reg, result: u32, carry: bool, setflags: SetFlags) -> (r:
    Result<ExecOutcome, Fault>)
    requires
        old(core).wf(),
    ensures
        final(core).wf(),
        final(core).count == old(core).count,
{
    if write_result(core, rd, result) {
        Ok(ExecOutcome::Branched)
    } else {
        if setflags_on(core, setflags) {
            core.update_flags_nzc(result, carry);
        }
        Ok(ExecOutcome::Advance)
    }
}

/// Shared body of the immediate shifts.
fn exec_shift_imm(
    core: &mut Core,
    rd: Reg,
    rm: Reg,
    shift_t: crate::instruction::SRType,
    shift_n: u8,
    setflags: SetFlags,
) -> (r: Result<ExecOutcome, Fault>)
    requires
        old(core).wf(),
    ensures
        final(core).wf(),
        final(core).count == old(core).count,
{
    let carry_in: bool = core.psr.c;
    let shifted: (u32, bool) = shift_c(
        core.get_r(rm),
        shift_t,
        shift_amount(shift_t, shift_n),
        carry_in,
    );
    finish_logic(core, rd, shifted.0, shifted.1, setflags)
}

/// Shared body of the register-controlled shifts: the amount is the
/// low byte of `rm`.
fn exec_shift_reg(
    core: &mut Core,
    rd: Reg,
    rn: Reg,
    rm: Reg,
    shift_t: crate::instruction::SRType,
    setflags: SetFlags,
) -> (r: Result<ExecOutcome, Fault>)
    requires
        old(core).wf(),
        shift_t != crate::instruction::SRType::RRX,
    ensures
        final(core).wf(),
        final(core).count == old(core).count,
{
    let carry_in: bool = core.psr.c;
    let amount: u32 = core.get_r(rm) % 256;
    let shifted: (u32, bool) = shift_c(core.get_r(rn), shift_t, amount, carry_in);
    finish_logic(core, rd, shifted.0, shifted.1, setflags)
}

/// The shift amount handed to `shift_c`, guarding the RRX invariant.
fn shift_amount(shift_t: crate::instruction::SRType, shift_n: u8) -> (r: u32)
    ensures
        shift_t == crate::instruction::SRType::RRX ==> r == 1,
        shift_t != crate::instruction::SRType::RRX ==> r == shift_n,
{
    if matches!(shift_t, crate::instruction::SRType::RRX) {
        1
    } else {
        shift_n as u32
    }
}

/// Finish a word load: a PC destination is an interworking branch,
/// any other register takes the loaded word.
fn finish_load(core: &mut Core, rt: Reg, value: u32) -> (r: Result<ExecOutcome, Fault>)
    requires
        old(core).wf(),
    ensures
        final(core).wf(),
        final(core).count == old(core).count,
        final(core).primask == old(core).primask,
        final(core).control == old(core).control,
        rt != Reg::PC && rt != Reg::SP ==> (r == Ok::<ExecOutcome, Fault>(ExecOutcome::Advance)
            && final(core).regs@ == old(core).regs@.update(rt.num(), value) && final(core).psr
            == old(core).psr),
{
    if matches!(rt, Reg::PC) {
        match bx_write_pc(core, value) {
            Ok(u) => Ok(ExecOutcome::Branched),
            Err(f) => Err(f),
        }
    } else {
        core.set_r(rt, value);
        Ok(ExecOutcome::Advance)
    }
}

/// Store a halfword as two byte stores, checking alignment first.
fn store_half<T: Bus, R: Bus>(code: &mut T, sram: &mut R, address: u32, value: u32) -> (r: Result<
    (),
    Fault,
>)
    requires
        old(code).wf(),
        old(sram).wf(),
        !old(code).writable_spec(),
        value < 0x1_0000,
    ensures
        *final(code) == *old(code),
        final(sram).wf(),
        final(sram).base_spec() == old(sram).base_spec(),
        final(sram).len_spec() == old(sram).len_spec(),
        final(sram).readable_spec() == old(sram).readable_spec(),
        final(sram).writable_spec() == old(sram).writable_spec(),
{
    if address % 2 != 0 {
        return Err(Fault::BusFault { addr: address, width: 2, write: true });
    }
    if address == 0xFFFF_FFFF {
        return Err(Fault::BusFault { addr: address, width: 2, write: true });
    }
    match matrix_write8(code, sram, address, (value % 256) as u8) {
        Ok(u) => match matrix_write8(code, sram, address + 1, (value / 256) as u8) {
            Ok(u2) => Ok(()),
            Err(f) => Err(f),
        },
        Err(f) => Err(f),
    }
}

/// The number of registers named by a 16-bit register list.
fn reg_count(registers: u16) -> (r: u32)
    ensures
        r <= 16,
        r == count_below(registers, 16),
{
    let mut rest: u32 = registers as u32;
    let mut n: u32 = 0;
    let mut i: u32 = 0;
    proof {
        vstd::arithmetic::power2::lemma2_to64();
    }
    while i < 16
        invariant
            i <= 16,
            n <= i,
            rest as nat == (registers as nat) / vstd::arithmetic::power2::pow2(i as nat),
            n == count_below(registers, i as nat),
        decreases 16 - i,
    {
        proof {
            lemma_mask_shift(registers as nat, i as nat);
            lemma_sel_below_len(Seq::new(16nat, |k: int| 0u32), registers, i as nat);
            lemma_sel_below_len(Seq::new(16nat, |k: int| 0u32), registers, (i + 1) as nat);
        }
        if rest % 2 == 1 {
            n = n + 1;
        }
        rest = rest / 2;
        i = i + 1;
    }
    n
}

/// `PUSH`: store the listed registers below SP, lowest register at
/// the lowest address, then lower SP by four per register.
///
/// When the destination block sits wholly inside SRAM and the list
/// does not name PC, the contract is exact: the listed registers
/// land in memory as `store_words` of `pushed_words`, SP drops by
/// four per register, and nothing else changes.
#[verifier::rlimit(100)]
#[verifier::spinoff_prover]
fn exec_push<T: Bus, R: Bus>(core: &mut Core, code: &mut T, sram: &mut R, registers: u16) -> (r:
    Result<ExecOutcome, Fault>)
    requires
        old(core).wf(),
        old(code).wf(),
        old(sram).wf(),
        !old(code).writable_spec(),
    ensures
        exec_frame(*old(core), *old(code), *old(sram), *final(core), *final(code), *final(sram)),
        (stack_in_sram(
            *old(code),
            *old(sram),
            old(core).regs@[13] - 4 * count_below(registers, 16),
            count_below(registers, 16),
        ) && !bit_set(registers, 15)) ==> (r == Ok::<ExecOutcome, Fault>(ExecOutcome::Advance)
            && final(core).regs@ == old(core).regs@.update(
            13,
            (old(core).regs@[13] - 4 * count_below(registers, 16)) as u32,
        ) && final(core).psr == old(core).psr && final(sram).mem_spec() == store_words(
            old(sram).mem_spec(),
            old(core).regs@[13] - 4 * count_below(registers, 16) - old(sram).base_spec(),
            pushed_words(old(core).regs@, registers),
        )),
{
    proof {
        old(code).wf_facts();
        old(sram).wf_facts();
        vstd::arithmetic::power2::lemma2_to64();
    }
    let ghost gh: bool = stack_in_sram(
        *old(code),
        *old(sram),
        old(core).regs@[13] - 4 * count_below(registers, 16),
        count_below(registers, 16),
    ) && !bit_set(registers, 15);
    let ghost n: nat = count_below(registers, 16);
    let ghost base0: int = old(core).regs@[13] - 4 * count_below(registers, 16);
    let ghost off0: int = base0 - old(sram).base_spec();
    let count: u32 = reg_count(registers);
    let sp: u32 = core.get_r(Reg::SP);
    let base: u32 = sp.wrapping_sub(4 * count);
    let mut address: u32 = base;
    let mut i: u32 = 0;
    let mut rest: u32 = registers as u32;
    while i < 16
        invariant
            core.wf(),
            code.wf(),
            sram.wf(),
            !code.writable_spec(),
            i <= 16,
            *core == *old(core),
            *code == *old(code),
            sram.base_spec() == old(sram).base_spec(),
            sram.len_spec() == old(sram).len_spec(),
            sram.readable_spec() == old(sram).readable_spec(),
            sram.writable_spec() == old(sram).writable_spec(),
            count == n,
            n == count_below(registers, 16),
            base0 == old(core).regs@[13] - 4 * count_below(registers, 16),
            off0 == base0 - old(sram).base_spec(),
            old(sram).mem_spec().len() == old(sram).len_spec(),
            rest as nat == (registers as nat) / vstd::arithmetic::power2::pow2(i as nat),
            gh == (stack_in_sram(*old(code), *old(sram), base0, n) && !bit_set(registers, 15)),
            gh ==> base as int == base0,
            gh ==> address as int == base0 + 4 * count_below(registers, i as nat),
            gh ==> sram.mem_spec() == store_words(
                old(sram).mem_spec(),
                off0,
                sel_below(old(core).regs@, registers, i as nat),
            ),
        decreases 16 - i,
    {
        proof {
            lemma_mask_shift(registers as nat, i as nat);
            lemma_sel_below_len(old(core).regs@, registers, i as nat);
            lemma_sel_below_len(old(core).regs@, registers, (i + 1) as nat);
            lemma_count_below_mono(registers, (i + 1) as nat, 16);
        }
        if rest % 2 == 1 {
            let value: u32 = core.get_r(reg_of_index(i));
            proof {
                if gh {
                    assert(bit_set(registers, i as nat));
                    assert(sel_below(old(core).regs@, registers, (i + 1) as nat) == sel_below(
                        old(core).regs@,
                        registers,
                        i as nat,
                    ).push(old(core).regs@[i as int]));
                    assert(count_below(registers, (i + 1) as nat) == count_below(
                        registers,
                        i as nat,
                    ) + 1);
                    assert(count_below(registers, i as nat) < n);
                    // This word slot lies inside the SRAM block.
                    assert(slot_in_sram(
                        *old(code),
                        *old(sram),
                        word_slot(base0, count_below(registers, i as nat) as int),
                    ));
                    assert(address == word_slot(base0, count_below(registers, i as nat) as int));
                    // Appending this register extends the stored block.
                    lemma_store_words_snoc(
                        old(sram).mem_spec(),
                        off0,
                        sel_below(old(core).regs@, registers, i as nat),
                        old(core).regs@[i as int],
                    );
                }
            }
            match matrix_write32(code, sram, address, value) {
                Ok(u) => {},
                Err(f) => {
                    proof {
                        if gh {
                            assert(false);
                        }
                    }
                    return Err(f);
                },
            }
            address = address.wrapping_add(4);
        }
        rest = rest / 2;
        i = i + 1;
    }
    proof {
        if gh {
            // SP stays word aligned: the block base is SP minus a
            // multiple of four.
            assert(base % 4 == 0);
        }
    }
    core.set_r(Reg::SP, base);
    Ok(ExecOutcome::Advance)
}

/// `POP`: load the listed registers from SP upward, then raise SP by
/// four per register; a popped PC is an interworking branch.
///
/// When the source block sits wholly inside SRAM and the list names
/// neither SP nor PC, the contract is exact: each listed register
/// takes the word its position selects (`popped_regs` of
/// `read_words`), SP rises by four per register, and nothing else
/// changes.
#[verifier::rlimit(100)]
#[verifier::spinoff_prover]
fn exec_pop<T: Bus, R: Bus>(core: &mut Core, code: &mut T, sram: &mut R, registers: u16) -> (r:
    Result<ExecOutcome, Fault>)
    requires
        old(core).wf(),
        old(code).wf(),
        old(sram).wf(),
        !old(code).writable_spec(),
    ensures
        exec_frame(*old(core), *old(code), *old(sram), *final(core), *final(code), *final(sram)),
        *final(sram) == *old(sram),
        (stack_in_sram(*old(code), *old(sram), old(core).regs@[13] as int, count_below(registers, 16))
            && !bit_set(registers, 13) && !bit_set(registers, 15)) ==> (r == Ok::<
            ExecOutcome,
            Fault,
        >(ExecOutcome::Advance) && final(core).psr == old(core).psr && final(core).regs@
            == popped_regs(
            old(core).regs@,
            registers,
            read_words(
                old(sram).mem_spec(),
                old(core).regs@[13] - old(sram).base_spec(),
                count_below(registers, 16),
            ),
            (old(core).regs@[13] + 4 * count_below(registers, 16)) as u32,
        )),
{
    proof {
        old(code).wf_facts();
        old(sram).wf_facts();
        vstd::arithmetic::power2::lemma2_to64();
    }
    let ghost gh: bool = stack_in_sram(
        *old(code),
        *old(sram),
        old(core).regs@[13] as int,
        count_below(registers, 16),
    ) && !bit_set(registers, 13) && !bit_set(registers, 15);
    let ghost n: nat = count_below(registers, 16);
    let ghost sp0: int = old(core).regs@[13] as int;
    let ghost off0: int = sp0 - old(sram).base_spec();
    let ghost words: Seq<u32> = read_words(old(sram).mem_spec(), off0, n);
    let count: u32 = reg_count(registers);
    let sp: u32 = core.get_r(Reg::SP);
    let mut address: u32 = sp;
    let mut i: u32 = 0;
    let mut rest: u32 = registers as u32;
    let mut branched: bool = false;
    while i < 16
        invariant
            core.wf(),
            code.wf(),
            sram.wf(),
            !code.writable_spec(),
            i <= 16,
            *code == *old(code),
            *sram == *old(sram),
            core.psr == old(core).psr,
            core.primask == old(core).primask,
            core.control == old(core).control,
            core.count == old(core).count,
            core.regs@.len() == 16,
            count == n,
            n == count_below(registers, 16),
            sp0 == old(core).regs@[13] as int,
            off0 == sp0 - old(sram).base_spec(),
            words == read_words(old(sram).mem_spec(), off0, n),
            old(sram).mem_spec().len() == old(sram).len_spec(),
            rest as nat == (registers as nat) / vstd::arithmetic::power2::pow2(i as nat),
            gh == (stack_in_sram(*old(code), *old(sram), sp0, n) && !bit_set(registers, 13)
                && !bit_set(registers, 15)),
            gh ==> !branched,
            gh ==> address as int == sp0 + 4 * count_below(registers, i as nat),
            gh ==> forall|k: int|
                0 <= k < 16 ==> #[trigger] core.regs@[k] == (if k < i && bit_set(
                    registers,
                    k as nat,
                ) {
                    words[count_below(registers, k as nat) as int]
                } else {
                    old(core).regs@[k]
                }),
        decreases 16 - i,
    {
        proof {
            lemma_mask_shift(registers as nat, i as nat);
            lemma_sel_below_len(old(core).regs@, registers, i as nat);
            lemma_sel_below_len(old(core).regs@, registers, (i + 1) as nat);
            lemma_count_below_mono(registers, (i + 1) as nat, 16);
            lemma_read_words_len(old(sram).mem_spec(), off0, n);
        }
        if rest % 2 == 1 {
            proof {
                if gh {
                    assert(bit_set(registers, i as nat));
                    assert(count_below(registers, (i + 1) as nat) == count_below(
                        registers,
                        i as nat,
                    ) + 1);
                    assert(count_below(registers, i as nat) < n);
                    assert(slot_in_sram(
                        *old(code),
                        *old(sram),
                        word_slot(sp0, count_below(registers, i as nat) as int),
                    ));
                    lemma_read_words_index(
                        old(sram).mem_spec(),
                        off0,
                        n,
                        count_below(registers, i as nat) as int,
                    );
                }
            }
            match matrix_read32(code, sram, address) {
                Ok(value) => {
                    if i == 15 {
                        match bx_write_pc(core, value) {
                            Ok(u) => {
                                branched = true;
                            },
                            Err(f) => {
                                proof {
                                    if gh {
                                        assert(false);
                                    }
                                }
                                return Err(f);
                            },
                        }
                    } else {
                        core.set_r(reg_of_index(i), value);
                    }
                },
                Err(f) => {
                    proof {
                        if gh {
                            assert(false);
                        }
                    }
                    return Err(f);
                },
            }
            address = address.wrapping_add(4);
        }
        rest = rest / 2;
        i = i + 1;
    }
    let sp_now: u32 = core.get_r(Reg::SP);
    let sp_raised: u32 = sp_now.wrapping_add(4 * count);
    proof {
        if gh {
            assert(sp_raised % 4 == 0);
        }
    }
    core.set_r(Reg::SP, sp_raised);
    proof {
        if gh {
            assert(core.regs@ =~= popped_regs(
                old(core).regs@,
                registers,
                words,
                (sp0 + 4 * n) as u32,
            ));
        }
    }
    if branched {
        Ok(ExecOutcome::Branched)
    } else {
        Ok(ExecOutcome::Advance)
    }
}

/// `STM`: store the listed registers ascending from `rn`, with
/// writeback of the final address.
fn exec_stm<T: Bus, R: Bus>(
    core: &mut Core,
    code: &mut T,
    sram: &mut R,
    rn: Reg,
    registers: u16,
    wback: bool,
) -> (r: Result<ExecOutcome, Fault>)
    requires
        old(core).wf(),
        old(code).wf(),
        old(sram).wf(),
        !old(code).writable_spec(),
    ensures
        exec_frame(*old(core), *old(code), *old(sram), *final(core), *final(code), *final(sram)),
{
    proof {
        old(code).wf_facts();
        old(sram).wf_facts();
    }
    let count: u32 = reg_count(registers);
    let base: u32 = core.get_r(rn);
    let mut address: u32 = base;
    let mut i: u32 = 0;
    let mut rest: u32 = registers as u32;
    while i < 16
        invariant
            core.wf(),
            code.wf(),
            sram.wf(),
            !code.writable_spec(),
            i <= 16,
            core.count == old(core).count,
            *code == *old(code),
            sram.base_spec() == old(sram).base_spec(),
            sram.len_spec() == old(sram).len_spec(),
            sram.readable_spec() == old(sram).readable_spec(),
            sram.writable_spec() == old(sram).writable_spec(),
        decreases 16 - i,
    {
        if rest % 2 == 1 {
            let value: u32 = core.get_r(reg_of_index(i));
            match matrix_write32(code, sram, address, value) {
                Ok(u) => {},
                Err(f) => {
                    return Err(f);
                },
            }
            address = address.wrapping_add(4);
        }
        rest = rest / 2;
        i = i + 1;
    }
    if wback {
        core.set_r(rn, base.wrapping_add(4 * count));
    }
    Ok(ExecOutcome::Advance)
}

/// `LDM`: load the listed registers ascending from `rn`; `rn` is
/// written back when it is not in the list.
///
/// When the source block sits wholly inside SRAM, the list names
/// neither SP nor PC, and `rn` is neither SP nor PC, the contract is
/// exact: the listed registers take the words read ascending from
/// `rn` (`loaded_regs` of `read_words`), `rn` is written back when
/// not listed, and nothing else changes.
#[verifier::rlimit(100)]
#[verifier::spinoff_prover]
fn exec_ldm<T: Bus, R: Bus>(
    core: &mut Core,
    code: &mut T,
    sram: &mut R,
    rn: Reg,
    registers: u16,
) -> (r: Result<ExecOutcome, Fault>)
    requires
        old(core).wf(),
        old(code).wf(),
        old(sram).wf(),
        !old(code).writable_spec(),
    ensures
        exec_frame(*old(core), *old(code), *old(sram), *final(core), *final(code), *final(sram)),
        *final(sram) == *old(sram),
        (stack_in_sram(
            *old(code),
            *old(sram),
            old(core).regs@[rn.num()] as int,
            count_below(registers, 16),
        ) && !bit_set(registers, 13) && !bit_set(registers, 15) && rn != Reg::SP && rn != Reg::PC)
            ==> ({
            let n = count_below(registers, 16);
            let base = old(core).regs@[rn.num()] as int;
            let words = read_words(old(sram).mem_spec(), base - old(sram).base_spec(), n);
            let loaded = crate::stack::loaded_regs(old(core).regs@, registers, words);
            r == Ok::<ExecOutcome, Fault>(ExecOutcome::Advance) && final(core).psr == old(
                core,
            ).psr && final(core).regs@ == (if bit_set(registers, rn.num() as nat) {
                loaded
            } else {
                loaded.update(rn.num(), (base + 4 * n) as u32)
            })
        }),
{
    proof {
        old(code).wf_facts();
        old(sram).wf_facts();
        vstd::arithmetic::power2::lemma2_to64();
    }
    let ghost gh: bool = stack_in_sram(
        *old(code),
        *old(sram),
        old(core).regs@[rn.num()] as int,
        count_below(registers, 16),
    ) && !bit_set(registers, 13) && !bit_set(registers, 15) && rn != Reg::SP && rn != Reg::PC;
    let ghost n: nat = count_below(registers, 16);
    let ghost base0: int = old(core).regs@[rn.num()] as int;
    let ghost off0: int = base0 - old(sram).base_spec();
    let ghost words: Seq<u32> = read_words(old(sram).mem_spec(), off0, n);
    let count: u32 = reg_count(registers);
    let base: u32 = core.get_r(rn);
    let mut address: u32 = base;
    let mut i: u32 = 0;
    let mut rest: u32 = registers as u32;
    let mut rn_loaded: bool = false;
    while i < 16
        invariant
            core.wf(),
            code.wf(),
            sram.wf(),
            !code.writable_spec(),
            i <= 16,
            *code == *old(code),
            *sram == *old(sram),
            core.psr == old(core).psr,
            core.primask == old(core).primask,
            core.control == old(core).control,
            core.count == old(core).count,
            core.regs@.len() == 16,
            count == n,
            n == count_below(registers, 16),
            base0 == old(core).regs@[rn.num()] as int,
            off0 == base0 - old(sram).base_spec(),
            words == read_words(old(sram).mem_spec(), off0, n),
            old(sram).mem_spec().len() == old(sram).len_spec(),
            rest as nat == (registers as nat) / vstd::arithmetic::power2::pow2(i as nat),
            gh == (stack_in_sram(*old(code), *old(sram), base0, n) && !bit_set(registers, 13)
                && !bit_set(registers, 15) && rn != Reg::SP && rn != Reg::PC),
            gh ==> base as int == base0,
            gh ==> rn_loaded == (bit_set(registers, rn.num() as nat) && rn.num() < i),
            gh ==> address as int == base0 + 4 * count_below(registers, i as nat),
            gh ==> forall|k: int|
                0 <= k < 16 ==> #[trigger] core.regs@[k] == (if k < i && bit_set(
                    registers,
                    k as nat,
                ) {
                    words[count_below(registers, k as nat) as int]
                } else {
                    old(core).regs@[k]
                }),
        decreases 16 - i,
    {
        proof {
            lemma_mask_shift(registers as nat, i as nat);
            lemma_sel_below_len(old(core).regs@, registers, i as nat);
            lemma_sel_below_len(old(core).regs@, registers, (i + 1) as nat);
            lemma_count_below_mono(registers, (i + 1) as nat, 16);
            lemma_read_words_len(old(sram).mem_spec(), off0, n);
        }
        if rest % 2 == 1 {
            proof {
                if gh {
                    assert(bit_set(registers, i as nat));
                    assert(count_below(registers, (i + 1) as nat) == count_below(
                        registers,
                        i as nat,
                    ) + 1);
                    assert(count_below(registers, i as nat) < n);
                    assert(slot_in_sram(
                        *old(code),
                        *old(sram),
                        word_slot(base0, count_below(registers, i as nat) as int),
                    ));
                    lemma_read_words_index(
                        old(sram).mem_spec(),
                        off0,
                        n,
                        count_below(registers, i as nat) as int,
                    );
                }
            }
            let target: Reg = reg_of_index(i);
            match matrix_read32(code, sram, address) {
                Ok(value) => {
                    if i == 15 {
                        match bx_write_pc(core, value) {
                            Ok(u) => {},
                            Err(f) => {
                                proof {
                                    if gh {
                                        assert(false);
                                    }
                                }
                                return Err(f);
                            },
                        }
                    } else {
                        core.set_r(target, value);
                    }
                    if target.index() == rn.index() {
                        rn_loaded = true;
                    }
                },
                Err(f) => {
                    proof {
                        if gh {
                            assert(false);
                        }
                    }
                    return Err(f);
                },
            }
            address = address.wrapping_add(4);
        }
        rest = rest / 2;
        i = i + 1;
    }
    if !rn_loaded {
        core.set_r(rn, base.wrapping_add(4 * count));
    }
    proof {
        if gh {
            let loaded = crate::stack::loaded_regs(old(core).regs@, registers, words);
            if bit_set(registers, rn.num() as nat) {
                assert(core.regs@ =~= loaded);
            } else {
                assert(core.regs@ =~= loaded.update(rn.num(), (base0 + 4 * n) as u32));
            }
        }
    }
    Ok(ExecOutcome::Advance)
}

/// The register with a loop index as its number.
fn reg_of_index(i: u32) -> (r: Reg)
    requires
        i < 16,
    ensures
        r.num() == i,
{
    Reg::from_bits(i as u16)
}

/// Reinterpret a signed offset as the word added to PC.
fn i32_to_u32(v: i32) -> (r: u32)
    ensures
        r as int == (v as int) % 0x1_0000_0000,
{
    crate::operation::i32_as_u32(v)
}

/// Signed division rounding toward zero, with the ARM zero-divisor
/// convention: dividing by zero yields zero.  The quotient divides
/// the magnitudes and takes the product's sign, re-encoded as a
/// 32-bit word.
fn sdiv32(a: u32, b: u32) -> (r: u32)
    ensures
        b == 0 ==> r == 0,
        b != 0 ==> ({
            let sa = crate::operation::sint32(a);
            let sb = crate::operation::sint32(b);
            let q = (if sa < 0 {
                0 - sa
            } else {
                sa
            }) / (if sb < 0 {
                0 - sb
            } else {
                sb
            });
            r as int == (if (sa < 0) != (sb < 0) {
                (0 - q) % 0x1_0000_0000
            } else {
                q
            })
        }),
{
    let sa: bool = a >= 0x8000_0000;
    let sb: bool = b >= 0x8000_0000;
    let ua: u64 = if sa {
        0x1_0000_0000u64 - (a as u64)
    } else {
        a as u64
    };
    let ub: u64 = if sb {
        0x1_0000_0000u64 - (b as u64)
    } else {
        b as u64
    };
    if ub == 0 {
        0
    } else {
        let q: u64 = ua / ub;
        if sa != sb {
            ((0x1_0000_0000u64 - q % 0x1_0000_0000) % 0x1_0000_0000) as u32
        } else {
            (q % 0x1_0000_0000) as u32
        }
    }
}

/// Count the leading zero bits of a word.
fn clz32(v: u32) -> (r: u32)
    ensures
        r <= 32,
{
    let mut x: u32 = v;
    let mut n: u32 = 0;
    while n < 32 && x < 0x8000_0000
        invariant
            n <= 32,
        decreases 32 - n,
    {
        x = x * 2;
        n = n + 1;
    }
    n
}

/// Rotate an extend operand right by 0, 8, 16 or 24 bits.
fn rotate_operand(v: u32, rotation: usize) -> (r: u32)
    ensures
        rotation == 0 ==> r == v,
{
    if rotation == 0 {
        v
    } else {
        let amount: u32 = (rotation % 32) as u32;
        if amount == 0 {
            v
        } else {
            let rotated: (u32, bool) = crate::operation::ror_c(v, amount);
            rotated.0
        }
    }
}

/// Select between the precomputed expansions of a carry-dependent
/// immediate.
fn imm32_carry(imm: &Imm32Carry, carry_in: bool) -> (r: (u32, bool))
    ensures
        r == (match *imm {
            Imm32Carry::NoCarry { imm32 } => (imm32, carry_in),
            Imm32Carry::Carry { imm32_c0, imm32_c1 } => if carry_in {
                (imm32_c1.imm32, imm32_c1.carry)
            } else {
                (imm32_c0.imm32, imm32_c0.carry)
            },
        }),
{
    match *imm {
        Imm32Carry::NoCarry { imm32 } => (imm32, carry_in),
        Imm32Carry::Carry { imm32_c0, imm32_c1 } => if carry_in {
            (imm32_c1.imm32, imm32_c1.carry)
        } else {
            (imm32_c0.imm32, imm32_c0.carry)
        },
    }
}

} // verus!
