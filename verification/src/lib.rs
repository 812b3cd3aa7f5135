//! An instruction-set simulator core for the ARM Cortex-M family
//! (ARMv6-M / Cortex-M0).
//!
//! The crate models the processor core (registers, program status
//! register, IT state), a bus fabric (flash, SRAM, internal private
//! bus), a Thumb decoder, a per-instruction executor and the
//! semihosting request marshaling, and drives them from a small run
//! loop: reset, then fetch, decode, execute and count until the
//! guest exits through semihosting, the instruction budget runs out
//! or a fault occurs.

pub mod bus;
pub mod condition;
pub mod cpu;
pub mod decoder;
pub mod executor;
pub mod fault;
pub mod instruction;
pub mod operation;
pub mod register;
pub mod semihosting;
pub mod stack;

use vstd::prelude::*;

use crate::bus::{matrix_read16, matrix_read32, spec_matrix_read16, spec_matrix_read32, Bus};
use crate::condition::{spec_cond_of, Condition};
use crate::cpu::Core;
use crate::executor::{execute, spec_branch_target, ExecOutcome};
use crate::fault::Fault;
use crate::instruction::Instruction;
use crate::operation::{condition_passed, spec_condition_passed};
use crate::register::Reg;
use crate::semihosting::{
    apply_semihost_response, form_semihost_command, SemihostingCommand, SemihostingResponse,
    SysExceptionReason,
};

verus! {

/// The default retired-instruction budget of `run_bin`.
pub const RUN_BUDGET: u64 = 10_000_000;

/// What one turn of the run loop produced.
#[derive(Clone, Debug, PartialEq, Eq)]
pub enum StepEvent {
    /// An instruction retired; a trace sink receives its address and
    /// decoding.
    Retired {
        /// The address the instruction was fetched from.
        pc: u32,
        /// Its decoding.
        instruction: Instruction,
    },
    /// The guest trapped into the semihosting convention; answer the
    /// request through `apply_semihost_response` to resume.
    Semihost {
        /// The address of the `BKPT`.
        pc: u32,
        /// The marshaled request.
        command: SemihostingCommand,
    },
}

/// Why a run ended.
#[derive(Clone, Copy, Debug, PartialEq, Eq)]
pub enum RunExit {
    /// The guest requested `ADP_Stopped_ApplicationExit`.
    ApplicationExit,
    /// The retired-instruction budget was reached.
    BudgetExhausted,
    /// A fault terminated the run.
    Faulted {
        /// The fault that ended the run.
        fault: Fault,
    },
}

/// What a completed run returned.
#[derive(Clone, Debug, PartialEq, Eq)]
pub struct RunResult {
    /// Every byte the guest wrote to the console handle.
    pub output: Vec<u8>,
    /// Retired instructions.
    pub count: u64,
    /// Why the run ended.
    pub exit: RunExit,
}

/// Load the reset vector: SP from word 0 (word aligned, as every SP
/// write is), PC from word 4 with its Thumb bit cleared, and T set.
/// The reset succeeds exactly when both vector words are readable,
/// and a failure reports the first word read that faulted.
pub fn reset<T: Bus, R: Bus>(core: &mut Core, code: &mut T, sram: &mut R) -> (r: Result<(), Fault>)
    requires
        old(core).wf(),
        old(code).wf(),
        old(sram).wf(),
    ensures
        final(core).wf(),
        *final(code) == *old(code),
        *final(sram) == *old(sram),
        final(core).count == old(core).count,
        match r {
            Ok(u) => {
                &&& (spec_matrix_read32(*old(code), *old(sram), 0) matches Ok(sp)
                    && final(core).sp_spec() == sp - sp % 4)
                &&& (spec_matrix_read32(*old(code), *old(sram), 4) matches Ok(pc)
                    && final(core).pc_spec() == pc - pc % 2)
                &&& final(core).psr == (crate::register::PSR { t: true, ..old(core).psr })
                &&& final(core).regs@ == old(core).regs@.update(
                    13,
                    ({
                        let sp = spec_matrix_read32(*old(code), *old(sram), 0)->Ok_0;
                        (sp - sp % 4) as u32
                    }),
                ).update(
                    15,
                    ({
                        let pc = spec_matrix_read32(*old(code), *old(sram), 4)->Ok_0;
                        (pc - pc % 2) as u32
                    }),
                )
            },
            Err(f) => {
                &&& *final(core) == *old(core)
                &&& (spec_matrix_read32(*old(code), *old(sram), 0) == Err::<u32, Fault>(f) || (
                spec_matrix_read32(*old(code), *old(sram), 0) matches Ok(sp) && spec_matrix_read32(
                    *old(code),
                    *old(sram),
                    4,
                ) == Err::<u32, Fault>(f)))
            },
        },
        (spec_matrix_read32(*old(code), *old(sram), 0) matches Ok(sp) && spec_matrix_read32(
            *old(code),
            *old(sram),
            4,
        ) matches Ok(pc)) ==> r matches Ok(u),
{
    let sp: u32 = match matrix_read32(code, sram, 0) {
        Ok(v) => v,
        Err(f) => {
            return Err(f);
        },
    };
    let pc: u32 = match matrix_read32(code, sram, 4) {
        Ok(v) => v,
        Err(f) => {
            return Err(f);
        },
    };
    core.set_r(Reg::SP, sp);
    core.set_pc(pc);
    core.psr.t = true;
    Ok(())
}

/// What the instruction fetch at `pc` yields: the halfword there,
/// a second halfword when the first opens a 32-bit encoding, and the
/// decoding with its size — or the fault of the failing read.
pub open spec fn spec_fetch<T: Bus, R: Bus>(code: T, sram: R, pc: u32) -> Result<
    (Instruction, u32),
    Fault,
> {
    match spec_matrix_read16(code, sram, pc) {
        Err(f) => Err(f),
        Ok(hw1) => if hw1 >= 0xE800 {
            match spec_matrix_read16(code, sram, ((pc + 2) % 0x1_0000_0000) as u32) {
                Err(f) => Err(f),
                Ok(hw2) => Ok((crate::decoder::spec_decode_32(hw1, hw2), 4u32)),
            }
        } else {
            Ok((crate::decoder::spec_decode_16(hw1), 2u32))
        },
    }
}

/// The PC after a plain advance by the decoded size.
pub open spec fn spec_advanced_pc(pc: int, size: int) -> u32 {
    let t = (pc + size) % 0x1_0000_0000;
    (t - t % 2) as u32
}

/// One turn of the run loop: fetch the halfword at PC, decode a 16-
/// or 32-bit instruction, apply the IT condition, execute, advance PC
/// and the IT state, and count the retirement.  A `BKPT 0xAB`
/// surfaces as a `Semihost` event instead of retiring here.
#[verifier::rlimit(100)]
#[verifier::spinoff_prover]
pub fn step<T: Bus, R: Bus>(core: &mut Core, code: &mut T, sram: &mut R) -> (r: Result<
    StepEvent,
    Fault,
>)
    requires
        old(core).wf(),
        old(code).wf(),
        old(sram).wf(),
        !old(code).writable_spec(),
        old(core).count < 0xFFFF_FFFF_FFFF_FFFF,
    ensures
        final(core).wf(),
        *final(code) == *old(code),
        final(sram).wf(),
        final(sram).base_spec() == old(sram).base_spec(),
        final(sram).len_spec() == old(sram).len_spec(),
        final(sram).readable_spec() == old(sram).readable_spec(),
        final(sram).writable_spec() == old(sram).writable_spec(),
        match r {
            Ok(StepEvent::Retired { pc, instruction }) => final(core).count == old(core).count + 1,
            Ok(StepEvent::Semihost { pc, command }) => final(core).count == old(core).count,
            Err(f) => final(core).count == old(core).count,
        },
        ({
            let fetched = spec_fetch(*old(code), *old(sram), old(core).regs@[15] as u32);
            &&& (fetched matches Err(ff) ==> r == Err::<StepEvent, Fault>(ff))
            &&& (r matches Ok(ev) ==> (fetched matches Ok(pair) && (match ev {
                StepEvent::Retired { pc, instruction } => pc == old(core).regs@[15] as u32
                    && instruction == pair.0,
                StepEvent::Semihost { pc, command } => pc == old(core).regs@[15] as u32,
            })))
        }),
        ({
            // A failed IT-block condition consumes the instruction:
            // PC and the IT state advance, nothing else changes.
            let pc0 = old(core).regs@[15] as int;
            let fetched = spec_fetch(*old(code), *old(sram), old(core).regs@[15] as u32);
            (old(core).psr.in_it_block_spec() && old(core).psr.it / 16 < 15
                && !spec_condition_passed(spec_cond_of(old(core).psr.it as int / 16), old(core).psr))
                ==> (fetched matches Ok(pair) ==> (r == Ok::<StepEvent, Fault>(
                StepEvent::Retired { pc: pc0 as u32, instruction: pair.0 },
            ) && *final(sram) == *old(sram) && final(core).regs@ == old(core).regs@.update(
                15,
                spec_advanced_pc(pc0, pair.1 as int),
            ) && final(core).psr == (crate::register::PSR {
                it: Core::spec_it_advance(old(core).psr.it),
                ..old(core).psr
            })))
        }),
        ({
            // Outside an IT block, a conditional branch retires with
            // PC at the branch target or advanced by the size, and a
            // hint advances PC by its size; flags and memory stay.
            let pc0 = old(core).regs@[15] as int;
            let fetched = spec_fetch(*old(code), *old(sram), old(core).regs@[15] as u32);
            old(core).psr.it == 0 ==> (fetched matches Ok(pair) ==> match pair.0 {
                Instruction::B_t13 { cond, imm32, .. } => {
                    let passed = spec_condition_passed(cond, old(core).psr);
                    r == Ok::<StepEvent, Fault>(
                        StepEvent::Retired { pc: pc0 as u32, instruction: pair.0 },
                    ) && *final(sram) == *old(sram) && final(core).psr == old(core).psr
                        && final(core).regs@ == (if passed {
                        old(core).regs@.update(15, spec_branch_target(pc0, imm32 as int))
                    } else {
                        old(core).regs@.update(15, spec_advanced_pc(pc0, pair.1 as int))
                    })
                },
                Instruction::NOP { .. } => r == Ok::<StepEvent, Fault>(
                    StepEvent::Retired { pc: pc0 as u32, instruction: pair.0 },
                ) && *final(sram) == *old(sram) && final(core).psr == old(core).psr
                    && final(core).regs@ == old(core).regs@.update(
                    15,
                    spec_advanced_pc(pc0, pair.1 as int),
                ),
                _ => true,
            })
        }),
{
    let pc: u32 = core.get_pc();
    let hw1: u16 = match matrix_read16(code, sram, pc) {
        Ok(v) => v,
        Err(f) => {
            return Err(f);
        },
    };
    let (instruction, size) = if crate::decoder::is_thumb32(hw1) {
        let hw2: u16 = match matrix_read16(code, sram, pc.wrapping_add(2)) {
            Ok(v) => v,
            Err(f) => {
                return Err(f);
            },
        };
        (crate::decoder::decode_32(hw1, hw2), 4u32)
    } else {
        (crate::decoder::decode_16(hw1), 2u32)
    };
    // While an IT block is active its condition gates every
    // instruction; a failed condition consumes the instruction with
    // no effect beyond the PC and IT-state advance.
    let gated: bool = if core.in_it_block() {
        let cond_bits: u16 = core.it_condition() as u16;
        match Condition::from_u16(cond_bits) {
            Some(cond) => !condition_passed(cond, &core.psr),
            None => false,
        }
    } else {
        false
    };
    if gated {
        core.set_pc(pc.wrapping_add(size));
        core.it_advance();
        core.count = core.count + 1;
        return Ok(StepEvent::Retired { pc, instruction });
    }
    match execute(core, code, sram, &instruction) {
        Ok(ExecOutcome::Advance) => {
            let pc_now: u32 = core.get_pc();
            core.set_pc(pc_now.wrapping_add(size));
        },
        Ok(ExecOutcome::Branched) => {},
        Ok(ExecOutcome::Semihost) => {
            match form_semihost_command(core, code, sram) {
                Ok(command) => {
                    return Ok(StepEvent::Semihost { pc, command });
                },
                Err(f) => {
                    return Err(f);
                },
            }
        },
        Err(f) => {
            return Err(f);
        },
    }
    if !(matches!(instruction, Instruction::IT { .. })) {
        core.it_advance();
    }
    core.count = core.count + 1;
    Ok(StepEvent::Retired { pc, instruction })
}

/// The built-in semihosting host of `run_bin`: streams open onto
/// handle 1, console writes are collected, the clock reads zero, and
/// an application-exit report stops the run.
fn answer_semihost(command: &SemihostingCommand, output: &mut Vec<u8>) -> (r: SemihostingResponse)
    ensures
        match r {
            SemihostingResponse::SysException { success, stop } => match *command {
                SemihostingCommand::SysException { reason } => stop <==> reason
                    == SysExceptionReason::ADPStoppedApplicationExit,
                _ => false,
            },
            _ => true,
        },
{
    match command {
        SemihostingCommand::SysOpen { .. } => SemihostingResponse::SysOpen { result: Ok(1) },
        SemihostingCommand::SysClose { .. } => SemihostingResponse::SysClose { success: true },
        SemihostingCommand::SysWrite { handle, data } => {
            if *handle == 1 {
                let mut i: usize = 0;
                while i < data.len()
                    invariant
                        i <= data@.len(),
                    decreases data@.len() - i,
                {
                    output.push(data[i]);
                    i = i + 1;
                }
            }
            SemihostingResponse::SysWrite { result: Ok(0) }
        },
        SemihostingCommand::SysClock => SemihostingResponse::SysClock { result: Ok(0) },
        SemihostingCommand::SysException { reason } => {
            let stop: bool = matches!(reason, SysExceptionReason::ADPStoppedApplicationExit);
            SemihostingResponse::SysException { success: true, stop }
        },
    }
}

/// Boot and run a guest image: reset from the vector table at
/// address 0, then fetch, decode and execute until the guest exits
/// through semihosting, a fault occurs or the instruction budget is
/// spent.  Console output (semihosting handle 1) is collected and
/// returned with the retired-instruction count.
#[verifier::rlimit(100)]
#[verifier::spinoff_prover]
pub fn run_bin<T: Bus, R: Bus>(code: &mut T, sram: &mut R) -> (r: RunResult)
    requires
        old(code).wf(),
        old(sram).wf(),
        !old(code).writable_spec(),
    ensures
        *final(code) == *old(code),
        final(sram).wf(),
        r.count <= RUN_BUDGET,
        r.exit == RunExit::BudgetExhausted ==> r.count == RUN_BUDGET,
        r.exit == RunExit::ApplicationExit ==> 1 <= r.count,
        // A fault while loading the reset vector ends the run at once
        // with that fault and no output.
        spec_matrix_read32(*old(code), *old(sram), 0) matches Err(f) ==> (r.exit == (
        RunExit::Faulted { fault: f }) && r.count == 0 && r.output@ == Seq::<u8>::empty()),
        spec_matrix_read32(*old(code), *old(sram), 0) matches Ok(w0) ==> (spec_matrix_read32(
            *old(code),
            *old(sram),
            4,
        ) matches Err(f) ==> (r.exit == (RunExit::Faulted { fault: f }) && r.count == 0
            && r.output@ == Seq::<u8>::empty())),
        // So does a fault on the very first instruction fetch.
        spec_matrix_read32(*old(code), *old(sram), 0) matches Ok(w0) ==> (spec_matrix_read32(
            *old(code),
            *old(sram),
            4,
        ) matches Ok(w4) ==> (spec_fetch(*old(code), *old(sram), (w4 - w4 % 2) as u32)
            matches Err(ff) ==> (r.exit == (RunExit::Faulted { fault: ff }) && r.count == 0
            && r.output@ == Seq::<u8>::empty()))),
{
    let mut core: Core = Core::new();
    let mut output: Vec<u8> = Vec::new();
    match reset(&mut core, code, sram) {
        Ok(u) => {},
        Err(fault) => {
            return RunResult { output, count: 0, exit: RunExit::Faulted { fault } };
        },
    }
    // The first turn runs outside the loop so a fault on the very
    // first fetch is pinned against the freshly reset machine.
    match step(&mut core, code, sram) {
        Ok(StepEvent::Retired { .. }) => {},
        Ok(StepEvent::Semihost { command, .. }) => {
            let response: SemihostingResponse = answer_semihost(&command, &mut output);
            let stop: bool = apply_semihost_response(&mut core, &response);
            if stop {
                return RunResult { output, count: core.count, exit: RunExit::ApplicationExit };
            }
        },
        Err(fault) => {
            return RunResult { output, count: core.count, exit: RunExit::Faulted { fault } };
        },
    }
    loop
        invariant
            core.wf(),
            code.wf(),
            sram.wf(),
            !code.writable_spec(),
            *code == *old(code),
            1 <= core.count <= RUN_BUDGET,
            // The run only loops once the reset vector loaded and the
            // first fetch decoded.
            spec_matrix_read32(*old(code), *old(sram), 0) matches Ok(w0),
            spec_matrix_read32(*old(code), *old(sram), 4) matches Ok(w4)
                && spec_fetch(*old(code), *old(sram), (w4 - w4 % 2) as u32) matches Ok(pair0),
        decreases RUN_BUDGET - core.count,
    {
        if core.count >= RUN_BUDGET {
            return RunResult { output, count: core.count, exit: RunExit::BudgetExhausted };
        }
        match step(&mut core, code, sram) {
            Ok(StepEvent::Retired { .. }) => {},
            Ok(StepEvent::Semihost { command, .. }) => {
                let response: SemihostingResponse = answer_semihost(&command, &mut output);
                let stop: bool = apply_semihost_response(&mut core, &response);
                if stop {
                    return RunResult { output, count: core.count, exit: RunExit::ApplicationExit };
                }
            },
            Err(fault) => {
                return RunResult { output, count: core.count, exit: RunExit::Faulted { fault } };
            },
        }
    }
}

} // verus!
