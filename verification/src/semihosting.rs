//! Semihosting: the `BKPT 0xAB` trap convention.
//!
//! The call number sits in R0 and the parameter block pointer in R1;
//! the executor forms a typed request, the host answers with a typed
//! response, and the numeric result lands back in R0.

use vstd::prelude::*;

use crate::bus::{matrix_read32, matrix_read8, Bus};
use crate::cpu::Core;
use crate::fault::Fault;
use crate::register::{PSR, Reg};

verus! {

/// The reason code of a `SysException` request.
#[derive(Clone, Copy, Debug, PartialEq, Eq, Structural)]
pub enum SysExceptionReason {
    /// `ADP_Stopped_ApplicationExit`: the guest asks to stop.
    ADPStoppedApplicationExit,
    /// Any other reason code.
    Other {
        /// The raw reason word.
        reason: u32,
    },
}

/// A semihosting request, marshaled from guest memory.
#[derive(Clone, Debug, PartialEq, Eq)]
pub enum SemihostingCommand {
    /// `SYS_OPEN` (0x01): open a host stream.
    SysOpen {
        /// The file name bytes the guest named.
        name: Vec<u8>,
        /// The open mode.
        mode: u32,
    },
    /// `SYS_CLOSE` (0x02).
    SysClose {
        /// The handle to close.
        handle: u32,
    },
    /// `SYS_WRITE` (0x05): write bytes to a handle.
    SysWrite {
        /// The destination handle.
        handle: u32,
        /// The bytes read out of guest memory.
        data: Vec<u8>,
    },
    /// `SYS_CLOCK` (0x10): centiseconds since start.
    SysClock,
    /// `SYS_EXCEPTION` (0x18).
    SysException {
        /// The reported reason.
        reason: SysExceptionReason,
    },
}

/// The host's answer to a semihosting request.
#[derive(Clone, Copy, Debug, PartialEq, Eq)]
pub enum SemihostingResponse {
    /// Answer to `SYS_OPEN`: a handle, or an error code.
    SysOpen {
        /// The handle on success.
        result: Result<u32, u32>,
    },
    /// Answer to `SYS_CLOSE`.
    SysClose {
        /// Whether the close succeeded.
        success: bool,
    },
    /// Answer to `SYS_WRITE`: 0, or the number of bytes NOT written.
    SysWrite {
        /// Bytes not written on success.
        result: Result<u32, u32>,
    },
    /// Answer to `SYS_CLOCK`.
    SysClock {
        /// Centiseconds since start.
        result: Result<u32, u32>,
    },
    /// Answer to `SYS_EXCEPTION`.
    SysException {
        /// Whether the host accepted the report.
        success: bool,
        /// Whether the run should stop.
        stop: bool,
    },
}

/// The bytes of guest memory at `ptr .. ptr+len` (wrapping), or the
/// fault of the first byte read that fails.
pub open spec fn spec_read_bytes<T: Bus, R: Bus>(code: T, sram: R, ptr: u32, len: nat) -> Result<
    Seq<u8>,
    Fault,
>
    decreases len,
{
    if len == 0 {
        Ok(Seq::empty())
    } else {
        match crate::bus::spec_matrix_read8(code, sram, ptr) {
            Err(f) => Err(f),
            Ok(b) => match spec_read_bytes(
                code,
                sram,
                ((ptr + 1) % 0x1_0000_0000) as u32,
                (len - 1) as nat,
            ) {
                Err(f) => Err(f),
                Ok(rest) => Ok(seq![b] + rest),
            },
        }
    }
}

/// Read `len` bytes of guest memory starting at `ptr`: exactly
/// `spec_read_bytes`.
fn read_block<T: Bus, R: Bus>(code: &mut T, sram: &mut R, ptr: u32, len: u32) -> (r: Result<
    Vec<u8>,
    Fault,
>)
    requires
        old(code).wf(),
        old(sram).wf(),
    ensures
        *final(code) == *old(code),
        *final(sram) == *old(sram),
        match r {
            Ok(data) => data@.len() == len && spec_read_bytes(
                *old(code),
                *old(sram),
                ptr,
                len as nat,
            ) == Ok::<Seq<u8>, Fault>(data@),
            Err(f) => spec_read_bytes(*old(code), *old(sram), ptr, len as nat) == Err::<
                Seq<u8>,
                Fault,
            >(f),
        },
{
    let mut data: Vec<u8> = Vec::new();
    let mut i: u32 = 0;
    while i < len
        invariant
            code.wf(),
            sram.wf(),
            *code == *old(code),
            *sram == *old(sram),
            i <= len,
            data@.len() == i,
            spec_read_bytes(*old(code), *old(sram), ptr, len as nat) == (match spec_read_bytes(
                *old(code),
                *old(sram),
                ((ptr + i) % 0x1_0000_0000) as u32,
                (len - i) as nat,
            ) {
                Ok(rest) => Ok::<Seq<u8>, Fault>(data@ + rest),
                Err(f) => Err::<Seq<u8>, Fault>(f),
            }),
        decreases len - i,
    {
        let addr: u32 = ptr.wrapping_add(i);
        proof {
            vstd::arithmetic::div_mod::lemma_add_mod_noop(
                ptr as int + i as int,
                1,
                0x1_0000_0000,
            );
            vstd::arithmetic::div_mod::lemma_small_mod(1nat, 0x1_0000_0000);
        }
        match matrix_read8(code, sram, addr) {
            Ok(b) => {
                proof {
                    let tail = spec_read_bytes(
                        *old(code),
                        *old(sram),
                        ((ptr + i + 1) % 0x1_0000_0000) as u32,
                        (len - i - 1) as nat,
                    );
                    match tail {
                        Ok(rest) => {
                            assert(data@.push(b) + rest =~= data@ + (seq![b] + rest));
                        },
                        Err(f) => {},
                    }
                }
                data.push(b);
            },
            Err(f) => {
                return Err(f);
            },
        }
        i = i + 1;
    }
    proof {
        assert(data@ + Seq::<u8>::empty() =~= data@);
    }
    Ok(data)
}

/// Recognise the canonical `BKPT 0xAB` pattern and marshal the
/// request named by R0 with the parameter block at R1.  A call number
/// outside the serviced set is an unhandled breakpoint.
#[verifier::rlimit(100)]
#[verifier::spinoff_prover]
pub fn form_semihost_command<T: Bus, R: Bus>(core: &Core, code: &mut T, sram: &mut R) -> (r: Result<
    SemihostingCommand,
    Fault,
>)
    requires
        core.wf(),
        old(code).wf(),
        old(sram).wf(),
    ensures
        *final(code) == *old(code),
        *final(sram) == *old(sram),
        core.regs@[0] == 0x10 ==> r == Ok::<SemihostingCommand, Fault>(
            SemihostingCommand::SysClock,
        ),
        core.regs@[0] == 0x18 ==> r == Ok::<SemihostingCommand, Fault>(
            SemihostingCommand::SysException {
                reason: if core.regs@[1] == 0x20026 {
                    SysExceptionReason::ADPStoppedApplicationExit
                } else {
                    SysExceptionReason::Other { reason: core.regs@[1] }
                },
            },
        ),
        core.regs@[0] == 0x02 ==> r == (match crate::bus::spec_matrix_read32(
            *old(code),
            *old(sram),
            core.regs@[1] as u32,
        ) {
            Ok(handle) => Ok::<SemihostingCommand, Fault>(
                SemihostingCommand::SysClose { handle },
            ),
            Err(f) => Err::<SemihostingCommand, Fault>(f),
        }),
        !(core.regs@[0] == 0x01 || core.regs@[0] == 0x02 || core.regs@[0] == 0x05 || core.regs@[0]
            == 0x10 || core.regs@[0] == 0x18) ==> r == Err::<SemihostingCommand, Fault>(
            Fault::UnhandledBkpt { imm32: 0xAB, pc: core.regs@[15] as u32 },
        ),
        core.regs@[0] == 0x05 ==> (crate::bus::spec_matrix_read32(
            *old(code),
            *old(sram),
            core.regs@[1] as u32,
        ) matches Ok(handle) ==> (crate::bus::spec_matrix_read32(
            *old(code),
            *old(sram),
            ((core.regs@[1] + 4) % 0x1_0000_0000) as u32,
        ) matches Ok(ptr) ==> (crate::bus::spec_matrix_read32(
            *old(code),
            *old(sram),
            ((core.regs@[1] + 8) % 0x1_0000_0000) as u32,
        ) matches Ok(len) ==> (match spec_read_bytes(*old(code), *old(sram), ptr, len as nat) {
            Ok(bytes) => r matches Ok(cmd) && (cmd matches SemihostingCommand::SysWrite {
                handle: h,
                data,
            } && h == handle && data@ == bytes),
            Err(f) => r == Err::<SemihostingCommand, Fault>(f),
        })))),
        core.regs@[0] == 0x01 ==> (crate::bus::spec_matrix_read32(
            *old(code),
            *old(sram),
            core.regs@[1] as u32,
        ) matches Ok(name_ptr) ==> (crate::bus::spec_matrix_read32(
            *old(code),
            *old(sram),
            ((core.regs@[1] + 4) % 0x1_0000_0000) as u32,
        ) matches Ok(mode) ==> (crate::bus::spec_matrix_read32(
            *old(code),
            *old(sram),
            ((core.regs@[1] + 8) % 0x1_0000_0000) as u32,
        ) matches Ok(len) ==> (match spec_read_bytes(*old(code), *old(sram), name_ptr, len as nat) {
            Ok(bytes) => r matches Ok(cmd) && (cmd matches SemihostingCommand::SysOpen {
                name,
                mode: m,
            } && m == mode && name@ == bytes),
            Err(f) => r == Err::<SemihostingCommand, Fault>(f),
        })))),
        (core.regs@[0] == 0x01 || core.regs@[0] == 0x02 || core.regs@[0] == 0x05)
            ==> (crate::bus::spec_matrix_read32(*old(code), *old(sram), core.regs@[1] as u32)
            matches Err(f) ==> r == Err::<SemihostingCommand, Fault>(f)),
{
    let callno: u32 = core.get_r(Reg::R0);
    let param: u32 = core.get_r(Reg::R1);
    if callno == 0x01 {
        let name_ptr: u32 = match matrix_read32(code, sram, param) {
            Ok(v) => v,
            Err(f) => {
                return Err(f);
            },
        };
        let mode: u32 = match matrix_read32(code, sram, param.wrapping_add(4)) {
            Ok(v) => v,
            Err(f) => {
                return Err(f);
            },
        };
        let len: u32 = match matrix_read32(code, sram, param.wrapping_add(8)) {
            Ok(v) => v,
            Err(f) => {
                return Err(f);
            },
        };
        match read_block(code, sram, name_ptr, len) {
            Ok(name) => Ok(SemihostingCommand::SysOpen { name, mode }),
            Err(f) => Err(f),
        }
    } else if callno == 0x02 {
        match matrix_read32(code, sram, param) {
            Ok(handle) => Ok(SemihostingCommand::SysClose { handle }),
            Err(f) => Err(f),
        }
    } else if callno == 0x05 {
        let handle: u32 = match matrix_read32(code, sram, param) {
            Ok(v) => v,
            Err(f) => {
                return Err(f);
            },
        };
        let ptr: u32 = match matrix_read32(code, sram, param.wrapping_add(4)) {
            Ok(v) => v,
            Err(f) => {
                return Err(f);
            },
        };
        let len: u32 = match matrix_read32(code, sram, param.wrapping_add(8)) {
            Ok(v) => v,
            Err(f) => {
                return Err(f);
            },
        };
        match read_block(code, sram, ptr, len) {
            Ok(data) => Ok(SemihostingCommand::SysWrite { handle, data }),
            Err(f) => Err(f),
        }
    } else if callno == 0x10 {
        Ok(SemihostingCommand::SysClock)
    } else if callno == 0x18 {
        if param == 0x20026 {
            Ok(
                SemihostingCommand::SysException {
                    reason: SysExceptionReason::ADPStoppedApplicationExit,
                },
            )
        } else {
            Ok(SemihostingCommand::SysException { reason: SysExceptionReason::Other { reason: param } })
        }
    } else {
        let pc: u32 = core.get_pc();
        Err(Fault::UnhandledBkpt { imm32: 0xAB, pc })
    }
}

/// Commit a semihosting response: write the numeric result into R0,
/// step PC past the `BKPT`, advance the IT state and count the
/// instruction as retired.  The result says whether the host asked
/// the run to stop.
pub fn apply_semihost_response(core: &mut Core, response: &SemihostingResponse) -> (stop: bool)
    requires
        old(core).wf(),
        old(core).count < 0xFFFF_FFFF_FFFF_FFFF,
    ensures
        final(core).wf(),
        final(core).count == old(core).count + 1,
        final(core).psr == (PSR { it: Core::spec_it_advance(old(core).psr.it), ..old(core).psr }),
        ({
            let r0 = (match *response {
                SemihostingResponse::SysOpen { result } => match result {
                    Ok(handle) => handle,
                    Err(e) => 0xFFFF_FFFFu32,
                },
                SemihostingResponse::SysClose { success } => if success {
                    0u32
                } else {
                    0xFFFF_FFFFu32
                },
                SemihostingResponse::SysWrite { result } => match result {
                    Ok(not_written) => not_written,
                    Err(e) => e,
                },
                SemihostingResponse::SysClock { result } => match result {
                    Ok(cs) => cs,
                    Err(e) => 0xFFFF_FFFFu32,
                },
                SemihostingResponse::SysException { .. } => old(core).regs@[0],
            });
            let pc_after = ((old(core).regs@[15] + 2) % 0x1_0000_0000) as u32;
            final(core).regs@ == old(core).regs@.update(0, r0).update(15, pc_after)
        }),
        stop == (match *response {
            SemihostingResponse::SysException { success, stop: s } => s,
            _ => false,
        }),
{
    let result: Option<u32> = match *response {
        SemihostingResponse::SysOpen { result } => match result {
            Ok(handle) => Some(handle),
            Err(e) => Some(0xFFFF_FFFF),
        },
        SemihostingResponse::SysClose { success } => Some(
            if success {
                0
            } else {
                0xFFFF_FFFF
            },
        ),
        SemihostingResponse::SysWrite { result } => match result {
            Ok(not_written) => Some(not_written),
            Err(e) => Some(e),
        },
        SemihostingResponse::SysClock { result } => match result {
            Ok(cs) => Some(cs),
            Err(e) => Some(0xFFFF_FFFF),
        },
        SemihostingResponse::SysException { .. } => None,
    };
    match result {
        Some(value) => core.set_r(Reg::R0, value),
        None => {},
    }
    let pc: u32 = core.get_pc();
    core.set_pc(pc.wrapping_add(2));
    core.it_advance();
    core.count = core.count + 1;
    match *response {
        SemihostingResponse::SysException { success, stop } => stop,
        _ => false,
    }
}

} // verus!
