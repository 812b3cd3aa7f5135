//! The run-halting fault kinds.

use vstd::prelude::*;

verus! {

/// A condition that halts the run: faults propagate out of the
/// executor to the run loop, which reports them and terminates.
#[derive(Clone, Copy, Debug, PartialEq, Eq, Structural)]
pub enum Fault {
    /// An unmapped or misaligned bus access of the given width.
    BusFault {
        /// The faulting address.
        addr: u32,
        /// Access width in bytes: 1, 2 or 4.
        width: u8,
        /// True for a store, false for a load.
        write: bool,
    },
    /// A `UDF` (or undecodable, conservatively undefined) encoding
    /// was executed.
    UndefinedInstruction {
        /// The raw instruction bits.
        opcode: u32,
        /// The address of the instruction.
        pc: u32,
    },
    /// A `BKPT` outside the semihosting convention.
    UnhandledBkpt {
        /// The breakpoint's immediate.
        imm32: u32,
        /// The address of the instruction.
        pc: u32,
    },
    /// An `SVC` trap, which this profile does not service.
    UnhandledSvc {
        /// The call's immediate.
        imm32: u32,
        /// The address of the instruction.
        pc: u32,
    },
    /// The host's semihosting callback reported failure.
    SemihostingCallFailed {
        /// The address of the `BKPT` instruction.
        pc: u32,
    },
}

} // verus!
