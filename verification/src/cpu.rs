//! The processor core state: register file, program status register,
//! mask registers and the retired-instruction counter.

use vstd::prelude::*;

use crate::register::{PSR, Reg};

verus! {

/// The architectural state of the core.
///
/// The register file holds R0-R12, SP (entry 13), LR (14) and PC
/// (15).  Reads of PC through `get_r` return PC + 4, per the ARM ARM
/// Thumb rule; writes of PC clear bit 0 so PC stays halfword aligned.
pub struct Core {
    /// The sixteen core registers, indexed by register number.
    pub regs: Vec<u32>,
    /// The program status register.
    pub psr: PSR,
    /// The PRIMASK exception mask bit.
    pub primask: bool,
    /// The CONTROL register bits.
    pub control: u8,
    /// Retired-instruction counter.
    pub count: u64,
}

impl Core {
    /// The core invariants: sixteen registers, a representable PSR,
    /// a halfword-aligned PC and a word-aligned SP (SP bits 1:0 read
    /// as zero and ignore writes on this profile).
    pub open spec fn wf(self) -> bool {
        self.regs@.len() == 16 && self.psr.wf() && self.regs@[15] % 2 == 0 && self.regs@[13] % 4
            == 0
    }

    /// The value register reads deliver: PC reads as PC + 4.
    pub open spec fn reg_spec(self, r: Reg) -> int {
        if r == Reg::PC {
            (self.regs@[15] + 4) % 0x1_0000_0000
        } else {
            self.regs@[r.num()] as int
        }
    }

    /// The stored PC.
    pub open spec fn pc_spec(self) -> int {
        self.regs@[15] as int
    }

    /// The stored SP.
    pub open spec fn sp_spec(self) -> int {
        self.regs@[13] as int
    }

    /// A fresh core: all registers zero, all flags clear.
    pub fn new() -> (r: Core)
        ensures
            r.wf(),
            r.regs@ == Seq::new(16nat, |i: int| 0u32),
            r.psr == (PSR {
                n: false,
                z: false,
                c: false,
                v: false,
                q: false,
                t: true,
                it: 0u8,
                exception: 0u16,
            }),
            !r.primask,
            r.control == 0,
            r.count == 0,
    {
        let mut regs: Vec<u32> = Vec::new();
        let mut i: usize = 0;
        while i < 16
            invariant
                i <= 16,
                regs@.len() == i,
                forall|j: int| 0 <= j < i ==> regs@[j] == 0u32,
            decreases 16 - i,
        {
            regs.push(0);
            i = i + 1;
        }
        proof {
            assert(regs@ =~= Seq::new(16nat, |i: int| 0u32));
        }
        Core {
            regs,
            psr: PSR {
                n: false,
                z: false,
                c: false,
                v: false,
                q: false,
                t: true,
                it: 0,
                exception: 0,
            },
            primask: false,
            control: 0,
            count: 0,
        }
    }

    /// Read a register; PC reads as PC + 4.
    pub fn get_r(&self, r: Reg) -> (v: u32)
        requires
            self.wf(),
        ensures
            v == self.reg_spec(r),
    {
        let i: usize = r.index();
        if i == 15 {
            self.regs[15].wrapping_add(4)
        } else {
            self.regs[i]
        }
    }

    /// Write a register; a PC write clears bit 0 and an SP write
    /// clears bits 1:0.
    pub fn set_r(&mut self, r: Reg, v: u32) -> (nothing: ())
        requires
            old(self).wf(),
        ensures
            final(self).wf(),
            final(self).regs@ == old(self).regs@.update(
                r.num(),
                if r == Reg::PC {
                    (v - v % 2) as u32
                } else if r == Reg::SP {
                    (v - v % 4) as u32
                } else {
                    v
                },
            ),
            final(self).psr == old(self).psr,
            final(self).primask == old(self).primask,
            final(self).control == old(self).control,
            final(self).count == old(self).count,
    {
        let i: usize = r.index();
        if i == 15 {
            self.regs.set(15, v - v % 2);
        } else if i == 13 {
            self.regs.set(13, v - v % 4);
        } else {
            self.regs.set(i, v);
        }
    }

    /// The stored PC (not the read view).
    pub fn get_pc(&self) -> (v: u32)
        requires
            self.wf(),
        ensures
            v == self.pc_spec(),
            v % 2 == 0,
    {
        self.regs[15]
    }

    /// Branch: set PC, clearing bit 0.
    pub fn set_pc(&mut self, v: u32)
        requires
            old(self).wf(),
        ensures
            final(self).wf(),
            final(self).regs@ == old(self).regs@.update(15, (v - v % 2) as u32),
            final(self).psr == old(self).psr,
            final(self).primask == old(self).primask,
            final(self).control == old(self).control,
            final(self).count == old(self).count,
    {
        self.regs.set(15, v - v % 2);
    }

    /// Update N and Z from a result, C and V from the operator.
    pub fn update_flags_nzcv(&mut self, result: u32, carry: bool, overflow: bool)
        requires
            old(self).wf(),
        ensures
            final(self).wf(),
            final(self).psr == (PSR {
                n: result >= 0x8000_0000,
                z: result == 0,
                c: carry,
                v: overflow,
                ..old(self).psr
            }),
            final(self).regs == old(self).regs,
            final(self).primask == old(self).primask,
            final(self).control == old(self).control,
            final(self).count == old(self).count,
    {
        self.psr.n = result >= 0x8000_0000;
        self.psr.z = result == 0;
        self.psr.c = carry;
        self.psr.v = overflow;
    }

    /// Update N and Z from a result and C from the shifter, leaving V.
    pub fn update_flags_nzc(&mut self, result: u32, carry: bool)
        requires
            old(self).wf(),
        ensures
            final(self).wf(),
            final(self).psr == (PSR {
                n: result >= 0x8000_0000,
                z: result == 0,
                c: carry,
                ..old(self).psr
            }),
            final(self).regs == old(self).regs,
            final(self).primask == old(self).primask,
            final(self).control == old(self).control,
            final(self).count == old(self).count,
    {
        self.psr.n = result >= 0x8000_0000;
        self.psr.z = result == 0;
        self.psr.c = carry;
    }

    /// Update N and Z from a result alone.
    pub fn update_flags_nz(&mut self, result: u32)
        requires
            old(self).wf(),
        ensures
            final(self).wf(),
            final(self).psr == (PSR {
                n: result >= 0x8000_0000,
                z: result == 0,
                ..old(self).psr
            }),
            final(self).regs == old(self).regs,
            final(self).primask == old(self).primask,
            final(self).control == old(self).control,
            final(self).count == old(self).count,
    {
        self.psr.n = result >= 0x8000_0000;
        self.psr.z = result == 0;
    }

    /// The IT state after one instruction retires: the low five bits
    /// shift left; when the mask nibble empties, the block ends.
    pub open spec fn spec_it_advance(it: u8) -> u8 {
        if it % 8 == 0 {
            0u8
        } else {
            (((it / 32) * 32) + ((it % 32) * 2) % 32) as u8
        }
    }

    /// Advance the IT state machine after an instruction retires.
    pub fn it_advance(&mut self)
        requires
            old(self).wf(),
        ensures
            final(self).wf(),
            final(self).psr == (PSR { it: Core::spec_it_advance(old(self).psr.it), ..old(self).psr
            }),
            final(self).regs == old(self).regs,
            final(self).primask == old(self).primask,
            final(self).control == old(self).control,
            final(self).count == old(self).count,
    {
        let it: u8 = self.psr.it;
        if it % 8 == 0 {
            self.psr.it = 0;
        } else {
            self.psr.it = ((it / 32) * 32) + ((it % 32) * 2) % 32;
        }
    }

    /// True while an IT block is active.
    pub fn in_it_block(&self) -> (r: bool)
        ensures
            r == self.psr.in_it_block_spec(),
    {
        self.psr.it % 16 != 0
    }

    /// The condition the active IT block imposes on the current
    /// instruction: the high nibble of the IT state.
    pub fn it_condition(&self) -> (r: u8)
        ensures
            r == self.psr.it / 16,
            r < 16,
    {
        self.psr.it / 16
    }
}

} // verus!
