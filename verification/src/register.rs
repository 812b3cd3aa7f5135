//! The ARM core register identifiers and the program status register.
//!
//! The PSR is modeled with one field per architecturally defined bit
//! group (N, Z, C, V, Q, T, the IT state and the exception number);
//! the 32-bit architectural word is composed on demand, so the
//! reserved bits of that word are zero by construction.

use vstd::prelude::*;

verus! {

/// The sixteen ARM core registers: R0-R12, SP (R13), LR (R14), PC (R15).
#[derive(Clone, Copy, Debug, PartialEq, Eq, Structural)]
pub enum Reg {
    R0,
    R1,
    R2,
    R3,
    R4,
    R5,
    R6,
    R7,
    R8,
    R9,
    R10,
    R11,
    R12,
    SP,
    LR,
    PC,
}

/// The extension (floating-point) registers, carried only as names
/// inside decoded instructions; the simulator stores no data for them.
#[derive(Clone, Copy, Debug, PartialEq, Eq, Structural)]
pub enum ExtensionReg {
    /// A single-precision register S0-S31.
    Single { reg: u8 },
    /// A double-precision register D0-D15.
    Double { reg: u8 },
}

/// The register with the given architectural number (0 through 15;
/// other values name R0, which callers rule out).
pub open spec fn spec_reg_of(n: int) -> Reg {
    if n == 1 {
        Reg::R1
    } else if n == 2 {
        Reg::R2
    } else if n == 3 {
        Reg::R3
    } else if n == 4 {
        Reg::R4
    } else if n == 5 {
        Reg::R5
    } else if n == 6 {
        Reg::R6
    } else if n == 7 {
        Reg::R7
    } else if n == 8 {
        Reg::R8
    } else if n == 9 {
        Reg::R9
    } else if n == 10 {
        Reg::R10
    } else if n == 11 {
        Reg::R11
    } else if n == 12 {
        Reg::R12
    } else if n == 13 {
        Reg::SP
    } else if n == 14 {
        Reg::LR
    } else if n == 15 {
        Reg::PC
    } else {
        Reg::R0
    }
}

impl Reg {
    /// The architectural register number, 0 through 15.
    pub open spec fn num(self) -> int {
        match self {
            Reg::R0 => 0,
            Reg::R1 => 1,
            Reg::R2 => 2,
            Reg::R3 => 3,
            Reg::R4 => 4,
            Reg::R5 => 5,
            Reg::R6 => 6,
            Reg::R7 => 7,
            Reg::R8 => 8,
            Reg::R9 => 9,
            Reg::R10 => 10,
            Reg::R11 => 11,
            Reg::R12 => 12,
            Reg::SP => 13,
            Reg::LR => 14,
            Reg::PC => 15,
        }
    }

    /// The register number as an index into the register file.
    pub fn index(self) -> (r: usize)
        ensures
            r == self.num(),
            r < 16,
    {
        match self {
            Reg::R0 => 0,
            Reg::R1 => 1,
            Reg::R2 => 2,
            Reg::R3 => 3,
            Reg::R4 => 4,
            Reg::R5 => 5,
            Reg::R6 => 6,
            Reg::R7 => 7,
            Reg::R8 => 8,
            Reg::R9 => 9,
            Reg::R10 => 10,
            Reg::R11 => 11,
            Reg::R12 => 12,
            Reg::SP => 13,
            Reg::LR => 14,
            Reg::PC => 15,
        }
    }

    /// The register named by a field of an encoding; defined for
    /// values 0 through 15.
    pub fn from_u16(value: u16) -> (r: Option<Reg>)
        ensures
            match r {
                Some(reg) => value < 16 && reg.num() == value,
                None => value >= 16,
            },
    {
        match value {
            0u16 => Some(Reg::R0),
            1u16 => Some(Reg::R1),
            2u16 => Some(Reg::R2),
            3u16 => Some(Reg::R3),
            4u16 => Some(Reg::R4),
            5u16 => Some(Reg::R5),
            6u16 => Some(Reg::R6),
            7u16 => Some(Reg::R7),
            8u16 => Some(Reg::R8),
            9u16 => Some(Reg::R9),
            10u16 => Some(Reg::R10),
            11u16 => Some(Reg::R11),
            12u16 => Some(Reg::R12),
            13u16 => Some(Reg::SP),
            14u16 => Some(Reg::LR),
            15u16 => Some(Reg::PC),
            _ => None,
        }
    }

    /// The register named by a 3- or 4-bit encoding field.
    pub fn from_bits(value: u16) -> (r: Reg)
        requires
            value < 16,
        ensures
            r.num() == value,
            r == spec_reg_of(value as int),
    {
        match Reg::from_u16(value) {
            Some(reg) => reg,
            None => Reg::R0,
        }
    }
}

/// The program status register, one field per defined bit group.
///
/// In the architectural 32-bit word, N is bit 31, Z bit 30, C bit 29,
/// V bit 28, Q bit 27, the IT state sits in bits 26:25 and 15:10, T is
/// bit 24 and the exception number occupies bits 8:0.  All other bits
/// are reserved and read as zero.
#[derive(Clone, Copy, Debug, PartialEq, Eq, Structural)]
pub struct PSR {
    /// Negative flag (bit 31).
    pub n: bool,
    /// Zero flag (bit 30).
    pub z: bool,
    /// Carry flag (bit 29).
    pub c: bool,
    /// Overflow flag (bit 28).
    pub v: bool,
    /// Saturation flag (bit 27).
    pub q: bool,
    /// Thumb state bit (bit 24); always set on this profile.
    pub t: bool,
    /// IT state, `firstcond:4 mask:4`, split across bits 26:25 and
    /// 15:10 of the architectural word.
    pub it: u8,
    /// Exception number of the IPSR view (bits 8:0).
    pub exception: u16,
}

impl PSR {
    /// The representable values: a 9-bit exception number and an IT
    /// state that is either empty or carries a live mask nibble.
    pub open spec fn wf(self) -> bool {
        self.exception < 512 && (self.it == 0 || self.it % 16 != 0)
    }

    /// True while an IT block is active.
    pub open spec fn in_it_block_spec(self) -> bool {
        self.it % 16 != 0
    }

    pub fn get_n(&self) -> (r: bool)
        ensures
            r == self.n,
    {
        self.n
    }

    pub fn get_z(&self) -> (r: bool)
        ensures
            r == self.z,
    {
        self.z
    }

    pub fn get_c(&self) -> (r: bool)
        ensures
            r == self.c,
    {
        self.c
    }

    pub fn get_v(&self) -> (r: bool)
        ensures
            r == self.v,
    {
        self.v
    }

    pub fn get_q(&self) -> (r: bool)
        ensures
            r == self.q,
    {
        self.q
    }

    pub fn in_it_block(&self) -> (r: bool)
        ensures
            r == self.in_it_block_spec(),
    {
        self.it % 16 != 0
    }

    /// The architectural 32-bit PSR word.
    pub open spec fn value_spec(self) -> int {
        (if self.n { 0x8000_0000int } else { 0 }) + (if self.z { 0x4000_0000int } else { 0 })
            + (if self.c { 0x2000_0000int } else { 0 }) + (if self.v { 0x1000_0000int } else { 0 })
            + (if self.q { 0x0800_0000int } else { 0 }) + (self.it % 4) * 0x0200_0000 + (if self.t {
            0x0100_0000int
        } else {
            0
        }) + (self.it / 4) * 0x400 + self.exception
    }

    /// Compose the architectural word from the fields.
    pub fn value(&self) -> (r: u32)
        requires
            self.wf(),
        ensures
            r == self.value_spec(),
    {
        let nzcvq: u32 = (if self.n { 0x8000_0000u32 } else { 0 }) + (if self.z {
            0x4000_0000u32
        } else {
            0
        }) + (if self.c { 0x2000_0000u32 } else { 0 }) + (if self.v { 0x1000_0000u32 } else { 0 })
            + (if self.q { 0x0800_0000u32 } else { 0 });
        let it_lo: u32 = ((self.it % 4) as u32) * 0x0200_0000;
        let it_hi: u32 = ((self.it / 4) as u32) * 0x400;
        let t: u32 = if self.t { 0x0100_0000 } else { 0 };
        nzcvq + it_lo + t + it_hi + (self.exception as u32)
    }
}

/// The architectural PSR word keeps its reserved bits (23:16 and 9)
/// zero in every representable state.  The executor preserves the
/// core's well-formedness, so the reserved bits stay zero across the
/// execution of every instruction.
pub proof fn lemma_psr_reserved_bits_zero(psr: PSR)
    requires
        psr.wf(),
    ensures
        (psr.value_spec() as u32) & 0x00FF_0200 == 0,
{
    let n: int = if psr.n { 1 } else { 0 };
    let z: int = if psr.z { 1 } else { 0 };
    let c: int = if psr.c { 1 } else { 0 };
    let vv: int = if psr.v { 1 } else { 0 };
    let q: int = if psr.q { 1 } else { 0 };
    let t: int = if psr.t { 1 } else { 0 };
    let itl: int = (psr.it % 4) as int;
    let ith: int = (psr.it / 4) as int;
    let exc: int = psr.exception as int;
    // The top byte of the composed word, counted in units of 2^24.
    let k: int = n * 0x80 + z * 0x40 + c * 0x20 + vv * 0x10 + q * 8 + itl * 2 + t;
    let vi: int = psr.value_spec();
    assert(vi == 0x1000000 * k + ith * 0x400 + exc);
    assert(0 <= vi < 0x1_0000_0000);
    let v: u32 = vi as u32;
    // Bit 9 is clear: dividing out the low 9 bits leaves an even number.
    assert(vi == 0x200 * (k * 0x8000 + ith * 2) + exc);
    vstd::arithmetic::div_mod::lemma_fundamental_div_mod_converse(
        vi,
        0x200,
        k * 0x8000 + ith * 2,
        exc,
    );
    assert((k * 0x8000 + ith * 2) % 2 == 0) by {
        vstd::arithmetic::div_mod::lemma_mod_multiples_basic(k * 0x4000 + ith, 2);
    };
    assert((v / 0x200) % 2 == 0);
    // Bits 23:16 are clear: the word divided by 2^16 is a multiple of 2^8.
    assert(vi == 0x10000 * (k * 0x100) + (ith * 0x400 + exc));
    assert(0 <= ith * 0x400 + exc < 0x10000);
    vstd::arithmetic::div_mod::lemma_fundamental_div_mod_converse(
        vi,
        0x10000,
        k * 0x100,
        ith * 0x400 + exc,
    );
    assert((k * 0x100) % 0x100 == 0) by {
        vstd::arithmetic::div_mod::lemma_mod_multiples_basic(k, 0x100);
    };
    assert((v / 0x10000) % 0x100 == 0);
    assert(v & 0x00FF_0200 == 0) by (bit_vector)
        requires
            (v / 0x200) % 2 == 0 && (v / 0x10000) % 0x100 == 0,
    ;
}

} // verus!
