//! The bus fabric: byte-addressed regions answering 8-, 16- and
//! 32-bit little-endian accesses, and a first-match matrix routing
//! each access to the region that claims it.

use vstd::prelude::*;

use crate::fault::Fault;

verus! {

/// Whether `addr` lies in the half-open interval `[base, base+len)`.
pub open spec fn addr_in(base: int, len: int, addr: int) -> bool {
    base <= addr < base + len
}

/// A halfword read little-endian from two consecutive bytes.
pub open spec fn le_half(mem: Seq<u8>, i: int) -> int {
    mem[i] + 0x100 * mem[i + 1]
}

/// A word read little-endian from four consecutive bytes.
pub open spec fn le_word(mem: Seq<u8>, i: int) -> int {
    mem[i] + 0x100 * mem[i + 1] + 0x1_0000 * mem[i + 2] + 0x100_0000 * mem[i + 3]
}

/// Whether a byte load at `addr` succeeds on a region.
pub open spec fn spec_can_read8(base: int, len: int, readable: bool, addr: u32) -> bool {
    readable && addr_in(base, len, addr as int)
}

/// Whether an aligned halfword load at `addr` succeeds on a region.
pub open spec fn spec_can_read16(base: int, len: int, readable: bool, addr: u32) -> bool {
    readable && addr % 2 == 0 && addr_in(base, len, addr as int) && addr_in(base, len, addr + 1)
}

/// Whether an aligned word load at `addr` succeeds on a region.
pub open spec fn spec_can_read32(base: int, len: int, readable: bool, addr: u32) -> bool {
    readable && addr % 4 == 0 && addr_in(base, len, addr as int) && addr_in(base, len, addr + 3)
}

/// Whether a byte store at `addr` succeeds on a region.
pub open spec fn spec_can_write8(base: int, len: int, writable: bool, addr: u32) -> bool {
    writable && addr_in(base, len, addr as int)
}

/// Whether an aligned word store at `addr` succeeds on a region.
pub open spec fn spec_can_write32(base: int, len: int, writable: bool, addr: u32) -> bool {
    writable && addr % 4 == 0 && addr_in(base, len, addr as int) && addr_in(base, len, addr + 3)
}

/// What a byte load at `addr` returns on a region.
pub open spec fn spec_read8(mem: Seq<u8>, base: int, len: int, readable: bool, addr: u32) -> Result<
    u8,
    Fault,
> {
    if spec_can_read8(base, len, readable, addr) {
        Ok(mem[addr - base])
    } else {
        Err(Fault::BusFault { addr, width: 1u8, write: false })
    }
}

/// What a halfword load at `addr` returns on a region.
pub open spec fn spec_read16(
    mem: Seq<u8>,
    base: int,
    len: int,
    readable: bool,
    addr: u32,
) -> Result<u16, Fault> {
    if spec_can_read16(base, len, readable, addr) {
        Ok(le_half(mem, addr - base) as u16)
    } else {
        Err(Fault::BusFault { addr, width: 2u8, write: false })
    }
}

/// What a word load at `addr` returns on a region.
pub open spec fn spec_read32(
    mem: Seq<u8>,
    base: int,
    len: int,
    readable: bool,
    addr: u32,
) -> Result<u32, Fault> {
    if spec_can_read32(base, len, readable, addr) {
        Ok(le_word(mem, addr - base) as u32)
    } else {
        Err(Fault::BusFault { addr, width: 4u8, write: false })
    }
}

/// The four little-endian byte updates of a word store at offset `i`.
pub open spec fn store_word(mem: Seq<u8>, i: int, value: u32) -> Seq<u8> {
    mem.update(i, (value % 0x100) as u8).update(i + 1, ((value / 0x100) % 0x100) as u8).update(
        i + 2,
        ((value / 0x1_0000) % 0x100) as u8,
    ).update(i + 3, ((value / 0x100_0000) % 0x100) as u8)
}

/// A memory region of the bus fabric.
///
/// A bus is a half-open interval `[base, base+len)` of the 32-bit
/// physical address space mapped onto a byte buffer.  All accesses
/// are little-endian; halfword and word accesses must be aligned;
/// violations and out-of-range accesses answer a `BusFault` and
/// leave the region unchanged.
pub trait Bus: Sized {
    /// The first claimed address.
    spec fn base_spec(&self) -> int;

    /// The claimed length in bytes.
    spec fn len_spec(&self) -> int;

    /// The byte contents.
    spec fn mem_spec(&self) -> Seq<u8>;

    /// Whether loads are answered.
    spec fn readable_spec(&self) -> bool;

    /// Whether stores are accepted.
    spec fn writable_spec(&self) -> bool;

    /// The representation invariant of the region.
    spec fn wf(&self) -> bool;

    /// Consequences of the invariant every region guarantees.
    proof fn wf_facts(&self)
        requires
            self.wf(),
        ensures
            self.mem_spec().len() == self.len_spec(),
            self.base_spec() >= 0,
            self.len_spec() >= 0,
            self.base_spec() + self.len_spec() <= 0x1_0000_0000,
    ;

    /// Whether this bus claims `addr`.
    fn in_range(&self, addr: u32) -> (r: bool)
        requires
            self.wf(),
        ensures
            r == addr_in(self.base_spec(), self.len_spec(), addr as int),
    ;

    /// Load a byte.
    fn read8(&mut self, addr: u32) -> (r: Result<u8, Fault>)
        requires
            old(self).wf(),
        ensures
            *final(self) == *old(self),
            r == spec_read8(
                old(self).mem_spec(),
                old(self).base_spec(),
                old(self).len_spec(),
                old(self).readable_spec(),
                addr,
            ),
    ;

    /// Load an aligned halfword, little-endian.
    fn read16(&mut self, addr: u32) -> (r: Result<u16, Fault>)
        requires
            old(self).wf(),
        ensures
            *final(self) == *old(self),
            r == spec_read16(
                old(self).mem_spec(),
                old(self).base_spec(),
                old(self).len_spec(),
                old(self).readable_spec(),
                addr,
            ),
    ;

    /// Load an aligned word, little-endian.
    fn read32(&mut self, addr: u32) -> (r: Result<u32, Fault>)
        requires
            old(self).wf(),
        ensures
            *final(self) == *old(self),
            r == spec_read32(
                old(self).mem_spec(),
                old(self).base_spec(),
                old(self).len_spec(),
                old(self).readable_spec(),
                addr,
            ),
    ;

    /// Store a byte.
    fn write8(&mut self, addr: u32, value: u8) -> (r: Result<(), Fault>)
        requires
            old(self).wf(),
        ensures
            final(self).wf(),
            final(self).base_spec() == old(self).base_spec(),
            final(self).len_spec() == old(self).len_spec(),
            final(self).readable_spec() == old(self).readable_spec(),
            final(self).writable_spec() == old(self).writable_spec(),
            match r {
                Ok(u) => spec_can_write8(
                    old(self).base_spec(),
                    old(self).len_spec(),
                    old(self).writable_spec(),
                    addr,
                ) && final(self).mem_spec() == old(self).mem_spec().update(
                    addr - old(self).base_spec(),
                    value,
                ),
                Err(f) => !spec_can_write8(
                    old(self).base_spec(),
                    old(self).len_spec(),
                    old(self).writable_spec(),
                    addr,
                ) && *final(self) == *old(self) && f == (Fault::BusFault {
                    addr,
                    width: 1u8,
                    write: true,
                }),
            },
    ;

    /// Store an aligned word, little-endian.
    fn write32(&mut self, addr: u32, value: u32) -> (r: Result<(), Fault>)
        requires
            old(self).wf(),
        ensures
            final(self).wf(),
            final(self).base_spec() == old(self).base_spec(),
            final(self).len_spec() == old(self).len_spec(),
            final(self).readable_spec() == old(self).readable_spec(),
            final(self).writable_spec() == old(self).writable_spec(),
            match r {
                Ok(u) => spec_can_write32(
                    old(self).base_spec(),
                    old(self).len_spec(),
                    old(self).writable_spec(),
                    addr,
                ) && final(self).mem_spec() == store_word(
                    old(self).mem_spec(),
                    addr - old(self).base_spec(),
                    value,
                ),
                Err(f) => !spec_can_write32(
                    old(self).base_spec(),
                    old(self).len_spec(),
                    old(self).writable_spec(),
                    addr,
                ) && *final(self) == *old(self) && f == (Fault::BusFault {
                    addr,
                    width: 4u8,
                    write: true,
                }),
            },
    ;
}

/// A read-only byte buffer mapped at a base address: flash.
pub struct FlashMemory {
    /// The backing bytes.
    data: Vec<u8>,
    /// The mapped base address.
    base: u32,
}

impl FlashMemory {
    /// Map a copy of `content` at `base`.
    pub fn new(content: &[u8], base: u32) -> (r: FlashMemory)
        requires
            base + content@.len() <= 0x1_0000_0000,
        ensures
            r.wf(),
            r.base_spec() == base,
            r.len_spec() == content@.len(),
            r.mem_spec() == content@,
            r.readable_spec(),
            !r.writable_spec(),
    {
        FlashMemory { data: vstd::slice::slice_to_vec(content), base }
    }
}

impl Bus for FlashMemory {
    closed spec fn base_spec(&self) -> int {
        self.base as int
    }

    closed spec fn len_spec(&self) -> int {
        self.data@.len() as int
    }

    closed spec fn mem_spec(&self) -> Seq<u8> {
        self.data@
    }

    closed spec fn readable_spec(&self) -> bool {
        true
    }

    closed spec fn writable_spec(&self) -> bool {
        false
    }

    closed spec fn wf(&self) -> bool {
        self.base + self.data@.len() <= 0x1_0000_0000
    }

    proof fn wf_facts(&self) {
    }

    fn in_range(&self, addr: u32) -> (r: bool) {
        addr >= self.base && ((addr - self.base) as usize) < self.data.len()
    }

    fn read8(&mut self, addr: u32) -> (r: Result<u8, Fault>) {
        region_read8(&self.data, self.base, true, addr)
    }

    fn read16(&mut self, addr: u32) -> (r: Result<u16, Fault>) {
        region_read16(&self.data, self.base, true, addr)
    }

    fn read32(&mut self, addr: u32) -> (r: Result<u32, Fault>) {
        region_read32(&self.data, self.base, true, addr)
    }

    fn write8(&mut self, addr: u32, value: u8) -> (r: Result<(), Fault>) {
        Err(Fault::BusFault { addr, width: 1, write: true })
    }

    fn write32(&mut self, addr: u32, value: u32) -> (r: Result<(), Fault>) {
        Err(Fault::BusFault { addr, width: 4, write: true })
    }
}

/// A readable and writable byte buffer mapped at a base address: SRAM.
pub struct RAM {
    /// The backing bytes.
    data: Vec<u8>,
    /// The mapped base address.
    base: u32,
}

impl RAM {
    /// Map a copy of `content` at `base`.
    pub fn new(content: &[u8], base: u32) -> (r: RAM)
        requires
            base + content@.len() <= 0x1_0000_0000,
        ensures
            r.wf(),
            r.base_spec() == base,
            r.len_spec() == content@.len(),
            r.mem_spec() == content@,
            r.readable_spec(),
            r.writable_spec(),
    {
        RAM { data: vstd::slice::slice_to_vec(content), base }
    }
}

impl Bus for RAM {
    closed spec fn base_spec(&self) -> int {
        self.base as int
    }

    closed spec fn len_spec(&self) -> int {
        self.data@.len() as int
    }

    closed spec fn mem_spec(&self) -> Seq<u8> {
        self.data@
    }

    closed spec fn readable_spec(&self) -> bool {
        true
    }

    closed spec fn writable_spec(&self) -> bool {
        true
    }

    closed spec fn wf(&self) -> bool {
        self.base + self.data@.len() <= 0x1_0000_0000
    }

    proof fn wf_facts(&self) {
    }

    fn in_range(&self, addr: u32) -> (r: bool) {
        addr >= self.base && ((addr - self.base) as usize) < self.data.len()
    }

    fn read8(&mut self, addr: u32) -> (r: Result<u8, Fault>) {
        region_read8(&self.data, self.base, true, addr)
    }

    fn read16(&mut self, addr: u32) -> (r: Result<u16, Fault>) {
        region_read16(&self.data, self.base, true, addr)
    }

    fn read32(&mut self, addr: u32) -> (r: Result<u32, Fault>) {
        region_read32(&self.data, self.base, true, addr)
    }

    fn write8(&mut self, addr: u32, value: u8) -> (r: Result<(), Fault>) {
        if addr >= self.base && ((addr - self.base) as usize) < self.data.len() {
            let idx: usize = (addr - self.base) as usize;
            self.data.set(idx, value);
            Ok(())
        } else {
            Err(Fault::BusFault { addr, width: 1, write: true })
        }
    }

    fn write32(&mut self, addr: u32, value: u32) -> (r: Result<(), Fault>) {
        if addr % 4 == 0 && addr >= self.base && ((addr - self.base) as usize) < self.data.len()
            && self.data.len() - ((addr - self.base) as usize) >= 4 {
            let idx: usize = (addr - self.base) as usize;
            self.data.set(idx, (value % 0x100) as u8);
            self.data.set(idx + 1, ((value / 0x100) % 0x100) as u8);
            self.data.set(idx + 2, ((value / 0x1_0000) % 0x100) as u8);
            self.data.set(idx + 3, ((value / 0x100_0000) % 0x100) as u8);
            Ok(())
        } else {
            Err(Fault::BusFault { addr, width: 4, write: true })
        }
    }
}

/// The private peripheral region `[0xE000_0000, 0xF000_0000)`: it
/// claims the range but contains no memory, so every access faults
/// unless a peripheral model claims it first.
#[derive(Default)]
pub struct InternalBus {}

impl InternalBus {
    /// The empty internal bus: it claims `[0xE000_0000, 0xF000_0000)`
    /// and answers no access.
    pub fn new() -> (r: InternalBus)
        ensures
            r.wf(),
            r.base_spec() == 0xE000_0000,
            r.len_spec() == 0x1000_0000,
            !r.readable_spec(),
            !r.writable_spec(),
    {
        InternalBus {  }
    }
}

impl Bus for InternalBus {
    closed spec fn base_spec(&self) -> int {
        0xE000_0000
    }

    closed spec fn len_spec(&self) -> int {
        0x1000_0000
    }

    closed spec fn mem_spec(&self) -> Seq<u8> {
        Seq::new(0x1000_0000nat, |i: int| 0u8)
    }

    closed spec fn readable_spec(&self) -> bool {
        false
    }

    closed spec fn writable_spec(&self) -> bool {
        false
    }

    closed spec fn wf(&self) -> bool {
        true
    }

    proof fn wf_facts(&self) {
    }

    fn in_range(&self, addr: u32) -> (r: bool) {
        addr >= 0xE000_0000 && addr < 0xF000_0000
    }

    fn read8(&mut self, addr: u32) -> (r: Result<u8, Fault>) {
        Err(Fault::BusFault { addr, width: 1, write: false })
    }

    fn read16(&mut self, addr: u32) -> (r: Result<u16, Fault>) {
        Err(Fault::BusFault { addr, width: 2, write: false })
    }

    fn read32(&mut self, addr: u32) -> (r: Result<u32, Fault>) {
        Err(Fault::BusFault { addr, width: 4, write: false })
    }

    fn write8(&mut self, addr: u32, value: u8) -> (r: Result<(), Fault>) {
        Err(Fault::BusFault { addr, width: 1, write: true })
    }

    fn write32(&mut self, addr: u32, value: u32) -> (r: Result<(), Fault>) {
        Err(Fault::BusFault { addr, width: 4, write: true })
    }
}

/// Byte load from a region backed by `data` at `base`.
fn region_read8(data: &Vec<u8>, base: u32, readable: bool, addr: u32) -> (r: Result<u8, Fault>)
    requires
        base + data@.len() <= 0x1_0000_0000,
    ensures
        r == spec_read8(data@, base as int, data@.len() as int, readable, addr),
{
    if readable && addr >= base && ((addr - base) as usize) < data.len() {
        Ok(data[(addr - base) as usize])
    } else {
        Err(Fault::BusFault { addr, width: 1, write: false })
    }
}

/// Aligned halfword load from a region backed by `data` at `base`.
fn region_read16(data: &Vec<u8>, base: u32, readable: bool, addr: u32) -> (r: Result<u16, Fault>)
    requires
        base + data@.len() <= 0x1_0000_0000,
    ensures
        r == spec_read16(data@, base as int, data@.len() as int, readable, addr),
{
    if addr % 2 == 0 && readable && addr >= base && ((addr - base) as usize) < data.len()
        && data.len() - ((addr - base) as usize) >= 2 {
        let idx: usize = (addr - base) as usize;
        let b0: u16 = data[idx] as u16;
        let b1: u16 = data[idx + 1] as u16;
        Ok(b0 + 0x100 * b1)
    } else {
        Err(Fault::BusFault { addr, width: 2, write: false })
    }
}

/// Aligned word load from a region backed by `data` at `base`.
fn region_read32(data: &Vec<u8>, base: u32, readable: bool, addr: u32) -> (r: Result<u32, Fault>)
    requires
        base + data@.len() <= 0x1_0000_0000,
    ensures
        r == spec_read32(data@, base as int, data@.len() as int, readable, addr),
{
    if addr % 4 == 0 && readable && addr >= base && ((addr - base) as usize) < data.len()
        && data.len() - ((addr - base) as usize) >= 4 {
        let idx: usize = (addr - base) as usize;
        let b0: u32 = data[idx] as u32;
        let b1: u32 = data[idx + 1] as u32;
        let b2: u32 = data[idx + 2] as u32;
        let b3: u32 = data[idx + 3] as u32;
        Ok(b0 + 0x100 * b1 + 0x1_0000 * b2 + 0x100_0000 * b3)
    } else {
        Err(Fault::BusFault { addr, width: 4, write: false })
    }
}

/// Whether the internal private bus claims `addr`.
pub open spec fn internal_claims(addr: u32) -> bool {
    0xE000_0000 <= addr < 0xF000_0000
}

/// What a word load at `addr` returns through the bus matrix, which
/// asks the internal bus first, then flash, then SRAM.
pub open spec fn spec_matrix_read32<T: Bus, R: Bus>(code: T, sram: R, addr: u32) -> Result<
    u32,
    Fault,
> {
    if internal_claims(addr) {
        Err(Fault::BusFault { addr, width: 4u8, write: false })
    } else if addr_in(code.base_spec(), code.len_spec(), addr as int) {
        spec_read32(code.mem_spec(), code.base_spec(), code.len_spec(), code.readable_spec(), addr)
    } else if addr_in(sram.base_spec(), sram.len_spec(), addr as int) {
        spec_read32(sram.mem_spec(), sram.base_spec(), sram.len_spec(), sram.readable_spec(), addr)
    } else {
        Err(Fault::BusFault { addr, width: 4u8, write: false })
    }
}

/// What a halfword load at `addr` returns through the bus matrix.
pub open spec fn spec_matrix_read16<T: Bus, R: Bus>(code: T, sram: R, addr: u32) -> Result<
    u16,
    Fault,
> {
    if internal_claims(addr) {
        Err(Fault::BusFault { addr, width: 2u8, write: false })
    } else if addr_in(code.base_spec(), code.len_spec(), addr as int) {
        spec_read16(code.mem_spec(), code.base_spec(), code.len_spec(), code.readable_spec(), addr)
    } else if addr_in(sram.base_spec(), sram.len_spec(), addr as int) {
        spec_read16(sram.mem_spec(), sram.base_spec(), sram.len_spec(), sram.readable_spec(), addr)
    } else {
        Err(Fault::BusFault { addr, width: 2u8, write: false })
    }
}

/// What a byte load at `addr` returns through the bus matrix.
pub open spec fn spec_matrix_read8<T: Bus, R: Bus>(code: T, sram: R, addr: u32) -> Result<
    u8,
    Fault,
> {
    if internal_claims(addr) {
        Err(Fault::BusFault { addr, width: 1u8, write: false })
    } else if addr_in(code.base_spec(), code.len_spec(), addr as int) {
        spec_read8(code.mem_spec(), code.base_spec(), code.len_spec(), code.readable_spec(), addr)
    } else if addr_in(sram.base_spec(), sram.len_spec(), addr as int) {
        spec_read8(sram.mem_spec(), sram.base_spec(), sram.len_spec(), sram.readable_spec(), addr)
    } else {
        Err(Fault::BusFault { addr, width: 1u8, write: false })
    }
}

/// Load a word through the bus matrix.
pub fn matrix_read32<T: Bus, R: Bus>(code: &mut T, sram: &mut R, addr: u32) -> (r: Result<
    u32,
    Fault,
>)
    requires
        old(code).wf(),
        old(sram).wf(),
    ensures
        *final(code) == *old(code),
        *final(sram) == *old(sram),
        r == spec_matrix_read32(*old(code), *old(sram), addr),
{
    if addr >= 0xE000_0000 && addr < 0xF000_0000 {
        Err(Fault::BusFault { addr, width: 4, write: false })
    } else if code.in_range(addr) {
        code.read32(addr)
    } else if sram.in_range(addr) {
        sram.read32(addr)
    } else {
        Err(Fault::BusFault { addr, width: 4, write: false })
    }
}

/// Load a halfword through the bus matrix.
pub fn matrix_read16<T: Bus, R: Bus>(code: &mut T, sram: &mut R, addr: u32) -> (r: Result<
    u16,
    Fault,
>)
    requires
        old(code).wf(),
        old(sram).wf(),
    ensures
        *final(code) == *old(code),
        *final(sram) == *old(sram),
        r == spec_matrix_read16(*old(code), *old(sram), addr),
{
    if addr >= 0xE000_0000 && addr < 0xF000_0000 {
        Err(Fault::BusFault { addr, width: 2, write: false })
    } else if code.in_range(addr) {
        code.read16(addr)
    } else if sram.in_range(addr) {
        sram.read16(addr)
    } else {
        Err(Fault::BusFault { addr, width: 2, write: false })
    }
}

/// Load a byte through the bus matrix.
pub fn matrix_read8<T: Bus, R: Bus>(code: &mut T, sram: &mut R, addr: u32) -> (r: Result<u8, Fault>)
    requires
        old(code).wf(),
        old(sram).wf(),
    ensures
        *final(code) == *old(code),
        *final(sram) == *old(sram),
        r == spec_matrix_read8(*old(code), *old(sram), addr),
{
    if addr >= 0xE000_0000 && addr < 0xF000_0000 {
        Err(Fault::BusFault { addr, width: 1, write: false })
    } else if code.in_range(addr) {
        code.read8(addr)
    } else if sram.in_range(addr) {
        sram.read8(addr)
    } else {
        Err(Fault::BusFault { addr, width: 1, write: false })
    }
}

/// Which region of the matrix a store at `addr` reaches: the internal
/// bus and unmapped space fault, flash rejects stores, SRAM accepts.
pub open spec fn spec_matrix_claims_write<T: Bus, R: Bus>(code: T, sram: R, addr: u32) -> bool {
    !internal_claims(addr) && !addr_in(code.base_spec(), code.len_spec(), addr as int) && addr_in(
        sram.base_spec(),
        sram.len_spec(),
        addr as int,
    )
}

/// Store a word through the bus matrix.
pub fn matrix_write32<T: Bus, R: Bus>(code: &mut T, sram: &mut R, addr: u32, value: u32) -> (r:
    Result<(), Fault>)
    requires
        old(code).wf(),
        old(sram).wf(),
        !old(code).writable_spec(),
    ensures
        *final(code) == *old(code),
        final(sram).wf(),
        final(sram).base_spec() == old(sram).base_spec(),
        final(sram).len_spec() == old(sram).len_spec(),
        final(sram).readable_spec() == old(sram).readable_spec(),
        final(sram).writable_spec() == old(sram).writable_spec(),
        match r {
            Ok(u) => spec_matrix_claims_write(*old(code), *old(sram), addr) && spec_can_write32(
                old(sram).base_spec(),
                old(sram).len_spec(),
                old(sram).writable_spec(),
                addr,
            ) && final(sram).mem_spec() == store_word(
                old(sram).mem_spec(),
                addr - old(sram).base_spec(),
                value,
            ),
            Err(f) => *final(sram) == *old(sram) && f == (Fault::BusFault {
                addr,
                width: 4u8,
                write: true,
            }) && !(spec_matrix_claims_write(*old(code), *old(sram), addr) && spec_can_write32(
                old(sram).base_spec(),
                old(sram).len_spec(),
                old(sram).writable_spec(),
                addr,
            )),
        },
{
    if addr >= 0xE000_0000 && addr < 0xF000_0000 {
        Err(Fault::BusFault { addr, width: 4, write: true })
    } else if code.in_range(addr) {
        match code.write32(addr, value) {
            Ok(u) => Ok(u),
            Err(f) => Err(Fault::BusFault { addr, width: 4, write: true }),
        }
    } else if sram.in_range(addr) {
        sram.write32(addr, value)
    } else {
        Err(Fault::BusFault { addr, width: 4, write: true })
    }
}

/// Store a byte through the bus matrix.
pub fn matrix_write8<T: Bus, R: Bus>(code: &mut T, sram: &mut R, addr: u32, value: u8) -> (r:
    Result<(), Fault>)
    requires
        old(code).wf(),
        old(sram).wf(),
        !old(code).writable_spec(),
    ensures
        *final(code) == *old(code),
        final(sram).wf(),
        final(sram).base_spec() == old(sram).base_spec(),
        final(sram).len_spec() == old(sram).len_spec(),
        final(sram).readable_spec() == old(sram).readable_spec(),
        final(sram).writable_spec() == old(sram).writable_spec(),
        match r {
            Ok(u) => spec_matrix_claims_write(*old(code), *old(sram), addr) && spec_can_write8(
                old(sram).base_spec(),
                old(sram).len_spec(),
                old(sram).writable_spec(),
                addr,
            ) && final(sram).mem_spec() == old(sram).mem_spec().update(
                addr - old(sram).base_spec(),
                value,
            ),
            Err(f) => *final(sram) == *old(sram) && f == (Fault::BusFault {
                addr,
                width: 1u8,
                write: true,
            }) && !(spec_matrix_claims_write(*old(code), *old(sram), addr) && spec_can_write8(
                old(sram).base_spec(),
                old(sram).len_spec(),
                old(sram).writable_spec(),
                addr,
            )),
        },
{
    if addr >= 0xE000_0000 && addr < 0xF000_0000 {
        Err(Fault::BusFault { addr, width: 1, write: true })
    } else if code.in_range(addr) {
        match code.write8(addr, value) {
            Ok(u) => Ok(u),
            Err(f) => Err(Fault::BusFault { addr, width: 1, write: true }),
        }
    } else if sram.in_range(addr) {
        sram.write8(addr, value)
    } else {
        Err(Fault::BusFault { addr, width: 1, write: true })
    }
}

} // verus!
