//! End-to-end runs of the simulator: boot, reset and whole-program
//! execution against small guest images.

use zmu_cortex_m::bus::{Bus, FlashMemory, InternalBus, RAM};
use zmu_cortex_m::cpu::Core;
use zmu_cortex_m::fault::Fault;
use zmu_cortex_m::register::Reg;
use zmu_cortex_m::{reset, run_bin, step, RunExit, StepEvent};

#[test]
fn test_hello_world() {
    let hellow_bin: [u8; 1204] = HELLO_WORLD;
    // 1024 words of zeroed SRAM.
    let ram_words = vec![0u32; 1024];
    let mut ram_mem: Vec<u8> = Vec::new();
    for word in &ram_words {
        ram_mem.extend_from_slice(&word.to_le_bytes());
    }

    let mut hellow = FlashMemory::new(&hellow_bin, 0x0);
    let mut ram = RAM::new(&ram_mem, 0x20000000);
    let result = run_bin(&mut hellow, &mut ram);
    assert!(
        matches!(result.exit, RunExit::ApplicationExit),
        "exit {:?} after {} instructions, output {:?}",
        result.exit,
        result.count,
        String::from_utf8_lossy(&result.output)
    );
    assert!(result.count > 0);
    assert_eq!(result.output, b"hello, world\n".to_vec());
}

#[test]
fn reset_vector_loads_sp_and_pc() {
    // Flash begins SP=0x2000_0408, PC=0x0000_04A1; after reset the
    // Thumb bit of PC is dropped and T is set.
    let mut image = vec![0u8; 64];
    image[0..4].copy_from_slice(&0x2000_0408u32.to_le_bytes());
    image[4..8].copy_from_slice(&0x0000_04A1u32.to_le_bytes());
    let mut flash = FlashMemory::new(&image, 0x0);
    let mut ram = RAM::new(&vec![0u8; 64], 0x20000000);
    let mut core = Core::new();
    reset(&mut core, &mut flash, &mut ram).unwrap();
    assert_eq!(core.regs[13], 0x2000_0408);
    assert_eq!(core.regs[15], 0x0000_04A0);
    assert!(core.psr.t);
}

#[test]
fn reset_masks_vector_low_bits() {
    // SP bits 1:0 read as zero; the PC vector's Thumb bit is dropped.
    let mut image = vec![0u8; 64];
    image[0..4].copy_from_slice(&0x2000_0407u32.to_le_bytes());
    image[4..8].copy_from_slice(&0x0000_0123u32.to_le_bytes());
    let mut flash = FlashMemory::new(&image, 0x0);
    let mut ram = RAM::new(&vec![0u8; 64], 0x20000000);
    let mut core = Core::new();
    reset(&mut core, &mut flash, &mut ram).unwrap();
    assert_eq!(core.regs[13], 0x2000_0404);
    assert_eq!(core.regs[15], 0x0000_0122);
}

#[test]
fn reset_without_vector_table_faults() {
    let mut flash = FlashMemory::new(&[], 0x0);
    let mut ram = RAM::new(&vec![0u8; 64], 0x20000000);
    let mut core = Core::new();
    let r = reset(&mut core, &mut flash, &mut ram);
    assert_eq!(r, Err(Fault::BusFault { addr: 0, width: 4, write: false }));
}

/// A core ready to execute at `pc` with the given halfwords in flash.
fn setup(pc: u32, halfwords: &[u16]) -> (Core, FlashMemory, RAM) {
    let mut image = vec![0u8; pc as usize + 2 * halfwords.len() + 64];
    for (i, hw) in halfwords.iter().enumerate() {
        let at = pc as usize + 2 * i;
        image[at..at + 2].copy_from_slice(&hw.to_le_bytes());
    }
    let flash = FlashMemory::new(&image, 0x0);
    let ram = RAM::new(&vec![0u8; 256], 0x20000000);
    let mut core = Core::new();
    core.set_pc(pc);
    (core, flash, ram)
}

#[test]
fn adds_sets_carry_and_overflow() {
    // ADDS R2, R0, R1 with R0=0x7FFFFFFF, R1=1.
    let (mut core, mut flash, mut ram) = setup(0x10, &[0x1842]);
    core.set_r(Reg::R0, 0x7FFF_FFFF);
    core.set_r(Reg::R1, 1);
    step(&mut core, &mut flash, &mut ram).unwrap();
    assert_eq!(core.regs[2], 0x8000_0000);
    assert!(core.psr.n);
    assert!(!core.psr.z);
    assert!(!core.psr.c);
    assert!(core.psr.v);
}

#[test]
fn subs_flag_sweep() {
    // SUBS R2, R0, R1 with R0=0, R1=1.
    let (mut core, mut flash, mut ram) = setup(0x10, &[0x1A42]);
    core.set_r(Reg::R0, 0);
    core.set_r(Reg::R1, 1);
    step(&mut core, &mut flash, &mut ram).unwrap();
    assert_eq!(core.regs[2], 0xFFFF_FFFF);
    assert!(core.psr.n);
    assert!(!core.psr.z);
    assert!(!core.psr.c);
    assert!(!core.psr.v);
}

#[test]
fn branch_taken_and_not_taken() {
    // BEQ +8 at PC=0x100: taken lands at 0x10C, not taken at 0x102.
    let (mut core, mut flash, mut ram) = setup(0x100, &[0xD004]);
    core.psr.z = true;
    step(&mut core, &mut flash, &mut ram).unwrap();
    assert_eq!(core.regs[15], 0x10C);

    let (mut core, mut flash, mut ram) = setup(0x100, &[0xD004]);
    core.psr.z = false;
    step(&mut core, &mut flash, &mut ram).unwrap();
    assert_eq!(core.regs[15], 0x102);
}

#[test]
fn ldm_with_writeback() {
    // LDM R0!, {R1,R2,R3} at R0=0x20000000 over memory words 1,2,3.
    let (mut core, mut flash, mut ram) = setup(0x10, &[0xC80E]);
    let mut mem = vec![0u8; 256];
    mem[0..4].copy_from_slice(&1u32.to_le_bytes());
    mem[4..8].copy_from_slice(&2u32.to_le_bytes());
    mem[8..12].copy_from_slice(&3u32.to_le_bytes());
    ram = RAM::new(&mem, 0x20000000);
    core.set_r(Reg::R0, 0x2000_0000);
    step(&mut core, &mut flash, &mut ram).unwrap();
    assert_eq!(core.regs[1], 1);
    assert_eq!(core.regs[2], 2);
    assert_eq!(core.regs[3], 3);
    assert_eq!(core.regs[0], 0x2000_000C);
}

#[test]
fn push_pop_roundtrip_restores_registers() {
    // PUSH {R0-R2,LR}; POP {R0-R2,PC}.
    let (mut core, mut flash, mut ram) = setup(0x10, &[0xB507, 0xBD07]);
    core.set_r(Reg::SP, 0x2000_0080);
    core.set_r(Reg::R0, 11);
    core.set_r(Reg::R1, 22);
    core.set_r(Reg::R2, 33);
    core.set_r(Reg::LR, 0x0000_0041);
    step(&mut core, &mut flash, &mut ram).unwrap();
    assert_eq!(core.regs[13], 0x2000_0070);
    core.set_r(Reg::R0, 0);
    core.set_r(Reg::R1, 0);
    core.set_r(Reg::R2, 0);
    step(&mut core, &mut flash, &mut ram).unwrap();
    assert_eq!(core.regs[0], 11);
    assert_eq!(core.regs[1], 22);
    assert_eq!(core.regs[2], 33);
    assert_eq!(core.regs[13], 0x2000_0080);
    assert_eq!(core.regs[15], 0x0000_0040);
}

#[test]
fn udf_execution_faults() {
    // The permanently undefined 16-bit slot 0xDExx.
    let (mut core, mut flash, mut ram) = setup(0x10, &[0xDE01]);
    let r = step(&mut core, &mut flash, &mut ram);
    assert_eq!(
        r,
        Err(Fault::UndefinedInstruction { opcode: 0xDE01, pc: 0x10 })
    );
}

#[test]
fn foreign_bkpt_faults() {
    let (mut core, mut flash, mut ram) = setup(0x10, &[0xBE07]);
    let r = step(&mut core, &mut flash, &mut ram);
    assert_eq!(r, Err(Fault::UnhandledBkpt { imm32: 7, pc: 0x10 }));
}

#[test]
fn svc_faults() {
    let (mut core, mut flash, mut ram) = setup(0x10, &[0xDF2A]);
    let r = step(&mut core, &mut flash, &mut ram);
    assert_eq!(r, Err(Fault::UnhandledSvc { imm32: 0x2A, pc: 0x10 }));
}

#[test]
fn misaligned_word_load_faults() {
    // LDR R1, [R0] with R0 odd.
    let (mut core, mut flash, mut ram) = setup(0x10, &[0x6801]);
    core.set_r(Reg::R0, 0x2000_0002);
    let r = step(&mut core, &mut flash, &mut ram);
    assert_eq!(
        r,
        Err(Fault::BusFault { addr: 0x2000_0002, width: 4, write: false })
    );
}

#[test]
fn store_to_flash_faults() {
    // STR R1, [R0] aimed at flash.
    let (mut core, mut flash, mut ram) = setup(0x10, &[0x6001]);
    core.set_r(Reg::R0, 0x0000_0040);
    let r = step(&mut core, &mut flash, &mut ram);
    assert_eq!(
        r,
        Err(Fault::BusFault { addr: 0x40, width: 4, write: true })
    );
}

#[test]
fn internal_bus_claims_private_range_and_faults() {
    let mut internal = InternalBus::new();
    assert!(internal.in_range(0xE000_0000));
    assert!(internal.in_range(0xEFFF_FFFF));
    assert!(!internal.in_range(0xDFFF_FFFF));
    assert!(!internal.in_range(0xF000_0000));
    assert!(internal.read32(0xE000_ED00).is_err());
    assert!(internal.write8(0xE000_0000, 1).is_err());
    // The executor faults on any access routed there.
    let (mut core, mut flash, mut ram) = setup(0x10, &[0x6801]);
    core.set_r(Reg::R0, 0xE000_0000);
    let r = step(&mut core, &mut flash, &mut ram);
    assert_eq!(
        r,
        Err(Fault::BusFault { addr: 0xE000_0000, width: 4, write: false })
    );
}

#[test]
fn bl_sets_lr_and_branches() {
    // BL +0x40 at 0x10: F000 F820.
    let (mut core, mut flash, mut ram) = setup(0x10, &[0xF000, 0xF820]);
    step(&mut core, &mut flash, &mut ram).unwrap();
    assert_eq!(core.regs[14], 0x15);
    assert_eq!(core.regs[15], 0x54);
}

#[test]
fn bx_requires_thumb_bit() {
    // BX R0 with an even target faults; with the bit set it branches.
    let (mut core, mut flash, mut ram) = setup(0x10, &[0x4700]);
    core.set_r(Reg::R0, 0x0000_0100);
    assert!(step(&mut core, &mut flash, &mut ram).is_err());

    let (mut core, mut flash, mut ram) = setup(0x10, &[0x4700]);
    core.set_r(Reg::R0, 0x0000_0101);
    match step(&mut core, &mut flash, &mut ram).unwrap() {
        StepEvent::Retired { .. } => {}
        other => panic!("unexpected event: {:?}", other),
    }
    assert_eq!(core.regs[15], 0x100);
}

#[test]
fn it_block_gates_execution() {
    // IT EQ; MOVS R0, #1.  With Z set the move executes but, inside
    // the block, sets no flags; with Z clear it is consumed with no
    // effect beyond the PC advance.
    let (mut core, mut flash, mut ram) = setup(0x10, &[0xBF08, 0x2001]);
    core.psr.z = true;
    step(&mut core, &mut flash, &mut ram).unwrap();
    assert!(core.psr.it != 0);
    step(&mut core, &mut flash, &mut ram).unwrap();
    assert_eq!(core.regs[0], 1);
    assert!(core.psr.z, "flags must not change inside an IT block");
    assert_eq!(core.psr.it, 0, "the block ends after its one slot");

    let (mut core, mut flash, mut ram) = setup(0x10, &[0xBF08, 0x2001]);
    core.psr.z = false;
    step(&mut core, &mut flash, &mut ram).unwrap();
    step(&mut core, &mut flash, &mut ram).unwrap();
    assert_eq!(core.regs[0], 0, "a failed IT condition skips the move");
    assert_eq!(core.regs[15], 0x14);
}

#[test]
fn wide_add_immediate_expands_pattern() {
    // ADD.W R1, R2, #0xAB00AB00 (modified immediate, pattern XY00XY00).
    let decoded = zmu_cortex_m::decoder::decode_32(0xF102, 0x21AB);
    assert_eq!(zmu_cortex_m::instruction::instruction_size(&decoded), 4);
    match decoded {
        zmu_cortex_m::instruction::Instruction::ADD_imm { params, thumb32 } => {
            assert!(thumb32);
            assert_eq!(params.imm32, 0xAB00_AB00);
            assert_eq!(params.setflags, zmu_cortex_m::instruction::SetFlags::False);
            assert_eq!(format!("{:?}", params.rd), "R1");
            assert_eq!(format!("{:?}", params.rn), "R2");
        }
        other => panic!("unexpected decoding: {:?}", other),
    }
}

#[test]
fn byte_reversals() {
    // REV R0, R1; REV16 R2, R1; REVSH R3, R1.
    let (mut core, mut flash, mut ram) = setup(0x10, &[0xBA08, 0xBA4A, 0xBACB]);
    core.set_r(Reg::R1, 0x1234_5678);
    step(&mut core, &mut flash, &mut ram).unwrap();
    assert_eq!(core.regs[0], 0x7856_3412);
    step(&mut core, &mut flash, &mut ram).unwrap();
    assert_eq!(core.regs[2], 0x3412_7856);
    core.set_r(Reg::R1, 0x0000_1280);
    step(&mut core, &mut flash, &mut ram).unwrap();
    assert_eq!(core.regs[3], 0xFFFF_8012);
}

#[test]
fn extends_truncate_and_sign() {
    // SXTB R0, R1; SXTH R2, R1; UXTB R3, R1; UXTH R4, R1.
    let (mut core, mut flash, mut ram) = setup(0x10, &[0xB248, 0xB20A, 0xB2CB, 0xB28C]);
    core.set_r(Reg::R1, 0x0001_92A5);
    step(&mut core, &mut flash, &mut ram).unwrap();
    assert_eq!(core.regs[0], 0xFFFF_FFA5);
    step(&mut core, &mut flash, &mut ram).unwrap();
    assert_eq!(core.regs[2], 0xFFFF_92A5);
    step(&mut core, &mut flash, &mut ram).unwrap();
    assert_eq!(core.regs[3], 0x0000_00A5);
    step(&mut core, &mut flash, &mut ram).unwrap();
    assert_eq!(core.regs[4], 0x0000_92A5);
}

#[test]
fn byte_and_halfword_stores_roundtrip() {
    // STRB R1, [R0, #1]; STRH R2, [R0, #2]; LDRB R3, [R0, #1];
    // LDRH R4, [R0, #2].
    let (mut core, mut flash, mut ram) =
        setup(0x10, &[0x7041, 0x8082, 0x7843, 0x8884]);
    core.set_r(Reg::R0, 0x2000_0010);
    core.set_r(Reg::R1, 0x0000_01AB);
    core.set_r(Reg::R2, 0x0001_CDEF);
    step(&mut core, &mut flash, &mut ram).unwrap();
    step(&mut core, &mut flash, &mut ram).unwrap();
    step(&mut core, &mut flash, &mut ram).unwrap();
    assert_eq!(core.regs[3], 0xAB, "the stored byte is truncated to 8 bits");
    step(&mut core, &mut flash, &mut ram).unwrap();
    assert_eq!(core.regs[4], 0xCDEF, "the stored halfword is truncated to 16 bits");
}

const HELLO_WORLD: [u8; 1204] = [0x08, 0x04, 0x00, 0x20, 0xa1, 0x04, 0x00, 0x00, 0x83, 0x02, 0x00, 0x00, 0x83, 0x02, 0x00,
         0x00, 0x83, 0x02, 0x00, 0x00, 0x83, 0x02, 0x00, 0x00, 0x83, 0x02, 0x00, 0x00, 0x00, 0x00,
         0x00, 0x00, 0x00, 0x00, 0x00, 0x00, 0x00, 0x00, 0x00, 0x00, 0x00, 0x00, 0x00, 0x00, 0x83,
         0x02, 0x00, 0x00, 0x83, 0x02, 0x00, 0x00, 0x00, 0x00, 0x00, 0x00, 0x83, 0x02, 0x00, 0x00,
         0x83, 0x02, 0x00, 0x00, 0x70, 0xb5, 0x06, 0x00, 0x08, 0x00, 0x14, 0x00, 0x00, 0x2b, 0x05,
         0xd0, 0x1d, 0x00, 0x21, 0x78, 0xb0, 0x47, 0x64, 0x1c, 0x6d, 0x1e, 0xfa, 0xd1, 0x70, 0xbd,
         0xfd, 0xb5, 0x86, 0xb0, 0x0c, 0x00, 0x09, 0xe0, 0x01, 0x23, 0x07, 0x9a, 0x21, 0x00, 0x06,
         0x98, 0xff, 0xf7, 0xe9, 0xff, 0x04, 0x00, 0x07, 0x98, 0x40, 0x1c, 0x07, 0x90, 0x07, 0x98,
         0x00, 0x78, 0x00, 0x28, 0x01, 0xd1, 0x09, 0xb0, 0xf0, 0xbd, 0x25, 0x28, 0xed, 0xd1, 0x07,
         0x98, 0x46, 0x78, 0x80, 0x1c, 0x07, 0x90, 0x25, 0x2e, 0x00, 0xd1, 0x95, 0xe0, 0x58, 0x2e,
         0x69, 0xd0, 0x63, 0x2e, 0x0e, 0xd0, 0x64, 0x2e, 0x1a, 0xd0, 0x69, 0x2e, 0x18, 0xd0, 0x6f,
         0x2e, 0x61, 0xd0, 0x70, 0x2e, 0x68, 0xd0, 0x73, 0x2e, 0x70, 0xd0, 0x75, 0x2e, 0x5b, 0xd0,
         0x78, 0x2e, 0x59, 0xd0, 0xdd, 0xe7, 0x08, 0x98, 0x00, 0x68, 0x08, 0x99, 0x08, 0x60, 0x01,
         0x68, 0x00, 0x1d, 0x08, 0x9a, 0x10, 0x60, 0xc9, 0xb2, 0x20, 0x00, 0x06, 0x9a, 0x90, 0x47,
         0x04, 0x00, 0xcf, 0xe7, 0x08, 0x98, 0x00, 0x68, 0x08, 0x99, 0x08, 0x60, 0x05, 0x68, 0x00,
         0x1d, 0x08, 0x99, 0x08, 0x60, 0x00, 0x2d, 0x04, 0xd5, 0x2d, 0x21, 0x20, 0x00, 0x06, 0x9a,
         0x90, 0x47, 0x04, 0x00, 0x64, 0x26, 0x6f, 0x2e, 0x01, 0xd1, 0x08, 0x21, 0x06, 0xe0, 0x20,
         0x21, 0x31, 0x43, 0x78, 0x29, 0x01, 0xd0, 0x0a, 0x21, 0x00, 0xe0, 0x10, 0x21, 0x01, 0x91,
         0x0b, 0x21, 0x00, 0x91, 0x2f, 0x00, 0x64, 0x2e, 0x03, 0xd1, 0x00, 0x2d, 0x01, 0xd5, 0x78,
         0x42, 0x07, 0x00, 0x00, 0x9d, 0x6d, 0x1e, 0x00, 0x95, 0x38, 0x00, 0x01, 0x99, 0x00, 0xf0,
         0x4b, 0xf8, 0x30, 0x31, 0xc9, 0xb2, 0x3a, 0x29, 0x02, 0xdb, 0x30, 0x00, 0x51, 0x38, 0x09,
         0x18, 0x02, 0xa8, 0x45, 0x19, 0x29, 0x70, 0x38, 0x00, 0x01, 0x99, 0x00, 0xf0, 0x3d, 0xf8,
         0x07, 0x00, 0x02, 0xd0, 0x00, 0x98, 0x01, 0x28, 0xe5, 0xda, 0x20, 0x00, 0x0b, 0x21, 0x00,
         0x9a, 0x8c, 0x1a, 0xb9, 0xd0, 0x29, 0x78, 0x06, 0x9a, 0x90, 0x47, 0x6d, 0x1c, 0x64, 0x1e,
         0xf9, 0xd1, 0xb2, 0xe7, 0x08, 0x98, 0x00, 0x68, 0x08, 0x99, 0x08, 0x60, 0x05, 0x68, 0x00,
         0x1d, 0x08, 0x99, 0x08, 0x60, 0xbb, 0xe7, 0x08, 0x98, 0x00, 0x68, 0x08, 0x99, 0x08, 0x60,
         0x05, 0x68, 0x00, 0x1d, 0x08, 0x99, 0x08, 0x60, 0x78, 0x26, 0xb1, 0xe7, 0x08, 0x98, 0x00,
         0x68, 0x08, 0x99, 0x08, 0x60, 0x05, 0x68, 0x00, 0x1d, 0x08, 0x99, 0x08, 0x60, 0x28, 0x00,
         0x00, 0xf0, 0x65, 0xf8, 0x01, 0x00, 0x20, 0x00, 0x00, 0x29, 0x90, 0xd0, 0x0c, 0x00, 0x29,
         0x78, 0x06, 0x9a, 0x90, 0x47, 0x6d, 0x1c, 0x64, 0x1e, 0xf9, 0xd1, 0x88, 0xe7, 0x25, 0x21,
         0x83, 0xe7, 0x00, 0x22, 0x03, 0x0a, 0x8b, 0x42, 0x0b, 0xd2, 0x03, 0x09, 0x8b, 0x42, 0x19,
         0xd2, 0x43, 0x08, 0x8b, 0x42, 0x2e, 0xd2, 0x41, 0x1a, 0x00, 0xd2, 0x01, 0x46, 0x52, 0x41,
         0x10, 0x46, 0x70, 0x47, 0xff, 0x22, 0x09, 0x02, 0x3f, 0xd0, 0x12, 0x06, 0x8b, 0x42, 0x05,
         0xd3, 0x12, 0x12, 0x09, 0x02, 0x8b, 0x42, 0x01, 0xd3, 0x12, 0x12, 0x09, 0x02, 0x03, 0x09,
         0x8b, 0x42, 0x19, 0xd3, 0x00, 0xe0, 0x09, 0x0a, 0xc3, 0x09, 0x8b, 0x42, 0x01, 0xd3, 0xcb,
         0x01, 0xc0, 0x1a, 0x52, 0x41, 0x83, 0x09, 0x8b, 0x42, 0x01, 0xd3, 0x8b, 0x01, 0xc0, 0x1a,
         0x52, 0x41, 0x43, 0x09, 0x8b, 0x42, 0x01, 0xd3, 0x4b, 0x01, 0xc0, 0x1a, 0x52, 0x41, 0x03,
         0x09, 0x8b, 0x42, 0x01, 0xd3, 0x0b, 0x01, 0xc0, 0x1a, 0x52, 0x41, 0xc3, 0x08, 0x8b, 0x42,
         0x01, 0xd3, 0xcb, 0x00, 0xc0, 0x1a, 0x52, 0x41, 0x83, 0x08, 0x8b, 0x42, 0x01, 0xd3, 0x8b,
         0x00, 0xc0, 0x1a, 0x52, 0x41, 0x43, 0x08, 0x8b, 0x42, 0x01, 0xd3, 0x4b, 0x00, 0xc0, 0x1a,
         0x52, 0x41, 0x88, 0x42, 0x00, 0xd3, 0x40, 0x1a, 0x52, 0x41, 0xcf, 0xd2, 0x01, 0x46, 0x10,
         0x46, 0x70, 0x47, 0x08, 0xb5, 0x00, 0xf0, 0x0a, 0xf8, 0x08, 0xbd, 0x01, 0x00, 0x00, 0xe0,
         0x49, 0x1c, 0x0a, 0x78, 0x00, 0x2a, 0xfb, 0xd1, 0x08, 0x1a, 0x70, 0x47, 0xfe, 0xe7, 0x70,
         0x47, 0x00, 0x00, 0x80, 0xb5, 0x00, 0xf0, 0x33, 0xf8, 0x02, 0x00, 0x00, 0x23, 0xdb, 0x43,
         0x10, 0x68, 0x98, 0x42, 0x04, 0xd0, 0x11, 0x00, 0x02, 0x20, 0xab, 0xbe, 0x00, 0x20, 0x10,
         0x60, 0x50, 0x68, 0x98, 0x42, 0x04, 0xd0, 0x11, 0x1d, 0x02, 0x20, 0xab, 0xbe, 0x00, 0x20,
         0x50, 0x60, 0x01, 0xbd, 0x00, 0x00, 0x10, 0xb5, 0x84, 0xb0, 0x04, 0x00, 0x00, 0xf0, 0x19,
         0xf8, 0xa1, 0x00, 0x42, 0x18, 0x10, 0x68, 0x00, 0x21, 0xc9, 0x43, 0x88, 0x42, 0x0d, 0xd1,
         0x07, 0xa0, 0x00, 0x90, 0x00, 0x2c, 0x01, 0xd1, 0x00, 0x20, 0x00, 0xe0, 0x04, 0x20, 0x01,
         0x90, 0x03, 0x20, 0x02, 0x90, 0x69, 0x46, 0x01, 0x20, 0xab, 0xbe, 0x10, 0x60, 0x04, 0xb0,
         0x10, 0xbd, 0x3a, 0x74, 0x74, 0x00, 0x00, 0x48, 0x70, 0x47, 0x00, 0x00, 0x00, 0x20, 0x30,
         0xb4, 0x01, 0x21, 0x02, 0x68, 0x00, 0x1d, 0x00, 0x2a, 0x0f, 0xd0, 0x03, 0x68, 0xc3, 0x18,
         0x44, 0x68, 0x08, 0x30, 0x0c, 0x42, 0x02, 0xd0, 0x4d, 0x46, 0x6d, 0x1e, 0x64, 0x19, 0x1d,
         0x68, 0x25, 0x60, 0x1b, 0x1d, 0x24, 0x1d, 0x12, 0x1f, 0xec, 0xd0, 0xf8, 0xe7, 0x30, 0xbc,
         0x70, 0x47, 0x10, 0xb5, 0x07, 0x49, 0x79, 0x44, 0x18, 0x31, 0x06, 0x4c, 0x7c, 0x44, 0x16,
         0x34, 0x04, 0xe0, 0x08, 0x1d, 0x0a, 0x68, 0x89, 0x18, 0x88, 0x47, 0x01, 0x00, 0xa1, 0x42,
         0xf8, 0xd1, 0x10, 0xbd, 0xc0, 0x00, 0x00, 0x00, 0xd0, 0x00, 0x00, 0x00, 0x0e, 0xb4, 0x00,
         0xb5, 0x82, 0xb0, 0x03, 0xa9, 0x00, 0x91, 0x6b, 0x46, 0x02, 0x00, 0x01, 0x21, 0x03, 0x48,
         0x78, 0x44, 0x0a, 0x30, 0xff, 0xf7, 0x76, 0xfe, 0x02, 0x99, 0x06, 0xb0, 0x08, 0x47, 0x05,
         0x01, 0x00, 0x00, 0x38, 0xb5, 0x04, 0x00, 0x00, 0x25, 0xed, 0x43, 0xac, 0x42, 0x09, 0xd0,
         0x69, 0x46, 0x08, 0x70, 0x01, 0x22, 0x01, 0x20, 0x00, 0xf0, 0x06, 0xf8, 0x01, 0x28, 0x01,
         0xd1, 0x20, 0x00, 0x32, 0xbd, 0x28, 0x00, 0x32, 0xbd, 0x80, 0xb5, 0x00, 0x28, 0x02, 0xd4,
         0x00, 0xf0, 0x03, 0xf8, 0x02, 0xbd, 0x00, 0x20, 0x02, 0xbd, 0x80, 0xb5, 0x00, 0x29, 0x01,
         0xd1, 0x00, 0x20, 0x02, 0xbd, 0x01, 0x28, 0x01, 0xd0, 0x02, 0x28, 0x02, 0xd1, 0x00, 0xf0,
         0x04, 0xf8, 0x02, 0xbd, 0x00, 0xf0, 0x11, 0xf8, 0x02, 0xbd, 0x30, 0xb5, 0x83, 0xb0, 0x0c,
         0x00, 0x15, 0x00, 0x01, 0x20, 0xff, 0xf7, 0x70, 0xff, 0x00, 0x90, 0x01, 0x94, 0x02, 0x95,
         0x69, 0x46, 0x05, 0x20, 0xab, 0xbe, 0x28, 0x1a, 0x03, 0xb0, 0x30, 0xbd, 0x10, 0xb5, 0x84,
         0xb0, 0x03, 0x00, 0x14, 0x00, 0x00, 0x93, 0x01, 0x91, 0x02, 0x94, 0x69, 0x46, 0x05, 0x20,
         0xab, 0xbe, 0x01, 0x22, 0x19, 0x00, 0x20, 0x1a, 0xc0, 0x46, 0xc0, 0x46, 0x04, 0xb0, 0x10,
         0xbd, 0xf1, 0xfe, 0xff, 0xff, 0x08, 0x00, 0x00, 0x00, 0x98, 0x00, 0x00, 0x00, 0x00, 0x00,
         0x00, 0x20, 0x00, 0x00, 0x00, 0x00, 0x00, 0xf0, 0x0b, 0xf8, 0x00, 0x28, 0x01, 0xd0, 0xff,
         0xf7, 0x80, 0xff, 0x00, 0x20, 0xc0, 0x46, 0xc0, 0x46, 0x00, 0xf0, 0x05, 0xf8, 0x00, 0xf0,
         0x0b, 0xf8, 0x01, 0x20, 0x70, 0x47, 0x00, 0x00, 0x80, 0xb5, 0x02, 0x48, 0xff, 0xf7, 0x86,
         0xff, 0x00, 0x20, 0x02, 0xbd, 0x90, 0x04, 0x00, 0x00, 0x80, 0xb5, 0x00, 0xf0, 0x01, 0xf8,
         0x01, 0xbd, 0x07, 0x46, 0x38, 0x46, 0x00, 0xf0, 0x02, 0xf8, 0xfb, 0xe7, 0x00, 0x00, 0x80,
         0xb5, 0xff, 0xf7, 0x0f, 0xff, 0x02, 0x4a, 0x11, 0x00, 0x18, 0x20, 0xab, 0xbe, 0xfb, 0xe7,
         0x26, 0x00, 0x02, 0x00, 0x38, 0xb5, 0x05, 0x00, 0x0c, 0x00, 0x20, 0x00, 0xff, 0xf7, 0x7a,
         0xff, 0xa0, 0x42, 0x00, 0xd0, 0x00, 0x25, 0x28, 0x00, 0x32, 0xbd, 0x00, 0x00, 0x68, 0x65,
         0x6c, 0x6c, 0x6f, 0x2c, 0x20, 0x77, 0x6f, 0x72, 0x6c, 0x64, 0x0a, 0x00, 0x00, 0x00, 0xc0,
         0x46, 0xc0, 0x46, 0xc0, 0x46, 0xc0, 0x46, 0xff, 0xf7, 0xba, 0xff, 0xff, 0xff, 0xff, 0xff,
         0xff, 0xff, 0xff, 0xff];
