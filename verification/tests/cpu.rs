use gba_emu::cpu::executor::arm_expand_immediate;
use gba_emu::cpu::CPU;
use gba_emu::memory::{Memory, MemoryAccess};

fn arm_rom(words: &[u32]) -> Vec<u8> {
    words.iter().flat_map(|w| w.to_le_bytes()).collect()
}

fn thumb_rom(halves: &[u16]) -> Vec<u8> {
    halves.iter().flat_map(|h| h.to_le_bytes()).collect()
}

/// A word fetch reads 0 unless all four bytes are in the image, so the
/// image is padded past its last instruction.
fn boot(mut rom: Vec<u8>) -> (CPU, Memory) {
    rom.extend([0u8; 4]);
    let mut memory = Memory::new();
    memory.load_rom(rom).unwrap();
    let mut cpu = CPU::new();
    cpu.initialize_gba();
    (cpu, memory)
}

#[test]
fn new_cpu_is_zeroed() {
    let cpu = CPU::new();
    assert_eq!(cpu.get_pc(), 0);
    assert_eq!(cpu.get_cpsr(), 0);
    assert_eq!(cpu.get_total_cycles(), 0);
    assert!(!cpu.is_in_thumb_mode());
}

#[test]
fn initialize_gba_state() {
    let mut cpu = CPU::new();
    cpu.initialize_gba();
    assert_eq!(cpu.get_pc(), 0x0800_0000);
    assert_eq!(cpu.get_registers().get_sp(), 0x0300_7F00);
    assert_eq!(cpu.get_registers().get_lr(), 0x0800_0000);
    assert_eq!(cpu.get_cpsr(), 0x10);
    assert!(!cpu.is_in_thumb_mode());
}

#[test]
fn mode_switches_and_pc() {
    let mut cpu = CPU::new();
    cpu.switch_to_thumb();
    assert!(cpu.is_in_thumb_mode());
    cpu.switch_to_arm();
    assert!(!cpu.is_in_thumb_mode());
    cpu.set_pc(0x1234);
    assert_eq!(cpu.get_pc(), 0x1234);
    cpu.store_prefetch();
    assert_eq!(cpu.get_pc(), 0x1234);
}

#[test]
fn fetch_past_the_image_reads_zero() {
    let mut memory = Memory::new();
    memory.load_rom(vec![0x05, 0x20]).unwrap();
    let mut cpu = CPU::new();
    cpu.initialize_gba();
    assert_eq!(cpu.fetch(&mut memory, true), 0);
}

#[test]
fn fetch_advances_pc() {
    let (mut cpu, mut memory) = boot(arm_rom(&[0x1122_3344, 0x5566_7788]));
    assert_eq!(cpu.fetch(&mut memory, false), 0x1122_3344);
    assert_eq!(cpu.get_pc(), 0x0800_0004);
    assert_eq!(cpu.fetch(&mut memory, true), 0x5566_7788);
    assert_eq!(cpu.get_pc(), 0x0800_0006);
}

#[test]
fn arm_data_processing_and_memory() {
    let program = [
        0xE3A0_0005, // MOV r0, #5
        0xE3A0_1403, // MOV r1, #0x03000000
        0xE581_0000, // STR r0, [r1]
        0xE591_4000, // LDR r4, [r1]
        0xE280_2003, // ADD r2, r0, #3
        0xE240_3001, // SUB r3, r0, #1
    ];
    let (mut cpu, mut memory) = boot(arm_rom(&program));
    let cycles: Vec<u64> = (0..6).map(|_| cpu.fetch_decode_execute(&mut memory)).collect();
    assert_eq!(cycles, vec![1, 1, 2, 3, 1, 1]);
    let regs = cpu.get_registers();
    assert_eq!(regs.get_r(0), 5);
    assert_eq!(regs.get_r(1), 0x0300_0000);
    assert_eq!(memory.read_u32(0x0300_0000), 5);
    assert_eq!(regs.get_r(4), 5);
    assert_eq!(regs.get_r(2), 8);
    assert_eq!(regs.get_r(3), 4);
    assert_eq!(cpu.get_pc(), 0x0800_0018);
    assert_eq!(cpu.get_total_cycles(), 9);
}

#[test]
fn arm_flags_and_conditions() {
    let program = [
        0xE3B0_0000, // MOVS r0, #0  -> Z
        0x03A0_1001, // MOVEQ r1, #1 -> runs
        0x13A0_2001, // MOVNE r2, #1 -> skipped
        0xE3A0_3001, // MOV r3, #1
    ];
    let (mut cpu, mut memory) = boot(arm_rom(&program));
    assert_eq!(cpu.fetch_decode_execute(&mut memory), 1);
    assert!(cpu.get_registers().get_zero());
    assert_eq!(cpu.fetch_decode_execute(&mut memory), 1);
    assert_eq!(cpu.fetch_decode_execute(&mut memory), 1);
    cpu.fetch_decode_execute(&mut memory);
    let regs = cpu.get_registers();
    assert_eq!(regs.get_r(1), 1);
    assert_eq!(regs.get_r(2), 0);
    assert_eq!(regs.get_r(3), 1);
}

#[test]
fn arm_branch_and_link() {
    let (mut cpu, mut memory) = boot(arm_rom(&[0xEA00_0001]));
    assert_eq!(cpu.fetch_decode_execute(&mut memory), 3);
    // B lands at the branch address + 8 + 4 * offset.
    assert_eq!(cpu.get_pc(), 0x0800_000C);

    let (mut cpu, mut memory) = boot(arm_rom(&[0xEB00_0001]));
    assert_eq!(cpu.fetch_decode_execute(&mut memory), 3);
    // BL lands where B would and links the address after the BL.
    assert_eq!(cpu.get_pc(), 0x0800_000C);
    assert_eq!(cpu.get_registers().get_lr(), 0x0800_0004);

    // A negative offset: B -2 from 0x08000004 lands at 0x08000004.
    let (mut cpu, mut memory) = boot(arm_rom(&[0xE1A0_0000, 0xEAFF_FFFE]));
    cpu.fetch_decode_execute(&mut memory);
    cpu.fetch_decode_execute(&mut memory);
    assert_eq!(cpu.get_pc(), 0x0800_0004);
}

#[test]
fn arm_software_interrupt_and_bkpt() {
    let (mut cpu, mut memory) = boot(arm_rom(&[0xEF00_0042]));
    assert_eq!(cpu.fetch_decode_execute(&mut memory), 3);
    assert_eq!(cpu.get_pc(), 0x08);
    assert_eq!(cpu.get_cpsr(), 0x13);
    assert_eq!(cpu.get_registers().get_lr(), 0x0800_0000);
    assert_eq!(cpu.get_registers().get_r(0), 0x42);

    let mut cpu = CPU::new();
    cpu.set_pc(0x100);
    assert_eq!(cpu.arm_bkpt(0xE120_0070), 3);
    assert_eq!(cpu.get_pc(), 0x0C);
    assert_eq!(cpu.get_cpsr(), 0x17);
    assert_eq!(cpu.get_registers().get_lr(), 0xFC);
    assert_eq!(cpu.get_registers().get_r(0), 0x0_0070);

    let mut cpu = CPU::new();
    cpu.set_pc(0x20);
    assert_eq!(cpu.arm_undefined(0), 3);
    assert_eq!(cpu.get_pc(), 0x04);
    assert_eq!(cpu.get_cpsr(), 0x1B);
    assert_eq!(cpu.get_registers().get_lr(), 0x1C);
}

#[test]
fn arm_block_transfer_round_trip() {
    let program = [
        0xE3A0_1403, // MOV r1, #0x03000000
        0xE3A0_0007, // MOV r0, #7
        0xE3A0_2009, // MOV r2, #9
        0xE8A1_0005, // STMIA r1!, {r0, r2}
        0xE931_0018, // LDMDB r1!, {r3, r4}
    ];
    let (mut cpu, mut memory) = boot(arm_rom(&program));
    for _ in 0..3 {
        cpu.fetch_decode_execute(&mut memory);
    }
    assert_eq!(cpu.fetch_decode_execute(&mut memory), 4);
    assert_eq!(memory.read_u32(0x0300_0000), 7);
    assert_eq!(memory.read_u32(0x0300_0004), 9);
    assert_eq!(cpu.get_registers().get_r(1), 0x0300_0008);
    assert_eq!(cpu.fetch_decode_execute(&mut memory), 3);
    let regs = cpu.get_registers();
    assert_eq!(regs.get_r(3), 7);
    assert_eq!(regs.get_r(4), 9);
    assert_eq!(regs.get_r(1), 0x0300_0000);
}

#[test]
fn arm_psr_transfers() {
    let program = [
        0xE10F_0000, // MRS r0, CPSR
        0xE328_F4F0, // MSR CPSR_f, #0xF0000000
    ];
    let (mut cpu, mut memory) = boot(arm_rom(&program));
    assert_eq!(cpu.fetch_decode_execute(&mut memory), 2);
    assert_eq!(cpu.get_registers().get_r(0), 0x10);
    assert_eq!(cpu.fetch_decode_execute(&mut memory), 2);
    assert_eq!(cpu.get_cpsr(), 0xF000_0010);
    let regs = cpu.get_registers();
    assert!(regs.get_sign() && regs.get_zero() && regs.get_carry() && regs.get_overflow());
}

#[test]
fn arm_multiplies() {
    let program = [0xE3A0_0006, 0xE3A0_1007]; // MOV r0, #6; MOV r1, #7
    let (mut cpu, mut memory) = boot(arm_rom(&program));
    cpu.fetch_decode_execute(&mut memory);
    cpu.fetch_decode_execute(&mut memory);
    // MULS r2, r0, r1: 1S + 1I, the multiplier r1 fitting in one byte.
    assert_eq!(cpu.arm_multiply(0xE012_0190), 2);
    assert_eq!(cpu.get_registers().get_r(2), 42);
    assert!(!cpu.get_registers().get_zero());
    // MLA r3, r0, r1, r2
    assert_eq!(cpu.arm_multiply(0xE023_2190), 2);
    assert_eq!(cpu.get_registers().get_r(3), 84);
    // UMULL r4, r5, r0, r1
    assert_eq!(cpu.arm_multiply_long(0xE085_4190), 2);
    assert_eq!(cpu.get_registers().get_r(4), 42);
    assert_eq!(cpu.get_registers().get_r(5), 0);
    // UMULL again: no accumulation
    assert_eq!(cpu.arm_multiply_long(0xE085_4190), 2);
    assert_eq!(cpu.get_registers().get_r(4), 42);
    // UMLAL r4, r5, r0, r1 adds r5:r4
    assert_eq!(cpu.arm_multiply_long(0xE0A5_4190), 2);
    assert_eq!(cpu.get_registers().get_r(4), 84);
    assert_eq!(cpu.get_registers().get_r(5), 0);
}

#[test]
fn arm_halfword_transfers() {
    let program = [
        0xE3A0_1403, // MOV r1, #0x03000000
        0xE3E0_0000, // MVN r0, #0 -> 0xFFFFFFFF
        0xE181_00B2, // STRH r0, [r1, #2]
        0xE191_20B2, // bits 4..8 = 0xB: loads sign-extended (LDRSH)
        0xE191_30D2, // bits 4..8 = 0xD: loads zero-extended (LDRH)
        0xE191_40F2, // bits 4..8 = 0xF: loads 0
    ];
    let (mut cpu, mut memory) = boot(arm_rom(&program));
    cpu.fetch_decode_execute(&mut memory);
    cpu.fetch_decode_execute(&mut memory);
    assert_eq!(cpu.get_registers().get_r(0), 0xFFFF_FFFF);
    assert_eq!(cpu.fetch_decode_execute(&mut memory), 2);
    assert_eq!(memory.read_u16(0x0300_0002), 0xFFFF);
    assert_eq!(memory.read_u16(0x0300_0000), 0);
    assert_eq!(cpu.fetch_decode_execute(&mut memory), 3);
    assert_eq!(cpu.get_registers().get_r(2), 0xFFFF_FFFF);
    assert_eq!(cpu.fetch_decode_execute(&mut memory), 3);
    assert_eq!(cpu.get_registers().get_r(3), 0xFFFF);
    cpu.set_pc(0x0800_0014);
    assert_eq!(cpu.fetch_decode_execute(&mut memory), 3);
    assert_eq!(cpu.get_registers().get_r(4), 0);
}

#[test]
fn arm_swap() {
    let program = [
        0xE3A0_1403, // MOV r1, #0x03000000
        0xE3A0_0011, // MOV r0, #0x11
        0xE581_0000, // STR r0, [r1]
        0xE3A0_2022, // MOV r2, #0x22
    ];
    let (mut cpu, mut memory) = boot(arm_rom(&program));
    for _ in 0..4 {
        cpu.fetch_decode_execute(&mut memory);
    }
    // SWP r3, r2, [r1]
    assert_eq!(cpu.arm_single_data_swap(&mut memory, 0xE101_3092), 4);
    assert_eq!(cpu.get_registers().get_r(3), 0x11);
    assert_eq!(memory.read_u32(0x0300_0000), 0x22);
}

#[test]
fn arm_expand_immediates() {
    assert_eq!(arm_expand_immediate(0x0FF), 0xFF);
    assert_eq!(arm_expand_immediate(0x403), 0x0300_0000);
    assert_eq!(arm_expand_immediate(0x1FF), 0xC000_003F);
    assert_eq!(arm_expand_immediate(0xF01), 0x4);
}

#[test]
fn thumb_alu_and_shifts() {
    let program = [
        0x2005, // MOV r0, #5
        0x0081, // LSL r1, r0, #2
        0x3003, // ADD r0, #3
        0x2808, // CMP r0, #8
        0x4042, // EOR r2, r0
    ];
    let (mut cpu, mut memory) = boot(thumb_rom(&program));
    cpu.switch_to_thumb();
    for _ in 0..5 {
        assert_eq!(cpu.fetch_decode_execute(&mut memory), 1);
    }
    let regs = cpu.get_registers();
    assert_eq!(regs.get_r(0), 8);
    assert_eq!(regs.get_r(1), 20);
    assert!(!regs.get_zero());
    assert_eq!(regs.get_r(2), 8);
    assert_eq!(cpu.get_pc(), 0x0800_000A);
}

#[test]
fn thumb_alu_multiply_and_neg() {
    let program = [
        0x2006, // MOV r0, #6
        0x2107, // MOV r1, #7
        0x4348, // MUL r0, r1
        0x424A, // NEG r2, r1
    ];
    let (mut cpu, mut memory) = boot(thumb_rom(&program));
    cpu.switch_to_thumb();
    cpu.fetch_decode_execute(&mut memory);
    cpu.fetch_decode_execute(&mut memory);
    assert_eq!(cpu.fetch_decode_execute(&mut memory), 2);
    assert_eq!(cpu.get_registers().get_r(0), 42);
    assert_eq!(cpu.fetch_decode_execute(&mut memory), 1);
    assert_eq!(cpu.get_registers().get_r(2), 0xFFFF_FFF9);
}

#[test]
fn thumb_push_pop_round_trip() {
    // ARM: MOV sp, #0x03000000; ADD sp, sp, #0x100
    let mut rom = arm_rom(&[0xE3A0_D403, 0xE28D_DC01]);
    rom.extend(thumb_rom(&[
        0x2011, // MOV r0, #0x11
        0x2122, // MOV r1, #0x22
        0xB403, // PUSH {r0, r1}
        0x2000, // MOV r0, #0
        0x2100, // MOV r1, #0
        0xBC03, // POP {r0, r1}
    ]));
    let (mut cpu, mut memory) = boot(rom);
    cpu.fetch_decode_execute(&mut memory);
    cpu.fetch_decode_execute(&mut memory);
    assert_eq!(cpu.get_registers().get_sp(), 0x0300_0100);
    cpu.switch_to_thumb();
    cpu.fetch_decode_execute(&mut memory);
    cpu.fetch_decode_execute(&mut memory);
    assert_eq!(cpu.fetch_decode_execute(&mut memory), 3);
    assert_eq!(cpu.get_registers().get_sp(), 0x0300_00F8);
    assert_eq!(memory.read_u32(0x0300_00F8), 0x11);
    assert_eq!(memory.read_u32(0x0300_00FC), 0x22);
    cpu.fetch_decode_execute(&mut memory);
    cpu.fetch_decode_execute(&mut memory);
    assert_eq!(cpu.fetch_decode_execute(&mut memory), 4);
    let regs = cpu.get_registers();
    assert_eq!(regs.get_r(0), 0x11);
    assert_eq!(regs.get_r(1), 0x22);
    assert_eq!(regs.get_sp(), 0x0300_0100);
}

#[test]
fn thumb_loads_and_stores() {
    // ARM: MOV r1, #0x03000000
    let mut rom = arm_rom(&[0xE3A0_1403]);
    rom.extend(thumb_rom(&[
        0x20FF, // MOV r0, #0xFF
        0x6008, // STR r0, [r1, #0]
        0x680A, // LDR r2, [r1, #0]
        0x7048, // STRB r0, [r1, #1]
    ]));
    let (mut cpu, mut memory) = boot(rom);
    cpu.fetch_decode_execute(&mut memory);
    cpu.switch_to_thumb();
    cpu.fetch_decode_execute(&mut memory);
    assert_eq!(cpu.fetch_decode_execute(&mut memory), 2);
    assert_eq!(memory.read_u32(0x0300_0000), 0xFF);
    assert_eq!(cpu.fetch_decode_execute(&mut memory), 3);
    assert_eq!(cpu.get_registers().get_r(2), 0xFF);
    assert_eq!(cpu.fetch_decode_execute(&mut memory), 2);
    assert_eq!(memory.read_u16(0x0300_0000), 0xFFFF);
}

#[test]
fn thumb_branches() {
    // B +2 from 0x08000000: the visible PC is the fetched PC (0x08000002)
    // plus 4, and the offset is 2 halfwords.
    let (mut cpu, mut memory) = boot(thumb_rom(&[0xE002]));
    cpu.switch_to_thumb();
    assert_eq!(cpu.fetch_decode_execute(&mut memory), 3);
    assert_eq!(cpu.get_pc(), 0x0800_000A);

    // BEQ with Z clear falls through in one cycle; BNE is taken.
    let (mut cpu, mut memory) = boot(thumb_rom(&[0xD002, 0xD102]));
    cpu.switch_to_thumb();
    assert_eq!(cpu.fetch_decode_execute(&mut memory), 1);
    assert_eq!(cpu.get_pc(), 0x0800_0002);
    assert_eq!(cpu.fetch_decode_execute(&mut memory), 3);
    assert_eq!(cpu.get_pc(), 0x0800_000C);

    // BL pair: high part then low part.
    let (mut cpu, mut memory) = boot(thumb_rom(&[0xF000, 0xF802]));
    cpu.switch_to_thumb();
    assert_eq!(cpu.fetch_decode_execute(&mut memory), 1);
    assert_eq!(cpu.get_registers().get_lr(), 0x0800_0006);
    assert_eq!(cpu.fetch_decode_execute(&mut memory), 3);
    assert_eq!(cpu.get_pc(), 0x0800_000A);
    assert_eq!(cpu.get_registers().get_lr(), 0x0800_0007);
    assert!(cpu.is_in_thumb_mode());
}

#[test]
fn thumb_hi_register_bx() {
    // ARM: MOV r0, #0x03000000 ; ADD r0, r0, #1 ; MOV r8, r0
    let mut rom = arm_rom(&[0xE3A0_0403, 0xE280_0001, 0xE1A0_8000]);
    rom.extend(thumb_rom(&[0x4740])); // BX r8 (H2 set)
    let (mut cpu, mut memory) = boot(rom);
    cpu.fetch_decode_execute(&mut memory);
    cpu.fetch_decode_execute(&mut memory);
    cpu.fetch_decode_execute(&mut memory);
    cpu.switch_to_thumb();
    assert_eq!(cpu.fetch_decode_execute(&mut memory), 2);
    // Bit 0 set: stays in Thumb state with PC = r0 unchanged.
    assert_eq!(cpu.get_pc(), 0x0300_0001);
    assert!(cpu.is_in_thumb_mode());
}

#[test]
fn thumb_stack_and_address_arithmetic() {
    let (mut cpu, mut memory) = boot(thumb_rom(&[
        0xB004, // ADD SP, #4
        0xB084, // SUB SP, #4
        0xA901, // ADD r1, SP, #1
        0xA001, // ADD r0, PC, #1
    ]));
    cpu.switch_to_thumb();
    cpu.fetch_decode_execute(&mut memory);
    assert_eq!(cpu.get_registers().get_sp(), 0x0300_7F04);
    cpu.fetch_decode_execute(&mut memory);
    assert_eq!(cpu.get_registers().get_sp(), 0x0300_7F00);
    cpu.fetch_decode_execute(&mut memory);
    assert_eq!(cpu.get_registers().get_r(1), 0x0300_7F01);
    cpu.fetch_decode_execute(&mut memory);
    // PC after fetch is 0x08000008; (PC + 4) with bit 1 clear, plus 1.
    assert_eq!(cpu.get_registers().get_r(0), 0x0800_000D);
}

#[test]
fn thumb_software_interrupt_and_breakpoint() {
    let mut cpu = CPU::new();
    cpu.set_pc(0x100);
    assert_eq!(cpu.thumb_software_interrupt(0xDF07), 3);
    assert_eq!(cpu.get_pc(), 0x8);
    assert_eq!(cpu.get_cpsr(), 0x13);
    assert_eq!(cpu.get_registers().get_r(0), 7);
    assert_eq!(cpu.thumb_breakpoint(0xBE09), 3);
    assert_eq!(cpu.get_pc(), 0xC);
    assert_eq!(cpu.get_cpsr(), 0x17);
    assert_eq!(cpu.get_registers().get_r(0), 9);
}

#[test]
fn cycle_is_safe_accepts_an_ordinary_instruction() {
    // MOV r0, #5
    let (cpu, memory) = boot(arm_rom(&[0xE3A0_0005]));
    assert!(cpu.cycle_is_safe(&memory));
}

#[test]
fn cycle_is_safe_refuses_the_never_condition() {
    // Condition field 0xF names no condition.
    let (cpu, memory) = boot(arm_rom(&[0xF3A0_0005]));
    assert!(!cpu.cycle_is_safe(&memory));
}

#[test]
fn thumb_add_subtract_runs_from_a_fetch() {
    // MOV r1, #5 ; ADD r0, r1, r1 ; SUB r2, r0, #1
    let (mut cpu, mut memory) = boot(thumb_rom(&[0x2105, 0x1848, 0x1E42]));
    cpu.switch_to_thumb();
    run(&mut cpu, &mut memory, 3);
    assert_eq!(cpu.get_registers().get_r(0), 10);
    assert_eq!(cpu.get_registers().get_r(2), 9);
}

#[test]
fn cycle_is_safe_refuses_a_push_below_address_zero() {
    // MOV sp, #0 ; then in Thumb state PUSH {r0}
    let (mut cpu, mut memory) = boot(arm_rom(&[0xE3A0_D000, 0x0000_B401]));
    assert!(cpu.cycle_is_safe(&memory));
    cpu.fetch_decode_execute(&mut memory);
    assert_eq!(cpu.get_registers().get_sp(), 0);
    cpu.switch_to_thumb();
    assert!(!cpu.cycle_is_safe(&memory));
}

#[test]
fn thumb_push_then_pop_restores_registers() {
    // MOV sp, #0x03000000 ; ADD sp, sp, #0x100 ; MOV r0, #7 ; MOV r1, #9
    let mut rom = arm_rom(&[0xE3A0_D403, 0xE28D_DC01, 0xE3A0_0007, 0xE3A0_1009]);
    // PUSH {r0, r1} ; MOV r0, #0 ; MOV r1, #0 ; POP {r0, r1}
    rom.extend(thumb_rom(&[0xB403, 0x2000, 0x2100, 0xBC03]));
    let (mut cpu, mut memory) = boot(rom);
    for _ in 0..4 {
        assert!(cpu.cycle_is_safe(&memory));
        cpu.fetch_decode_execute(&mut memory);
    }
    assert_eq!(cpu.get_registers().get_sp(), 0x0300_0100);
    cpu.switch_to_thumb();
    assert!(cpu.cycle_is_safe(&memory));
    cpu.fetch_decode_execute(&mut memory);
    assert_eq!(cpu.get_registers().get_sp(), 0x0300_00F8);
    assert_eq!(memory.read_u32(0x0300_00F8), 7);
    assert_eq!(memory.read_u32(0x0300_00FC), 9);
    for _ in 0..3 {
        assert!(cpu.cycle_is_safe(&memory));
        cpu.fetch_decode_execute(&mut memory);
    }
    assert_eq!(cpu.get_registers().get_r(0), 7);
    assert_eq!(cpu.get_registers().get_r(1), 9);
    assert_eq!(cpu.get_registers().get_sp(), 0x0300_0100);
}

#[test]
fn push_to_the_default_stack_is_lost() {
    // Only the first 4 KiB of internal RAM is backed: the words pushed at
    // the post-BIOS stack 0x03007F00 read back as 0.
    // MOV r0, #7 ; then Thumb PUSH {r0} ; POP {r1}
    let mut rom = arm_rom(&[0xE3A0_0007]);
    rom.extend(thumb_rom(&[0xB401, 0xBC02]));
    let (mut cpu, mut memory) = boot(rom);
    cpu.fetch_decode_execute(&mut memory);
    cpu.switch_to_thumb();
    cpu.fetch_decode_execute(&mut memory);
    cpu.fetch_decode_execute(&mut memory);
    assert_eq!(cpu.get_registers().get_r(1), 0);
    assert_eq!(cpu.get_registers().get_sp(), 0x0300_7F00);
}

#[test]
fn arm_push_then_pop_restores_registers() {
    // MOV sp, #0x03000000 ; ADD sp, sp, #0x100 ; MOV r0, #7 ; MOV r1, #9 ;
    // STMDB sp!, {r0, r1} ; MOV r0, #0 ; MOV r1, #0 ; LDMIA sp!, {r0, r1}
    let (mut cpu, mut memory) = boot(arm_rom(&[
        0xE3A0_D403, 0xE28D_DC01, 0xE3A0_0007, 0xE3A0_1009, 0xE92D_0003, 0xE3A0_0000,
        0xE3A0_1000, 0xE8BD_0003,
    ]));
    for _ in 0..5 {
        assert!(cpu.cycle_is_safe(&memory));
        cpu.fetch_decode_execute(&mut memory);
    }
    assert_eq!(cpu.get_registers().get_sp(), 0x0300_00F8);
    assert_eq!(memory.read_u32(0x0300_00F8), 7);
    assert_eq!(memory.read_u32(0x0300_00FC), 9);
    for _ in 0..3 {
        assert!(cpu.cycle_is_safe(&memory));
        cpu.fetch_decode_execute(&mut memory);
    }
    assert_eq!(cpu.get_registers().get_r(0), 7);
    assert_eq!(cpu.get_registers().get_r(1), 9);
    assert_eq!(cpu.get_registers().get_sp(), 0x0300_0100);
}

/// Runs `n` instructions, each checked to be safe first.
fn run(cpu: &mut CPU, memory: &mut Memory, n: usize) {
    for _ in 0..n {
        assert!(cpu.cycle_is_safe(memory));
        cpu.fetch_decode_execute(memory);
    }
}

#[test]
fn arm_subtract_and_compare_ignore_the_carry() {
    // MOV r1, #5 ; SUBS r0, r1, #1 ; CMP r0, #4 ; MSR CPSR_f, #C ; ADDS r2, r1, #1 ; CMN r1, #1
    let (mut cpu, mut memory) = boot(arm_rom(&[
        0xE3A0_1005, 0xE251_0001, 0xE350_0004, 0xE328_F420, 0xE291_2001, 0xE371_0001,
    ]));
    run(&mut cpu, &mut memory, 2);
    assert_eq!(cpu.get_registers().get_r(0), 4);
    assert!(cpu.get_registers().get_carry());
    assert!(!cpu.get_registers().get_zero());
    run(&mut cpu, &mut memory, 1);
    assert!(cpu.get_registers().get_zero());
    assert!(cpu.get_registers().get_carry());
    assert!(!cpu.get_registers().get_sign());
    run(&mut cpu, &mut memory, 2);
    assert_eq!(cpu.get_registers().get_r(2), 6);
    assert!(!cpu.get_registers().get_carry());
    run(&mut cpu, &mut memory, 1);
    assert!(!cpu.get_registers().get_zero());
}

#[test]
fn arm_add_with_carry_uses_the_carry() {
    // MOV r1, #5 ; MSR CPSR_f, #C ; ADC r0, r1, #1 ; SBC r2, r1, #1
    let (mut cpu, mut memory) = boot(arm_rom(&[0xE3A0_1005, 0xE328_F420, 0xE2A1_0001, 0xE2C1_2001]));
    run(&mut cpu, &mut memory, 4);
    assert_eq!(cpu.get_registers().get_r(0), 7);
    assert_eq!(cpu.get_registers().get_r(2), 4);
}

#[test]
fn arm_long_multiplies_signed_and_unsigned() {
    // MOV r0, #7 ; MVN r2, #0 ; MOV r3, #2
    let (mut cpu, mut memory) = boot(arm_rom(&[0xE3A0_0007, 0xE3E0_2000, 0xE3A0_3002]));
    run(&mut cpu, &mut memory, 3);
    // UMULL r0, r1, r2, r3: 0xFFFFFFFF * 2
    assert_eq!(cpu.arm_multiply_long(0xE081_0392), 2);
    assert_eq!(cpu.get_registers().get_r(0), 0xFFFF_FFFE);
    assert_eq!(cpu.get_registers().get_r(1), 1);
    // SMULL r0, r1, r2, r3: -1 * 2
    assert_eq!(cpu.arm_multiply_long(0xE0C1_0392), 2);
    assert_eq!(cpu.get_registers().get_r(0), 0xFFFF_FFFE);
    assert_eq!(cpu.get_registers().get_r(1), 0xFFFF_FFFF);
    // SMLAL r0, r1, r2, r3: -2 + -2
    assert_eq!(cpu.arm_multiply_long(0xE0E1_0392), 2);
    assert_eq!(cpu.get_registers().get_r(0), 0xFFFF_FFFC);
    assert_eq!(cpu.get_registers().get_r(1), 0xFFFF_FFFF);
}

#[test]
fn arm_multiply_cycles_follow_the_multiplier() {
    // MOV r1, #3 ; MOV r2, #0x10000 ; MLA r0, r1, r2, r3 ; MUL r0, r2, r1
    let (mut cpu, mut memory) = boot(arm_rom(&[0xE3A0_1003, 0xE3A0_2801]));
    run(&mut cpu, &mut memory, 2);
    // Multiplier r2 = 0x10000: three significant bytes, m = 3.
    assert_eq!(cpu.arm_multiply(0xE020_3291), 4);
    // Multiplier r1 = 3: m = 1.
    assert_eq!(cpu.arm_multiply(0xE000_0192), 2);
}

#[test]
fn arm_ldr_post_indexed_updates_the_base() {
    // MOV r1, #0x03000000 ; MOV r0, #9 ; STR r0, [r1] ; LDR r2, [r1], #4 ; STR r0, [r1, #4]!
    let (mut cpu, mut memory) = boot(arm_rom(&[
        0xE3A0_1403, 0xE3A0_0009, 0xE581_0000, 0xE491_2004, 0xE5A1_0004,
    ]));
    run(&mut cpu, &mut memory, 4);
    assert_eq!(cpu.get_registers().get_r(2), 9);
    assert_eq!(cpu.get_registers().get_r(1), 0x0300_0004);
    run(&mut cpu, &mut memory, 1);
    assert_eq!(cpu.get_registers().get_r(1), 0x0300_0008);
    assert_eq!(memory.read_u32(0x0300_0008), 9);
}

#[test]
fn arm_block_transfer_indexing_modes() {
    // MOV r1, #0x03000000 ; MOV r0, #7 ; STR r0, [r1, #4] ; MOV r0, #8 ; STR r0, [r1, #8]
    // LDMIB r1, {r2} ; LDMIA r1, {r3} ; ADD r4, r1, #8 ; LDMDA r4, {r5} ; LDMDB r4!, {r6}
    let (mut cpu, mut memory) = boot(arm_rom(&[
        0xE3A0_1403, 0xE3A0_0007, 0xE581_0004, 0xE3A0_0008, 0xE581_0008, 0xE991_0004,
        0xE891_0008, 0xE281_4008, 0xE814_0020, 0xE934_0040,
    ]));
    run(&mut cpu, &mut memory, 7);
    assert_eq!(cpu.get_registers().get_r(2), 7);
    assert_eq!(cpu.get_registers().get_r(3), 0);
    run(&mut cpu, &mut memory, 3);
    assert_eq!(cpu.get_registers().get_r(5), 8);
    assert_eq!(cpu.get_registers().get_r(6), 7);
    assert_eq!(cpu.get_registers().get_r(4), 0x0300_0004);
}

#[test]
fn thumb_add_subtract_ignore_the_carry() {
    // ARM: MOV r1, #5 ; MSR CPSR_f, #C ; then Thumb CMP r1, #5 ; ADD r3, #1 ; CMN r1, r1
    let mut rom = arm_rom(&[0xE3A0_1005, 0xE328_F420]);
    rom.extend(thumb_rom(&[0x2905, 0x3301, 0x42C9]));
    let (mut cpu, mut memory) = boot(rom);
    run(&mut cpu, &mut memory, 2);
    assert!(cpu.get_registers().get_carry());
    // Format 2 decodes to the shifted-register move, so its executor is
    // called directly: ADD r0, r1, #1 ; SUB r2, r1, #1.
    assert_eq!(cpu.thumb_add_subtract(0x1C48), 1);
    assert_eq!(cpu.get_registers().get_r(0), 6);
    assert!(!cpu.get_registers().get_carry());
    assert_eq!(cpu.thumb_add_subtract(0x1E4A), 1);
    assert_eq!(cpu.get_registers().get_r(2), 4);
    assert!(cpu.get_registers().get_carry());
    cpu.switch_to_thumb();
    run(&mut cpu, &mut memory, 1);
    assert!(cpu.get_registers().get_zero());
    run(&mut cpu, &mut memory, 1);
    assert_eq!(cpu.get_registers().get_r(3), 1);
    run(&mut cpu, &mut memory, 1);
    assert!(!cpu.get_registers().get_zero());
    assert!(!cpu.get_registers().get_carry());
}

#[test]
fn thumb_alu_orr_and_zero_shifts() {
    // MOV r0, #0x0F ; MOV r1, #0xF0 ; ORR r0, r1 ; MOV r2, #0 ; MOV r3, #0x80 ; LSR r3, r2 ;
    // ASR r3, r2 ; ROR r3, r2
    let (mut cpu, mut memory) = boot(thumb_rom(&[
        0x200F, 0x21F0, 0x4308, 0x2200, 0x2380, 0x40D3, 0x4113, 0x41D3,
    ]));
    cpu.switch_to_thumb();
    run(&mut cpu, &mut memory, 3);
    assert_eq!(cpu.get_registers().get_r(0), 0xFF);
    assert!(!cpu.get_registers().get_zero());
    // MOV r2, #0 sets Z; the shifts by r2 keep r3 and the carry.
    run(&mut cpu, &mut memory, 2);
    let carry = cpu.get_registers().get_carry();
    for _ in 0..3 {
        run(&mut cpu, &mut memory, 1);
        assert_eq!(cpu.get_registers().get_r(3), 0x80);
        assert_eq!(cpu.get_registers().get_carry(), carry);
    }
}

#[test]
fn thumb_push_lr_then_pop_pc() {
    // MOV sp, #0x03000000 ; ADD sp, sp, #0x100 ; MOV r0, #7 ; MOV lr, #0x08000000 ;
    // Thumb PUSH {r0, lr} ; MOV r0, #0 ; POP {r0, pc}
    let mut rom = arm_rom(&[0xE3A0_D403, 0xE28D_DC01, 0xE3A0_0007, 0xE3A0_E302]);
    rom.extend(thumb_rom(&[0xB501, 0x2000, 0xBD01]));
    let (mut cpu, mut memory) = boot(rom);
    run(&mut cpu, &mut memory, 4);
    cpu.switch_to_thumb();
    run(&mut cpu, &mut memory, 3);
    assert_eq!(cpu.get_registers().get_r(0), 7);
    assert_eq!(cpu.get_registers().get_sp(), 0x0300_0100);
    assert_eq!(cpu.get_pc(), 0x0800_0000);
}

#[test]
fn thumb_hi_register_add_and_compare_ignore_the_carry() {
    // MOV r0, #5 ; MOV r9, #5 ; MSR CPSR_f, #C
    let (mut cpu, mut memory) = boot(arm_rom(&[0xE3A0_0005, 0xE3A0_9005, 0xE328_F420]));
    run(&mut cpu, &mut memory, 3);
    // ADD r0, r9
    assert_eq!(cpu.thumb_hi_register_operations_branch_exchange(0x4448), 1);
    assert_eq!(cpu.get_registers().get_r(0), 10);
    assert!(!cpu.get_registers().get_carry());
    // CMP r0, r9: 10 - 5, no borrow
    assert_eq!(cpu.thumb_hi_register_operations_branch_exchange(0x4548), 1);
    assert!(cpu.get_registers().get_carry());
    assert!(!cpu.get_registers().get_zero());
}

#[test]
fn thumb_hi_register_moves_reach_the_high_registers() {
    // MOV r0, #0x34 ; then Thumb MOV r8, r0 ; MOV r1, r8 ; MOV pc, r8 is not run
    let mut rom = arm_rom(&[0xE3A0_0034]);
    rom.extend(thumb_rom(&[0x4680, 0x4641]));
    let (mut cpu, mut memory) = boot(rom);
    run(&mut cpu, &mut memory, 1);
    cpu.switch_to_thumb();
    run(&mut cpu, &mut memory, 1);
    assert_eq!(cpu.get_registers().get_r(8), 0x34);
    assert_eq!(cpu.get_registers().get_r(0), 0x34);
    run(&mut cpu, &mut memory, 1);
    assert_eq!(cpu.get_registers().get_r(1), 0x34);
}

#[test]
fn thumb_hi_register_blx_links() {
    // MOV r0, #0x03000000 ; then Thumb BX with Rd = 15 (H1 set, bits 0..3 =
    // 7): BLX r0.
    let mut rom = arm_rom(&[0xE3A0_0403]);
    rom.extend(thumb_rom(&[0x4787]));
    let (mut cpu, mut memory) = boot(rom);
    run(&mut cpu, &mut memory, 1);
    cpu.switch_to_thumb();
    assert!(cpu.cycle_is_safe(&memory));
    assert_eq!(cpu.fetch_decode_execute(&mut memory), 2);
    // Bit 0 of r0 clear: ARM state, PC = r0, LR = visible PC (ARM) + 4.
    assert_eq!(cpu.get_pc(), 0x0300_0000);
    assert!(!cpu.is_in_thumb_mode());
    assert_eq!(cpu.get_registers().get_lr(), 0x0300_000C);
}

#[test]
fn thumb_push_lr_alone() {
    // MOV sp, #0x03000000 ; ADD sp, sp, #0x100 ; MOV lr, #0x08000000 ; Thumb PUSH {LR}
    let mut rom = arm_rom(&[0xE3A0_D403, 0xE28D_DC01, 0xE3A0_E302]);
    rom.extend(thumb_rom(&[0xB500]));
    let (mut cpu, mut memory) = boot(rom);
    run(&mut cpu, &mut memory, 3);
    cpu.switch_to_thumb();
    assert!(cpu.cycle_is_safe(&memory));
    assert_eq!(cpu.fetch_decode_execute(&mut memory), 2);
    assert_eq!(cpu.get_registers().get_sp(), 0x0300_00FC);
    assert_eq!(memory.read_u32(0x0300_00FC), 0x0800_0000);
}

#[test]
fn thumb_push_cycles_count_lr() {
    // PUSH {r0, LR}: two words, (2-1)S + 2N.
    let mut rom = arm_rom(&[0xE3A0_D403, 0xE28D_DC01]);
    rom.extend(thumb_rom(&[0xB501]));
    let (mut cpu, mut memory) = boot(rom);
    run(&mut cpu, &mut memory, 2);
    cpu.switch_to_thumb();
    assert!(cpu.cycle_is_safe(&memory));
    assert_eq!(cpu.fetch_decode_execute(&mut memory), 3);
}

#[test]
fn arm_bx_branches_and_exchanges() {
    // MOV r0, #0x03000000 ; ADD r0, r0, #1 ; BX r0
    let (mut cpu, mut memory) = boot(arm_rom(&[0xE3A0_0403, 0xE280_0001, 0xE12F_FF10]));
    run(&mut cpu, &mut memory, 2);
    assert!(cpu.cycle_is_safe(&memory));
    assert_eq!(cpu.fetch_decode_execute(&mut memory), 2);
    assert_eq!(cpu.get_pc(), 0x0300_0000);
    assert!(cpu.is_in_thumb_mode());
}

#[test]
fn total_cycles_add_up() {
    // MOV r0, #6 ; MOV r1, #7 ; MUL r2, r0, r1 ; B .
    let (mut cpu, mut memory) = boot(arm_rom(&[0xE3A0_0006, 0xE3A0_1007, 0xE002_0190, 0xEAFF_FFFE]));
    let mut sum = 0;
    for _ in 0..6 {
        assert!(cpu.cycle_is_safe(&memory));
        sum += cpu.fetch_decode_execute(&mut memory);
        assert_eq!(cpu.get_total_cycles(), sum);
    }
    assert_eq!(sum, 1 + 1 + 2 + 3 + 3 + 3);
}
