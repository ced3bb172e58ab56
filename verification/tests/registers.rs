use gba_emu::cpu::registers::{CpuMode, Registers};

#[test]
fn new_registers_are_zero() {
    let regs = Registers::new();
    for i in 0..16 {
        assert_eq!(regs.get_r(i), 0);
    }
    assert_eq!(regs.get_cpsr(), 0);
    assert!(!regs.is_thumb());
}

#[test]
fn register_write_read() {
    let mut regs = Registers::new();
    regs.set_r(3, 0xDEAD_BEEF);
    assert_eq!(regs.get_r(3), 0xDEAD_BEEF);
    assert_eq!(regs.get_r(2), 0);
    regs.set_sp(0x0300_7F00);
    regs.set_lr(0x1234);
    regs.set_pc(0x0800_0000);
    assert_eq!(regs.get_sp(), 0x0300_7F00);
    assert_eq!(regs.get_r(13), 0x0300_7F00);
    assert_eq!(regs.get_lr(), 0x1234);
    assert_eq!(regs.get_r(14), 0x1234);
    assert_eq!(regs.get_pc(), 0x0800_0000);
    assert_eq!(regs.get_r(15), 0x0800_0000);
}

#[test]
fn flag_write_read_keeps_other_flags() {
    let mut regs = Registers::new();
    regs.set_sign(true);
    regs.set_carry(true);
    assert!(regs.get_sign());
    assert!(!regs.get_zero());
    assert!(regs.get_carry());
    assert!(!regs.get_overflow());
    assert_eq!(regs.get_cpsr(), 0xA000_0000);
    regs.set_sign(false);
    regs.set_zero(true);
    regs.set_overflow(true);
    assert!(!regs.get_sign());
    assert!(regs.get_zero());
    assert!(regs.get_carry());
    assert!(regs.get_overflow());
    assert_eq!(regs.get_cpsr(), 0x7000_0000);
}

#[test]
fn thumb_state_bit() {
    let mut regs = Registers::new();
    regs.set_thumb_state(true);
    assert!(regs.is_thumb());
    assert_eq!(regs.get_cpsr(), 0x20);
    regs.set_thumb_state(false);
    assert!(!regs.is_thumb());
    assert_eq!(regs.get_cpsr(), 0);
}

#[test]
fn visible_pc_is_two_instructions_ahead() {
    let mut regs = Registers::new();
    regs.set_pc(0x100);
    assert_eq!(regs.get_visible_pc(), 0x108);
    regs.set_thumb_state(true);
    assert_eq!(regs.get_visible_pc(), 0x104);
    regs.set_pc(0xFFFF_FFFE);
    assert_eq!(regs.get_visible_pc(), 2);
}

#[test]
fn cpu_modes_and_spsr() {
    let mut regs = Registers::new();
    regs.set_cpsr(0x10);
    assert_eq!(regs.get_current_cpu_mode(), CpuMode::User);
    assert!(!regs.has_spsr());
    regs.set_cpsr(0x1F);
    assert_eq!(regs.get_current_cpu_mode(), CpuMode::System);
    assert!(!regs.has_spsr());
    regs.set_cpsr(0x13);
    assert_eq!(regs.get_current_cpu_mode(), CpuMode::Svc);
    assert!(regs.has_spsr());
    regs.set_cpsr(0x11);
    assert_eq!(regs.get_current_cpu_mode(), CpuMode::Fiq);
    regs.set_cpsr(0x12);
    assert_eq!(regs.get_current_cpu_mode(), CpuMode::Irq);
    regs.set_cpsr(0x17);
    assert_eq!(regs.get_current_cpu_mode(), CpuMode::Abort);
    regs.set_cpsr(0x1B);
    assert_eq!(regs.get_current_cpu_mode(), CpuMode::Undef);
    regs.set_cpsr(0x00);
    assert_eq!(regs.get_current_cpu_mode(), CpuMode::Undefined);
    assert!(regs.has_spsr());
    // Only the low five bits select the mode.
    regs.set_cpsr(0xF000_0030);
    assert_eq!(regs.get_current_cpu_mode(), CpuMode::User);
}

#[test]
fn mov_sets_sign_and_zero() {
    let mut regs = Registers::new();
    regs.mov(4, 0);
    assert_eq!(regs.get_r(4), 0);
    assert!(regs.get_zero());
    assert!(!regs.get_sign());
    regs.mov(4, 0x8000_0001);
    assert_eq!(regs.get_r(4), 0x8000_0001);
    assert!(!regs.get_zero());
    assert!(regs.get_sign());
}

#[test]
fn set_flags_from_results() {
    let mut regs = Registers::new();
    let r = gba_emu::cpu::operations::add_with_carry(0xFFFF_FFFF, 1, false);
    regs.set_flags(&r);
    assert!(regs.get_zero());
    assert!(regs.get_carry());
    assert!(!regs.get_sign());
    assert!(!regs.get_overflow());
    let value: u32 = 0x8000_0000;
    regs.set_flags_if(false, &value);
    assert!(regs.get_zero());
    regs.set_flags_if(true, &value);
    assert!(!regs.get_zero());
    assert!(regs.get_sign());
    // u32 results leave C and V alone.
    assert!(regs.get_carry());
}
