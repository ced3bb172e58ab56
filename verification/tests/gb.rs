use gba_emu::gb::cpu::CPU;
use gba_emu::gb::instructions::Instruction;
use gba_emu::gb::ram::RAM;

#[test]
fn ram_write_read() {
    let mut ram = RAM::new();
    assert_eq!(ram.read(0), 0);
    assert_eq!(ram.read(0xFFFF), 0);
    ram.write(0xC000, 0x42);
    assert_eq!(ram.read(0xC000), 0x42);
    assert_eq!(ram.read(0xC001), 0);
    ram.write(0xFFFF, 1);
    assert_eq!(ram.read(0xFFFF), 1);
}

#[test]
fn cpu_stubs() {
    let mut cpu = CPU::new();
    assert!(!cpu.ime);
    assert_eq!(cpu.opcode, 0);
    assert_eq!(cpu.cycles, 0);
    assert_eq!(cpu.fetch_next(), 1);
    assert_eq!(cpu.execute_next(), 1);
    assert!(CPU::decode(0x00, false).is_none());
    assert!(CPU::decode(0xCB, true).is_none());
}

#[test]
fn instruction_entry() {
    let nop = Instruction { opcode: 0x00, name: "NOP", cycles: 1, size: 1 };
    let copy = nop.clone();
    assert_eq!(copy.name, "NOP");
    assert_eq!(copy.cycles, 1);
}
