use gba_emu::memory::{Memory, MemoryAccess};

#[test]
fn new_memory_regions() {
    let m = Memory::new();
    assert_eq!(m.get_vram().len(), 96 * 1024);
    assert_eq!(m.get_palette().len(), 1024);
    assert_eq!(m.get_rom_size(), 0);
    assert!(m.get_vram().iter().all(|b| *b == 0));
    let d = Memory::default();
    assert_eq!(d.get_palette().len(), 1024);
}

#[test]
fn load_rom_and_read_back() {
    let mut m = Memory::new();
    assert_eq!(m.load_rom(vec![0x78, 0x56, 0x34, 0x12, 0xAA]), Ok(()));
    assert_eq!(m.get_rom_size(), 5);
    assert_eq!(m.read_u32(0x0800_0000), 0x1234_5678);
    assert_eq!(m.read_u16(0x0800_0002), 0x1234);
    assert_eq!(m.read_u8(0x0800_0004), 0xAA);
    // The low mirror of the cartridge at address 0.
    assert_eq!(m.read_u32(0x0000_0000), 0x1234_5678);
    // Past the end of the image reads as 0.
    assert_eq!(m.read_u32(0x0800_0002), 0);
    assert_eq!(m.read_u8(0x0800_0005), 0);
    // The top four address bits are ignored.
    assert_eq!(m.read_u32(0xF800_0000), 0x1234_5678);
}

#[test]
fn load_rom_too_large() {
    let mut m = Memory::new();
    m.load_rom(vec![1, 2, 3, 4]).unwrap();
    let big = vec![0u8; 32 * 1024 * 1024 + 1];
    assert_eq!(m.load_rom(big), Err("ROM too large".to_string()));
    assert_eq!(m.get_rom_size(), 4);
    let exact = vec![0u8; 32 * 1024 * 1024];
    assert_eq!(m.load_rom(exact), Ok(()));
    assert_eq!(m.get_rom_size(), 32 * 1024 * 1024);
}

#[test]
fn rom_ignores_writes() {
    let mut m = Memory::new();
    m.load_rom(vec![1, 2, 3, 4]).unwrap();
    m.write_u32(0x0800_0000, 0xFFFF_FFFF);
    m.write_u16(0x0800_0000, 0xFFFF);
    m.write_u8(0x0800_0000, 0xFF);
    assert_eq!(m.read_u32(0x0800_0000), 0x0403_0201);
}

#[test]
fn work_ram_word_round_trip() {
    let mut m = Memory::new();
    m.write_u32(0x0300_0100, 0xCAFE_BABE);
    assert_eq!(m.read_u32(0x0300_0100), 0xCAFE_BABE);
    assert_eq!(m.read_u16(0x0300_0100), 0xBABE);
    assert_eq!(m.read_u16(0x0300_0102), 0xCAFE);
    assert_eq!(m.read_u8(0x0300_0103), 0xCA);
    // The 0x02000000 window reaches the same 4 KiB by the low 15 bits.
    assert_eq!(m.read_u32(0x0200_0100), 0xCAFE_BABE);
    // Past the 4 KiB, word access reads 0 and ignores writes.
    m.write_u32(0x0300_2000, 7);
    assert_eq!(m.read_u32(0x0300_2000), 0);
}

#[test]
fn halfword_and_byte_round_trips() {
    let mut m = Memory::new();
    m.write_u16(0x0300_0010, 0xBEEF);
    assert_eq!(m.read_u16(0x0300_0010), 0xBEEF);
    m.write_u8(0x0300_0020, 0x5A);
    assert_eq!(m.read_u8(0x0300_0020), 0x5A);
    m.write_u16(0x0600_0000, 0x1234);
    assert_eq!(m.read_u16(0x0600_0000), 0x1234);
    assert_eq!(m.get_vram()[0], 0x34);
    assert_eq!(m.get_vram()[1], 0x12);
    m.write_u8(0x0400_0001, 0x01);
    assert_eq!(m.read_u16(0x0400_0000), 0x0100);
}

#[test]
fn palette_mirror_writes() {
    let mut m = Memory::new();
    // Writes anywhere in the 4 KiB window land in the 1 KiB palette.
    m.write_u16(0x0500_0402, 0x7FFF);
    assert_eq!(m.read_u16(0x0500_0002), 0x7FFF);
    m.write_u32(0x0500_0C04, 0x1122_3344);
    assert_eq!(m.read_u32(0x0500_0004), 0x1122_3344);
    m.write_u8(0x0500_0808, 0x99);
    assert_eq!(m.read_u8(0x0500_0008), 0x99);
    assert_eq!(m.get_palette()[8], 0x99);
}

#[test]
fn io_registers() {
    let mut m = Memory::new();
    m.write_u32(0x0400_0000, 0x0000_0100);
    assert_eq!(m.read_u16(0x0400_0000), 0x0100);
    m.write_u16(0x0400_0008, 0x1F00);
    assert_eq!(m.read_u32(0x0400_0008), 0x1F00);
}

#[test]
fn window_at_0x07000000() {
    let mut m = Memory::new();
    // Word and byte writes reach video RAM.
    m.write_u32(0x0700_0000, 0xA1B2_C3D4);
    assert_eq!(m.read_u32(0x0700_0000), 0xA1B2_C3D4);
    assert_eq!(m.read_u32(0x0600_0000), 0xA1B2_C3D4);
    // Halfword writes reach the OAM, which reads do not see.
    m.write_u16(0x0700_0010, 0xFFFF);
    assert_eq!(m.read_u16(0x0700_0010), 0);
}

#[test]
fn unmapped_reads_zero() {
    let m = Memory::new();
    assert_eq!(m.read_u32(0x0A00_0000), 0);
    assert_eq!(m.read_u16(0x0E00_0000), 0);
    assert_eq!(m.read_u8(0x0410_0000), 0);
}
