use gba_emu::gba::GBA;

#[test]
fn new_console() {
    let gba = GBA::new();
    assert_eq!(gba.get_framebuffer().len(), 240 * 160 * 4);
}

#[test]
fn load_rom_boots_the_cpu() {
    let mut gba = GBA::new();
    // MOV r0, #5 ; B . (branch to itself)
    let rom: Vec<u8> = [0xE3A0_0005u32, 0xEAFF_FFFE].iter().flat_map(|w| w.to_le_bytes()).collect();
    assert_eq!(gba.load_rom(rom), Ok(()));
    gba.step();
    gba.step();
    gba.step();
    // The branch loops on itself.
    assert!(!gba.tick());
}

#[test]
fn load_rom_too_large_is_refused() {
    let mut gba = GBA::new();
    assert_eq!(gba.load_rom(vec![0u8; 32 * 1024 * 1024 + 1]), Err("ROM too large".to_string()));
}

#[test]
fn tick_renders_a_frame_eventually() {
    let mut gba = GBA::new();
    // B . : three cycles per instruction, so a frame every 334 ticks.
    let rom: Vec<u8> = 0xEAFF_FFFEu32.to_le_bytes().to_vec();
    gba.load_rom(rom).unwrap();
    let mut ticks = 0;
    while !gba.tick() {
        ticks += 1;
    }
    assert_eq!(ticks, 333);
}

#[test]
fn can_step_and_can_tick_on_a_booted_console() {
    let mut gba = GBA::new();
    let rom: Vec<u8> = 0xEAFF_FFFEu32.to_le_bytes().to_vec();
    gba.load_rom(rom).unwrap();
    assert!(gba.can_step());
    assert!(gba.can_tick());
}

#[test]
fn can_step_refuses_an_undecodable_condition() {
    let mut gba = GBA::new();
    let rom: Vec<u8> = 0xF000_0000u32.to_le_bytes().to_vec();
    gba.load_rom(rom).unwrap();
    assert!(!gba.can_step());
    assert!(!gba.can_tick());
}

#[test]
fn run_frame_renders_a_frame() {
    let mut gba = GBA::new();
    gba.load_rom(0xEAFF_FFFEu32.to_le_bytes().to_vec()).unwrap();
    assert!(gba.run_frame());
    // 334 branches of three cycles each: 1002 cycles, two carried over.
    assert!(gba.run_frame());
}

#[test]
fn run_frame_stops_before_an_instruction_that_cannot_run() {
    let mut gba = GBA::new();
    gba.load_rom(0xF000_0000u32.to_le_bytes().to_vec()).unwrap();
    assert!(!gba.run_frame());
}
