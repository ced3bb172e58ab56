use gba_emu::memory::{Memory, MemoryAccess};
use gba_emu::ppu::PPU;

/// Mode 0, BG0 on, screen block 31, char block 0, 4bpp; tile 0 all colour
/// index 1; palette entry 1 is 0x7C00, bits 10..15 full.
fn scene() -> Memory {
    let mut m = Memory::new();
    m.write_u16(0x0400_0000, 0x0100);
    m.write_u16(0x0400_0008, 0x1F00);
    for row in 0..8u32 {
        m.write_u32(0x0600_0000 + row * 4, 0x1111_1111);
    }
    m.write_u16(0x0500_0002, 0x7C00);
    m
}

#[test]
fn new_framebuffer_is_black() {
    let ppu = PPU::new();
    assert_eq!(ppu.get_framebuffer().len(), 240 * 160 * 4);
    assert!(ppu.get_framebuffer().iter().all(|b| *b == 0));
    let d = PPU::default();
    assert_eq!(d.get_framebuffer().len(), 240 * 160 * 4);
}

#[test]
fn rgb555_expansion() {
    assert_eq!(PPU::rgb555_to_rgba8(0x0000), (0, 0, 0));
    assert_eq!(PPU::rgb555_to_rgba8(0x7FFF), (255, 255, 255));
    assert_eq!(PPU::rgb555_to_rgba8(0x7C00), (255, 0, 0));
    assert_eq!(PPU::rgb555_to_rgba8(0x001F), (0, 0, 255));
    assert_eq!(PPU::rgb555_to_rgba8(0x0010 << 5), (0, 132, 0));
}

#[test]
fn render_tiles() {
    let m = scene();
    let mut ppu = PPU::new();
    ppu.render(&m);
    let fb = ppu.get_framebuffer();
    assert_eq!(&fb[0..4], &[255, 0, 0, 255]);
    // Every screen entry is tile 0, so every pixel has colour index 1.
    let last = (159 * 240 + 239) * 4;
    assert_eq!(&fb[last..last + 4], &[255, 0, 0, 255]);
}

#[test]
fn render_colour_zero_is_black() {
    let mut m = scene();
    m.write_u32(0x0600_0000, 0x1111_1110);
    let mut ppu = PPU::new();
    ppu.render(&m);
    let fb = ppu.get_framebuffer();
    assert_eq!(&fb[0..4], &[0, 0, 0, 255]);
    assert_eq!(&fb[4..8], &[255, 0, 0, 255]);
}

#[test]
fn render_skips_other_modes() {
    let mut m = scene();
    m.write_u16(0x0400_0000, 0x0103);
    let mut ppu = PPU::new();
    ppu.render(&m);
    assert!(ppu.get_framebuffer().iter().all(|b| *b == 0));
    m.write_u16(0x0400_0000, 0x0000);
    ppu.render(&m);
    assert!(ppu.get_framebuffer().iter().all(|b| *b == 0));
}

#[test]
fn render_scroll_and_flip() {
    let mut m = scene();
    // Tile 1: a single colour-1 pixel at its top left, others 0.
    m.write_u32(0x0600_0020, 0x0000_0001);
    // Screen entry (0, 0) shows tile 1 flipped horizontally.
    m.write_u16(0x0600_F800, 0x0401);
    let mut ppu = PPU::new();
    ppu.render(&m);
    let fb = ppu.get_framebuffer();
    assert_eq!(&fb[0..4], &[0, 0, 0, 255]);
    assert_eq!(&fb[7 * 4..7 * 4 + 4], &[255, 0, 0, 255]);
    // Scrolling by 7 brings that pixel to x = 0.
    m.write_u16(0x0400_0010, 7);
    ppu.render(&m);
    assert_eq!(&ppu.get_framebuffer()[0..4], &[255, 0, 0, 255]);
}

#[test]
fn step_renders_once_per_frame() {
    let m = scene();
    let mut ppu = PPU::new();
    assert!(!ppu.step(&m, 999));
    assert!(ppu.get_framebuffer().iter().all(|b| *b == 0));
    assert!(ppu.step(&m, 1));
    assert_eq!(&ppu.get_framebuffer()[0..4], &[255, 0, 0, 255]);
    assert!(!ppu.step(&m, 999));
    assert!(ppu.step(&m, 2001));
}
