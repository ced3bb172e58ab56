//! The picture processing unit: renders background 0 in video mode 0 into
//! a 240x160 RGBA framebuffer once per frame.
use vstd::prelude::*;
use crate::memory::{
    read_u16_ok, spec_read_u16, spec_read_u8, MemView, Memory, MemoryAccess,
};
use vstd::arithmetic::div_mod::{
    lemma_fundamental_div_mod_converse_div, lemma_fundamental_div_mod_converse_mod,
};

verus! {

pub const SCREEN_WIDTH: usize = 240;
pub const SCREEN_HEIGHT: usize = 160;
/// Bytes in the RGBA framebuffer.
pub const FRAMEBUFFER_SIZE: usize = 153600;
/// Cycles between rendered frames.
pub const CYCLES_PER_FRAME: u64 = 1000;

/// A 5-bit colour channel widened to 8 bits: `(c << 3) | (c >> 2)`.
pub open spec fn expand5(c: u8) -> u8 {
    ((c << 3u8) | (c >> 2u8)) as u8
}

/// The RGB of a BGR555 colour.
pub open spec fn rgb555(color: u16) -> (u8, u8, u8) {
    (
        expand5(((color >> 10u16) & 0x1F) as u8),
        expand5(((color >> 5u16) & 0x1F) as u8),
        expand5((color & 0x1F) as u8),
    )
}

/// The background width and height in pixels of a BG0CNT screen size.
pub open spec fn bg_dims(screen_size: u32) -> (int, int) {
    if screen_size == 0 {
        (256, 256)
    } else if screen_size == 1 {
        (512, 256)
    } else if screen_size == 2 {
        (256, 512)
    } else {
        (512, 512)
    }
}

/// DISPCNT selects video mode 0 with background 0 enabled.
pub open spec fn renders(m: MemView) -> bool {
    let dispcnt = spec_read_u16(m, 0x0400_0000);
    dispcnt & 0x7 == 0 && dispcnt & (1u16 << 8u16) != 0
}

/// The address of the screen entry of the tile under background pixel
/// (world_x, world_y): screen blocks of 32x32 entries, laid out two wide for
/// 512-pixel-wide backgrounds.
pub open spec fn screen_entry_addr(screen_base: int, bg_width: int, bg_height: int, world_x: int, world_y: int) -> int {
    let tile_x = world_x / 8;
    let tile_y = world_y / 8;
    let screenblock_index = if bg_width == 256 && bg_height == 256 {
        0
    } else if bg_width == 512 && bg_height == 256 {
        tile_x / 32
    } else if bg_width == 256 && bg_height == 512 {
        (tile_y / 32) * 2
    } else {
        (tile_y / 32) * 2 + (tile_x / 32)
    };
    screen_base + screenblock_index * 0x800 + ((tile_y % 32) * 32 + (tile_x % 32)) * 2
}

/// The colour index of background pixel (world_x, world_y) within the tile
/// of `tile_entry` (bits 0..10 tile number, bit 10 horizontal flip, bit 11
/// vertical flip): a nibble of a 32-byte tile in 4bpp mode, a byte of a
/// 64-byte tile in 8bpp mode.
pub open spec fn tile_pixel(m: MemView, tile_base: int, color_mode: u32, tile_entry: u16, world_x: int, world_y: int) -> u8 {
    let tile_num = (tile_entry & 0x3FF) as int;
    let hflip = (tile_entry & (1u16 << 10u16)) != 0;
    let vflip = (tile_entry & (1u16 << 11u16)) != 0;
    let px = if hflip { 7 - world_x % 8 } else { world_x % 8 };
    let py = if vflip { 7 - world_y % 8 } else { world_y % 8 };
    let tile_size = if color_mode == 0 { 32int } else { 64int };
    let tile_addr = tile_base + tile_num * tile_size;
    if color_mode == 0 {
        let byte = spec_read_u8(m, (tile_addr + py * 4 + px / 2) as u32);
        if px % 2 == 0 {
            byte & 0x0F
        } else {
            byte >> 4u8
        }
    } else {
        spec_read_u8(m, (tile_addr + py * 8 + px) as u32)
    }
}

/// The palette entry of a non-zero colour index: bank bits 12..16 of the
/// screen entry in 4bpp mode, the single 256-colour palette in 8bpp mode.
pub open spec fn palette_addr(color_mode: u32, tile_entry: u16, pixel: u8) -> int {
    let palette_num = ((tile_entry >> 12u16) & 0xF) as int;
    if color_mode == 0 {
        0x0500_0000 + (palette_num * 16 + pixel) * 2
    } else {
        0x0500_0000 + pixel * 2
    }
}

/// The colour of screen pixel (x, y) of background 0: the BG0CNT char and
/// screen blocks, colour mode and size, scrolled by BG0HOFS/BG0VOFS with
/// wrap-around; colour index 0 is black.
pub open spec fn pixel_rgb(m: MemView, x: int, y: int) -> (u8, u8, u8) {
    let bg0cnt = spec_read_u16(m, 0x0400_0008) as u32;
    let tile_base = 0x0600_0000 + ((bg0cnt >> 2u32) & 0x3) * 0x4000;
    let screen_base = 0x0600_0000 + ((bg0cnt >> 8u32) & 0x1F) * 0x800;
    let color_mode = (bg0cnt >> 7u32) & 1;
    let (bg_width, bg_height) = bg_dims((bg0cnt >> 14u32) & 0x3);
    let world_x = (x + spec_read_u16(m, 0x0400_0010) as int) % bg_width;
    let world_y = (y + spec_read_u16(m, 0x0400_0012) as int) % bg_height;
    let tile_entry = spec_read_u16(
        m,
        screen_entry_addr(screen_base, bg_width, bg_height, world_x, world_y) as u32,
    );
    let pixel = tile_pixel(m, tile_base, color_mode, tile_entry, world_x, world_y);
    if pixel == 0 {
        (0, 0, 0)
    } else {
        rgb555(spec_read_u16(m, palette_addr(color_mode, tile_entry, pixel) as u32))
    }
}

/// Byte `i` of the rendered framebuffer: pixel `i / 4` in row-major order,
/// channels R, G, B, then alpha 255.
pub open spec fn frame_byte(m: MemView, i: int) -> u8 {
    let p = i / 4;
    let c = pixel_rgb(m, p % 240, p / 240);
    if i % 4 == 0 {
        c.0
    } else if i % 4 == 1 {
        c.1
    } else if i % 4 == 2 {
        c.2
    } else {
        255
    }
}

/// The framebuffer that rendering `m` produces from `fb`: unchanged unless
/// mode 0 with BG0 is selected, else every byte rendered.
pub open spec fn rendered(m: MemView, fb: Seq<u8>) -> Seq<u8> {
    if renders(m) {
        Seq::new(FRAMEBUFFER_SIZE as nat, |i: int| frame_byte(m, i))
    } else {
        fb
    }
}

pub struct PPU {
    framebuffer: Vec<u8>,
    cycle_counter: u64,
}

/// The abstract state of the PPU.
pub struct PpuView {
    pub framebuffer: Seq<u8>,
    pub cycle_counter: u64,
}

impl View for PPU {
    type V = PpuView;

    closed spec fn view(&self) -> PpuView {
        PpuView { framebuffer: self.framebuffer@, cycle_counter: self.cycle_counter }
    }
}

impl PpuView {
    pub open spec fn wf(self) -> bool {
        self.framebuffer.len() == FRAMEBUFFER_SIZE
    }
}

/// A bus address below 0x10000000 is its own bus address.
proof fn lemma_low_bus(a: u32)
    requires
        a < 0x1000_0000,
    ensures
        a & 0x0FFF_FFFF == a,
{
    assert(a & 0x0FFF_FFFF == a) by (bit_vector)
        requires
            a < 0x1000_0000,
    ;
}

/// Pixel (x, y) owns framebuffer bytes `4 * (240 * y + x) .. + 4`.
proof fn lemma_pixel_index(x: int, y: int, k: int)
    requires
        0 <= x < 240,
        0 <= y < 160,
        0 <= k < 4,
    ensures
        ((y * 240 + x) * 4 + k) / 4 == y * 240 + x,
        ((y * 240 + x) * 4 + k) % 4 == k,
        (y * 240 + x) % 240 == x,
        (y * 240 + x) / 240 == y,
        0 <= (y * 240 + x) * 4 + k < FRAMEBUFFER_SIZE,
{
    lemma_fundamental_div_mod_converse_div((y * 240 + x) * 4 + k, 4, y * 240 + x, k);
    lemma_fundamental_div_mod_converse_mod((y * 240 + x) * 4 + k, 4, y * 240 + x, k);
    lemma_fundamental_div_mod_converse_div(y * 240 + x, 240, y, x);
    lemma_fundamental_div_mod_converse_mod(y * 240 + x, 240, y, x);
    assert((y * 240 + x) * 4 + k < FRAMEBUFFER_SIZE) by (nonlinear_arith)
        requires
            0 <= x < 240,
            0 <= y < 160,
            0 <= k < 4,
    ;
}

impl PPU {
    pub fn new() -> (p: Self)
        ensures
            p@.wf(),
            p@.framebuffer == Seq::new(FRAMEBUFFER_SIZE as nat, |i: int| 0u8),
            p@.cycle_counter == 0,
    {
        let framebuffer = vec![0u8; FRAMEBUFFER_SIZE];
        assert(framebuffer@ =~= Seq::new(FRAMEBUFFER_SIZE as nat, |i: int| 0u8));
        Self { framebuffer, cycle_counter: 0 }
    }

    /// Adds `cycles` to the cycle counter; once it reaches a frame's worth,
    /// takes a frame off it, renders, and returns true.
    pub fn step(&mut self, memory: &Memory, cycles: u64) -> (frame: bool)
        requires
            old(self)@.wf(),
            memory@.wf(),
            old(self)@.cycle_counter + cycles <= u64::MAX,
        ensures
            final(self)@.wf(),
            frame == (old(self)@.cycle_counter + cycles >= CYCLES_PER_FRAME),
            frame ==> final(self)@.cycle_counter == old(self)@.cycle_counter + cycles
                - CYCLES_PER_FRAME,
            frame ==> final(self)@.framebuffer == rendered(memory@, old(self)@.framebuffer),
            !frame ==> final(self)@.cycle_counter == old(self)@.cycle_counter + cycles,
            !frame ==> final(self)@.framebuffer == old(self)@.framebuffer,
    {
        self.cycle_counter += cycles;
        if self.cycle_counter >= CYCLES_PER_FRAME {
            self.cycle_counter -= CYCLES_PER_FRAME;
            self.render(memory);
            return true;
        }
        false
    }

    /// Renders background 0 into the framebuffer when DISPCNT selects mode 0
    /// with BG0 enabled; otherwise leaves it as it is.
    pub fn render(&mut self, memory: &Memory)
        requires
            old(self)@.wf(),
            memory@.wf(),
        ensures
            final(self)@.wf(),
            final(self)@.framebuffer == rendered(memory@, old(self)@.framebuffer),
            final(self)@.cycle_counter == old(self)@.cycle_counter,
    {
        proof {
            lemma_low_bus(0x0400_0000);
            lemma_low_bus(0x0400_0008);
            lemma_low_bus(0x0400_0010);
            lemma_low_bus(0x0400_0012);
        }
        let dispcnt = memory.read_u16(0x04000000);
        let bg0cnt = memory.read_u16(0x04000008);

        // Only mode 0 is supported
        let mode = dispcnt & 0x7;
        if mode != 0 {
            return ;
        }
        // BG0 enable

        if (dispcnt & (1 << 8)) == 0 {
            return ;
        }
        // BG0CNT: bits 2-3 char block, bits 8-12 screen block, bit 7 colour
        // mode (0 = 4bpp, 1 = 8bpp), bits 14-15 screen size

        let bg0cnt = bg0cnt as u32;
        let char_block = (bg0cnt >> 2) & 0x3;
        let screen_block = (bg0cnt >> 8) & 0x1F;
        let color_mode = (bg0cnt >> 7) & 1;
        let screen_size = (bg0cnt >> 14) & 0x3;

        proof {
            assert(char_block <= 3 && screen_block <= 0x1F && color_mode <= 1 && screen_size <= 3)
                by (bit_vector)
                requires
                    char_block == (bg0cnt >> 2u32) & 0x3,
                    screen_block == (bg0cnt >> 8u32) & 0x1F,
                    color_mode == (bg0cnt >> 7u32) & 1,
                    screen_size == (bg0cnt >> 14u32) & 0x3,
            ;
        }
        let tile_base = 0x06000000 + char_block * 0x4000;
        let screen_base = 0x06000000 + screen_block * 0x800;

        let scroll_x = memory.read_u16(0x04000010) as usize;
        let scroll_y = memory.read_u16(0x04000012) as usize;

        let (bg_width, bg_height): (usize, usize) = if screen_size == 0 {
            (256, 256)
        } else if screen_size == 1 {
            (512, 256)
        } else if screen_size == 2 {
            (256, 512)
        } else {
            (512, 512)
        };

        let tile_size: usize = if color_mode == 0 {
            32
        } else {
            64
        };

        let ghost m = memory@;
        let ghost fb0 = self@.framebuffer;
        let mut y: usize = 0;
        while y < SCREEN_HEIGHT
            invariant
                0 <= y <= SCREEN_HEIGHT,
                m == memory@,
                memory@.wf(),
                renders(m),
                self@.wf(),
                self@.cycle_counter == old(self)@.cycle_counter,
                bg0cnt == spec_read_u16(m, 0x0400_0008) as u32,
                char_block == (bg0cnt >> 2u32) & 0x3,
                screen_block == (bg0cnt >> 8u32) & 0x1F,
                color_mode == (bg0cnt >> 7u32) & 1,
                char_block <= 3 && screen_block <= 0x1F && color_mode <= 1 && screen_size <= 3,
                screen_size == (bg0cnt >> 14u32) & 0x3,
                tile_base == 0x0600_0000 + char_block * 0x4000,
                screen_base == 0x0600_0000 + screen_block * 0x800,
                scroll_x == spec_read_u16(m, 0x0400_0010) as int,
                scroll_y == spec_read_u16(m, 0x0400_0012) as int,
                (bg_width as int, bg_height as int) == bg_dims(screen_size),
                tile_size == if color_mode == 0 { 32int } else { 64int },
                forall|i: int| 0 <= i < (y * 240) * 4 ==> #[trigger] self@.framebuffer[i] == frame_byte(m, i),
            decreases SCREEN_HEIGHT - y,
        {
            let mut x: usize = 0;
            while x < SCREEN_WIDTH
                invariant
                    0 <= y < SCREEN_HEIGHT,
                    0 <= x <= SCREEN_WIDTH,
                    m == memory@,
                    memory@.wf(),
                    renders(m),
                    self@.wf(),
                    self@.cycle_counter == old(self)@.cycle_counter,
                    bg0cnt == spec_read_u16(m, 0x0400_0008) as u32,
                    char_block == (bg0cnt >> 2u32) & 0x3,
                    screen_block == (bg0cnt >> 8u32) & 0x1F,
                    color_mode == (bg0cnt >> 7u32) & 1,
                    char_block <= 3 && screen_block <= 0x1F && color_mode <= 1 && screen_size <= 3,
                char_block <= 3 && screen_block <= 0x1F && color_mode <= 1 && screen_size <= 3,
                    screen_size == (bg0cnt >> 14u32) & 0x3,
                    tile_base == 0x0600_0000 + char_block * 0x4000,
                    screen_base == 0x0600_0000 + screen_block * 0x800,
                    scroll_x == spec_read_u16(m, 0x0400_0010) as int,
                    scroll_y == spec_read_u16(m, 0x0400_0012) as int,
                    (bg_width as int, bg_height as int) == bg_dims(screen_size),
                    tile_size == if color_mode == 0 { 32int } else { 64int },
                    forall|i: int| 0 <= i < (y * 240 + x) * 4 ==> #[trigger] self@.framebuffer[i] == frame_byte(m, i),
                decreases SCREEN_WIDTH - x,
            {
                let (r, g, b) = self.pixel_color(memory, x, y, tile_base, screen_base, color_mode, scroll_x, scroll_y, bg_width, bg_height, tile_size);
                let ghost before = self@.framebuffer;
                self.write_pixel(x, y, r, g, b);
                proof {
                    lemma_pixel_index(x as int, y as int, 0);
                    lemma_pixel_index(x as int, y as int, 1);
                    lemma_pixel_index(x as int, y as int, 2);
                    lemma_pixel_index(x as int, y as int, 3);
                    assert forall|i: int| 0 <= i < (y * 240 + x + 1) * 4 implies #[trigger] self@.framebuffer[i] == frame_byte(m, i) by {
                        if i < (y * 240 + x) * 4 {
                            assert(self@.framebuffer[i] == before[i]);
                        }
                    }
                }
                x = x + 1;
            }
            y = y + 1;
        }
        proof {
            assert(self@.framebuffer =~= rendered(m, fb0));
        }
    }

    /// The colour of pixel (x, y), from the background settings read once
    /// per frame.
    fn pixel_color(
        &self,
        memory: &Memory,
        x: usize,
        y: usize,
        tile_base: u32,
        screen_base: u32,
        color_mode: u32,
        scroll_x: usize,
        scroll_y: usize,
        bg_width: usize,
        bg_height: usize,
        tile_size: usize,
    ) -> (c: (u8, u8, u8))
        requires
            memory@.wf(),
            x < SCREEN_WIDTH,
            y < SCREEN_HEIGHT,
            ({
                let bg0cnt = spec_read_u16(memory@, 0x0400_0008) as u32;
                &&& tile_base == 0x0600_0000 + ((bg0cnt >> 2u32) & 0x3) * 0x4000
                &&& screen_base == 0x0600_0000 + ((bg0cnt >> 8u32) & 0x1F) * 0x800
                &&& color_mode == (bg0cnt >> 7u32) & 1
                &&& (bg_width as int, bg_height as int) == bg_dims((bg0cnt >> 14u32) & 0x3)
                &&& tile_size == if color_mode == 0 { 32int } else { 64int }
            }),
            tile_base <= 0x0600_C000,
            screen_base <= 0x0600_F800,
            color_mode <= 1,
            scroll_x == spec_read_u16(memory@, 0x0400_0010) as int,
            scroll_y == spec_read_u16(memory@, 0x0400_0012) as int,
        ensures
            c == pixel_rgb(memory@, x as int, y as int),
    {
        // Apply scroll + wrapping
        let world_x = (x + scroll_x) % bg_width;
        let world_y = (y + scroll_y) % bg_height;

        let screen_addr = Self::screen_entry_address(screen_base, bg_width, bg_height, world_x, world_y);
        let tile_entry = memory.read_u16(screen_addr);
        let pixel = Self::tile_color_index(memory, tile_base, color_mode, tile_size, tile_entry, world_x, world_y);

        if pixel == 0 {
            return (0, 0, 0);
        }
        let palette_num = ((tile_entry >> 12) & 0xF) as usize;
        let palette_addr = if color_mode == 0 {
            0x05000000 + (palette_num * 16 + pixel as usize) as u32 * 2
        } else {
            0x05000000 + pixel as u32 * 2
        };
        proof {
            lemma_low_bus(palette_addr);
        }
        let color = memory.read_u16(palette_addr);
        Self::rgb555_to_rgba8(color)
    }

    fn screen_entry_address(screen_base: u32, bg_width: usize, bg_height: usize, world_x: usize, world_y: usize) -> (a: u32)
        requires
            screen_base <= 0x0600_F800,
            0x0600_0000 <= screen_base,
            (bg_width as int, bg_height as int) == (256int, 256int) || (bg_width as int, bg_height as int) == (512int, 256int)
                || (bg_width as int, bg_height as int) == (256int, 512int) || (bg_width as int, bg_height as int) == (512int, 512int),
            world_x < bg_width,
            world_y < bg_height,
        ensures
            a == screen_entry_addr(screen_base as int, bg_width as int, bg_height as int, world_x as int, world_y as int),
            read_u16_ok(a),
    {
        let tile_x = world_x / 8;
        let tile_y = world_y / 8;

        // Screenblock addressing (handles 64x64 etc.)
        let screenblock_index: usize = if bg_width == 256 && bg_height == 256 {
            0
        } else if bg_width == 512 && bg_height == 256 {
            tile_x / 32
        } else if bg_width == 256 && bg_height == 512 {
            (tile_y / 32) * 2
        } else {
            (tile_y / 32) * 2 + (tile_x / 32)
        };
        let a = screen_base + (screenblock_index as u32) * 0x800 + ((tile_y % 32) * 32
            + (tile_x % 32)) as u32 * 2;
        proof {
            lemma_low_bus(a);
        }
        a
    }

    fn tile_color_index(
        memory: &Memory,
        tile_base: u32,
        color_mode: u32,
        tile_size: usize,
        tile_entry: u16,
        world_x: usize,
        world_y: usize,
    ) -> (pixel: u8)
        requires
            memory@.wf(),
            tile_base <= 0x0600_C000,
            0x0600_0000 <= tile_base,
            color_mode <= 1,
            tile_size == if color_mode == 0 { 32int } else { 64int },
            world_x < 512,
            world_y < 512,
        ensures
            pixel == tile_pixel(memory@, tile_base as int, color_mode, tile_entry, world_x as int, world_y as int),
    {
        let tile_num = (tile_entry & 0x3FF) as usize;
        let hflip = (tile_entry & (1 << 10)) != 0;
        let vflip = (tile_entry & (1 << 11)) != 0;

        let mut px = world_x % 8;
        let mut py = world_y % 8;
        if hflip {
            px = 7 - px;
        }
        if vflip {
            py = 7 - py;
        }

        let tile_addr = tile_base + (tile_num * tile_size) as u32;

        if color_mode == 0 {
            // 4bpp
            let byte_addr = tile_addr + (py * 4 + px / 2) as u32;
            proof {
                lemma_low_bus(byte_addr);
            }
            let byte = memory.read_u8(byte_addr);
            if px % 2 == 0 {
                byte & 0x0F
            } else {
                byte >> 4
            }
        } else {
            // 8bpp
            let byte_addr = tile_addr + (py * 8 + px) as u32;
            proof {
                lemma_low_bus(byte_addr);
            }
            memory.read_u8(byte_addr)
        }
    }

    fn write_pixel(&mut self, x: usize, y: usize, r: u8, g: u8, b: u8)
        requires
            old(self)@.wf(),
            x < SCREEN_WIDTH,
            y < SCREEN_HEIGHT,
        ensures
            final(self)@.wf(),
            final(self)@.cycle_counter == old(self)@.cycle_counter,
            ({
                let idx = (y * 240 + x) * 4;
                final(self)@.framebuffer == old(self)@.framebuffer.update(idx, r).update(idx + 1, g).update(
                    idx + 2,
                    b,
                ).update(idx + 3, 255)
            }),
    {
        proof {
            lemma_pixel_index(x as int, y as int, 3);
        }
        let idx = (y * SCREEN_WIDTH + x) * 4;
        self.framebuffer[idx] = r;
        self.framebuffer[idx + 1] = g;
        self.framebuffer[idx + 2] = b;
        self.framebuffer[idx + 3] = 255;
    }

    /// A BGR555 colour as 8-bit RGB channels.
    pub fn rgb555_to_rgba8(color: u16) -> (c: (u8, u8, u8))
        ensures
            c == rgb555(color),
    {
        let r = ((color >> 10) & 0x1F) as u8;
        let g = ((color >> 5) & 0x1F) as u8;
        let b = (color & 0x1F) as u8;

        let r = (r << 3) | (r >> 2);
        let g = (g << 3) | (g >> 2);
        let b = (b << 3) | (b >> 2);

        (r, g, b)
    }

    /// The cycles counted towards the next frame.
    pub fn get_cycle_counter(&self) -> (c: u64)
        ensures
            c == self@.cycle_counter,
    {
        self.cycle_counter
    }

    pub fn get_framebuffer(&self) -> (fb: &[u8])
        ensures
            fb@ == self@.framebuffer,
    {
        self.framebuffer.as_slice()
    }
}

impl Default for PPU {
    fn default() -> (p: Self)
        ensures
            p@.wf(),
            p@.framebuffer == Seq::new(FRAMEBUFFER_SIZE as nat, |i: int| 0u8),
            p@.cycle_counter == 0,
    {
        Self::new()
    }
}

} // verus!

verus! {

/// A 5-bit channel widens to `c * 8 + c / 4`: 0 stays 0, 31 becomes 255,
/// and a larger channel never gives a smaller result.
pub proof fn law_expand5(c: u8, d: u8)
    requires
        c < 32,
        d < 32,
    ensures
        expand5(c) == c * 8 + c / 4,
        expand5(0) == 0,
        expand5(31) == 255,
        c <= d ==> expand5(c) <= expand5(d),
{
    assert(((c << 3u8) | (c >> 2u8)) as u8 == c * 8 + c / 4) by (bit_vector)
        requires
            c < 32,
    ;
    assert(((d << 3u8) | (d >> 2u8)) as u8 == d * 8 + d / 4) by (bit_vector)
        requires
            d < 32,
    ;
    assert(((0u8 << 3u8) | (0u8 >> 2u8)) as u8 == 0u8) by (bit_vector);
    assert(((31u8 << 3u8) | (31u8 >> 2u8)) as u8 == 255u8) by (bit_vector);
}

/// Outside mode 0 with background 0, rendering leaves the framebuffer as it
/// was; in that mode every byte is rendered and every fourth byte (alpha)
/// is 255.
pub proof fn law_render_alpha(m: MemView, fb: Seq<u8>, i: int)
    requires
        0 <= i < FRAMEBUFFER_SIZE,
        i % 4 == 3,
    ensures
        !renders(m) ==> rendered(m, fb) == fb,
        renders(m) ==> rendered(m, fb)[i] == 255,
{
}

/// A flipped tile reads its mirrored row or column: with the vertical-flip
/// bit (11) set, row y of the tile shows what row 7 - y shows unflipped;
/// with the horizontal-flip bit (10) set, column x shows what column 7 - x
/// shows unflipped.
pub proof fn law_tile_flips(m: MemView, tile_base: int, color_mode: u32, e: u16, x: int, y: int)
    requires
        x >= 0,
        y >= 0,
    ensures
        e & 0x800 != 0 ==> tile_pixel(m, tile_base, color_mode, e, x, y) == tile_pixel(
            m,
            tile_base,
            color_mode,
            e & !0x800u16,
            x,
            (y / 8) * 8 + 7 - y % 8,
        ),
        e & 0x400 != 0 ==> tile_pixel(m, tile_base, color_mode, e, x, y) == tile_pixel(
            m,
            tile_base,
            color_mode,
            e & !0x400u16,
            (x / 8) * 8 + 7 - x % 8,
            y,
        ),
{
    let ev = e & !0x800u16;
    let eh = e & !0x400u16;
    assert((ev & 0x3FF) == (e & 0x3FF) && ((ev & (1u16 << 10u16)) != 0) == ((e & (1u16 << 10u16))
        != 0) && (ev & (1u16 << 11u16)) == 0 && ((e & 0x800 != 0) == ((e & (1u16 << 11u16)) != 0))
        && (eh & 0x3FF) == (e & 0x3FF) && ((eh & (1u16 << 11u16)) != 0) == ((e & (1u16 << 11u16))
        != 0) && (eh & (1u16 << 10u16)) == 0 && ((e & 0x400 != 0) == ((e & (1u16 << 10u16)) != 0)))
        by (bit_vector)
        requires
            ev == e & !0x800u16,
            eh == e & !0x400u16,
    ;
    let ym = (y / 8) * 8 + 7 - y % 8;
    let xm = (x / 8) * 8 + 7 - x % 8;
    vstd::arithmetic::div_mod::lemma_fundamental_div_mod_converse(ym, 8, y / 8, 7 - y % 8);
    vstd::arithmetic::div_mod::lemma_fundamental_div_mod_converse(xm, 8, x / 8, 7 - x % 8);
}

} // verus!
