//! The GBA memory map: cartridge ROM, internal work RAM, I/O registers,
//! palette RAM and video RAM, addressed through 32-bit bus addresses whose
//! top four bits are ignored.
use vstd::prelude::*;

verus! {

broadcast use crate::bits::group_bits;

pub const VRAM_SIZE: usize = 98304;
pub const PALETTE_SIZE: usize = 1024;
pub const WRAM_SIZE: usize = 32768;
pub const IWRAM_SIZE: usize = 4096;
pub const IO_SIZE: usize = 256;
pub const OAM_SIZE: usize = 1024;
/// The largest cartridge image that can be loaded: 32 MiB.
pub const ROM_MAX_SIZE: usize = 33554432;

/// The contents of every memory region.
#[verifier::ext_equal]
pub struct MemView {
    pub rom: Seq<u8>,
    pub vram: Seq<u8>,
    pub palette: Seq<u8>,
    pub wram: Seq<u8>,
    pub iwram: Seq<u8>,
    pub io: Seq<u8>,
    pub oam: Seq<u8>,
}

impl MemView {
    /// Every region has its fixed size and the ROM fits the cartridge space.
    pub open spec fn wf(self) -> bool {
        &&& self.rom.len() <= ROM_MAX_SIZE
        &&& self.vram.len() == VRAM_SIZE
        &&& self.palette.len() == PALETTE_SIZE
        &&& self.wram.len() == WRAM_SIZE
        &&& self.iwram.len() == IWRAM_SIZE
        &&& self.io.len() == IO_SIZE
        &&& self.oam.len() == OAM_SIZE
    }
}

/// The little-endian halfword at `off`.
pub open spec fn le16(s: Seq<u8>, off: int) -> u16 {
    (s[off] as u16) | ((s[off + 1] as u16) << 8u16)
}

/// The little-endian word at `off`.
pub open spec fn le32(s: Seq<u8>, off: int) -> u32 {
    (s[off] as u32) | ((s[off + 1] as u32) << 8u32) | ((s[off + 2] as u32) << 16u32) | ((s[off
        + 3] as u32) << 24u32)
}

/// `s` with the halfword `v` stored little-endian at `off`.
pub open spec fn put16(s: Seq<u8>, off: int, v: u16) -> Seq<u8> {
    s.update(off, v as u8).update(off + 1, (v >> 8u16) as u8)
}

/// `s` with the word `v` stored little-endian at `off`.
pub open spec fn put32(s: Seq<u8>, off: int, v: u32) -> Seq<u8> {
    s.update(off, v as u8).update(off + 1, (v >> 8u32) as u8).update(off + 2, (v >> 16u32) as u8).update(
        off + 3,
        (v >> 24u32) as u8,
    )
}

/// The bus address with its top four bits dropped.
pub open spec fn bus(address: u32) -> u32 {
    address & 0x0FFF_FFFF
}

pub open spec fn in_iwram_window(addr: u32) -> bool {
    (0x0200_0000 <= addr <= 0x0203_FFFF) || (0x0300_0000 <= addr <= 0x0300_7FFF)
}

pub open spec fn in_io(addr: u32) -> bool {
    0x0400_0000 <= addr <= 0x0400_00FF
}

pub open spec fn in_palette(addr: u32) -> bool {
    0x0500_0000 <= addr <= 0x0500_03FF
}

/// The palette window that writes reach: 4 KiB mirroring the 1 KiB palette.
pub open spec fn in_palette_mirror(addr: u32) -> bool {
    0x0500_0000 <= addr < 0x0500_1000
}

pub open spec fn in_vram(addr: u32) -> bool {
    0x0600_0000 <= addr <= 0x0601_7FFF
}

/// The window at 0x07000000, which reads and writes (other than halfword
/// writes) reach in video RAM.
pub open spec fn in_oam_window(addr: u32) -> bool {
    0x0700_0000 <= addr <= 0x0700_03FF
}

pub open spec fn in_rom_low(addr: u32) -> bool {
    addr <= 0x01FF_FFFF
}

pub open spec fn in_rom(addr: u32) -> bool {
    0x0800_0000 <= addr <= 0x09FF_FFFF
}

/// The palette offset of a mirrored palette address.
pub open spec fn palette_offset(addr: u32) -> int {
    (((addr - 0x0500_0000) as u32) & 0x3FF) as int
}

/// A ROM word, or 0 past the end of the image.
pub open spec fn rom_u32(m: MemView, o: int) -> u32 {
    if o + 4 <= m.rom.len() {
        le32(m.rom, o)
    } else {
        0
    }
}

/// The word that `read_u32` returns.
pub open spec fn spec_read_u32(m: MemView, address: u32) -> u32 {
    let addr = bus(address);
    if in_rom_low(addr) {
        rom_u32(m, addr as int)
    } else if in_iwram_window(addr) {
        let o = (addr & 0x7FFF) as int;
        if o + 4 <= m.iwram.len() {
            le32(m.iwram, o)
        } else {
            0
        }
    } else if in_io(addr) {
        le32(m.io, addr - 0x0400_0000)
    } else if in_palette(addr) {
        le32(m.palette, palette_offset(addr))
    } else if in_vram(addr) {
        let o = addr - 0x0600_0000;
        if o + 4 <= m.vram.len() {
            le32(m.vram, o)
        } else {
            0
        }
    } else if in_oam_window(addr) {
        le32(m.vram, addr - 0x0700_0000)
    } else if in_rom(addr) {
        rom_u32(m, addr - 0x0800_0000)
    } else {
        0
    }
}

/// The addresses at which `read_u32` has all four bytes in range.
pub open spec fn read_u32_ok(address: u32) -> bool {
    let addr = bus(address);
    &&& in_io(addr) ==> addr - 0x0400_0000 <= 252
    &&& in_palette(addr) ==> palette_offset(addr) <= 1020
}

/// The memory after `write_u32`.
pub open spec fn spec_write_u32(m: MemView, address: u32, value: u32) -> MemView {
    let addr = bus(address);
    if in_palette_mirror(addr) {
        let o = palette_offset(addr);
        if o + 4 <= m.palette.len() {
            MemView { palette: put32(m.palette, o, value), ..m }
        } else {
            m
        }
    } else if in_iwram_window(addr) {
        let o = (addr & 0x7FFF) as int;
        if o + 4 <= m.iwram.len() {
            MemView { iwram: put32(m.iwram, o, value), ..m }
        } else {
            m
        }
    } else if in_io(addr) {
        MemView { io: put32(m.io, addr - 0x0400_0000, value), ..m }
    } else if in_vram(addr) {
        let o = addr - 0x0600_0000;
        if o + 4 <= m.vram.len() {
            MemView { vram: put32(m.vram, o, value), ..m }
        } else {
            m
        }
    } else if in_oam_window(addr) {
        MemView { vram: put32(m.vram, addr - 0x0700_0000, value), ..m }
    } else {
        m
    }
}

/// The addresses at which `write_u32` has all four bytes in range.
pub open spec fn write_u32_ok(address: u32) -> bool {
    let addr = bus(address);
    in_io(addr) ==> addr - 0x0400_0000 <= 252
}

/// The halfword that `read_u16` returns.
pub open spec fn spec_read_u16(m: MemView, address: u32) -> u16 {
    let addr = bus(address);
    if in_rom_low(addr) {
        if addr + 2 <= m.rom.len() {
            le16(m.rom, addr as int)
        } else {
            0
        }
    } else if in_iwram_window(addr) {
        le16(m.iwram, (addr & 0x7FFF) as int)
    } else if in_io(addr) {
        le16(m.io, addr - 0x0400_0000)
    } else if in_palette(addr) {
        le16(m.palette, addr - 0x0500_0000)
    } else if in_vram(addr) {
        le16(m.vram, addr - 0x0600_0000)
    } else if in_oam_window(addr) {
        le16(m.vram, addr - 0x0700_0000)
    } else if in_rom(addr) {
        let o = addr - 0x0800_0000;
        if o + 2 <= m.rom.len() {
            le16(m.rom, o)
        } else {
            0
        }
    } else {
        0
    }
}

/// The addresses at which `read_u16` has both bytes in range.
pub open spec fn read_u16_ok(address: u32) -> bool {
    let addr = bus(address);
    &&& in_iwram_window(addr) ==> (addr & 0x7FFF) < 4095
    &&& in_io(addr) ==> addr - 0x0400_0000 < 255
    &&& in_palette(addr) ==> addr - 0x0500_0000 < 1023
    &&& in_vram(addr) ==> addr - 0x0600_0000 < 0x17FFF
}

/// The I/O window that halfword writes reach (four times the I/O registers).
pub open spec fn in_io_wide(addr: u32) -> bool {
    0x0400_0000 <= addr <= 0x0400_03FF
}

pub open spec fn in_iwram_high(addr: u32) -> bool {
    0x0300_0000 <= addr <= 0x0300_7FFF
}

/// The memory after `write_u16`; halfword writes to 0x07000000 reach the OAM.
pub open spec fn spec_write_u16(m: MemView, address: u32, value: u16) -> MemView {
    let addr = bus(address);
    if in_palette_mirror(addr) {
        let o = palette_offset(addr);
        if o + 1 < m.palette.len() {
            MemView { palette: put16(m.palette, o, value), ..m }
        } else {
            m
        }
    } else if in_vram(addr) {
        MemView { vram: put16(m.vram, addr - 0x0600_0000, value), ..m }
    } else if in_iwram_high(addr) {
        MemView { iwram: put16(m.iwram, addr - 0x0300_0000, value), ..m }
    } else if in_io_wide(addr) {
        MemView { io: put16(m.io, addr - 0x0400_0000, value), ..m }
    } else if in_oam_window(addr) {
        let o = addr - 0x0700_0000;
        if o + 1 < m.oam.len() {
            MemView { oam: put16(m.oam, o, value), ..m }
        } else {
            m
        }
    } else {
        m
    }
}

/// The addresses at which `write_u16` has both bytes in range.
pub open spec fn write_u16_ok(address: u32) -> bool {
    let addr = bus(address);
    &&& !in_palette_mirror(addr) && in_vram(addr) ==> addr - 0x0600_0000 < 0x17FFF
    &&& in_iwram_high(addr) ==> addr - 0x0300_0000 < 4095
    &&& in_io_wide(addr) ==> addr - 0x0400_0000 < 255
}

/// The byte that `read_u8` returns.
pub open spec fn spec_read_u8(m: MemView, address: u32) -> u8 {
    let addr = bus(address);
    if in_rom_low(addr) {
        if addr < m.rom.len() {
            m.rom[addr as int]
        } else {
            0
        }
    } else if in_iwram_window(addr) {
        m.iwram[(addr & 0x7FFF) as int]
    } else if in_io(addr) {
        m.io[addr - 0x0400_0000]
    } else if in_palette(addr) {
        m.palette[addr - 0x0500_0000]
    } else if in_vram(addr) {
        m.vram[addr - 0x0600_0000]
    } else if in_oam_window(addr) {
        m.vram[addr - 0x0700_0000]
    } else if in_rom(addr) {
        let o = addr - 0x0800_0000;
        if o < m.rom.len() {
            m.rom[o]
        } else {
            0
        }
    } else {
        0
    }
}

/// The addresses at which `read_u8` is in range: all but the part of the
/// internal work RAM window past its 4 KiB.
pub open spec fn read_u8_ok(address: u32) -> bool {
    let addr = bus(address);
    in_iwram_window(addr) ==> (addr & 0x7FFF) < 4096
}

/// The memory after `write_u8`.
pub open spec fn spec_write_u8(m: MemView, address: u32, value: u8) -> MemView {
    let addr = bus(address);
    if in_palette_mirror(addr) {
        MemView { palette: m.palette.update(palette_offset(addr), value), ..m }
    } else if in_iwram_window(addr) {
        MemView { iwram: m.iwram.update((addr & 0x7FFF) as int, value), ..m }
    } else if in_io(addr) {
        MemView { io: m.io.update(addr - 0x0400_0000, value), ..m }
    } else if in_vram(addr) {
        MemView { vram: m.vram.update(addr - 0x0600_0000, value), ..m }
    } else if in_oam_window(addr) {
        MemView { vram: m.vram.update(addr - 0x0700_0000, value), ..m }
    } else {
        m
    }
}

/// The addresses at which `write_u8` is in range.
pub open spec fn write_u8_ok(address: u32) -> bool {
    let addr = bus(address);
    in_iwram_window(addr) ==> (addr & 0x7FFF) < 4096
}

/// Byte, halfword and word access to a memory bus.
pub trait MemoryAccess {
    spec fn mem_view(&self) -> MemView;

    fn read_u32(&self, address: u32) -> (r: u32)
        requires
            self.mem_view().wf(),
            read_u32_ok(address),
        ensures
            r == spec_read_u32(self.mem_view(), address),
    ;

    fn write_u32(&mut self, address: u32, value: u32)
        requires
            old(self).mem_view().wf(),
            write_u32_ok(address),
        ensures
            final(self).mem_view() == spec_write_u32(old(self).mem_view(), address, value),
            final(self).mem_view().wf(),
    ;

    fn read_u16(&self, address: u32) -> (r: u16)
        requires
            self.mem_view().wf(),
            read_u16_ok(address),
        ensures
            r == spec_read_u16(self.mem_view(), address),
    ;

    fn write_u16(&mut self, address: u32, value: u16)
        requires
            old(self).mem_view().wf(),
            write_u16_ok(address),
        ensures
            final(self).mem_view() == spec_write_u16(old(self).mem_view(), address, value),
            final(self).mem_view().wf(),
    ;

    fn read_u8(&self, address: u32) -> (r: u8)
        requires
            self.mem_view().wf(),
            read_u8_ok(address),
        ensures
            r == spec_read_u8(self.mem_view(), address),
    ;

    fn write_u8(&mut self, address: u32, value: u8)
        requires
            old(self).mem_view().wf(),
            write_u8_ok(address),
        ensures
            final(self).mem_view() == spec_write_u8(old(self).mem_view(), address, value),
            final(self).mem_view().wf(),
    ;
}

pub struct Memory {
    rom: Vec<u8>,
    vram: Vec<u8>,
    palette: Vec<u8>,
    wram: Vec<u8>,
    iwram: Vec<u8>,
    io_registers: Vec<u8>,
    oam: Vec<u8>,
}

impl View for Memory {
    type V = MemView;

    closed spec fn view(&self) -> MemView {
        MemView {
            rom: self.rom@,
            vram: self.vram@,
            palette: self.palette@,
            wram: self.wram@,
            iwram: self.iwram@,
            io: self.io_registers@,
            oam: self.oam@,
        }
    }
}

/// `n` zero bytes.
pub open spec fn zeros(n: nat) -> Seq<u8> {
    Seq::new(n, |i: int| 0u8)
}

fn zeroed(n: usize) -> (v: Vec<u8>)
    ensures
        v@ == zeros(n as nat),
{
    let v = vec![0u8; n];
    assert(v@ =~= zeros(n as nat));
    v
}

fn load_le32(s: &Vec<u8>, o: usize) -> (r: u32)
    requires
        o + 4 <= s.len(),
    ensures
        r == le32(s@, o as int),
{
    (s[o] as u32) | ((s[o + 1] as u32) << 8) | ((s[o + 2] as u32) << 16) | ((s[o + 3] as u32)
        << 24)
}

fn load_le16(s: &Vec<u8>, o: usize) -> (r: u16)
    requires
        o + 2 <= s.len(),
    ensures
        r == le16(s@, o as int),
{
    (s[o] as u16) | ((s[o + 1] as u16) << 8)
}

fn store_le32(s: &mut Vec<u8>, o: usize, v: u32)
    requires
        o + 4 <= old(s).len(),
    ensures
        final(s)@ == put32(old(s)@, o as int, v),
{
    s[o] = v as u8;
    s[o + 1] = (v >> 8) as u8;
    s[o + 2] = (v >> 16) as u8;
    s[o + 3] = (v >> 24) as u8;
}

fn store_le16(s: &mut Vec<u8>, o: usize, v: u16)
    requires
        o + 2 <= old(s).len(),
    ensures
        final(s)@ == put16(old(s)@, o as int, v),
{
    s[o] = v as u8;
    s[o + 1] = (v >> 8) as u8;
}

impl Memory {
    /// All regions zeroed and no cartridge loaded.
    pub fn new() -> (m: Self)
        ensures
            m@.wf(),
            m@.rom == Seq::<u8>::empty(),
            m@.vram == zeros(VRAM_SIZE as nat),
            m@.palette == zeros(PALETTE_SIZE as nat),
            m@.wram == zeros(WRAM_SIZE as nat),
            m@.iwram == zeros(IWRAM_SIZE as nat),
            m@.io == zeros(IO_SIZE as nat),
            m@.oam == zeros(OAM_SIZE as nat),
    {
        Memory {
            rom: Vec::new(),
            vram: zeroed(VRAM_SIZE),
            palette: zeroed(PALETTE_SIZE),
            wram: zeroed(WRAM_SIZE),
            iwram: zeroed(IWRAM_SIZE),
            io_registers: zeroed(IO_SIZE),
            oam: zeroed(OAM_SIZE),
        }
    }

    /// Installs a cartridge image; an image over 32 MiB is refused and the
    /// memory is left as it was.
    pub fn load_rom(&mut self, buffer: Vec<u8>) -> (r: Result<(), String>)
        requires
            old(self)@.wf(),
        ensures
            final(self)@.wf(),
            buffer.len() > ROM_MAX_SIZE ==> r.is_err() && final(self)@ == old(self)@,
            buffer.len() <= ROM_MAX_SIZE ==> r.is_ok() && final(self)@ == (MemView {
                rom: buffer@,
                ..old(self)@
            }),
            r matches Err(e) ==> e@ == "ROM too large"@,
    {
        if buffer.len() > ROM_MAX_SIZE {
            return Err(String::from_str("ROM too large"));
        }
        self.rom = buffer;
        Ok(())
    }

    pub fn get_vram(&self) -> (v: &[u8])
        ensures
            v@ == self@.vram,
    {
        self.vram.as_slice()
    }

    pub fn get_palette(&self) -> (v: &[u8])
        ensures
            v@ == self@.palette,
    {
        self.palette.as_slice()
    }

    pub fn get_rom_size(&self) -> (n: usize)
        ensures
            n == self@.rom.len(),
    {
        self.rom.len()
    }
}


impl MemoryAccess for Memory {
    open spec fn mem_view(&self) -> MemView {
        self@
    }

    fn read_u32(&self, address: u32) -> (r: u32) {
        let addr = address & 0x0FFF_FFFF;
        if addr <= 0x01FF_FFFF {
            let offset = addr as usize;
            if offset + 4 <= self.rom.len() {
                load_le32(&self.rom, offset)
            } else {
                0
            }
        } else if (0x0200_0000 <= addr && addr <= 0x0203_FFFF) || (0x0300_0000 <= addr && addr
            <= 0x0300_7FFF) {
            let offset = (addr & 0x7FFF) as usize;
            if offset + 4 <= self.iwram.len() {
                load_le32(&self.iwram, offset)
            } else {
                0
            }
        } else if 0x0400_0000 <= addr && addr <= 0x0400_00FF {
            let offset = (addr - 0x0400_0000) as usize;
            load_le32(&self.io_registers, offset)
        } else if 0x0500_0000 <= addr && addr <= 0x0500_03FF {
            let offset = ((addr - 0x0500_0000) & 0x3FF) as usize;
            load_le32(&self.palette, offset)
        } else if 0x0600_0000 <= addr && addr <= 0x0601_7FFF {
            let offset = (addr - 0x0600_0000) as usize;
            if offset + 4 <= self.vram.len() {
                load_le32(&self.vram, offset)
            } else {
                0
            }
        } else if 0x0700_0000 <= addr && addr <= 0x0700_03FF {
            let offset = (addr - 0x0700_0000) as usize;
            load_le32(&self.vram, offset)
        } else if 0x0800_0000 <= addr && addr <= 0x09FF_FFFF {
            let offset = (addr - 0x0800_0000) as usize;
            if offset + 4 <= self.rom.len() {
                load_le32(&self.rom, offset)
            } else {
                0
            }
        } else {
            0
        }
    }

    fn write_u32(&mut self, address: u32, value: u32) {
        let addr = address & 0x0FFF_FFFF;
        if addr >= 0x0500_0000 && addr < 0x0500_1000 {
            let offset = ((addr - 0x0500_0000) & 0x3FF) as usize;
            if offset + 4 <= self.palette.len() {
                store_le32(&mut self.palette, offset, value);
            }
            return ;
        }
        if (0x0200_0000 <= addr && addr <= 0x0203_FFFF) || (0x0300_0000 <= addr && addr
            <= 0x0300_7FFF) {
            let offset = (addr & 0x7FFF) as usize;
            if offset + 4 <= self.iwram.len() {
                store_le32(&mut self.iwram, offset, value);
            }
        } else if 0x0400_0000 <= addr && addr <= 0x0400_00FF {
            let offset = (addr - 0x0400_0000) as usize;
            store_le32(&mut self.io_registers, offset, value);
        } else if 0x0600_0000 <= addr && addr <= 0x0601_7FFF {
            let offset = (addr - 0x0600_0000) as usize;
            if offset + 4 <= self.vram.len() {
                store_le32(&mut self.vram, offset, value);
            }
        } else if 0x0700_0000 <= addr && addr <= 0x0700_03FF {
            let offset = (addr - 0x0700_0000) as usize;
            store_le32(&mut self.vram, offset, value);
        }
    }

    fn read_u16(&self, address: u32) -> (r: u16) {
        let addr = address & 0x0FFF_FFFF;
        if addr <= 0x01FF_FFFF {
            let offset = addr as usize;
            if offset + 2 <= self.rom.len() {
                load_le16(&self.rom, offset)
            } else {
                0
            }
        } else if (0x0200_0000 <= addr && addr <= 0x0203_FFFF) || (0x0300_0000 <= addr && addr
            <= 0x0300_7FFF) {
            let offset = (addr & 0x7FFF) as usize;
            load_le16(&self.iwram, offset)
        } else if 0x0400_0000 <= addr && addr <= 0x0400_00FF {
            let offset = (addr - 0x0400_0000) as usize;
            load_le16(&self.io_registers, offset)
        } else if 0x0500_0000 <= addr && addr <= 0x0500_03FF {
            let offset = (addr - 0x0500_0000) as usize;
            load_le16(&self.palette, offset)
        } else if 0x0600_0000 <= addr && addr <= 0x0601_7FFF {
            let offset = (addr - 0x0600_0000) as usize;
            load_le16(&self.vram, offset)
        } else if 0x0700_0000 <= addr && addr <= 0x0700_03FF {
            let offset = (addr - 0x0700_0000) as usize;
            load_le16(&self.vram, offset)
        } else if 0x0800_0000 <= addr && addr <= 0x09FF_FFFF {
            let offset = (addr - 0x0800_0000) as usize;
            if offset + 2 <= self.rom.len() {
                load_le16(&self.rom, offset)
            } else {
                0
            }
        } else {
            0
        }
    }

    fn write_u16(&mut self, address: u32, value: u16) {
        let addr = address & 0x0FFF_FFFF;
        if addr >= 0x0500_0000 && addr < 0x0500_1000 {
            let offset = ((addr - 0x0500_0000) & 0x3FF) as usize;
            if offset + 1 < self.palette.len() {
                store_le16(&mut self.palette, offset, value);
            }
            return ;
        }
        if 0x0600_0000 <= addr && addr <= 0x0601_7FFF {
            let offset = (addr - 0x0600_0000) as usize;
            store_le16(&mut self.vram, offset, value);
        } else if 0x0300_0000 <= addr && addr <= 0x0300_7FFF {
            let offset = (addr - 0x0300_0000) as usize;
            store_le16(&mut self.iwram, offset, value);
        } else if 0x0400_0000 <= addr && addr <= 0x0400_03FF {
            let offset = (addr - 0x0400_0000) as usize;
            store_le16(&mut self.io_registers, offset, value);
        } else if 0x0700_0000 <= addr && addr <= 0x0700_03FF {
            let offset = (addr - 0x0700_0000) as usize;
            if offset + 1 < self.oam.len() {
                store_le16(&mut self.oam, offset, value);
            }
        }
    }

    fn read_u8(&self, address: u32) -> (r: u8) {
        let addr = address & 0x0FFF_FFFF;
        if addr <= 0x01FF_FFFF {
            let offset = addr as usize;
            if offset < self.rom.len() {
                self.rom[offset]
            } else {
                0
            }
        } else if (0x0200_0000 <= addr && addr <= 0x0203_FFFF) || (0x0300_0000 <= addr && addr
            <= 0x0300_7FFF) {
            self.iwram[(addr & 0x7FFF) as usize]
        } else if 0x0400_0000 <= addr && addr <= 0x0400_00FF {
            self.io_registers[(addr - 0x0400_0000) as usize]
        } else if 0x0500_0000 <= addr && addr <= 0x0500_03FF {
            self.palette[(addr - 0x0500_0000) as usize]
        } else if 0x0600_0000 <= addr && addr <= 0x0601_7FFF {
            self.vram[(addr - 0x0600_0000) as usize]
        } else if 0x0700_0000 <= addr && addr <= 0x0700_03FF {
            self.vram[(addr - 0x0700_0000) as usize]
        } else if 0x0800_0000 <= addr && addr <= 0x09FF_FFFF {
            let offset = (addr - 0x0800_0000) as usize;
            if offset < self.rom.len() {
                self.rom[offset]
            } else {
                0
            }
        } else {
            0
        }
    }

    fn write_u8(&mut self, address: u32, value: u8) {
        let addr = address & 0x0FFF_FFFF;
        if addr >= 0x0500_0000 && addr < 0x0500_1000 {
            let offset = ((addr - 0x0500_0000) & 0x3FF) as usize;
            self.palette[offset] = value;
            return ;
        }
        if (0x0200_0000 <= addr && addr <= 0x0203_FFFF) || (0x0300_0000 <= addr && addr
            <= 0x0300_7FFF) {
            self.iwram[(addr & 0x7FFF) as usize] = value;
        } else if 0x0400_0000 <= addr && addr <= 0x0400_00FF {
            self.io_registers[(addr - 0x0400_0000) as usize] = value;
        } else if 0x0600_0000 <= addr && addr <= 0x0601_7FFF {
            self.vram[(addr - 0x0600_0000) as usize] = value;
        } else if 0x0700_0000 <= addr && addr <= 0x0700_03FF {
            self.vram[(addr - 0x0700_0000) as usize] = value;
        }
    }
}

impl Default for Memory {
    fn default() -> (m: Self)
        ensures
            m@.wf(),
            m@.rom == Seq::<u8>::empty(),
            m@.vram == zeros(VRAM_SIZE as nat),
            m@.palette == zeros(PALETTE_SIZE as nat),
            m@.wram == zeros(WRAM_SIZE as nat),
            m@.iwram == zeros(IWRAM_SIZE as nat),
            m@.io == zeros(IO_SIZE as nat),
            m@.oam == zeros(OAM_SIZE as nat),
    {
        Self::new()
    }
}

} // verus!

verus! {

/// A word stored little-endian reads back as itself.
proof fn lemma_le32_put32(s: Seq<u8>, o: int, v: u32)
    requires
        0 <= o,
        o + 4 <= s.len(),
    ensures
        le32(put32(s, o, v), o) == v,
        put32(s, o, v).len() == s.len(),
{
    let t = put32(s, o, v);
    assert(t[o] == v as u8 && t[o + 1] == (v >> 8u32) as u8 && t[o + 2] == (v >> 16u32) as u8
        && t[o + 3] == (v >> 24u32) as u8);
    let b0 = v as u8;
    let b1 = (v >> 8u32) as u8;
    let b2 = (v >> 16u32) as u8;
    let b3 = (v >> 24u32) as u8;
    assert((b0 as u32) | ((b1 as u32) << 8u32) | ((b2 as u32) << 16u32) | ((b3 as u32) << 24u32)
        == v) by (bit_vector)
        requires
            b0 == v as u8,
            b1 == (v >> 8u32) as u8,
            b2 == (v >> 16u32) as u8,
            b3 == (v >> 24u32) as u8,
    ;
}

/// A halfword stored little-endian reads back as itself.
proof fn lemma_le16_put16(s: Seq<u8>, o: int, v: u16)
    requires
        0 <= o,
        o + 2 <= s.len(),
    ensures
        le16(put16(s, o, v), o) == v,
        put16(s, o, v).len() == s.len(),
{
    let b0 = v as u8;
    let b1 = (v >> 8u16) as u8;
    assert((b0 as u16) | ((b1 as u16) << 8u16) == v) by (bit_vector)
        requires
            b0 == v as u8,
            b1 == (v >> 8u16) as u8,
    ;
}

/// The addresses at which a word write and a word read reach the same four
/// bytes: the work RAM window, the I/O registers, the palette, video RAM
/// and the window at 0x07000000.
pub open spec fn word_round_trip(address: u32) -> bool {
    let addr = bus(address);
    ||| in_iwram_window(addr) && (addr & 0x7FFF) + 4 <= IWRAM_SIZE
    ||| in_io(addr) && addr - 0x0400_0000 <= 252
    ||| in_palette(addr) && palette_offset(addr) <= 1020
    ||| in_vram(addr) && addr - 0x0600_0000 + 4 <= VRAM_SIZE
    ||| in_oam_window(addr)
}

/// A word read after a word write at the same address gives back the
/// written word, wherever both reach the same bytes.
pub proof fn law_word_write_read(m: MemView, address: u32, value: u32)
    requires
        m.wf(),
        word_round_trip(address),
    ensures
        spec_read_u32(spec_write_u32(m, address, value), address) == value,
        spec_write_u32(m, address, value).wf(),
{
    let addr = bus(address);
    assert(palette_offset(addr) <= 0x3FF);
    if in_iwram_window(addr) {
        lemma_le32_put32(m.iwram, (addr & 0x7FFF) as int, value);
    } else if in_io(addr) {
        lemma_le32_put32(m.io, addr - 0x0400_0000, value);
    } else if in_palette(addr) {
        lemma_le32_put32(m.palette, palette_offset(addr), value);
    } else if in_vram(addr) {
        lemma_le32_put32(m.vram, addr - 0x0600_0000, value);
    } else {
        lemma_le32_put32(m.vram, addr - 0x0700_0000, value);
    }
}

/// The addresses at which a halfword write and a halfword read reach the
/// same two bytes: the palette, video RAM, the first 4 KiB at 0x03000000
/// and the I/O registers. Halfword writes at 0x07000000 reach the OAM,
/// which halfword reads do not.
pub open spec fn halfword_round_trip(address: u32) -> bool {
    let addr = bus(address);
    ||| in_palette(addr) && addr - 0x0500_0000 + 2 <= PALETTE_SIZE
    ||| in_vram(addr) && addr - 0x0600_0000 + 2 <= VRAM_SIZE
    ||| in_iwram_high(addr) && addr - 0x0300_0000 + 2 <= IWRAM_SIZE
    ||| in_io(addr) && addr - 0x0400_0000 + 2 <= IO_SIZE
}

/// A halfword read after a halfword write at the same address gives back
/// the written halfword, wherever both reach the same bytes.
pub proof fn law_halfword_write_read(m: MemView, address: u32, value: u16)
    requires
        m.wf(),
        halfword_round_trip(address),
    ensures
        spec_read_u16(spec_write_u16(m, address, value), address) == value,
        spec_write_u16(m, address, value).wf(),
{
    let addr = bus(address);
    if in_palette(addr) {
        assert(palette_offset(addr) == addr - 0x0500_0000) by {
            let d = (addr - 0x0500_0000) as u32;
            assert(d & 0x3FF == d) by (bit_vector)
                requires
                    d <= 0x3FF,
            ;
        }
        lemma_le16_put16(m.palette, addr - 0x0500_0000, value);
    } else if in_vram(addr) {
        lemma_le16_put16(m.vram, addr - 0x0600_0000, value);
    } else if in_iwram_high(addr) {
        assert((addr & 0x7FFF) == addr - 0x0300_0000) by (bit_vector)
            requires
                0x0300_0000 <= addr <= 0x0300_7FFF,
        ;
        lemma_le16_put16(m.iwram, addr - 0x0300_0000, value);
    } else {
        lemma_le16_put16(m.io, addr - 0x0400_0000, value);
    }
}

/// The addresses at which a byte write and a byte read reach the same byte.
pub open spec fn byte_round_trip(address: u32) -> bool {
    let addr = bus(address);
    ||| in_iwram_window(addr) && (addr & 0x7FFF) < IWRAM_SIZE
    ||| in_io(addr)
    ||| in_palette(addr)
    ||| in_vram(addr)
    ||| in_oam_window(addr)
}

/// A byte read after a byte write at the same address gives back the
/// written byte, wherever both reach the same byte.
pub proof fn law_byte_write_read(m: MemView, address: u32, value: u8)
    requires
        m.wf(),
        byte_round_trip(address),
    ensures
        spec_read_u8(spec_write_u8(m, address, value), address) == value,
        spec_write_u8(m, address, value).wf(),
{
    let addr = bus(address);
    if in_palette(addr) {
        let d = (addr - 0x0500_0000) as u32;
        assert(d & 0x3FF == d) by (bit_vector)
            requires
                d <= 0x3FF,
        ;
    }
}

/// Word addresses from 0x03000000 whose four bytes lie in the first 4 KiB
/// of internal RAM.
pub open spec fn in_iwram_words(a: u32) -> bool {
    0x0300_0000 <= a && a + 4 <= 0x0300_1000
}

/// A word write there leaves every word four or more bytes away unchanged.
pub proof fn lemma_iwram_word_frame(m: MemView, a: u32, b: u32, v: u32)
    requires
        m.wf(),
        in_iwram_words(a),
        in_iwram_words(b),
        a + 4 <= b || b + 4 <= a,
    ensures
        spec_read_u32(spec_write_u32(m, a, v), b) == spec_read_u32(m, b),
        spec_write_u32(m, a, v).wf(),
{
    assert(bus(a) == a && (a & 0x7FFF) == a - 0x0300_0000 && bus(b) == b && (b & 0x7FFF) == b
        - 0x0300_0000) by (bit_vector)
        requires
            0x0300_0000 <= a && a + 4 <= 0x0300_1000,
            0x0300_0000 <= b && b + 4 <= 0x0300_1000,
    ;
    let oa = a - 0x0300_0000;
    let ob = b - 0x0300_0000;
    let t = put32(m.iwram, oa, v);
    assert(t[ob] == m.iwram[ob] && t[ob + 1] == m.iwram[ob + 1] && t[ob + 2] == m.iwram[ob + 2]
        && t[ob + 3] == m.iwram[ob + 3]);
}

/// A word read there gives back the word last written there.
pub proof fn lemma_iwram_word_round_trip(m: MemView, a: u32, v: u32)
    requires
        m.wf(),
        in_iwram_words(a),
    ensures
        spec_read_u32(spec_write_u32(m, a, v), a) == v,
        spec_write_u32(m, a, v).wf(),
        read_u32_ok(a),
        write_u32_ok(a),
{
    assert(bus(a) == a && (a & 0x7FFF) == a - 0x0300_0000) by (bit_vector)
        requires
            0x0300_0000 <= a && a + 4 <= 0x0300_1000,
    ;
    law_word_write_read(m, a, v);
}

/// Writes to cartridge ROM are ignored.
pub proof fn law_rom_is_read_only(m: MemView, address: u32, w: u32, h: u16, b: u8)
    requires
        in_rom(bus(address)) || in_rom_low(bus(address)),
    ensures
        spec_write_u32(m, address, w) == m,
        spec_write_u16(m, address, h) == m,
        spec_write_u8(m, address, b) == m,
{
}

} // verus!

verus! {

/// Whether `read_u32` is in range at `address`.
pub fn read_u32_in_range(address: u32) -> (b: bool)
    ensures
        b == read_u32_ok(address),
{
    let addr = address & 0x0FFF_FFFF;
    let io_ok = !(0x0400_0000 <= addr && addr <= 0x0400_00FF) || addr - 0x0400_0000 <= 252;
    let palette_ok = !(0x0500_0000 <= addr && addr <= 0x0500_03FF) || ((addr - 0x0500_0000)
        & 0x3FF) <= 1020;
    io_ok && palette_ok
}

/// Whether `write_u32` is in range at `address`.
pub fn write_u32_in_range(address: u32) -> (b: bool)
    ensures
        b == write_u32_ok(address),
{
    let addr = address & 0x0FFF_FFFF;
    !(0x0400_0000 <= addr && addr <= 0x0400_00FF) || addr - 0x0400_0000 <= 252
}

/// Whether `read_u16` is in range at `address`.
pub fn read_u16_in_range(address: u32) -> (b: bool)
    ensures
        b == read_u16_ok(address),
{
    let addr = address & 0x0FFF_FFFF;
    let iwram = (0x0200_0000 <= addr && addr <= 0x0203_FFFF) || (0x0300_0000 <= addr && addr
        <= 0x0300_7FFF);
    (!iwram || (addr & 0x7FFF) < 4095) && (!(0x0400_0000 <= addr && addr <= 0x0400_00FF) || addr
        - 0x0400_0000 < 255) && (!(0x0500_0000 <= addr && addr <= 0x0500_03FF) || addr
        - 0x0500_0000 < 1023) && (!(0x0600_0000 <= addr && addr <= 0x0601_7FFF) || addr
        - 0x0600_0000 < 0x17FFF)
}

/// Whether `write_u16` is in range at `address`.
pub fn write_u16_in_range(address: u32) -> (b: bool)
    ensures
        b == write_u16_ok(address),
{
    let addr = address & 0x0FFF_FFFF;
    let mirror = 0x0500_0000 <= addr && addr < 0x0500_1000;
    (!(!mirror && 0x0600_0000 <= addr && addr <= 0x0601_7FFF) || addr - 0x0600_0000 < 0x17FFF)
        && (!(0x0300_0000 <= addr && addr <= 0x0300_7FFF) || addr - 0x0300_0000 < 4095) && (!(
    0x0400_0000 <= addr && addr <= 0x0400_03FF) || addr - 0x0400_0000 < 255)
}

/// Whether `read_u8` and `write_u8` are in range at `address`.
pub fn byte_access_in_range(address: u32) -> (b: bool)
    ensures
        b == read_u8_ok(address),
        b == write_u8_ok(address),
{
    let addr = address & 0x0FFF_FFFF;
    let iwram = (0x0200_0000 <= addr && addr <= 0x0203_FFFF) || (0x0300_0000 <= addr && addr
        <= 0x0300_7FFF);
    !iwram || (addr & 0x7FFF) < 4096
}

} // verus!
