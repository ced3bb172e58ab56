//! The console: processor, memory and PPU wired together.
use vstd::prelude::*;
use crate::cpu::{cycle_ok, cycle_step, lemma_cycle_bound, CpuView, CPU};
use crate::cpu::registers::{RegsView, THUMB_MODE};
use crate::memory::{
    zeros, MemView, Memory, IO_SIZE, IWRAM_SIZE, OAM_SIZE, PALETTE_SIZE, ROM_MAX_SIZE, VRAM_SIZE,
    WRAM_SIZE,
};
use crate::ppu::{rendered, PpuView, CYCLES_PER_FRAME, FRAMEBUFFER_SIZE, PPU};

verus! {

pub struct GBA {
    cpu: CPU,
    memory: Memory,
    ppu: PPU,
}

/// The abstract state of the console.
#[verifier::ext_equal]
pub struct GbaView {
    pub cpu: CpuView,
    pub mem: MemView,
    pub ppu: PpuView,
}

impl View for GBA {
    type V = GbaView;

    closed spec fn view(&self) -> GbaView {
        GbaView { cpu: self.cpu@, mem: self.memory@, ppu: self.ppu@ }
    }
}

impl GbaView {
    pub open spec fn wf(self) -> bool {
        self.mem.wf() && self.ppu.wf()
    }
}

/// A console just made: registers and counters zeroed, memory and
/// framebuffer zeroed, no cartridge.
pub open spec fn fresh_console() -> GbaView {
    GbaView {
        cpu: CpuView { regs: RegsView { r: Seq::new(16, |i: int| 0u32), cpsr: 0 }, total_cycles: 0 },
        mem: MemView {
            rom: Seq::empty(),
            vram: zeros(VRAM_SIZE as nat),
            palette: zeros(PALETTE_SIZE as nat),
            wram: zeros(WRAM_SIZE as nat),
            iwram: zeros(IWRAM_SIZE as nat),
            io: zeros(IO_SIZE as nat),
            oam: zeros(OAM_SIZE as nat),
        },
        ppu: PpuView { framebuffer: zeros(FRAMEBUFFER_SIZE as nat), cycle_counter: 0 },
    }
}

/// The console after a cartridge is installed: the image replaces the ROM
/// and the processor is in its post-BIOS state (ARM state at 0x08000000,
/// SP = 0x03007F00, LR = 0x08000000, CPSR = 0x10); the rest is kept.
pub open spec fn booted(g: GbaView, rom: Seq<u8>) -> GbaView {
    GbaView {
        cpu: CpuView {
            regs: g.cpu.regs.with_r(15, 0x0800_0000).with_flag(THUMB_MODE, false).with_r(
                13,
                0x0300_7F00,
            ).with_r(14, 0x0800_0000).with_cpsr(0x10),
            ..g.cpu
        },
        mem: MemView { rom, ..g.mem },
        ppu: g.ppu,
    }
}

/// A tick runs without a panic: the instruction can run and the PPU's
/// cycle counter does not overflow.
pub open spec fn tick_ok(g: GbaView) -> bool {
    &&& cycle_ok(g.cpu, g.mem)
    &&& g.ppu.cycle_counter + cycle_step(g.cpu.regs, g.mem).cycles <= u64::MAX
}

/// What one tick does to the console, and whether the PPU rendered a frame:
/// the instruction runs, its cycles are added to both counters, and once
/// the PPU's counter reaches a frame's worth a frame is taken off it and
/// background 0 is rendered from the memory after the instruction.
pub open spec fn tick_result(g: GbaView) -> (GbaView, bool) {
    let s = cycle_step(g.cpu.regs, g.mem);
    let counter = g.ppu.cycle_counter + s.cycles;
    let frame = counter >= CYCLES_PER_FRAME;
    let cpu = CpuView { regs: s.regs, total_cycles: (g.cpu.total_cycles + s.cycles) as u64 };
    let ppu = if frame {
        PpuView {
            framebuffer: rendered(s.mem, g.ppu.framebuffer),
            cycle_counter: (counter - CYCLES_PER_FRAME) as u64,
        }
    } else {
        PpuView { framebuffer: g.ppu.framebuffer, cycle_counter: counter as u64 }
    };
    (GbaView { cpu, mem: s.mem, ppu }, frame)
}

/// The console after `n` ticks from `g`.
pub open spec fn ticks(g: GbaView, n: nat) -> GbaView
    decreases n,
{
    if n == 0 {
        g
    } else {
        tick_result(ticks(g, (n - 1) as nat)).0
    }
}

/// Each of the first `n` ticks from `g` runs without a panic, and none of
/// them renders a frame.
pub open spec fn quiet_ticks(g: GbaView, n: nat) -> bool {
    forall|i: nat| i < n ==> tick_ok(#[trigger] ticks(g, i)) && !tick_result(ticks(g, i)).1
}

impl GBA {
    pub fn new() -> (g: Self)
        ensures
            g@.wf(),
            g@ == fresh_console(),
    {
        GBA { cpu: CPU::new(), memory: Memory::new(), ppu: PPU::new() }
    }

    /// Installs a cartridge image and puts the processor in its post-BIOS
    /// state; an image over 32 MiB is refused and nothing changes.
    pub fn load_rom(&mut self, rom: Vec<u8>) -> (r: Result<(), String>)
        requires
            old(self)@.wf(),
        ensures
            final(self)@.wf(),
            rom.len() > ROM_MAX_SIZE ==> r.is_err() && final(self)@ == old(self)@,
            rom.len() <= ROM_MAX_SIZE ==> r.is_ok() && final(self)@ == booted(old(self)@, rom@),
            r matches Err(e) ==> e@ == "ROM too large"@,
    {
        match self.memory.load_rom(rom) {
            Ok(()) => {},
            Err(e) => {
                return Err(e);
            },
        }
        self.cpu.initialize_gba();
        Ok(())
    }

    /// Runs one instruction.
    pub fn step(&mut self)
        requires
            old(self)@.wf(),
            cycle_ok(old(self)@.cpu, old(self)@.mem),
        ensures
            final(self)@.wf(),
            ({
                let s = cycle_step(old(self)@.cpu.regs, old(self)@.mem);
                &&& final(self)@.cpu == (CpuView {
                    regs: s.regs,
                    total_cycles: (old(self)@.cpu.total_cycles + s.cycles) as u64,
                })
                &&& final(self)@.mem == s.mem
                &&& final(self)@.ppu == old(self)@.ppu
            }),
    {
        self.cpu.fetch_decode_execute(&mut self.memory);
    }

    /// One pass of the frame loop: runs one instruction, then advances the
    /// PPU by its cycles; returns whether the PPU rendered a frame.
    pub fn tick(&mut self) -> (frame: bool)
        requires
            old(self)@.wf(),
            tick_ok(old(self)@),
        ensures
            final(self)@.wf(),
            final(self)@ == tick_result(old(self)@).0,
            frame == tick_result(old(self)@).1,
    {
        let cycles = self.cpu.fetch_decode_execute(&mut self.memory);
        self.ppu.step(&self.memory, cycles)
    }

    /// Runs the frame loop: ticks until the PPU renders a frame, and returns
    /// `true` then. Returns `false`, with the console as it is, where the
    /// next tick would panic. Every loop here needs a bound: after
    /// `u64::MAX` ticks without a frame it also returns `false`.
    pub fn run_frame(&mut self) -> (rendered: bool)
        requires
            old(self)@.wf(),
        ensures
            final(self)@.wf(),
            rendered ==> exists|n: nat|
                #![trigger ticks(old(self)@, n)]
                quiet_ticks(old(self)@, n) && tick_ok(ticks(old(self)@, n)) && tick_result(
                    ticks(old(self)@, n),
                ).1 && final(self)@ == tick_result(ticks(old(self)@, n)).0,
            !rendered ==> exists|n: nat|
                #![trigger ticks(old(self)@, n)]
                quiet_ticks(old(self)@, n) && final(self)@ == ticks(old(self)@, n) && (n
                    == u64::MAX || !tick_ok(final(self)@)),
    {
        let ghost start = old(self)@;
        let ghost mut n: nat = 0;
        let mut budget: u64 = u64::MAX;
        while budget > 0
            invariant
                start == old(self)@,
                self@.wf(),
                self@ == ticks(start, n),
                n + budget == u64::MAX,
                quiet_ticks(start, n),
            decreases budget,
        {
            if !self.can_tick() {
                assert(quiet_ticks(old(self)@, n) && self@ == ticks(old(self)@, n));
                return false;
            }
            let ghost before = self@;
            let frame = self.tick();
            if frame {
                assert(quiet_ticks(old(self)@, n) && tick_ok(ticks(old(self)@, n)));
                return true;
            }
            proof {
                assert(ticks(start, n + 1) == tick_result(ticks(start, n)).0);
                assert forall|i: nat| i < n + 1 implies tick_ok(#[trigger] ticks(start, i))
                    && !tick_result(ticks(start, i)).1 by {
                    if i < n {
                        assert(quiet_ticks(start, n));
                    }
                }
                n = n + 1;
            }
            budget = budget - 1;
        }
        assert(quiet_ticks(old(self)@, n) && self@ == ticks(old(self)@, n));
        false
    }

    /// Whether `step` runs without a panic.
    pub fn can_step(&self) -> (b: bool)
        requires
            self@.wf(),
        ensures
            b == cycle_ok(self@.cpu, self@.mem),
    {
        self.cpu.cycle_is_safe(&self.memory)
    }

    /// Whether `tick` runs without a panic.
    pub fn can_tick(&self) -> (b: bool)
        requires
            self@.wf(),
        ensures
            b == tick_ok(self@),
    {
        if !self.cpu.instruction_can_run(&self.memory) {
            return false;
        }
        let total = self.cpu.get_total_cycles();
        let counter = self.ppu.get_cycle_counter();
        if total <= u64::MAX - 18 && counter <= u64::MAX - 18 {
            proof {
                lemma_cycle_bound(self@.cpu.regs, self@.mem);
            }
            return true;
        }
        let cycles = self.cpu.next_cycles(&self.memory);
        cycles <= u64::MAX - total && cycles <= u64::MAX - counter
    }

    pub fn get_framebuffer(&self) -> (fb: &[u8])
        ensures
            fb@ == self@.ppu.framebuffer,
    {
        self.ppu.get_framebuffer()
    }
}

} // verus!
