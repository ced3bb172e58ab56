//! A Game Boy Advance emulator core: the ARM7TDMI register file, the ARM and
//! Thumb instruction decoders and executors, the memory map and the
//! background renderer.
pub mod bits;
pub mod cpu;
pub mod memory;
pub mod ppu;
pub mod gb;
pub mod gba;
pub mod gba_app;
