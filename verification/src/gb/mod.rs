//! The beginnings of a Game Boy core: its CPU state, instruction table
//! entries and 64 KiB address space.
pub mod cpu;
pub mod instructions;
pub mod ram;
