# gba_emu

A Game Boy Advance emulator core written in Verus: the ARM7TDMI register
file, the ARM and Thumb decoders and executors, the memory map, and the
background renderer, each with a contract proved against a mathematical
model of the machine state.

- `src/` is the verified library. `cpu/` holds the register file
  (`registers.rs`), the ALU and barrel shifter (`operations.rs`), the
  decoders, the executors (one spec function per instruction class
  describes its effect on registers, memory and cycles) and `safety.rs`,
  which decides at run time whether an instruction can run. `memory.rs`
  models the bus, `ppu.rs` the renderer, `gba.rs` the console and its
  frame loop, and `gba_app.rs` the state of the emulator window.
- `app/` is the front end: file reading, the egui window and the
  bring-up harness in `main`.
- `tests/` runs the library on concrete programs.
