use vstd::prelude::*;
use crate::gb::instructions::Instruction;

verus! {

/// The Game Boy CPU state.
pub struct CPU {
    /// Interrupt master enable: interrupts are taken when set.
    pub ime: bool,
    /// The opcode of the running instruction.
    pub opcode: u8,
    /// The total number of cycles run.
    pub cycles: u64,
}

impl CPU {
    pub fn new() -> (cpu: Self)
        ensures
            !cpu.ime,
            cpu.opcode == 0,
            cpu.cycles == 0,
    {
        CPU { ime: false, opcode: 0, cycles: 0 }
    }

    /// Fetching is not implemented yet: it yields 1 and changes nothing.
    pub fn fetch_next(&mut self) -> (byte: u8)
        ensures
            byte == 1,
            *final(self) == *old(self),
    {
        1
    }

    /// No instruction is in the table yet: every opcode decodes to `None`.
    pub fn decode(opcode: u8, cb_opcode: bool) -> (i: Option<&'static Instruction>)
        ensures
            i is None,
    {
        None
    }

    /// Execution is not implemented yet: it takes 1 cycle and changes nothing.
    pub fn execute_next(&mut self) -> (cycles: u64)
        ensures
            cycles == 1,
            *final(self) == *old(self),
    {
        1
    }
}

} // verus!
