use vstd::prelude::*;

verus! {

/// An entry of the Game Boy instruction table.
#[derive(Debug, Clone)]
pub struct Instruction {
    pub opcode: u8,
    pub name: &'static str,
    pub cycles: u8,
    pub size: u8,
}

} // verus!
