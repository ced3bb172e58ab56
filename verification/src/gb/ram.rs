use vstd::prelude::*;

verus! {

pub const RAM_SIZE: u32 = 65536;

/// The 64 KiB Game Boy address space.
pub struct RAM {
    memory: Vec<u8>,
}

impl View for RAM {
    type V = Seq<u8>;

    closed spec fn view(&self) -> Seq<u8> {
        self.memory@
    }
}

impl RAM {
    /// Every address of the 16-bit space holds a byte.
    pub open spec fn wf(&self) -> bool {
        self@.len() == RAM_SIZE
    }

    pub fn new() -> (ram: Self)
        ensures
            ram.wf(),
            ram@ == Seq::new(RAM_SIZE as nat, |i: int| 0u8),
    {
        let memory = vec![0u8; 65536];
        assert(memory@ =~= Seq::new(RAM_SIZE as nat, |i: int| 0u8));
        RAM { memory }
    }

    pub fn read(&self, address: u16) -> (byte: u8)
        requires
            self.wf(),
        ensures
            byte == self@[address as int],
    {
        self.memory[address as usize]
    }

    pub fn write(&mut self, address: u16, byte: u8)
        requires
            old(self).wf(),
        ensures
            final(self).wf(),
            final(self)@ == old(self)@.update(address as int, byte),
    {
        self.memory[address as usize] = byte;
    }
}

} // verus!

verus! {

/// A read after a write at the same address gives back the written byte;
/// every other address keeps its byte.
pub proof fn law_ram_write_read(ram: Seq<u8>, a: u16, b: u16, v: u8)
    requires
        ram.len() == RAM_SIZE,
    ensures
        ram.update(a as int, v)[a as int] == v,
        a != b ==> ram.update(a as int, v)[b as int] == ram[b as int],
{
}

} // verus!
