//! The addressable memory: a fixed 64 KiB byte array, read and written by
//! 16-bit address. The array covers the whole address space, so every 16-bit
//! address is in bounds.

use vstd::prelude::*;

verus! {

/// Number of addressable bytes: the full 16-bit address space.
pub const RAM_SIZE: usize = 65536;

pub struct Ram {
    memory: [u8; RAM_SIZE],
}

impl View for Ram {
    type V = Seq<u8>;

    closed spec fn view(&self) -> Seq<u8> {
        self.memory@
    }
}

impl Ram {
    /// Every `Ram` value holds exactly the full address space.
    pub broadcast proof fn lemma_len(self)
        ensures
            (#[trigger] self@).len() == RAM_SIZE,
    {
    }

    pub fn create() -> (r: Ram)
        ensures
            r@.len() == RAM_SIZE,
            forall|i: int| 0 <= i < RAM_SIZE ==> r@[i] == 0u8,
    {
        Ram { memory: [0; RAM_SIZE] }
    }

    pub fn write(&mut self, addr: u16, value: u8)
        ensures
            final(self)@ == old(self)@.update(addr as int, value),
    {
        self.memory[addr as usize] = value;
    }

    pub fn read(&mut self, addr: u16) -> (r: u8)
        ensures
            *final(self) == *old(self),
            r == old(self)@[addr as int],
    {
        self.memory[addr as usize]
    }
}

} // verus!
