//! A flat bus: 64 KiB of memory, all of it readable and writable.

use vstd::prelude::*;
use crate::memory::{apart, keeps, Memory};

verus! {

/// 65,536 bytes, one for each address.
pub struct BasicMemory {
    pub memory: [u8; 65536],
}

impl BasicMemory {
    /// A memory that holds zero everywhere.
    pub fn new() -> (r: Self)
        ensures
            r.cells() == Seq::new(65536, |i: int| 0u8),
    {
        let r = Self { memory: [0;65536] };
        assert(r.memory@ =~= Seq::new(65536, |i: int| 0u8));
        r
    }
}

impl Memory for BasicMemory {
    open spec fn cells(&self) -> Seq<u8> {
        self.memory@
    }

    open spec fn stored(cells: Seq<u8>, addr: u16, data: u8) -> Seq<u8> {
        Seq::new(
            65536,
            |i: int|
                if i == addr {
                    data
                } else {
                    cells[i]
                },
        )
    }

    fn read(&self, addr: u16) -> (data: u8) {
        self.memory[addr as usize]
    }

    fn write(&mut self, addr: u16, data: u8) {
        self.memory[addr as usize] = data;
        assert(self.cells() =~= Self::stored(old(self).cells(), addr, data));
    }
}

/// On the flat bus every address keeps what is written to it, and a write
/// changes what is read at no other address.
pub proof fn lemma_flat(addr: u16, other: u16)
    ensures
        keeps::<BasicMemory>(addr),
        addr != other ==> apart::<BasicMemory>(addr, other),
{
}

} // verus!
