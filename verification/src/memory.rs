//! The bus that the processor reads and writes through.

use vstd::prelude::*;

pub mod basic_memory;

verus! {

/// A byte-addressed bus over a 16-bit address space.
///
/// The model of a bus is the sequence of the 65,536 bytes that a read of each
/// address returns. What a write does is a function of that sequence alone,
/// fixed by the kind of bus: it may store the byte, drop it, or store it
/// under every address that names the same cell.
pub trait Memory {
    /// The byte that a read returns, for each address.
    spec fn cells(&self) -> Seq<u8>;

    /// The cells after `data` is written at `addr`.
    spec fn stored(cells: Seq<u8>, addr: u16, data: u8) -> Seq<u8>;

    /// Reads the byte at `addr`.
    fn read(&self, addr: u16) -> (data: u8)
        ensures
            data == self.cells()[addr as int],
    ;

    /// Writes `data` at `addr`.
    fn write(&mut self, addr: u16, data: u8)
        ensures
            final(self).cells() == Self::stored(old(self).cells(), addr, data),
    ;
}

/// A write at `addr` is read back from `addr`, whatever the cells held.
pub open spec fn keeps<M: Memory>(addr: u16) -> bool {
    forall|cells: Seq<u8>, data: u8| #[trigger] M::stored(cells, addr, data)[addr as int] == data
}

/// A write at `addr` leaves what is read at `other` as it was.
pub open spec fn apart<M: Memory>(addr: u16, other: u16) -> bool {
    forall|cells: Seq<u8>, data: u8| #[trigger]
        M::stored(cells, addr, data)[other as int] == cells[other as int]
}

} // verus!
