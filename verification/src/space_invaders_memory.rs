//! The bus of the arcade board: 8 KiB of ROM, 1 KiB of work RAM and 7 KiB of
//! video RAM, together 16 KiB that repeat through the address space.

use vstd::prelude::*;
use crate::alu::moved;
use crate::memory::{apart, keeps, Memory};

verus! {

/// The number of addresses before the map repeats.
pub const MIRROR_SIZE: u16 = 0x4000;

/// The number of addresses, from zero up, that are read-only.
pub const ROM_SIZE: u16 = 0x2000;

/// The cell that an address names: the address folded into the first 16 KiB.
pub open spec fn fold(addr: int) -> int {
    addr % 0x4000
}

/// Whether a write at the address is kept: its cell lies above the ROM.
pub open spec fn writable(addr: int) -> bool {
    fold(addr) >= 0x2000
}

/// What the bus reads right after it is made with `rom`: the ROM in the
/// first 8 KiB of each 16, zero in the RAM above it.
pub open spec fn fresh(rom: Seq<u8>) -> Seq<u8> {
    Seq::new(
        65536,
        |i: int|
            if fold(i) < 0x2000 {
                rom[fold(i)]
            } else {
                0u8
            },
    )
}

/// The number of bytes in each of the four parts of the ROM image.
pub const ROM_PART_SIZE: usize = 2048;

/// The ROM image made of its four parts, in the order in which they are
/// given: byte `i` comes from part `i / 2048`, at `i mod 2048`.
pub open spec fn joined(h: Seq<u8>, g: Seq<u8>, f: Seq<u8>, e: Seq<u8>) -> Seq<u8> {
    h + g + f + e
}

/// Joins the four parts of the ROM image, `H`, `G`, `F` and `E` from the
/// lowest address up. There is an image only if each part is 2,048 bytes
/// long.
pub fn assemble_rom(h: &[u8], g: &[u8], f: &[u8], e: &[u8]) -> (r: Option<[u8; 8192]>)
    ensures
        r is Some <==> h@.len() == 2048 && g@.len() == 2048 && f@.len() == 2048 && e@.len()
            == 2048,
        r is Some ==> r->0@ == joined(h@, g@, f@, e@),
{
    if h.len() != ROM_PART_SIZE || g.len() != ROM_PART_SIZE || f.len() != ROM_PART_SIZE
        || e.len() != ROM_PART_SIZE {
        return None;
    }
    let mut rom: [u8; 8192] = [0;8192];
    let mut i: usize = 0;
    while i < 2048
        invariant
            i <= 2048,
            h@.len() == 2048,
            g@.len() == 2048,
            f@.len() == 2048,
            e@.len() == 2048,
            forall|j: int| 0 <= j < i ==> rom@[j] == h@[j],
            forall|j: int| 0 <= j < i ==> rom@[2048 + j] == g@[j],
            forall|j: int| 0 <= j < i ==> rom@[4096 + j] == f@[j],
            forall|j: int| 0 <= j < i ==> rom@[6144 + j] == e@[j],
        decreases 2048 - i,
    {
        rom[i] = h[i];
        rom[2048 + i] = g[i];
        rom[4096 + i] = f[i];
        rom[6144 + i] = e[i];
        i += 1;
    }
    assert(rom@ =~= joined(h@, g@, f@, e@));
    Some(rom)
}

/// The 16 KiB behind the arcade board's bus.
pub struct SpaceInvadersMemory {
    pub memory: [u8; 16384],
}

impl SpaceInvadersMemory {
    /// A memory with `rom` in its first 8 KiB and zero in its RAM.
    pub fn new(rom: [u8; 8192]) -> (r: Self)
        ensures
            r.cells() == fresh(rom@),
    {
        let mut memory: [u8; 16384] = [0;16384];
        let mut addr: usize = 0;
        while addr < 8192
            invariant
                addr <= 8192,
                forall|i: int| 0 <= i < addr ==> memory@[i] == rom@[i],
                forall|i: int| addr <= i < 16384 ==> memory@[i] == 0,
            decreases 8192 - addr,
        {
            memory[addr] = rom[addr];
            addr += 1;
        }
        let r = Self { memory };
        assert(r.cells() =~= fresh(rom@));
        r
    }
}

impl Memory for SpaceInvadersMemory {
    open spec fn cells(&self) -> Seq<u8> {
        Seq::new(65536, |i: int| self.memory@[fold(i)])
    }

    open spec fn stored(cells: Seq<u8>, addr: u16, data: u8) -> Seq<u8> {
        Seq::new(
            65536,
            |i: int|
                if writable(addr as int) && fold(i) == fold(addr as int) {
                    data
                } else {
                    cells[i]
                },
        )
    }

    fn read(&self, addr: u16) -> (data: u8) {
        self.memory[(addr % MIRROR_SIZE) as usize]
    }

    fn write(&mut self, addr: u16, data: u8) {
        let cell = addr % MIRROR_SIZE;
        if cell >= ROM_SIZE {
            self.memory[cell as usize] = data;
        }
        assert(self.cells() =~= Self::stored(old(self).cells(), addr, data));
    }
}

/// On the arcade bus an address keeps what is written to it when its cell
/// lies above the ROM, and a write changes what is read at no address that
/// names another cell. A write to ROM changes nothing.
pub proof fn lemma_mapped(addr: u16, other: u16)
    ensures
        writable(addr as int) ==> keeps::<SpaceInvadersMemory>(addr),
        fold(addr as int) != fold(other as int) ==> apart::<SpaceInvadersMemory>(addr, other),
        !writable(addr as int) ==> apart::<SpaceInvadersMemory>(addr, other),
{
}

/// Every address reads what the address it folds to reads, and a write
/// through any address of a RAM cell is read back at all of them.
pub proof fn lemma_mirrors(memory: SpaceInvadersMemory, addr: u16, written: u16, data: u8)
    ensures
        memory.cells()[addr as int] == memory.cells()[fold(addr as int)],
        writable(written as int) && fold(addr as int) == fold(written as int)
            ==> SpaceInvadersMemory::stored(memory.cells(), written, data)[addr as int] == data,
{
}

/// The two addresses just below an address name two cells.
pub proof fn lemma_neighbours_apart(addr: u16)
    ensures
        fold(moved(addr, -2) as int) != fold(moved(addr, -1) as int),
{
}

} // verus!
