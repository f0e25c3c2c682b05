//! The shift device of the arcade board: a 16-bit register that is loaded a
//! byte at a time through one output port, and read back through an input
//! port as the eight bits that start `offset` bits below its top.

use vstd::prelude::*;

verus! {

/// The byte that a read returns for the given register and offset.
pub open spec fn window(value: u16, offset: u8) -> u8 {
    ((value >> ((8 - offset) as u16)) & 0xFF) as u8
}

/// The register after the byte `v` is loaded: `v` becomes the high byte and
/// the old high byte the low byte.
pub open spec fn shifted_in(value: u16, v: u8) -> u16 {
    ((v as u16) << 8) | (value >> 8)
}

/// The offset that a written byte selects: its low three bits.
pub open spec fn selected(v: u8) -> u8 {
    v & 0x07
}

/// The shift device.
pub struct ShiftRegister {
    shift_register: u16,
    offset: u8,
}

impl ShiftRegister {
    /// The offset is a 3-bit number.
    #[verifier::type_invariant]
    pub closed spec fn wf(&self) -> bool {
        self.offset < 8
    }

    /// The 16 bits held.
    pub closed spec fn value(&self) -> u16 {
        self.shift_register
    }

    /// The offset of the read window, from 0 to 7.
    pub closed spec fn offset(&self) -> u8 {
        self.offset
    }

    /// A device that holds zero, with offset zero.
    pub fn new() -> (r: Self)
        ensures
            r.value() == 0,
            r.offset() == 0,
    {
        ShiftRegister { shift_register: 0, offset: 0 }
    }

    /// A write to the data port: loads `v` as the new high byte.
    pub fn load(&mut self, v: u8)
        ensures
            final(self).value() == shifted_in(old(self).value(), v),
            final(self).offset() == old(self).offset(),
    {
        proof {
            use_type_invariant(&*self);
        }
        self.shift_register = ((v as u16) << 8) | (self.shift_register >> 8);
    }

    /// A write to the offset port: keeps the low three bits of `v`.
    pub fn set_offset(&mut self, v: u8)
        ensures
            final(self).offset() == selected(v),
            final(self).offset() < 8,
            final(self).value() == old(self).value(),
    {
        proof {
            lemma_three_bits(v);
        }
        self.offset = v & 0x07;
    }

    /// A read of the result port.
    pub fn read(&self) -> (r: u8)
        ensures
            r == window(self.value(), self.offset()),
            self.offset() < 8,
    {
        proof {
            use_type_invariant(self);
        }
        ((self.shift_register >> ((8 - self.offset) as u16)) & 0xFF) as u8
    }

    /// The 16 bits held.
    pub fn get_value(&self) -> (r: u16)
        ensures
            r == self.value(),
    {
        self.shift_register
    }

    /// The offset of the read window.
    pub fn get_offset(&self) -> (r: u8)
        ensures
            r == self.offset(),
            r < 8,
    {
        proof {
            use_type_invariant(self);
        }
        self.offset
    }
}

/// The low three bits of a byte are a number below eight.
pub proof fn lemma_three_bits(v: u8)
    by (bit_vector)
    ensures
        v & 0x07 < 8,
        v & 0x07 == v % 8,
{
}

/// The read window in its two forms: shifting the register right by eight
/// less the offset gives the same byte as shifting it left by the offset, in
/// 32 bits, and taking the second byte.
pub proof fn lemma_window_forms(value: u16, offset: u8)
    by (bit_vector)
    requires
        offset < 8,
    ensures
        ((value >> ((8 - offset) as u16)) & 0xFF) as u32 == (((value as u32) << (offset as u32))
            >> 8) & 0xFF,
{
}

} // verus!
