//! The five condition bits of the processor and their packed form.
//!
//! The packed byte holds, from the lowest bit up: carry, a bit that is always
//! one, parity, a zero bit, auxiliary carry, a zero bit, zero and sign.

use vstd::prelude::*;

verus! {

/// One of the five condition bits.
#[derive(Clone, Copy, Debug, PartialEq, Eq, Structural)]
pub enum ConditionName {
    Carry,
    Auxillary,
    Sign,
    Zero,
    Parity,
}

/// The condition bits, each held as a boolean.
#[derive(Clone, Copy, Debug, PartialEq, Eq, Structural)]
pub struct Conditions {
    pub carry: bool,
    pub aux: bool,
    pub sign: bool,
    pub zero: bool,
    pub parity: bool,
}

/// The weight of a bit in a byte: `w` if the bit is set, else zero.
pub open spec fn weigh(bit: bool, w: int) -> int {
    if bit {
        w
    } else {
        0
    }
}

/// Whether the bit of weight `w` (a power of two) is set in `bits`.
pub open spec fn has_bit(bits: u8, w: int) -> bool {
    (bits as int / w) % 2 == 1
}

impl Conditions {
    /// The value of the named bit.
    pub open spec fn bit(self, name: ConditionName) -> bool {
        match name {
            ConditionName::Carry => self.carry,
            ConditionName::Auxillary => self.aux,
            ConditionName::Sign => self.sign,
            ConditionName::Zero => self.zero,
            ConditionName::Parity => self.parity,
        }
    }

    /// These bits with the named one replaced by `value`.
    pub open spec fn with(self, name: ConditionName, value: bool) -> Conditions {
        match name {
            ConditionName::Carry => Conditions { carry: value, ..self },
            ConditionName::Auxillary => Conditions { aux: value, ..self },
            ConditionName::Sign => Conditions { sign: value, ..self },
            ConditionName::Zero => Conditions { zero: value, ..self },
            ConditionName::Parity => Conditions { parity: value, ..self },
        }
    }

    /// The packed byte as a number.
    pub open spec fn packed(self) -> int {
        weigh(self.carry, 1) + 2 + weigh(self.parity, 4) + weigh(self.aux, 16) + weigh(
            self.zero,
            64,
        ) + weigh(self.sign, 128)
    }

    /// The bits that a packed byte stands for. Bits 1, 3 and 5 are not read.
    pub open spec fn unpacked(bits: u8) -> Conditions {
        Conditions {
            carry: has_bit(bits, 1),
            parity: has_bit(bits, 4),
            aux: has_bit(bits, 16),
            zero: has_bit(bits, 64),
            sign: has_bit(bits, 128),
        }
    }

    /// All five bits clear.
    pub fn new() -> (r: Self)
        ensures
            r == (Conditions { carry: false, aux: false, sign: false, zero: false, parity: false }),
    {
        Conditions { carry: false, aux: false, sign: false, zero: false, parity: false }
    }

    /// Replaces the named bit and leaves the other four alone.
    pub fn set(&mut self, register: ConditionName, value: bool)
        ensures
            *final(self) == old(self).with(register, value),
    {
        match register {
            ConditionName::Carry => self.carry = value,
            ConditionName::Auxillary => self.aux = value,
            ConditionName::Sign => self.sign = value,
            ConditionName::Zero => self.zero = value,
            ConditionName::Parity => self.parity = value,
        }
    }

    /// Reads the named bit.
    pub fn get(&self, register: ConditionName) -> (r: bool)
        ensures
            r == self.bit(register),
    {
        match register {
            ConditionName::Carry => self.carry,
            ConditionName::Auxillary => self.aux,
            ConditionName::Sign => self.sign,
            ConditionName::Zero => self.zero,
            ConditionName::Parity => self.parity,
        }
    }

    /// Packs the bits into the status byte.
    pub fn as_bits(&self) -> (bits: u8)
        ensures
            bits as int == self.packed(),
    {
        let c: u8 = if self.carry { 0b0000_0001 } else { 0 };
        let p: u8 = if self.parity { 0b0000_0100 } else { 0 };
        let a: u8 = if self.aux { 0b0001_0000 } else { 0 };
        let z: u8 = if self.zero { 0b0100_0000 } else { 0 };
        let s: u8 = if self.sign { 0b1000_0000 } else { 0 };
        proof {
            lemma_pack_disjoint(c, p, a, z, s);
        }
        0b0000_0010 | c | p | a | z | s
    }

    /// Loads the bits from a status byte.
    pub fn restore_from_bits(&mut self, bits: u8)
        ensures
            *final(self) == Conditions::unpacked(bits),
    {
        proof {
            lemma_mask_is_bit(bits);
        }
        self.carry = bits & 0b0000_0001 == 0b0000_0001;
        self.parity = bits & 0b0000_0100 == 0b0000_0100;
        self.aux = bits & 0b0001_0000 == 0b0001_0000;
        self.zero = bits & 0b0100_0000 == 0b0100_0000;
        self.sign = bits & 0b1000_0000 == 0b1000_0000;
    }

    /// Unpacking a packed byte gives back the bits it was packed from.
    pub proof fn lemma_unpack_pack(self)
        ensures
            0 <= self.packed() < 256,
            Conditions::unpacked(self.packed() as u8) == self,
    {
    }

    /// Packing what a byte unpacks to gives the byte back in the five bits
    /// that carry a condition; bit 1 comes back set and bits 3 and 5 clear. So
    /// a byte whose bit 1 is set comes back whole under the mask `0xD7`.
    pub proof fn lemma_pack_unpack(bits: u8)
        ensures
            0 <= Conditions::unpacked(bits).packed() < 256,
            (Conditions::unpacked(bits).packed() as u8) & 0xD5 == bits & 0xD5,
            (Conditions::unpacked(bits).packed() as u8) & 0x2A == 0x02,
            bits & 0x02 == 0x02 ==> (Conditions::unpacked(bits).packed() as u8) & 0xD7 == bits
                & 0xD7,
    {
        let f = Conditions::unpacked(bits);
        let c: u8 = if f.carry { 1 } else { 0 };
        let p: u8 = if f.parity { 4 } else { 0 };
        let a: u8 = if f.aux { 16 } else { 0 };
        let z: u8 = if f.zero { 64 } else { 0 };
        let s: u8 = if f.sign { 128 } else { 0 };
        lemma_pack_disjoint(c, p, a, z, s);
        lemma_mask_is_bit(bits);
        let packed = 2u8 | c | p | a | z | s;
        assert(packed as int == f.packed());
        assert(packed & 0xD5 == bits & 0xD5 && packed & 0x2A == 0x02 && (bits & 0x02 == 0x02
            ==> packed & 0xD7 == bits & 0xD7)) by (bit_vector)
            requires
                packed == 2u8 | c | p | a | z | s,
                c == (bits & 1),
                p == (bits & 4),
                a == (bits & 16),
                z == (bits & 64),
                s == (bits & 128),
        ;
    }
}

/// Or-ing bytes that each hold at most one fixed bit adds them.
pub proof fn lemma_pack_disjoint(c: u8, p: u8, a: u8, z: u8, s: u8)
    by (bit_vector)
    requires
        c == 0 || c == 1,
        p == 0 || p == 4,
        a == 0 || a == 16,
        z == 0 || z == 64,
        s == 0 || s == 128,
    ensures
        (2u8 | c | p | a | z | s) == 2 + c + p + a + z + s,
{
}

/// Masking a byte with a single bit tells whether that bit's digit is one.
pub proof fn lemma_mask_is_bit(bits: u8)
    by (bit_vector)
    ensures
        (bits & 1 == 1) == ((bits / 1) % 2 == 1),
        (bits & 4 == 4) == ((bits / 4) % 2 == 1),
        (bits & 16 == 16) == ((bits / 16) % 2 == 1),
        (bits & 64 == 64) == ((bits / 64) % 2 == 1),
        (bits & 128 == 128) == ((bits / 128) % 2 == 1),
        bits & 1 == 0 || bits & 1 == 1,
        bits & 4 == 0 || bits & 4 == 4,
        bits & 16 == 0 || bits & 16 == 16,
        bits & 64 == 0 || bits & 64 == 64,
        bits & 128 == 0 || bits & 128 == 128,
{
}

} // verus!
