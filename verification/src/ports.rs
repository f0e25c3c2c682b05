//! What the arcade board's ports carry: the player's controls on the way in,
//! and the sound triggers on the way out.

use vstd::prelude::*;
use crate::conditions::weigh;

verus! {

/// The byte that input port 0 always reads.
pub const PORT0: u8 = 0x8F;

/// The number of sound samples: five for each of the two sound ports.
pub const SAMPLES: usize = 10;

/// The controls of the cabinet, each `true` while it is held.
#[derive(Clone, Copy, Debug, PartialEq, Eq, Structural)]
pub struct Controls {
    pub coin: bool,
    pub p1_start: bool,
    pub p2_start: bool,
    pub p1_fire: bool,
    pub p1_left: bool,
    pub p1_right: bool,
    pub p2_fire: bool,
    pub p2_left: bool,
    pub p2_right: bool,
}

/// The byte of input port 1: coin in bit 0, the two-player start in bit 1,
/// the one-player start in bit 2, bit 3 always set, then player one's fire,
/// left and right in bits 4 to 6.
pub open spec fn port1_byte(c: Controls) -> int {
    weigh(c.coin, 1) + weigh(c.p2_start, 2) + weigh(c.p1_start, 4) + 8 + weigh(c.p1_fire, 16)
        + weigh(c.p1_left, 32) + weigh(c.p1_right, 64)
}

/// The byte of input port 2: player two's fire, left and right in bits 4 to
/// 6.
pub open spec fn port2_byte(c: Controls) -> int {
    weigh(c.p2_fire, 16) + weigh(c.p2_left, 32) + weigh(c.p2_right, 64)
}

/// The sound bits that went from 0 to 1 between two writes of a sound port.
/// Only the low five bits of a sound port name a sample.
pub open spec fn risen(previous: u8, now: u8) -> u8 {
    now & !previous & 0x1F
}

impl Controls {
    /// No control held.
    pub fn new() -> (r: Self)
        ensures
            port1_byte(r) == 8,
            port2_byte(r) == 0,
    {
        Controls {
            coin: false,
            p1_start: false,
            p2_start: false,
            p1_fire: false,
            p1_left: false,
            p1_right: false,
            p2_fire: false,
            p2_left: false,
            p2_right: false,
        }
    }

    /// The byte that input port 1 reads.
    pub fn port1(&self) -> (r: u8)
        ensures
            r as int == port1_byte(*self),
    {
        let mut bits: u8 = 8;
        if self.coin {
            bits = bits + 1;
        }
        if self.p2_start {
            bits = bits + 2;
        }
        if self.p1_start {
            bits = bits + 4;
        }
        if self.p1_fire {
            bits = bits + 16;
        }
        if self.p1_left {
            bits = bits + 32;
        }
        if self.p1_right {
            bits = bits + 64;
        }
        bits
    }

    /// The byte that input port 2 reads.
    pub fn port2(&self) -> (r: u8)
        ensures
            r as int == port2_byte(*self),
    {
        let mut bits: u8 = 0;
        if self.p2_fire {
            bits = bits + 16;
        }
        if self.p2_left {
            bits = bits + 32;
        }
        if self.p2_right {
            bits = bits + 64;
        }
        bits
    }
}

/// The samples to start when a sound port that last held `previous` is
/// written `now`: one bit for each of the port's five samples.
pub fn rising_edges(previous: u8, now: u8) -> (r: u8)
    ensures
        r == risen(previous, now),
        r < 32,
{
    proof {
        lemma_risen_small(previous, now);
    }
    now & !previous & 0x1F
}

/// Whether a set of triggers asks for the sample: its bit `sample` is set.
pub fn triggers(sounds: u16, sample: usize) -> (r: bool)
    ensures
        r == (sample < 16 && (sounds >> (sample as u16)) & 1 == 1),
{
    sample < 16 && (sounds >> (sample as u16)) & 1 == 1
}

/// Risen bits fit in five bits.
pub proof fn lemma_risen_small(previous: u8, now: u8)
    by (bit_vector)
    ensures
        now & !previous & 0x1F < 32,
{
}

/// A bit has risen exactly when it is one of the low five, was clear and is
/// now set.
pub proof fn lemma_risen_bit(previous: u8, now: u8, bit: u8)
    by (bit_vector)
    requires
        bit < 8,
    ensures
        ((now & !previous & 0x1F) >> bit) & 1 == 1 <==> (bit < 5 && (now >> bit) & 1 == 1 && (
        previous >> bit) & 1 == 0),
{
}

} // verus!
