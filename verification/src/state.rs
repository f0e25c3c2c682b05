//! The state of the processor as a mathematical value.
//!
//! [`State`] is the model that every contract of the processor speaks of: the
//! registers, the condition bits, the interrupt latch, the port latches and
//! the bytes that the bus reads back. Memory is changed only through the
//! bus's own account of a write, [`Memory::stored`].

use vstd::prelude::*;
use crate::alu::{high_byte, low_byte, moved, pair};
use crate::conditions::Conditions;
use crate::memory::Memory;

verus! {

/// An 8-bit register.
#[derive(Clone, Copy, Debug, PartialEq, Eq, Structural)]
pub enum Register {
    A,
    B,
    C,
    D,
    E,
    H,
    L,
}

/// A register pair, the stack pointer, or the accumulator with the packed
/// condition bits.
#[derive(Clone, Copy, Debug, PartialEq, Eq, Structural)]
pub enum Register16 {
    BC,
    DE,
    HL,
    PSW,
    SP,
}

/// Where an instruction finds or leaves a byte: a register, or the memory
/// cell that `HL` points at.
#[derive(Clone, Copy, Debug, PartialEq, Eq, Structural)]
pub enum Operand {
    Reg(Register),
    Mem,
}

/// The processor and what it sees of its bus.
pub struct State {
    pub a: u8,
    pub b: u8,
    pub c: u8,
    pub d: u8,
    pub e: u8,
    pub h: u8,
    pub l: u8,
    pub pc: u16,
    pub sp: u16,
    pub flags: Conditions,
    pub interrupt_enabled: bool,
    pub halted: bool,
    /// Ticks still owed for the instruction that ran last.
    pub wait_cycles: nat,
    /// The opcode latched by an interrupt request, if any.
    pub pending: Option<u8>,
    /// The input port latches, one byte for each of the 256 ports.
    pub devices: Seq<u8>,
    /// The port and value of the last `OUT` that nobody has collected.
    pub output: Option<(u8, u8)>,
    /// What a read of each address returns.
    pub mem: Seq<u8>,
}

impl State {
    /// The value of an 8-bit register.
    pub open spec fn reg(self, r: Register) -> u8 {
        match r {
            Register::A => self.a,
            Register::B => self.b,
            Register::C => self.c,
            Register::D => self.d,
            Register::E => self.e,
            Register::H => self.h,
            Register::L => self.l,
        }
    }

    /// This state with an 8-bit register replaced.
    pub open spec fn with_reg(self, r: Register, v: u8) -> State {
        match r {
            Register::A => State { a: v, ..self },
            Register::B => State { b: v, ..self },
            Register::C => State { c: v, ..self },
            Register::D => State { d: v, ..self },
            Register::E => State { e: v, ..self },
            Register::H => State { h: v, ..self },
            Register::L => State { l: v, ..self },
        }
    }

    /// The value of a 16-bit register. `PSW` is the accumulator above the
    /// packed condition bits.
    pub open spec fn pair(self, rp: Register16) -> u16 {
        match rp {
            Register16::BC => pair(self.b, self.c),
            Register16::DE => pair(self.d, self.e),
            Register16::HL => pair(self.h, self.l),
            Register16::PSW => pair(self.a, self.flags.packed() as u8),
            Register16::SP => self.sp,
        }
    }

    /// This state with a 16-bit register replaced. For `PSW` the high byte
    /// goes to the accumulator and the low byte is unpacked into the
    /// condition bits.
    pub open spec fn with_pair(self, rp: Register16, v: u16) -> State {
        match rp {
            Register16::BC => State { b: high_byte(v), c: low_byte(v), ..self },
            Register16::DE => State { d: high_byte(v), e: low_byte(v), ..self },
            Register16::HL => State { h: high_byte(v), l: low_byte(v), ..self },
            Register16::PSW => State {
                a: high_byte(v),
                flags: Conditions::unpacked(low_byte(v)),
                ..self
            },
            Register16::SP => State { sp: v, ..self },
        }
    }

    /// The address in `HL`.
    pub open spec fn hl(self) -> u16 {
        pair(self.h, self.l)
    }

    /// The byte that the bus reads at `addr`.
    pub open spec fn peek(self, addr: u16) -> u8 {
        self.mem[addr as int]
    }

    /// The 16-bit number stored low byte first at `addr`; the address of the
    /// high byte wraps round.
    pub open spec fn peek16(self, addr: u16) -> u16 {
        pair(self.peek(moved(addr, 1)), self.peek(addr))
    }

    /// This state after the bus has taken a write of `v` at `addr`.
    pub open spec fn poke<M: Memory>(self, addr: u16, v: u8) -> State {
        State { mem: M::stored(self.mem, addr, v), ..self }
    }

    /// The byte that the program counter points at.
    pub open spec fn immediate8(self) -> u8 {
        self.peek(self.pc)
    }

    /// The 16-bit number, low byte first, that the program counter points at.
    pub open spec fn immediate16(self) -> u16 {
        self.peek16(self.pc)
    }

    /// This state with the program counter moved on by `n` bytes.
    pub open spec fn skip(self, n: int) -> State {
        State { pc: moved(self.pc, n), ..self }
    }

    /// The byte that an operand holds.
    pub open spec fn operand(self, o: Operand) -> u8 {
        match o {
            Operand::Reg(r) => self.reg(r),
            Operand::Mem => self.peek(self.hl()),
        }
    }

    /// This state with `v` stored in an operand.
    pub open spec fn with_operand<M: Memory>(self, o: Operand, v: u8) -> State {
        match o {
            Operand::Reg(r) => self.with_reg(r, v),
            Operand::Mem => self.poke::<M>(self.hl(), v),
        }
    }

    /// This state after `v` is pushed: the high byte goes to `SP - 1`, then
    /// the low byte to `SP - 2`, and `SP` moves down by two.
    pub open spec fn pushed<M: Memory>(self, v: u16) -> State {
        let s1 = self.poke::<M>(moved(self.sp, -1), high_byte(v));
        let s2 = s1.poke::<M>(moved(self.sp, -2), low_byte(v));
        State { sp: moved(self.sp, -2), ..s2 }
    }

    /// The 16-bit number on top of the stack.
    pub open spec fn top(self) -> u16 {
        self.peek16(self.sp)
    }

    /// This state with the top of the stack dropped.
    pub open spec fn dropped(self) -> State {
        State { sp: moved(self.sp, 2), ..self }
    }
}

/// The state after reset, on a bus that reads `mem`: every register zero but
/// the stack pointer, which stands at the top of the arcade RAM; interrupts
/// disabled; nothing latched.
pub open spec fn reset(mem: Seq<u8>) -> State {
    State {
        a: 0,
        b: 0,
        c: 0,
        d: 0,
        e: 0,
        h: 0,
        l: 0,
        pc: 0,
        sp: 0x2400,
        flags: Conditions { carry: false, aux: false, sign: false, zero: false, parity: false },
        interrupt_enabled: false,
        halted: false,
        wait_cycles: 0,
        pending: None,
        devices: Seq::new(256, |i: int| 0u8),
        output: None,
        mem,
    }
}

} // verus!
