//! The processor: registers, fetch and dispatch, one method for each
//! instruction, the interrupt latch and the port latches.
//!
//! Each method's contract gives the state it leaves as a function of the
//! state it found, over the model in [`crate::state`] and the instruction set
//! in [`crate::instruction`]. An instruction method returns the cycles that
//! the instruction still owes once the tick that ran it is over: its nominal
//! count less one.

use vstd::prelude::*;
use crate::alu::{add_pairs, add_with_carry, advance, concat_u8, decimal_adjust, lemma_count_down,
    lemma_pair_bytes, lemma_truncate, parity, retreat, rotate_left, rotate_left_through,
    rotate_right, rotate_right_through, split_u16, sub_with_borrow, sum, Outcome};
use crate::conditions::{ConditionName, Conditions};
use crate::instruction::{accumulated, branched, computed, controlled, decode, decoded,
    flags_after, flags_of, owed, run, ticked, transferred, vector_of, Branch, Compute, Control,
    Instruction, Operation, Test, Transfer};
use crate::memory::Memory;
use crate::state::{reset, Operand, Register, Register16, State};

verus! {

/// An Intel 8080 on a bus of kind `M`.
pub struct Cpu<M: Memory> {
    pub a: u8,
    pub b: u8,
    pub c: u8,
    pub d: u8,
    pub e: u8,
    pub h: u8,
    pub l: u8,
    pub pc: u16,
    pub sp: u16,
    pub conditions: Conditions,
    pub interrupt_enabled: bool,
    pub memory: Box<M>,
    pub wait_cycles: usize,
    pub interrupt_opcode: Option<u8>,
    pub devices: [u8; 256],
    pub output: Option<(u8, u8)>,
    pub halted: bool,
}

impl<M: Memory> View for Cpu<M> {
    type V = State;

    open spec fn view(&self) -> State {
        State {
            a: self.a,
            b: self.b,
            c: self.c,
            d: self.d,
            e: self.e,
            h: self.h,
            l: self.l,
            pc: self.pc,
            sp: self.sp,
            flags: self.conditions,
            interrupt_enabled: self.interrupt_enabled,
            halted: self.halted,
            wait_cycles: self.wait_cycles as nat,
            pending: self.interrupt_opcode,
            devices: self.devices@,
            output: self.output,
            mem: self.memory.cells(),
        }
    }
}

impl<M: Memory> Cpu<M> {
    /// A processor after reset, on the given bus.
    pub fn new(memory: Box<M>) -> (cpu: Self)
        ensures
            cpu@ == reset(memory.cells()),
    {
        let cpu = Cpu {
            a: 0,
            b: 0,
            c: 0,
            d: 0,
            e: 0,
            h: 0,
            l: 0,
            pc: 0,
            sp: 0x2400,
            conditions: Conditions::new(),
            interrupt_enabled: false,
            memory,
            wait_cycles: 0,
            interrupt_opcode: None,
            devices: [0;256],
            output: None,
            halted: false,
        };
        assert(cpu.devices@ =~= Seq::new(256, |i: int| 0u8));
        cpu
    }

    /// Reads the byte at the program counter and steps over it.
    pub fn fetch_byte(&mut self) -> (r: u8)
        ensures
            r == old(self)@.immediate8(),
            final(self)@ == old(self)@.skip(1),
    {
        let pc = self.pc;
        self.pc = advance(self.pc, 1);
        self.memory.read(pc)
    }

    /// Reads the two bytes at the program counter, low byte first, and steps
    /// over them.
    pub fn fetch_two_bytes(&mut self) -> (r: u16)
        ensures
            r == old(self)@.immediate16(),
            final(self)@ == old(self)@.skip(2),
    {
        let lsb = self.memory.read(self.pc);
        let msb = self.memory.read(advance(self.pc, 1));
        self.pc = advance(self.pc, 2);
        concat_u8(msb, lsb)
    }

    /// The value of an 8-bit register.
    pub fn get_one_byte_register(&self, register: &Register) -> (r: u8)
        ensures
            r == self@.reg(*register),
    {
        match register {
            Register::B => self.b,
            Register::C => self.c,
            Register::D => self.d,
            Register::E => self.e,
            Register::H => self.h,
            Register::L => self.l,
            Register::A => self.a,
        }
    }

    /// Replaces an 8-bit register.
    pub fn set_one_byte_register(&mut self, value: u8, register: &Register)
        ensures
            final(self)@ == old(self)@.with_reg(*register, value),
    {
        match register {
            Register::B => self.b = value,
            Register::C => self.c = value,
            Register::D => self.d = value,
            Register::E => self.e = value,
            Register::H => self.h = value,
            Register::L => self.l = value,
            Register::A => self.a = value,
        };
    }

    /// The value of a 16-bit register.
    pub fn get_two_byte_register(&self, register: &Register16) -> (r: u16)
        ensures
            r == self@.pair(*register),
    {
        match register {
            Register16::BC => concat_u8(self.b, self.c),
            Register16::DE => concat_u8(self.d, self.e),
            Register16::HL => concat_u8(self.h, self.l),
            Register16::SP => self.sp,
            Register16::PSW => concat_u8(self.a, self.conditions.as_bits()),
        }
    }

    /// Replaces a 16-bit register.
    pub fn set_two_byte_register(&mut self, value: u16, register: &Register16)
        ensures
            final(self)@ == old(self)@.with_pair(*register, value),
    {
        let (msb, lsb) = split_u16(value);
        match register {
            Register16::BC => {
                self.c = lsb;
                self.b = msb;
            },
            Register16::DE => {
                self.e = lsb;
                self.d = msb;
            },
            Register16::HL => {
                self.l = lsb;
                self.h = msb;
            },
            Register16::SP => {
                self.sp = value;
            },
            Register16::PSW => {
                self.conditions.restore_from_bits(lsb);
                self.a = msb;
            },
        }
    }

    /// `NOP`: nothing.
    pub fn nop(&self) -> (cycles: usize)
        ensures
            cycles == 3,
    {
        3
    }

    /// `LXI rp`: loads the pair with the two bytes that follow.
    pub fn lxi(&mut self, register: Register16) -> (cycles: usize)
        ensures
            final(self)@ == transferred::<M>(old(self)@, Transfer::Lxi(register)),
            cycles == 9,
    {
        let immediate = self.fetch_two_bytes();
        self.set_two_byte_register(immediate, &register);
        9
    }

    /// Pushes a 16-bit number: the high byte goes to `SP - 1`, the low byte to
    /// `SP - 2`, and `SP` moves down by two.
    pub fn push_word(&mut self, value: u16)
        ensures
            final(self)@ == old(self)@.pushed::<M>(value),
    {
        let (msb, lsb) = split_u16(value);
        self.memory.write(retreat(self.sp, 1), msb);
        self.memory.write(retreat(self.sp, 2), lsb);
        self.sp = retreat(self.sp, 2);
    }

    /// Pops a 16-bit number: the low byte comes from `SP`, the high byte from
    /// `SP + 1`, and `SP` moves up by two.
    pub fn pop_word(&mut self) -> (r: u16)
        ensures
            r == old(self)@.top(),
            final(self)@ == old(self)@.dropped(),
    {
        let lsb = self.memory.read(self.sp);
        let msb = self.memory.read(advance(self.sp, 1));
        self.sp = advance(self.sp, 2);
        concat_u8(msb, lsb)
    }

    /// Sets zero, sign and parity from a result.
    pub fn set_result_conditions(&mut self, result: u8)
        ensures
            final(self)@ == (State {
                flags: flags_of(result, old(self)@.flags.carry, old(self)@.flags.aux),
                ..old(self)@
            }),
    {
        self.conditions.zero = result == 0;
        self.conditions.sign = result >= 0x80;
        self.conditions.parity = parity(result);
    }

    /// Adds two bytes and sets zero, sign, parity and auxiliary carry from the
    /// sum; carry is left alone. The result is the sum in nine bits. A byte is
    /// taken away by adding its two's complement.
    pub fn add_sub_8bit(&mut self, v1: u8, v2: u8) -> (result: u16)
        ensures
            result == v1 + v2,
            final(self)@ == (State {
                flags: flags_of(
                    sum(v1, v2, false).value,
                    old(self)@.flags.carry,
                    sum(v1, v2, false).aux,
                ),
                ..old(self)@
            }),
    {
        let out = add_with_carry(v1, v2, false);
        self.set_result_conditions(out.value);
        self.conditions.aux = out.aux;
        (v1 as u16) + (v2 as u16)
    }

    /// Carries out an operation between the accumulator and a byte.
    pub fn accumulate(&mut self, operation: Operation, value: u8)
        ensures
            final(self)@ == accumulated(old(self)@, operation, value),
    {
        match operation {
            Operation::Add => self.add_value(value, false),
            Operation::AddCarry => self.add_value(value, true),
            Operation::Subtract => self.sub_value(value, false),
            Operation::SubtractBorrow => self.sub_value(value, true),
            Operation::And => self.and_value(value),
            Operation::Xor => self.xor_value(value),
            Operation::Or => self.or_value(value),
            Operation::Compare => self.compare_value(value),
        }
    }

    /// Adds a byte to the accumulator, and the carry bit with it if
    /// `with_carry` is set.
    pub fn add_value(&mut self, value: u8, with_carry: bool)
        ensures
            final(self)@ == accumulated(
                old(self)@,
                if with_carry {
                    Operation::AddCarry
                } else {
                    Operation::Add
                },
                value,
            ),
    {
        let out = add_with_carry(self.a, value, with_carry && self.conditions.carry);
        self.settle(out);
        self.a = out.value;
    }

    /// Takes a byte from the accumulator, and the carry bit with it if
    /// `with_borrow` is set.
    pub fn sub_value(&mut self, value: u8, with_borrow: bool)
        ensures
            final(self)@ == accumulated(
                old(self)@,
                if with_borrow {
                    Operation::SubtractBorrow
                } else {
                    Operation::Subtract
                },
                value,
            ),
    {
        let out = sub_with_borrow(self.a, value, with_borrow && self.conditions.carry);
        self.settle(out);
        self.a = out.value;
    }

    /// Sets the condition bits as taking a byte from the accumulator would,
    /// and leaves the accumulator alone.
    pub fn compare_value(&mut self, value: u8)
        ensures
            final(self)@ == accumulated(old(self)@, Operation::Compare, value),
    {
        let out = sub_with_borrow(self.a, value, false);
        self.settle(out);
    }

    /// Ands a byte into the accumulator.
    pub fn and_value(&mut self, value: u8)
        ensures
            final(self)@ == accumulated(old(self)@, Operation::And, value),
    {
        proof {
            lemma_bit_three(self.a, value);
        }
        let aux = (self.a | value) & 0x08 == 0x08;
        self.a = self.a & value;
        self.set_result_conditions(self.a);
        self.conditions.carry = false;
        self.conditions.aux = aux;
    }

    /// Exclusive-ors a byte into the accumulator.
    pub fn xor_value(&mut self, value: u8)
        ensures
            final(self)@ == accumulated(old(self)@, Operation::Xor, value),
    {
        self.a = self.a ^ value;
        self.set_result_conditions(self.a);
        self.conditions.carry = false;
        self.conditions.aux = false;
    }

    /// Ors a byte into the accumulator.
    pub fn or_value(&mut self, value: u8)
        ensures
            final(self)@ == accumulated(old(self)@, Operation::Or, value),
    {
        self.a = self.a | value;
        self.set_result_conditions(self.a);
        self.conditions.carry = false;
        self.conditions.aux = false;
    }

    /// Sets all five condition bits from a sum or a difference.
    pub fn settle(&mut self, out: Outcome)
        ensures
            final(self)@ == (State { flags: flags_after(out), ..old(self)@ }),
    {
        self.set_result_conditions(out.value);
        self.conditions.carry = out.carry;
        self.conditions.aux = out.aux;
    }

    /// `STAX rp`: stores the accumulator at the address in the pair.
    pub fn stax(&mut self, register: Register16) -> (cycles: usize)
        ensures
            final(self)@ == transferred::<M>(old(self)@, Transfer::Stax(register)),
            cycles == 6,
    {
        let addr = self.get_two_byte_register(&register);
        self.memory.write(addr, self.a);
        6
    }

    /// `STA`: stores the accumulator at the address that follows.
    pub fn sta(&mut self) -> (cycles: usize)
        ensures
            final(self)@ == transferred::<M>(old(self)@, Transfer::Sta),
            cycles == 12,
    {
        let immediate = self.fetch_two_bytes();
        self.memory.write(immediate, self.a);
        12
    }

    /// `INX rp`: counts the pair up by one, wrapping round; no condition bit
    /// changes.
    pub fn inx(&mut self, register: Register16) -> (cycles: usize)
        ensures
            final(self)@ == computed::<M>(old(self)@, Compute::Inx(register)),
            cycles == 4,
    {
        let value = self.get_two_byte_register(&register);
        self.set_two_byte_register(advance(value, 1), &register);
        4
    }

    /// `INR r`: counts the register up by one; carry is left alone.
    pub fn inr(&mut self, register: Register) -> (cycles: usize)
        ensures
            final(self)@ == computed::<M>(old(self)@, Compute::Inr(Operand::Reg(register))),
            cycles == 4,
    {
        let value = self.get_one_byte_register(&register);
        let result = self.add_sub_8bit(value, 1);
        proof {
            lemma_truncate(result);
        }
        self.set_one_byte_register(result as u8, &register);
        4
    }

    /// `INR M`: counts the byte at `HL` up by one; carry is left alone.
    pub fn inrm(&mut self) -> (cycles: usize)
        ensures
            final(self)@ == computed::<M>(old(self)@, Compute::Inr(Operand::Mem)),
            cycles == 9,
    {
        let addr = self.get_two_byte_register(&Register16::HL);
        let value = self.memory.read(addr);
        let result = self.add_sub_8bit(value, 1);
        proof {
            lemma_truncate(result);
        }
        self.memory.write(addr, result as u8);
        9
    }

    /// `DCR r`: counts the register down by one; carry is left alone.
    pub fn dcr(&mut self, register: Register) -> (cycles: usize)
        ensures
            final(self)@ == computed::<M>(old(self)@, Compute::Dcr(Operand::Reg(register))),
            cycles == 4,
    {
        let value = self.get_one_byte_register(&register);
        let result = self.add_sub_8bit(value, 0xFF);
        proof {
            lemma_truncate(result);
            lemma_count_down(value);
        }
        self.set_one_byte_register(result as u8, &register);
        4
    }

    /// `DCR M`: counts the byte at `HL` down by one; carry is left alone.
    pub fn dcrm(&mut self) -> (cycles: usize)
        ensures
            final(self)@ == computed::<M>(old(self)@, Compute::Dcr(Operand::Mem)),
            cycles == 9,
    {
        let addr = self.get_two_byte_register(&Register16::HL);
        let value = self.memory.read(addr);
        let result = self.add_sub_8bit(value, 0xFF);
        proof {
            lemma_truncate(result);
            lemma_count_down(value);
        }
        self.memory.write(addr, result as u8);
        9
    }

    /// `MVI r`: loads the register with the byte that follows.
    pub fn mvi(&mut self, register: Register) -> (cycles: usize)
        ensures
            final(self)@ == transferred::<M>(old(self)@, Transfer::Mvi(Operand::Reg(register))),
            cycles == 6,
    {
        let value = self.fetch_byte();
        self.set_one_byte_register(value, &register);
        6
    }

    /// `MVI M`: stores the byte that follows at `HL`.
    pub fn mvim(&mut self) -> (cycles: usize)
        ensures
            final(self)@ == transferred::<M>(old(self)@, Transfer::Mvi(Operand::Mem)),
            cycles == 9,
    {
        let value = self.fetch_byte();
        let addr = self.get_two_byte_register(&Register16::HL);
        self.memory.write(addr, value);
        9
    }

    /// `RLC`: rotates the accumulator left; carry takes the bit that left.
    pub fn rlc(&mut self) -> (cycles: usize)
        ensures
            final(self)@ == computed::<M>(old(self)@, Compute::Rlc),
            cycles == 3,
    {
        let (value, carry) = rotate_left(self.a);
        self.a = value;
        self.conditions.carry = carry;
        3
    }

    /// `RRC`: rotates the accumulator right; carry takes the bit that left.
    pub fn rrc(&mut self) -> (cycles: usize)
        ensures
            final(self)@ == computed::<M>(old(self)@, Compute::Rrc),
            cycles == 3,
    {
        let (value, carry) = rotate_right(self.a);
        self.a = value;
        self.conditions.carry = carry;
        3
    }

    /// `RAL`: rotates the accumulator left through carry.
    pub fn ral(&mut self) -> (cycles: usize)
        ensures
            final(self)@ == computed::<M>(old(self)@, Compute::Ral),
            cycles == 3,
    {
        let (value, carry) = rotate_left_through(self.a, self.conditions.carry);
        self.a = value;
        self.conditions.carry = carry;
        3
    }

    /// `RAR`: rotates the accumulator right through carry.
    pub fn rar(&mut self) -> (cycles: usize)
        ensures
            final(self)@ == computed::<M>(old(self)@, Compute::Rar),
            cycles == 3,
    {
        let (value, carry) = rotate_right_through(self.a, self.conditions.carry);
        self.a = value;
        self.conditions.carry = carry;
        3
    }

    /// `DAD rp`: adds the pair to `HL`; carry takes the carry out of bit 15.
    pub fn dad(&mut self, register: Register16) -> (cycles: usize)
        ensures
            final(self)@ == computed::<M>(old(self)@, Compute::Dad(register)),
            cycles == 9,
    {
        let value = self.get_two_byte_register(&register);
        let hl = self.get_two_byte_register(&Register16::HL);
        let (result, carry) = add_pairs(hl, value);
        self.conditions.carry = carry;
        self.set_two_byte_register(result, &Register16::HL);
        9
    }

    /// `LDAX rp`: loads the accumulator from the address in the pair.
    pub fn ldax(&mut self, register: Register16) -> (cycles: usize)
        ensures
            final(self)@ == transferred::<M>(old(self)@, Transfer::Ldax(register)),
            cycles == 6,
    {
        let addr = self.get_two_byte_register(&register);
        self.a = self.memory.read(addr);
        6
    }

    /// `LDA`: loads the accumulator from the address that follows.
    pub fn lda(&mut self) -> (cycles: usize)
        ensures
            final(self)@ == transferred::<M>(old(self)@, Transfer::Lda),
            cycles == 12,
    {
        let immediate = self.fetch_two_bytes();
        self.a = self.memory.read(immediate);
        12
    }

    /// `DCX rp`: counts the pair down by one, wrapping round; no condition bit
    /// changes.
    pub fn dcx(&mut self, register: Register16) -> (cycles: usize)
        ensures
            final(self)@ == computed::<M>(old(self)@, Compute::Dcx(register)),
            cycles == 4,
    {
        let value = self.get_two_byte_register(&register);
        self.set_two_byte_register(retreat(value, 1), &register);
        4
    }

    /// `SHLD`: stores `L` at the address that follows and `H` behind it.
    pub fn shld(&mut self) -> (cycles: usize)
        ensures
            final(self)@ == transferred::<M>(old(self)@, Transfer::Shld),
            cycles == 15,
    {
        let immediate = self.fetch_two_bytes();
        self.memory.write(immediate, self.l);
        self.memory.write(advance(immediate, 1), self.h);
        15
    }

    /// `LHLD`: loads `L` from the address that follows and `H` from behind
    /// it.
    pub fn lhld(&mut self) -> (cycles: usize)
        ensures
            final(self)@ == transferred::<M>(old(self)@, Transfer::Lhld),
            cycles == 15,
    {
        let immediate = self.fetch_two_bytes();
        self.l = self.memory.read(immediate);
        self.h = self.memory.read(advance(immediate, 1));
        15
    }

    /// `CMA`: complements the accumulator.
    pub fn cma(&mut self) -> (cycles: usize)
        ensures
            final(self)@ == computed::<M>(old(self)@, Compute::Cma),
            cycles == 3,
    {
        self.a = !self.a;
        3
    }

    /// `STC`: sets carry.
    pub fn stc(&mut self) -> (cycles: usize)
        ensures
            final(self)@ == computed::<M>(old(self)@, Compute::Stc),
            cycles == 3,
    {
        self.conditions.set(ConditionName::Carry, true);
        3
    }

    /// `CMC`: complements carry.
    pub fn cmc(&mut self) -> (cycles: usize)
        ensures
            final(self)@ == computed::<M>(old(self)@, Compute::Cmc),
            cycles == 3,
    {
        let carry = self.conditions.get(ConditionName::Carry);
        self.conditions.set(ConditionName::Carry, !carry);
        3
    }

    /// `MOV`: copies the register `source` to the register `destination`.
    pub fn mov(&mut self, source: Register, destination: Register) -> (cycles: usize)
        ensures
            final(self)@ == transferred::<M>(
                old(self)@,
                Transfer::Mov(Operand::Reg(destination), Operand::Reg(source)),
            ),
            cycles == 4,
    {
        let value = self.get_one_byte_register(&source);
        self.set_one_byte_register(value, &destination);
        4
    }

    /// `MOV r,M`: loads the register from the byte at `HL`.
    pub fn movm_load(&mut self, register: Register) -> (cycles: usize)
        ensures
            final(self)@ == transferred::<M>(
                old(self)@,
                Transfer::Mov(Operand::Reg(register), Operand::Mem),
            ),
            cycles == 6,
    {
        let addr = self.get_two_byte_register(&Register16::HL);
        let value = self.memory.read(addr);
        self.set_one_byte_register(value, &register);
        6
    }

    /// `MOV M,r`: stores the register at `HL`.
    pub fn movm(&mut self, register: Register) -> (cycles: usize)
        ensures
            final(self)@ == transferred::<M>(
                old(self)@,
                Transfer::Mov(Operand::Mem, Operand::Reg(register)),
            ),
            cycles == 6,
    {
        let addr = self.get_two_byte_register(&Register16::HL);
        let value = self.get_one_byte_register(&register);
        self.memory.write(addr, value);
        6
    }

    /// `ADD r`: adds the register to the accumulator.
    pub fn add(&mut self, register: Register) -> (cycles: usize)
        ensures
            final(self)@ == computed::<M>(
                old(self)@,
                Compute::Alu(Operation::Add, Operand::Reg(register)),
            ),
            cycles == 3,
    {
        let value = self.get_one_byte_register(&register);
        self.accumulate(Operation::Add, value);
        3
    }

    /// `ADD M`: adds the byte at `HL` to the accumulator.
    pub fn addm(&mut self) -> (cycles: usize)
        ensures
            final(self)@ == computed::<M>(old(self)@, Compute::Alu(Operation::Add, Operand::Mem)),
            cycles == 6,
    {
        let addr = self.get_two_byte_register(&Register16::HL);
        let value = self.memory.read(addr);
        self.accumulate(Operation::Add, value);
        6
    }

    /// `ADI`: adds the byte that follows to the accumulator.
    pub fn adi(&mut self) -> (cycles: usize)
        ensures
            final(self)@ == computed::<M>(old(self)@, Compute::AluImmediate(Operation::Add)),
            cycles == 6,
    {
        let value = self.fetch_byte();
        self.accumulate(Operation::Add, value);
        6
    }

    /// `ADC r`: adds the register and carry to the accumulator.
    pub fn adc(&mut self, register: Register) -> (cycles: usize)
        ensures
            final(self)@ == computed::<M>(
                old(self)@,
                Compute::Alu(Operation::AddCarry, Operand::Reg(register)),
            ),
            cycles == 3,
    {
        let value = self.get_one_byte_register(&register);
        self.accumulate(Operation::AddCarry, value);
        3
    }

    /// `ADC M`: adds the byte at `HL` and carry to the accumulator.
    pub fn adcm(&mut self) -> (cycles: usize)
        ensures
            final(self)@ == computed::<M>(
                old(self)@,
                Compute::Alu(Operation::AddCarry, Operand::Mem),
            ),
            cycles == 6,
    {
        let addr = self.get_two_byte_register(&Register16::HL);
        let value = self.memory.read(addr);
        self.accumulate(Operation::AddCarry, value);
        6
    }

    /// `ACI`: adds the byte that follows and carry to the accumulator.
    pub fn aci(&mut self) -> (cycles: usize)
        ensures
            final(self)@ == computed::<M>(old(self)@, Compute::AluImmediate(Operation::AddCarry)),
            cycles == 6,
    {
        let value = self.fetch_byte();
        self.accumulate(Operation::AddCarry, value);
        6
    }

    /// `SUB r`: takes the register from the accumulator.
    pub fn sub(&mut self, register: Register) -> (cycles: usize)
        ensures
            final(self)@ == computed::<M>(
                old(self)@,
                Compute::Alu(Operation::Subtract, Operand::Reg(register)),
            ),
            cycles == 3,
    {
        let value = self.get_one_byte_register(&register);
        self.accumulate(Operation::Subtract, value);
        3
    }

    /// `SUB M`: takes the byte at `HL` from the accumulator.
    pub fn subm(&mut self) -> (cycles: usize)
        ensures
            final(self)@ == computed::<M>(
                old(self)@,
                Compute::Alu(Operation::Subtract, Operand::Mem),
            ),
            cycles == 6,
    {
        let addr = self.get_two_byte_register(&Register16::HL);
        let value = self.memory.read(addr);
        self.accumulate(Operation::Subtract, value);
        6
    }

    /// `SUI`: takes the byte that follows from the accumulator.
    pub fn sui(&mut self) -> (cycles: usize)
        ensures
            final(self)@ == computed::<M>(old(self)@, Compute::AluImmediate(Operation::Subtract)),
            cycles == 6,
    {
        let value = self.fetch_byte();
        self.accumulate(Operation::Subtract, value);
        6
    }

    /// `SBB r`: takes the register and carry from the accumulator.
    pub fn sbb(&mut self, register: Register) -> (cycles: usize)
        ensures
            final(self)@ == computed::<M>(
                old(self)@,
                Compute::Alu(Operation::SubtractBorrow, Operand::Reg(register)),
            ),
            cycles == 3,
    {
        let value = self.get_one_byte_register(&register);
        self.accumulate(Operation::SubtractBorrow, value);
        3
    }

    /// `SBB M`: takes the byte at `HL` and carry from the accumulator.
    pub fn sbbm(&mut self) -> (cycles: usize)
        ensures
            final(self)@ == computed::<M>(
                old(self)@,
                Compute::Alu(Operation::SubtractBorrow, Operand::Mem),
            ),
            cycles == 6,
    {
        let addr = self.get_two_byte_register(&Register16::HL);
        let value = self.memory.read(addr);
        self.accumulate(Operation::SubtractBorrow, value);
        6
    }

    /// `SBI`: takes the byte that follows and carry from the accumulator.
    pub fn sbi(&mut self) -> (cycles: usize)
        ensures
            final(self)@ == computed::<M>(
                old(self)@,
                Compute::AluImmediate(Operation::SubtractBorrow),
            ),
            cycles == 6,
    {
        let value = self.fetch_byte();
        self.accumulate(Operation::SubtractBorrow, value);
        6
    }

    /// `ANA r`: ands the register into the accumulator.
    pub fn ana(&mut self, register: Register) -> (cycles: usize)
        ensures
            final(self)@ == computed::<M>(
                old(self)@,
                Compute::Alu(Operation::And, Operand::Reg(register)),
            ),
            cycles == 3,
    {
        let value = self.get_one_byte_register(&register);
        self.accumulate(Operation::And, value);
        3
    }

    /// `ANA M`: ands the byte at `HL` into the accumulator.
    pub fn anam(&mut self) -> (cycles: usize)
        ensures
            final(self)@ == computed::<M>(old(self)@, Compute::Alu(Operation::And, Operand::Mem)),
            cycles == 6,
    {
        let addr = self.get_two_byte_register(&Register16::HL);
        let value = self.memory.read(addr);
        self.accumulate(Operation::And, value);
        6
    }

    /// `ANI`: ands the byte that follows into the accumulator.
    pub fn ani(&mut self) -> (cycles: usize)
        ensures
            final(self)@ == computed::<M>(old(self)@, Compute::AluImmediate(Operation::And)),
            cycles == 6,
    {
        let value = self.fetch_byte();
        self.accumulate(Operation::And, value);
        6
    }

    /// `XRA r`: exclusive-ors the register into the accumulator.
    pub fn xra(&mut self, register: Register) -> (cycles: usize)
        ensures
            final(self)@ == computed::<M>(
                old(self)@,
                Compute::Alu(Operation::Xor, Operand::Reg(register)),
            ),
            cycles == 3,
    {
        let value = self.get_one_byte_register(&register);
        self.accumulate(Operation::Xor, value);
        3
    }

    /// `XRA M`: exclusive-ors the byte at `HL` into the accumulator.
    pub fn xram(&mut self) -> (cycles: usize)
        ensures
            final(self)@ == computed::<M>(old(self)@, Compute::Alu(Operation::Xor, Operand::Mem)),
            cycles == 6,
    {
        let addr = self.get_two_byte_register(&Register16::HL);
        let value = self.memory.read(addr);
        self.accumulate(Operation::Xor, value);
        6
    }

    /// `XRI`: exclusive-ors the byte that follows into the accumulator.
    pub fn xri(&mut self) -> (cycles: usize)
        ensures
            final(self)@ == computed::<M>(old(self)@, Compute::AluImmediate(Operation::Xor)),
            cycles == 6,
    {
        let value = self.fetch_byte();
        self.accumulate(Operation::Xor, value);
        6
    }

    /// `ORA r`: ors the register into the accumulator.
    pub fn ora(&mut self, register: Register) -> (cycles: usize)
        ensures
            final(self)@ == computed::<M>(
                old(self)@,
                Compute::Alu(Operation::Or, Operand::Reg(register)),
            ),
            cycles == 3,
    {
        let value = self.get_one_byte_register(&register);
        self.accumulate(Operation::Or, value);
        3
    }

    /// `ORA M`: ors the byte at `HL` into the accumulator.
    pub fn oram(&mut self) -> (cycles: usize)
        ensures
            final(self)@ == computed::<M>(old(self)@, Compute::Alu(Operation::Or, Operand::Mem)),
            cycles == 6,
    {
        let addr = self.get_two_byte_register(&Register16::HL);
        let value = self.memory.read(addr);
        self.accumulate(Operation::Or, value);
        6
    }

    /// `ORI`: ors the byte that follows into the accumulator.
    pub fn ori(&mut self) -> (cycles: usize)
        ensures
            final(self)@ == computed::<M>(old(self)@, Compute::AluImmediate(Operation::Or)),
            cycles == 6,
    {
        let value = self.fetch_byte();
        self.accumulate(Operation::Or, value);
        6
    }

    /// `CMP r`: sets the condition bits as taking the register from the accumulator would.
    pub fn cmp(&mut self, register: Register) -> (cycles: usize)
        ensures
            final(self)@ == computed::<M>(
                old(self)@,
                Compute::Alu(Operation::Compare, Operand::Reg(register)),
            ),
            cycles == 3,
    {
        let value = self.get_one_byte_register(&register);
        self.accumulate(Operation::Compare, value);
        3
    }

    /// `CMP M`: sets the condition bits as taking the byte at `HL` from the accumulator would.
    pub fn cmpm(&mut self) -> (cycles: usize)
        ensures
            final(self)@ == computed::<M>(
                old(self)@,
                Compute::Alu(Operation::Compare, Operand::Mem),
            ),
            cycles == 6,
    {
        let addr = self.get_two_byte_register(&Register16::HL);
        let value = self.memory.read(addr);
        self.accumulate(Operation::Compare, value);
        6
    }

    /// `CPI`: sets the condition bits as taking the byte that follows from the accumulator would.
    pub fn cpi(&mut self) -> (cycles: usize)
        ensures
            final(self)@ == computed::<M>(old(self)@, Compute::AluImmediate(Operation::Compare)),
            cycles == 6,
    {
        let value = self.fetch_byte();
        self.accumulate(Operation::Compare, value);
        6
    }

    /// `POP rp`: loads the pair from the top of the stack. For `PSW` the high
    /// byte goes to the accumulator and the low byte to the condition bits.
    pub fn pop(&mut self, register: Register16) -> (cycles: usize)
        ensures
            final(self)@ == controlled::<M>(old(self)@, Control::Pop(register)),
            cycles == 9,
    {
        let value = self.pop_word();
        self.set_two_byte_register(value, &register);
        9
    }

    /// `PUSH rp`: pushes the pair. For `PSW` the accumulator is the high byte
    /// and the packed condition bits are the low byte.
    pub fn push(&mut self, register: Register16) -> (cycles: usize)
        ensures
            final(self)@ == controlled::<M>(old(self)@, Control::Push(register)),
            cycles == 10,
    {
        let value = self.get_two_byte_register(&register);
        self.push_word(value);
        10
    }

    /// `RST n`: pushes the program counter and jumps to the vector that bits
    /// 3 to 5 of the opcode give.
    pub fn rst(&mut self, opcode: u8) -> (cycles: usize)
        ensures
            final(self)@ == branched::<M>(old(self)@, Branch::Rst(opcode)),
            cycles == 10,
    {
        proof {
            lemma_vector(opcode);
        }
        let destination = (opcode & 0b0011_1000) as u16;
        self.push_word(self.pc);
        self.pc = destination;
        10
    }

    /// `CALL`: pushes the address of the next instruction and jumps to the
    /// address that follows.
    pub fn call(&mut self) -> (cycles: usize)
        ensures
            final(self)@ == branched::<M>(old(self)@, Branch::Call),
            cycles == 16,
    {
        let immediate = self.fetch_two_bytes();
        self.push_word(self.pc);
        self.pc = immediate;
        16
    }

    /// `Ccc`: a call if the named condition bit has the given value, else a
    /// step over the address.
    pub fn call_conditional(&mut self, condition: ConditionName, value: bool) -> (cycles: usize)
        ensures
            final(self)@ == branched::<M>(
                old(self)@,
                Branch::CallIf(Test { name: condition, value }),
            ),
            cycles == if old(self)@.flags.bit(condition) == value {
                16nat
            } else {
                10nat
            },
    {
        if self.conditions.get(condition) == value {
            self.call()
        } else {
            self.pc = advance(self.pc, 2);
            10
        }
    }

    /// `RET`: pops the program counter.
    pub fn ret(&mut self) -> (cycles: usize)
        ensures
            final(self)@ == branched::<M>(old(self)@, Branch::Ret),
            cycles == 9,
    {
        self.pc = self.pop_word();
        9
    }

    /// `Rcc`: a return if the named condition bit has the given value, else
    /// nothing.
    pub fn ret_conditional(&mut self, condition: ConditionName, value: bool) -> (cycles: usize)
        ensures
            final(self)@ == branched::<M>(
                old(self)@,
                Branch::ReturnIf(Test { name: condition, value }),
            ),
            cycles == if old(self)@.flags.bit(condition) == value {
                10nat
            } else {
                4nat
            },
    {
        if self.conditions.get(condition) == value {
            self.pc = self.pop_word();
            return 10;
        }
        4
    }

    /// `JMP`: jumps to the address that follows.
    pub fn jmp(&mut self) -> (cycles: usize)
        ensures
            final(self)@ == branched::<M>(old(self)@, Branch::Jmp),
            cycles == 9,
    {
        self.pc = self.fetch_two_bytes();
        9
    }

    /// `Jcc`: a jump if the named condition bit has the given value, else a
    /// step over the address.
    pub fn jmp_conditional(&mut self, condition: ConditionName, value: bool) -> (cycles: usize)
        ensures
            final(self)@ == branched::<M>(
                old(self)@,
                Branch::JumpIf(Test { name: condition, value }),
            ),
            cycles == 9,
    {
        if self.conditions.get(condition) == value {
            self.pc = self.fetch_two_bytes();
        } else {
            self.pc = advance(self.pc, 2);
        }
        9
    }

    /// `XTHL`: swaps `HL` with the top of the stack.
    pub fn xthl(&mut self) -> (cycles: usize)
        ensures
            final(self)@ == controlled::<M>(old(self)@, Control::Xthl),
            cycles == 17,
    {
        let lval = self.memory.read(self.sp);
        let hval = self.memory.read(advance(self.sp, 1));
        self.memory.write(self.sp, self.l);
        self.memory.write(advance(self.sp, 1), self.h);
        proof {
            lemma_pair_bytes(0, hval, lval);
        }
        self.l = lval;
        self.h = hval;
        17
    }

    /// `PCHL`: jumps to the address in `HL`.
    pub fn pchl(&mut self) -> (cycles: usize)
        ensures
            final(self)@ == branched::<M>(old(self)@, Branch::Pchl),
            cycles == 4,
    {
        self.pc = self.get_two_byte_register(&Register16::HL);
        4
    }

    /// `SPHL`: loads the stack pointer from `HL`.
    pub fn sphl(&mut self) -> (cycles: usize)
        ensures
            final(self)@ == controlled::<M>(old(self)@, Control::Sphl),
            cycles == 4,
    {
        self.sp = self.get_two_byte_register(&Register16::HL);
        4
    }

    /// `XCHG`: swaps `DE` with `HL`.
    pub fn xchg(&mut self) -> (cycles: usize)
        ensures
            final(self)@ == transferred::<M>(old(self)@, Transfer::Xchg),
            cycles == 4,
    {
        let hval = self.d;
        let lval = self.e;
        self.d = self.h;
        self.e = self.l;
        self.h = hval;
        self.l = lval;
        4
    }

    /// `IN`: loads the accumulator from the latch of the port that follows.
    pub fn device_in(&mut self) -> (cycles: usize)
        ensures
            final(self)@ == controlled::<M>(old(self)@, Control::In),
            cycles == 9,
    {
        let device = self.fetch_byte();
        self.a = self.devices[device as usize];
        9
    }

    /// `OUT`: publishes the accumulator for the port that follows.
    pub fn device_out(&mut self) -> (cycles: usize)
        ensures
            final(self)@ == controlled::<M>(old(self)@, Control::Out),
            cycles == 9,
    {
        let device = self.fetch_byte();
        self.output = Some((device, self.a));
        9
    }

    /// `EI`: enables interrupts.
    pub fn ei(&mut self) -> (cycles: usize)
        ensures
            final(self)@ == controlled::<M>(old(self)@, Control::Ei),
            cycles == 3,
    {
        self.enable_interrupts();
        3
    }

    /// `DI`: disables interrupts.
    pub fn di(&mut self) -> (cycles: usize)
        ensures
            final(self)@ == controlled::<M>(old(self)@, Control::Di),
            cycles == 3,
    {
        self.disable_interrupts();
        3
    }

    /// `HLT`: halts until an interrupt is taken.
    pub fn halt(&mut self) -> (cycles: usize)
        ensures
            final(self)@ == controlled::<M>(old(self)@, Control::Hlt),
            cycles == 6,
    {
        self.halted = true;
        6
    }

    /// `DAA`: adjusts the accumulator to two decimal digits.
    pub fn daa(&mut self) -> (cycles: usize)
        ensures
            final(self)@ == computed::<M>(old(self)@, Compute::Daa),
            cycles == 3,
    {
        let out = decimal_adjust(self.a, self.conditions.carry, self.conditions.aux);
        self.settle(out);
        self.a = out.value;
        3
    }

    /// Runs the instruction that the opcode `instruction` stands for. The
    /// program counter already stands behind the opcode. Returns the cycles
    /// that the instruction still owes.
    pub fn dispatch(&mut self, instruction: u8) -> (cycles: usize)
        ensures
            final(self)@ == run::<M>(old(self)@, decoded(instruction)),
            cycles == owed(old(self)@, decoded(instruction)),
    {
        self.execute(decode(instruction))
    }

    /// Runs an instruction. Returns the cycles that it still owes.
    pub fn execute(&mut self, instruction: Instruction) -> (cycles: usize)
        ensures
            final(self)@ == run::<M>(old(self)@, instruction),
            cycles == owed(old(self)@, instruction),
    {
        proof {
            reveal(run);
        }
        match instruction {
            Instruction::Transfer(t) => self.execute_transfer(t),
            Instruction::Compute(c) => self.execute_compute(c),
            Instruction::Branch(b) => self.execute_branch(b),
            Instruction::Control(c) => self.execute_control(c),
        }
    }

    /// Runs an instruction that moves data.
    pub fn execute_transfer(&mut self, instruction: Transfer) -> (cycles: usize)
        ensures
            final(self)@ == transferred::<M>(old(self)@, instruction),
            cycles == owed(old(self)@, Instruction::Transfer(instruction)),
    {
        match instruction {
            Transfer::Lxi(rp) => self.lxi(rp),
            Transfer::Stax(rp) => self.stax(rp),
            Transfer::Mvi(Operand::Reg(r)) => self.mvi(r),
            Transfer::Mvi(Operand::Mem) => self.mvim(),
            Transfer::Ldax(rp) => self.ldax(rp),
            Transfer::Shld => self.shld(),
            Transfer::Lhld => self.lhld(),
            Transfer::Sta => self.sta(),
            Transfer::Lda => self.lda(),
            Transfer::Mov(destination, source) => self.execute_move(destination, source),
            Transfer::Xchg => self.xchg(),
        }
    }

    /// Runs an instruction that computes.
    pub fn execute_compute(&mut self, instruction: Compute) -> (cycles: usize)
        ensures
            final(self)@ == computed::<M>(old(self)@, instruction),
            cycles == owed(old(self)@, Instruction::Compute(instruction)),
    {
        match instruction {
            Compute::Inx(rp) => self.inx(rp),
            Compute::Inr(Operand::Reg(r)) => self.inr(r),
            Compute::Inr(Operand::Mem) => self.inrm(),
            Compute::Dcr(Operand::Reg(r)) => self.dcr(r),
            Compute::Dcr(Operand::Mem) => self.dcrm(),
            Compute::Rlc => self.rlc(),
            Compute::Dad(rp) => self.dad(rp),
            Compute::Dcx(rp) => self.dcx(rp),
            Compute::Rrc => self.rrc(),
            Compute::Ral => self.ral(),
            Compute::Rar => self.rar(),
            Compute::Daa => self.daa(),
            Compute::Cma => self.cma(),
            Compute::Stc => self.stc(),
            Compute::Cmc => self.cmc(),
            Compute::Alu(operation, Operand::Reg(r)) => self.execute_on_register(operation, r),
            Compute::Alu(operation, Operand::Mem) => self.execute_on_memory(operation),
            Compute::AluImmediate(operation) => self.execute_on_immediate(operation),
        }
    }

    /// Runs an instruction that changes the program counter.
    pub fn execute_branch(&mut self, instruction: Branch) -> (cycles: usize)
        ensures
            final(self)@ == branched::<M>(old(self)@, instruction),
            cycles == owed(old(self)@, Instruction::Branch(instruction)),
    {
        match instruction {
            Branch::ReturnIf(test) => self.ret_conditional(test.name, test.value),
            Branch::JumpIf(test) => self.jmp_conditional(test.name, test.value),
            Branch::Jmp => self.jmp(),
            Branch::CallIf(test) => self.call_conditional(test.name, test.value),
            Branch::Rst(opcode) => self.rst(opcode),
            Branch::Ret => self.ret(),
            Branch::Call => self.call(),
            Branch::Pchl => self.pchl(),
        }
    }

    /// Runs an instruction of the stack, the ports or the machine.
    pub fn execute_control(&mut self, instruction: Control) -> (cycles: usize)
        ensures
            final(self)@ == controlled::<M>(old(self)@, instruction),
            cycles == owed(old(self)@, Instruction::Control(instruction)),
    {
        match instruction {
            Control::Nop => self.nop(),
            Control::Hlt => self.halt(),
            Control::Pop(rp) => self.pop(rp),
            Control::Push(rp) => self.push(rp),
            Control::Out => self.device_out(),
            Control::In => self.device_in(),
            Control::Xthl => self.xthl(),
            Control::Di => self.di(),
            Control::Sphl => self.sphl(),
            Control::Ei => self.ei(),
        }
    }

    /// Runs a move between two operands.
    pub fn execute_move(&mut self, destination: Operand, source: Operand) -> (cycles: usize)
        ensures
            final(self)@ == transferred::<M>(old(self)@, Transfer::Mov(destination, source)),
            cycles == owed(old(self)@, Instruction::Transfer(Transfer::Mov(destination, source))),
    {
        match (destination, source) {
            (Operand::Reg(dst), Operand::Reg(src)) => self.mov(src, dst),
            (Operand::Reg(dst), Operand::Mem) => self.movm_load(dst),
            (Operand::Mem, Operand::Reg(src)) => self.movm(src),
            (Operand::Mem, Operand::Mem) => {
                let addr = self.get_two_byte_register(&Register16::HL);
                let value = self.memory.read(addr);
                self.memory.write(addr, value);
                6
            },
        }
    }

    /// Runs an operation between the accumulator and a register.
    pub fn execute_on_register(&mut self, operation: Operation, register: Register) -> (cycles:
        usize)
        ensures
            final(self)@ == computed::<M>(
                old(self)@,
                Compute::Alu(operation, Operand::Reg(register)),
            ),
            cycles == 3,
    {
        match operation {
            Operation::Add => self.add(register),
            Operation::AddCarry => self.adc(register),
            Operation::Subtract => self.sub(register),
            Operation::SubtractBorrow => self.sbb(register),
            Operation::And => self.ana(register),
            Operation::Xor => self.xra(register),
            Operation::Or => self.ora(register),
            Operation::Compare => self.cmp(register),
        }
    }

    /// Runs an operation between the accumulator and the byte at `HL`.
    pub fn execute_on_memory(&mut self, operation: Operation) -> (cycles: usize)
        ensures
            final(self)@ == computed::<M>(old(self)@, Compute::Alu(operation, Operand::Mem)),
            cycles == 6,
    {
        match operation {
            Operation::Add => self.addm(),
            Operation::AddCarry => self.adcm(),
            Operation::Subtract => self.subm(),
            Operation::SubtractBorrow => self.sbbm(),
            Operation::And => self.anam(),
            Operation::Xor => self.xram(),
            Operation::Or => self.oram(),
            Operation::Compare => self.cmpm(),
        }
    }

    /// Runs an operation between the accumulator and the byte that follows.
    pub fn execute_on_immediate(&mut self, operation: Operation) -> (cycles: usize)
        ensures
            final(self)@ == computed::<M>(old(self)@, Compute::AluImmediate(operation)),
            cycles == 6,
    {
        match operation {
            Operation::Add => self.adi(),
            Operation::AddCarry => self.aci(),
            Operation::Subtract => self.sui(),
            Operation::SubtractBorrow => self.sbi(),
            Operation::And => self.ani(),
            Operation::Xor => self.xri(),
            Operation::Or => self.ori(),
            Operation::Compare => self.cpi(),
        }
    }

    /// One machine cycle.
    ///
    /// If cycles are owed for the last instruction, one of them is paid.
    /// Otherwise a latched interrupt runs in place of a fetch, if interrupts
    /// are enabled, and is dropped if they are not; a halted processor rests;
    /// a running one fetches the next opcode and runs it.
    pub fn tick(&mut self)
        ensures
            final(self)@ == ticked::<M>(old(self)@),
    {
        if self.wait_cycles > 0 {
            self.wait_cycles = self.wait_cycles - 1;
            return ;
        }
        if !self.interrupt_enabled {
            self.interrupt_opcode = None;
        }
        let instruction: u8;
        match self.interrupt_opcode {
            Some(x) => {
                self.halted = false;
                self.disable_interrupts();
                self.interrupt_opcode = None;
                instruction = x;
            },
            None => {
                if self.halted {
                    return ;
                }
                instruction = self.fetch_byte();
            },
        }
        self.wait_cycles = self.dispatch(instruction);
    }

    /// Lets the processor take interrupts.
    pub fn enable_interrupts(&mut self)
        ensures
            final(self)@ == (State { interrupt_enabled: true, ..old(self)@ }),
    {
        self.interrupt_enabled = true;
    }

    /// Keeps the processor from taking interrupts.
    pub fn disable_interrupts(&mut self)
        ensures
            final(self)@ == (State { interrupt_enabled: false, ..old(self)@ }),
    {
        self.interrupt_enabled = false;
    }

    /// Latches an interrupt request: `interrupt` is the opcode that will run
    /// in place of the next fetch if interrupts are enabled by then. A request
    /// that was latched before is overwritten.
    pub fn receive_interrupt(&mut self, interrupt: u8)
        ensures
            final(self)@ == (State { pending: Some(interrupt), ..old(self)@ }),
    {
        self.interrupt_opcode = Some(interrupt);
    }

    /// Latches the byte that an `IN` from the port `device` will read.
    pub fn set_input(&mut self, device: u8, value: u8)
        ensures
            final(self)@ == (State {
                devices: old(self)@.devices.update(device as int, value),
                ..old(self)@
            }),
    {
        self.devices[device as usize] = value;
    }

    /// Collects the port and value of the last `OUT`, if there was one since
    /// the last collection.
    pub fn get_output(&mut self) -> (output: Option<(u8, u8)>)
        ensures
            output == old(self)@.output,
            final(self)@ == (State { output: None, ..old(self)@ }),
    {
        let output = self.output;
        self.output = None;
        output
    }

    /// The 7,168 bytes that the bus reads from `0x2400` up: the video RAM of
    /// the arcade board.
    pub fn get_vram(&self) -> (vram: [u8; 7168])
        ensures
            forall|i: int| 0 <= i < 7168 ==> vram@[i] == self@.mem[0x2400 + i],
    {
        let mut vram: [u8; 7168] = [0;7168];
        let mut i: usize = 0;
        while i < 7168
            invariant
                i <= 7168,
                forall|j: int| 0 <= j < i ==> vram@[j] == self@.mem[0x2400 + j],
            decreases 7168 - i,
        {
            vram[i] = self.memory.read((0x2400 + i) as u16);
            i += 1;
        }
        vram
    }
}

/// Masking bits 3 to 5 of a byte, in arithmetic.
pub proof fn lemma_vector(opcode: u8)
    by (bit_vector)
    ensures
        opcode & 0b0011_1000 == ((opcode / 8) % 8) * 8,
{
}

/// Bit 3 of the or of two bytes is set when it is set in either.
pub proof fn lemma_bit_three(x: u8, y: u8)
    by (bit_vector)
    ensures
        ((x | y) & 0x08 == 0x08) == ((x / 8) % 2 == 1 || (y / 8) % 2 == 1),
{
}

} // verus!
