//! The instruction set: what each of the 256 opcodes stands for, what it does
//! to the state and how many cycles it takes.
//!
//! An opcode is read as three fields, `x = op / 64`, `y = (op / 8) % 8` and
//! `z = op % 8`; a register pair is named by `y / 2`.
//!
//! [`decoded`] and [`run`] are opaque: a proof that needs to know which
//! instruction an opcode is, or what an instruction does, reveals them.

use vstd::prelude::*;
use crate::alu::{adjusted, diff, even_parity, moved, pair, rotated_left, rotated_right,
    shifted_left_through, shifted_right_through, sum, Outcome};
use crate::conditions::{has_bit, ConditionName, Conditions};
use crate::memory::Memory;
use crate::state::{Operand, Register, Register16, State};

verus! {

/// The eight operations between the accumulator and a byte.
#[derive(Clone, Copy, Debug, PartialEq, Eq, Structural)]
pub enum Operation {
    Add,
    AddCarry,
    Subtract,
    SubtractBorrow,
    And,
    Xor,
    Or,
    Compare,
}

/// A condition that a jump, call or return waits on: the named bit has the
/// given value.
#[derive(Clone, Copy, Debug, PartialEq, Eq, Structural)]
pub struct Test {
    pub name: ConditionName,
    pub value: bool,
}

/// The instructions that move data between registers and memory.
#[derive(Clone, Copy, Debug, PartialEq, Eq, Structural)]
pub enum Transfer {
    /// Destination, then source.
    Mov(Operand, Operand),
    Mvi(Operand),
    Lxi(Register16),
    Lda,
    Sta,
    Lhld,
    Shld,
    Ldax(Register16),
    Stax(Register16),
    Xchg,
}

/// The instructions that compute: arithmetic, logic, counting and rotation.
#[derive(Clone, Copy, Debug, PartialEq, Eq, Structural)]
pub enum Compute {
    Alu(Operation, Operand),
    AluImmediate(Operation),
    Inr(Operand),
    Dcr(Operand),
    Inx(Register16),
    Dcx(Register16),
    Dad(Register16),
    Daa,
    Rlc,
    Rrc,
    Ral,
    Rar,
    Cma,
    Cmc,
    Stc,
}

/// The instructions that change the program counter.
#[derive(Clone, Copy, Debug, PartialEq, Eq, Structural)]
pub enum Branch {
    Jmp,
    JumpIf(Test),
    Call,
    CallIf(Test),
    Ret,
    ReturnIf(Test),
    /// A restart; it holds its opcode, whose bits 3 to 5 give the vector.
    Rst(u8),
    Pchl,
}

/// The instructions of the stack, the ports and the machine itself.
#[derive(Clone, Copy, Debug, PartialEq, Eq, Structural)]
pub enum Control {
    Push(Register16),
    Pop(Register16),
    Xthl,
    Sphl,
    In,
    Out,
    Ei,
    Di,
    Hlt,
    Nop,
}

/// An instruction with its operands named, under the group it belongs to.
#[derive(Clone, Copy, Debug, PartialEq, Eq, Structural)]
pub enum Instruction {
    Transfer(Transfer),
    Compute(Compute),
    Branch(Branch),
    Control(Control),
}

/// The operand that a 3-bit field names: `B, C, D, E, H, L, (HL), A`.
pub open spec fn operand_of(field: int) -> Operand {
    if field == 0 {
        Operand::Reg(Register::B)
    } else if field == 1 {
        Operand::Reg(Register::C)
    } else if field == 2 {
        Operand::Reg(Register::D)
    } else if field == 3 {
        Operand::Reg(Register::E)
    } else if field == 4 {
        Operand::Reg(Register::H)
    } else if field == 5 {
        Operand::Reg(Register::L)
    } else if field == 6 {
        Operand::Mem
    } else {
        Operand::Reg(Register::A)
    }
}

/// The pair that a 2-bit field names: `BC, DE, HL`, and last the stack
/// pointer, or `PSW` for the stack instructions.
pub open spec fn pair_of(field: int, stack: bool) -> Register16 {
    if field == 0 {
        Register16::BC
    } else if field == 1 {
        Register16::DE
    } else if field == 2 {
        Register16::HL
    } else if stack {
        Register16::PSW
    } else {
        Register16::SP
    }
}

/// The operation that a 3-bit field names.
pub open spec fn operation_of(field: int) -> Operation {
    if field == 0 {
        Operation::Add
    } else if field == 1 {
        Operation::AddCarry
    } else if field == 2 {
        Operation::Subtract
    } else if field == 3 {
        Operation::SubtractBorrow
    } else if field == 4 {
        Operation::And
    } else if field == 5 {
        Operation::Xor
    } else if field == 6 {
        Operation::Or
    } else {
        Operation::Compare
    }
}

/// The condition that a 3-bit field names: `NZ, Z, NC, C, PO, PE, P, M`.
pub open spec fn test_of(field: int) -> Test {
    let name = if field / 2 == 0 {
        ConditionName::Zero
    } else if field / 2 == 1 {
        ConditionName::Carry
    } else if field / 2 == 2 {
        ConditionName::Parity
    } else {
        ConditionName::Sign
    };
    Test { name, value: field % 2 == 1 }
}

/// The instructions below `0x40`.
pub open spec fn decode_low(y: int, z: int) -> Instruction {
    let rp = pair_of(y / 2, false);
    if z == 0 {
        Instruction::Control(Control::Nop)
    } else if z == 1 {
        if y % 2 == 0 {
            Instruction::Transfer(Transfer::Lxi(rp))
        } else {
            Instruction::Compute(Compute::Dad(rp))
        }
    } else if z == 2 {
        if y == 0 || y == 2 {
            Instruction::Transfer(Transfer::Stax(rp))
        } else if y == 1 || y == 3 {
            Instruction::Transfer(Transfer::Ldax(rp))
        } else if y == 4 {
            Instruction::Transfer(Transfer::Shld)
        } else if y == 5 {
            Instruction::Transfer(Transfer::Lhld)
        } else if y == 6 {
            Instruction::Transfer(Transfer::Sta)
        } else {
            Instruction::Transfer(Transfer::Lda)
        }
    } else if z == 3 {
        if y % 2 == 0 {
            Instruction::Compute(Compute::Inx(rp))
        } else {
            Instruction::Compute(Compute::Dcx(rp))
        }
    } else if z == 4 {
        Instruction::Compute(Compute::Inr(operand_of(y)))
    } else if z == 5 {
        Instruction::Compute(Compute::Dcr(operand_of(y)))
    } else if z == 6 {
        Instruction::Transfer(Transfer::Mvi(operand_of(y)))
    } else if y == 0 {
        Instruction::Compute(Compute::Rlc)
    } else if y == 1 {
        Instruction::Compute(Compute::Rrc)
    } else if y == 2 {
        Instruction::Compute(Compute::Ral)
    } else if y == 3 {
        Instruction::Compute(Compute::Rar)
    } else if y == 4 {
        Instruction::Compute(Compute::Daa)
    } else if y == 5 {
        Instruction::Compute(Compute::Cma)
    } else if y == 6 {
        Instruction::Compute(Compute::Stc)
    } else {
        Instruction::Compute(Compute::Cmc)
    }
}

/// The address that a restart opcode jumps to: bits 3 to 5 of the opcode,
/// the other bits zero.
pub open spec fn vector_of(opcode: u8) -> u16 {
    (((opcode as int / 8) % 8) * 8) as u16
}

/// The instructions from `0xC0` up.
pub open spec fn decode_high(op: u8, y: int, z: int) -> Instruction {
    if z == 0 {
        Instruction::Branch(Branch::ReturnIf(test_of(y)))
    } else if z == 1 {
        if y % 2 == 0 {
            Instruction::Control(Control::Pop(pair_of(y / 2, true)))
        } else if y == 1 || y == 3 {
            Instruction::Branch(Branch::Ret)
        } else if y == 5 {
            Instruction::Branch(Branch::Pchl)
        } else {
            Instruction::Control(Control::Sphl)
        }
    } else if z == 2 {
        Instruction::Branch(Branch::JumpIf(test_of(y)))
    } else if z == 3 {
        if y == 0 || y == 1 {
            Instruction::Branch(Branch::Jmp)
        } else if y == 2 {
            Instruction::Control(Control::Out)
        } else if y == 3 {
            Instruction::Control(Control::In)
        } else if y == 4 {
            Instruction::Control(Control::Xthl)
        } else if y == 5 {
            Instruction::Transfer(Transfer::Xchg)
        } else if y == 6 {
            Instruction::Control(Control::Di)
        } else {
            Instruction::Control(Control::Ei)
        }
    } else if z == 4 {
        Instruction::Branch(Branch::CallIf(test_of(y)))
    } else if z == 5 {
        if y % 2 == 0 {
            Instruction::Control(Control::Push(pair_of(y / 2, true)))
        } else {
            Instruction::Branch(Branch::Call)
        }
    } else if z == 6 {
        Instruction::Compute(Compute::AluImmediate(operation_of(y)))
    } else {
        Instruction::Branch(Branch::Rst(op))
    }
}

/// The instruction that an opcode stands for. Every byte is an instruction:
/// the opcodes that the processor's manual leaves out run as `NOP`, `JMP`,
/// `RET` and `CALL`.
#[verifier::opaque]
pub open spec fn decoded(op: u8) -> Instruction {
    let x = op as int / 64;
    let y = (op as int / 8) % 8;
    let z = (op as int) % 8;
    if x == 0 {
        decode_low(y, z)
    } else if x == 1 {
        if y == 6 && z == 6 {
            Instruction::Control(Control::Hlt)
        } else {
            Instruction::Transfer(Transfer::Mov(operand_of(y), operand_of(z)))
        }
    } else if x == 2 {
        Instruction::Compute(Compute::Alu(operation_of(y), operand_of(z)))
    } else {
        decode_high(op, y, z)
    }
}

/// Whether the condition holds.
pub open spec fn holds(s: State, t: Test) -> bool {
    s.flags.bit(t.name) == t.value
}

/// Whether a conditional instruction goes the way that costs more cycles.
/// Only calls and returns have two costs.
pub open spec fn taken(s: State, i: Instruction) -> bool {
    match i {
        Instruction::Branch(Branch::ReturnIf(t)) => holds(s, t),
        Instruction::Branch(Branch::CallIf(t)) => holds(s, t),
        _ => false,
    }
}

/// The cost of an instruction on an operand: `reg` cycles for a register,
/// `mem` for the cell at `HL`.
pub open spec fn cost(o: Operand, reg: nat, mem: nat) -> nat {
    match o {
        Operand::Reg(_) => reg,
        Operand::Mem => mem,
    }
}

/// The cycles that an instruction of the transfer group takes.
pub open spec fn transfer_cycles(i: Transfer) -> nat {
    match i {
        Transfer::Lxi(_) => 10,
        Transfer::Stax(_) => 7,
        Transfer::Mvi(o) => cost(o, 7, 10),
        Transfer::Ldax(_) => 7,
        Transfer::Shld => 16,
        Transfer::Lhld => 16,
        Transfer::Sta => 13,
        Transfer::Lda => 13,
        Transfer::Mov(dst, src) => if dst == Operand::Mem || src == Operand::Mem {
            7
        } else {
            5
        },
        Transfer::Xchg => 5,
    }
}

/// The cycles that an instruction of the compute group takes.
pub open spec fn compute_cycles(i: Compute) -> nat {
    match i {
        Compute::Inx(_) => 5,
        Compute::Inr(o) => cost(o, 5, 10),
        Compute::Dcr(o) => cost(o, 5, 10),
        Compute::Rlc => 4,
        Compute::Dad(_) => 10,
        Compute::Dcx(_) => 5,
        Compute::Rrc => 4,
        Compute::Ral => 4,
        Compute::Rar => 4,
        Compute::Daa => 4,
        Compute::Cma => 4,
        Compute::Stc => 4,
        Compute::Cmc => 4,
        Compute::Alu(_, o) => cost(o, 4, 7),
        Compute::AluImmediate(_) => 7,
    }
}

/// The cycles that an instruction of the branch group takes. `taken` tells which
/// way a conditional call or return went.
pub open spec fn branch_cycles(i: Branch, taken: bool) -> nat {
    match i {
        Branch::ReturnIf(_) => if taken {
            11
        } else {
            5
        },
        Branch::JumpIf(_) => 10,
        Branch::Jmp => 10,
        Branch::CallIf(_) => if taken {
            17
        } else {
            11
        },
        Branch::Rst(_) => 11,
        Branch::Ret => 10,
        Branch::Call => 17,
        Branch::Pchl => 5,
    }
}

/// The cycles that an instruction of the control group takes.
pub open spec fn control_cycles(i: Control) -> nat {
    match i {
        Control::Nop => 4,
        Control::Hlt => 7,
        Control::Pop(_) => 10,
        Control::Push(_) => 11,
        Control::Out => 10,
        Control::In => 10,
        Control::Xthl => 18,
        Control::Di => 4,
        Control::Sphl => 5,
        Control::Ei => 4,
    }
}

/// The cycles that an instruction takes. `taken` tells which way a
/// conditional call or return went.
pub open spec fn cycles(i: Instruction, taken: bool) -> nat {
    match i {
        Instruction::Transfer(t) => transfer_cycles(t),
        Instruction::Compute(c) => compute_cycles(c),
        Instruction::Branch(b) => branch_cycles(b, taken),
        Instruction::Control(c) => control_cycles(c),
    }
}

/// The condition bits after a result: zero, sign and parity follow the
/// byte; carry and auxiliary carry are as given.
pub open spec fn flags_of(r: u8, carry: bool, aux: bool) -> Conditions {
    Conditions { carry, aux, sign: r >= 0x80, zero: r == 0, parity: even_parity(r) }
}

/// The condition bits after a sum or a difference.
pub open spec fn flags_after(out: Outcome) -> Conditions {
    flags_of(out.value, out.carry, out.aux)
}

/// The state after an operation between the accumulator and the byte `v`.
///
/// Sums and differences set all five bits; a comparison is a difference
/// whose byte is thrown away. `AND` clears carry and sets auxiliary carry to
/// the or of bit 3 of both operands; `XOR` and `OR` clear both.
pub open spec fn accumulated(s: State, op: Operation, v: u8) -> State {
    match op {
        Operation::Add => {
            let out = sum(s.a, v, false);
            State { a: out.value, flags: flags_after(out), ..s }
        },
        Operation::AddCarry => {
            let out = sum(s.a, v, s.flags.carry);
            State { a: out.value, flags: flags_after(out), ..s }
        },
        Operation::Subtract => {
            let out = diff(s.a, v, false);
            State { a: out.value, flags: flags_after(out), ..s }
        },
        Operation::SubtractBorrow => {
            let out = diff(s.a, v, s.flags.carry);
            State { a: out.value, flags: flags_after(out), ..s }
        },
        Operation::And => {
            let r = s.a & v;
            State { a: r, flags: flags_of(r, false, has_bit(s.a, 8) || has_bit(v, 8)), ..s }
        },
        Operation::Xor => {
            let r = s.a ^ v;
            State { a: r, flags: flags_of(r, false, false), ..s }
        },
        Operation::Or => {
            let r = s.a | v;
            State { a: r, flags: flags_of(r, false, false), ..s }
        },
        Operation::Compare => State { flags: flags_after(diff(s.a, v, false)), ..s },
    }
}

/// The state after an operand is counted up or down by one: zero, sign,
/// parity and auxiliary carry follow the sum or difference, carry stays.
pub open spec fn counted<M: Memory>(s: State, o: Operand, out: Outcome) -> State {
    let s1 = s.with_operand::<M>(o, out.value);
    State { flags: flags_of(out.value, s.flags.carry, out.aux), ..s1 }
}

/// The state after a jump to the address that follows the opcode.
pub open spec fn jumped(s: State) -> State {
    State { pc: s.immediate16(), ..s }
}

/// The state after a call of the address that follows the opcode: the
/// address of the next instruction is pushed.
pub open spec fn called<M: Memory>(s: State) -> State {
    let target = s.immediate16();
    let s1 = s.skip(2);
    State { pc: target, ..s1.pushed::<M>(s1.pc) }
}

/// The state after a return: the program counter is popped.
pub open spec fn returned(s: State) -> State {
    State { pc: s.top(), ..s.dropped() }
}

/// The state after an instruction that moves data.
pub open spec fn transferred<M: Memory>(s: State, i: Transfer) -> State {
    match i {
        Transfer::Lxi(rp) => s.with_pair(rp, s.immediate16()).skip(2),
        Transfer::Stax(rp) => s.poke::<M>(s.pair(rp), s.a),
        Transfer::Mvi(o) => s.skip(1).with_operand::<M>(o, s.immediate8()),
        Transfer::Ldax(rp) => State { a: s.peek(s.pair(rp)), ..s },
        Transfer::Shld => {
            let addr = s.immediate16();
            s.poke::<M>(addr, s.l).poke::<M>(moved(addr, 1), s.h).skip(2)
        },
        Transfer::Lhld => {
            let addr = s.immediate16();
            State { l: s.peek(addr), h: s.peek(moved(addr, 1)), ..s }.skip(2)
        },
        Transfer::Sta => s.poke::<M>(s.immediate16(), s.a).skip(2),
        Transfer::Lda => State { a: s.peek(s.immediate16()), ..s }.skip(2),
        Transfer::Mov(dst, src) => s.with_operand::<M>(dst, s.operand(src)),
        Transfer::Xchg => State { d: s.h, e: s.l, h: s.d, l: s.e, ..s },
    }
}

/// The state after an instruction that computes.
pub open spec fn computed<M: Memory>(s: State, i: Compute) -> State {
    match i {
        Compute::Inx(rp) => s.with_pair(rp, moved(s.pair(rp), 1)),
        Compute::Inr(o) => counted::<M>(s, o, sum(s.operand(o), 1, false)),
        Compute::Dcr(o) => counted::<M>(s, o, diff(s.operand(o), 1, false)),
        Compute::Rlc => State {
            a: rotated_left(s.a),
            flags: Conditions { carry: s.a >= 0x80, ..s.flags },
            ..s
        },
        Compute::Dad(rp) => {
            let wide = s.hl() as int + s.pair(rp) as int;
            let s1 = s.with_pair(Register16::HL, (wide % 65536) as u16);
            State { flags: Conditions { carry: wide >= 65536, ..s.flags }, ..s1 }
        },
        Compute::Dcx(rp) => s.with_pair(rp, moved(s.pair(rp), -1)),
        Compute::Rrc => State {
            a: rotated_right(s.a),
            flags: Conditions { carry: s.a % 2 == 1, ..s.flags },
            ..s
        },
        Compute::Ral => State {
            a: shifted_left_through(s.a, s.flags.carry),
            flags: Conditions { carry: s.a >= 0x80, ..s.flags },
            ..s
        },
        Compute::Rar => State {
            a: shifted_right_through(s.a, s.flags.carry),
            flags: Conditions { carry: s.a % 2 == 1, ..s.flags },
            ..s
        },
        Compute::Daa => {
            let out = adjusted(s.a, s.flags.carry, s.flags.aux);
            State { a: out.value, flags: flags_after(out), ..s }
        },
        Compute::Cma => State { a: !s.a, ..s },
        Compute::Stc => State { flags: Conditions { carry: true, ..s.flags }, ..s },
        Compute::Cmc => State { flags: Conditions { carry: !s.flags.carry, ..s.flags }, ..s },
        Compute::Alu(op, o) => accumulated(s, op, s.operand(o)),
        Compute::AluImmediate(op) => accumulated(s, op, s.immediate8()).skip(1),
    }
}

/// The state after an instruction that changes the program counter.
pub open spec fn branched<M: Memory>(s: State, i: Branch) -> State {
    match i {
        Branch::ReturnIf(t) => if holds(s, t) {
            returned(s)
        } else {
            s
        },
        Branch::JumpIf(t) => if holds(s, t) {
            jumped(s)
        } else {
            s.skip(2)
        },
        Branch::Jmp => jumped(s),
        Branch::CallIf(t) => if holds(s, t) {
            called::<M>(s)
        } else {
            s.skip(2)
        },
        Branch::Rst(op) => State { pc: vector_of(op), ..s.pushed::<M>(s.pc) },
        Branch::Ret => returned(s),
        Branch::Call => called::<M>(s),
        Branch::Pchl => State { pc: s.hl(), ..s },
    }
}

/// The state after an instruction of the stack, the ports or the machine.
pub open spec fn controlled<M: Memory>(s: State, i: Control) -> State {
    match i {
        Control::Nop => s,
        Control::Hlt => State { halted: true, ..s },
        Control::Pop(rp) => s.dropped().with_pair(rp, s.top()),
        Control::Push(rp) => s.pushed::<M>(s.pair(rp)),
        Control::Out => State { output: Some((s.immediate8(), s.a)), ..s }.skip(1),
        Control::In => State { a: s.devices[s.immediate8() as int], ..s }.skip(1),
        Control::Xthl => {
            let on_stack = s.top();
            let s1 = s.poke::<M>(s.sp, s.l).poke::<M>(moved(s.sp, 1), s.h);
            s1.with_pair(Register16::HL, on_stack)
        },
        Control::Di => State { interrupt_enabled: false, ..s },
        Control::Sphl => State { sp: s.hl(), ..s },
        Control::Ei => State { interrupt_enabled: true, ..s },
    }
}

/// The state after an instruction has run, but for the cycles it leaves
/// owed. The program counter of `s` already stands behind the opcode.
#[verifier::opaque]
pub open spec fn run<M: Memory>(s: State, i: Instruction) -> State {
    match i {
        Instruction::Transfer(t) => transferred::<M>(s, t),
        Instruction::Compute(c) => computed::<M>(s, c),
        Instruction::Branch(b) => branched::<M>(s, b),
        Instruction::Control(c) => controlled::<M>(s, c),
    }
}

/// The cycles still owed once the tick that ran the instruction is over.
pub open spec fn owed(s: State, i: Instruction) -> nat {
    (cycles(i, taken(s, i)) - 1) as nat
}

/// The state after the opcode `op` has been dispatched in state `s`, whose
/// program counter stands behind the opcode.
pub open spec fn dispatched<M: Memory>(s: State, op: u8) -> State {
    let i = decoded(op);
    State { wait_cycles: owed(s, i), ..run::<M>(s, i) }
}

/// The state after one tick.
///
/// A tick that finds cycles owed pays one of them and does nothing else.
/// Otherwise a latched interrupt is dropped if interrupts are disabled; one
/// that is left wakes the processor, disables interrupts and runs in place of
/// a fetch, with the program counter where it was. With nothing latched, a
/// halted processor rests, and a running one fetches the opcode at the
/// program counter, steps over it and runs it.
pub open spec fn ticked<M: Memory>(s: State) -> State {
    if s.wait_cycles > 0 {
        State { wait_cycles: (s.wait_cycles - 1) as nat, ..s }
    } else if s.interrupt_enabled && s.pending is Some {
        dispatched::<M>(
            State { halted: false, interrupt_enabled: false, pending: None, ..s },
            s.pending->0,
        )
    } else if s.halted {
        State { pending: None, ..s }
    } else {
        dispatched::<M>(State { pending: None, ..s }.skip(1), s.immediate8())
    }
}

/// The state after `n` ticks.
pub open spec fn ticks<M: Memory>(s: State, n: nat) -> State
    decreases n,
{
    if n == 0 {
        s
    } else {
        ticked::<M>(ticks::<M>(s, (n - 1) as nat))
    }
}

/// The bytes that an instruction takes in memory, its opcode included.
pub open spec fn length(i: Instruction) -> int {
    match i {
        Instruction::Transfer(Transfer::Lxi(_)) => 3,
        Instruction::Transfer(Transfer::Lda) => 3,
        Instruction::Transfer(Transfer::Sta) => 3,
        Instruction::Transfer(Transfer::Lhld) => 3,
        Instruction::Transfer(Transfer::Shld) => 3,
        Instruction::Transfer(Transfer::Mvi(_)) => 2,
        Instruction::Compute(Compute::AluImmediate(_)) => 2,
        Instruction::Branch(Branch::Jmp) => 3,
        Instruction::Branch(Branch::JumpIf(_)) => 3,
        Instruction::Branch(Branch::Call) => 3,
        Instruction::Branch(Branch::CallIf(_)) => 3,
        Instruction::Control(Control::In) => 2,
        Instruction::Control(Control::Out) => 2,
        _ => 1,
    }
}

/// Reads an opcode.
pub fn decode(op: u8) -> (i: Instruction)
    ensures
        i == decoded(op),
{
    proof {
        reveal(decoded);
    }
    match op {
        0x00 | 0x08 | 0x10 | 0x18 | 0x20 | 0x28 | 0x30 | 0x38 => Instruction::Control(Control::Nop),
        0x01 => Instruction::Transfer(Transfer::Lxi(Register16::BC)),
        0x02 => Instruction::Transfer(Transfer::Stax(Register16::BC)),
        0x03 => Instruction::Compute(Compute::Inx(Register16::BC)),
        0x04 => Instruction::Compute(Compute::Inr(Operand::Reg(Register::B))),
        0x05 => Instruction::Compute(Compute::Dcr(Operand::Reg(Register::B))),
        0x06 => Instruction::Transfer(Transfer::Mvi(Operand::Reg(Register::B))),
        0x07 => Instruction::Compute(Compute::Rlc),
        0x09 => Instruction::Compute(Compute::Dad(Register16::BC)),
        0x0A => Instruction::Transfer(Transfer::Ldax(Register16::BC)),
        0x0B => Instruction::Compute(Compute::Dcx(Register16::BC)),
        0x0C => Instruction::Compute(Compute::Inr(Operand::Reg(Register::C))),
        0x0D => Instruction::Compute(Compute::Dcr(Operand::Reg(Register::C))),
        0x0E => Instruction::Transfer(Transfer::Mvi(Operand::Reg(Register::C))),
        0x0F => Instruction::Compute(Compute::Rrc),
        0x11 => Instruction::Transfer(Transfer::Lxi(Register16::DE)),
        0x12 => Instruction::Transfer(Transfer::Stax(Register16::DE)),
        0x13 => Instruction::Compute(Compute::Inx(Register16::DE)),
        0x14 => Instruction::Compute(Compute::Inr(Operand::Reg(Register::D))),
        0x15 => Instruction::Compute(Compute::Dcr(Operand::Reg(Register::D))),
        0x16 => Instruction::Transfer(Transfer::Mvi(Operand::Reg(Register::D))),
        0x17 => Instruction::Compute(Compute::Ral),
        0x19 => Instruction::Compute(Compute::Dad(Register16::DE)),
        0x1A => Instruction::Transfer(Transfer::Ldax(Register16::DE)),
        0x1B => Instruction::Compute(Compute::Dcx(Register16::DE)),
        0x1C => Instruction::Compute(Compute::Inr(Operand::Reg(Register::E))),
        0x1D => Instruction::Compute(Compute::Dcr(Operand::Reg(Register::E))),
        0x1E => Instruction::Transfer(Transfer::Mvi(Operand::Reg(Register::E))),
        0x1F => Instruction::Compute(Compute::Rar),
        0x21 => Instruction::Transfer(Transfer::Lxi(Register16::HL)),
        0x22 => Instruction::Transfer(Transfer::Shld),
        0x23 => Instruction::Compute(Compute::Inx(Register16::HL)),
        0x24 => Instruction::Compute(Compute::Inr(Operand::Reg(Register::H))),
        0x25 => Instruction::Compute(Compute::Dcr(Operand::Reg(Register::H))),
        0x26 => Instruction::Transfer(Transfer::Mvi(Operand::Reg(Register::H))),
        0x27 => Instruction::Compute(Compute::Daa),
        0x29 => Instruction::Compute(Compute::Dad(Register16::HL)),
        0x2A => Instruction::Transfer(Transfer::Lhld),
        0x2B => Instruction::Compute(Compute::Dcx(Register16::HL)),
        0x2C => Instruction::Compute(Compute::Inr(Operand::Reg(Register::L))),
        0x2D => Instruction::Compute(Compute::Dcr(Operand::Reg(Register::L))),
        0x2E => Instruction::Transfer(Transfer::Mvi(Operand::Reg(Register::L))),
        0x2F => Instruction::Compute(Compute::Cma),
        0x31 => Instruction::Transfer(Transfer::Lxi(Register16::SP)),
        0x32 => Instruction::Transfer(Transfer::Sta),
        0x33 => Instruction::Compute(Compute::Inx(Register16::SP)),
        0x34 => Instruction::Compute(Compute::Inr(Operand::Mem)),
        0x35 => Instruction::Compute(Compute::Dcr(Operand::Mem)),
        0x36 => Instruction::Transfer(Transfer::Mvi(Operand::Mem)),
        0x37 => Instruction::Compute(Compute::Stc),
        0x39 => Instruction::Compute(Compute::Dad(Register16::SP)),
        0x3A => Instruction::Transfer(Transfer::Lda),
        0x3B => Instruction::Compute(Compute::Dcx(Register16::SP)),
        0x3C => Instruction::Compute(Compute::Inr(Operand::Reg(Register::A))),
        0x3D => Instruction::Compute(Compute::Dcr(Operand::Reg(Register::A))),
        0x3E => Instruction::Transfer(Transfer::Mvi(Operand::Reg(Register::A))),
        0x3F => Instruction::Compute(Compute::Cmc),
        0x40 => Instruction::Transfer(
            Transfer::Mov(Operand::Reg(Register::B), Operand::Reg(Register::B)),
        ),
        0x41 => Instruction::Transfer(
            Transfer::Mov(Operand::Reg(Register::B), Operand::Reg(Register::C)),
        ),
        0x42 => Instruction::Transfer(
            Transfer::Mov(Operand::Reg(Register::B), Operand::Reg(Register::D)),
        ),
        0x43 => Instruction::Transfer(
            Transfer::Mov(Operand::Reg(Register::B), Operand::Reg(Register::E)),
        ),
        0x44 => Instruction::Transfer(
            Transfer::Mov(Operand::Reg(Register::B), Operand::Reg(Register::H)),
        ),
        0x45 => Instruction::Transfer(
            Transfer::Mov(Operand::Reg(Register::B), Operand::Reg(Register::L)),
        ),
        0x46 => Instruction::Transfer(Transfer::Mov(Operand::Reg(Register::B), Operand::Mem)),
        0x47 => Instruction::Transfer(
            Transfer::Mov(Operand::Reg(Register::B), Operand::Reg(Register::A)),
        ),
        0x48 => Instruction::Transfer(
            Transfer::Mov(Operand::Reg(Register::C), Operand::Reg(Register::B)),
        ),
        0x49 => Instruction::Transfer(
            Transfer::Mov(Operand::Reg(Register::C), Operand::Reg(Register::C)),
        ),
        0x4A => Instruction::Transfer(
            Transfer::Mov(Operand::Reg(Register::C), Operand::Reg(Register::D)),
        ),
        0x4B => Instruction::Transfer(
            Transfer::Mov(Operand::Reg(Register::C), Operand::Reg(Register::E)),
        ),
        0x4C => Instruction::Transfer(
            Transfer::Mov(Operand::Reg(Register::C), Operand::Reg(Register::H)),
        ),
        0x4D => Instruction::Transfer(
            Transfer::Mov(Operand::Reg(Register::C), Operand::Reg(Register::L)),
        ),
        0x4E => Instruction::Transfer(Transfer::Mov(Operand::Reg(Register::C), Operand::Mem)),
        0x4F => Instruction::Transfer(
            Transfer::Mov(Operand::Reg(Register::C), Operand::Reg(Register::A)),
        ),
        0x50 => Instruction::Transfer(
            Transfer::Mov(Operand::Reg(Register::D), Operand::Reg(Register::B)),
        ),
        0x51 => Instruction::Transfer(
            Transfer::Mov(Operand::Reg(Register::D), Operand::Reg(Register::C)),
        ),
        0x52 => Instruction::Transfer(
            Transfer::Mov(Operand::Reg(Register::D), Operand::Reg(Register::D)),
        ),
        0x53 => Instruction::Transfer(
            Transfer::Mov(Operand::Reg(Register::D), Operand::Reg(Register::E)),
        ),
        0x54 => Instruction::Transfer(
            Transfer::Mov(Operand::Reg(Register::D), Operand::Reg(Register::H)),
        ),
        0x55 => Instruction::Transfer(
            Transfer::Mov(Operand::Reg(Register::D), Operand::Reg(Register::L)),
        ),
        0x56 => Instruction::Transfer(Transfer::Mov(Operand::Reg(Register::D), Operand::Mem)),
        0x57 => Instruction::Transfer(
            Transfer::Mov(Operand::Reg(Register::D), Operand::Reg(Register::A)),
        ),
        0x58 => Instruction::Transfer(
            Transfer::Mov(Operand::Reg(Register::E), Operand::Reg(Register::B)),
        ),
        0x59 => Instruction::Transfer(
            Transfer::Mov(Operand::Reg(Register::E), Operand::Reg(Register::C)),
        ),
        0x5A => Instruction::Transfer(
            Transfer::Mov(Operand::Reg(Register::E), Operand::Reg(Register::D)),
        ),
        0x5B => Instruction::Transfer(
            Transfer::Mov(Operand::Reg(Register::E), Operand::Reg(Register::E)),
        ),
        0x5C => Instruction::Transfer(
            Transfer::Mov(Operand::Reg(Register::E), Operand::Reg(Register::H)),
        ),
        0x5D => Instruction::Transfer(
            Transfer::Mov(Operand::Reg(Register::E), Operand::Reg(Register::L)),
        ),
        0x5E => Instruction::Transfer(Transfer::Mov(Operand::Reg(Register::E), Operand::Mem)),
        0x5F => Instruction::Transfer(
            Transfer::Mov(Operand::Reg(Register::E), Operand::Reg(Register::A)),
        ),
        0x60 => Instruction::Transfer(
            Transfer::Mov(Operand::Reg(Register::H), Operand::Reg(Register::B)),
        ),
        0x61 => Instruction::Transfer(
            Transfer::Mov(Operand::Reg(Register::H), Operand::Reg(Register::C)),
        ),
        0x62 => Instruction::Transfer(
            Transfer::Mov(Operand::Reg(Register::H), Operand::Reg(Register::D)),
        ),
        0x63 => Instruction::Transfer(
            Transfer::Mov(Operand::Reg(Register::H), Operand::Reg(Register::E)),
        ),
        0x64 => Instruction::Transfer(
            Transfer::Mov(Operand::Reg(Register::H), Operand::Reg(Register::H)),
        ),
        0x65 => Instruction::Transfer(
            Transfer::Mov(Operand::Reg(Register::H), Operand::Reg(Register::L)),
        ),
        0x66 => Instruction::Transfer(Transfer::Mov(Operand::Reg(Register::H), Operand::Mem)),
        0x67 => Instruction::Transfer(
            Transfer::Mov(Operand::Reg(Register::H), Operand::Reg(Register::A)),
        ),
        0x68 => Instruction::Transfer(
            Transfer::Mov(Operand::Reg(Register::L), Operand::Reg(Register::B)),
        ),
        0x69 => Instruction::Transfer(
            Transfer::Mov(Operand::Reg(Register::L), Operand::Reg(Register::C)),
        ),
        0x6A => Instruction::Transfer(
            Transfer::Mov(Operand::Reg(Register::L), Operand::Reg(Register::D)),
        ),
        0x6B => Instruction::Transfer(
            Transfer::Mov(Operand::Reg(Register::L), Operand::Reg(Register::E)),
        ),
        0x6C => Instruction::Transfer(
            Transfer::Mov(Operand::Reg(Register::L), Operand::Reg(Register::H)),
        ),
        0x6D => Instruction::Transfer(
            Transfer::Mov(Operand::Reg(Register::L), Operand::Reg(Register::L)),
        ),
        0x6E => Instruction::Transfer(Transfer::Mov(Operand::Reg(Register::L), Operand::Mem)),
        0x6F => Instruction::Transfer(
            Transfer::Mov(Operand::Reg(Register::L), Operand::Reg(Register::A)),
        ),
        0x70 => Instruction::Transfer(Transfer::Mov(Operand::Mem, Operand::Reg(Register::B))),
        0x71 => Instruction::Transfer(Transfer::Mov(Operand::Mem, Operand::Reg(Register::C))),
        0x72 => Instruction::Transfer(Transfer::Mov(Operand::Mem, Operand::Reg(Register::D))),
        0x73 => Instruction::Transfer(Transfer::Mov(Operand::Mem, Operand::Reg(Register::E))),
        0x74 => Instruction::Transfer(Transfer::Mov(Operand::Mem, Operand::Reg(Register::H))),
        0x75 => Instruction::Transfer(Transfer::Mov(Operand::Mem, Operand::Reg(Register::L))),
        0x76 => Instruction::Control(Control::Hlt),
        0x77 => Instruction::Transfer(Transfer::Mov(Operand::Mem, Operand::Reg(Register::A))),
        0x78 => Instruction::Transfer(
            Transfer::Mov(Operand::Reg(Register::A), Operand::Reg(Register::B)),
        ),
        0x79 => Instruction::Transfer(
            Transfer::Mov(Operand::Reg(Register::A), Operand::Reg(Register::C)),
        ),
        0x7A => Instruction::Transfer(
            Transfer::Mov(Operand::Reg(Register::A), Operand::Reg(Register::D)),
        ),
        0x7B => Instruction::Transfer(
            Transfer::Mov(Operand::Reg(Register::A), Operand::Reg(Register::E)),
        ),
        0x7C => Instruction::Transfer(
            Transfer::Mov(Operand::Reg(Register::A), Operand::Reg(Register::H)),
        ),
        0x7D => Instruction::Transfer(
            Transfer::Mov(Operand::Reg(Register::A), Operand::Reg(Register::L)),
        ),
        0x7E => Instruction::Transfer(Transfer::Mov(Operand::Reg(Register::A), Operand::Mem)),
        0x7F => Instruction::Transfer(
            Transfer::Mov(Operand::Reg(Register::A), Operand::Reg(Register::A)),
        ),
        0x80 => Instruction::Compute(Compute::Alu(Operation::Add, Operand::Reg(Register::B))),
        0x81 => Instruction::Compute(Compute::Alu(Operation::Add, Operand::Reg(Register::C))),
        0x82 => Instruction::Compute(Compute::Alu(Operation::Add, Operand::Reg(Register::D))),
        0x83 => Instruction::Compute(Compute::Alu(Operation::Add, Operand::Reg(Register::E))),
        0x84 => Instruction::Compute(Compute::Alu(Operation::Add, Operand::Reg(Register::H))),
        0x85 => Instruction::Compute(Compute::Alu(Operation::Add, Operand::Reg(Register::L))),
        0x86 => Instruction::Compute(Compute::Alu(Operation::Add, Operand::Mem)),
        0x87 => Instruction::Compute(Compute::Alu(Operation::Add, Operand::Reg(Register::A))),
        0x88 => Instruction::Compute(Compute::Alu(Operation::AddCarry, Operand::Reg(Register::B))),
        0x89 => Instruction::Compute(Compute::Alu(Operation::AddCarry, Operand::Reg(Register::C))),
        0x8A => Instruction::Compute(Compute::Alu(Operation::AddCarry, Operand::Reg(Register::D))),
        0x8B => Instruction::Compute(Compute::Alu(Operation::AddCarry, Operand::Reg(Register::E))),
        0x8C => Instruction::Compute(Compute::Alu(Operation::AddCarry, Operand::Reg(Register::H))),
        0x8D => Instruction::Compute(Compute::Alu(Operation::AddCarry, Operand::Reg(Register::L))),
        0x8E => Instruction::Compute(Compute::Alu(Operation::AddCarry, Operand::Mem)),
        0x8F => Instruction::Compute(Compute::Alu(Operation::AddCarry, Operand::Reg(Register::A))),
        0x90 => Instruction::Compute(Compute::Alu(Operation::Subtract, Operand::Reg(Register::B))),
        0x91 => Instruction::Compute(Compute::Alu(Operation::Subtract, Operand::Reg(Register::C))),
        0x92 => Instruction::Compute(Compute::Alu(Operation::Subtract, Operand::Reg(Register::D))),
        0x93 => Instruction::Compute(Compute::Alu(Operation::Subtract, Operand::Reg(Register::E))),
        0x94 => Instruction::Compute(Compute::Alu(Operation::Subtract, Operand::Reg(Register::H))),
        0x95 => Instruction::Compute(Compute::Alu(Operation::Subtract, Operand::Reg(Register::L))),
        0x96 => Instruction::Compute(Compute::Alu(Operation::Subtract, Operand::Mem)),
        0x97 => Instruction::Compute(Compute::Alu(Operation::Subtract, Operand::Reg(Register::A))),
        0x98 => Instruction::Compute(
            Compute::Alu(Operation::SubtractBorrow, Operand::Reg(Register::B)),
        ),
        0x99 => Instruction::Compute(
            Compute::Alu(Operation::SubtractBorrow, Operand::Reg(Register::C)),
        ),
        0x9A => Instruction::Compute(
            Compute::Alu(Operation::SubtractBorrow, Operand::Reg(Register::D)),
        ),
        0x9B => Instruction::Compute(
            Compute::Alu(Operation::SubtractBorrow, Operand::Reg(Register::E)),
        ),
        0x9C => Instruction::Compute(
            Compute::Alu(Operation::SubtractBorrow, Operand::Reg(Register::H)),
        ),
        0x9D => Instruction::Compute(
            Compute::Alu(Operation::SubtractBorrow, Operand::Reg(Register::L)),
        ),
        0x9E => Instruction::Compute(Compute::Alu(Operation::SubtractBorrow, Operand::Mem)),
        0x9F => Instruction::Compute(
            Compute::Alu(Operation::SubtractBorrow, Operand::Reg(Register::A)),
        ),
        0xA0 => Instruction::Compute(Compute::Alu(Operation::And, Operand::Reg(Register::B))),
        0xA1 => Instruction::Compute(Compute::Alu(Operation::And, Operand::Reg(Register::C))),
        0xA2 => Instruction::Compute(Compute::Alu(Operation::And, Operand::Reg(Register::D))),
        0xA3 => Instruction::Compute(Compute::Alu(Operation::And, Operand::Reg(Register::E))),
        0xA4 => Instruction::Compute(Compute::Alu(Operation::And, Operand::Reg(Register::H))),
        0xA5 => Instruction::Compute(Compute::Alu(Operation::And, Operand::Reg(Register::L))),
        0xA6 => Instruction::Compute(Compute::Alu(Operation::And, Operand::Mem)),
        0xA7 => Instruction::Compute(Compute::Alu(Operation::And, Operand::Reg(Register::A))),
        0xA8 => Instruction::Compute(Compute::Alu(Operation::Xor, Operand::Reg(Register::B))),
        0xA9 => Instruction::Compute(Compute::Alu(Operation::Xor, Operand::Reg(Register::C))),
        0xAA => Instruction::Compute(Compute::Alu(Operation::Xor, Operand::Reg(Register::D))),
        0xAB => Instruction::Compute(Compute::Alu(Operation::Xor, Operand::Reg(Register::E))),
        0xAC => Instruction::Compute(Compute::Alu(Operation::Xor, Operand::Reg(Register::H))),
        0xAD => Instruction::Compute(Compute::Alu(Operation::Xor, Operand::Reg(Register::L))),
        0xAE => Instruction::Compute(Compute::Alu(Operation::Xor, Operand::Mem)),
        0xAF => Instruction::Compute(Compute::Alu(Operation::Xor, Operand::Reg(Register::A))),
        0xB0 => Instruction::Compute(Compute::Alu(Operation::Or, Operand::Reg(Register::B))),
        0xB1 => Instruction::Compute(Compute::Alu(Operation::Or, Operand::Reg(Register::C))),
        0xB2 => Instruction::Compute(Compute::Alu(Operation::Or, Operand::Reg(Register::D))),
        0xB3 => Instruction::Compute(Compute::Alu(Operation::Or, Operand::Reg(Register::E))),
        0xB4 => Instruction::Compute(Compute::Alu(Operation::Or, Operand::Reg(Register::H))),
        0xB5 => Instruction::Compute(Compute::Alu(Operation::Or, Operand::Reg(Register::L))),
        0xB6 => Instruction::Compute(Compute::Alu(Operation::Or, Operand::Mem)),
        0xB7 => Instruction::Compute(Compute::Alu(Operation::Or, Operand::Reg(Register::A))),
        0xB8 => Instruction::Compute(Compute::Alu(Operation::Compare, Operand::Reg(Register::B))),
        0xB9 => Instruction::Compute(Compute::Alu(Operation::Compare, Operand::Reg(Register::C))),
        0xBA => Instruction::Compute(Compute::Alu(Operation::Compare, Operand::Reg(Register::D))),
        0xBB => Instruction::Compute(Compute::Alu(Operation::Compare, Operand::Reg(Register::E))),
        0xBC => Instruction::Compute(Compute::Alu(Operation::Compare, Operand::Reg(Register::H))),
        0xBD => Instruction::Compute(Compute::Alu(Operation::Compare, Operand::Reg(Register::L))),
        0xBE => Instruction::Compute(Compute::Alu(Operation::Compare, Operand::Mem)),
        0xBF => Instruction::Compute(Compute::Alu(Operation::Compare, Operand::Reg(Register::A))),
        0xC0 => Instruction::Branch(
            Branch::ReturnIf(Test { name: ConditionName::Zero, value: false }),
        ),
        0xC1 => Instruction::Control(Control::Pop(Register16::BC)),
        0xC2 => Instruction::Branch(
            Branch::JumpIf(Test { name: ConditionName::Zero, value: false }),
        ),
        0xC3 | 0xCB => Instruction::Branch(Branch::Jmp),
        0xC4 => Instruction::Branch(
            Branch::CallIf(Test { name: ConditionName::Zero, value: false }),
        ),
        0xC5 => Instruction::Control(Control::Push(Register16::BC)),
        0xC6 => Instruction::Compute(Compute::AluImmediate(Operation::Add)),
        0xC8 => Instruction::Branch(
            Branch::ReturnIf(Test { name: ConditionName::Zero, value: true }),
        ),
        0xC9 | 0xD9 => Instruction::Branch(Branch::Ret),
        0xCA => Instruction::Branch(
            Branch::JumpIf(Test { name: ConditionName::Zero, value: true }),
        ),
        0xCC => Instruction::Branch(
            Branch::CallIf(Test { name: ConditionName::Zero, value: true }),
        ),
        0xCD | 0xDD | 0xED | 0xFD => Instruction::Branch(Branch::Call),
        0xCE => Instruction::Compute(Compute::AluImmediate(Operation::AddCarry)),
        0xD0 => Instruction::Branch(
            Branch::ReturnIf(Test { name: ConditionName::Carry, value: false }),
        ),
        0xD1 => Instruction::Control(Control::Pop(Register16::DE)),
        0xD2 => Instruction::Branch(
            Branch::JumpIf(Test { name: ConditionName::Carry, value: false }),
        ),
        0xD3 => Instruction::Control(Control::Out),
        0xD4 => Instruction::Branch(
            Branch::CallIf(Test { name: ConditionName::Carry, value: false }),
        ),
        0xD5 => Instruction::Control(Control::Push(Register16::DE)),
        0xD6 => Instruction::Compute(Compute::AluImmediate(Operation::Subtract)),
        0xD8 => Instruction::Branch(
            Branch::ReturnIf(Test { name: ConditionName::Carry, value: true }),
        ),
        0xDA => Instruction::Branch(
            Branch::JumpIf(Test { name: ConditionName::Carry, value: true }),
        ),
        0xDB => Instruction::Control(Control::In),
        0xDC => Instruction::Branch(
            Branch::CallIf(Test { name: ConditionName::Carry, value: true }),
        ),
        0xDE => Instruction::Compute(Compute::AluImmediate(Operation::SubtractBorrow)),
        0xE0 => Instruction::Branch(
            Branch::ReturnIf(Test { name: ConditionName::Parity, value: false }),
        ),
        0xE1 => Instruction::Control(Control::Pop(Register16::HL)),
        0xE2 => Instruction::Branch(
            Branch::JumpIf(Test { name: ConditionName::Parity, value: false }),
        ),
        0xE3 => Instruction::Control(Control::Xthl),
        0xE4 => Instruction::Branch(
            Branch::CallIf(Test { name: ConditionName::Parity, value: false }),
        ),
        0xE5 => Instruction::Control(Control::Push(Register16::HL)),
        0xE6 => Instruction::Compute(Compute::AluImmediate(Operation::And)),
        0xE8 => Instruction::Branch(
            Branch::ReturnIf(Test { name: ConditionName::Parity, value: true }),
        ),
        0xE9 => Instruction::Branch(Branch::Pchl),
        0xEA => Instruction::Branch(
            Branch::JumpIf(Test { name: ConditionName::Parity, value: true }),
        ),
        0xEB => Instruction::Transfer(Transfer::Xchg),
        0xEC => Instruction::Branch(
            Branch::CallIf(Test { name: ConditionName::Parity, value: true }),
        ),
        0xEE => Instruction::Compute(Compute::AluImmediate(Operation::Xor)),
        0xF0 => Instruction::Branch(
            Branch::ReturnIf(Test { name: ConditionName::Sign, value: false }),
        ),
        0xF1 => Instruction::Control(Control::Pop(Register16::PSW)),
        0xF2 => Instruction::Branch(
            Branch::JumpIf(Test { name: ConditionName::Sign, value: false }),
        ),
        0xF3 => Instruction::Control(Control::Di),
        0xF4 => Instruction::Branch(
            Branch::CallIf(Test { name: ConditionName::Sign, value: false }),
        ),
        0xF5 => Instruction::Control(Control::Push(Register16::PSW)),
        0xF6 => Instruction::Compute(Compute::AluImmediate(Operation::Or)),
        0xF8 => Instruction::Branch(
            Branch::ReturnIf(Test { name: ConditionName::Sign, value: true }),
        ),
        0xF9 => Instruction::Control(Control::Sphl),
        0xFA => Instruction::Branch(
            Branch::JumpIf(Test { name: ConditionName::Sign, value: true }),
        ),
        0xFB => Instruction::Control(Control::Ei),
        0xFC => Instruction::Branch(
            Branch::CallIf(Test { name: ConditionName::Sign, value: true }),
        ),
        0xFE => Instruction::Compute(Compute::AluImmediate(Operation::Compare)),
        0xC7 | 0xCF | 0xD7 | 0xDF | 0xE7 | 0xEF | 0xF7 | 0xFF => Instruction::Branch(
            Branch::Rst(op),
        ),
    }
}

} // verus!
