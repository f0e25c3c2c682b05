//! What follows from the instruction set: statements about all bytes and all
//! states, each proved from the definitions in [`crate::instruction`].

use vstd::prelude::*;
use crate::alu::{even_parity, high_byte, lemma_diff_is_sum, lemma_low_digit, lemma_moved_apart,
    lemma_moved_twice, lemma_moved_wraps, lemma_pair_bytes, low_byte, moved, negated, pair};
use crate::arcade::{asked, entered, stepped, Board, END_OF_FRAME, MID_SCREEN, TICKS_PER_FRAME,
    TICKS_TO_MID_SCREEN};
use crate::conditions::has_bit;
use crate::instruction::{accumulated, branched, computed, controlled, cycles, decoded, dispatched,
    holds, length, run, taken, ticked, ticks, transferred, vector_of, Branch, Compute, Control,
    Instruction, Operation, Transfer};
use crate::memory::basic_memory::{lemma_flat, BasicMemory};
use crate::memory::{apart, keeps, Memory};
use crate::ports::PORT0;
use crate::shift_register::window;
use crate::space_invaders_memory::{lemma_mapped, lemma_neighbours_apart, writable,
    SpaceInvadersMemory};
use crate::state::{reset, Operand, Register16, State};

verus! {

/// `ADD`: the accumulator takes the sum reduced to eight bits; carry is set
/// when the sum does not fit in eight bits, auxiliary carry when the sum of
/// the low four bits does not fit in four; zero, sign and parity follow the
/// new accumulator.
pub proof fn lemma_add(s: State, v: u8)
    ensures
        ({
            let t = accumulated(s, Operation::Add, v);
            &&& t.a as int == (s.a as int + v as int) % 256
            &&& t.flags.carry == (s.a as int + v as int >= 256)
            &&& t.flags.zero == (t.a == 0)
            &&& t.flags.sign == (t.a >= 0x80)
            &&& t.flags.parity == even_parity(t.a)
            &&& t.flags.aux == ((s.a & 0x0F) + (v & 0x0F) >= 0x10)
        }),
{
    lemma_low_digit(s.a);
    lemma_low_digit(v);
}

/// The two's complement of a byte is its complement plus one, in eight bits.
pub proof fn lemma_negated(v: u8)
    ensures
        negated(v) as int == ((!v) as int + 1) % 256,
{
    assert((!v) as int == 255 - v as int) by (bit_vector);
}

/// `SUB`: the accumulator and the bits zero, sign, parity and auxiliary
/// carry are those of an `ADD` of the two's complement; carry is the borrow,
/// set when the accumulator was below the byte taken from it.
pub proof fn lemma_sub(s: State, v: u8)
    ensures
        ({
            let t = accumulated(s, Operation::Subtract, v);
            let u = accumulated(s, Operation::Add, negated(v));
            &&& t.a == u.a
            &&& t.flags.zero == u.flags.zero
            &&& t.flags.sign == u.flags.sign
            &&& t.flags.parity == u.flags.parity
            &&& t.flags.aux == u.flags.aux
            &&& t.flags.carry == (s.a < v)
        }),
{
    lemma_diff_is_sum(s.a, v);
}

/// `ANA`, `XRA` and `ORA` clear carry, and the last two auxiliary carry too;
/// `ANA` sets auxiliary carry when bit 3 is set in either operand. Zero, sign
/// and parity follow the new accumulator.
pub proof fn lemma_logic(s: State, op: Operation, v: u8)
    requires
        op == Operation::And || op == Operation::Xor || op == Operation::Or,
    ensures
        ({
            let t = accumulated(s, op, v);
            &&& !t.flags.carry
            &&& op != Operation::And ==> !t.flags.aux
            &&& op == Operation::And ==> t.flags.aux == (has_bit(s.a, 8) || has_bit(v, 8))
            &&& t.flags.zero == (t.a == 0)
            &&& t.flags.sign == (t.a >= 0x80)
            &&& t.flags.parity == even_parity(t.a)
            &&& op == Operation::And ==> t.a == s.a & v
            &&& op == Operation::Xor ==> t.a == s.a ^ v
            &&& op == Operation::Or ==> t.a == s.a | v
        }),
{
}

/// `INX` moves its pair up by one, in sixteen bits, and changes no
/// condition bit.
pub proof fn lemma_inx<M: Memory>(s: State, rp: Register16)
    requires
        rp != Register16::PSW,
    ensures
        computed::<M>(s, Compute::Inx(rp)).pair(rp) == moved(s.pair(rp), 1),
        moved(s.pair(rp), 1) as int == (s.pair(rp) as int + 1) % 65536,
        computed::<M>(s, Compute::Inx(rp)).flags == s.flags,
{
    let v = moved(s.pair(rp), 1);
    assert(computed::<M>(s, Compute::Inx(rp)) == s.with_pair(rp, v));
    lemma_with_pair(s, rp, v);
}

/// `DCX` moves its pair down by one, in sixteen bits, and changes no
/// condition bit.
pub proof fn lemma_dcx<M: Memory>(s: State, rp: Register16)
    requires
        rp != Register16::PSW,
    ensures
        computed::<M>(s, Compute::Dcx(rp)).pair(rp) == moved(s.pair(rp), -1),
        moved(s.pair(rp), -1) as int == (s.pair(rp) as int - 1) % 65536,
        computed::<M>(s, Compute::Dcx(rp)).flags == s.flags,
{
    let v = moved(s.pair(rp), -1);
    assert(computed::<M>(s, Compute::Dcx(rp)) == s.with_pair(rp, v));
    lemma_with_pair(s, rp, v);
}

/// A pair that is written reads back as written, and writing one that is
/// not `PSW` changes no condition bit.
pub proof fn lemma_with_pair(s: State, rp: Register16, v: u16)
    ensures
        rp != Register16::PSW ==> s.with_pair(rp, v).pair(rp) == v,
        rp != Register16::PSW ==> s.with_pair(rp, v).flags == s.flags,
        s.with_pair(rp, v).pc == s.pc,
{
    lemma_pair_bytes(v, 0, 0);
}

/// `INR` and `DCR` leave carry as it was.
pub proof fn lemma_count_byte<M: Memory>(s: State, o: Operand)
    ensures
        computed::<M>(s, Compute::Inr(o)).flags.carry == s.flags.carry,
        computed::<M>(s, Compute::Dcr(o)).flags.carry == s.flags.carry,
{
}

/// Whether a number is one of the cycle counts of the processor.
pub open spec fn is_cycle_count(n: nat) -> bool {
    n == 4 || n == 5 || n == 7 || n == 10 || n == 11 || n == 13 || n == 16 || n == 17 || n == 18
}

/// Every instruction takes one of nine cycle counts, whichever way it goes.
pub proof fn lemma_cycles(i: Instruction, taken: bool)
    ensures
        is_cycle_count(cycles(i, taken)),
{
}

/// Every opcode takes one of nine cycle counts, and leaves one less owed.
pub proof fn lemma_opcode_cycles<M: Memory>(s: State, op: u8)
    ensures
        is_cycle_count(cycles(decoded(op), taken(s, decoded(op)))),
        is_cycle_count(dispatched::<M>(s, op).wait_cycles + 1),
{
    lemma_cycles(decoded(op), taken(s, decoded(op)));
}

/// An instruction is one, two or three bytes long.
pub proof fn lemma_length(i: Instruction)
    ensures
        1 <= length(i) <= 3,
{
}

/// An instruction that moves data leaves the program counter behind its
/// last byte.
pub proof fn lemma_transfer_falls_through<M: Memory>(s: State, i: Transfer)
    ensures
        transferred::<M>(s, i).pc == moved(s.pc, length(Instruction::Transfer(i)) - 1),
{
    lemma_moved_twice(s.pc, 0, 0);
    match i {
        Transfer::Lxi(rp) => {
            lemma_with_pair(s, rp, s.immediate16());
        },
        Transfer::Mvi(o) => {
            match o {
                Operand::Reg(_) => {},
                Operand::Mem => {},
            }
        },
        Transfer::Mov(dst, src) => {
            match dst {
                Operand::Reg(_) => {},
                Operand::Mem => {},
            }
        },
        _ => {},
    }
}

/// An operation on the accumulator leaves the program counter alone, and so
/// does counting a byte or a pair.
pub proof fn lemma_compute_keeps_pc<M: Memory>(s: State, op: Operation, o: Operand, rp: Register16)
    ensures
        accumulated(s, op, s.operand(o)).pc == s.pc,
        accumulated(s, op, s.immediate8()).pc == s.pc,
        computed::<M>(s, Compute::Inr(o)).pc == s.pc,
        computed::<M>(s, Compute::Dcr(o)).pc == s.pc,
        computed::<M>(s, Compute::Inx(rp)).pc == s.pc,
        computed::<M>(s, Compute::Dcx(rp)).pc == s.pc,
        computed::<M>(s, Compute::Dad(rp)).pc == s.pc,
{
}

/// An instruction that computes leaves the program counter behind its last
/// byte.
pub proof fn lemma_compute_falls_through<M: Memory>(s: State, i: Compute)
    ensures
        computed::<M>(s, i).pc == moved(s.pc, length(Instruction::Compute(i)) - 1),
{
    lemma_moved_twice(s.pc, 0, 0);
    match i {
        Compute::Alu(op, o) => {
            lemma_compute_keeps_pc::<M>(s, op, o, Register16::HL);
        },
        Compute::AluImmediate(op) => {
            lemma_compute_keeps_pc::<M>(s, op, Operand::Mem, Register16::HL);
        },
        Compute::Inr(o) => {
            lemma_compute_keeps_pc::<M>(s, Operation::Add, o, Register16::HL);
        },
        Compute::Dcr(o) => {
            lemma_compute_keeps_pc::<M>(s, Operation::Add, o, Register16::HL);
        },
        Compute::Inx(rp) => {
            lemma_compute_keeps_pc::<M>(s, Operation::Add, Operand::Mem, rp);
        },
        Compute::Dcx(rp) => {
            lemma_compute_keeps_pc::<M>(s, Operation::Add, Operand::Mem, rp);
        },
        Compute::Dad(rp) => {
            lemma_compute_keeps_pc::<M>(s, Operation::Add, Operand::Mem, rp);
        },
        Compute::Daa => {},
        Compute::Rlc => {},
        Compute::Rrc => {},
        Compute::Ral => {},
        Compute::Rar => {},
        Compute::Cma => {},
        Compute::Cmc => {},
        Compute::Stc => {},
    }
}

/// An instruction of the stack, the ports or the machine leaves the program
/// counter behind its last byte.
pub proof fn lemma_control_falls_through<M: Memory>(s: State, i: Control)
    ensures
        controlled::<M>(s, i).pc == moved(s.pc, length(Instruction::Control(i)) - 1),
{
    lemma_moved_twice(s.pc, 0, 0);
    match i {
        Control::Pop(rp) => {
            lemma_with_pair(s.dropped(), rp, s.top());
        },
        Control::Xthl => {
            let s1 = s.poke::<M>(s.sp, s.l).poke::<M>(moved(s.sp, 1), s.h);
            lemma_with_pair(s1, Register16::HL, s.top());
        },
        _ => {},
    }
}

/// An instruction that is no branch leaves the program counter behind its
/// last byte. The same holds of a conditional jump or call whose condition
/// fails; a conditional return whose condition fails is one byte long.
pub proof fn lemma_falls_through<M: Memory>(s: State, i: Instruction)
    requires
        match i {
            Instruction::Branch(Branch::JumpIf(t)) => !holds(s, t),
            Instruction::Branch(Branch::CallIf(t)) => !holds(s, t),
            Instruction::Branch(Branch::ReturnIf(t)) => !holds(s, t),
            Instruction::Branch(_) => false,
            _ => true,
        },
    ensures
        run::<M>(s, i).pc == moved(s.pc, length(i) - 1),
{
    reveal(run);
    match i {
        Instruction::Transfer(t) => {
            lemma_transfer_falls_through::<M>(s, t);
        },
        Instruction::Compute(c) => {
            lemma_compute_falls_through::<M>(s, c);
        },
        Instruction::Branch(b) => {
            lemma_moved_twice(s.pc, 0, 0);
            assert(branched::<M>(s, b).pc == moved(s.pc, length(i) - 1));
        },
        Instruction::Control(c) => {
            lemma_control_falls_through::<M>(s, c);
        },
    }
}

/// A tick that fetches an instruction that is no branch leaves the program
/// counter behind the instruction, one, two or three bytes on, and leaves
/// owed the cycles of the instruction less one.
pub proof fn lemma_tick_steps_over<M: Memory>(s: State)
    requires
        s.wait_cycles == 0,
        !s.halted,
        !(s.interrupt_enabled && s.pending is Some),
        !(decoded(s.immediate8()) is Branch),
    ensures
        ticked::<M>(s).pc == moved(s.pc, length(decoded(s.immediate8()))),
        1 <= length(decoded(s.immediate8())) <= 3,
        ticked::<M>(s).wait_cycles + 1 == cycles(decoded(s.immediate8()), false),
{
    let i = decoded(s.immediate8());
    let s1 = State { pending: None, ..s }.skip(1);
    assert(ticked::<M>(s) == dispatched::<M>(s1, s.immediate8()));
    lemma_falls_through::<M>(s1, i);
    lemma_moved_twice(s.pc, 1, length(i) - 1);
    lemma_length(i);
    lemma_cycles(i, false);
}

/// Where a branch lands when the address that follows it, the top of the
/// stack and `HL` are all zero: at zero, or behind the branch if it is
/// conditional and its condition fails. A restart lands at its vector.
pub proof fn lemma_branch_lands<M: Memory>(s: State, b: Branch)
    requires
        s.immediate16() == 0,
        s.top() == 0,
        s.hl() == 0,
    ensures
        ({
            let pc = branched::<M>(s, b).pc;
            match b {
                Branch::Rst(op) => pc == vector_of(op),
                Branch::JumpIf(_) => pc == 0 || pc == moved(s.pc, 2),
                Branch::CallIf(_) => pc == 0 || pc == moved(s.pc, 2),
                Branch::ReturnIf(_) => pc == 0 || pc == s.pc,
                _ => pc == 0,
            }
        }),
{
}

/// The first instruction after reset, when the bytes that follow its opcode
/// at address zero are zero and the stack holds zeros: the program counter
/// ends at most three bytes on. A restart ends at its vector.
pub proof fn lemma_first_instruction<M: Memory>(mem: Seq<u8>, i: Instruction)
    requires
        mem[1] == 0,
        mem[2] == 0,
        mem[0x2400] == 0,
        mem[0x2401] == 0,
    ensures
        ({
            let pc = run::<M>(reset(mem).skip(1), i).pc;
            match i {
                Instruction::Branch(Branch::Rst(op)) => pc == vector_of(op),
                _ => pc <= 3,
            }
        }),
{
    reveal(run);
    let s1 = reset(mem).skip(1);
    lemma_moved_wraps(0, 1);
    lemma_moved_wraps(1, 0);
    lemma_moved_wraps(1, 1);
    lemma_moved_wraps(1, 2);
    assert(s1.pc == 1);
    match i {
        Instruction::Branch(b) => {
            lemma_moved_wraps(0x2400, 1);
            lemma_pair_bytes(0, 0, 0);
            assert(pair(0, 0) == 0);
            assert(s1.immediate16() == 0);
            assert(s1.top() == 0);
            assert(s1.hl() == 0);
            lemma_branch_lands::<M>(s1, b);
        },
        _ => {
            lemma_falls_through::<M>(s1, i);
            lemma_length(i);
        },
    }
}

/// The first tick after reset, when the opcode at address zero is followed
/// by zeros and the stack holds zeros: the program counter ends at most
/// three bytes on, and the cycles of the instruction are one of the nine
/// counts. A restart to a vector other than zero is left out: it ends at its
/// vector.
pub proof fn lemma_first_tick<M: Memory>(mem: Seq<u8>, op: u8)
    requires
        mem[0] == op,
        mem[1] == 0,
        mem[2] == 0,
        mem[0x2400] == 0,
        mem[0x2401] == 0,
        match decoded(op) {
            Instruction::Branch(Branch::Rst(restart)) => vector_of(restart) == 0,
            _ => true,
        },
    ensures
        ticked::<M>(reset(mem)).pc <= 3,
        is_cycle_count(ticked::<M>(reset(mem)).wait_cycles + 1),
{
    let s = reset(mem);
    let s1 = s.skip(1);
    let i = decoded(op);
    lemma_moved_wraps(0, 1);
    assert(s.immediate8() == op);
    assert(s1 == State { pending: None, ..s }.skip(1));
    assert(ticked::<M>(s) == dispatched::<M>(s1, op));
    lemma_cycles(i, taken(s1, i));
    lemma_first_instruction::<M>(mem, i);
}

/// Whether `t` holds every register, the condition bits and the program
/// counter as `s` does.
pub open spec fn same_registers(s: State, t: State) -> bool {
    &&& t.a == s.a
    &&& t.b == s.b
    &&& t.c == s.c
    &&& t.d == s.d
    &&& t.e == s.e
    &&& t.h == s.h
    &&& t.l == s.l
    &&& t.sp == s.sp
    &&& t.pc == s.pc
    &&& t.flags == s.flags
}

/// The state after `PUSH rp` and then `POP rp`.
pub open spec fn pushed_and_popped<M: Memory>(s: State, rp: Register16) -> State {
    controlled::<M>(controlled::<M>(s, Control::Push(rp)), Control::Pop(rp))
}

/// Writing a 16-bit register with the value it holds changes nothing.
pub proof fn lemma_rewrite_pair(s: State, rp: Register16)
    ensures
        s.with_pair(rp, s.pair(rp)) == s,
{
    lemma_pair_bytes(s.pair(rp), s.a, s.flags.packed() as u8);
    lemma_pair_bytes(0, s.b, s.c);
    lemma_pair_bytes(0, s.d, s.e);
    lemma_pair_bytes(0, s.h, s.l);
    s.flags.lemma_unpack_pack();
}

/// `PUSH` then `POP` of the same pair, on a stack whose two cells keep what
/// is written to them: the pair comes back whole, the stack pointer is where
/// it was, and for `PSW` the accumulator and all five condition bits are as
/// before. Only the two cells of the stack have changed.
pub proof fn lemma_push_pop<M: Memory>(s: State, rp: Register16)
    requires
        keeps::<M>(moved(s.sp, -1)),
        keeps::<M>(moved(s.sp, -2)),
        apart::<M>(moved(s.sp, -2), moved(s.sp, -1)),
    ensures
        pushed_and_popped::<M>(s, rp).pair(rp) == s.pair(rp),
        same_registers(s, pushed_and_popped::<M>(s, rp)),
        pushed_and_popped::<M>(s, rp) == (State {
            mem: controlled::<M>(s, Control::Push(rp)).mem,
            ..s
        }),
{
    let v = s.pair(rp);
    let p = controlled::<M>(s, Control::Push(rp));
    let high = moved(s.sp, -1);
    let low = moved(s.sp, -2);
    let m1 = M::stored(s.mem, high, high_byte(v));
    let m2 = M::stored(m1, low, low_byte(v));
    assert(p == State { sp: low, mem: m2, ..s });
    lemma_moved_twice(s.sp, -2, 1);
    lemma_moved_twice(s.sp, -2, 2);
    assert(moved(low, 1) == high);
    assert(moved(low, 2) == s.sp);
    assert(m2[low as int] == low_byte(v));
    assert(m2[high as int] == m1[high as int]);
    assert(m1[high as int] == high_byte(v));
    assert(p.top() == v) by {
        lemma_pair_bytes(v, 0, 0);
    }
    let back = State { mem: m2, ..s };
    assert(p.dropped() == back);
    assert(back.pair(rp) == v);
    lemma_rewrite_pair(back, rp);
    assert(pushed_and_popped::<M>(s, rp) == back.with_pair(rp, v));
}

/// On the flat bus `PUSH` then `POP` brings every pair back, wherever the
/// stack is.
pub proof fn lemma_push_pop_flat(s: State, rp: Register16)
    ensures
        pushed_and_popped::<BasicMemory>(s, rp).pair(rp) == s.pair(rp),
        same_registers(s, pushed_and_popped::<BasicMemory>(s, rp)),
{
    lemma_moved_apart(s.sp, -2, -1);
    lemma_flat(moved(s.sp, -1), moved(s.sp, -2));
    lemma_flat(moved(s.sp, -2), moved(s.sp, -1));
    lemma_push_pop::<BasicMemory>(s, rp);
}

/// On the arcade bus `PUSH` then `POP` brings every pair back when the two
/// bytes below the stack pointer lie in RAM.
pub proof fn lemma_push_pop_arcade(s: State, rp: Register16)
    requires
        writable(moved(s.sp, -1) as int),
        writable(moved(s.sp, -2) as int),
    ensures
        pushed_and_popped::<SpaceInvadersMemory>(s, rp).pair(rp) == s.pair(rp),
        same_registers(s, pushed_and_popped::<SpaceInvadersMemory>(s, rp)),
{
    lemma_neighbours_apart(s.sp);
    lemma_mapped(moved(s.sp, -1), moved(s.sp, -2));
    lemma_mapped(moved(s.sp, -2), moved(s.sp, -1));
    lemma_push_pop::<SpaceInvadersMemory>(s, rp);
}

/// A tick that finds an interrupt latched, interrupts enabled and no cycles
/// owed runs the latched opcode in place of a fetch: on a processor that is
/// awake, with interrupts disabled and the latch empty, at the program
/// counter where it stood. Unless the opcode itself enables interrupts or
/// halts, interrupts are disabled and the processor is awake afterwards.
pub proof fn lemma_interrupt<M: Memory>(s: State, op: u8)
    requires
        s.interrupt_enabled,
        s.wait_cycles == 0,
    ensures
        ({
            let latched = State { pending: Some(op), ..s };
            let woken = State { halted: false, interrupt_enabled: false, pending: None, ..s };
            let t = ticked::<M>(latched);
            &&& woken.pc == s.pc
            &&& t == dispatched::<M>(woken, op)
            &&& t.pending is None
            &&& decoded(op) != Instruction::Control(Control::Ei) ==> !t.interrupt_enabled
            &&& decoded(op) != Instruction::Control(Control::Hlt) ==> !t.halted
            &&& !(decoded(op) is Branch) ==> t.pc == moved(s.pc, length(decoded(op)) - 1)
        }),
{
    let latched = State { pending: Some(op), ..s };
    let woken = State { halted: false, interrupt_enabled: false, pending: None, ..s };
    let i = decoded(op);
    assert(latched.pending->0 == op);
    assert(woken == State { halted: false, interrupt_enabled: false, pending: None, ..latched });
    assert(ticked::<M>(latched) == dispatched::<M>(woken, op));
    lemma_run_frame::<M>(woken, i);
    if i == Instruction::Control(Control::Di) {
        assert(!run::<M>(woken, i).interrupt_enabled) by {
            reveal(run);
        }
    }
    if !(i is Branch) {
        lemma_falls_through::<M>(woken, i);
    }
}

/// The restarts are the eight opcodes from `0xC0` up that end in three one
/// bits.
pub proof fn lemma_restart_opcodes(op: u8)
    ensures
        decoded(op) == Instruction::Branch(Branch::Rst(op)) <==> op >= 0xC0 && op % 8 == 7,
        decoded(op) is Branch && decoded(op)->Branch_0 is Rst ==> decoded(op)
            == Instruction::Branch(Branch::Rst(op)),
{
    reveal(decoded);
}

/// A restart that runs as an interrupt pushes the program counter as it
/// stood and jumps to its vector; on a stack whose two cells keep what is
/// written to them, the high byte of the program counter is read back at
/// `SP - 1` and the low byte at `SP - 2`.
pub proof fn lemma_interrupt_restart<M: Memory>(s: State, op: u8)
    requires
        s.interrupt_enabled,
        s.wait_cycles == 0,
        decoded(op) == Instruction::Branch(Branch::Rst(op)),
        keeps::<M>(moved(s.sp, -1)),
        keeps::<M>(moved(s.sp, -2)),
        apart::<M>(moved(s.sp, -2), moved(s.sp, -1)),
    ensures
        ({
            let t = ticked::<M>(State { pending: Some(op), ..s });
            &&& t.pc == vector_of(op)
            &&& t.sp == moved(s.sp, -2)
            &&& t.peek(moved(s.sp, -1)) == high_byte(s.pc)
            &&& t.peek(moved(s.sp, -2)) == low_byte(s.pc)
            &&& !t.interrupt_enabled
            &&& t.wait_cycles == 10
        }),
{
    reveal(run);
    let woken = State { halted: false, interrupt_enabled: false, pending: None, ..s };
    let high = moved(s.sp, -1);
    let low = moved(s.sp, -2);
    let m1 = M::stored(s.mem, high, high_byte(s.pc));
    let m2 = M::stored(m1, low, low_byte(s.pc));
    assert(woken.pushed::<M>(s.pc).mem == m2);
    assert(m2[low as int] == low_byte(s.pc));
    assert(m2[high as int] == m1[high as int]);
}

/// While cycles are owed, a tick pays one and changes nothing else.
pub proof fn lemma_waits<M: Memory>(s: State, n: nat)
    requires
        n <= s.wait_cycles,
    ensures
        ticks::<M>(s, n) == (State { wait_cycles: (s.wait_cycles - n) as nat, ..s }),
    decreases n,
{
    if n > 0 {
        lemma_waits::<M>(s, (n - 1) as nat);
    }
}

/// With an interrupt latched and interrupts enabled, the first tick that
/// finds no cycles owed runs the latched opcode at the program counter where
/// the processor stood.
pub proof fn lemma_interrupt_after_wait<M: Memory>(s: State, op: u8)
    requires
        s.interrupt_enabled,
        s.pending == Some(op),
    ensures
        ticks::<M>(s, s.wait_cycles + 1) == dispatched::<M>(
            State { halted: false, interrupt_enabled: false, pending: None, wait_cycles: 0, ..s },
            op,
        ),
{
    lemma_waits::<M>(s, s.wait_cycles);
    let ready = State { wait_cycles: 0, ..s };
    assert(ticks::<M>(s, s.wait_cycles) == ready);
    assert(ticks::<M>(s, s.wait_cycles + 1) == ticked::<M>(ready));
    assert(ready == State { pending: Some(op), ..ready });
    lemma_interrupt::<M>(ready, op);
}

/// A halted processor that no interrupt can wake stays halted where it is:
/// after any number of ticks the program counter, the registers, the
/// condition bits and what the bus reads are as they were.
pub proof fn lemma_halted<M: Memory>(s: State, n: nat)
    requires
        s.halted,
        s.pending is None || !s.interrupt_enabled,
    ensures
        ({
            let t = ticks::<M>(s, n);
            &&& t.halted
            &&& t.pc == s.pc
            &&& t.sp == s.sp
            &&& t.a == s.a
            &&& t.flags == s.flags
            &&& t.mem == s.mem
            &&& t.interrupt_enabled == s.interrupt_enabled
            &&& t.pending is None || !t.interrupt_enabled
        }),
    decreases n,
{
    if n > 0 {
        lemma_halted::<M>(s, (n - 1) as nat);
    }
}

/// `HLT` halts: once the cycles it owes are paid, the program counter stays
/// behind the `HLT` for as long as no interrupt is latched with interrupts
/// enabled.
pub proof fn lemma_hlt<M: Memory>(s: State, n: nat)
    requires
        s.pending is None || !s.interrupt_enabled,
    ensures
        ticks::<M>(controlled::<M>(s, Control::Hlt), n).pc == s.pc,
        ticks::<M>(controlled::<M>(s, Control::Hlt), n).halted,
{
    lemma_halted::<M>(controlled::<M>(s, Control::Hlt), n);
}

/// An interrupt that is latched while interrupts are enabled wakes a halted
/// processor at its next tick with no cycles owed.
pub proof fn lemma_wakes<M: Memory>(s: State, op: u8)
    requires
        s.halted,
        s.interrupt_enabled,
        s.wait_cycles == 0,
        decoded(op) != Instruction::Control(Control::Hlt),
    ensures
        !ticked::<M>(State { pending: Some(op), ..s }).halted,
{
    lemma_interrupt::<M>(s, op);
}

/// The schedule of a frame: the tick counter runs from 0 to 33,332 and
/// starts again; the mid-screen interrupt is requested before the tick that
/// finds 16,667 ticks run, and at no other; the end-of-frame interrupt is
/// requested behind the last tick of the frame, which is the only one to
/// report the frame done.
pub proof fn lemma_frame_schedule(b: Board, port1: u8, port2: u8)
    requires
        b.tick < TICKS_PER_FRAME,
    ensures
        stepped(b, port1, port2).tick == (b.tick + 1) % (TICKS_PER_FRAME as nat),
        asked(b).frame_done == (b.tick == TICKS_PER_FRAME - 1),
        b.tick == TICKS_TO_MID_SCREEN ==> entered(b).pending == Some(MID_SCREEN),
        b.tick != TICKS_TO_MID_SCREEN ==> entered(b) == b.cpu,
        asked(b).frame_done ==> stepped(b, port1, port2).cpu.pending == Some(END_OF_FRAME),
{
}

/// After a tick of the board the input ports are latched: port 0 reads its
/// constant, ports 1 and 2 the bytes handed in, and port 3 the window of the
/// shift device as the tick left it.
pub proof fn lemma_ports_latched(b: Board, port1: u8, port2: u8)
    requires
        b.cpu.devices.len() == 256,
    ensures
        ({
            let t = stepped(b, port1, port2);
            &&& t.cpu.devices[0] == PORT0
            &&& t.cpu.devices[1] == port1
            &&& t.cpu.devices[2] == port2
            &&& t.cpu.devices[3] == window(t.shift_value, t.shift_offset)
            &&& t.cpu.output is None
        }),
{
    let run = ticked::<SpaceInvadersMemory>(entered(b));
    lemma_tick_keeps_ports::<SpaceInvadersMemory>(entered(b));
}

/// A tick changes no input port latch.
pub proof fn lemma_tick_keeps_ports<M: Memory>(s: State)
    ensures
        ticked::<M>(s).devices == s.devices,
{
    if s.wait_cycles > 0 {
    } else if s.interrupt_enabled && s.pending is Some {
        let woken = State { halted: false, interrupt_enabled: false, pending: None, ..s };
        lemma_run_frame::<M>(woken, decoded(s.pending->0));
    } else if s.halted {
    } else {
        lemma_run_frame::<M>(State { pending: None, ..s }.skip(1), decoded(s.immediate8()));
    }
}

/// What an instruction leaves alone. None changes the interrupt latch or an
/// input port latch; only `EI` and `DI` change whether interrupts are
/// enabled, only `HLT` halts, and only `OUT` publishes a byte.
pub open spec fn framed(s: State, t: State, i: Instruction) -> bool {
    &&& t.pending == s.pending
    &&& t.devices == s.devices
    &&& i != Instruction::Control(Control::Ei) && i != Instruction::Control(Control::Di)
        ==> t.interrupt_enabled == s.interrupt_enabled
    &&& i != Instruction::Control(Control::Hlt) ==> t.halted == s.halted
    &&& i != Instruction::Control(Control::Out) ==> t.output == s.output
}

/// What an instruction that moves data leaves alone.
pub proof fn lemma_transfer_frame<M: Memory>(s: State, i: Transfer)
    ensures
        framed(s, transferred::<M>(s, i), Instruction::Transfer(i)),
{
    match i {
        Transfer::Mov(dst, src) => {
            match dst {
                Operand::Reg(_) => {},
                Operand::Mem => {},
            }
        },
        Transfer::Mvi(o) => {
            match o {
                Operand::Reg(_) => {},
                Operand::Mem => {},
            }
        },
        _ => {},
    }
}

/// Whether `t` has the latches, the flags of the machine and the memory of
/// `s`: all but the registers, the condition bits and the program counter.
pub open spec fn same_surroundings(s: State, t: State) -> bool {
    &&& t.pending == s.pending
    &&& t.devices == s.devices
    &&& t.interrupt_enabled == s.interrupt_enabled
    &&& t.halted == s.halted
    &&& t.output == s.output
    &&& t.wait_cycles == s.wait_cycles
    &&& t.mem == s.mem
}

/// Writing a 16-bit register changes registers and condition bits only.
pub proof fn lemma_with_pair_frame(s: State, rp: Register16, v: u16)
    ensures
        same_surroundings(s, s.with_pair(rp, v)),
{
}

/// An operation on the accumulator changes the accumulator and the
/// condition bits only.
pub proof fn lemma_accumulated_frame(s: State, op: Operation, v: u8)
    ensures
        same_surroundings(s, accumulated(s, op, v)),
        accumulated(s, op, v).pc == s.pc,
{
}

/// What an instruction that computes leaves alone.
pub proof fn lemma_compute_frame<M: Memory>(s: State, i: Compute)
    ensures
        framed(s, computed::<M>(s, i), Instruction::Compute(i)),
{
    match i {
        Compute::Alu(op, o) => {
            lemma_accumulated_frame(s, op, s.operand(o));
        },
        Compute::AluImmediate(op) => {
            lemma_accumulated_frame(s, op, s.immediate8());
        },
        Compute::Inr(o) => {
            match o {
                Operand::Reg(_) => {},
                Operand::Mem => {},
            }
        },
        Compute::Dcr(o) => {
            match o {
                Operand::Reg(_) => {},
                Operand::Mem => {},
            }
        },
        Compute::Inx(rp) => {
            lemma_with_pair_frame(s, rp, moved(s.pair(rp), 1));
        },
        Compute::Dcx(rp) => {
            lemma_with_pair_frame(s, rp, moved(s.pair(rp), -1));
        },
        Compute::Dad(rp) => {
            let wide = s.hl() as int + s.pair(rp) as int;
            lemma_with_pair_frame(s, Register16::HL, (wide % 65536) as u16);
        },
        Compute::Daa => {},
        Compute::Rlc => {},
        Compute::Rrc => {},
        Compute::Ral => {},
        Compute::Rar => {},
        Compute::Cma => {},
        Compute::Cmc => {},
        Compute::Stc => {},
    }
}

/// What an instruction that changes the program counter leaves alone.
pub proof fn lemma_branch_frame<M: Memory>(s: State, i: Branch)
    ensures
        framed(s, branched::<M>(s, i), Instruction::Branch(i)),
{
}

/// What an instruction of the stack, the ports or the machine leaves alone.
pub proof fn lemma_control_frame<M: Memory>(s: State, i: Control)
    ensures
        framed(s, controlled::<M>(s, i), Instruction::Control(i)),
{
}

/// What an instruction leaves alone.
pub proof fn lemma_run_frame<M: Memory>(s: State, i: Instruction)
    ensures
        framed(s, run::<M>(s, i), i),
{
    reveal(run);
    match i {
        Instruction::Transfer(t) => {
            lemma_transfer_frame::<M>(s, t);
        },
        Instruction::Compute(c) => {
            lemma_compute_frame::<M>(s, c);
        },
        Instruction::Branch(b) => {
            lemma_branch_frame::<M>(s, b);
        },
        Instruction::Control(c) => {
            lemma_control_frame::<M>(s, c);
        },
    }
}

} // verus!
