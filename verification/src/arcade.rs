//! The arcade board: the processor on its bus, the shift device, and the
//! driver that paces them through a video frame.
//!
//! A frame is 33,333 ticks. Before the tick that follows the first 16,667
//! the driver requests the mid-screen interrupt, and behind the last tick the
//! end-of-frame interrupt. After each tick it collects what the processor
//! wrote to a port, hands it to the device behind the port, and latches the
//! input ports anew.

use vstd::prelude::*;
use crate::cpu::Cpu;
use crate::instruction::ticked;
use crate::ports::{risen, rising_edges, PORT0};
use crate::shift_register::{selected, shifted_in, window, ShiftRegister};
use crate::space_invaders_memory::{fresh, SpaceInvadersMemory};
use crate::state::{reset, State};

verus! {

/// The ticks in a frame.
pub const TICKS_PER_FRAME: u32 = 33_333;

/// The ticks that run before the mid-screen interrupt is requested.
pub const TICKS_TO_MID_SCREEN: u32 = 16_667;

/// The opcode of the mid-screen interrupt: `RST 1`.
pub const MID_SCREEN: u8 = 0xCF;

/// The opcode of the end-of-frame interrupt: `RST 2`.
pub const END_OF_FRAME: u8 = 0xD7;

/// The length of a frame in microseconds.
pub const FRAME_MICROS: u64 = 16_667;

/// How long to rest, in microseconds, when the work of a frame has taken
/// `elapsed` microseconds: what is left of the frame, and nothing if the
/// frame is already over.
pub open spec fn rest(elapsed: u64) -> u64 {
    if elapsed < FRAME_MICROS {
        (FRAME_MICROS - elapsed) as u64
    } else {
        0
    }
}

/// How long to rest before the next frame.
pub fn pause_for(elapsed: u64) -> (r: u64)
    ensures
        r == rest(elapsed),
        r <= FRAME_MICROS,
{
    if elapsed < FRAME_MICROS {
        FRAME_MICROS - elapsed
    } else {
        0
    }
}

/// The board.
pub struct Arcade {
    pub cpu: Cpu<SpaceInvadersMemory>,
    pub shifter: ShiftRegister,
    /// The byte last written to sound port 3.
    pub last_port3: u8,
    /// The byte last written to sound port 5.
    pub last_port5: u8,
    /// The ticks that have run in the frame.
    pub tick: u32,
}

/// The board as a mathematical value.
pub struct Board {
    pub cpu: State,
    pub shift_value: u16,
    pub shift_offset: u8,
    pub last_port3: u8,
    pub last_port5: u8,
    pub tick: nat,
}

/// What a tick of the board asks of its surroundings.
#[derive(Clone, Copy, Debug, PartialEq, Eq, Structural)]
pub struct Step {
    /// The samples to start: bits 0 to 4 for the samples of port 3, bits 5
    /// to 9 for those of port 5.
    pub sounds: u16,
    /// Whether the frame is complete, and the picture ready to be shown.
    pub frame_done: bool,
}

/// The board after a byte that the processor wrote to a port has reached the
/// device behind it. Port 2 selects the shift offset, port 4 loads the shift
/// register, ports 3 and 5 are remembered for the sound triggers; a write to
/// any other port is dropped.
pub open spec fn routed(b: Board, output: Option<(u8, u8)>) -> Board {
    match output {
        Some((port, value)) => if port == 2 {
            Board { shift_offset: selected(value), ..b }
        } else if port == 3 {
            Board { last_port3: value, ..b }
        } else if port == 4 {
            Board { shift_value: shifted_in(b.shift_value, value), ..b }
        } else if port == 5 {
            Board { last_port5: value, ..b }
        } else {
            b
        },
        None => b,
    }
}

/// The samples that a write to a port starts: those whose bit has gone from
/// 0 to 1 since the last write to that port.
pub open spec fn sounded(b: Board, output: Option<(u8, u8)>) -> u16 {
    match output {
        Some((port, value)) => if port == 3 {
            risen(b.last_port3, value) as u16
        } else if port == 5 {
            (risen(b.last_port5, value) as int * 32) as u16
        } else {
            0
        },
        None => 0,
    }
}

/// The processor as the board's tick finds it: with the mid-screen interrupt
/// requested if this is the tick to do so.
pub open spec fn entered(b: Board) -> State {
    if b.tick == TICKS_TO_MID_SCREEN {
        State { pending: Some(MID_SCREEN), ..b.cpu }
    } else {
        b.cpu
    }
}

/// Whether the tick that starts from `b` is the last of its frame.
pub open spec fn closes_frame(b: Board) -> bool {
    b.tick + 1 >= TICKS_PER_FRAME
}

/// The board after one tick with the bytes `port1` and `port2` on the
/// players' input ports.
pub open spec fn stepped(b: Board, port1: u8, port2: u8) -> Board {
    let run = ticked::<SpaceInvadersMemory>(entered(b));
    let collected = State { output: None, ..run };
    let wired = routed(Board { cpu: collected, ..b }, run.output);
    let latched = State {
        devices: collected.devices.update(0, PORT0).update(1, port1).update(2, port2).update(
            3,
            window(wired.shift_value, wired.shift_offset),
        ),
        ..collected
    };
    if closes_frame(b) {
        Board { cpu: State { pending: Some(END_OF_FRAME), ..latched }, tick: 0, ..wired }
    } else {
        Board { cpu: latched, tick: b.tick + 1, ..wired }
    }
}

/// What one tick from `b` asks of the surroundings.
pub open spec fn asked(b: Board) -> Step {
    let run = ticked::<SpaceInvadersMemory>(entered(b));
    Step { sounds: sounded(b, run.output), frame_done: closes_frame(b) }
}

impl View for Arcade {
    type V = Board;

    open spec fn view(&self) -> Board {
        Board {
            cpu: self.cpu@,
            shift_value: self.shifter.value(),
            shift_offset: self.shifter.offset(),
            last_port3: self.last_port3,
            last_port5: self.last_port5,
            tick: self.tick as nat,
        }
    }
}

impl Arcade {
    /// A board with `rom` in its ROM, at the start of a frame, after reset.
    pub fn new(rom: [u8; 8192]) -> (r: Self)
        ensures
            r@.cpu == reset(fresh(rom@)),
            r@.shift_value == 0,
            r@.shift_offset == 0,
            r@.last_port3 == 0,
            r@.last_port5 == 0,
            r@.tick == 0,
    {
        let memory = Box::new(SpaceInvadersMemory::new(rom));
        Arcade {
            cpu: Cpu::new(memory),
            shifter: ShiftRegister::new(),
            last_port3: 0,
            last_port5: 0,
            tick: 0,
        }
    }

    /// Hands a byte that the processor wrote to a port to the device behind
    /// it. Returns the samples to start.
    pub fn route(&mut self, output: Option<(u8, u8)>) -> (sounds: u16)
        ensures
            final(self)@ == routed(old(self)@, output),
            sounds == sounded(old(self)@, output),
    {
        match output {
            Some((port, value)) => {
                if port == 2 {
                    self.shifter.set_offset(value);
                    0
                } else if port == 3 {
                    let edges = rising_edges(self.last_port3, value);
                    self.last_port3 = value;
                    edges as u16
                } else if port == 4 {
                    self.shifter.load(value);
                    0
                } else if port == 5 {
                    let edges = rising_edges(self.last_port5, value);
                    self.last_port5 = value;
                    (edges as u16) * 32
                } else {
                    0
                }
            },
            None => 0,
        }
    }

    /// One tick of the board, with the bytes `port1` and `port2` on the
    /// players' input ports.
    pub fn step(&mut self, port1: u8, port2: u8) -> (r: Step)
        ensures
            final(self)@ == stepped(old(self)@, port1, port2),
            r == asked(old(self)@),
    {
        if self.tick == TICKS_TO_MID_SCREEN {
            self.cpu.receive_interrupt(MID_SCREEN);
        }
        self.cpu.tick();
        let output = self.cpu.get_output();
        let sounds = self.route(output);
        self.cpu.set_input(0, PORT0);
        self.cpu.set_input(1, port1);
        self.cpu.set_input(2, port2);
        self.cpu.set_input(3, self.shifter.read());
        let frame_done = self.tick >= TICKS_PER_FRAME - 1;
        if frame_done {
            self.cpu.receive_interrupt(END_OF_FRAME);
            self.tick = 0;
        } else {
            self.tick = self.tick + 1;
        }
        Step { sounds, frame_done }
    }

    /// The video RAM as the processor's bus reads it.
    pub fn vram(&self) -> (vram: [u8; 7168])
        ensures
            forall|i: int| 0 <= i < 7168 ==> vram@[i] == self@.cpu.mem[0x2400 + i],
    {
        self.cpu.get_vram()
    }
}

} // verus!
