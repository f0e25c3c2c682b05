//! An Intel 8080 processor core with the bus and devices of the Space Invaders
//! arcade board.

pub mod alu;
pub mod arcade;
pub mod conditions;
pub mod cpu;
pub mod instruction;
pub mod memory;
pub mod ports;
pub mod shift_register;
pub mod space_invaders_memory;
pub mod state;
pub mod theorems;
pub mod video;
