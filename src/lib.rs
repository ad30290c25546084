//! A CHIP-8 virtual machine whose instruction semantics are verified against
//! an abstract machine model.
//!
//! `semantics` states what every instruction does to the machine state;
//! `Chip8` executes instructions and is proved to follow it. `schedule`
//! holds the pacing of instruction execution and timer decay, and `laws` the
//! properties that relate several operations.

pub mod decode;
pub mod fault;
pub mod font;
pub mod laws;
pub mod machine;
pub mod opcodes;
mod rng;
pub mod schedule;
pub mod semantics;

pub use decode::{decode, Instruction};
pub use fault::Fault;
pub use machine::{init, Chip8};
pub use opcodes::InstructionSet;
pub use schedule::{Pacer, Scheduler};
pub use semantics::{Quirks, HEIGHT, WIDTH};
