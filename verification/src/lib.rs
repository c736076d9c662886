//! A verified CHIP-8 interpreter core: instruction decoding, opcode
//! execution semantics, timer discipline, call-stack discipline and
//! sprite compositing, with rendering, input and tone generation left
//! to collaborators supplied by the embedding program.

pub mod bits;
pub mod fault;
mod host;
pub mod machine;
pub mod opcode;
pub mod step;
pub mod ports;
pub mod state;

pub use bits::{opcode_addr, opcode_byte2, opcode_n1, opcode_nibble4, opcode_regx, opcode_regy};
pub use fault::Fault;
pub use machine::Chip8;
pub use opcode::Opcode;
pub use ports::{Beeper, Display, Input};
pub use state::{MachineView, V0, V1, V2, V3, V4, V5, V6, V7, V8, V9, VA, VB, VC, VD, VE, VF};
