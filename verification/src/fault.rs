//! Fatal conditions of the interpreter.
//!
//! Every fault terminates the run: none is retried or downgraded. Each
//! is surfaced to the caller as a value rather than by aborting the
//! process, so an embedding program can decide how to present it.

use vstd::prelude::*;

verus! {

/// A condition that immediately stops the run.
#[derive(Debug)]
pub enum Fault {
    /// An instruction word matched no operation. Carries the two
    /// instruction bytes and the program counter they were fetched from.
    InvalidInstruction { byte1: u8, byte2: u8, pc: u16 },
    /// Return from a subroutine with an empty call stack.
    StackUnderflow,
    /// Call of a subroutine when the call stack is already at capacity.
    StackOverflow,
    /// A computed memory address fell outside the 4096-byte space.
    MemoryOutOfBounds,
    /// A computed pixel-grid cell fell outside the 2048-cell grid.
    GridOutOfBounds,
    /// A program image too large for the space at offset 512.
    /// Carries the size of the rejected image.
    ProgramTooLarge { size: usize },
    /// The renderer collaborator reported a failure; its message is kept.
    RenderFailure(String),
}

} // verus!
