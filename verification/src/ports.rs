//! Capabilities the interpreter requires from its environment.
//!
//! The core depends on three collaborators and on nothing else from
//! its surroundings: a renderer, an input source and a tone generator.
//! Concrete implementations are swappable; nothing is assumed of what
//! they do.

use vstd::prelude::*;

verus! {

/// A tone generator. Calls are fire-and-forget; no return value is
/// consulted by the core.
pub trait Beeper {
    /// Start sounding the tone.
    fn beep_on(&mut self);

    /// Stop sounding the tone.
    fn beep_off(&mut self);
}

/// A renderer for the 64x32 monochrome pixel grid.
pub trait Display {
    /// Reset the visible surface.
    fn clear(&mut self);

    /// Render the full frame; a reported failure is fatal to the run.
    fn draw(&mut self, grid: &Vec<bool>) -> Result<(), String>
        requires
            grid@.len() == 2048,
    ;
}

/// A source of key events for the 16-key pad.
pub trait Input {
    /// Block until the next key press and return that key, or `None`
    /// when the environment is shutting down.
    fn block_for(&mut self) -> Option<u8>;

    /// Return whether the given key is currently pressed.
    fn key(&mut self, key: u8) -> bool;
}

} // verus!
