//! The mathematical model of the machine state.
//!
//! Every contract of the interpreter speaks of this view: the register
//! file, program counter, address register, timers, call stack, memory,
//! pixel grid and halt flag. The timestamp that gates the timers is
//! opaque to the model.

use vstd::prelude::*;

verus! {

/// Start of the loaded program in memory.
pub const PROGRAM_START: u16 = 0x200;

/// Size of the flat address space in bytes.
pub const MEMORY_SIZE: usize = 4096;

/// Largest program image that fits between the program start and the
/// end of memory.
pub const MAX_PROGRAM_SIZE: usize = 3584;

/// Number of cells in the 64x32 pixel grid, row-major.
pub const GRID_SIZE: usize = 2048;

/// Capacity of the call stack.
pub const STACK_CAPACITY: usize = 24;

/// Register name.
pub const V0: usize = 0x0;

/// Register name.
pub const V1: usize = 0x1;

/// Register name.
pub const V2: usize = 0x2;

/// Register name.
pub const V3: usize = 0x3;

/// Register name.
pub const V4: usize = 0x4;

/// Register name.
pub const V5: usize = 0x5;

/// Register name.
pub const V6: usize = 0x6;

/// Register name.
pub const V7: usize = 0x7;

/// Register name.
pub const V8: usize = 0x8;

/// Register name.
pub const V9: usize = 0x9;

/// Register name.
pub const VA: usize = 0xA;

/// Register name.
pub const VB: usize = 0xB;

/// Register name.
pub const VC: usize = 0xC;

/// Register name.
pub const VD: usize = 0xD;

/// Register name.
pub const VE: usize = 0xE;

/// Name of the flag register, overloaded as the carry, borrow and
/// collision output of several operations.
pub const VF: usize = 0xF;

/// The observable machine state.
#[verifier::ext_equal]
pub ghost struct MachineView {
    /// The 16 general-purpose 8-bit registers.
    pub registers: Seq<u8>,
    /// Program counter: offset of the next instruction fetch.
    pub pc: u16,
    /// Address register: indirection base for memory operations.
    pub address_reg: u16,
    /// Delay countdown timer.
    pub delay_timer: u8,
    /// Sound countdown timer.
    pub sound_timer: u8,
    /// Return addresses of the subroutines in progress, oldest first.
    pub stack: Seq<u16>,
    /// The 4096-byte address space.
    pub memory: Seq<u8>,
    /// The 64x32 pixel grid, row-major.
    pub grid: Seq<bool>,
    /// Whether the blocking key wait received no key.
    pub halt: bool,
}

impl MachineView {
    /// Shape of a well-formed state: the fixed array lengths and the
    /// call-stack bound. Established at construction and preserved by
    /// every operation.
    pub open spec fn wf(self) -> bool {
        &&& self.registers.len() == 16
        &&& self.memory.len() == MEMORY_SIZE
        &&& self.grid.len() == GRID_SIZE
        &&& self.stack.len() <= STACK_CAPACITY
    }

    /// The state a machine is constructed in: font table at the bottom
    /// of memory, program counter at the program start, everything else
    /// zeroed, cleared or empty.
    pub open spec fn init() -> MachineView {
        MachineView {
            registers: Seq::new(16nat, |i: int| 0u8),
            pc: PROGRAM_START,
            address_reg: 0,
            delay_timer: 0,
            sound_timer: 0,
            stack: Seq::empty(),
            memory: Seq::new(MEMORY_SIZE as nat, |i: int| font_byte(i)),
            grid: Seq::new(GRID_SIZE as nat, |i: int| false),
            halt: false,
        }
    }
}

/// Memory after a program image is copied in at the program start;
/// everything outside the image is untouched.
pub open spec fn load_program(mem: Seq<u8>, rom: Seq<u8>) -> Seq<u8> {
    Seq::new(
        MEMORY_SIZE as nat,
        |i: int|
            if PROGRAM_START <= i < PROGRAM_START + rom.len() {
                rom[i - PROGRAM_START]
            } else {
                mem[i]
            },
    )
}

/// The byte at offset `i` of fresh memory: the 80-byte font table of
/// 16 five-byte glyph bitmaps for the digits 0 through F, then zeroes.
pub open spec fn font_byte(i: int) -> u8 {
    if 0 <= i < 80 {
        font_table()[i]
    } else {
        0
    }
}

/// The 80-byte font table: five bytes per glyph, in digit order 0
/// through F.
pub open spec fn font_table() -> Seq<u8> {
    seq![
        0xF0u8, 0x90, 0x90, 0x90, 0xF0,
        0x20, 0x60, 0x20, 0x20, 0x70,
        0xF0, 0x10, 0xF0, 0x80, 0xF0,
        0xF0, 0x10, 0xF0, 0x10, 0xF0,
        0x90, 0x90, 0xF0, 0x10, 0x10,
        0xF0, 0x80, 0xF0, 0x10, 0xF0,
        0xF0, 0x80, 0xF0, 0x90, 0xF0,
        0xF0, 0x10, 0x20, 0x40, 0x40,
        0xF0, 0x90, 0xF0, 0x90, 0xF0,
        0xF0, 0x90, 0xF0, 0x10, 0xF0,
        0xF0, 0x90, 0xF0, 0x90, 0x90,
        0xE0, 0x90, 0xE0, 0x90, 0xE0,
        0xF0, 0x80, 0x80, 0x80, 0xF0,
        0xE0, 0x90, 0x90, 0x90, 0xE0,
        0xF0, 0x80, 0xF0, 0x80, 0xF0,
        0xF0, 0x80, 0xF0, 0x80, 0x80,
    ]
}

} // verus!
