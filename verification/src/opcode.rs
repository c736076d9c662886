//! Decoded operations and the decoding function.
//!
//! Decoding is pure and never fails: a bit pattern that matches no
//! operation decodes to `Nope`, carrying the raw word; the executor
//! treats it as fatal.

use vstd::prelude::*;
use crate::bits::{spec_addr, spec_byte2, spec_n1, spec_nibble4, spec_regx, spec_regy};

verus! {

/// One decoded operation, produced from a 16-bit instruction word.
/// Register operands are indices into the 16-entry register file;
/// address operands are the low 12 bits of the word.
pub enum Opcode {
    /// Invalid opcode, carrying the raw word.
    Nope(u16),
    /// System call: valid, but ignored.
    Sys(u16),
    /// Clear the pixel grid and the visible surface.
    Clr,
    /// Return from a subroutine.
    Ret,
    /// Jump to an address.
    GoTo(u16),
    /// Call a subroutine at an address.
    Call(u16),
    /// Skip the next instruction if a register equals an immediate.
    SkipEq(usize, u8),
    /// Skip the next instruction if a register differs from an immediate.
    SkipNeq(usize, u8),
    /// Skip the next instruction if two registers are equal.
    SkipEqR(usize, usize),
    /// Load an immediate into a register.
    SetR(usize, u8),
    /// Add an immediate to a register, wrapping, flag untouched.
    AddR(usize, u8),
    /// Copy one register into another.
    AssignR(usize, usize),
    /// Bitwise or of two registers.
    OrR(usize, usize),
    /// Bitwise and of two registers.
    AndR(usize, usize),
    /// Bitwise xor of two registers.
    XorR(usize, usize),
    /// Add two registers, wrapping, carry into the flag register.
    AddR2(usize, usize),
    /// Subtract the second register from the first, not-borrow flag.
    SubR(usize, usize),
    /// Right shift via the second register, written to both operands.
    RShiftR(usize, usize),
    /// Subtract the first register from the second, not-borrow flag.
    SubR2(usize, usize),
    /// Left shift via the second register, written to both operands.
    LShiftR(usize, usize),
    /// Skip the next instruction if two registers differ.
    SkipNeqR(usize, usize),
    /// Load an address into the address register.
    Mem(u16),
    /// Jump to an address plus register 0.
    Jmp(u16),
    /// Load a random byte masked by an immediate into a register.
    Rand(usize, u8),
    /// Draw a sprite of the given height at coordinates taken from two
    /// registers.
    Disp(usize, usize, u8),
    /// Skip the next instruction if the key named by a register is down.
    KeyPress(usize),
    /// Skip the next instruction if the key named by a register is up.
    KeyNoPress(usize),
    /// Read the delay timer into a register.
    GetDelay(usize),
    /// Block for a key press into a register.
    WaitKey(usize),
    /// Write a register to the delay timer.
    SetDelay(usize),
    /// Write a register to the sound timer.
    SetSound(usize),
    /// Add a register to the address register, wrapping, carry flag.
    AddM(usize),
    /// Point the address register at the font glyph for a digit.
    Sprite(usize),
    /// Write the decimal digits of a register to memory.
    Bcd(usize),
    /// Dump registers 0 through an index to memory, advancing the
    /// address register.
    DumpR(usize),
    /// Load registers 0 through an index from memory, advancing the
    /// address register.
    LoadR(usize),
}

/// What one instruction word decodes to: the group dispatch over the
/// family nibble and each family's sub-dispatch key.
pub open spec fn spec_decode(code: u16) -> Opcode {
    let family = spec_n1(code);
    let address = spec_addr(code) as u16;
    let regx = spec_regx(code) as usize;
    let regy = spec_regy(code) as usize;
    let nibble4 = spec_nibble4(code) as u8;
    let byte2 = spec_byte2(code) as u8;
    if family == 0 {
        if address == 0x0E0 {
            Opcode::Clr
        } else if address == 0x0EE {
            Opcode::Ret
        } else {
            Opcode::Sys(address)
        }
    } else if family == 1 {
        Opcode::GoTo(address)
    } else if family == 2 {
        Opcode::Call(address)
    } else if family == 3 {
        Opcode::SkipEq(regx, byte2)
    } else if family == 4 {
        Opcode::SkipNeq(regx, byte2)
    } else if family == 5 {
        if nibble4 != 0 {
            Opcode::Nope(code)
        } else {
            Opcode::SkipEqR(regx, regy)
        }
    } else if family == 6 {
        Opcode::SetR(regx, byte2)
    } else if family == 7 {
        Opcode::AddR(regx, byte2)
    } else if family == 8 {
        if nibble4 == 0 {
            Opcode::AssignR(regx, regy)
        } else if nibble4 == 1 {
            Opcode::OrR(regx, regy)
        } else if nibble4 == 2 {
            Opcode::AndR(regx, regy)
        } else if nibble4 == 3 {
            Opcode::XorR(regx, regy)
        } else if nibble4 == 4 {
            Opcode::AddR2(regx, regy)
        } else if nibble4 == 5 {
            Opcode::SubR(regx, regy)
        } else if nibble4 == 6 {
            Opcode::RShiftR(regx, regy)
        } else if nibble4 == 7 {
            Opcode::SubR2(regx, regy)
        } else if nibble4 == 0xE {
            Opcode::LShiftR(regx, regy)
        } else {
            Opcode::Nope(code)
        }
    } else if family == 9 {
        if nibble4 != 0 {
            Opcode::Nope(code)
        } else {
            Opcode::SkipNeqR(regx, regy)
        }
    } else if family == 0xA {
        Opcode::Mem(address)
    } else if family == 0xB {
        Opcode::Jmp(address)
    } else if family == 0xC {
        Opcode::Rand(regx, byte2)
    } else if family == 0xD {
        Opcode::Disp(regx, regy, nibble4)
    } else if family == 0xE {
        if byte2 == 0x9E {
            Opcode::KeyPress(regx)
        } else if byte2 == 0xA1 {
            Opcode::KeyNoPress(regx)
        } else {
            Opcode::Nope(code)
        }
    } else {
        if byte2 == 0x07 {
            Opcode::GetDelay(regx)
        } else if byte2 == 0x0A {
            Opcode::WaitKey(regx)
        } else if byte2 == 0x15 {
            Opcode::SetDelay(regx)
        } else if byte2 == 0x18 {
            Opcode::SetSound(regx)
        } else if byte2 == 0x1E {
            Opcode::AddM(regx)
        } else if byte2 == 0x29 {
            Opcode::Sprite(regx)
        } else if byte2 == 0x33 {
            Opcode::Bcd(regx)
        } else if byte2 == 0x55 {
            Opcode::DumpR(regx)
        } else if byte2 == 0x65 {
            Opcode::LoadR(regx)
        } else {
            Opcode::Nope(code)
        }
    }
}

/// Register operands of a decoded operation are 4-bit nibbles, so they
/// index the register file; addresses are 12 bits; a sprite height is
/// one nibble.
pub open spec fn op_wf(op: Opcode) -> bool {
    match op {
        Opcode::Nope(_) => true,
        Opcode::Sys(a) => a < 0x1000,
        Opcode::Clr => true,
        Opcode::Ret => true,
        Opcode::GoTo(a) => a < 0x1000,
        Opcode::Call(a) => a < 0x1000,
        Opcode::SkipEq(x, _) => x < 16,
        Opcode::SkipNeq(x, _) => x < 16,
        Opcode::SkipEqR(x, y) => x < 16 && y < 16,
        Opcode::SetR(x, _) => x < 16,
        Opcode::AddR(x, _) => x < 16,
        Opcode::AssignR(x, y) => x < 16 && y < 16,
        Opcode::OrR(x, y) => x < 16 && y < 16,
        Opcode::AndR(x, y) => x < 16 && y < 16,
        Opcode::XorR(x, y) => x < 16 && y < 16,
        Opcode::AddR2(x, y) => x < 16 && y < 16,
        Opcode::SubR(x, y) => x < 16 && y < 16,
        Opcode::RShiftR(x, y) => x < 16 && y < 16,
        Opcode::SubR2(x, y) => x < 16 && y < 16,
        Opcode::LShiftR(x, y) => x < 16 && y < 16,
        Opcode::SkipNeqR(x, y) => x < 16 && y < 16,
        Opcode::Mem(a) => a < 0x1000,
        Opcode::Jmp(a) => a < 0x1000,
        Opcode::Rand(x, _) => x < 16,
        Opcode::Disp(x, y, h) => x < 16 && y < 16 && h < 16,
        Opcode::KeyPress(x) => x < 16,
        Opcode::KeyNoPress(x) => x < 16,
        Opcode::GetDelay(x) => x < 16,
        Opcode::WaitKey(x) => x < 16,
        Opcode::SetDelay(x) => x < 16,
        Opcode::SetSound(x) => x < 16,
        Opcode::AddM(x) => x < 16,
        Opcode::Sprite(x) => x < 16,
        Opcode::Bcd(x) => x < 16,
        Opcode::DumpR(x) => x < 16,
        Opcode::LoadR(x) => x < 16,
    }
}

/// Every decoded operation is well formed: bit extraction only ever
/// produces 4-bit register indices and 12-bit addresses.
pub proof fn lemma_decode_wf(code: u16)
    ensures
        op_wf(spec_decode(code)),
{
}

} // verus!
