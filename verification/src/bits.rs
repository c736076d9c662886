//! Bit-field extraction from a 16-bit instruction word.
//!
//! An instruction word is big-endian: the high byte holds the family
//! nibble and the second register nibble, the low byte the rest.

use vstd::prelude::*;

verus! {

/// Family nibble: bits 15-12 of the word.
pub open spec fn spec_n1(code: u16) -> int {
    code as int / 0x1000
}

/// Address field: bits 11-0 of the word.
pub open spec fn spec_addr(code: u16) -> int {
    code as int % 0x1000
}

/// Second nibble: bits 11-8 of the word.
pub open spec fn spec_regx(code: u16) -> int {
    (code as int / 0x100) % 0x10
}

/// Third nibble: bits 7-4 of the word.
pub open spec fn spec_regy(code: u16) -> int {
    (code as int / 0x10) % 0x10
}

/// Fourth nibble: bits 3-0 of the word.
pub open spec fn spec_nibble4(code: u16) -> int {
    code as int % 0x10
}

/// Second byte: bits 7-0 of the word.
pub open spec fn spec_byte2(code: u16) -> int {
    code as int % 0x100
}

/// Return the most significant nibble.
pub fn opcode_n1(code: u16) -> (r: u8)
    ensures
        r as int == spec_n1(code),
        r < 0x10,
{
    (code / 0x1000) as u8
}

/// Return the least significant 12 bits.
pub fn opcode_addr(code: u16) -> (r: u16)
    ensures
        r as int == spec_addr(code),
        r < 0x1000,
{
    code % 0x1000
}

/// Return the second nibble.
pub fn opcode_regx(code: u16) -> (r: usize)
    ensures
        r as int == spec_regx(code),
        r < 0x10,
{
    ((code / 0x100) % 0x10) as usize
}

/// Return the third nibble.
pub fn opcode_regy(code: u16) -> (r: usize)
    ensures
        r as int == spec_regy(code),
        r < 0x10,
{
    ((code / 0x10) % 0x10) as usize
}

/// Return the fourth nibble.
pub fn opcode_nibble4(code: u16) -> (r: u8)
    ensures
        r as int == spec_nibble4(code),
        r < 0x10,
{
    (code % 0x10) as u8
}

/// Return the second byte.
pub fn opcode_byte2(code: u16) -> (r: u8)
    ensures
        r as int == spec_byte2(code),
{
    (code % 0x100) as u8
}

} // verus!
