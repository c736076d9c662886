use chip8::{opcode_addr, opcode_byte2, opcode_n1, opcode_nibble4, opcode_regx, opcode_regy};

#[test]
fn opcode_bits() {
    let code = 0xCABC;
    assert_eq!(0xC, opcode_n1(code));
    assert_eq!(0xABC, opcode_addr(code));
    assert_eq!(0xA, opcode_regx(code));
    assert_eq!(0xB, opcode_regy(code));
    assert_eq!(0b1010, opcode_nibble4(0b1111111110001010));
    assert_eq!(0xBC, opcode_byte2(code));
}
