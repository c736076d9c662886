use std::cell::RefCell;
use std::rc::Rc;

use chip8::{Beeper, Chip8, Display, Fault, Input, V0, VA, VF};

struct NoopDisplay {}

impl Display for NoopDisplay {
    fn clear(&mut self) {}

    fn draw(&mut self, _: &Vec<bool>) -> Result<(), String> {
        Ok(())
    }
}

struct FailDisplay {}

impl Display for FailDisplay {
    fn clear(&mut self) {}

    fn draw(&mut self, _: &Vec<bool>) -> Result<(), String> {
        Err(String::from("render failed"))
    }
}

struct NoopBeeper {}

impl Beeper for NoopBeeper {
    fn beep_on(&mut self) {}
    fn beep_off(&mut self) {}
}

struct MockInput {
    keys: Rc<RefCell<[bool; 16]>>,
    block_key: u8,
}

impl MockInput {
    fn new() -> Self {
        MockInput {
            keys: Rc::new(RefCell::new([false; 16])),
            block_key: 0x10,
        }
    }

    fn with_block(block_key: u8) -> Self {
        MockInput {
            keys: Rc::new(RefCell::new([false; 16])),
            block_key,
        }
    }
}

impl Input for MockInput {
    fn block_for(&mut self) -> Option<u8> {
        Some(self.block_key)
    }

    fn key(&mut self, key: u8) -> bool {
        self.keys.borrow()[key as usize]
    }
}

/// An input source whose environment is shutting down: the blocking
/// key wait yields no key.
struct ClosedInput {}

impl Input for ClosedInput {
    fn block_for(&mut self) -> Option<u8> {
        None
    }

    fn key(&mut self, _: u8) -> bool {
        false
    }
}

fn machine() -> Chip8<NoopDisplay, MockInput, NoopBeeper> {
    Chip8::new(NoopDisplay {}, MockInput::new(), NoopBeeper {})
}

#[test]
fn bad_rom() {
    let mut c = machine();
    c.load(vec![0xFF, 0xFF]).unwrap();
    let r = c.cycle();
    assert!(matches!(
        r,
        Err(Fault::InvalidInstruction { byte1: 0xFF, byte2: 0xFF, pc: 0x200 })
    ));
}

#[test]
fn goto() {
    let mut c = machine();
    c.load(vec![0x1A, 0xBC]).unwrap();
    c.cycle().unwrap();
    assert_eq!(c.pc(), 0xABC);
}

#[test]
fn call() {
    let mut c = machine();
    c.load(vec![0x2A, 0xBC]).unwrap();
    c.cycle().unwrap();
    assert_eq!(c.pc(), 0xABC);
    assert_eq!(1, c.stack_len());
    assert_eq!(0x202, c.stack_at(0));
}

#[test]
fn ret() {
    let mut c = machine();
    c.load(vec![0x22, 0x04, 0xFF, 0xFF, 0x00, 0xEE]).unwrap();
    // CALL 0x204
    c.cycle().unwrap();
    assert_eq!(c.pc(), 0x204);
    assert_eq!(1, c.stack_len());
    assert_eq!(0x202, c.stack_at(0));

    // RET
    c.cycle().unwrap();
    assert_eq!(0, c.stack_len());
    assert_eq!(c.pc(), 0x202);
}

#[test]
fn skip_eq() {
    let mut c = machine();
    c.set_register(0xA, 0xF0);
    c.load(vec![0x3A, 0xF0]).unwrap();

    // Skip EQ
    c.cycle().unwrap();
    assert_eq!(0x204, c.pc());

    // try, expect no skip
    c.set_pc(0x200);
    c.set_register(0xA, 0x0);
    c.cycle().unwrap();
    assert_eq!(0x202, c.pc());
}

#[test]
fn skip_neq() {
    let mut c = machine();
    c.set_register(0xA, 0xF0);
    c.load(vec![0x4A, 0xF0]).unwrap();

    c.cycle().unwrap();
    assert_eq!(0x202, c.pc());

    c.set_pc(0x202);
    c.set_register(0xA, 0x0);
    c.cycle().unwrap();
    assert_eq!(0x204, c.pc());
}

#[test]
fn skip_neqr() {
    let mut c = machine();
    c.set_register(0xA, 0xF0);
    c.set_register(0xB, 0xF1);
    c.load(vec![0x5A, 0xB0, 0x5A, 0xB0, 0xFF, 0xFF]).unwrap();

    c.cycle().unwrap();
    assert_eq!(0x202, c.pc());

    c.set_register(0xB, 0xF0);
    // Skip EQ
    c.cycle().unwrap();
    assert_eq!(0x206, c.pc());
}

#[test]
fn skip_neqr_panic() {
    let mut c = machine();
    c.set_register(0xA, 0xF0);
    c.set_register(0xB, 0xF1);
    c.load(vec![0x5A, 0xB1]).unwrap();

    let r = c.cycle();
    assert!(matches!(
        r,
        Err(Fault::InvalidInstruction { byte1: 0x5A, byte2: 0xB1, pc: 0x200 })
    ));
}

#[test]
fn set_r() {
    let mut c = machine();
    c.load(vec![0x6F, 0xF0]).unwrap();

    // SET VF to 0xF0
    assert_eq!(0x00, c.register(VF));
    c.cycle().unwrap();
    assert_eq!(0x202, c.pc());
    assert_eq!(0xF0, c.register(VF));
}

#[test]
fn add() {
    let mut c = machine();
    c.set_register(0xA, 0x10);
    c.load(vec![0x7A, 0xFF]).unwrap();

    assert_eq!(0x00, c.register(VF));
    c.cycle().unwrap();
    assert_eq!(0x00, c.register(VF));
    assert_eq!(0xF, c.register(0xA));
}

#[test]
fn copyr() {
    let mut c = machine();
    c.set_register(0xA, 0x10);
    c.load(vec![0x8A, 0xB0]).unwrap();

    assert_eq!(0x10, c.register(0xA));
    assert_eq!(0x00, c.register(0xB));
    c.cycle().unwrap();
    assert_eq!(0x00, c.register(0xA));
    assert_eq!(0x00, c.register(0xB));
}

#[test]
fn or() {
    let mut c = machine();
    c.set_register(0xA, 0x10);
    c.set_register(0xB, 0x01);
    c.load(vec![0x8A, 0xB1]).unwrap();

    assert_eq!(0x10, c.register(0xA));
    assert_eq!(0x01, c.register(0xB));
    c.cycle().unwrap();
    assert_eq!(0x11, c.register(0xA));
    assert_eq!(0x01, c.register(0xB));
}

#[test]
fn and() {
    let mut c = machine();
    c.set_register(0xA, 0x10);
    c.set_register(0xB, 0x01);
    c.load(vec![0x8A, 0xB2]).unwrap();

    assert_eq!(0x10, c.register(0xA));
    assert_eq!(0x01, c.register(0xB));
    c.cycle().unwrap();
    assert_eq!(0x00, c.register(0xA));
    assert_eq!(0x01, c.register(0xB));
}

#[test]
fn xor() {
    let mut c = machine();
    c.set_register(0xA, 0x10);
    c.set_register(0xB, 0x01);
    c.load(vec![0x8A, 0xB3]).unwrap();

    assert_eq!(0x10, c.register(0xA));
    assert_eq!(0x01, c.register(0xB));
    c.cycle().unwrap();
    assert_eq!(0x11, c.register(0xA));
    assert_eq!(0x01, c.register(0xB));
}

#[test]
fn addeq() {
    let mut c = machine();
    c.set_register(0xA, 0xFF);
    c.set_register(0xB, 0x10);
    c.load(vec![0x8A, 0xB4]).unwrap();

    assert_eq!(0x00, c.register(VF));
    c.cycle().unwrap();
    assert_eq!(0x01, c.register(VF));
    assert_eq!(0xF, c.register(0xA));
}

#[test]
fn subeq() {
    let mut c = machine();
    c.set_register(0xA, 0x10);
    c.set_register(0xB, 0xFF);
    c.load(vec![0x8B, 0xA5]).unwrap();

    assert_eq!(0x00, c.register(VF));
    c.cycle().unwrap();
    assert_eq!(0x01, c.register(VF));
    assert_eq!(0x10, c.register(0xA));
}

#[test]
fn rshift() {
    let mut c = machine();
    c.set_register(0xA, 0x10);
    c.set_register(0xB, 0b11);
    c.load(vec![0x8A, 0xB6, 0x8A, 0xB6, 0x8A, 0xB6]).unwrap();

    assert_eq!(0x00, c.register(VF));
    c.cycle().unwrap();
    assert_eq!(0b01, c.register(0xA));
    assert_eq!(0b01, c.register(0xB));
    assert_eq!(0x01, c.register(VF));

    c.cycle().unwrap();
    assert_eq!(0b00, c.register(0xA));
    assert_eq!(0b00, c.register(0xB));
    assert_eq!(0x01, c.register(VF));
    c.cycle().unwrap();
    assert_eq!(0b00, c.register(0xA));
    assert_eq!(0b00, c.register(0xB));
    assert_eq!(0x00, c.register(VF));
}

#[test]
fn subeq2() {
    let mut c = machine();
    c.set_register(0xA, 0x10);
    c.set_register(0xB, 0xFF);
    c.load(vec![0x8B, 0xA7]).unwrap();

    // 0x10 - 0xFF borrows, so the not-borrow flag stays clear
    assert_eq!(0x00, c.register(VF));
    c.cycle().unwrap();
    assert_eq!(0x00, c.register(VF));
    assert_eq!(0x10, c.register(0xA));
    assert_eq!(0x11, c.register(0xB));
}

#[test]
fn subeq2_not_borrow() {
    let mut c = machine();
    c.set_register(0xA, 0xFF);
    c.set_register(0xB, 0x10);
    c.load(vec![0x8B, 0xA7]).unwrap();

    // 0xFF - 0x10 does not borrow: flag set, difference stored
    c.cycle().unwrap();
    assert_eq!(0x01, c.register(VF));
    assert_eq!(0xEF, c.register(0xB));
    assert_eq!(0xFF, c.register(0xA));
}

#[test]
fn lshift() {
    let mut c = machine();
    c.set_register(0xA, 0x10);
    c.set_register(0xB, 0b11000000);
    c.load(vec![0x8A, 0xBE, 0x8A, 0xBE, 0x8A, 0xBE]).unwrap();

    assert_eq!(0x00, c.register(VF));
    c.cycle().unwrap();
    assert_eq!(0b10000000, c.register(0xA));
    assert_eq!(0b10000000, c.register(0xB));
    assert_eq!(0x01, c.register(VF));

    c.cycle().unwrap();
    assert_eq!(0b00000000, c.register(0xA));
    assert_eq!(0b00000000, c.register(0xB));
    assert_eq!(0x01, c.register(VF));
    c.cycle().unwrap();
    assert_eq!(0b00000000, c.register(0xA));
    assert_eq!(0b00000000, c.register(0xB));
    assert_eq!(0x00, c.register(VF));
}

#[test]
fn skip_neqr2() {
    let mut c = machine();
    c.set_register(0xA, 0xFA);
    c.set_register(0xB, 0xFA);
    c.load(vec![0x9A, 0xB0]).unwrap();

    c.cycle().unwrap();
    assert_eq!(0x202, c.pc());

    c.set_pc(0x200);
    c.set_register(0xB, 0xFB);
    c.cycle().unwrap();
    assert_eq!(0x204, c.pc());
}

#[test]
fn skip_neqr2_sub_op() {
    let mut c = machine();
    c.set_register(0xA, 0xFA);
    c.set_register(0xB, 0xFB);
    c.load(vec![0x9A, 0xB1]).unwrap();

    let r = c.cycle();
    assert!(matches!(
        r,
        Err(Fault::InvalidInstruction { byte1: 0x9A, byte2: 0xB1, pc: 0x200 })
    ));
}

#[test]
fn mem() {
    let mut c = machine();
    assert_eq!(0x0, c.address_reg());
    c.load(vec![0xAA, 0xBC]).unwrap();

    c.cycle().unwrap();
    assert_eq!(0xABC, c.address_reg());
    assert_eq!(0x202, c.pc());
}

#[test]
fn jmp() {
    let mut c = machine();
    c.set_register(V0, 0xA0);
    c.load(vec![0xB2, 0x01]).unwrap();

    c.cycle().unwrap();
    assert_eq!(0x2A1, c.pc());
}

#[test]
fn rand() {
    let mut c = machine();
    let mask = rand::random::<u8>();
    c.load(vec![0xCA, mask]).unwrap();

    for _ in 0..1000 {
        c.cycle().unwrap();
        assert!(c.register(0xA) <= mask);
        c.set_pc(0x200);
    }
}

#[test]
fn draw() {
    let mut c = machine();
    for x in 0..0x10 {
        c.set_pc(0x200);
        c.set_register(VF, 0x0);
        c.load(vec![0xDA, 0xB0 + x]).unwrap();
        c.cycle().unwrap();
    }
}

#[test]
fn key_press() {
    let input = MockInput::new();
    let keys = input.keys.clone();
    let mut c = Chip8::new(NoopDisplay {}, input, NoopBeeper {});
    keys.borrow_mut()[VA] = true;
    c.set_register(VA, 0xA);
    c.load(vec![0xEA, 0x9E]).unwrap();

    c.cycle().unwrap();
    assert_eq!(0x204, c.pc());

    keys.borrow_mut()[VA] = false;
    c.set_pc(0x200);
    c.cycle().unwrap();
    assert_eq!(0x202, c.pc());
}

#[test]
fn key_nopress() {
    let input = MockInput::new();
    let keys = input.keys.clone();
    let mut c = Chip8::new(NoopDisplay {}, input, NoopBeeper {});
    keys.borrow_mut()[VA] = true;
    c.set_register(VA, 0xA);
    c.load(vec![0xEA, 0xA1]).unwrap();

    c.cycle().unwrap();
    assert_eq!(0x202, c.pc());

    keys.borrow_mut()[VA] = false;
    c.set_pc(0x200);
    c.cycle().unwrap();
    assert_eq!(0x204, c.pc());
}

#[test]
fn get_delay() {
    let mut c = machine();
    c.set_delay_timer(240);
    c.load(vec![0xFA, 0x07]).unwrap();

    c.cycle().unwrap();
    assert_eq!(240, c.register(0xA));
}

#[test]
fn get_key() {
    let mut c = Chip8::new(NoopDisplay {}, MockInput::with_block(0xA), NoopBeeper {});
    c.load(vec![0xFA, 0x0A]).unwrap();

    c.cycle().unwrap();
    assert_eq!(0xA, c.register(VA))
}

#[test]
fn set_delay() {
    let mut c = machine();
    c.set_register(0xA, 42);
    c.load(vec![0xFA, 0x15]).unwrap();

    c.cycle().unwrap();
    assert_eq!(42, c.delay_timer());
}

#[test]
fn set_sound() {
    let mut c = machine();
    c.set_register(0xA, 42);
    c.load(vec![0xFA, 0x18]).unwrap();

    c.cycle().unwrap();
    assert_eq!(42, c.sound_timer());
}

#[test]
fn addi() {
    let mut c = machine();
    c.set_register(0xA, 42);
    c.set_address_reg(4095);
    c.load(vec![0xFA, 0x1E]).unwrap();

    c.set_register(VF, 1);
    assert_eq!(1, c.register(VF));
    c.cycle().unwrap();
    assert_eq!(0, c.register(VF));
    assert_eq!(4137, c.address_reg());
}

#[test]
fn sprite() {
    let mut c = machine();
    for x in 0x0..0x10 {
        c.set_pc(0x200);
        c.set_register(VA, x);
        c.set_address_reg(2000);
        c.load(vec![0xFA, 0x29]).unwrap();
        c.cycle().unwrap();
        assert_eq!(x as u16 * 5, c.address_reg());

        for n in 0..5 {
            assert_ne!(0, c.memory_at((c.address_reg() + n) as usize));
        }
    }
}

#[test]
fn bcd() {
    let mut c = machine();
    c.set_register(VA, 123);
    c.set_address_reg(2000);
    c.load(vec![0xFA, 0x33]).unwrap();
    c.cycle().unwrap();
    assert_eq!(2000, c.address_reg());

    assert_eq!(1, c.memory_at(2000));
    assert_eq!(2, c.memory_at(2001));
    assert_eq!(3, c.memory_at(2002));
}

#[test]
fn reg_dump() {
    let mut c = machine();
    for rx2 in 0..0xF {
        c.set_register(rx2 as usize, rx2);
    }
    for rx in 0..0xF {
        c.set_pc(0x200);
        c.set_address_reg(2000);
        let start = c.address_reg();
        for i in 0..4096 {
            c.set_memory_at(i, 0);
        }

        c.load(vec![0xF0 + rx, 0x55]).unwrap();
        c.cycle().unwrap();

        for x in 0..rx {
            assert_eq!(x, c.memory_at(start as usize + x as usize));
        }

        for x in (rx + 1)..0xF {
            assert_eq!(0, c.memory_at(start as usize + x as usize));
        }
        assert_eq!(rx as u16 + 1, c.address_reg() - start)
    }
}

#[test]
fn reg_load() {
    let mut c = machine();
    let start: usize = 2000;
    for rx2 in 0..0xF as usize {
        c.set_memory_at(rx2 + start, rx2 as u8);
    }
    for rx in 0..0xF {
        c.set_pc(0x200);
        c.set_address_reg(start as u16);
        for i in 0..16 {
            c.set_register(i, 0);
        }
        c.load(vec![0xF0 + rx, 0x65]).unwrap();
        c.cycle().unwrap();

        for x in 0..rx as usize {
            assert_eq!(x as u8, c.register(x));
        }

        for x in (rx + 1)..0xF {
            assert_eq!(0, c.register(x as usize));
        }

        assert_eq!(rx as u16 + 1, c.address_reg() - start as u16)
    }
}

#[test]
fn rom_load() {
    let mut c = machine();
    c.load(vec![0xFF, 0xFF, 0xFF, 0xFF]).unwrap();
    for i in 0x200..0x204 {
        assert_eq!(0xFF, c.memory_at(i));
    }
    for i in 0x204..(0xFFF + 1) {
        assert_eq!(0, c.memory_at(i));
    }
}

#[test]
fn rom_too_large() {
    let mut c = machine();
    let r = c.load(vec![0; 3585]);
    assert!(matches!(r, Err(Fault::ProgramTooLarge { size: 3585 })));
    // nothing was copied in
    for i in 0x200..0x1000 {
        assert_eq!(0, c.memory_at(i));
    }
    // the largest image that fits is still accepted
    assert!(c.load(vec![1; 3584]).is_ok());
    assert_eq!(1, c.memory_at(0xFFF));
}

#[test]
fn ret_underflow() {
    let mut c = machine();
    c.load(vec![0x00, 0xEE]).unwrap();
    let r = c.cycle();
    assert!(matches!(r, Err(Fault::StackUnderflow)));
}

#[test]
fn call_overflow() {
    let mut c = machine();
    // CALL 0x200 forever: each cycle pushes one return address
    c.load(vec![0x22, 0x00]).unwrap();
    for _ in 0..24 {
        c.cycle().unwrap();
    }
    assert_eq!(24, c.stack_len());
    let r = c.cycle();
    assert!(matches!(r, Err(Fault::StackOverflow)));
    assert_eq!(24, c.stack_len());
}

#[test]
fn sys_noop() {
    let mut c = machine();
    c.load(vec![0x01, 0x23]).unwrap();
    c.cycle().unwrap();
    assert_eq!(0x202, c.pc());
}

#[test]
fn bcd_out_of_bounds() {
    let mut c = machine();
    c.set_register(VA, 123);
    c.set_address_reg(4094);
    c.load(vec![0xFA, 0x33]).unwrap();
    let r = c.cycle();
    assert!(matches!(r, Err(Fault::MemoryOutOfBounds)));
    // nothing was written
    assert_eq!(0, c.memory_at(4094));
    assert_eq!(0, c.memory_at(4095));
}

#[test]
fn fetch_out_of_bounds() {
    let mut c = machine();
    c.set_pc(4095);
    let r = c.cycle();
    assert!(matches!(r, Err(Fault::MemoryOutOfBounds)));
}

#[test]
fn draw_out_of_grid() {
    let mut c = machine();
    // glyph rows at the bottom edge: the second row lands below the grid
    c.set_register(VA, 0);
    c.set_register(0xB, 31);
    c.set_address_reg(0);
    c.load(vec![0xDA, 0xB2]).unwrap();
    let r = c.cycle();
    assert!(matches!(r, Err(Fault::GridOutOfBounds)));
    // the row that would have fit was not drawn either
    for i in 0..2048 {
        assert!(!c.grid_at(i));
    }
}

#[test]
fn draw_pattern_and_collision() {
    let mut c = machine();
    // draw the glyph for digit 0 (five rows starting at offset 0) at (0, 0)
    c.set_address_reg(0);
    c.load(vec![0xDA, 0xB5]).unwrap();
    c.cycle().unwrap();
    // top row of the glyph is 0xF0: four set cells, then four clear
    for col in 0..4 {
        assert!(c.grid_at(col));
    }
    for col in 4..8 {
        assert!(!c.grid_at(col));
    }
    // second row is 0x90: cells 64 and 67 set, 65 and 66 clear
    assert!(c.grid_at(64));
    assert!(!c.grid_at(65));
    assert!(!c.grid_at(66));
    assert!(c.grid_at(67));
    assert_eq!(0, c.register(VF));

    // drawing the same glyph again erases it and reports a collision
    c.set_pc(0x200);
    c.cycle().unwrap();
    for i in 0..2048 {
        assert!(!c.grid_at(i));
    }
    assert_eq!(1, c.register(VF));
}

#[test]
fn clear_screen() {
    let mut c = machine();
    c.set_address_reg(0);
    c.load(vec![0xDA, 0xB5, 0x00, 0xE0]).unwrap();
    c.cycle().unwrap();
    assert!(c.grid_at(0));
    c.cycle().unwrap();
    for i in 0..2048 {
        assert!(!c.grid_at(i));
    }
}

#[test]
fn render_failure() {
    let mut c = Chip8::new(FailDisplay {}, MockInput::new(), NoopBeeper {});
    c.set_address_reg(0);
    c.load(vec![0xDA, 0xB5]).unwrap();
    let r = c.cycle();
    match r {
        Err(Fault::RenderFailure(msg)) => assert_eq!("render failed", msg),
        _ => panic!("expected a render failure"),
    }
    // the draw itself completed before the renderer failed
    assert!(c.grid_at(0));
}

#[test]
fn wait_key_halts_on_shutdown() {
    let mut c = Chip8::new(NoopDisplay {}, ClosedInput {}, NoopBeeper {});
    c.load(vec![0xFA, 0x0A]).unwrap();
    let cont = c.cycle().unwrap();
    assert!(!cont);
    assert!(c.halted());
    assert_eq!(0, c.register(VA));
}
