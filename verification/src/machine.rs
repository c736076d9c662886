//! The machine: construction, program loading and the cycle driver,
//! with the decoder and executor behind it.

use vstd::prelude::*;
use std::time::Instant;
use crate::fault::Fault;
use crate::host::{instant_now, millis_between, random_byte};
use crate::opcode::{lemma_decode_wf, op_wf, spec_decode, Opcode};
use crate::ports::{Beeper, Display, Input};
use crate::state::{
    load_program, MachineView, VF, GRID_SIZE, MAX_PROGRAM_SIZE, MEMORY_SIZE, PROGRAM_START,
    STACK_CAPACITY,
};
use crate::step::{
    cell_index, col_weight, collision_before, cycle_rel, draw_grid, draw_post, draw_reads_ok,
    draw_writes_ok, dump_memory, dump_post, fetch_ok, fetch_word, lemma_collision_before_row,
    lemma_collision_before_step, lemma_collision_complete, lemma_hits_before_row,
    lemma_hits_before_step_set, lemma_hits_before_step_unset, lemma_hits_complete,
    lemma_no_prior_hit, load_post, load_registers, reg, sprite_bit, sprite_hits,
    sprite_hits_before, step_rel, tick_spec, upd_reg, with_pc,
};
use crate::bits::{opcode_addr, opcode_byte2, opcode_n1, opcode_nibble4, opcode_regx, opcode_regy};

verus! {

/// The interpreter, generic over its three collaborators.
pub struct Chip8<D: Display, I: Input, B: Beeper> {
    /// The 16 general-purpose registers.
    register: Vec<u8>,
    /// Program counter; starts at the program start offset.
    pc: u16,
    /// Address register, the indirection base for memory operations.
    address_reg: u16,
    /// Delay countdown timer.
    delay_timer: u8,
    /// Sound countdown timer.
    sound_timer: u8,
    /// Return addresses of subroutines in progress, bounded capacity.
    stack: Vec<u16>,
    /// The flat 4096-byte address space.
    memory: Vec<u8>,
    /// The tone generator collaborator.
    beep: B,
    /// The renderer collaborator.
    display: D,
    /// The 64x32 pixel grid, row-major.
    grid: Vec<bool>,
    /// The input collaborator.
    input: I,
    /// Timestamp of the most recent timer-decrement check.
    time: Instant,
    /// Set when the blocking key wait received no key.
    halt: bool,
}

impl<D: Display, I: Input, B: Beeper> View for Chip8<D, I, B> {
    type V = MachineView;

    closed spec fn view(&self) -> MachineView {
        MachineView {
            registers: self.register@,
            pc: self.pc,
            address_reg: self.address_reg,
            delay_timer: self.delay_timer,
            sound_timer: self.sound_timer,
            stack: self.stack@,
            memory: self.memory@,
            grid: self.grid@,
            halt: self.halt,
        }
    }
}

impl<D: Display, I: Input, B: Beeper> Chip8<D, I, B> {
    /// A fresh machine: font table copied into the bottom of memory,
    /// program counter at the program start, everything else zeroed.
    pub fn new(display: D, input: I, beeper: B) -> (c: Self)
        ensures
            c@ == MachineView::init(),
            c@.wf(),
    {
        let fonts: Vec<u8> = vec![
            0xF0, 0x90, 0x90, 0x90, 0xF0,
            0x20, 0x60, 0x20, 0x20, 0x70,
            0xF0, 0x10, 0xF0, 0x80, 0xF0,
            0xF0, 0x10, 0xF0, 0x10, 0xF0,
            0x90, 0x90, 0xF0, 0x10, 0x10,
            0xF0, 0x80, 0xF0, 0x10, 0xF0,
            0xF0, 0x80, 0xF0, 0x90, 0xF0,
            0xF0, 0x10, 0x20, 0x40, 0x40,
            0xF0, 0x90, 0xF0, 0x90, 0xF0,
            0xF0, 0x90, 0xF0, 0x10, 0xF0,
            0xF0, 0x90, 0xF0, 0x90, 0x90,
            0xE0, 0x90, 0xE0, 0x90, 0xE0,
            0xF0, 0x80, 0x80, 0x80, 0xF0,
            0xE0, 0x90, 0x90, 0x90, 0xE0,
            0xF0, 0x80, 0xF0, 0x80, 0xF0,
            0xF0, 0x80, 0xF0, 0x80, 0x80,
        ];
        proof {
            assert(fonts@ =~= crate::state::font_table());
        }
        let mut memory: Vec<u8> = fonts;
        while memory.len() < MEMORY_SIZE
            invariant
                80 <= memory@.len() <= MEMORY_SIZE,
                forall|j: int| 0 <= j < memory@.len() ==> memory@[j] == crate::state::font_byte(j),
            decreases MEMORY_SIZE - memory@.len(),
        {
            memory.push(0);
        }
        let mut register: Vec<u8> = Vec::new();
        while register.len() < 16
            invariant
                register@.len() <= 16,
                forall|j: int| 0 <= j < register@.len() ==> register@[j] == 0u8,
            decreases 16 - register@.len(),
        {
            register.push(0);
        }
        let mut grid: Vec<bool> = Vec::new();
        while grid.len() < GRID_SIZE
            invariant
                grid@.len() <= GRID_SIZE,
                forall|j: int| 0 <= j < grid@.len() ==> grid@[j] == false,
            decreases GRID_SIZE - grid@.len(),
        {
            grid.push(false);
        }
        let c = Chip8 {
            register,
            pc: PROGRAM_START,
            address_reg: 0,
            delay_timer: 0,
            sound_timer: 0,
            stack: Vec::new(),
            memory,
            beep: beeper,
            display,
            grid,
            input,
            time: instant_now(),
            halt: false,
        };
        proof {
            assert(c@.registers =~= MachineView::init().registers);
            assert(c@.memory =~= MachineView::init().memory);
            assert(c@.grid =~= MachineView::init().grid);
            assert(c@.stack =~= MachineView::init().stack);
            assert(c@ =~= MachineView::init());
        }
        c
    }

    /// Copy a program image into memory at the program start. An image
    /// larger than the available space is rejected before any cycle
    /// executes, and the machine is left untouched.
    pub fn load(&mut self, rom: Vec<u8>) -> (r: Result<(), Fault>)
        requires
            old(self)@.wf(),
        ensures
            final(self)@.wf(),
            rom@.len() > MAX_PROGRAM_SIZE ==> r == Err::<(), Fault>(
                Fault::ProgramTooLarge { size: rom@.len() as usize },
            ) && final(self)@ == old(self)@,
            rom@.len() <= MAX_PROGRAM_SIZE ==> r == Ok::<(), Fault>(()) && final(self)@
                == (MachineView { memory: load_program(old(self)@.memory, rom@), ..old(self)@ }),
    {
        if rom.len() > MAX_PROGRAM_SIZE {
            return Err(Fault::ProgramTooLarge { size: rom.len() });
        }
        let mut i: usize = 0;
        while i < rom.len()
            invariant
                old(self)@.wf(),
                rom@.len() <= MAX_PROGRAM_SIZE,
                i <= rom@.len(),
                self@ == (MachineView { memory: self@.memory, ..old(self)@ }),
                self@.memory.len() == MEMORY_SIZE,
                forall|j: int|
                    PROGRAM_START <= j < PROGRAM_START + i ==> self@.memory[j] == rom@[j
                        - PROGRAM_START],
                forall|j: int|
                    0 <= j < MEMORY_SIZE && !(PROGRAM_START <= j < PROGRAM_START + i)
                        ==> self@.memory[j] == old(self)@.memory[j],
            decreases rom@.len() - i,
        {
            self.memory[i + PROGRAM_START as usize] = rom[i];
            i += 1;
        }
        proof {
            assert(self@.memory =~= load_program(old(self)@.memory, rom@));
            assert(self@ =~= (MachineView {
                memory: load_program(old(self)@.memory, rom@),
                ..old(self)@
            }));
        }
        Ok(())
    }

    /// The program counter.
    pub fn pc(&self) -> (r: u16)
        ensures
            r == self@.pc,
    {
        self.pc
    }

    /// Overwrite the program counter.
    pub fn set_pc(&mut self, pc: u16)
        ensures
            final(self)@ == (MachineView { pc, ..old(self)@ }),
    {
        self.pc = pc;
    }

    /// Register `i` of the register file.
    pub fn register(&self, i: usize) -> (r: u8)
        requires
            self@.wf(),
            i < 16,
        ensures
            r == self@.registers[i as int],
    {
        self.register[i]
    }

    /// Overwrite register `i` of the register file.
    pub fn set_register(&mut self, i: usize, v: u8)
        requires
            old(self)@.wf(),
            i < 16,
        ensures
            final(self)@ == (MachineView {
                registers: old(self)@.registers.update(i as int, v),
                ..old(self)@
            }),
    {
        self.register[i] = v;
    }

    /// The address register.
    pub fn address_reg(&self) -> (r: u16)
        ensures
            r == self@.address_reg,
    {
        self.address_reg
    }

    /// Overwrite the address register.
    pub fn set_address_reg(&mut self, address_reg: u16)
        ensures
            final(self)@ == (MachineView { address_reg, ..old(self)@ }),
    {
        self.address_reg = address_reg;
    }

    /// The delay timer.
    pub fn delay_timer(&self) -> (r: u8)
        ensures
            r == self@.delay_timer,
    {
        self.delay_timer
    }

    /// Overwrite the delay timer.
    pub fn set_delay_timer(&mut self, delay_timer: u8)
        ensures
            final(self)@ == (MachineView { delay_timer, ..old(self)@ }),
    {
        self.delay_timer = delay_timer;
    }

    /// The sound timer.
    pub fn sound_timer(&self) -> (r: u8)
        ensures
            r == self@.sound_timer,
    {
        self.sound_timer
    }

    /// Overwrite the sound timer.
    pub fn set_sound_timer(&mut self, sound_timer: u8)
        ensures
            final(self)@ == (MachineView { sound_timer, ..old(self)@ }),
    {
        self.sound_timer = sound_timer;
    }

    /// Depth of the call stack.
    pub fn stack_len(&self) -> (r: usize)
        ensures
            r == self@.stack.len(),
    {
        self.stack.len()
    }

    /// Return address at position `i` of the call stack, oldest first.
    pub fn stack_at(&self, i: usize) -> (r: u16)
        requires
            i < self@.stack.len(),
        ensures
            r == self@.stack[i as int],
    {
        self.stack[i]
    }

    /// The byte at memory offset `i`.
    pub fn memory_at(&self, i: usize) -> (r: u8)
        requires
            self@.wf(),
            i < MEMORY_SIZE,
        ensures
            r == self@.memory[i as int],
    {
        self.memory[i]
    }

    /// Overwrite the byte at memory offset `i`.
    pub fn set_memory_at(&mut self, i: usize, v: u8)
        requires
            old(self)@.wf(),
            i < MEMORY_SIZE,
        ensures
            final(self)@ == (MachineView {
                memory: old(self)@.memory.update(i as int, v),
                ..old(self)@
            }),
    {
        self.memory[i] = v;
    }

    /// The pixel-grid cell at row-major index `i`.
    pub fn grid_at(&self, i: usize) -> (r: bool)
        requires
            self@.wf(),
            i < GRID_SIZE,
        ensures
            r == self@.grid[i as int],
    {
        self.grid[i]
    }

    /// Whether the machine has halted.
    pub fn halted(&self) -> (r: bool)
        ensures
            r == self@.halt,
    {
        self.halt
    }

    /// Clear every grid cell and reset the visible surface.
    fn exec_clr(&mut self) -> (r: Result<(), Fault>)
        requires
            old(self)@.wf(),
        ensures
            final(self)@.wf(),
            step_rel(old(self)@, Opcode::Clr, final(self)@, r),
    {
        let ghost pre = old(self)@;
        let mut i: usize = 0;
        while i < GRID_SIZE
            invariant
                pre.wf(),
                i <= GRID_SIZE,
                self@ == (MachineView { grid: self@.grid, ..pre }),
                self@.grid.len() == GRID_SIZE,
                forall|j: int| 0 <= j < i ==> self@.grid[j] == false,
                forall|j: int| i <= j < GRID_SIZE ==> self@.grid[j] == pre.grid[j],
            decreases GRID_SIZE - i,
        {
            self.grid[i] = false;
            i += 1;
        }
        proof {
            assert(self@.grid =~= Seq::new(GRID_SIZE as nat, |j: int| false));
            assert(self@ =~= (MachineView {
                grid: Seq::new(GRID_SIZE as nat, |j: int| false),
                ..pre
            }));
        }
        self.display.clear();
        Ok(())
    }

    /// Dump registers 0 through `x` to memory at the address register,
    /// then advance the address register by the count.
    fn exec_dump(&mut self, x: usize) -> (r: Result<(), Fault>)
        requires
            old(self)@.wf(),
            x < 16,
        ensures
            final(self)@.wf(),
            step_rel(old(self)@, Opcode::DumpR(x), final(self)@, r),
    {
        let ghost pre = old(self)@;
        let addr = self.address_reg as usize;
        if addr + x >= MEMORY_SIZE {
            return Err(Fault::MemoryOutOfBounds);
        }
        let mut i: usize = 0;
        while i <= x
            invariant
                pre.wf(),
                x < 16,
                i <= x + 1,
                addr == pre.address_reg as usize,
                addr + x < MEMORY_SIZE,
                self@ == (MachineView { memory: self@.memory, ..pre }),
                self@.memory.len() == MEMORY_SIZE,
                forall|j: int| addr <= j < addr + i ==> self@.memory[j] == pre.registers[j - addr],
                forall|j: int|
                    0 <= j < MEMORY_SIZE && !(addr <= j < addr + i) ==> self@.memory[j]
                        == pre.memory[j],
            decreases x + 1 - i,
        {
            let v = self.register[i];
            self.memory[addr + i] = v;
            i += 1;
        }
        self.address_reg = self.address_reg + (x as u16) + 1;
        proof {
            assert(self@.memory =~= dump_memory(pre, x));
            assert(self@ =~= dump_post(pre, x));
        }
        Ok(())
    }

    /// Load registers 0 through `x` from memory at the address
    /// register, then advance the address register by the count.
    fn exec_load(&mut self, x: usize) -> (r: Result<(), Fault>)
        requires
            old(self)@.wf(),
            x < 16,
        ensures
            final(self)@.wf(),
            step_rel(old(self)@, Opcode::LoadR(x), final(self)@, r),
    {
        let ghost pre = old(self)@;
        let addr = self.address_reg as usize;
        if addr + x >= MEMORY_SIZE {
            return Err(Fault::MemoryOutOfBounds);
        }
        let mut i: usize = 0;
        while i <= x
            invariant
                pre.wf(),
                x < 16,
                i <= x + 1,
                addr == pre.address_reg as usize,
                addr + x < MEMORY_SIZE,
                self@ == (MachineView { registers: self@.registers, ..pre }),
                self@.registers.len() == 16,
                forall|j: int| 0 <= j < i ==> self@.registers[j] == pre.memory[addr + j],
                forall|j: int| i <= j < 16 ==> self@.registers[j] == pre.registers[j],
            decreases x + 1 - i,
        {
            let v = self.memory[addr + i];
            self.register[i] = v;
            i += 1;
        }
        self.address_reg = self.address_reg + (x as u16) + 1;
        proof {
            assert(self@.registers =~= load_registers(pre, x));
            assert(self@ =~= load_post(pre, x));
        }
        Ok(())
    }

    /// Draw a sprite of `h` rows at the coordinates held in registers
    /// `x` and `y`: XOR-composite each set bit into the grid, record a
    /// collision in the flag register, then hand the full grid to the
    /// renderer. An out-of-range memory read or grid write is fatal
    /// and leaves the state untouched.
    fn exec_disp(&mut self, x: usize, y: usize, h: u8) -> (r: Result<(), Fault>)
        requires
            old(self)@.wf(),
            x < 16,
            y < 16,
            h < 16,
        ensures
            final(self)@.wf(),
            step_rel(old(self)@, Opcode::Disp(x, y, h), final(self)@, r),
    {
        let ghost pre = old(self)@;
        let x0 = self.register[x];
        let y0 = self.register[y];
        let addr = self.address_reg as usize;
        if h > 0 && addr + (h as usize) > MEMORY_SIZE {
            proof {
                assert(!draw_reads_ok(pre.address_reg, h));
            }
            return Err(Fault::MemoryOutOfBounds);
        }
        // First pass: check that every set sprite bit lands inside the
        // grid, touching nothing.
        let mut row: usize = 0;
        while row < h as usize
            invariant
                pre.wf(),
                h < 16,
                row <= h as usize,
                x0 == reg(pre, x),
                y0 == reg(pre, y),
                addr == pre.address_reg as usize,
                draw_reads_ok(pre.address_reg, h),
                self@ == pre,
                forall|r2: int, c: int|
                    0 <= r2 < row && 0 <= c < 8 && sprite_bit(
                        pre.memory[pre.address_reg + r2],
                        c,
                    ) ==> cell_index(x0, y0, r2, c) < GRID_SIZE,
            decreases h as usize - row,
        {
            let b = self.memory[addr + row];
            let mut col: usize = 0;
            while col < 8
                invariant
                    pre.wf(),
                    h < 16,
                    col <= 8,
                    row < h as usize,
                    x0 == reg(pre, x),
                    y0 == reg(pre, y),
                    addr == pre.address_reg as usize,
                    draw_reads_ok(pre.address_reg, h),
                    self@ == pre,
                    b == pre.memory[pre.address_reg + row],
                    forall|r2: int, c: int|
                        0 <= r2 < row && 0 <= c < 8 && sprite_bit(
                            pre.memory[pre.address_reg + r2],
                            c,
                        ) ==> cell_index(x0, y0, r2, c) < GRID_SIZE,
                    forall|c: int|
                        0 <= c < col && sprite_bit(b, c) ==> cell_index(x0, y0, row as int, c)
                            < GRID_SIZE,
                decreases 8 - col,
            {
                let w = col_mask(col);
                if (b / w) % 2 == 1 {
                    let gi = (y0 as usize + row) * 64 + (x0 as usize + col);
                    if gi >= GRID_SIZE {
                        proof {
                            assert(sprite_bit(pre.memory[pre.address_reg + row as int], col as int));
                            assert(cell_index(x0, y0, row as int, col as int) >= GRID_SIZE);
                            assert(!draw_writes_ok(pre, x0, y0, h));
                        }
                        return Err(Fault::GridOutOfBounds);
                    }
                }
                col += 1;
            }
            row += 1;
        }
        proof {
            assert(draw_writes_ok(pre, x0, y0, h));
        }
        // Second pass: composite the sprite and record collisions.
        let mut vf: u8 = 0;
        let mut row: usize = 0;
        while row < h as usize
            invariant
                pre.wf(),
                x < 16,
                y < 16,
                h < 16,
                row <= h as usize,
                x0 == reg(pre, x),
                y0 == reg(pre, y),
                addr == pre.address_reg as usize,
                draw_reads_ok(pre.address_reg, h),
                draw_writes_ok(pre, x0, y0, h),
                self@ == (MachineView { grid: self@.grid, ..pre }),
                self@.grid.len() == GRID_SIZE,
                forall|i: int|
                    0 <= i < GRID_SIZE ==> self@.grid[i] == (pre.grid[i] != sprite_hits_before(
                        pre,
                        x0,
                        y0,
                        row as int,
                        0,
                        i,
                    )),
                vf == 0 || vf == 1,
                (vf == 1) == collision_before(pre, x0, y0, row as int, 0),
            decreases h as usize - row,
        {
            let b = self.memory[addr + row];
            let mut col: usize = 0;
            while col < 8
                invariant
                    pre.wf(),
                    h < 16,
                    col <= 8,
                    row < h as usize,
                    x0 == reg(pre, x),
                    y0 == reg(pre, y),
                    addr == pre.address_reg as usize,
                    draw_reads_ok(pre.address_reg, h),
                    draw_writes_ok(pre, x0, y0, h),
                    b == pre.memory[pre.address_reg + row],
                    self@ == (MachineView { grid: self@.grid, ..pre }),
                    self@.grid.len() == GRID_SIZE,
                    forall|i: int|
                        0 <= i < GRID_SIZE ==> self@.grid[i] == (pre.grid[i]
                            != sprite_hits_before(pre, x0, y0, row as int, col as int, i)),
                    vf == 0 || vf == 1,
                    (vf == 1) == collision_before(pre, x0, y0, row as int, col as int),
                decreases 8 - col,
            {
                let w = col_mask(col);
                if (b / w) % 2 == 1 {
                    let gi = (y0 as usize + row) * 64 + (x0 as usize + col);
                    proof {
                        assert(sprite_bit(pre.memory[pre.address_reg + row as int], col as int));
                        assert(cell_index(x0, y0, row as int, col as int) == gi);
                        assert(gi < GRID_SIZE);
                    }
                    let cur = self.grid[gi];
                    if cur {
                        vf = 1;
                    }
                    self.grid[gi] = !cur;
                    proof {
                        lemma_no_prior_hit(pre, x0, y0, row as int, col as int);
                        assert(cur == pre.grid[gi as int]);
                        assert forall|i: int| 0 <= i < GRID_SIZE implies self@.grid[i] == (
                        pre.grid[i] != sprite_hits_before(
                            pre,
                            x0,
                            y0,
                            row as int,
                            col as int + 1,
                            i,
                        )) by {
                            lemma_hits_before_step_set(pre, x0, y0, row as int, col as int, i);
                        }
                        lemma_collision_before_step(pre, x0, y0, row as int, col as int);
                    }
                } else {
                    proof {
                        assert(!sprite_bit(pre.memory[pre.address_reg + row as int], col as int));
                        assert forall|i: int| 0 <= i < GRID_SIZE implies self@.grid[i] == (
                        pre.grid[i] != sprite_hits_before(
                            pre,
                            x0,
                            y0,
                            row as int,
                            col as int + 1,
                            i,
                        )) by {
                            lemma_hits_before_step_unset(pre, x0, y0, row as int, col as int, i);
                        }
                        lemma_collision_before_step(pre, x0, y0, row as int, col as int);
                    }
                }
                col += 1;
            }
            proof {
                assert forall|i: int| 0 <= i < GRID_SIZE implies self@.grid[i] == (pre.grid[i]
                    != sprite_hits_before(pre, x0, y0, row as int + 1, 0, i)) by {
                    lemma_hits_before_row(pre, x0, y0, row as int, i);
                }
                lemma_collision_before_row(pre, x0, y0, row as int);
            }
            row += 1;
        }
        self.register[VF] = vf;
        proof {
            assert forall|i: int| 0 <= i < GRID_SIZE implies self@.grid[i] == (pre.grid[i]
                != sprite_hits(pre, x0, y0, h, i)) by {
                lemma_hits_complete(pre, x0, y0, h, i);
            }
            lemma_collision_complete(pre, x0, y0, h);
            assert(self@.grid =~= draw_grid(pre, x0, y0, h));
            assert(self@ =~= draw_post(pre, x0, y0, h));
        }
        let dres = self.display.draw(&self.grid);
        match dres {
            Ok(_) => Ok(()),
            Err(e) => Err(Fault::RenderFailure(e)),
        }
    }
    /// Fetch the two instruction bytes at the program counter as one
    /// big-endian word and advance the program counter past them. A
    /// fetch from outside memory is fatal.
    fn if_(&mut self) -> (r: Result<u16, Fault>)
        requires
            old(self)@.wf(),
        ensures
            final(self)@.wf(),
            fetch_ok(old(self)@) ==> r == Ok::<u16, Fault>(fetch_word(old(self)@)) && final(self)@
                == with_pc(old(self)@, (old(self)@.pc + 2) as u16),
            !fetch_ok(old(self)@) ==> r == Err::<u16, Fault>(Fault::MemoryOutOfBounds)
                && final(self)@ == old(self)@,
    {
        if !((self.pc as usize) + 1 < MEMORY_SIZE) {
            return Err(Fault::MemoryOutOfBounds);
        }
        let hi = self.memory[self.pc as usize];
        let lo = self.memory[(self.pc as usize) + 1];
        let code: u16 = (hi as u16) * 256 + (lo as u16);
        self.pc = self.pc + 2;
        Ok(code)
    }

    /// Decode a two-byte instruction word into its operation.
    fn id(&self, code: u16) -> (op: Opcode)
        ensures
            op == spec_decode(code),
            op_wf(op),
    {
        proof {
            lemma_decode_wf(code);
        }
        let address: u16 = opcode_addr(code);
        let nibble4: u8 = opcode_nibble4(code);
        let byte2: u8 = opcode_byte2(code);
        match opcode_n1(code) {
            0 => {
                match address {
                    0x0E0 => Opcode::Clr,
                    0x0EE => Opcode::Ret,
                    _ => Opcode::Sys(address),
                }
            },
            1 => Opcode::GoTo(address),
            2 => Opcode::Call(address),
            3 => Opcode::SkipEq(opcode_regx(code), byte2),
            4 => Opcode::SkipNeq(opcode_regx(code), byte2),
            5 => {
                if nibble4 != 0 {
                    Opcode::Nope(code)
                } else {
                    Opcode::SkipEqR(opcode_regx(code), opcode_regy(code))
                }
            },
            6 => Opcode::SetR(opcode_regx(code), byte2),
            7 => Opcode::AddR(opcode_regx(code), byte2),
            8 => {
                match nibble4 {
                    0 => Opcode::AssignR(opcode_regx(code), opcode_regy(code)),
                    1 => Opcode::OrR(opcode_regx(code), opcode_regy(code)),
                    2 => Opcode::AndR(opcode_regx(code), opcode_regy(code)),
                    3 => Opcode::XorR(opcode_regx(code), opcode_regy(code)),
                    4 => Opcode::AddR2(opcode_regx(code), opcode_regy(code)),
                    5 => Opcode::SubR(opcode_regx(code), opcode_regy(code)),
                    6 => Opcode::RShiftR(opcode_regx(code), opcode_regy(code)),
                    7 => Opcode::SubR2(opcode_regx(code), opcode_regy(code)),
                    0xE => Opcode::LShiftR(opcode_regx(code), opcode_regy(code)),
                    _ => Opcode::Nope(code),
                }
            },
            9 => {
                if nibble4 != 0 {
                    Opcode::Nope(code)
                } else {
                    Opcode::SkipNeqR(opcode_regx(code), opcode_regy(code))
                }
            },
            0xA => Opcode::Mem(address),
            0xB => Opcode::Jmp(address),
            0xC => Opcode::Rand(opcode_regx(code), byte2),
            0xD => Opcode::Disp(opcode_regx(code), opcode_regy(code), nibble4),
            0xE => {
                match byte2 {
                    0x9E => Opcode::KeyPress(opcode_regx(code)),
                    0xA1 => Opcode::KeyNoPress(opcode_regx(code)),
                    _ => Opcode::Nope(code),
                }
            },
            0xF => {
                match byte2 {
                    0x07 => Opcode::GetDelay(opcode_regx(code)),
                    0x0A => Opcode::WaitKey(opcode_regx(code)),
                    0x15 => Opcode::SetDelay(opcode_regx(code)),
                    0x18 => Opcode::SetSound(opcode_regx(code)),
                    0x1E => Opcode::AddM(opcode_regx(code)),
                    0x29 => Opcode::Sprite(opcode_regx(code)),
                    0x33 => Opcode::Bcd(opcode_regx(code)),
                    0x55 => Opcode::DumpR(opcode_regx(code)),
                    0x65 => Opcode::LoadR(opcode_regx(code)),
                    _ => Opcode::Nope(code),
                }
            },
            _ => Opcode::Nope(code),
        }
    }

    /// Apply one decoded operation to the machine state. The program
    /// counter has already been advanced past the instruction.
    fn ex(&mut self, code: Opcode) -> (r: Result<(), Fault>)
        requires
            old(self)@.wf(),
            op_wf(code),
            2 <= old(self)@.pc,
            old(self)@.pc <= MEMORY_SIZE,
        ensures
            final(self)@.wf(),
            step_rel(old(self)@, code, final(self)@, r),
    {
        match code {
            Opcode::Nope(bytes) => {
                let byte1: u8 = (bytes / 256) as u8;
                let byte2: u8 = opcode_byte2(bytes);
                Err(Fault::InvalidInstruction { byte1, byte2, pc: self.pc - 2 })
            },
            Opcode::Sys(_) => {
                // valid instruction, but a no-op
                Ok(())
            },
            Opcode::Clr => self.exec_clr(),
            Opcode::Ret => {
                match self.stack.pop() {
                    None => Err(Fault::StackUnderflow),
                    Some(n) => {
                        self.pc = n;
                        Ok(())
                    },
                }
            },
            Opcode::GoTo(address) => {
                self.pc = address;
                Ok(())
            },
            Opcode::Call(address) => {
                if self.stack.len() == STACK_CAPACITY {
                    return Err(Fault::StackOverflow);
                }
                self.stack.push(self.pc);
                self.pc = address;
                Ok(())
            },
            Opcode::SkipEq(regx, val) => {
                if self.register[regx] == val {
                    self.pc = self.pc + 2;
                }
                Ok(())
            },
            Opcode::SkipNeq(regx, val) => {
                if self.register[regx] != val {
                    self.pc = self.pc + 2;
                }
                Ok(())
            },
            Opcode::SkipEqR(regx, regy) => {
                if self.register[regx] == self.register[regy] {
                    self.pc = self.pc + 2;
                }
                Ok(())
            },
            Opcode::SetR(regx, val) => {
                self.register[regx] = val;
                Ok(())
            },
            Opcode::AddR(regx, val) => {
                let sum: u16 = (self.register[regx] as u16) + (val as u16);
                self.register[regx] = (sum % 256) as u8;
                Ok(())
            },
            Opcode::AssignR(regx, regy) => {
                let v = self.register[regy];
                self.register[regx] = v;
                Ok(())
            },
            Opcode::OrR(regx, regy) => {
                let v = self.register[regx] | self.register[regy];
                self.register[regx] = v;
                Ok(())
            },
            Opcode::AndR(regx, regy) => {
                let v = self.register[regx] & self.register[regy];
                self.register[regx] = v;
                Ok(())
            },
            Opcode::XorR(regx, regy) => {
                let v = self.register[regx] ^ self.register[regy];
                self.register[regx] = v;
                Ok(())
            },
            Opcode::AddR2(regx, regy) => {
                let sum: u16 = (self.register[regx] as u16) + (self.register[regy] as u16);
                if sum > 255 {
                    self.register[VF] = 1;
                } else {
                    self.register[VF] = 0;
                }
                self.register[regx] = (sum % 256) as u8;
                Ok(())
            },
            Opcode::SubR(regx, regy) => {
                let rx = self.register[regx];
                let ry = self.register[regy];
                if ry > rx {
                    self.register[VF] = 0;
                } else {
                    self.register[VF] = 1;
                }
                let val: u8 = (((rx as u16) + 256 - (ry as u16)) % 256) as u8;
                self.register[regx] = val;
                Ok(())
            },
            Opcode::RShiftR(regx, regy) => {
                let ry = self.register[regy];
                let vf = ry % 2;
                let res = ry / 2;
                self.register[regy] = res;
                self.register[regx] = res;
                self.register[VF] = vf;
                Ok(())
            },
            Opcode::SubR2(regx, regy) => {
                let rx = self.register[regx];
                let ry = self.register[regy];
                if ry >= rx {
                    self.register[VF] = 1;
                } else {
                    self.register[VF] = 0;
                }
                let val: u8 = (((ry as u16) + 256 - (rx as u16)) % 256) as u8;
                self.register[regx] = val;
                Ok(())
            },
            Opcode::LShiftR(regx, regy) => {
                let ry = self.register[regy];
                let vf = ry / 128;
                let res: u8 = (((ry as u16) * 2) % 256) as u8;
                self.register[regy] = res;
                self.register[regx] = res;
                self.register[VF] = vf;
                Ok(())
            },
            Opcode::SkipNeqR(regx, regy) => {
                if self.register[regx] != self.register[regy] {
                    self.pc = self.pc + 2;
                }
                Ok(())
            },
            Opcode::Mem(address) => {
                self.address_reg = address;
                Ok(())
            },
            Opcode::Jmp(address) => {
                self.pc = address + (self.register[0] as u16);
                Ok(())
            },
            Opcode::Rand(regx, val) => {
                let b = random_byte();
                self.register[regx] = b & val;
                proof {
                    assert(self@ == upd_reg(old(self)@, regx, b & val));
                }
                Ok(())
            },
            Opcode::Disp(regx, regy, h) => self.exec_disp(regx, regy, h),
            Opcode::KeyPress(regx) => {
                let k = self.register[regx];
                if self.input.key(k) {
                    self.pc = self.pc + 2;
                }
                Ok(())
            },
            Opcode::KeyNoPress(regx) => {
                let k = self.register[regx];
                if !self.input.key(k) {
                    self.pc = self.pc + 2;
                }
                Ok(())
            },
            Opcode::GetDelay(regx) => {
                let v = self.delay_timer;
                self.register[regx] = v;
                Ok(())
            },
            Opcode::WaitKey(regx) => {
                match self.input.block_for() {
                    None => {
                        self.halt = true;
                    },
                    Some(k) => {
                        self.register[regx] = k;
                        proof {
                            assert(self@ == upd_reg(old(self)@, regx, k));
                        }
                    },
                }
                Ok(())
            },
            Opcode::SetDelay(regx) => {
                self.delay_timer = self.register[regx];
                Ok(())
            },
            Opcode::SetSound(regx) => {
                self.sound_timer = self.register[regx];
                Ok(())
            },
            Opcode::AddM(regx) => {
                let sum: u32 = (self.address_reg as u32) + (self.register[regx] as u32);
                if sum > 0xFFFF {
                    self.register[VF] = 1;
                } else {
                    self.register[VF] = 0;
                }
                self.address_reg = (sum % 0x10000) as u16;
                Ok(())
            },
            Opcode::Sprite(regx) => {
                self.address_reg = (self.register[regx] as u16) * 5;
                Ok(())
            },
            Opcode::Bcd(regx) => {
                let addr = self.address_reg as usize;
                if !(addr + 2 < MEMORY_SIZE) {
                    return Err(Fault::MemoryOutOfBounds);
                }
                let rx = self.register[regx];
                self.memory[addr] = rx / 100;
                self.memory[addr + 1] = (rx / 10) % 10;
                self.memory[addr + 2] = rx % 10;
                Ok(())
            },
            Opcode::DumpR(regx) => self.exec_dump(regx),
            Opcode::LoadR(regx) => self.exec_load(regx),
        }
    }

    /// One invocation of the cycle driver: tick the timers against the
    /// wall clock, then fetch, decode and execute one instruction.
    /// `Ok(true)` asks the external loop to keep invoking; `Ok(false)`
    /// reports the halt after a cancelled key wait; `Err` is a fatal
    /// fault.
    pub fn cycle(&mut self) -> (r: Result<bool, Fault>)
        requires
            old(self)@.wf(),
        ensures
            final(self)@.wf(),
            exists|elapsed_ms: u128| cycle_rel(old(self)@, elapsed_ms, final(self)@, r),
    {
        let now = instant_now();
        let elapsed = millis_between(&self.time, &now);
        if elapsed >= 1000 {
            if self.delay_timer > 0 {
                self.delay_timer = self.delay_timer - 1;
            }
            if self.sound_timer > 0 {
                self.beep.beep_on();
                self.sound_timer = self.sound_timer - 1;
            }
            self.time = now;
        } else if elapsed >= 250 {
            self.beep.beep_off();
        }
        let ghost ticked = self@;
        proof {
            assert(ticked == tick_spec(old(self)@, elapsed));
        }
        let code = match self.if_() {
            Ok(c) => c,
            Err(f) => {
                proof {
                    assert(cycle_rel(old(self)@, elapsed, self@, Err::<bool, Fault>(f)));
                }
                return Err(f);
            },
        };
        let op = self.id(code);
        match self.ex(op) {
            Ok(_) => {
                let cont = !self.halt;
                proof {
                    assert(cycle_rel(old(self)@, elapsed, self@, Ok::<bool, Fault>(cont)));
                }
                Ok(cont)
            },
            Err(f) => {
                proof {
                    assert(cycle_rel(old(self)@, elapsed, self@, Err::<bool, Fault>(f)));
                }
                Err(f)
            },
        }
    }
}

/// The weight of sprite bit `col`, most significant first.
fn col_mask(col: usize) -> (r: u8)
    requires
        col < 8,
    ensures
        r as int == col_weight(col as int),
        r > 0,
{
    match col {
        0 => 128,
        1 => 64,
        2 => 32,
        3 => 16,
        4 => 8,
        5 => 4,
        6 => 2,
        _ => 1,
    }
}

} // verus!
