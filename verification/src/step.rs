//! Execution semantics: what one operation, one fetch and one timer
//! tick do to the machine state.
//!
//! `step_rel` relates the state before an operation to the state after
//! it and to the outcome. Operations whose result depends on a
//! collaborator or on a random byte are related to every outcome the
//! environment could produce; all others are pinned exactly.

use vstd::prelude::*;
use crate::fault::Fault;
use crate::opcode::Opcode;
use crate::state::{MachineView, VF, GRID_SIZE, MEMORY_SIZE, PROGRAM_START, STACK_CAPACITY};

verus! {

/// An 8-bit wrap of a non-negative value.
pub open spec fn wrap8(v: int) -> u8 {
    (v % 256) as u8
}

/// A 16-bit wrap of a non-negative value.
pub open spec fn wrap16(v: int) -> u16 {
    (v % 0x10000) as u16
}

/// Register `i` of a state.
pub open spec fn reg(s: MachineView, i: usize) -> u8 {
    s.registers[i as int]
}

/// The state with register `i` replaced.
pub open spec fn upd_reg(s: MachineView, i: usize, v: u8) -> MachineView {
    MachineView { registers: s.registers.update(i as int, v), ..s }
}

/// The state with the program counter replaced.
pub open spec fn with_pc(s: MachineView, pc: u16) -> MachineView {
    MachineView { pc, ..s }
}

/// The program counter after a conditional skip: advanced by one more
/// instruction when the condition holds.
pub open spec fn skip_pc(s: MachineView, cond: bool) -> u16 {
    if cond {
        (s.pc + 2) as u16
    } else {
        s.pc
    }
}

/// The weight of sprite bit `col`, most significant first.
pub open spec fn col_weight(col: int) -> int {
    if col == 0 {
        128
    } else if col == 1 {
        64
    } else if col == 2 {
        32
    } else if col == 3 {
        16
    } else if col == 4 {
        8
    } else if col == 5 {
        4
    } else if col == 6 {
        2
    } else {
        1
    }
}

/// Whether bit `col` of sprite byte `b` is set, most significant first.
pub open spec fn sprite_bit(b: u8, col: int) -> bool {
    (b as int / col_weight(col)) % 2 == 1
}

/// The grid cell a sprite bit lands on: row-major, 64 columns, no
/// coordinate wrapping.
pub open spec fn cell_index(x0: u8, y0: u8, row: int, col: int) -> int {
    (y0 + row) * 64 + x0 + col
}

/// Whether every sprite row can be read from memory.
pub open spec fn draw_reads_ok(addr: u16, h: u8) -> bool {
    h == 0 || addr + h <= MEMORY_SIZE
}

/// Whether every set sprite bit lands inside the grid.
pub open spec fn draw_writes_ok(s: MachineView, x0: u8, y0: u8, h: u8) -> bool {
    forall|row: int, col: int|
        0 <= row < h && 0 <= col < 8 && sprite_bit(s.memory[s.address_reg + row], col)
            ==> cell_index(x0, y0, row, col) < GRID_SIZE
}

/// Whether some set sprite bit lands on grid cell `i`.
pub open spec fn sprite_hits(s: MachineView, x0: u8, y0: u8, h: u8, i: int) -> bool {
    exists|row: int, col: int|
        0 <= row < h && 0 <= col < 8 && sprite_bit(s.memory[s.address_reg + row], col)
            && cell_index(x0, y0, row, col) == i
}

/// The grid after XOR-compositing the sprite: a cell is toggled
/// exactly when a set sprite bit lands on it.
pub open spec fn draw_grid(s: MachineView, x0: u8, y0: u8, h: u8) -> Seq<bool> {
    Seq::new(GRID_SIZE as nat, |i: int| s.grid[i] != sprite_hits(s, x0, y0, h, i))
}

/// Whether the draw collides: some set sprite bit lands on a cell that
/// was already set.
pub open spec fn draw_collision(s: MachineView, x0: u8, y0: u8, h: u8) -> bool {
    exists|i: int| 0 <= i < GRID_SIZE && s.grid[i] && sprite_hits(s, x0, y0, h, i)
}

/// Whether a set sprite bit strictly before scan position
/// (`row`, `col`) of the row-major sprite scan lands on cell `i`.
pub open spec fn sprite_hits_before(
    s: MachineView,
    x0: u8,
    y0: u8,
    row: int,
    col: int,
    i: int,
) -> bool {
    exists|r: int, c: int|
        0 <= r && 0 <= c < 8 && (r < row || (r == row && c < col)) && sprite_bit(
            s.memory[s.address_reg + r],
            c,
        ) && cell_index(x0, y0, r, c) == i
}

/// Whether a set sprite bit strictly before scan position
/// (`row`, `col`) lands on a cell that is set in `s`.
pub open spec fn collision_before(s: MachineView, x0: u8, y0: u8, row: int, col: int) -> bool {
    exists|r: int, c: int|
        0 <= r && 0 <= c < 8 && (r < row || (r == row && c < col)) && sprite_bit(
            s.memory[s.address_reg + r],
            c,
        ) && s.grid[cell_index(x0, y0, r, c)]
}

/// Two sprite bits land on the same cell only if they are the same
/// bit: a sprite row spans fewer cells than one grid row.
pub proof fn lemma_cell_index_injective(
    x0: u8,
    y0: u8,
    r1: int,
    c1: int,
    r2: int,
    c2: int,
)
    requires
        0 <= r1,
        0 <= r2,
        0 <= c1 < 8,
        0 <= c2 < 8,
        cell_index(x0, y0, r1, c1) == cell_index(x0, y0, r2, c2),
    ensures
        r1 == r2 && c1 == c2,
{
}

/// Nothing scanned before position (`row`, `col`) lands on the cell
/// that position itself lands on.
pub proof fn lemma_no_prior_hit(s: MachineView, x0: u8, y0: u8, row: int, col: int)
    requires
        0 <= row,
        0 <= col < 8,
    ensures
        !sprite_hits_before(s, x0, y0, row, col, cell_index(x0, y0, row, col)),
{
    if sprite_hits_before(s, x0, y0, row, col, cell_index(x0, y0, row, col)) {
        let (r, c) = choose|r: int, c: int|
            0 <= r && 0 <= c < 8 && (r < row || (r == row && c < col)) && sprite_bit(
                s.memory[s.address_reg + r],
                c,
            ) && cell_index(x0, y0, r, c) == cell_index(x0, y0, row, col);
        lemma_cell_index_injective(x0, y0, r, c, row, col);
    }
}

/// Moving the scan past an unset bit changes nothing.
pub proof fn lemma_hits_before_step_unset(
    s: MachineView,
    x0: u8,
    y0: u8,
    row: int,
    col: int,
    i: int,
)
    requires
        0 <= row,
        0 <= col < 8,
        !sprite_bit(s.memory[s.address_reg + row], col),
    ensures
        sprite_hits_before(s, x0, y0, row, col + 1, i) == sprite_hits_before(
            s,
            x0,
            y0,
            row,
            col,
            i,
        ),
{
    if sprite_hits_before(s, x0, y0, row, col + 1, i) {
        let (r, c) = choose|r: int, c: int|
            0 <= r && 0 <= c < 8 && (r < row || (r == row && c < col + 1)) && sprite_bit(
                s.memory[s.address_reg + r],
                c,
            ) && cell_index(x0, y0, r, c) == i;
        assert(r < row || (r == row && c < col));
        assert(sprite_hits_before(s, x0, y0, row, col, i));
    }
}

/// Moving the scan past a set bit marks exactly its own cell as hit.
pub proof fn lemma_hits_before_step_set(
    s: MachineView,
    x0: u8,
    y0: u8,
    row: int,
    col: int,
    i: int,
)
    requires
        0 <= row,
        0 <= col < 8,
        sprite_bit(s.memory[s.address_reg + row], col),
    ensures
        sprite_hits_before(s, x0, y0, row, col + 1, cell_index(x0, y0, row, col)),
        i != cell_index(x0, y0, row, col) ==> sprite_hits_before(s, x0, y0, row, col + 1, i)
            == sprite_hits_before(s, x0, y0, row, col, i),
{
    assert(sprite_hits_before(s, x0, y0, row, col + 1, cell_index(x0, y0, row, col))) by {
        assert(0 <= row && 0 <= col < 8 && (row < row || (row == row && col < col + 1))
            && sprite_bit(s.memory[s.address_reg + row], col) && cell_index(x0, y0, row, col)
            == cell_index(x0, y0, row, col));
    }
    if i != cell_index(x0, y0, row, col) && sprite_hits_before(s, x0, y0, row, col + 1, i) {
        let (r, c) = choose|r: int, c: int|
            0 <= r && 0 <= c < 8 && (r < row || (r == row && c < col + 1)) && sprite_bit(
                s.memory[s.address_reg + r],
                c,
            ) && cell_index(x0, y0, r, c) == i;
        assert(!(r == row && c == col));
        assert(r < row || (r == row && c < col));
        assert(sprite_hits_before(s, x0, y0, row, col, i));
    }
}

/// The scan position after a full row is the start of the next row.
pub proof fn lemma_hits_before_row(s: MachineView, x0: u8, y0: u8, row: int, i: int)
    ensures
        sprite_hits_before(s, x0, y0, row, 8, i) == sprite_hits_before(s, x0, y0, row + 1, 0, i),
{
    if sprite_hits_before(s, x0, y0, row, 8, i) {
        let (r, c) = choose|r: int, c: int|
            0 <= r && 0 <= c < 8 && (r < row || (r == row && c < 8)) && sprite_bit(
                s.memory[s.address_reg + r],
                c,
            ) && cell_index(x0, y0, r, c) == i;
        assert(r < row + 1 || (r == row + 1 && c < 0));
        assert(sprite_hits_before(s, x0, y0, row + 1, 0, i));
    }
    if sprite_hits_before(s, x0, y0, row + 1, 0, i) {
        let (r, c) = choose|r: int, c: int|
            0 <= r && 0 <= c < 8 && (r < row + 1 || (r == row + 1 && c < 0)) && sprite_bit(
                s.memory[s.address_reg + r],
                c,
            ) && cell_index(x0, y0, r, c) == i;
        assert(r < row || (r == row && c < 8));
        assert(sprite_hits_before(s, x0, y0, row, 8, i));
    }
}

/// A finished scan has hit exactly the cells the sprite hits.
pub proof fn lemma_hits_complete(s: MachineView, x0: u8, y0: u8, h: u8, i: int)
    ensures
        sprite_hits_before(s, x0, y0, h as int, 0, i) == sprite_hits(s, x0, y0, h, i),
{
    if sprite_hits_before(s, x0, y0, h as int, 0, i) {
        let (r, c) = choose|r: int, c: int|
            0 <= r && 0 <= c < 8 && (r < h || (r == h && c < 0)) && sprite_bit(
                s.memory[s.address_reg + r],
                c,
            ) && cell_index(x0, y0, r, c) == i;
        assert(0 <= r < h);
        assert(sprite_hits(s, x0, y0, h, i));
    }
    if sprite_hits(s, x0, y0, h, i) {
        let (r, c) = choose|r: int, c: int|
            0 <= r && 0 <= c < 8 && r < h && sprite_bit(s.memory[s.address_reg + r], c)
                && cell_index(x0, y0, r, c) == i;
        assert(r < h as int || (r == h as int && c < 0));
        assert(sprite_hits_before(s, x0, y0, h as int, 0, i));
    }
}

/// How passing one scan position changes the collision record.
pub proof fn lemma_collision_before_step(s: MachineView, x0: u8, y0: u8, row: int, col: int)
    requires
        0 <= row,
        0 <= col < 8,
    ensures
        sprite_bit(s.memory[s.address_reg + row], col) ==> collision_before(
            s,
            x0,
            y0,
            row,
            col + 1,
        ) == (collision_before(s, x0, y0, row, col) || s.grid[cell_index(x0, y0, row, col)]),
        !sprite_bit(s.memory[s.address_reg + row], col) ==> collision_before(
            s,
            x0,
            y0,
            row,
            col + 1,
        ) == collision_before(s, x0, y0, row, col),
{
    if collision_before(s, x0, y0, row, col + 1) {
        let (r, c) = choose|r: int, c: int|
            0 <= r && 0 <= c < 8 && (r < row || (r == row && c < col + 1)) && sprite_bit(
                s.memory[s.address_reg + r],
                c,
            ) && s.grid[cell_index(x0, y0, r, c)];
        if r == row && c == col {
            assert(sprite_bit(s.memory[s.address_reg + row], col));
            assert(s.grid[cell_index(x0, y0, row, col)]);
        } else {
            assert(r < row || (r == row && c < col));
            assert(collision_before(s, x0, y0, row, col));
        }
    }
    if collision_before(s, x0, y0, row, col) {
        let (r, c) = choose|r: int, c: int|
            0 <= r && 0 <= c < 8 && (r < row || (r == row && c < col)) && sprite_bit(
                s.memory[s.address_reg + r],
                c,
            ) && s.grid[cell_index(x0, y0, r, c)];
        assert(r < row || (r == row && c < col + 1));
        assert(collision_before(s, x0, y0, row, col + 1));
    }
    if sprite_bit(s.memory[s.address_reg + row], col) && s.grid[cell_index(x0, y0, row, col)] {
        assert(collision_before(s, x0, y0, row, col + 1));
    }
}

/// The collision record after a full row carries to the next row.
pub proof fn lemma_collision_before_row(s: MachineView, x0: u8, y0: u8, row: int)
    ensures
        collision_before(s, x0, y0, row, 8) == collision_before(s, x0, y0, row + 1, 0),
{
    if collision_before(s, x0, y0, row, 8) {
        let (r, c) = choose|r: int, c: int|
            0 <= r && 0 <= c < 8 && (r < row || (r == row && c < 8)) && sprite_bit(
                s.memory[s.address_reg + r],
                c,
            ) && s.grid[cell_index(x0, y0, r, c)];
        assert(r < row + 1 || (r == row + 1 && c < 0));
        assert(collision_before(s, x0, y0, row + 1, 0));
    }
    if collision_before(s, x0, y0, row + 1, 0) {
        let (r, c) = choose|r: int, c: int|
            0 <= r && 0 <= c < 8 && (r < row + 1 || (r == row + 1 && c < 0)) && sprite_bit(
                s.memory[s.address_reg + r],
                c,
            ) && s.grid[cell_index(x0, y0, r, c)];
        assert(r < row || (r == row && c < 8));
        assert(collision_before(s, x0, y0, row, 8));
    }
}

/// A finished scan has recorded a collision exactly when the draw
/// collides.
pub proof fn lemma_collision_complete(s: MachineView, x0: u8, y0: u8, h: u8)
    requires
        s.wf(),
        draw_writes_ok(s, x0, y0, h),
    ensures
        collision_before(s, x0, y0, h as int, 0) == draw_collision(s, x0, y0, h),
{
    if collision_before(s, x0, y0, h as int, 0) {
        let (r, c) = choose|r: int, c: int|
            0 <= r && 0 <= c < 8 && (r < h || (r == h && c < 0)) && sprite_bit(
                s.memory[s.address_reg + r],
                c,
            ) && s.grid[cell_index(x0, y0, r, c)];
        assert(0 <= r < h);
        let i = cell_index(x0, y0, r, c);
        assert(0 <= i < GRID_SIZE);
        assert(sprite_hits(s, x0, y0, h, i));
        assert(draw_collision(s, x0, y0, h));
    }
    if draw_collision(s, x0, y0, h) {
        let i = choose|i: int| 0 <= i < GRID_SIZE && s.grid[i] && sprite_hits(s, x0, y0, h, i);
        let (r, c) = choose|r: int, c: int|
            0 <= r && 0 <= c < 8 && r < h && sprite_bit(s.memory[s.address_reg + r], c)
                && cell_index(x0, y0, r, c) == i;
        assert(s.grid[cell_index(x0, y0, r, c)]);
        assert(r < h as int || (r == h as int && c < 0));
        assert(collision_before(s, x0, y0, h as int, 0));
    }
}

/// The state after a completed draw: grid composited, flag register
/// recording whether any collision occurred.
pub open spec fn draw_post(s: MachineView, x0: u8, y0: u8, h: u8) -> MachineView {
    MachineView {
        grid: draw_grid(s, x0, y0, h),
        registers: s.registers.update(
            VF as int,
            if draw_collision(s, x0, y0, h) {
                1u8
            } else {
                0u8
            },
        ),
        ..s
    }
}

/// Memory after dumping registers 0 through `x` at the address
/// register.
pub open spec fn dump_memory(s: MachineView, x: usize) -> Seq<u8> {
    Seq::new(
        MEMORY_SIZE as nat,
        |i: int|
            if s.address_reg <= i <= s.address_reg + x {
                s.registers[i - s.address_reg]
            } else {
                s.memory[i]
            },
    )
}

/// The state after a register dump: `x + 1` bytes written, address
/// register advanced by the count.
pub open spec fn dump_post(s: MachineView, x: usize) -> MachineView {
    MachineView {
        memory: dump_memory(s, x),
        address_reg: (s.address_reg + x + 1) as u16,
        ..s
    }
}

/// Registers after loading 0 through `x` from memory at the address
/// register.
pub open spec fn load_registers(s: MachineView, x: usize) -> Seq<u8> {
    Seq::new(
        16nat,
        |i: int|
            if i <= x {
                s.memory[s.address_reg + i]
            } else {
                s.registers[i]
            },
    )
}

/// The state after a register load: `x + 1` registers read back,
/// address register advanced by the count.
pub open spec fn load_post(s: MachineView, x: usize) -> MachineView {
    MachineView {
        registers: load_registers(s, x),
        address_reg: (s.address_reg + x + 1) as u16,
        ..s
    }
}

/// Memory after writing the decimal digits of register `x` at the
/// address register: hundreds, tens, ones.
pub open spec fn bcd_memory(s: MachineView, x: usize) -> Seq<u8> {
    let v = reg(s, x) as int;
    s.memory.update(s.address_reg as int, (v / 100) as u8).update(
        s.address_reg + 1,
        ((v / 10) % 10) as u8,
    ).update(s.address_reg + 2, (v % 10) as u8)
}

/// How one decoded operation relates the state before it to the state
/// after it and to the outcome. `pre.pc` has already been advanced
/// past the instruction by the fetch.
pub open spec fn step_rel(
    pre: MachineView,
    op: Opcode,
    post: MachineView,
    r: Result<(), Fault>,
) -> bool {
    match op {
        Opcode::Nope(w) => post == pre && r == Err::<(), Fault>(
            Fault::InvalidInstruction {
                byte1: (w as int / 256) as u8,
                byte2: (w as int % 256) as u8,
                pc: (pre.pc - 2) as u16,
            },
        ),
        Opcode::Sys(_) => post == pre && r == Ok::<(), Fault>(()),
        Opcode::Clr => post == MachineView {
            grid: Seq::new(GRID_SIZE as nat, |i: int| false),
            ..pre
        } && r == Ok::<(), Fault>(()),
        Opcode::Ret => if pre.stack.len() == 0 {
            post == pre && r == Err::<(), Fault>(Fault::StackUnderflow)
        } else {
            post == MachineView {
                pc: pre.stack.last(),
                stack: pre.stack.drop_last(),
                ..pre
            } && r == Ok::<(), Fault>(())
        },
        Opcode::GoTo(a) => post == with_pc(pre, a) && r == Ok::<(), Fault>(()),
        Opcode::Call(a) => if pre.stack.len() >= STACK_CAPACITY {
            post == pre && r == Err::<(), Fault>(Fault::StackOverflow)
        } else {
            post == MachineView { pc: a, stack: pre.stack.push(pre.pc), ..pre } && r == Ok::<
                (),
                Fault,
            >(())
        },
        Opcode::SkipEq(x, v) => post == with_pc(pre, skip_pc(pre, reg(pre, x) == v)) && r == Ok::<
            (),
            Fault,
        >(()),
        Opcode::SkipNeq(x, v) => post == with_pc(pre, skip_pc(pre, reg(pre, x) != v)) && r == Ok::<
            (),
            Fault,
        >(()),
        Opcode::SkipEqR(x, y) => post == with_pc(pre, skip_pc(pre, reg(pre, x) == reg(pre, y)))
            && r == Ok::<(), Fault>(()),
        Opcode::SetR(x, v) => post == upd_reg(pre, x, v) && r == Ok::<(), Fault>(()),
        Opcode::AddR(x, v) => post == upd_reg(pre, x, wrap8(reg(pre, x) + v)) && r == Ok::<
            (),
            Fault,
        >(()),
        Opcode::AssignR(x, y) => post == upd_reg(pre, x, reg(pre, y)) && r == Ok::<(), Fault>(()),
        Opcode::OrR(x, y) => post == upd_reg(pre, x, reg(pre, x) | reg(pre, y)) && r == Ok::<
            (),
            Fault,
        >(()),
        Opcode::AndR(x, y) => post == upd_reg(pre, x, reg(pre, x) & reg(pre, y)) && r == Ok::<
            (),
            Fault,
        >(()),
        Opcode::XorR(x, y) => post == upd_reg(pre, x, reg(pre, x) ^ reg(pre, y)) && r == Ok::<
            (),
            Fault,
        >(()),
        Opcode::AddR2(x, y) => {
            let sum = reg(pre, x) + reg(pre, y);
            let flag: u8 = if sum > 255 {
                1
            } else {
                0
            };
            post == MachineView {
                registers: pre.registers.update(VF as int, flag).update(x as int, wrap8(sum)),
                ..pre
            } && r == Ok::<(), Fault>(())
        },
        Opcode::SubR(x, y) => {
            let rx = reg(pre, x);
            let ry = reg(pre, y);
            let flag: u8 = if ry > rx {
                0
            } else {
                1
            };
            post == MachineView {
                registers: pre.registers.update(VF as int, flag).update(
                    x as int,
                    wrap8(rx - ry + 256),
                ),
                ..pre
            } && r == Ok::<(), Fault>(())
        },
        Opcode::RShiftR(x, y) => {
            let ry = reg(pre, y);
            let res: u8 = (ry / 2) as u8;
            let flag: u8 = (ry % 2) as u8;
            post == MachineView {
                registers: pre.registers.update(y as int, res).update(x as int, res).update(
                    VF as int,
                    flag,
                ),
                ..pre
            } && r == Ok::<(), Fault>(())
        },
        Opcode::SubR2(x, y) => {
            let rx = reg(pre, x);
            let ry = reg(pre, y);
            let flag: u8 = if ry >= rx {
                1
            } else {
                0
            };
            post == MachineView {
                registers: pre.registers.update(VF as int, flag).update(
                    x as int,
                    wrap8(ry - rx + 256),
                ),
                ..pre
            } && r == Ok::<(), Fault>(())
        },
        Opcode::LShiftR(x, y) => {
            let ry = reg(pre, y);
            let res: u8 = wrap8(ry * 2);
            let flag: u8 = (ry / 128) as u8;
            post == MachineView {
                registers: pre.registers.update(y as int, res).update(x as int, res).update(
                    VF as int,
                    flag,
                ),
                ..pre
            } && r == Ok::<(), Fault>(())
        },
        Opcode::SkipNeqR(x, y) => post == with_pc(pre, skip_pc(pre, reg(pre, x) != reg(pre, y)))
            && r == Ok::<(), Fault>(()),
        Opcode::Mem(a) => post == MachineView { address_reg: a, ..pre } && r == Ok::<(), Fault>(()),
        Opcode::Jmp(a) => post == with_pc(pre, (a + reg(pre, 0)) as u16) && r == Ok::<(), Fault>(
            (),
        ),
        Opcode::Rand(x, m) => r == Ok::<(), Fault>(()) && (exists|b: u8|
            post == upd_reg(pre, x, b & m)),
        Opcode::Disp(x, y, h) => {
            let x0 = reg(pre, x);
            let y0 = reg(pre, y);
            if !draw_reads_ok(pre.address_reg, h) {
                post == pre && r == Err::<(), Fault>(Fault::MemoryOutOfBounds)
            } else if !draw_writes_ok(pre, x0, y0, h) {
                post == pre && r == Err::<(), Fault>(Fault::GridOutOfBounds)
            } else {
                post == draw_post(pre, x0, y0, h) && (r == Ok::<(), Fault>(()) || r matches Err(
                    Fault::RenderFailure(_),
                ))
            }
        },
        Opcode::KeyPress(_) => r == Ok::<(), Fault>(()) && (post == pre || post == with_pc(
            pre,
            (pre.pc + 2) as u16,
        )),
        Opcode::KeyNoPress(_) => r == Ok::<(), Fault>(()) && (post == pre || post == with_pc(
            pre,
            (pre.pc + 2) as u16,
        )),
        Opcode::GetDelay(x) => post == upd_reg(pre, x, pre.delay_timer) && r == Ok::<(), Fault>(()),
        Opcode::WaitKey(x) => r == Ok::<(), Fault>(()) && (post == MachineView {
            halt: true,
            ..pre
        } || (exists|k: u8| post == upd_reg(pre, x, k))),
        Opcode::SetDelay(x) => post == MachineView { delay_timer: reg(pre, x), ..pre } && r == Ok::<
            (),
            Fault,
        >(()),
        Opcode::SetSound(x) => post == MachineView { sound_timer: reg(pre, x), ..pre } && r == Ok::<
            (),
            Fault,
        >(()),
        Opcode::AddM(x) => {
            let sum = pre.address_reg + reg(pre, x);
            let flag: u8 = if sum > 0xFFFF {
                1
            } else {
                0
            };
            post == MachineView {
                address_reg: wrap16(sum),
                registers: pre.registers.update(VF as int, flag),
                ..pre
            } && r == Ok::<(), Fault>(())
        },
        Opcode::Sprite(x) => post == MachineView {
            address_reg: (reg(pre, x) * 5) as u16,
            ..pre
        } && r == Ok::<(), Fault>(()),
        Opcode::Bcd(x) => if pre.address_reg + 2 < MEMORY_SIZE {
            post == MachineView { memory: bcd_memory(pre, x), ..pre } && r == Ok::<(), Fault>(())
        } else {
            post == pre && r == Err::<(), Fault>(Fault::MemoryOutOfBounds)
        },
        Opcode::DumpR(x) => if pre.address_reg + x < MEMORY_SIZE {
            post == dump_post(pre, x) && r == Ok::<(), Fault>(())
        } else {
            post == pre && r == Err::<(), Fault>(Fault::MemoryOutOfBounds)
        },
        Opcode::LoadR(x) => if pre.address_reg + x < MEMORY_SIZE {
            post == load_post(pre, x) && r == Ok::<(), Fault>(())
        } else {
            post == pre && r == Err::<(), Fault>(Fault::MemoryOutOfBounds)
        },
    }
}

/// Law: dumping registers 0 through `x` is fatal exactly when the
/// last byte written would fall outside memory; otherwise it writes
/// exactly `x + 1` bytes at the address register, touches no other
/// byte, advances the address register by the count, and changes
/// nothing else of the state.
pub proof fn lemma_reg_dump(s: MachineView, x: usize, post: MachineView, r: Result<(), Fault>)
    requires
        s.wf(),
        x < 16,
        step_rel(s, Opcode::DumpR(x), post, r),
    ensures
        s.address_reg + x >= MEMORY_SIZE ==> r == Err::<(), Fault>(Fault::MemoryOutOfBounds)
            && post == s,
        s.address_reg + x < MEMORY_SIZE ==> r == Ok::<(), Fault>(()),
        s.address_reg + x < MEMORY_SIZE ==> post.memory.len() == MEMORY_SIZE
            && post.address_reg == s.address_reg + x + 1,
        s.address_reg + x < MEMORY_SIZE ==> forall|i: int|
            0 <= i <= x ==> post.memory[s.address_reg + i] == s.registers[i],
        s.address_reg + x < MEMORY_SIZE ==> forall|j: int|
            0 <= j < MEMORY_SIZE && !(s.address_reg <= j <= s.address_reg + x) ==> post.memory[j]
                == s.memory[j],
        s.address_reg + x < MEMORY_SIZE ==> post == (MachineView {
            memory: post.memory,
            address_reg: post.address_reg,
            ..s
        }),
{
}

/// Law: loading registers 0 through `x` is fatal exactly when the
/// last byte read would fall outside memory; otherwise it reads
/// exactly `x + 1` registers from memory at the address register,
/// leaves the higher registers and all of memory untouched, advances
/// the address register by the count, and changes nothing else of the
/// state.
pub proof fn lemma_reg_load(s: MachineView, x: usize, post: MachineView, r: Result<(), Fault>)
    requires
        s.wf(),
        x < 16,
        step_rel(s, Opcode::LoadR(x), post, r),
    ensures
        s.address_reg + x >= MEMORY_SIZE ==> r == Err::<(), Fault>(Fault::MemoryOutOfBounds)
            && post == s,
        s.address_reg + x < MEMORY_SIZE ==> r == Ok::<(), Fault>(()),
        s.address_reg + x < MEMORY_SIZE ==> post.registers.len() == 16
            && post.address_reg == s.address_reg + x + 1,
        s.address_reg + x < MEMORY_SIZE ==> forall|i: int|
            0 <= i <= x ==> post.registers[i] == s.memory[s.address_reg + i],
        s.address_reg + x < MEMORY_SIZE ==> forall|j: int|
            x < j < 16 ==> post.registers[j] == s.registers[j],
        s.address_reg + x < MEMORY_SIZE ==> post.memory == s.memory,
        s.address_reg + x < MEMORY_SIZE ==> post == (MachineView {
            registers: post.registers,
            address_reg: post.address_reg,
            ..s
        }),
{
}

/// Law: loading from the same start address right after a dump is the
/// exact inverse of the dump, reading the dumped bytes back into the
/// register file they came from and advancing the address register by
/// the same count.
pub proof fn lemma_dump_load_inverse(s: MachineView, x: usize, d: MachineView, l: MachineView)
    requires
        s.wf(),
        x < 16,
        s.address_reg + x < MEMORY_SIZE,
        step_rel(s, Opcode::DumpR(x), d, Ok(())),
        step_rel(MachineView { address_reg: s.address_reg, ..d }, Opcode::LoadR(x), l, Ok(())),
    ensures
        l.registers == s.registers,
        l.memory == d.memory,
        l.address_reg == s.address_reg + x + 1,
        l.pc == s.pc,
{
    assert(l.registers =~= s.registers);
}

/// The timers after one invocation, given the milliseconds elapsed
/// since the last tick: at a full second each nonzero countdown drops
/// by one; below that nothing in the model changes.
pub open spec fn tick_spec(s: MachineView, elapsed_ms: u128) -> MachineView {
    if elapsed_ms >= 1000 {
        MachineView {
            delay_timer: if s.delay_timer > 0 {
                (s.delay_timer - 1) as u8
            } else {
                0
            },
            sound_timer: if s.sound_timer > 0 {
                (s.sound_timer - 1) as u8
            } else {
                0
            },
            ..s
        }
    } else {
        s
    }
}

/// Whether both bytes of the next instruction lie inside memory.
pub open spec fn fetch_ok(s: MachineView) -> bool {
    s.pc + 1 < MEMORY_SIZE
}

/// The instruction word at the program counter, big-endian.
pub open spec fn fetch_word(s: MachineView) -> u16 {
    (s.memory[s.pc as int] * 256 + s.memory[s.pc + 1]) as u16
}

/// One whole invocation: a timer tick for the given elapsed time, then
/// fetch, decode and execute. `Ok(cont)` reports whether the driver
/// should keep running, which is exactly "not halted".
pub open spec fn cycle_rel(
    pre: MachineView,
    elapsed_ms: u128,
    post: MachineView,
    r: Result<bool, Fault>,
) -> bool {
    let ticked = tick_spec(pre, elapsed_ms);
    if fetch_ok(ticked) {
        let fetched = with_pc(ticked, (ticked.pc + 2) as u16);
        let op = crate::opcode::spec_decode(fetch_word(ticked));
        match r {
            Ok(cont) => step_rel(fetched, op, post, Ok(())) && cont == !post.halt,
            Err(f) => step_rel(fetched, op, post, Err(f)),
        }
    } else {
        post == ticked && r == Err::<bool, Fault>(Fault::MemoryOutOfBounds)
    }
}

} // verus!
