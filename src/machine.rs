//! The machine core: memory, registers, stack, timers and display, and the
//! fetch-decode-execute cycle.
use vstd::prelude::*;
use crate::display::{Display, HEIGHT, WIDTH};
use crate::error::Chip8Error;
use crate::rom::ROM;
use crate::display::blank_screen;
use crate::display::cell;
use crate::instruction::{decode, Instruction};
use crate::opcode::Opcode;
use crate::semantics::{
    advanced, apply, collides, covers, draw, drawn, fetch_word, follows, initial_ram,
    initial_state, lemma_offset, loaded_regs, mem_at, set_reg, set_reg_flag, skip_if, sprite_bit, step,
    stored_bcd, stored_regs, wrap16, wrap8, written, MachineState,
};

verus! {

/// Bytes of addressable memory.
pub const MEMORY_SIZE: usize = 4096;

/// Where the font table starts in memory.
pub const FONT_START: usize = 0x50;

/// Where programs are loaded, and where execution starts.
pub const PROGRAM_START: u16 = 0x200;

/// A CHIP-8 machine. Memory addresses are taken modulo its 4096 bytes, and
/// the program counter and index register wrap around at 16 bits.
pub struct Chip8 {
    pub ram: [u8; 4096],
    pub display: Display,
    /// Program counter that points to the current instruction in memory.
    pub pc: u16,
    /// Index register that points to a specific location in memory.
    pub idx_reg: u16,
    /// Variable registers; `0xF` is used as a flag register.
    pub var_reg: [u8; 16],
    pub call_stack: Vec<u16>,
    pub delay_timer: u8,
    pub sound_timer: u8,
    /// The key of the keypad held down, if any.
    pub input_key: Option<u8>,
}

impl View for Chip8 {
    type V = MachineState;

    open spec fn view(&self) -> MachineState {
        MachineState {
            ram: self.ram@,
            screen: self.display@,
            pc: self.pc,
            idx: self.idx_reg,
            regs: self.var_reg@,
            stack: self.call_stack@,
            delay: self.delay_timer,
            sound: self.sound_timer,
            key: self.input_key,
        }
    }
}

impl Default for Chip8 {
    fn default() -> (r: Chip8)
        ensures
            r@ == initial_state(),
    {
        Chip8::new()
    }
}

impl Chip8 {
    /// The view of every machine has memory, display and registers of their
    /// fixed sizes.
    pub proof fn lemma_wf(&self)
        ensures
            self@.wf(),
    {
        self.display.lemma_len();
    }

    /// A machine with zeroed memory but for the font table at `0x050`, a
    /// blank display, zeroed registers and timers, an empty stack, no key
    /// held, and `pc` at `0x200`.
    pub fn new() -> (r: Chip8)
        ensures
            r@ == initial_state(),
    {
        let mut chip = Chip8 {
            ram: [0u8; 4096],
            display: Display::new(),
            pc: PROGRAM_START,
            idx_reg: 0,
            var_reg: [0u8; 16],
            call_stack: Vec::new(),
            delay_timer: 0,
            sound_timer: 0,
            input_key: None,
        };
        let font: [u8; 80] = [
            0xF0, 0x90, 0x90, 0x90, 0xF0, // 0
            0x20, 0x60, 0x20, 0x20, 0x70, // 1
            0xF0, 0x10, 0xF0, 0x80, 0xF0, // 2
            0xF0, 0x10, 0xF0, 0x10, 0xF0, // 3
            0x90, 0x90, 0xF0, 0x10, 0x10, // 4
            0xF0, 0x80, 0xF0, 0x10, 0xF0, // 5
            0xF0, 0x80, 0xF0, 0x90, 0xF0, // 6
            0xF0, 0x10, 0x20, 0x40, 0x40, // 7
            0xF0, 0x90, 0xF0, 0x90, 0xF0, // 8
            0xF0, 0x90, 0xF0, 0x10, 0xF0, // 9
            0xF0, 0x90, 0xF0, 0x90, 0x90, // A
            0xE0, 0x90, 0xE0, 0x90, 0xE0, // B
            0xF0, 0x80, 0x80, 0x80, 0xF0, // C
            0xE0, 0x90, 0x90, 0x90, 0xE0, // D
            0xF0, 0x80, 0xF0, 0x80, 0xF0, // E
            0xF0, 0x80, 0xF0, 0x80, 0x80, // F
        ];
        assert(font@ =~= crate::semantics::font());
        assert(chip.var_reg@ =~= initial_state().regs);
        assert(chip.call_stack@ =~= initial_state().stack);
        let mut i: usize = 0;
        while i < font.len()
            invariant
                i <= 80,
                font@ == crate::semantics::font(),
                chip@ == (MachineState { ram: chip.ram@, ..initial_state() }),
                forall|a: int|
                    0 <= a < 4096 ==> chip.ram@[a] == (if 0x50 <= a < 0x50 + i {
                        font@[a - 0x50]
                    } else {
                        0u8
                    }),
            decreases 80 - i,
        {
            chip.ram[FONT_START + i] = font[i];
            i = i + 1;
        }
        assert(chip.ram@ =~= initial_ram());
        chip
    }
    /// Copies `load` into memory from `start_pos` on; `ImageTooLarge`, with
    /// nothing written, where it would run past the end of memory.
    pub fn load_memory(&mut self, start_pos: u16, load: &[u8]) -> (r: Result<(), Chip8Error>)
        ensures
            start_pos + load@.len() > 4096 ==> r == Err::<(), Chip8Error>(Chip8Error::ImageTooLarge)
                && final(self)@ == old(self)@,
            start_pos + load@.len() <= 4096 ==> r == Ok::<(), Chip8Error>(()) && final(self)@ == (MachineState {
                ram: written(old(self)@.ram, start_pos as int, load@),
                ..old(self)@
            }),
    {
        if start_pos as usize > MEMORY_SIZE || load.len() > MEMORY_SIZE - start_pos as usize {
            return Err(Chip8Error::ImageTooLarge);
        }
        let start = start_pos as usize;
        let mut i: usize = 0;
        while i < load.len()
            invariant
                start + load@.len() <= 4096,
                i <= load@.len(),
                self@ == (MachineState { ram: self.ram@, ..old(self)@ }),
                forall|a: int|
                    0 <= a < 4096 ==> self.ram@[a] == (if start <= a < start + i {
                        load@[a - start]
                    } else {
                        old(self).ram@[a]
                    }),
            decreases load@.len() - i,
        {
            self.ram[start + i] = load[i];
            i = i + 1;
        }
        assert(self.ram@ =~= written(old(self)@.ram, start_pos as int, load@));
        Ok(())
    }

    /// Loads a program image at `0x200`, where execution starts.
    pub fn load_rom(&mut self, rom: ROM)
        ensures
            final(self)@ == (MachineState {
                ram: written(old(self)@.ram, 0x200, rom.data@),
                ..old(self)@
            }),
    {
        let _ = self.load_memory(PROGRAM_START, &rom.data);
    }

    /// Records the key of the keypad held down, if any.
    pub fn set_input_key(&mut self, key: Option<u8>)
        ensures
            final(self)@ == (MachineState { key, ..old(self)@ }),
    {
        self.input_key = key;
    }

    /// Counts both timers down by `amount`, stopping at zero.
    pub fn decrement_timers(&mut self, amount: u8)
        ensures
            final(self)@ == (MachineState {
                delay: if old(self).delay_timer >= amount { (old(self).delay_timer - amount) as u8 } else { 0 },
                sound: if old(self).sound_timer >= amount { (old(self).sound_timer - amount) as u8 } else { 0 },
                ..old(self)@
            }),
    {
        self.delay_timer = if self.delay_timer >= amount { self.delay_timer - amount } else { 0 };
        self.sound_timer = if self.sound_timer >= amount { self.sound_timer - amount } else { 0 };
    }

    /// Returns the big-endian word at `pc` and moves `pc` past it.
    fn fetch_instruction(&mut self) -> (r: u16)
        ensures
            r == fetch_word(old(self)@),
            final(self)@ == advanced(old(self)@),
    {
        let hi = self.ram[(self.pc as usize) % MEMORY_SIZE] as u16;
        let lo = self.ram[(self.pc as usize + 1) % MEMORY_SIZE] as u16;
        let opcode: u16 = (hi << 8) | lo;
        assert(opcode == hi * 0x100 + lo) by (bit_vector)
            requires
                hi < 0x100,
                lo < 0x100,
                opcode == (hi << 8) | lo,
        ;
        self.pc = ((self.pc as u32 + 2) % 0x10000) as u16;
        opcode
    }

    /// Clear screen.
    fn op_00e0(&mut self)
        ensures
            final(self)@ == (MachineState { screen: blank_screen(), ..old(self)@ }),
    {
        self.display.clear();
    }

    /// Return: pops the call stack into `pc`.
    fn op_00ee(&mut self) -> (r: Result<(), Chip8Error>)
        ensures
            old(self)@.stack.len() == 0 ==> r == Err::<(), Chip8Error>(Chip8Error::StackUnderflow)
                && final(self)@ == old(self)@,
            old(self)@.stack.len() > 0 ==> r == Ok::<(), Chip8Error>(()) && final(self)@ == (MachineState {
                pc: old(self)@.stack.last(),
                stack: old(self)@.stack.drop_last(),
                ..old(self)@
            }),
    {
        match self.call_stack.pop() {
            Some(addr) => {
                self.pc = addr;
                Ok(())
            },
            None => Err(Chip8Error::StackUnderflow),
        }
    }

    /// Jump: sets `pc` to `nnn`.
    fn op_1nnn(&mut self, nnn: u16)
        ensures
            final(self)@ == (MachineState { pc: nnn, ..old(self)@ }),
    {
        self.pc = nnn;
    }

    /// Call: pushes `pc`, then jumps to `nnn`.
    fn op_2nnn(&mut self, nnn: u16)
        ensures
            final(self)@ == (MachineState { pc: nnn, stack: old(self)@.stack.push(old(self).pc), ..old(self)@ }),
    {
        self.call_stack.push(self.pc);
        self.pc = nnn;
    }

    /// Moves `pc` past the next instruction.
    fn skip(&mut self)
        ensures
            final(self)@ == skip_if(old(self)@, true),
    {
        self.pc = ((self.pc as u32 + 2) % 0x10000) as u16;
    }

    /// Skips the next instruction if `Vx` equals `nn`.
    fn op_3xnn(&mut self, x: usize, nn: u8)
        requires
            x < 16,
        ensures
            final(self)@ == skip_if(old(self)@, old(self)@.regs[x as int] == nn),
    {
        if self.var_reg[x] == nn {
            self.skip();
        }
    }

    /// Skips the next instruction if `Vx` does not equal `nn`.
    fn op_4xnn(&mut self, x: usize, nn: u8)
        requires
            x < 16,
        ensures
            final(self)@ == skip_if(old(self)@, old(self)@.regs[x as int] != nn),
    {
        if self.var_reg[x] != nn {
            self.skip();
        }
    }

    /// Skips the next instruction if `Vx` equals `Vy`.
    fn op_5xnn(&mut self, x: usize, y: usize)
        requires
            x < 16,
            y < 16,
        ensures
            final(self)@ == skip_if(old(self)@, old(self)@.regs[x as int] == old(self)@.regs[y as int]),
    {
        if self.var_reg[x] == self.var_reg[y] {
            self.skip();
        }
    }

    /// Skips the next instruction if `Vx` does not equal `Vy`.
    fn op_9xnn(&mut self, x: usize, y: usize)
        requires
            x < 16,
            y < 16,
        ensures
            final(self)@ == skip_if(old(self)@, old(self)@.regs[x as int] != old(self)@.regs[y as int]),
    {
        if self.var_reg[x] != self.var_reg[y] {
            self.skip();
        }
    }

    /// Stores `nn` in `Vx`.
    fn op_6xnn(&mut self, x: usize, nn: u8)
        requires
            x < 16,
        ensures
            final(self)@ == set_reg(old(self)@, x as u8, nn),
    {
        self.var_reg[x] = nn;
    }

    /// Adds `nn` to `Vx`, wrapping; the flag is left alone.
    fn op_7xnn(&mut self, x: usize, nn: u8)
        requires
            x < 16,
        ensures
            final(self)@ == set_reg(old(self)@, x as u8, wrap8(old(self)@.regs[x as int] + nn)),
    {
        self.var_reg[x] = ((self.var_reg[x] as u16 + nn as u16) % 0x100) as u8;
    }

    /// Sets `Vx` to `Vy`.
    fn op_8xy0(&mut self, x: usize, y: usize)
        requires
            x < 16,
            y < 16,
        ensures
            final(self)@ == set_reg(old(self)@, x as u8, old(self)@.regs[y as int]),
    {
        self.var_reg[x] = self.var_reg[y];
    }

    /// Sets `Vx` to `Vx | Vy`.
    fn op_8xy1(&mut self, x: usize, y: usize)
        requires
            x < 16,
            y < 16,
        ensures
            final(self)@ == set_reg(old(self)@, x as u8, old(self)@.regs[x as int] | old(self)@.regs[y as int]),
    {
        self.var_reg[x] = self.var_reg[x] | self.var_reg[y];
    }

    /// Sets `Vx` to `Vx & Vy`.
    fn op_8xy2(&mut self, x: usize, y: usize)
        requires
            x < 16,
            y < 16,
        ensures
            final(self)@ == set_reg(old(self)@, x as u8, old(self)@.regs[x as int] & old(self)@.regs[y as int]),
    {
        self.var_reg[x] = self.var_reg[x] & self.var_reg[y];
    }

    /// Sets `Vx` to `Vx ^ Vy`.
    fn op_8xy3(&mut self, x: usize, y: usize)
        requires
            x < 16,
            y < 16,
        ensures
            final(self)@ == set_reg(old(self)@, x as u8, old(self)@.regs[x as int] ^ old(self)@.regs[y as int]),
    {
        self.var_reg[x] = self.var_reg[x] ^ self.var_reg[y];
    }

    /// Adds `Vy` to `Vx`, wrapping; the flag is the carry.
    fn op_8xy4(&mut self, x: usize, y: usize)
        requires
            x < 16,
            y < 16,
        ensures
            final(self)@ == set_reg_flag(
                old(self)@,
                x as u8,
                wrap8(old(self)@.regs[x as int] + old(self)@.regs[y as int]),
                old(self)@.regs[x as int] + old(self)@.regs[y as int] > 255,
            ),
    {
        let sum = self.var_reg[x] as u16 + self.var_reg[y] as u16;
        self.var_reg[x] = (sum % 0x100) as u8;
        self.var_reg[0xF] = if sum > 255 { 1 } else { 0 };
    }

    /// Subtracts `Vy` from `Vx`, wrapping; the flag is 1 when there is no borrow.
    fn op_8xy5(&mut self, x: usize, y: usize)
        requires
            x < 16,
            y < 16,
        ensures
            final(self)@ == set_reg_flag(
                old(self)@,
                x as u8,
                wrap8(old(self)@.regs[x as int] - old(self)@.regs[y as int]),
                old(self)@.regs[x as int] >= old(self)@.regs[y as int],
            ),
    {
        let vx = self.var_reg[x];
        let vy = self.var_reg[y];
        self.var_reg[x] = ((vx as u16 + 0x100 - vy as u16) % 0x100) as u8;
        self.var_reg[0xF] = if vx >= vy { 1 } else { 0 };
    }

    /// Shift right: `Vx = Vy >> 1`; the flag is the low bit of `Vy`.
    fn op_8xy6(&mut self, x: usize, y: usize)
        requires
            x < 16,
            y < 16,
        ensures
            final(self)@ == set_reg_flag(
                old(self)@,
                x as u8,
                old(self)@.regs[y as int] / 2,
                old(self)@.regs[y as int] % 2 == 1,
            ),
    {
        let vy = self.var_reg[y];
        self.var_reg[x] = vy >> 1;
        self.var_reg[0xF] = vy & 0x1;
        assert(vy >> 1 == vy / 2 && vy & 1 == vy % 2) by (bit_vector);
    }

    /// Reverse subtract: `Vx = Vy - Vx`, wrapping; the flag is 1 when there
    /// is no borrow.
    fn op_8xy7(&mut self, x: usize, y: usize)
        requires
            x < 16,
            y < 16,
        ensures
            final(self)@ == set_reg_flag(
                old(self)@,
                x as u8,
                wrap8(old(self)@.regs[y as int] - old(self)@.regs[x as int]),
                old(self)@.regs[y as int] >= old(self)@.regs[x as int],
            ),
    {
        let vx = self.var_reg[x];
        let vy = self.var_reg[y];
        self.var_reg[x] = ((vy as u16 + 0x100 - vx as u16) % 0x100) as u8;
        self.var_reg[0xF] = if vy >= vx { 1 } else { 0 };
    }

    /// Shift left: `Vx = Vy << 1`; the flag is the high bit of `Vy`.
    fn op_8xye(&mut self, x: usize, y: usize)
        requires
            x < 16,
            y < 16,
        ensures
            final(self)@ == set_reg_flag(
                old(self)@,
                x as u8,
                wrap8(old(self)@.regs[y as int] * 2),
                old(self)@.regs[y as int] >= 128,
            ),
    {
        let vy = self.var_reg[y];
        let val = (vy >> 7) & 1;
        self.var_reg[x] = ((vy as u16 * 2) % 0x100) as u8;
        self.var_reg[0xF] = val;
        assert((vy >> 7) & 1 == (if vy >= 128 { 1u8 } else { 0u8 })) by (bit_vector);
    }
    /// Sets the index register to `nnn`.
    fn op_annn(&mut self, nnn: u16)
        ensures
            final(self)@ == (MachineState { idx: nnn, ..old(self)@ }),
    {
        self.idx_reg = nnn;
    }

    /// Jumps to `nnn` plus `V0`.
    fn op_bnnn(&mut self, nnn: u16)
        requires
            nnn < 0x1000,
        ensures
            final(self)@ == (MachineState { pc: (nnn + old(self)@.regs[0]) as u16, ..old(self)@ }),
    {
        self.pc = nnn + self.var_reg[0] as u16;
    }

    /// Draws the `n`-row sprite at `idx` with its top left corner at
    /// (`Vx mod 64`, `Vy`), XOR-ing it onto the display. Rows wrap around the
    /// bottom edge, columns past the right edge are clipped. The flag is set
    /// to 1 where a pixel that was on is turned off, else to 0.
    fn op_dxyn(&mut self, x: usize, y: usize, n: u8)
        requires
            x < 16,
            y < 16,
            n < 16,
        ensures
            final(self)@ == draw(old(self)@, x as u8, y as u8, n),
    {
        let ghost s = self@;
        proof {
            self.lemma_wf();
        }
        let y_coord = self.var_reg[y] as usize;
        let x_coord = (self.var_reg[x] as usize) % WIDTH;
        let ghost x0 = x_coord as int;
        let ghost y0 = y_coord as int;
        let mut collided = false;
        let mut row: u8 = 0;
        while row < n
            invariant
                s.wf(),
                x < 16,
                y < 16,
                row <= n < 16,
                x0 == (s.regs[x as int] % 64) as int,
                y0 == s.regs[y as int] as int,
                x_coord == x0,
                y_coord == y0,
                self@ == (MachineState { screen: self@.screen, ..s }),
                self@.screen.len() == 2048,
                forall|i: int|
                    #![trigger self@.screen[i]]
                    0 <= i < 2048 ==> self@.screen[i] == (s.screen[i] != drawn_before(
                        s,
                        x0,
                        y0,
                        n as int,
                        i,
                        row as int,
                        0,
                    )),
                collided == exists|i: int|
                    0 <= i < 2048 && s.screen[i] && #[trigger] drawn_before(
                        s,
                        x0,
                        y0,
                        n as int,
                        i,
                        row as int,
                        0,
                    ),
            decreases n - row,
        {
            let sprite_data = self.ram[(self.idx_reg as usize + row as usize) % MEMORY_SIZE];
            let y_pos = (y_coord + row as usize) % HEIGHT;
            proof {
                lemma_row_wraps(y0, row as int);
            }
            let mut col: u8 = 0;
            while col < 8
                invariant
                    s.wf(),
                    x < 16,
                    y < 16,
                    row < n < 16,
                    col <= 8,
                    x0 == (s.regs[x as int] % 64) as int,
                    y0 == s.regs[y as int] as int,
                    x_coord == x0,
                    y_coord == y0,
                    y_pos == (y0 + row) % 32,
                    (y_pos - y0) % 32 == row,
                    sprite_data == mem_at(s.ram, s.idx + row),
                    self@ == (MachineState { screen: self@.screen, ..s }),
                    self@.screen.len() == 2048,
                    forall|i: int|
                        #![trigger self@.screen[i]]
                        0 <= i < 2048 ==> self@.screen[i] == (s.screen[i] != drawn_before(
                            s,
                            x0,
                            y0,
                            n as int,
                            i,
                            row as int,
                            col as int,
                        )),
                    collided == exists|i: int|
                        0 <= i < 2048 && s.screen[i] && #[trigger] drawn_before(
                            s,
                            x0,
                            y0,
                            n as int,
                            i,
                            row as int,
                            col as int,
                        ),
                decreases 8 - col,
            {
                let bit = (sprite_data >> (7 - col)) & 0x1;
                let x_pos = x_coord + col as usize;
                let ghost p = cell(y_pos as int, x_pos as int);
                let ghost before = self@.screen;
                let ghost was_collided = collided;
                proof {
                    assert(bit == 1 <==> sprite_bit(sprite_data, col));
                }
                if bit == 1 && x_pos < WIDTH {
                    let curr_pixel = self.display.get_pixel(y_pos, x_pos);
                    if curr_pixel {
                        collided = true;
                    }
                    self.display.flip_pixel(y_pos, x_pos);
                }
                proof {
                    assert forall|i: int| 0 <= i < 2048 implies drawn_before(
                        s, x0, y0, n as int, i, row as int, col + 1,
                    ) == (drawn_before(s, x0, y0, n as int, i, row as int, col as int) || (
                    bit == 1 && x_pos < 64 && i == p)) by {
                        lemma_cell_of(i);
                        if x_pos < 64 {
                            lemma_cell_of_pos(y_pos as int, x_pos as int);
                        }
                    }
                    if bit == 1 && x_pos < 64 {
                        lemma_cell_of_pos(y_pos as int, x_pos as int);
                        assert(!drawn_before(s, x0, y0, n as int, p, row as int, col as int));
                        assert(before[p] == s.screen[p]);
                    }
                    if was_collided {
                        let w = choose|i: int|
                            0 <= i < 2048 && s.screen[i] && #[trigger] drawn_before(
                                s, x0, y0, n as int, i, row as int, col as int,
                            );
                        assert(drawn_before(s, x0, y0, n as int, w, row as int, col + 1));
                    } else if collided {
                        assert(s.screen[p] && drawn_before(s, x0, y0, n as int, p, row as int, col + 1));
                    } else {
                        assert forall|i: int| 0 <= i < 2048 && s.screen[i] implies !#[trigger] drawn_before(
                            s, x0, y0, n as int, i, row as int, col + 1,
                        ) by {
                            assert(!drawn_before(s, x0, y0, n as int, i, row as int, col as int));
                        }
                    }
                }
                col = col + 1;
            }
            row = row + 1;
            proof {
                assert forall|i: int| 0 <= i < 2048 implies drawn_before(
                    s, x0, y0, n as int, i, row as int, 0,
                ) == drawn_before(s, x0, y0, n as int, i, row as int - 1, 8) by {
                    lemma_cell_of(i);
                }
                if collided {
                    let w = choose|i: int|
                        0 <= i < 2048 && s.screen[i] && #[trigger] drawn_before(
                            s, x0, y0, n as int, i, row as int - 1, 8,
                        );
                    assert(drawn_before(s, x0, y0, n as int, w, row as int, 0));
                } else {
                    assert forall|i: int| 0 <= i < 2048 && s.screen[i] implies !#[trigger] drawn_before(
                        s, x0, y0, n as int, i, row as int, 0,
                    ) by {
                        assert(!drawn_before(s, x0, y0, n as int, i, row as int - 1, 8));
                    }
                }
            }
        }
        proof {
            assert forall|i: int| 0 <= i < 2048 implies drawn_before(
                s, x0, y0, n as int, i, n as int, 0,
            ) == covers(s, x0, y0, n as int, i / 64, i % 64) by {
                lemma_cell_of(i);
            }
            assert(self@.screen =~= drawn(s, x0, y0, n as int));
            if collided {
                let w = choose|i: int|
                    0 <= i < 2048 && s.screen[i] && #[trigger] drawn_before(
                        s, x0, y0, n as int, i, n as int, 0,
                    );
                assert(covers(s, x0, y0, n as int, w / 64, w % 64));
            } else {
                assert forall|i: int| 0 <= i < 2048 && s.screen[i] implies !#[trigger] covers(
                    s, x0, y0, n as int, i / 64, i % 64,
                ) by {
                    assert(!drawn_before(s, x0, y0, n as int, i, n as int, 0));
                }
            }
            assert(collided == collides(s, x0, y0, n as int));
        }
        self.var_reg[0xF] = if collided { 1 } else { 0 };
    }

    /// Skips the next instruction if the key `Vx` is held down.
    fn op_ex9e(&mut self, x: usize)
        requires
            x < 16,
        ensures
            final(self)@ == skip_if(old(self)@, old(self)@.key == Some(old(self)@.regs[x as int])),
    {
        let held = match self.input_key {
            Some(k) => k == self.var_reg[x],
            None => false,
        };
        if held {
            self.skip();
        }
    }

    /// Skips the next instruction unless the key `Vx` is held down.
    fn op_exa1(&mut self, x: usize)
        requires
            x < 16,
        ensures
            final(self)@ == skip_if(old(self)@, old(self)@.key != Some(old(self)@.regs[x as int])),
    {
        let held = match self.input_key {
            Some(k) => k == self.var_reg[x],
            None => false,
        };
        if !held {
            self.skip();
        }
    }

    /// Reads the delay timer into `Vx`.
    fn op_fx07(&mut self, x: usize)
        requires
            x < 16,
        ensures
            final(self)@ == set_reg(old(self)@, x as u8, old(self)@.delay),
    {
        self.var_reg[x] = self.delay_timer;
    }

    /// Waits for a key: stores the key held down in `Vx`, or, with none held,
    /// moves `pc` back so that this instruction runs again.
    fn op_fx0a(&mut self, x: usize)
        requires
            x < 16,
        ensures
            final(self)@ == (match old(self)@.key {
                Some(k) => set_reg(old(self)@, x as u8, k),
                None => MachineState { pc: wrap16(old(self)@.pc - 2), ..old(self)@ },
            }),
    {
        match self.input_key {
            Some(k) => {
                self.var_reg[x] = k;
            },
            None => {
                self.pc = ((self.pc as u32 + 0xFFFE) % 0x10000) as u16;
            },
        }
    }

    /// Sets the delay timer to `Vx`.
    fn op_fx15(&mut self, x: usize)
        requires
            x < 16,
        ensures
            final(self)@ == (MachineState { delay: old(self)@.regs[x as int], ..old(self)@ }),
    {
        self.delay_timer = self.var_reg[x];
    }

    /// Sets the sound timer to `Vx`.
    fn op_fx18(&mut self, x: usize)
        requires
            x < 16,
        ensures
            final(self)@ == (MachineState { sound: old(self)@.regs[x as int], ..old(self)@ }),
    {
        self.sound_timer = self.var_reg[x];
    }

    /// Adds `Vx` to the index register, wrapping.
    fn op_fx1e(&mut self, x: usize)
        requires
            x < 16,
        ensures
            final(self)@ == (MachineState {
                idx: wrap16(old(self)@.idx + old(self)@.regs[x as int]),
                ..old(self)@
            }),
    {
        self.idx_reg = ((self.idx_reg as u32 + self.var_reg[x] as u32) % 0x10000) as u16;
    }

    /// Points the index register at the glyph of the low digit of `Vx`.
    fn op_fx29(&mut self, x: usize)
        requires
            x < 16,
        ensures
            final(self)@ == (MachineState {
                idx: (0x50 + 5 * (old(self)@.regs[x as int] % 16)) as u16,
                ..old(self)@
            }),
    {
        self.idx_reg = FONT_START as u16 + 5 * (self.var_reg[x] % 16) as u16;
    }

    /// Stores the hundreds, tens and units of `Vx` at `idx`, `idx + 1` and
    /// `idx + 2`.
    fn op_fx33(&mut self, x: usize)
        requires
            x < 16,
        ensures
            final(self)@ == (MachineState { ram: stored_bcd(old(self)@, x as u8), ..old(self)@ }),
    {
        let v = self.var_reg[x];
        let base = self.idx_reg as usize;
        self.ram[base % MEMORY_SIZE] = v / 100;
        self.ram[(base + 1) % MEMORY_SIZE] = (v / 10) % 10;
        self.ram[(base + 2) % MEMORY_SIZE] = v % 10;
    }

    /// Copies `V0..=Vx` to memory from `idx` on.
    fn op_fx55(&mut self, x: usize)
        requires
            x < 16,
        ensures
            final(self)@ == (MachineState { ram: stored_regs(old(self)@, x as u8), ..old(self)@ }),
    {
        let ghost s = self@;
        let base = self.idx_reg as usize;
        let mut i: usize = 0;
        while i <= x
            invariant
                x < 16,
                i <= x + 1,
                base == s.idx,
                self@ == (MachineState { ram: self@.ram, ..s }),
                self@.ram.len() == 4096,
                forall|a: int|
                    #![trigger self@.ram[a]]
                    0 <= a < 4096 ==> self@.ram[a] == (if (a - s.idx) % 4096 < i {
                        s.regs[(a - s.idx) % 4096]
                    } else {
                        s.ram[a]
                    }),
            decreases x + 1 - i,
        {
            let dst = (base + i) % MEMORY_SIZE;
            self.ram[dst] = self.var_reg[i];
            proof {
                assert forall|a: int|
                    #![trigger self@.ram[a]]
                    0 <= a < 4096 implies ((a - s.idx) % 4096 == i <==> a == dst) by {
                    lemma_offset(a, s.idx as int, i as int);
                }
            }
            i = i + 1;
        }
        assert(self@.ram =~= stored_regs(s, x as u8));
    }

    /// Copies memory from `idx` on into `V0..=Vx`.
    fn op_fx65(&mut self, x: usize)
        requires
            x < 16,
        ensures
            final(self)@ == (MachineState { regs: loaded_regs(old(self)@, x as u8), ..old(self)@ }),
    {
        let ghost s = self@;
        let base = self.idx_reg as usize;
        let mut i: usize = 0;
        while i <= x
            invariant
                x < 16,
                i <= x + 1,
                base == s.idx,
                self@ == (MachineState { regs: self@.regs, ..s }),
                self@.regs.len() == 16,
                forall|j: int|
                    #![trigger self@.regs[j]]
                    0 <= j < 16 ==> self@.regs[j] == (if j < i {
                        mem_at(s.ram, s.idx + j)
                    } else {
                        s.regs[j]
                    }),
            decreases x + 1 - i,
        {
            self.var_reg[i] = self.ram[(base + i) % MEMORY_SIZE];
            i = i + 1;
        }
        assert(self@.regs =~= loaded_regs(s, x as u8));
    }
    /// Executes one decoded instruction, the fetch that moved `pc` on being
    /// already done. Fails only on a return with an empty call stack, and
    /// then leaves the machine as it was.
    pub fn execute(&mut self, ins: Instruction) -> (r: Result<(), Chip8Error>)
        requires
            ins.wf(),
        ensures
            follows(old(self)@, final(self)@, r, apply(old(self)@, ins)),
    {
        reveal(apply);
        match ins {
            Instruction::ClearScreen => self.op_00e0(),
            Instruction::Return => {
                return self.op_00ee();
            },
            Instruction::Jump { nnn } => self.op_1nnn(nnn),
            Instruction::Call { nnn } => self.op_2nnn(nnn),
            Instruction::SkipEqImm { x, nn } => self.op_3xnn(x as usize, nn),
            Instruction::SkipNeImm { x, nn } => self.op_4xnn(x as usize, nn),
            Instruction::SkipEqReg { x, y } => self.op_5xnn(x as usize, y as usize),
            Instruction::SetImm { x, nn } => self.op_6xnn(x as usize, nn),
            Instruction::AddImm { x, nn } => self.op_7xnn(x as usize, nn),
            Instruction::Assign { x, y } => self.op_8xy0(x as usize, y as usize),
            Instruction::Or { x, y } => self.op_8xy1(x as usize, y as usize),
            Instruction::And { x, y } => self.op_8xy2(x as usize, y as usize),
            Instruction::Xor { x, y } => self.op_8xy3(x as usize, y as usize),
            Instruction::Add { x, y } => self.op_8xy4(x as usize, y as usize),
            Instruction::Sub { x, y } => self.op_8xy5(x as usize, y as usize),
            Instruction::ShiftRight { x, y } => self.op_8xy6(x as usize, y as usize),
            Instruction::ReverseSub { x, y } => self.op_8xy7(x as usize, y as usize),
            Instruction::ShiftLeft { x, y } => self.op_8xye(x as usize, y as usize),
            Instruction::SkipNeReg { x, y } => self.op_9xnn(x as usize, y as usize),
            Instruction::SetIndex { nnn } => self.op_annn(nnn),
            Instruction::JumpOffset { nnn } => self.op_bnnn(nnn),
            Instruction::Draw { x, y, n } => self.op_dxyn(x as usize, y as usize, n),
            Instruction::SkipKeyDown { x } => self.op_ex9e(x as usize),
            Instruction::SkipKeyUp { x } => self.op_exa1(x as usize),
            Instruction::ReadDelay { x } => self.op_fx07(x as usize),
            Instruction::WaitKey { x } => self.op_fx0a(x as usize),
            Instruction::SetDelay { x } => self.op_fx15(x as usize),
            Instruction::SetSound { x } => self.op_fx18(x as usize),
            Instruction::AddIndex { x } => self.op_fx1e(x as usize),
            Instruction::FontChar { x } => self.op_fx29(x as usize),
            Instruction::StoreBcd { x } => self.op_fx33(x as usize),
            Instruction::StoreRegs { x } => self.op_fx55(x as usize),
            Instruction::LoadRegs { x } => self.op_fx65(x as usize),
        }
        Ok(())
    }

    /// Performs a single fetch, decode and execute cycle: reads the
    /// big-endian word at `pc`, moves `pc` past it, and executes it.
    /// `UnsupportedOpcode` where the word encodes no supported instruction,
    /// `StackUnderflow` on a return with an empty stack; on either the
    /// machine is left as the fetch left it.
    pub fn cycle(&mut self) -> (r: Result<(), Chip8Error>)
        ensures
            (final(self)@, r) == step(old(self)@),
    {
        let ghost s = self@;
        let instruction: u16 = self.fetch_instruction();
        let ghost t = self@;
        let opcode: Opcode = Opcode::new(instruction);
        let decoded = Instruction::from_opcode(&opcode);
        assert(decoded == decode(fetch_word(s)) && t == advanced(s));
        match decoded {
            Some(ins) => {
                let r = self.execute(ins);
                assert(follows(t, self@, r, apply(t, ins)));
                r
            },
            None => Err(Chip8Error::UnsupportedOpcode(instruction)),
        }
    }
}

/// Whether the sprite sets pixel `i` from one of the positions the drawing
/// loop has passed: a row before `row`, or a column before `col` of `row`.
pub open spec fn drawn_before(s: MachineState, x0: int, y0: int, n: int, i: int, row: int, col: int) -> bool {
    let r = i / 64;
    let c = i % 64;
    let k = (r - y0) % 32;
    &&& covers(s, x0, y0, n, r, c)
    &&& (k < row || (k == row && c - x0 < col))
}

/// Row and column of a pixel index.
proof fn lemma_cell_of(i: int)
    requires
        0 <= i < 2048,
    ensures
        0 <= i / 64 < 32,
        0 <= i % 64 < 64,
        i == cell(i / 64, i % 64),
{
}

/// The pixel index of a row and column gives them back.
proof fn lemma_cell_of_pos(r: int, c: int)
    requires
        0 <= r < 32,
        0 <= c < 64,
    ensures
        cell(r, c) / 64 == r,
        cell(r, c) % 64 == c,
        0 <= cell(r, c) < 2048,
{
}

/// Sprite row `row` lands on screen row `(y0 + row) % 32`, and no other
/// sprite row does.
proof fn lemma_row_wraps(y0: int, row: int)
    requires
        0 <= row < 32,
    ensures
        (((y0 + row) % 32) - y0) % 32 == row,
{
}

} // verus!
