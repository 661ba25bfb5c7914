//! The meaning of every instruction, as functions on an abstract machine
//! state. The executable machine is proved to follow them step by step.
use vstd::prelude::*;
use crate::display::blank_screen;
use crate::error::Chip8Error;
use crate::instruction::{decode, Instruction};

verus! {

/// The whole state of a machine: memory, display, program counter, index
/// register, the sixteen registers, call stack, timers and the key held down.
pub struct MachineState {
    pub ram: Seq<u8>,
    pub screen: Seq<bool>,
    pub pc: u16,
    pub idx: u16,
    pub regs: Seq<u8>,
    pub stack: Seq<u16>,
    pub delay: u8,
    pub sound: u8,
    pub key: Option<u8>,
}

impl MachineState {
    /// Memory, display and registers have their fixed sizes.
    pub open spec fn wf(self) -> bool {
        &&& self.ram.len() == 4096
        &&& self.screen.len() == 2048
        &&& self.regs.len() == 16
    }
}

/// The glyphs of the sixteen hexadecimal digits, five rows of four pixels each.
pub open spec fn font() -> Seq<u8> {
    seq![
        0xF0, 0x90, 0x90, 0x90, 0xF0, 0x20, 0x60, 0x20, 0x20, 0x70,
        0xF0, 0x10, 0xF0, 0x80, 0xF0, 0xF0, 0x10, 0xF0, 0x10, 0xF0,
        0x90, 0x90, 0xF0, 0x10, 0x10, 0xF0, 0x80, 0xF0, 0x10, 0xF0,
        0xF0, 0x80, 0xF0, 0x90, 0xF0, 0xF0, 0x10, 0x20, 0x40, 0x40,
        0xF0, 0x90, 0xF0, 0x90, 0xF0, 0xF0, 0x90, 0xF0, 0x10, 0xF0,
        0xF0, 0x90, 0xF0, 0x90, 0x90, 0xE0, 0x90, 0xE0, 0x90, 0xE0,
        0xF0, 0x80, 0x80, 0x80, 0xF0, 0xE0, 0x90, 0x90, 0x90, 0xE0,
        0xF0, 0x80, 0xF0, 0x80, 0xF0, 0xF0, 0x80, 0xF0, 0x80, 0x80,
    ]
}

/// Memory at power-on: zero but for the font table at `0x050`.
pub open spec fn initial_ram() -> Seq<u8> {
    Seq::new(4096, |a: int| if 0x50 <= a < 0xA0 { font()[a - 0x50] } else { 0u8 })
}

/// A freshly initialised machine, about to run the program at `0x200`.
pub open spec fn initial_state() -> MachineState {
    MachineState {
        ram: initial_ram(),
        screen: blank_screen(),
        pc: 0x200,
        idx: 0,
        regs: Seq::new(16, |i: int| 0u8),
        stack: Seq::empty(),
        delay: 0,
        sound: 0,
        key: None,
    }
}

/// `v` reduced to a byte, as 8-bit wraparound arithmetic does.
pub open spec fn wrap8(v: int) -> u8 {
    (v % 0x100) as u8
}

/// `v` reduced to 16 bits, as 16-bit wraparound arithmetic does.
pub open spec fn wrap16(v: int) -> u16 {
    (v % 0x10000) as u16
}

/// The byte at `addr`; addresses are taken modulo the 4096 bytes of memory.
pub open spec fn mem_at(ram: Seq<u8>, addr: int) -> u8 {
    ram[addr % 4096]
}

/// The big-endian word at `pc`.
pub open spec fn fetch_word(s: MachineState) -> u16 {
    (mem_at(s.ram, s.pc as int) * 0x100 + mem_at(s.ram, s.pc + 1)) as u16
}

/// `s` with `pc` moved past one more instruction when `cond` holds.
pub open spec fn skip_if(s: MachineState, cond: bool) -> MachineState {
    if cond {
        MachineState { pc: wrap16(s.pc + 2), ..s }
    } else {
        s
    }
}

/// `s` with register `x` set to `v`.
pub open spec fn set_reg(s: MachineState, x: u8, v: u8) -> MachineState {
    MachineState { regs: s.regs.update(x as int, v), ..s }
}

/// `s` with register `x` set to `v`, then the flag register to `flag`.
pub open spec fn set_reg_flag(s: MachineState, x: u8, v: u8, flag: bool) -> MachineState {
    MachineState {
        regs: s.regs.update(x as int, v).update(15, if flag { 1u8 } else { 0u8 }),
        ..s
    }
}

/// Whether column `col` (0 the leftmost, 7 the rightmost) of a sprite row is set.
pub open spec fn sprite_bit(byte: u8, col: u8) -> bool {
    (byte >> ((7 - col) as u8)) & 1u8 == 1u8
}

/// Whether the sprite of `n` rows at `idx`, drawn with its top left corner
/// at column `x0` and row `y0`, sets the pixel at (`r`, `c`). Rows wrap
/// around the bottom edge; columns past the right edge are clipped.
pub open spec fn covers(s: MachineState, x0: int, y0: int, n: int, r: int, c: int) -> bool {
    let row = (r - y0) % 32;
    let col = c - x0;
    &&& row < n
    &&& 0 <= col < 8
    &&& sprite_bit(mem_at(s.ram, s.idx + row), col as u8)
}

/// The screen after the sprite is XOR-drawn onto it.
pub open spec fn drawn(s: MachineState, x0: int, y0: int, n: int) -> Seq<bool> {
    Seq::new(2048, |i: int| s.screen[i] != covers(s, x0, y0, n, i / 64, i % 64))
}

/// Whether the sprite turns off a pixel that was on.
pub open spec fn collides(s: MachineState, x0: int, y0: int, n: int) -> bool {
    exists|i: int| 0 <= i < 2048 && s.screen[i] && #[trigger] covers(s, x0, y0, n, i / 64, i % 64)
}

/// Draws the sprite of `n` rows at `idx` at (`Vx mod 64`, `Vy`); the flag
/// register reports a collision.
pub open spec fn draw(s: MachineState, x: u8, y: u8, n: u8) -> MachineState {
    let x0 = (s.regs[x as int] % 64) as int;
    let y0 = s.regs[y as int] as int;
    MachineState {
        screen: drawn(s, x0, y0, n as int),
        regs: s.regs.update(15, if collides(s, x0, y0, n as int) { 1u8 } else { 0u8 }),
        ..s
    }
}

/// Memory after `V0..=Vx` are copied to `idx`, `idx + 1`, ...
pub open spec fn stored_regs(s: MachineState, x: u8) -> Seq<u8> {
    Seq::new(4096, |a: int| {
        let off = (a - s.idx) % 4096;
        if off <= x { s.regs[off] } else { s.ram[a] }
    })
}

/// Registers after `V0..=Vx` are loaded from `idx`, `idx + 1`, ...
pub open spec fn loaded_regs(s: MachineState, x: u8) -> Seq<u8> {
    Seq::new(16, |i: int| if i <= x { mem_at(s.ram, s.idx + i) } else { s.regs[i] })
}

/// Memory after the hundreds, tens and units of `Vx` are stored at `idx`.
pub open spec fn stored_bcd(s: MachineState, x: u8) -> Seq<u8> {
    let v = s.regs[x as int];
    s.ram.update(s.idx as int % 4096, v / 100).update((s.idx + 1) % 4096, (v / 10) % 10).update(
        (s.idx + 2) % 4096,
        v % 10,
    )
}

/// The effect of executing `ins` on `s`, after the fetch has moved `pc` on.
/// The one failure is a return with an empty call stack.
#[verifier::opaque]
pub open spec fn apply(s: MachineState, ins: Instruction) -> Result<MachineState, Chip8Error> {
    let r = s.regs;
    match ins {
        Instruction::ClearScreen => Ok(MachineState { screen: blank_screen(), ..s }),
        Instruction::Return => if s.stack.len() == 0 {
            Err(Chip8Error::StackUnderflow)
        } else {
            Ok(MachineState { pc: s.stack.last(), stack: s.stack.drop_last(), ..s })
        },
        Instruction::Jump { nnn } => Ok(MachineState { pc: nnn, ..s }),
        Instruction::Call { nnn } => Ok(MachineState { pc: nnn, stack: s.stack.push(s.pc), ..s }),
        Instruction::SkipEqImm { x, nn } => Ok(skip_if(s, r[x as int] == nn)),
        Instruction::SkipNeImm { x, nn } => Ok(skip_if(s, r[x as int] != nn)),
        Instruction::SkipEqReg { x, y } => Ok(skip_if(s, r[x as int] == r[y as int])),
        Instruction::SetImm { x, nn } => Ok(set_reg(s, x, nn)),
        Instruction::AddImm { x, nn } => Ok(set_reg(s, x, wrap8(r[x as int] + nn))),
        Instruction::Assign { x, y } => Ok(set_reg(s, x, r[y as int])),
        Instruction::Or { x, y } => Ok(set_reg(s, x, r[x as int] | r[y as int])),
        Instruction::And { x, y } => Ok(set_reg(s, x, r[x as int] & r[y as int])),
        Instruction::Xor { x, y } => Ok(set_reg(s, x, r[x as int] ^ r[y as int])),
        Instruction::Add { x, y } => Ok(
            set_reg_flag(s, x, wrap8(r[x as int] + r[y as int]), r[x as int] + r[y as int] > 255),
        ),
        Instruction::Sub { x, y } => Ok(
            set_reg_flag(s, x, wrap8(r[x as int] - r[y as int]), r[x as int] >= r[y as int]),
        ),
        Instruction::ShiftRight { x, y } => Ok(
            set_reg_flag(s, x, r[y as int] / 2, r[y as int] % 2 == 1),
        ),
        Instruction::ReverseSub { x, y } => Ok(
            set_reg_flag(s, x, wrap8(r[y as int] - r[x as int]), r[y as int] >= r[x as int]),
        ),
        Instruction::ShiftLeft { x, y } => Ok(
            set_reg_flag(s, x, wrap8(r[y as int] * 2), r[y as int] >= 128),
        ),
        Instruction::SkipNeReg { x, y } => Ok(skip_if(s, r[x as int] != r[y as int])),
        Instruction::SetIndex { nnn } => Ok(MachineState { idx: nnn, ..s }),
        Instruction::JumpOffset { nnn } => Ok(MachineState { pc: (nnn + r[0]) as u16, ..s }),
        Instruction::Draw { x, y, n } => Ok(draw(s, x, y, n)),
        Instruction::SkipKeyDown { x } => Ok(skip_if(s, s.key == Some(r[x as int]))),
        Instruction::SkipKeyUp { x } => Ok(skip_if(s, s.key != Some(r[x as int]))),
        Instruction::ReadDelay { x } => Ok(set_reg(s, x, s.delay)),
        Instruction::WaitKey { x } => Ok(
            match s.key {
                Some(k) => set_reg(s, x, k),
                None => MachineState { pc: wrap16(s.pc - 2), ..s },
            },
        ),
        Instruction::SetDelay { x } => Ok(MachineState { delay: r[x as int], ..s }),
        Instruction::SetSound { x } => Ok(MachineState { sound: r[x as int], ..s }),
        Instruction::AddIndex { x } => Ok(MachineState { idx: wrap16(s.idx + r[x as int]), ..s }),
        Instruction::FontChar { x } => Ok(
            MachineState { idx: (0x50 + 5 * (r[x as int] % 16)) as u16, ..s },
        ),
        Instruction::StoreBcd { x } => Ok(MachineState { ram: stored_bcd(s, x), ..s }),
        Instruction::StoreRegs { x } => Ok(MachineState { ram: stored_regs(s, x), ..s }),
        Instruction::LoadRegs { x } => Ok(MachineState { regs: loaded_regs(s, x), ..s }),
    }
}

/// Memory with `bytes` written from address `start` on.
pub open spec fn written(ram: Seq<u8>, start: int, bytes: Seq<u8>) -> Seq<u8> {
    Seq::new(ram.len(), |a: int| if start <= a < start + bytes.len() { bytes[a - start] } else { ram[a] })
}

/// How a state-changing call relates its states and outcome to the expected
/// result: on success the new state is the expected one, on failure the error
/// is the expected one and the state is left as it was.
pub open spec fn follows(
    before: MachineState,
    after: MachineState,
    r: Result<(), Chip8Error>,
    expected: Result<MachineState, Chip8Error>,
) -> bool {
    match expected {
        Ok(t) => r == Ok::<(), Chip8Error>(()) && after == t,
        Err(e) => r == Err::<(), Chip8Error>(e) && after == before,
    }
}

/// The address `(idx + i) % 4096` is the one address at offset `i` from `idx`.
pub proof fn lemma_offset(a: int, idx: int, i: int)
    requires
        0 <= a < 4096,
        0 <= i < 4096,
    ensures
        (a - idx) % 4096 == i <==> a == (idx + i) % 4096,
{
}

/// `s` with `pc` moved past the instruction it points at.
pub open spec fn advanced(s: MachineState) -> MachineState {
    MachineState { pc: wrap16(s.pc + 2), ..s }
}

/// One fetch-decode-execute step: the state after it, and its outcome. On a
/// failure the state is the one right after the fetch.
pub open spec fn step(s: MachineState) -> (MachineState, Result<(), Chip8Error>) {
    let word = fetch_word(s);
    let t = advanced(s);
    match decode(word) {
        None => (t, Err(Chip8Error::UnsupportedOpcode(word))),
        Some(ins) => match apply(t, ins) {
            Ok(u) => (u, Ok(())),
            Err(e) => (t, Err(e)),
        },
    }
}

} // verus!
