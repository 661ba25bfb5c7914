//! The instruction set as a closed set of variants, and the decoding of an
//! instruction word into one of them.
use vstd::prelude::*;
use crate::opcode::{addr_nnn, byte_nn, nibble_n, nibble_w, nibble_x, nibble_y, Opcode};

verus! {

/// One instruction of the machine. `x` and `y` name registers, `nn` is an
/// immediate byte, `nnn` an address and `n` a sprite height.
#[derive(Debug, Clone, Copy, PartialEq, Eq, Structural)]
pub enum Instruction {
    /// `00E0`: turn every pixel off.
    ClearScreen,
    /// `00EE`: pop the call stack into `pc`.
    Return,
    /// `1NNN`: `pc = nnn`.
    Jump { nnn: u16 },
    /// `2NNN`: push `pc`, then `pc = nnn`.
    Call { nnn: u16 },
    /// `3XNN`: skip the next instruction if `Vx == nn`.
    SkipEqImm { x: u8, nn: u8 },
    /// `4XNN`: skip the next instruction if `Vx != nn`.
    SkipNeImm { x: u8, nn: u8 },
    /// `5XY_`: skip the next instruction if `Vx == Vy`.
    SkipEqReg { x: u8, y: u8 },
    /// `6XNN`: `Vx = nn`.
    SetImm { x: u8, nn: u8 },
    /// `7XNN`: `Vx += nn`, wrapping, flag untouched.
    AddImm { x: u8, nn: u8 },
    /// `8XY0`: `Vx = Vy`.
    Assign { x: u8, y: u8 },
    /// `8XY1`: `Vx |= Vy`.
    Or { x: u8, y: u8 },
    /// `8XY2`: `Vx &= Vy`.
    And { x: u8, y: u8 },
    /// `8XY3`: `Vx ^= Vy`.
    Xor { x: u8, y: u8 },
    /// `8XY4`: `Vx += Vy`, wrapping; the flag is the carry.
    Add { x: u8, y: u8 },
    /// `8XY5`: `Vx -= Vy`, wrapping; the flag is 1 when there is no borrow.
    Sub { x: u8, y: u8 },
    /// `8XY6`: `Vx = Vy >> 1`; the flag is the bit shifted out.
    ShiftRight { x: u8, y: u8 },
    /// `8XY7`: `Vx = Vy - Vx`, wrapping; the flag is 1 when there is no borrow.
    ReverseSub { x: u8, y: u8 },
    /// `8XYE`: `Vx = Vy << 1`; the flag is the bit shifted out.
    ShiftLeft { x: u8, y: u8 },
    /// `9XY_`: skip the next instruction if `Vx != Vy`.
    SkipNeReg { x: u8, y: u8 },
    /// `ANNN`: `idx = nnn`.
    SetIndex { nnn: u16 },
    /// `BNNN`: `pc = nnn + V0`.
    JumpOffset { nnn: u16 },
    /// `DXYN`: draw the `n`-row sprite at `idx` at (`Vx`, `Vy`); the flag
    /// reports a collision.
    Draw { x: u8, y: u8, n: u8 },
    /// `EX9E`: skip the next instruction if the key `Vx` is pressed.
    SkipKeyDown { x: u8 },
    /// `EXA1`: skip the next instruction unless the key `Vx` is pressed.
    SkipKeyUp { x: u8 },
    /// `FX07`: `Vx = delay timer`.
    ReadDelay { x: u8 },
    /// `FX0A`: wait for a key press and store the key in `Vx`.
    WaitKey { x: u8 },
    /// `FX15`: `delay timer = Vx`.
    SetDelay { x: u8 },
    /// `FX18`: `sound timer = Vx`.
    SetSound { x: u8 },
    /// `FX1E`: `idx += Vx`, wrapping.
    AddIndex { x: u8 },
    /// `FX29`: point `idx` at the glyph of the hexadecimal digit in `Vx`.
    FontChar { x: u8 },
    /// `FX33`: store the three decimal digits of `Vx` at `idx`.
    StoreBcd { x: u8 },
    /// `FX55`: copy `V0..=Vx` to memory at `idx`.
    StoreRegs { x: u8 },
    /// `FX65`: copy memory at `idx` to `V0..=Vx`.
    LoadRegs { x: u8 },
}

impl Instruction {
    /// Every register operand names one of the sixteen registers, every
    /// address fits in twelve bits and a sprite has at most fifteen rows.
    pub open spec fn wf(self) -> bool {
        match self {
            Instruction::ClearScreen | Instruction::Return => true,
            Instruction::Jump { nnn }
            | Instruction::Call { nnn }
            | Instruction::SetIndex { nnn }
            | Instruction::JumpOffset { nnn } => nnn < 0x1000,
            Instruction::SkipEqImm { x, .. }
            | Instruction::SkipNeImm { x, .. }
            | Instruction::SetImm { x, .. }
            | Instruction::AddImm { x, .. }
            | Instruction::SkipKeyDown { x }
            | Instruction::SkipKeyUp { x }
            | Instruction::ReadDelay { x }
            | Instruction::WaitKey { x }
            | Instruction::SetDelay { x }
            | Instruction::SetSound { x }
            | Instruction::AddIndex { x }
            | Instruction::FontChar { x }
            | Instruction::StoreBcd { x }
            | Instruction::StoreRegs { x }
            | Instruction::LoadRegs { x } => x < 16,
            Instruction::SkipEqReg { x, y }
            | Instruction::Assign { x, y }
            | Instruction::Or { x, y }
            | Instruction::And { x, y }
            | Instruction::Xor { x, y }
            | Instruction::Add { x, y }
            | Instruction::Sub { x, y }
            | Instruction::ShiftRight { x, y }
            | Instruction::ReverseSub { x, y }
            | Instruction::ShiftLeft { x, y }
            | Instruction::SkipNeReg { x, y } => x < 16 && y < 16,
            Instruction::Draw { x, y, n } => x < 16 && y < 16 && n < 16,
        }
    }
}

/// The `8XY_` arithmetic and logic family, selected by the low nibble.
pub open spec fn decode_alu(x: u8, y: u8, n: u8) -> Option<Instruction> {
    match n {
        0x0 => Some(Instruction::Assign { x, y }),
        0x1 => Some(Instruction::Or { x, y }),
        0x2 => Some(Instruction::And { x, y }),
        0x3 => Some(Instruction::Xor { x, y }),
        0x4 => Some(Instruction::Add { x, y }),
        0x5 => Some(Instruction::Sub { x, y }),
        0x6 => Some(Instruction::ShiftRight { x, y }),
        0x7 => Some(Instruction::ReverseSub { x, y }),
        0xE => Some(Instruction::ShiftLeft { x, y }),
        _ => None,
    }
}

/// The `EX__` key family, selected by the low byte.
pub open spec fn decode_key(x: u8, nn: u8) -> Option<Instruction> {
    match nn {
        0x9E => Some(Instruction::SkipKeyDown { x }),
        0xA1 => Some(Instruction::SkipKeyUp { x }),
        _ => None,
    }
}

/// The `FX__` timer, index and memory family, selected by the low byte.
pub open spec fn decode_misc(x: u8, nn: u8) -> Option<Instruction> {
    match nn {
        0x07 => Some(Instruction::ReadDelay { x }),
        0x0A => Some(Instruction::WaitKey { x }),
        0x15 => Some(Instruction::SetDelay { x }),
        0x18 => Some(Instruction::SetSound { x }),
        0x1E => Some(Instruction::AddIndex { x }),
        0x29 => Some(Instruction::FontChar { x }),
        0x33 => Some(Instruction::StoreBcd { x }),
        0x55 => Some(Instruction::StoreRegs { x }),
        0x65 => Some(Instruction::LoadRegs { x }),
        _ => None,
    }
}

/// The instruction that the word `i` encodes, or `None` where it encodes none
/// that the machine supports.
pub open spec fn decode(i: u16) -> Option<Instruction> {
    let x = nibble_x(i);
    let y = nibble_y(i);
    let nn = byte_nn(i);
    let nnn = addr_nnn(i);
    match nibble_w(i) {
        0x0 => if i == 0x00E0 {
            Some(Instruction::ClearScreen)
        } else if i == 0x00EE {
            Some(Instruction::Return)
        } else {
            None
        },
        0x1 => Some(Instruction::Jump { nnn }),
        0x2 => Some(Instruction::Call { nnn }),
        0x3 => Some(Instruction::SkipEqImm { x, nn }),
        0x4 => Some(Instruction::SkipNeImm { x, nn }),
        0x5 => Some(Instruction::SkipEqReg { x, y }),
        0x6 => Some(Instruction::SetImm { x, nn }),
        0x7 => Some(Instruction::AddImm { x, nn }),
        0x8 => decode_alu(x, y, nibble_n(i)),
        0x9 => Some(Instruction::SkipNeReg { x, y }),
        0xA => Some(Instruction::SetIndex { nnn }),
        0xB => Some(Instruction::JumpOffset { nnn }),
        0xD => Some(Instruction::Draw { x, y, n: nibble_n(i) }),
        0xE => decode_key(x, nn),
        0xF => decode_misc(x, nn),
        _ => None,
    }
}

impl Instruction {
    /// Decodes the fields of `op` into an instruction; `None` where the word
    /// encodes no supported instruction.
    pub fn from_opcode(op: &Opcode) -> (r: Option<Instruction>)
        requires
            op.wf(),
        ensures
            r == decode(op.instruction),
            r matches Some(ins) ==> ins.wf(),
    {
        let x = op.x;
        let y = op.y;
        let nn = op.nn;
        let nnn = op.nnn;
        proof {
            let i = op.instruction;
            assert(i / 0x1000 < 16 && (i / 0x100) % 0x10 < 16 && (i / 0x10) % 0x10 < 16);
        }
        match op.w {
            0x0 => if op.instruction == 0x00E0 {
                Some(Instruction::ClearScreen)
            } else if op.instruction == 0x00EE {
                Some(Instruction::Return)
            } else {
                None
            },
            0x1 => Some(Instruction::Jump { nnn }),
            0x2 => Some(Instruction::Call { nnn }),
            0x3 => Some(Instruction::SkipEqImm { x, nn }),
            0x4 => Some(Instruction::SkipNeImm { x, nn }),
            0x5 => Some(Instruction::SkipEqReg { x, y }),
            0x6 => Some(Instruction::SetImm { x, nn }),
            0x7 => Some(Instruction::AddImm { x, nn }),
            0x8 => match op.n {
                0x0 => Some(Instruction::Assign { x, y }),
                0x1 => Some(Instruction::Or { x, y }),
                0x2 => Some(Instruction::And { x, y }),
                0x3 => Some(Instruction::Xor { x, y }),
                0x4 => Some(Instruction::Add { x, y }),
                0x5 => Some(Instruction::Sub { x, y }),
                0x6 => Some(Instruction::ShiftRight { x, y }),
                0x7 => Some(Instruction::ReverseSub { x, y }),
                0xE => Some(Instruction::ShiftLeft { x, y }),
                _ => None,
            },
            0x9 => Some(Instruction::SkipNeReg { x, y }),
            0xA => Some(Instruction::SetIndex { nnn }),
            0xB => Some(Instruction::JumpOffset { nnn }),
            0xD => Some(Instruction::Draw { x, y, n: op.n }),
            0xE => match nn {
                0x9E => Some(Instruction::SkipKeyDown { x }),
                0xA1 => Some(Instruction::SkipKeyUp { x }),
                _ => None,
            },
            0xF => match nn {
                0x07 => Some(Instruction::ReadDelay { x }),
                0x0A => Some(Instruction::WaitKey { x }),
                0x15 => Some(Instruction::SetDelay { x }),
                0x18 => Some(Instruction::SetSound { x }),
                0x1E => Some(Instruction::AddIndex { x }),
                0x29 => Some(Instruction::FontChar { x }),
                0x33 => Some(Instruction::StoreBcd { x }),
                0x55 => Some(Instruction::StoreRegs { x }),
                0x65 => Some(Instruction::LoadRegs { x }),
                _ => None,
            },
            _ => None,
        }
    }
}

} // verus!
