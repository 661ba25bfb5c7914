//! Splitting a 16-bit instruction word into its fields.
use vstd::prelude::*;
use vstd::string::*;

verus! {

/// The high nibble of an instruction word: its family.
pub open spec fn nibble_w(i: u16) -> u8 {
    (i / 0x1000) as u8
}

/// The second nibble: usually the first register operand.
pub open spec fn nibble_x(i: u16) -> u8 {
    ((i / 0x100) % 0x10) as u8
}

/// The third nibble: usually the second register operand.
pub open spec fn nibble_y(i: u16) -> u8 {
    ((i / 0x10) % 0x10) as u8
}

/// The low nibble.
pub open spec fn nibble_n(i: u16) -> u8 {
    (i % 0x10) as u8
}

/// The low byte: an immediate value.
pub open spec fn byte_nn(i: u16) -> u8 {
    (i % 0x100) as u8
}

/// The low twelve bits: an address.
pub open spec fn addr_nnn(i: u16) -> u16 {
    (i % 0x1000) as u16
}

/// The lowercase hexadecimal digits, by value.
pub open spec fn hex_digits() -> Seq<char> {
    seq!['0', '1', '2', '3', '4', '5', '6', '7', '8', '9', 'a', 'b', 'c', 'd', 'e', 'f']
}

/// `i` written as `0x` followed by four lowercase hexadecimal digits.
pub open spec fn hex_word(i: u16) -> Seq<char> {
    seq![
        '0',
        'x',
        hex_digits()[nibble_w(i) as int],
        hex_digits()[nibble_x(i) as int],
        hex_digits()[nibble_y(i) as int],
        hex_digits()[nibble_n(i) as int],
    ]
}

/// The one-character string of the hexadecimal digit `d`.
fn hex_digit_str(d: u8) -> (r: &'static str)
    requires
        d < 16,
    ensures
        r@ == seq![hex_digits()[d as int]],
{
    match d {
            0 => {
                proof { reveal_strlit("0"); }
                "0"
            }
            1 => {
                proof { reveal_strlit("1"); }
                "1"
            }
            2 => {
                proof { reveal_strlit("2"); }
                "2"
            }
            3 => {
                proof { reveal_strlit("3"); }
                "3"
            }
            4 => {
                proof { reveal_strlit("4"); }
                "4"
            }
            5 => {
                proof { reveal_strlit("5"); }
                "5"
            }
            6 => {
                proof { reveal_strlit("6"); }
                "6"
            }
            7 => {
                proof { reveal_strlit("7"); }
                "7"
            }
            8 => {
                proof { reveal_strlit("8"); }
                "8"
            }
            9 => {
                proof { reveal_strlit("9"); }
                "9"
            }
            10 => {
                proof { reveal_strlit("a"); }
                "a"
            }
            11 => {
                proof { reveal_strlit("b"); }
                "b"
            }
            12 => {
                proof { reveal_strlit("c"); }
                "c"
            }
            13 => {
                proof { reveal_strlit("d"); }
                "d"
            }
            14 => {
                proof { reveal_strlit("e"); }
                "e"
            }
            _ => {
                proof { reveal_strlit("f"); }
                "f"
            }
    }
}

/// A decoded instruction word together with all of its fields.
pub struct Opcode {
    pub instruction: u16,
    pub w: u8,
    pub x: u8,
    pub y: u8,
    pub n: u8,
    pub nn: u8,
    pub nnn: u16,
}

impl Opcode {
    /// The fields hold exactly what `instruction` encodes.
    pub open spec fn wf(&self) -> bool {
        &&& self.w == nibble_w(self.instruction)
        &&& self.x == nibble_x(self.instruction)
        &&& self.y == nibble_y(self.instruction)
        &&& self.n == nibble_n(self.instruction)
        &&& self.nn == byte_nn(self.instruction)
        &&& self.nnn == addr_nnn(self.instruction)
    }

    /// Splits `instruction` into its fields; every word decodes.
    pub fn new(instruction: u16) -> (r: Opcode)
        ensures
            r.instruction == instruction,
            r.wf(),
    {
        let w = (instruction & 0xF000) >> 12;
        let x = (instruction & 0x0F00) >> 8;
        let y = (instruction & 0x00F0) >> 4;
        let n = instruction & 0x000F;
        let nn = instruction & 0x00FF;
        let nnn = instruction & 0x0FFF;
        assert(w == instruction / 0x1000 && w < 16) by (bit_vector)
            requires w == (instruction & 0xF000) >> 12;
        assert(x == (instruction / 0x100) % 0x10) by (bit_vector)
            requires x == (instruction & 0x0F00) >> 8;
        assert(y == (instruction / 0x10) % 0x10) by (bit_vector)
            requires y == (instruction & 0x00F0) >> 4;
        assert(n == instruction % 0x10) by (bit_vector)
            requires n == instruction & 0x000F;
        assert(nn == instruction % 0x100) by (bit_vector)
            requires nn == instruction & 0x00FF;
        assert(nnn == instruction % 0x1000) by (bit_vector)
            requires nnn == instruction & 0x0FFF;
        Opcode { instruction, w: w as u8, x: x as u8, y: y as u8, n: n as u8, nn: nn as u8, nnn }
    }

    /// The instruction word in hexadecimal, for diagnostics: `0x` and four
    /// lowercase digits.
    pub fn instruction_to_str(&self) -> (r: String)
        ensures
            r@ == hex_word(self.instruction),
    {
        let f = Opcode::new(self.instruction);
        proof {
            reveal_strlit("0x");
            let i = self.instruction;
            assert(i / 0x1000 < 16);
        }
        let mut s = String::from_str("0x");
        s.append(hex_digit_str(f.w));
        s.append(hex_digit_str(f.x));
        s.append(hex_digit_str(f.y));
        s.append(hex_digit_str(f.n));
        assert(s@ =~= hex_word(self.instruction));
        s
    }
}

} // verus!
