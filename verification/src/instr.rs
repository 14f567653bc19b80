//! Instruction words and what they decode to.

use vstd::prelude::*;

verus! {

/// One decoded instruction. `x` and `y` are register indices, `byte` an
/// 8-bit immediate, `addr` a 12-bit address and `n` a sprite height.
#[derive(Clone, Copy, Debug, PartialEq, Eq, Structural)]
pub enum Instr {
    /// `0000`: do nothing.
    Nop,
    /// `00E0`: turn every pixel off.
    ClearScreen,
    /// `00EE`: return from a subroutine.
    Return,
    /// `1nnn`: jump to `addr`.
    Jump { addr: u16 },
    /// `2nnn`: call the subroutine at `addr`.
    Call { addr: u16 },
    /// `3xkk`: skip the next instruction if `Vx == byte`.
    SkipEqImm { x: u8, byte: u8 },
    /// `4xkk`: skip the next instruction if `Vx != byte`.
    SkipNeImm { x: u8, byte: u8 },
    /// `5xy_`: skip the next instruction if `Vx == Vy`.
    SkipEqReg { x: u8, y: u8 },
    /// `6xkk`: `Vx = byte`.
    LoadImm { x: u8, byte: u8 },
    /// `7xkk`: `Vx = Vx + byte` modulo 256, flag untouched.
    AddImm { x: u8, byte: u8 },
    /// `8xy0`: `Vx = Vy`.
    Move { x: u8, y: u8 },
    /// `8xy1`: `Vx = Vx | Vy`.
    Or { x: u8, y: u8 },
    /// `8xy2`: `Vx = Vx & Vy`.
    And { x: u8, y: u8 },
    /// `8xy3`: `Vx = Vx ^ Vy`.
    Xor { x: u8, y: u8 },
    /// `8xy4`: `Vx = Vx + Vy` modulo 256, flag = carry.
    AddReg { x: u8, y: u8 },
    /// `8xy5`: `Vx = Vx - Vy` modulo 256, flag = no borrow.
    SubReg { x: u8, y: u8 },
    /// `8xy6`: `Vx = Vx >> 1`, flag = the bit shifted out.
    ShiftRight { x: u8 },
    /// `8xy7`: `Vx = Vy - Vx` modulo 256, flag = no borrow.
    SubReverse { x: u8, y: u8 },
    /// `8xyE`: `Vx = Vx << 1` modulo 256, flag = the bit shifted out.
    ShiftLeft { x: u8 },
    /// `9xy_`: skip the next instruction if `Vx != Vy`.
    SkipNeReg { x: u8, y: u8 },
    /// `Annn`: `I = addr`.
    LoadIndex { addr: u16 },
    /// `Bnnn`: jump to `V0 + addr` modulo 4096.
    JumpOffset { addr: u16 },
    /// `Cxkk`: `Vx = random byte & byte`.
    Random { x: u8, byte: u8 },
    /// `Dxyn`: draw the `n`-row sprite at `I` at column `Vx`, row `Vy`.
    Draw { x: u8, y: u8, n: u8 },
    /// `Ex9E`: skip the next instruction if key `Vx` is held.
    SkipKeyDown { x: u8 },
    /// `ExA1`: skip the next instruction if key `Vx` is not held.
    SkipKeyUp { x: u8 },
    /// `Fx07`: `Vx = delay timer`.
    ReadDelay { x: u8 },
    /// `Fx0A`: wait for a key press and put the key in `Vx`.
    WaitKey { x: u8 },
    /// `Fx15`: `delay timer = Vx`.
    SetDelay { x: u8 },
    /// `Fx18`: `sound timer = Vx`.
    SetSound { x: u8 },
    /// `Fx1E`: `I = I + Vx` modulo 65536.
    AddIndex { x: u8 },
    /// `Fx29`: `I` = address of the glyph for the low nibble of `Vx`.
    Glyph { x: u8 },
    /// `Fx33`: store the three decimal digits of `Vx` at `I`, `I+1`, `I+2`.
    Bcd { x: u8 },
    /// `Fx55`: store `V0..=Vx` at `I..=I+x`.
    Store { x: u8 },
    /// `Fx65`: load `V0..=Vx` from `I..=I+x`.
    Load { x: u8 },
}

/// The top nibble of an instruction word: its family.
pub open spec fn family(op: u16) -> int {
    op as int / 4096
}

/// The second nibble of an instruction word: the register `x`.
pub open spec fn field_x(op: u16) -> u8 {
    ((op as int / 256) % 16) as u8
}

/// The third nibble of an instruction word: the register `y`.
pub open spec fn field_y(op: u16) -> u8 {
    ((op as int / 16) % 16) as u8
}

/// The bottom nibble of an instruction word.
pub open spec fn field_n(op: u16) -> u8 {
    (op as int % 16) as u8
}

/// The bottom byte of an instruction word.
pub open spec fn field_kk(op: u16) -> u8 {
    (op as int % 256) as u8
}

/// The bottom twelve bits of an instruction word.
pub open spec fn field_nnn(op: u16) -> u16 {
    (op as int % 4096) as u16
}

/// What the `8xy_` family decodes to.
pub open spec fn decode_alu(op: u16) -> Option<Instr> {
    let x = field_x(op);
    let y = field_y(op);
    let n = field_n(op);
    if n == 0x0 {
        Some(Instr::Move { x, y })
    } else if n == 0x1 {
        Some(Instr::Or { x, y })
    } else if n == 0x2 {
        Some(Instr::And { x, y })
    } else if n == 0x3 {
        Some(Instr::Xor { x, y })
    } else if n == 0x4 {
        Some(Instr::AddReg { x, y })
    } else if n == 0x5 {
        Some(Instr::SubReg { x, y })
    } else if n == 0x6 {
        Some(Instr::ShiftRight { x })
    } else if n == 0x7 {
        Some(Instr::SubReverse { x, y })
    } else if n == 0xE {
        Some(Instr::ShiftLeft { x })
    } else {
        None
    }
}

/// What the `Fx__` family decodes to.
pub open spec fn decode_misc(op: u16) -> Option<Instr> {
    let x = field_x(op);
    let kk = field_kk(op);
    if kk == 0x07 {
        Some(Instr::ReadDelay { x })
    } else if kk == 0x0A {
        Some(Instr::WaitKey { x })
    } else if kk == 0x15 {
        Some(Instr::SetDelay { x })
    } else if kk == 0x18 {
        Some(Instr::SetSound { x })
    } else if kk == 0x1E {
        Some(Instr::AddIndex { x })
    } else if kk == 0x29 {
        Some(Instr::Glyph { x })
    } else if kk == 0x33 {
        Some(Instr::Bcd { x })
    } else if kk == 0x55 {
        Some(Instr::Store { x })
    } else if kk == 0x65 {
        Some(Instr::Load { x })
    } else {
        None
    }
}

/// The instruction that a word stands for, or `None` where it stands for
/// none.
pub open spec fn decode_spec(op: u16) -> Option<Instr> {
    let f = family(op);
    let x = field_x(op);
    let y = field_y(op);
    let kk = field_kk(op);
    let nnn = field_nnn(op);
    if f == 0x0 {
        if op == 0x0000 {
            Some(Instr::Nop)
        } else if op == 0x00E0 {
            Some(Instr::ClearScreen)
        } else if op == 0x00EE {
            Some(Instr::Return)
        } else {
            None
        }
    } else if f == 0x1 {
        Some(Instr::Jump { addr: nnn })
    } else if f == 0x2 {
        Some(Instr::Call { addr: nnn })
    } else if f == 0x3 {
        Some(Instr::SkipEqImm { x, byte: kk })
    } else if f == 0x4 {
        Some(Instr::SkipNeImm { x, byte: kk })
    } else if f == 0x5 {
        Some(Instr::SkipEqReg { x, y })
    } else if f == 0x6 {
        Some(Instr::LoadImm { x, byte: kk })
    } else if f == 0x7 {
        Some(Instr::AddImm { x, byte: kk })
    } else if f == 0x8 {
        decode_alu(op)
    } else if f == 0x9 {
        Some(Instr::SkipNeReg { x, y })
    } else if f == 0xA {
        Some(Instr::LoadIndex { addr: nnn })
    } else if f == 0xB {
        Some(Instr::JumpOffset { addr: nnn })
    } else if f == 0xC {
        Some(Instr::Random { x, byte: kk })
    } else if f == 0xD {
        Some(Instr::Draw { x, y, n: field_n(op) })
    } else if f == 0xE {
        if kk == 0x9E {
            Some(Instr::SkipKeyDown { x })
        } else if kk == 0xA1 {
            Some(Instr::SkipKeyUp { x })
        } else {
            None
        }
    } else {
        decode_misc(op)
    }
}

impl Instr {
    /// The first register operand, or 0 where the instruction has none.
    pub open spec fn reg_x(self) -> u8 {
        match self {
            Instr::SkipEqImm { x, .. } => x,
            Instr::SkipNeImm { x, .. } => x,
            Instr::SkipEqReg { x, .. } => x,
            Instr::LoadImm { x, .. } => x,
            Instr::AddImm { x, .. } => x,
            Instr::Move { x, .. } => x,
            Instr::Or { x, .. } => x,
            Instr::And { x, .. } => x,
            Instr::Xor { x, .. } => x,
            Instr::AddReg { x, .. } => x,
            Instr::SubReg { x, .. } => x,
            Instr::ShiftRight { x } => x,
            Instr::SubReverse { x, .. } => x,
            Instr::ShiftLeft { x } => x,
            Instr::SkipNeReg { x, .. } => x,
            Instr::Random { x, .. } => x,
            Instr::Draw { x, .. } => x,
            Instr::SkipKeyDown { x } => x,
            Instr::SkipKeyUp { x } => x,
            Instr::ReadDelay { x } => x,
            Instr::WaitKey { x } => x,
            Instr::SetDelay { x } => x,
            Instr::SetSound { x } => x,
            Instr::AddIndex { x } => x,
            Instr::Glyph { x } => x,
            Instr::Bcd { x } => x,
            Instr::Store { x } => x,
            Instr::Load { x } => x,
            _ => 0u8,
        }
    }

    /// The second register operand, or 0 where the instruction has none.
    pub open spec fn reg_y(self) -> u8 {
        match self {
            Instr::SkipEqReg { y, .. } => y,
            Instr::Move { y, .. } => y,
            Instr::Or { y, .. } => y,
            Instr::And { y, .. } => y,
            Instr::Xor { y, .. } => y,
            Instr::AddReg { y, .. } => y,
            Instr::SubReg { y, .. } => y,
            Instr::SubReverse { y, .. } => y,
            Instr::SkipNeReg { y, .. } => y,
            Instr::Draw { y, .. } => y,
            _ => 0u8,
        }
    }

    /// Every operand is within the range that its field of an instruction
    /// word can hold.
    pub open spec fn wf(self) -> bool {
        &&& self.reg_x() < 16
        &&& self.reg_y() < 16
        &&& (self matches Instr::Jump { addr } ==> addr < 4096)
        &&& (self matches Instr::Call { addr } ==> addr < 4096)
        &&& (self matches Instr::LoadIndex { addr } ==> addr < 4096)
        &&& (self matches Instr::JumpOffset { addr } ==> addr < 4096)
        &&& (self matches Instr::Draw { n, .. } ==> n < 16)
    }
}

/// The six fields of an instruction word, as shifts and masks compute them.
proof fn lemma_fields(op: u16)
    ensures
        (op >> 12) as int == family(op),
        ((op & 0x0F00) >> 8) as u8 == field_x(op),
        ((op & 0x0F00) >> 8) < 16,
        ((op & 0x00F0) >> 4) as u8 == field_y(op),
        ((op & 0x00F0) >> 4) < 16,
        (op & 0x000F) as u8 == field_n(op),
        (op & 0x000F) < 16,
        (op & 0x00FF) as u8 == field_kk(op),
        (op & 0x00FF) < 256,
        (op & 0x0FFF) == field_nnn(op),
        (op & 0x0FFF) < 4096,
{
    assert((op >> 12) == op / 4096) by (bit_vector);
    assert(((op & 0x0F00) >> 8) == (op / 256) % 16) by (bit_vector);
    assert(((op & 0x00F0) >> 4) == (op / 16) % 16) by (bit_vector);
    assert((op & 0x000F) == op % 16) by (bit_vector);
    assert((op & 0x00FF) == op % 256) by (bit_vector);
    assert((op & 0x0FFF) == op % 4096) by (bit_vector);
}

/// Decodes an instruction word.
pub fn decode(op: u16) -> (r: Option<Instr>)
    ensures
        r == decode_spec(op),
        r matches Some(instr) ==> instr.wf(),
{
    proof {
        lemma_fields(op);
    }
    let x = ((op & 0x0F00) >> 8) as u8;
    let y = ((op & 0x00F0) >> 4) as u8;
    let n = (op & 0x000F) as u8;
    let kk = (op & 0x00FF) as u8;
    let nnn = op & 0x0FFF;
    match op >> 12 {
        0x0 => match op {
            0x0000 => Some(Instr::Nop),
            0x00E0 => Some(Instr::ClearScreen),
            0x00EE => Some(Instr::Return),
            _ => None,
        },
        0x1 => Some(Instr::Jump { addr: nnn }),
        0x2 => Some(Instr::Call { addr: nnn }),
        0x3 => Some(Instr::SkipEqImm { x, byte: kk }),
        0x4 => Some(Instr::SkipNeImm { x, byte: kk }),
        0x5 => Some(Instr::SkipEqReg { x, y }),
        0x6 => Some(Instr::LoadImm { x, byte: kk }),
        0x7 => Some(Instr::AddImm { x, byte: kk }),
        0x8 => match n {
            0x0 => Some(Instr::Move { x, y }),
            0x1 => Some(Instr::Or { x, y }),
            0x2 => Some(Instr::And { x, y }),
            0x3 => Some(Instr::Xor { x, y }),
            0x4 => Some(Instr::AddReg { x, y }),
            0x5 => Some(Instr::SubReg { x, y }),
            0x6 => Some(Instr::ShiftRight { x }),
            0x7 => Some(Instr::SubReverse { x, y }),
            0xE => Some(Instr::ShiftLeft { x }),
            _ => None,
        },
        0x9 => Some(Instr::SkipNeReg { x, y }),
        0xA => Some(Instr::LoadIndex { addr: nnn }),
        0xB => Some(Instr::JumpOffset { addr: nnn }),
        0xC => Some(Instr::Random { x, byte: kk }),
        0xD => Some(Instr::Draw { x, y, n }),
        0xE => match kk {
            0x9E => Some(Instr::SkipKeyDown { x }),
            0xA1 => Some(Instr::SkipKeyUp { x }),
            _ => None,
        },
        _ => match kk {
            0x07 => Some(Instr::ReadDelay { x }),
            0x0A => Some(Instr::WaitKey { x }),
            0x15 => Some(Instr::SetDelay { x }),
            0x18 => Some(Instr::SetSound { x }),
            0x1E => Some(Instr::AddIndex { x }),
            0x29 => Some(Instr::Glyph { x }),
            0x33 => Some(Instr::Bcd { x }),
            0x55 => Some(Instr::Store { x }),
            0x65 => Some(Instr::Load { x }),
            _ => None,
        },
    }
}

} // verus!
