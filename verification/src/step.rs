//! The machine's transition function: what one instruction does.
//!
//! A step that cannot be carried out is a fault, and a fault leaves the
//! machine exactly as it was. Register operands are read before any
//! register is written.

use vstd::prelude::*;
use crate::instr::{decode_spec, Instr};
use crate::layout::{
    FLAG_REG, FONT_BASE_ADDR, GLYPH_SIZE, NUM_KEYS, RAM_SIZE, SCREEN_HEIGHT, SCREEN_WIDTH,
    STACK_SIZE,
};
use crate::machine::Machine;
use crate::sprite::{collides, draw, visible_rows};

verus! {

/// Why a step could not be carried out.
#[derive(Clone, Copy, Debug, PartialEq, Eq, Structural)]
pub enum Fault {
    /// The two bytes of the next instruction do not both lie in memory.
    FetchOutOfBounds,
    /// The instruction word stands for no instruction.
    UnknownOpcode(u16),
    /// A call with the stack full.
    StackOverflow,
    /// A return with the stack empty.
    StackUnderflow,
    /// An access through the index register beyond the end of memory.
    MemoryOutOfBounds,
    /// A key test on a key that the keypad does not have.
    KeyOutOfRange,
}

/// How a step ended.
#[derive(Clone, Copy, Debug, PartialEq, Eq, Structural)]
pub enum Progress {
    /// One instruction was executed.
    Advanced,
    /// The machine is suspended at an instruction that waits for a key.
    AwaitingKey,
}

/// Whether the two bytes of the next instruction lie in memory.
pub open spec fn can_fetch(m: Machine) -> bool {
    m.pc as int + 1 < RAM_SIZE
}

/// The instruction word at the program counter, high byte first.
pub open spec fn opcode_at(m: Machine) -> u16 {
    (m.ram[m.pc as int] as int * 256 + m.ram[m.pc as int + 1] as int) as u16
}

/// The column at which `Draw` puts the sprite's left edge: register `x`
/// modulo the screen's width. The flag register reads as 0, since the
/// instruction resets it before anything else.
pub open spec fn draw_column(m: Machine, x: u8) -> int {
    m.v.update(FLAG_REG as int, 0u8)[x as int] as int % (SCREEN_WIDTH as int)
}

/// The row at which `Draw` puts the sprite's top edge: register `y` modulo
/// the screen's height, the flag register again reading as 0.
pub open spec fn draw_row(m: Machine, y: u8) -> int {
    m.v.update(FLAG_REG as int, 0u8)[y as int] as int % (SCREEN_HEIGHT as int)
}

/// The number of sprite rows that `Draw` with row register `y` and height
/// `n` reads from memory: those that lie on the screen.
pub open spec fn draw_rows(m: Machine, y: u8, n: u8) -> int {
    visible_rows(n as int, draw_row(m, y))
}

/// The sprite that `Draw` with row register `y` and height `n` reads from
/// memory at the index register.
pub open spec fn sprite_of(m: Machine, y: u8, n: u8) -> Seq<u8> {
    m.ram.subrange(m.i as int, m.i as int + draw_rows(m, y, n))
}

/// The fault that `instr` runs into in state `m`, if any.
pub open spec fn fault_of(m: Machine, instr: Instr) -> Option<Fault> {
    match instr {
        Instr::Return => if m.stack.len() == 0 {
            Some(Fault::StackUnderflow)
        } else {
            None
        },
        Instr::Call { .. } => if m.stack.len() >= STACK_SIZE {
            Some(Fault::StackOverflow)
        } else {
            None
        },
        Instr::Draw { y, n, .. } => if m.i as int + draw_rows(m, y, n) > RAM_SIZE {
            Some(Fault::MemoryOutOfBounds)
        } else {
            None
        },
        Instr::SkipKeyDown { x } => if m.v[x as int] >= NUM_KEYS {
            Some(Fault::KeyOutOfRange)
        } else {
            None
        },
        Instr::SkipKeyUp { x } => if m.v[x as int] >= NUM_KEYS {
            Some(Fault::KeyOutOfRange)
        } else {
            None
        },
        Instr::Bcd { .. } => if m.i as int + 2 >= RAM_SIZE {
            Some(Fault::MemoryOutOfBounds)
        } else {
            None
        },
        Instr::Store { x } => if m.i as int + x as int >= RAM_SIZE {
            Some(Fault::MemoryOutOfBounds)
        } else {
            None
        },
        Instr::Load { x } => if m.i as int + x as int >= RAM_SIZE {
            Some(Fault::MemoryOutOfBounds)
        } else {
            None
        },
        _ => None,
    }
}

/// The value that a flag takes: 1 where the condition holds, else 0.
pub open spec fn flag(c: bool) -> u8 {
    if c {
        1u8
    } else {
        0u8
    }
}

impl Machine {
    /// The state with the program counter moved past one instruction.
    pub open spec fn advance(self) -> Machine {
        Machine { pc: (self.pc + 2) as u16, ..self }
    }

    /// The state with the program counter moved past one more instruction
    /// where `c` holds.
    pub open spec fn skip_if(self, c: bool) -> Machine {
        if c {
            self.advance()
        } else {
            self
        }
    }

    /// The state with the program counter at `addr`.
    pub open spec fn jump(self, addr: u16) -> Machine {
        Machine { pc: addr, ..self }
    }

    /// The state with register `x` holding `val`.
    pub open spec fn set_v(self, x: u8, val: u8) -> Machine {
        Machine { v: self.v.update(x as int, val), ..self }
    }

    /// The state with the flag register holding `f`, then register `x`
    /// holding `val`.
    pub open spec fn set_flag_then_v(self, f: u8, x: u8, val: u8) -> Machine {
        Machine { v: self.v.update(FLAG_REG as int, f).update(x as int, val), ..self }
    }

    /// The state with register `x` holding `val`, then the flag register
    /// holding `f`.
    pub open spec fn set_v_then_flag(self, x: u8, val: u8, f: u8) -> Machine {
        Machine { v: self.v.update(x as int, val).update(FLAG_REG as int, f), ..self }
    }

    /// The state after `Draw { x, y, n }`: the sprite is drawn and the flag
    /// register says whether a lit pixel went off.
    pub open spec fn draw_sprite(self, x: u8, y: u8, n: u8) -> Machine {
        let vx = draw_column(self, x);
        let vy = draw_row(self, y);
        let sprite = sprite_of(self, y, n);
        Machine {
            screen: draw(self.screen, sprite, vx, vy),
            v: self.v.update(FLAG_REG as int, flag(collides(self.screen, sprite, vx, vy))),
            ..self
        }
    }

    /// The state after `Bcd { x }`.
    pub open spec fn store_bcd(self, x: u8) -> Machine {
        let val = self.v[x as int];
        let at = self.i as int;
        Machine {
            ram: self.ram.update(at, (val / 100) as u8).update(
                at + 1,
                ((val / 10) % 10) as u8,
            ).update(at + 2, (val % 10) as u8),
            ..self
        }
    }

    /// The state after `Store { x }`.
    pub open spec fn store_regs(self, x: u8) -> Machine {
        let at = self.i as int;
        Machine {
            ram: Seq::new(
                self.ram.len(),
                |a: int|
                    if at <= a <= at + x {
                        self.v[a - at]
                    } else {
                        self.ram[a]
                    },
            ),
            ..self
        }
    }

    /// The state after `Load { x }`.
    pub open spec fn load_regs(self, x: u8) -> Machine {
        let at = self.i as int;
        Machine {
            v: Seq::new(
                self.v.len(),
                |r: int|
                    if r <= x {
                        self.ram[at + r]
                    } else {
                        self.v[r]
                    },
            ),
            ..self
        }
    }
}

/// The state after `instr` has been executed in state `m`, where it runs
/// into no fault. `rnd` is the random byte that `Random` uses.
pub open spec fn apply(m: Machine, instr: Instr, rnd: u8) -> Machine {
    let next = m.advance();
    match instr {
        Instr::Nop => next,
        Instr::ClearScreen => next.clear_screen(),
        Instr::Return => Machine { pc: m.stack.last(), stack: m.stack.drop_last(), ..m },
        Instr::Jump { addr } => next.jump(addr),
        Instr::Call { addr } => Machine { pc: addr, stack: m.stack.push(next.pc), ..m },
        Instr::SkipEqImm { x, byte } => next.skip_if(m.v[x as int] == byte),
        Instr::SkipNeImm { x, byte } => next.skip_if(m.v[x as int] != byte),
        Instr::SkipEqReg { x, y } => next.skip_if(m.v[x as int] == m.v[y as int]),
        Instr::LoadImm { x, byte } => next.set_v(x, byte),
        Instr::AddImm { x, byte } => next.set_v(x, ((m.v[x as int] + byte) % 256) as u8),
        Instr::Move { x, y } => next.set_v(x, m.v[y as int]),
        Instr::Or { x, y } => next.set_v(x, m.v[x as int] | m.v[y as int]),
        Instr::And { x, y } => next.set_v(x, m.v[x as int] & m.v[y as int]),
        Instr::Xor { x, y } => next.set_v(x, m.v[x as int] ^ m.v[y as int]),
        Instr::AddReg { x, y } => {
            let sum = m.v[x as int] + m.v[y as int];
            next.set_v_then_flag(x, (sum % 256) as u8, flag(sum > 255))
        },
        Instr::SubReg { x, y } => {
            let a = m.v[x as int];
            let b = m.v[y as int];
            next.set_flag_then_v(flag(a >= b), x, ((a - b) % 256) as u8)
        },
        Instr::ShiftRight { x } => {
            let a = m.v[x as int];
            next.set_flag_then_v((a % 2) as u8, x, (a / 2) as u8)
        },
        Instr::SubReverse { x, y } => {
            let a = m.v[x as int];
            let b = m.v[y as int];
            next.set_flag_then_v(flag(b >= a), x, ((b - a) % 256) as u8)
        },
        Instr::ShiftLeft { x } => {
            let a = m.v[x as int];
            next.set_flag_then_v((a / 128) as u8, x, ((a * 2) % 256) as u8)
        },
        Instr::SkipNeReg { x, y } => next.skip_if(m.v[x as int] != m.v[y as int]),
        Instr::LoadIndex { addr } => Machine { i: addr, ..next },
        Instr::JumpOffset { addr } => next.jump(((m.v[0] + addr) % 4096) as u16),
        Instr::Random { x, byte } => next.set_v(x, rnd & byte),
        Instr::Draw { x, y, n } => next.draw_sprite(x, y, n),
        Instr::SkipKeyDown { x } => next.skip_if(m.keys[m.v[x as int] as int]),
        Instr::SkipKeyUp { x } => next.skip_if(!m.keys[m.v[x as int] as int]),
        Instr::ReadDelay { x } => next.set_v(x, m.delay),
        Instr::WaitKey { .. } => m,
        Instr::SetDelay { x } => Machine { delay: m.v[x as int], ..next },
        Instr::SetSound { x } => Machine { sound: m.v[x as int], ..next },
        Instr::AddIndex { x } => Machine { i: ((m.i + m.v[x as int]) % 65536) as u16, ..next },
        Instr::Glyph { x } => Machine {
            i: (FONT_BASE_ADDR + (m.v[x as int] % 16) * GLYPH_SIZE) as u16,
            ..next
        },
        Instr::Bcd { x } => next.store_bcd(x),
        Instr::Store { x } => next.store_regs(x),
        Instr::Load { x } => next.load_regs(x),
    }
}

/// One step of the machine: the next state, or the fault that prevented
/// it. A machine at an instruction that waits for a key stays as it is.
pub open spec fn step(m: Machine, rnd: u8) -> Result<Machine, Fault> {
    if !can_fetch(m) {
        Err(Fault::FetchOutOfBounds)
    } else {
        match decode_spec(opcode_at(m)) {
            None => Err(Fault::UnknownOpcode(opcode_at(m))),
            Some(instr) => match fault_of(m, instr) {
                Some(f) => Err(f),
                None => Ok(apply(m, instr, rnd)),
            },
        }
    }
}

/// Whether the machine is suspended at an instruction that waits for a key.
pub open spec fn awaits_key(m: Machine) -> bool {
    can_fetch(m) && decode_spec(opcode_at(m)) matches Some(Instr::WaitKey { .. })
}

/// What a step reports to its caller.
pub open spec fn report(m: Machine, rnd: u8) -> Result<Progress, Fault> {
    match step(m, rnd) {
        Err(f) => Err(f),
        Ok(_) => Ok(
            if awaits_key(m) {
                Progress::AwaitingKey
            } else {
                Progress::Advanced
            },
        ),
    }
}

/// The state in which a step leaves the machine: the next state, or the
/// state before where the step ran into a fault.
pub open spec fn after(m: Machine, rnd: u8) -> Machine {
    match step(m, rnd) {
        Err(_) => m,
        Ok(next) => next,
    }
}

} // verus!
