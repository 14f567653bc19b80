//! The executable machine.

use vstd::prelude::*;
use crate::entropy::random_below_256;
use crate::instr::{decode, decode_spec, Instr};
use crate::keypad::{interpret, key_event_answer, key_event_state, Command, KeyInput, KeyWait};
use crate::laws::lemma_load_keeps_font;
use crate::layout::{
    FONTSET, FONTSET_SIZE, FONT_BASE_ADDR, NUM_KEYS, SCREEN_HEIGHT, SCREEN_SIZE, SCREEN_WIDTH,
    STACK_SIZE, START_ADDR,
};
use crate::machine::{font_byte, holds_font, Machine};
use crate::sprite::{
    collides_before, covered_before, lemma_before_bit, lemma_before_end, lemma_before_row,
    lemma_before_start, pixel_under, row_bit,
};
use crate::step::{
    after, apply, awaits_key, can_fetch, draw_column, draw_row, draw_rows, fault_of, opcode_at,
    report, sprite_of, Fault, Progress,
};

verus! {

/// A CHIP-8 machine.
///
/// What the machine holds is its view, written `emu@`: a [`Machine`]. The
/// call stack is kept in a fixed array below a stack pointer that never
/// exceeds the array's length; the view shows the addresses below the
/// pointer only.
pub struct Emu {
    pc: u16,
    ram: [u8; 4096],
    screen: [bool; 2048],
    v_reg: [u8; 16],
    i_reg: u16,
    stack_pointer: u16,
    stack: [u16; 16],
    keys: [bool; 16],
    delay_timer: u8,
    sound_timer: u8,
}

impl View for Emu {
    type V = Machine;

    closed spec fn view(&self) -> Machine {
        Machine {
            pc: self.pc,
            ram: self.ram@,
            screen: self.screen@,
            v: self.v_reg@,
            i: self.i_reg,
            stack: self.stack@.take(self.stack_pointer as int),
            keys: self.keys@,
            delay: self.delay_timer,
            sound: self.sound_timer,
        }
    }
}

impl Emu {
    #[verifier::type_invariant]
    spec fn inv(self) -> bool {
        self.stack_pointer <= STACK_SIZE
    }

    /// A machine in its initial state.
    pub fn new() -> (r: Self)
        ensures
            r@ == Machine::initial(),
            r@.wf(),
            holds_font(r@.ram),
    {
        let mut ram = [0u8; 4096];
        let mut i: usize = 0;
        while i < FONTSET_SIZE
            invariant
                i <= FONTSET_SIZE,
                forall|a: int|
                    0 <= a < 4096 ==> ram@[a] == if FONT_BASE_ADDR <= a < FONT_BASE_ADDR + i {
                        FONTSET@[a - FONT_BASE_ADDR]
                    } else {
                        0u8
                    },
            decreases FONTSET_SIZE - i,
        {
            ram[FONT_BASE_ADDR + i] = FONTSET[i];
            i += 1;
        }
        let r = Emu {
            pc: START_ADDR,
            ram,
            screen: [false; 2048],
            v_reg: [0u8; 16],
            i_reg: 0,
            stack_pointer: 0,
            stack: [0u16; 16],
            keys: [false; 16],
            delay_timer: 0,
            sound_timer: 0,
        };
        assert(r@ =~= Machine::initial());
        r
    }

    /// Puts a return address on the call stack.
    fn push(&mut self, value: u16)
        requires
            old(self)@.stack.len() < STACK_SIZE,
        ensures
            final(self)@ == (Machine { stack: old(self)@.stack.push(value), ..old(self)@ }),
    {
        proof {
            use_type_invariant(&*self);
        }
        self.stack[self.stack_pointer as usize] = value;
        self.stack_pointer += 1;
        assert(self@.stack =~= old(self)@.stack.push(value));
    }

    /// Takes the newest return address off the call stack.
    fn pop(&mut self) -> (r: u16)
        requires
            old(self)@.stack.len() > 0,
        ensures
            r == old(self)@.stack.last(),
            final(self)@ == (Machine { stack: old(self)@.stack.drop_last(), ..old(self)@ }),
    {
        proof {
            use_type_invariant(&*self);
        }
        self.stack_pointer -= 1;
        assert(self@.stack =~= old(self)@.stack.drop_last());
        self.stack[self.stack_pointer as usize]
    }

    /// Counts both timers down by one; a timer at zero stays there.
    pub fn update_timers(&mut self)
        ensures
            final(self)@ == old(self)@.tick(),
            final(self)@.wf(),
    {
        proof {
            use_type_invariant(&*self);
        }
        if self.delay_timer > 0 {
            self.delay_timer -= 1;
        }
        if self.sound_timer > 0 {
            self.sound_timer -= 1;
        }
    }

    /// Copies a program image into memory from `START_ADDR` on. Bytes that
    /// would fall beyond the end of memory are dropped. Memory below
    /// `START_ADDR`, the font with it, is left as it is.
    pub fn load_rom(&mut self, buffer: &Vec<u8>)
        ensures
            final(self)@ == old(self)@.load(buffer@),
            forall|a: int| 0 <= a < START_ADDR ==> final(self)@.ram[a] == old(self)@.ram[a],
            forall|i: int|
                0 <= i < FONTSET_SIZE ==> #[trigger] font_byte(final(self)@.ram, i) == font_byte(
                    old(self)@.ram,
                    i,
                ),
            holds_font(old(self)@.ram) ==> holds_font(final(self)@.ram),
            final(self)@.wf(),
    {
        proof {
            use_type_invariant(&*self);
        }
        let room: usize = 4096 - 0x200;
        let count: usize = if buffer.len() < room {
            buffer.len()
        } else {
            room
        };
        let mut i: usize = 0;
        while i < count
            invariant
                i <= count,
                count <= buffer.len(),
                count <= 4096 - 0x200,
                self.stack_pointer <= STACK_SIZE,
                self@ == (Machine { ram: self@.ram, ..old(self)@ }),
                forall|a: int|
                    0 <= a < 4096 ==> self@.ram[a] == if 0x200 <= a < 0x200 + i {
                        buffer@[a - 0x200]
                    } else {
                        old(self)@.ram[a]
                    },
            decreases count - i,
        {
            self.ram[0x200 + i] = buffer[i];
            i += 1;
        }
        assert(self@.ram =~= old(self)@.load(buffer@).ram);
        proof {
            lemma_load_keeps_font(old(self)@, buffer@);
        }
    }

    /// Marks every key of the keypad as not held.
    pub fn reset_keys(&mut self)
        ensures
            final(self)@ == old(self)@.release_keys(),
            final(self)@.wf(),
    {
        proof {
            use_type_invariant(&*self);
        }
        let mut i: usize = 0;
        while i < NUM_KEYS
            invariant
                i <= NUM_KEYS,
                self.stack_pointer <= STACK_SIZE,
                self@ == (Machine { keys: self@.keys, ..old(self)@ }),
                forall|k: int| 0 <= k < i ==> !self@.keys[k],
            decreases NUM_KEYS - i,
        {
            self.keys[i] = false;
            i += 1;
        }
        assert(self@.keys =~= old(self)@.release_keys().keys);
    }

    /// Turns every pixel of the framebuffer off. The framebuffer keeps its
    /// `SCREEN_WIDTH` x `SCREEN_HEIGHT` pixels; nothing else changes.
    fn screen_clear(&mut self)
        ensures
            final(self)@ == old(self)@.clear_screen(),
            final(self)@.screen.len() == SCREEN_WIDTH * SCREEN_HEIGHT,
            forall|p: int| 0 <= p < SCREEN_WIDTH * SCREEN_HEIGHT ==> !final(self)@.screen[p],
    {
        proof {
            use_type_invariant(&*self);
        }
        let mut i: usize = 0;
        while i < SCREEN_SIZE
            invariant
                i <= SCREEN_SIZE,
                self.stack_pointer <= STACK_SIZE,
                self@ == (Machine { screen: self@.screen, ..old(self)@ }),
                forall|p: int| 0 <= p < i ==> !self@.screen[p],
            decreases SCREEN_SIZE - i,
        {
            self.screen[i] = false;
            i += 1;
        }
        assert(self@.screen =~= old(self)@.clear_screen().screen);
    }
}

impl Emu {
    /// The instruction word at the program counter.
    fn peek_opcode(&self) -> (r: Result<u16, Fault>)
        ensures
            can_fetch(self@) ==> r == Ok::<u16, Fault>(opcode_at(self@)),
            !can_fetch(self@) ==> r == Err::<u16, Fault>(Fault::FetchOutOfBounds),
    {
        if self.pc >= 4095 {
            return Err(Fault::FetchOutOfBounds);
        }
        let a = self.ram[self.pc as usize] as u16;
        let b = self.ram[self.pc as usize + 1] as u16;
        assert((a << 8) | b == a * 256 + b) by (bit_vector)
            requires
                a < 256,
                b < 256,
        ;
        Ok((a << 8) | b)
    }

    /// The fault that `instr` would run into, if any.
    fn check(&self, instr: Instr) -> (r: Option<Fault>)
        requires
            instr.wf(),
        ensures
            r == fault_of(self@, instr),
    {
        proof {
            use_type_invariant(self);
        }
        match instr {
            Instr::Return => if self.stack_pointer == 0 {
                Some(Fault::StackUnderflow)
            } else {
                None
            },
            Instr::Call { .. } => if self.stack_pointer >= 16 {
                Some(Fault::StackOverflow)
            } else {
                None
            },
            Instr::Draw { y, n, .. } => {
                let vy: usize = if y == 0xF {
                    0
                } else {
                    self.v_reg[y as usize] as usize % 32
                };
                let rows: usize = if vy + n as usize <= 32 {
                    n as usize
                } else {
                    32 - vy
                };
                if self.i_reg as usize + rows > 4096 {
                    Some(Fault::MemoryOutOfBounds)
                } else {
                    None
                }
            },
            Instr::SkipKeyDown { x } | Instr::SkipKeyUp { x } => if self.v_reg[x as usize] >= 16 {
                Some(Fault::KeyOutOfRange)
            } else {
                None
            },
            Instr::Bcd { .. } => if self.i_reg as usize + 2 >= 4096 {
                Some(Fault::MemoryOutOfBounds)
            } else {
                None
            },
            Instr::Store { x } | Instr::Load { x } => if self.i_reg as usize + x as usize >= 4096 {
                Some(Fault::MemoryOutOfBounds)
            } else {
                None
            },
            _ => None,
        }
    }

    /// Draws the `n`-row sprite at the index register at column `Vx`, row
    /// `Vy`, and sets the flag register to whether a lit pixel went off.
    fn draw_sprite(&mut self, x: u8, y: u8, n: u8)
        requires
            x < 16,
            y < 16,
            n < 16,
            old(self)@.i + draw_rows(old(self)@, y, n) <= 4096,
        ensures
            final(self)@ == old(self)@.draw_sprite(x, y, n),
    {
        proof {
            use_type_invariant(&*self);
        }
        self.v_reg[0xF] = 0;
        let vx: usize = self.v_reg[x as usize] as usize % 64;
        let vy: usize = self.v_reg[y as usize] as usize % 32;
        let rows: usize = if vy + n as usize <= 32 {
            n as usize
        } else {
            32 - vy
        };
        let base: usize = self.i_reg as usize;
        let ghost before = old(self)@;
        let ghost sprite = sprite_of(before, y, n);
        assert(vx == draw_column(before, x) && vy == draw_row(before, y));
        assert(rows == draw_rows(before, y, n));
        proof {
            lemma_before_start(before.screen, sprite, vx as int, vy as int);
        }
        let mut hit = false;
        let mut row: usize = 0;
        while row < rows
            invariant
                row <= rows,
                rows <= 16,
                vy + rows <= 32,
                vx < 64,
                base + rows <= 4096,
                self.stack_pointer <= STACK_SIZE,
                before.wf(),
                sprite == before.ram.subrange(base as int, base + rows),
                self@ == (Machine {
                    screen: self@.screen,
                    v: before.v.update(0xF, 0u8),
                    ..before
                }),
                forall|p: int|
                    0 <= p < 2048 ==> self@.screen[p] == (before.screen[p] != covered_before(
                        sprite,
                        vx as int,
                        vy as int,
                        p,
                        row as int,
                        0,
                    )),
                hit == collides_before(before.screen, sprite, vx as int, vy as int, row as int, 0),
            decreases rows - row,
        {
            let bits = self.ram[base + row];
            assert(bits == sprite[row as int]);
            let mut k: usize = 0;
            while k < 8
                invariant
                    k <= 8,
                    row < rows,
                    rows <= 16,
                    vy + rows <= 32,
                    vx < 64,
                    self.stack_pointer <= STACK_SIZE,
                    before.wf(),
                    sprite.len() == rows,
                    bits == sprite[row as int],
                    self@ == (Machine {
                        screen: self@.screen,
                        v: before.v.update(0xF, 0u8),
                        ..before
                    }),
                    forall|p: int|
                        0 <= p < 2048 ==> self@.screen[p] == (before.screen[p] != covered_before(
                            sprite,
                            vx as int,
                            vy as int,
                            p,
                            row as int,
                            k as int,
                        )),
                    hit == collides_before(
                        before.screen,
                        sprite,
                        vx as int,
                        vy as int,
                        row as int,
                        k as int,
                    ),
                decreases 8 - k,
            {
                proof {
                    lemma_before_bit(before.screen, sprite, vx as int, vy as int, row as int, k as int);
                }
                let shift: u8 = (7 - k) as u8;
                if (bits >> shift) & 1 == 1 {
                    let idx: usize = (vy + row) * 64 + (vx + k) % 64;
                    assert(idx == pixel_under(vx as int, vy as int, row as int, k as int));
                    assert(row_bit(bits, k as int));
                    if self.screen[idx] {
                        hit = true;
                    }
                    self.screen[idx] = !self.screen[idx];
                }
                k += 1;
            }
            proof {
                lemma_before_row(before.screen, sprite, vx as int, vy as int, row as int);
            }
            row += 1;
        }
        proof {
            lemma_before_end(before.screen, sprite, vx as int, vy as int);
        }
        self.v_reg[0xF] = if hit {
            1
        } else {
            0
        };
        assert(self@.screen =~= before.draw_sprite(x, y, n).screen);
        assert(self@.v =~= before.draw_sprite(x, y, n).v);
    }

    /// Stores the three decimal digits of `Vx` at the index register,
    /// hundreds first.
    fn store_bcd(&mut self, x: u8)
        requires
            x < 16,
            old(self)@.i + 2 < 4096,
        ensures
            final(self)@ == old(self)@.store_bcd(x),
    {
        proof {
            use_type_invariant(&*self);
        }
        let val = self.v_reg[x as usize];
        let at = self.i_reg as usize;
        self.ram[at + 2] = val % 10;
        self.ram[at + 1] = (val / 10) % 10;
        self.ram[at] = val / 100;
        assert(self@.ram =~= old(self)@.store_bcd(x).ram);
    }

    /// Stores `V0..=Vx` in memory from the index register on.
    fn store_regs(&mut self, x: u8)
        requires
            x < 16,
            old(self)@.i + x < 4096,
        ensures
            final(self)@ == old(self)@.store_regs(x),
    {
        proof {
            use_type_invariant(&*self);
        }
        let at = self.i_reg as usize;
        let mut r: usize = 0;
        while r <= x as usize
            invariant
                r <= x + 1,
                x < 16,
                at + x < 4096,
                at == old(self)@.i,
                self.stack_pointer <= STACK_SIZE,
                self@ == (Machine { ram: self@.ram, ..old(self)@ }),
                forall|a: int|
                    0 <= a < 4096 ==> self@.ram[a] == if at <= a < at + r {
                        old(self)@.v[a - at]
                    } else {
                        old(self)@.ram[a]
                    },
            decreases x + 1 - r,
        {
            self.ram[at + r] = self.v_reg[r];
            r += 1;
        }
        assert(self@.ram =~= old(self)@.store_regs(x).ram);
    }

    /// Loads `V0..=Vx` from memory from the index register on.
    fn load_regs(&mut self, x: u8)
        requires
            x < 16,
            old(self)@.i + x < 4096,
        ensures
            final(self)@ == old(self)@.load_regs(x),
    {
        proof {
            use_type_invariant(&*self);
        }
        let at = self.i_reg as usize;
        let mut r: usize = 0;
        while r <= x as usize
            invariant
                r <= x + 1,
                x < 16,
                at + x < 4096,
                at == old(self)@.i,
                self.stack_pointer <= STACK_SIZE,
                self@ == (Machine { v: self@.v, ..old(self)@ }),
                forall|q: int|
                    0 <= q < 16 ==> self@.v[q] == if q < r {
                        old(self)@.ram[at + q]
                    } else {
                        old(self)@.v[q]
                    },
            decreases x + 1 - r,
        {
            self.v_reg[r] = self.ram[at + r];
            r += 1;
        }
        assert(self@.v =~= old(self)@.load_regs(x).v);
    }
}

impl Emu {
    /// Executes one decoded instruction that runs into no fault and does
    /// not wait for a key.
    #[verifier::rlimit(50)]
    fn execute(&mut self, instr: Instr, rnd: u8)
        requires
            instr.wf(),
            !(instr is WaitKey),
            can_fetch(old(self)@),
            fault_of(old(self)@, instr) is None,
        ensures
            final(self)@ == apply(old(self)@, instr, rnd),
    {
        proof {
            use_type_invariant(&*self);
        }
        self.pc = self.pc + 2;
        match instr {
            Instr::Nop => {},
            Instr::ClearScreen => {
                self.screen_clear();
            },
            Instr::Return => {
                let back = self.pop();
                proof {
                    use_type_invariant(&*self);
                }
                self.pc = back;
            },
            Instr::Jump { addr } => {
                self.pc = addr;
            },
            Instr::Call { addr } => {
                let back = self.pc;
                self.push(back);
                proof {
                    use_type_invariant(&*self);
                }
                self.pc = addr;
            },
            Instr::SkipEqImm { x, byte } => {
                if self.v_reg[x as usize] == byte {
                    self.pc = self.pc + 2;
                }
            },
            Instr::SkipNeImm { x, byte } => {
                if self.v_reg[x as usize] != byte {
                    self.pc = self.pc + 2;
                }
            },
            Instr::SkipEqReg { x, y } => {
                if self.v_reg[x as usize] == self.v_reg[y as usize] {
                    self.pc = self.pc + 2;
                }
            },
            Instr::LoadImm { x, byte } => {
                self.v_reg[x as usize] = byte;
            },
            Instr::AddImm { x, byte } => {
                self.v_reg[x as usize] = self.v_reg[x as usize].wrapping_add(byte);
            },
            Instr::Move { x, y } => {
                self.v_reg[x as usize] = self.v_reg[y as usize];
            },
            Instr::Or { x, y } => {
                self.v_reg[x as usize] = self.v_reg[x as usize] | self.v_reg[y as usize];
            },
            Instr::And { x, y } => {
                self.v_reg[x as usize] = self.v_reg[x as usize] & self.v_reg[y as usize];
            },
            Instr::Xor { x, y } => {
                self.v_reg[x as usize] = self.v_reg[x as usize] ^ self.v_reg[y as usize];
            },
            Instr::AddReg { x, y } => {
                let a = self.v_reg[x as usize];
                let b = self.v_reg[y as usize];
                let carry: u8 = if a as u16 + b as u16 > 255 {
                    1
                } else {
                    0
                };
                self.v_reg[x as usize] = a.wrapping_add(b);
                self.v_reg[0xF] = carry;
            },
            Instr::SubReg { x, y } => {
                let a = self.v_reg[x as usize];
                let b = self.v_reg[y as usize];
                self.v_reg[0xF] = if a >= b {
                    1
                } else {
                    0
                };
                self.v_reg[x as usize] = a.wrapping_sub(b);
            },
            Instr::ShiftRight { x } => {
                let a = self.v_reg[x as usize];
                assert(a & 1 == a % 2 && a >> 1 == a / 2) by (bit_vector);
                self.v_reg[0xF] = a & 1;
                self.v_reg[x as usize] = a >> 1;
            },
            Instr::SubReverse { x, y } => {
                let a = self.v_reg[x as usize];
                let b = self.v_reg[y as usize];
                self.v_reg[0xF] = if b >= a {
                    1
                } else {
                    0
                };
                self.v_reg[x as usize] = b.wrapping_sub(a);
            },
            Instr::ShiftLeft { x } => {
                let a = self.v_reg[x as usize];
                assert((a >> 7) & 1 == a / 128 && a << 1 == (a * 2) % 256) by (bit_vector);
                self.v_reg[0xF] = (a >> 7) & 1;
                self.v_reg[x as usize] = a << 1;
            },
            Instr::SkipNeReg { x, y } => {
                if self.v_reg[x as usize] != self.v_reg[y as usize] {
                    self.pc = self.pc + 2;
                }
            },
            Instr::LoadIndex { addr } => {
                self.i_reg = addr;
            },
            Instr::JumpOffset { addr } => {
                let v0 = self.v_reg[0] as u16;
                assert((v0 + addr) as u16 & 0x0FFF == (v0 + addr) % 4096) by (bit_vector)
                    requires
                        v0 < 256,
                        addr < 4096,
                ;
                self.pc = (v0 + addr) & 0x0FFF;
            },
            Instr::Random { x, byte } => {
                self.v_reg[x as usize] = rnd & byte;
            },
            Instr::Draw { x, y, n } => {
                self.draw_sprite(x, y, n);
            },
            Instr::SkipKeyDown { x } => {
                if self.keys[self.v_reg[x as usize] as usize] {
                    self.pc = self.pc + 2;
                }
            },
            Instr::SkipKeyUp { x } => {
                if !self.keys[self.v_reg[x as usize] as usize] {
                    self.pc = self.pc + 2;
                }
            },
            Instr::ReadDelay { x } => {
                self.v_reg[x as usize] = self.delay_timer;
            },
            Instr::WaitKey { .. } => {},
            Instr::SetDelay { x } => {
                self.delay_timer = self.v_reg[x as usize];
            },
            Instr::SetSound { x } => {
                self.sound_timer = self.v_reg[x as usize];
            },
            Instr::AddIndex { x } => {
                self.i_reg = self.i_reg.wrapping_add(self.v_reg[x as usize] as u16);
            },
            Instr::Glyph { x } => {
                let val = self.v_reg[x as usize];
                let digit = val & 0x0F;
                assert(digit == val % 16) by (bit_vector)
                    requires
                        digit == val & 0x0F,
                ;
                self.i_reg = (FONT_BASE_ADDR + digit as usize * 5) as u16;
            },
            Instr::Bcd { x } => {
                self.store_bcd(x);
            },
            Instr::Store { x } => {
                self.store_regs(x);
            },
            Instr::Load { x } => {
                self.load_regs(x);
            },
        }
        assert(self@ =~= apply(old(self)@, instr, rnd));
    }

    /// Whether the instruction at the program counter asks for a random
    /// byte.
    fn wants_random(&self) -> (r: bool)
        ensures
            r == (can_fetch(self@) && decode_spec(opcode_at(self@)) matches Some(
                Instr::Random { .. },
            )),
    {
        match self.peek_opcode() {
            Ok(op) => match decode(op) {
                Some(Instr::Random { .. }) => true,
                _ => false,
            },
            Err(_) => false,
        }
    }

    /// Executes the instruction at the program counter, with `rnd` as the
    /// random byte for an instruction that asks for one.
    ///
    /// A machine at an instruction that waits for a key does not move: the
    /// call reports `Progress::AwaitingKey` and `key_event` takes it
    /// further. A step that runs into a fault reports the fault and leaves
    /// the machine as it was.
    pub fn fetch_with(&mut self, rnd: u8) -> (r: Result<Progress, Fault>)
        ensures
            r == report(old(self)@, rnd),
            final(self)@ == after(old(self)@, rnd),
            final(self)@.wf(),
    {
        proof {
            use_type_invariant(&*self);
        }
        let op = match self.peek_opcode() {
            Ok(op) => op,
            Err(f) => {
                return Err(f);
            },
        };
        let instr = match decode(op) {
            Some(instr) => instr,
            None => {
                return Err(Fault::UnknownOpcode(op));
            },
        };
        if let Instr::WaitKey { .. } = instr {
            return Ok(Progress::AwaitingKey);
        }
        if let Some(f) = self.check(instr) {
            return Err(f);
        }
        self.execute(instr, rnd);
        proof {
            use_type_invariant(&*self);
        }
        Ok(Progress::Advanced)
    }

    /// Executes the instruction at the program counter. An instruction that
    /// asks for a random byte gets one from the thread's random generator;
    /// whatever the byte, the step is `fetch_with` of it.
    pub fn fetch(&mut self) -> (r: Result<Progress, Fault>)
        ensures
            exists|rnd: u8|
                r == #[trigger] report(old(self)@, rnd) && final(self)@ == after(old(self)@, rnd),
            final(self)@.wf(),
    {
        let rnd: u8 = if self.wants_random() {
            random_below_256() as u8
        } else {
            0
        };
        self.fetch_with(rnd)
    }

    /// Whether the machine is suspended at an instruction that waits for a
    /// key.
    pub fn awaiting_key(&self) -> (r: bool)
        ensures
            r == awaits_key(self@),
    {
        match self.peek_opcode() {
            Ok(op) => match decode(op) {
                Some(Instr::WaitKey { .. }) => true,
                _ => false,
            },
            Err(_) => false,
        }
    }

    /// Hands a keyboard event to the machine. Only a machine that waits for
    /// a key acts on it: a press of a keypad key puts the key in the target
    /// register and lets execution go on, a request to stop abandons the
    /// wait with the register untouched, anything else keeps it waiting.
    pub fn key_event(&mut self, input: KeyInput) -> (r: KeyWait)
        ensures
            r == key_event_answer(old(self)@, input),
            final(self)@ == key_event_state(old(self)@, input),
            final(self)@.wf(),
    {
        proof {
            use_type_invariant(&*self);
        }
        let x = match self.peek_opcode() {
            Ok(op) => match decode(op) {
                Some(Instr::WaitKey { x }) => x,
                _ => {
                    return KeyWait::NotWaiting;
                },
            },
            Err(_) => {
                return KeyWait::NotWaiting;
            },
        };
        match interpret(input) {
            Command::Press(k) => {
                self.pc = self.pc + 2;
                self.v_reg[x as usize] = k;
                KeyWait::Resolved
            },
            Command::Quit => {
                self.pc = self.pc + 2;
                KeyWait::Cancelled
            },
            Command::Ignore => KeyWait::Waiting,
        }
    }

    /// Marks key `key` of the keypad as held or not held. A key that the
    /// keypad does not have is ignored.
    pub fn set_key(&mut self, key: u8, held: bool)
        ensures
            final(self)@ == old(self)@.set_key(key, held),
            final(self)@.wf(),
    {
        proof {
            use_type_invariant(&*self);
        }
        if key < 16 {
            self.keys[key as usize] = held;
        }
    }
}

impl Emu {
    /// The program counter.
    pub fn pc(&self) -> (r: u16)
        ensures
            r == self@.pc,
    {
        self.pc
    }

    /// The index register.
    pub fn index(&self) -> (r: u16)
        ensures
            r == self@.i,
    {
        self.i_reg
    }

    /// The sixteen general registers.
    pub fn registers(&self) -> (r: &[u8; 16])
        ensures
            r@ == self@.v,
    {
        &self.v_reg
    }

    /// The whole of memory.
    pub fn memory(&self) -> (r: &[u8; 4096])
        ensures
            r@ == self@.ram,
    {
        &self.ram
    }

    /// The framebuffer, row by row from the top, `SCREEN_WIDTH` pixels to a
    /// row, so that the pixel in column `x` of row `y` is at
    /// `y * SCREEN_WIDTH + x`; `true` is a lit pixel.
    pub fn screen(&self) -> (r: &[bool; 2048])
        ensures
            r@ == self@.screen,
            r@.len() == SCREEN_WIDTH * SCREEN_HEIGHT,
    {
        &self.screen
    }

    /// The keypad; `true` is a held key.
    pub fn keys(&self) -> (r: &[bool; 16])
        ensures
            r@ == self@.keys,
    {
        &self.keys
    }

    /// The delay timer.
    pub fn delay_timer(&self) -> (r: u8)
        ensures
            r == self@.delay,
    {
        self.delay_timer
    }

    /// The sound timer.
    pub fn sound_timer(&self) -> (r: u8)
        ensures
            r == self@.sound,
    {
        self.sound_timer
    }

    /// The number of return addresses on the call stack.
    pub fn stack_depth(&self) -> (r: usize)
        ensures
            r == self@.stack.len(),
            r <= STACK_SIZE,
    {
        proof {
            use_type_invariant(self);
        }
        self.stack_pointer as usize
    }
}

} // verus!
