//! The mathematical model of the machine's state.

use vstd::prelude::*;
use crate::layout::{
    FONTSET, FONTSET_SIZE, FONT_BASE_ADDR, NUM_KEYS, NUM_REGS, RAM_SIZE, SCREEN_SIZE, STACK_SIZE,
    START_ADDR,
};

verus! {

/// The state of the machine as plain mathematical values.
#[verifier::ext_equal]
pub struct Machine {
    /// Address of the next instruction.
    pub pc: u16,
    /// Memory, `RAM_SIZE` bytes.
    pub ram: Seq<u8>,
    /// Framebuffer, `SCREEN_SIZE` pixels, row by row; `true` is lit.
    pub screen: Seq<bool>,
    /// General registers, `NUM_REGS` of them.
    pub v: Seq<u8>,
    /// Index register.
    pub i: u16,
    /// Return addresses, oldest first; at most `STACK_SIZE`.
    pub stack: Seq<u16>,
    /// Keypad, `NUM_KEYS` keys; `true` is held.
    pub keys: Seq<bool>,
    /// Delay timer.
    pub delay: u8,
    /// Sound timer.
    pub sound: u8,
}

/// A framebuffer with every pixel off.
pub open spec fn blank_screen() -> Seq<bool> {
    Seq::new(SCREEN_SIZE as nat, |p: int| false)
}

/// A keypad with no key held.
pub open spec fn idle_keys() -> Seq<bool> {
    Seq::new(NUM_KEYS as nat, |k: int| false)
}

/// Memory that is zero everywhere but for the font at `FONT_BASE_ADDR`.
pub open spec fn initial_ram() -> Seq<u8> {
    Seq::new(
        RAM_SIZE as nat,
        |a: int|
            if FONT_BASE_ADDR <= a < FONT_BASE_ADDR + FONTSET_SIZE {
                FONTSET@[a - FONT_BASE_ADDR]
            } else {
                0u8
            },
    )
}

/// Byte `i` of the font's place in memory.
pub open spec fn font_byte(ram: Seq<u8>, i: int) -> u8 {
    ram[FONT_BASE_ADDR + i]
}

/// Whether memory holds the built-in font at `FONT_BASE_ADDR`.
pub open spec fn holds_font(ram: Seq<u8>) -> bool {
    forall|i: int| 0 <= i < FONTSET_SIZE ==> #[trigger] font_byte(ram, i) == FONTSET@[i]
}

/// Memory after a program image has been copied to `START_ADDR`: the bytes
/// of the image that fit, then whatever was there before. Nothing below
/// `START_ADDR` changes, so the font stays as it is.
pub open spec fn loaded_ram(ram: Seq<u8>, image: Seq<u8>) -> Seq<u8> {
    Seq::new(
        ram.len(),
        |a: int|
            if START_ADDR <= a < START_ADDR + image.len() {
                image[a - START_ADDR]
            } else {
                ram[a]
            },
    )
}

/// A timer after one tick.
pub open spec fn ticked(t: u8) -> u8 {
    if t > 0 {
        (t - 1) as u8
    } else {
        0u8
    }
}

impl Machine {
    /// Every component has its fixed size and the stack is within capacity.
    pub open spec fn wf(self) -> bool {
        &&& self.ram.len() == RAM_SIZE
        &&& self.screen.len() == SCREEN_SIZE
        &&& self.v.len() == NUM_REGS
        &&& self.stack.len() <= STACK_SIZE
        &&& self.keys.len() == NUM_KEYS
    }

    /// The state in which a machine starts: the program counter at
    /// `START_ADDR`, the font in memory, everything else zero.
    pub open spec fn initial() -> Machine {
        Machine {
            pc: START_ADDR,
            ram: initial_ram(),
            screen: blank_screen(),
            v: Seq::new(NUM_REGS as nat, |r: int| 0u8),
            i: 0,
            stack: Seq::empty(),
            keys: idle_keys(),
            delay: 0,
            sound: 0,
        }
    }

    /// The state after a program image has been loaded.
    pub open spec fn load(self, image: Seq<u8>) -> Machine {
        Machine { ram: loaded_ram(self.ram, image), ..self }
    }

    /// The state after one timer tick.
    pub open spec fn tick(self) -> Machine {
        Machine { delay: ticked(self.delay), sound: ticked(self.sound), ..self }
    }

    /// The state after `k` timer ticks.
    pub open spec fn ticks(self, k: nat) -> Machine
        decreases k,
    {
        if k == 0 {
            self
        } else {
            self.tick().ticks((k - 1) as nat)
        }
    }

    /// The state with no key held.
    pub open spec fn release_keys(self) -> Machine {
        Machine { keys: idle_keys(), ..self }
    }

    /// The state with key `key` held or released; a key that the keypad
    /// does not have changes nothing.
    pub open spec fn set_key(self, key: u8, held: bool) -> Machine {
        if key < NUM_KEYS {
            Machine { keys: self.keys.update(key as int, held), ..self }
        } else {
            self
        }
    }

    /// The state with the framebuffer cleared.
    pub open spec fn clear_screen(self) -> Machine {
        Machine { screen: blank_screen(), ..self }
    }
}

} // verus!
