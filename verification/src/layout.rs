//! Sizes and fixed addresses of the machine, and the built-in font.

use vstd::prelude::*;

verus! {

/// Width of the framebuffer in pixels.
pub const SCREEN_WIDTH: usize = 64;

/// Height of the framebuffer in pixels.
pub const SCREEN_HEIGHT: usize = 32;

/// Number of pixels in the framebuffer, stored row by row.
pub const SCREEN_SIZE: usize = 2048;

/// Number of bytes of memory.
pub const RAM_SIZE: usize = 4096;

/// Number of general registers; the last one doubles as the flag register.
pub const NUM_REGS: usize = 16;

/// Index of the flag register.
pub const FLAG_REG: usize = 15;

/// Number of return addresses the call stack can hold.
pub const STACK_SIZE: usize = 16;

/// Number of keys on the keypad.
pub const NUM_KEYS: usize = 16;

/// Address at which a program image is loaded and execution starts.
pub const START_ADDR: u16 = 0x200;

/// Address of the first byte of the built-in font. The whole font lies
/// below `START_ADDR`, where no program image is ever copied.
pub const FONT_BASE_ADDR: usize = 0x050;

/// Number of bytes in one glyph of the font.
pub const GLYPH_SIZE: usize = 5;

/// Number of bytes in the built-in font: sixteen glyphs of five rows each.
pub const FONTSET_SIZE: usize = 80;

/// The built-in font: one glyph for each hexadecimal digit, five rows per
/// glyph, the four leftmost bits of each row being the pixels.
pub const FONTSET: [u8; 80] = [
    0xF0, 0x90, 0x90, 0x90, 0xF0,
    0x20, 0x60, 0x20, 0x20, 0x70,
    0xF0, 0x10, 0xF0, 0x80, 0xF0,
    0xF0, 0x10, 0xF0, 0x10, 0xF0,
    0x90, 0x90, 0xF0, 0x10, 0x10,
    0xF0, 0x80, 0xF0, 0x10, 0xF0,
    0xF0, 0x80, 0xF0, 0x90, 0xF0,
    0xF0, 0x10, 0x20, 0x40, 0x40,
    0xF0, 0x90, 0xF0, 0x90, 0xF0,
    0xF0, 0x90, 0xF0, 0x10, 0xF0,
    0xF0, 0x90, 0xF0, 0x90, 0x90,
    0xE0, 0x90, 0xE0, 0x90, 0xE0,
    0xF0, 0x80, 0x80, 0x80, 0xF0,
    0xE0, 0x90, 0x90, 0x90, 0xE0,
    0xF0, 0x80, 0xF0, 0x80, 0xF0,
    0xF0, 0x80, 0xF0, 0x80, 0x80,
];

} // verus!
