//! A CHIP-8 virtual machine: sixteen 8-bit registers, 4 KiB of memory, a
//! sixteen-entry call stack, a 64x32 monochrome framebuffer, a sixteen-key
//! keypad and two countdown timers.
//!
//! [`Emu`] is the executable machine. Its behaviour is stated over
//! [`Machine`], a mathematical model of the same state, by the transition
//! functions in [`step`].
//!
//! The machine does no input or output of its own. A driver loads a program
//! with [`Emu::load_rom`], writes the keypad with [`Emu::set_key`] and
//! [`Emu::reset_keys`], executes instructions with [`Emu::fetch`], counts
//! the timers down with [`Emu::update_timers`] and reads the framebuffer
//! with [`Emu::screen`]. At an instruction that waits for a key the machine
//! stays put until the driver hands it a key press through
//! [`Emu::key_event`].
//!
//! Memory below [`START_ADDR`] belongs to the machine: the font is there,
//! at [`FONT_BASE_ADDR`], and no program load reaches it.
//!
//! A program that cannot go on (an unknown instruction word, a call with
//! the stack full, a return with it empty, an access beyond the end of
//! memory, a test of a key that does not exist) stops with a [`Fault`]; the
//! machine is then exactly as it was before the failed step.

pub mod emu;
mod entropy;
pub mod instr;
pub mod keypad;
pub mod laws;
pub mod layout;
pub mod machine;
pub mod sprite;
pub mod step;

pub use emu::Emu;
pub use instr::{decode, Instr};
pub use keypad::{interpret, keypad_index, Command, KeyCode, KeyInput, KeyKind, KeyWait};
pub use layout::{FONT_BASE_ADDR, SCREEN_HEIGHT, SCREEN_WIDTH, START_ADDR};
pub use machine::Machine;
pub use step::{Fault, Progress};
