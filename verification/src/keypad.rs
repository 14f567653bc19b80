//! The keypad: which keyboard key stands for which of the sixteen keys, and
//! what a keyboard event means to a machine that waits for a key.

use vstd::prelude::*;
use crate::instr::{decode_spec, Instr};
use crate::machine::Machine;
use crate::step::{awaits_key, opcode_at};

verus! {

/// What happened to a keyboard key.
#[derive(Clone, Copy, Debug, PartialEq, Eq, Structural)]
pub enum KeyKind {
    /// The key went down.
    Press,
    /// The key is held and repeats.
    Repeat,
    /// The key went up.
    Release,
}

/// Which keyboard key an event is about.
#[derive(Clone, Copy, Debug, PartialEq, Eq, Structural)]
pub enum KeyCode {
    /// A key that produces a character.
    Char(char),
    /// The escape key.
    Escape,
    /// Any other key.
    Other,
}

/// One keyboard event.
#[derive(Clone, Copy, Debug, PartialEq, Eq, Structural)]
pub struct KeyInput {
    /// What happened to the key.
    pub kind: KeyKind,
    /// Which key it is.
    pub code: KeyCode,
}

/// What a keyboard event asks of the machine.
#[derive(Clone, Copy, Debug, PartialEq, Eq, Structural)]
pub enum Command {
    /// A key of the keypad was pressed.
    Press(u8),
    /// The user asked to stop.
    Quit,
    /// Nothing that concerns the machine.
    Ignore,
}

/// How a machine answered a keyboard event.
#[derive(Clone, Copy, Debug, PartialEq, Eq, Structural)]
pub enum KeyWait {
    /// The machine is not waiting for a key; nothing changed.
    NotWaiting,
    /// The event was no key press; the machine still waits.
    Waiting,
    /// The pressed key is in the target register; execution goes on.
    Resolved,
    /// The wait was abandoned; the target register is untouched.
    Cancelled,
}

/// The key of the keypad that a character's key stands for. The keypad is
/// laid out on the four rows `1234`, `qwer`, `asdf`, `zxcv` as
/// `123C`, `456D`, `789E`, `A0BF`.
pub open spec fn keypad_spec(c: char) -> Option<u8> {
    if c == '1' {
        Some(0x1u8)
    } else if c == '2' {
        Some(0x2u8)
    } else if c == '3' {
        Some(0x3u8)
    } else if c == '4' {
        Some(0xCu8)
    } else if c == 'q' {
        Some(0x4u8)
    } else if c == 'w' {
        Some(0x5u8)
    } else if c == 'e' {
        Some(0x6u8)
    } else if c == 'r' {
        Some(0xDu8)
    } else if c == 'a' {
        Some(0x7u8)
    } else if c == 's' {
        Some(0x8u8)
    } else if c == 'd' {
        Some(0x9u8)
    } else if c == 'f' {
        Some(0xEu8)
    } else if c == 'z' {
        Some(0xAu8)
    } else if c == 'x' {
        Some(0x0u8)
    } else if c == 'c' {
        Some(0xBu8)
    } else if c == 'v' {
        Some(0xFu8)
    } else {
        None
    }
}

/// What a keyboard event asks of the machine: only a press counts; escape
/// asks to stop, a key of the keypad presses it.
pub open spec fn interpret_spec(input: KeyInput) -> Command {
    if input.kind != KeyKind::Press {
        Command::Ignore
    } else {
        match input.code {
            KeyCode::Escape => Command::Quit,
            KeyCode::Char(c) => match keypad_spec(c) {
                Some(k) => Command::Press(k),
                None => Command::Ignore,
            },
            KeyCode::Other => Command::Ignore,
        }
    }
}

/// The register that the key-wait instruction at the program counter fills.
pub open spec fn wait_register(m: Machine) -> u8 {
    match decode_spec(opcode_at(m)) {
        Some(Instr::WaitKey { x }) => x,
        _ => 0u8,
    }
}

/// The state in which a keyboard event leaves the machine. A machine that
/// waits for a key takes a pressed key into the target register and moves
/// on; it moves on with the register untouched when asked to stop; anything
/// else leaves it where it is.
pub open spec fn key_event_state(m: Machine, input: KeyInput) -> Machine {
    if !awaits_key(m) {
        m
    } else {
        match interpret_spec(input) {
            Command::Press(k) => m.advance().set_v(wait_register(m), k),
            Command::Quit => m.advance(),
            Command::Ignore => m,
        }
    }
}

/// How the machine answers a keyboard event.
pub open spec fn key_event_answer(m: Machine, input: KeyInput) -> KeyWait {
    if !awaits_key(m) {
        KeyWait::NotWaiting
    } else {
        match interpret_spec(input) {
            Command::Press(_) => KeyWait::Resolved,
            Command::Quit => KeyWait::Cancelled,
            Command::Ignore => KeyWait::Waiting,
        }
    }
}

/// The key of the keypad that a character's key stands for.
pub fn keypad_index(c: char) -> (r: Option<u8>)
    ensures
        r == keypad_spec(c),
        r matches Some(k) ==> k < 16,
{
    match c {
        '1' => Some(0x1),
        '2' => Some(0x2),
        '3' => Some(0x3),
        '4' => Some(0xC),
        'q' => Some(0x4),
        'w' => Some(0x5),
        'e' => Some(0x6),
        'r' => Some(0xD),
        'a' => Some(0x7),
        's' => Some(0x8),
        'd' => Some(0x9),
        'f' => Some(0xE),
        'z' => Some(0xA),
        'x' => Some(0x0),
        'c' => Some(0xB),
        'v' => Some(0xF),
        _ => None,
    }
}

/// What a keyboard event asks of the machine.
pub fn interpret(input: KeyInput) -> (r: Command)
    ensures
        r == interpret_spec(input),
        r matches Command::Press(k) ==> k < 16,
{
    match input.kind {
        KeyKind::Press => match input.code {
            KeyCode::Escape => Command::Quit,
            KeyCode::Char(c) => match keypad_index(c) {
                Some(k) => Command::Press(k),
                None => Command::Ignore,
            },
            KeyCode::Other => Command::Ignore,
        },
        _ => Command::Ignore,
    }
}

} // verus!
