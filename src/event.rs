//! The messages that reach the control loop, and the terminal input they carry.

use vstd::prelude::*;
use crate::opencli::OptionElement;
use ratatui::crossterm::event::Event as TerminalEvent;

verus! {

/// The Shift modifier bit of [`KeyInput::modifiers`].
pub const MOD_SHIFT: u8 = 1;
/// The Control modifier bit of [`KeyInput::modifiers`].
pub const MOD_CONTROL: u8 = 2;
/// The Alt modifier bit of [`KeyInput::modifiers`].
pub const MOD_ALT: u8 = 4;
/// The Super modifier bit of [`KeyInput::modifiers`].
pub const MOD_SUPER: u8 = 8;
/// The Hyper modifier bit of [`KeyInput::modifiers`].
pub const MOD_HYPER: u8 = 16;
/// The Meta modifier bit of [`KeyInput::modifiers`].
pub const MOD_META: u8 = 32;

/// A key of the keyboard, as far as the screens tell keys apart.
#[derive(Debug, Clone, Copy, PartialEq, Eq, Structural)]
pub enum KeyCode {
    Char(char),
    Esc,
    Enter,
    Up,
    Down,
    Left,
    Right,
    Home,
    End,
    Backspace,
    Delete,
    Tab,
    /// Any other key.
    Other,
}

/// Whether a key went down, repeats, or went up.
#[derive(Debug, Clone, Copy, PartialEq, Eq, Structural)]
pub enum KeyKind {
    Press,
    Repeat,
    Release,
}

/// A key event: the key, the modifier bits held with it, and its kind.
#[derive(Debug, Clone, Copy, PartialEq, Eq, Structural)]
pub struct KeyInput {
    pub code: KeyCode,
    pub modifiers: u8,
    pub kind: KeyKind,
}

#[verifier::external_type_specification]
#[verifier::external_body]
pub struct ExTerminalEvent(TerminalEvent);

/// Relies on the derived `Clone` of crossterm's event record: a copy equal to the record it copies.
pub assume_specification[ <TerminalEvent as Clone>::clone ](record: &TerminalEvent) -> (r: TerminalEvent)
    ensures
        r == *record,
;

/// A record read from the terminal: the record itself, handed on to text
/// editing, and the key it holds, if any, as plain values. Mouse, resize,
/// focus and paste records hold no key.
#[derive(Debug, Clone)]
pub struct RawInput {
    pub key: Option<KeyInput>,
    pub record: TerminalEvent,
}

impl KeyInput {
    /// A key pressed with no modifier.
    pub fn plain(code: KeyCode) -> (r: KeyInput)
        ensures
            r.code == code,
            r.modifiers == 0,
            r.kind == KeyKind::Press,
    {
        KeyInput { code, modifiers: 0, kind: KeyKind::Press }
    }

    /// The chord that stops the application: Control and `c`, nothing else held.
    pub open spec fn spec_is_interrupt(self) -> bool {
        self.code == KeyCode::Char('c') && self.modifiers == MOD_CONTROL
    }

    pub fn is_interrupt(&self) -> (r: bool)
        ensures
            r == self.spec_is_interrupt(),
    {
        self.modifiers == MOD_CONTROL && match self.code {
            KeyCode::Char(c) => c == 'c',
            _ => false,
        }
    }
}

/// A message to the control loop, in the order it was sent.
#[derive(Debug, Clone)]
pub enum Event {
    /// Emitted on a regular schedule when no input arrives.
    Tick,
    /// A record read from the terminal.
    Input(RawInput),
    /// An option that was picked.
    OptionSelection(OptionElement),
    /// The indices that were picked from a list.
    Selection(Vec<usize>),
    /// Nothing was picked.
    NoSelection,
    /// The application is asked to stop.
    Exit,
}

} // verus!
