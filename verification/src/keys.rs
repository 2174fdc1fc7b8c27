//! The keys of the command line: what each key does in each input mode.

use crate::history::HistoryKey;
use vstd::prelude::*;

verus! {

/// Whether the keys go to the program or into the input line.
#[derive(Debug, PartialEq, Eq, Structural, Clone, Copy, Hash)]
pub enum InputMode {
    /// Keys are commands to the program.
    Normal,
    /// Keys edit the input line.
    Editing,
}

/// A key of the keyboard, as far as the command line tells keys apart.
#[derive(Debug, PartialEq, Eq, Structural, Clone, Copy, Hash)]
pub enum Key {
    Char(char),
    Enter,
    Backspace,
    Left,
    Right,
    Up,
    Down,
    Esc,
    /// Any other key.
    Other,
}

/// What a key does.
#[derive(Debug, PartialEq, Eq, Structural, Clone, Copy, Hash)]
pub enum KeyAction {
    /// The key is ignored.
    Nothing,
    /// The program ends.
    Quit,
    /// Input goes into the given mode.
    SwitchTo(InputMode),
    /// The input line is submitted as a command.
    Submit,
    /// The character is put in at the cursor.
    Insert(char),
    /// The character before the cursor is taken out.
    DeletePrevChar,
    /// The cursor goes one place to the left.
    MoveLeft,
    /// The cursor goes one place to the right.
    MoveRight,
    /// An earlier command is recalled.
    Recall(HistoryKey),
}

/// What `key` does in `mode`.
///
/// In normal mode `e` begins editing and `q` quits, whether the key went
/// down or up. In editing mode only a key that went down counts: it edits
/// the line, moves through the earlier commands, submits, or, as `Esc`, ends
/// editing.
pub open spec fn action_of(mode: InputMode, key: Key, pressed: bool) -> KeyAction {
    match mode {
        InputMode::Normal => match key {
            Key::Char('e') => KeyAction::SwitchTo(InputMode::Editing),
            Key::Char('q') => KeyAction::Quit,
            _ => KeyAction::Nothing,
        },
        InputMode::Editing => if pressed {
            match key {
                Key::Enter => KeyAction::Submit,
                Key::Char(to_insert) => KeyAction::Insert(to_insert),
                Key::Backspace => KeyAction::DeletePrevChar,
                Key::Left => KeyAction::MoveLeft,
                Key::Right => KeyAction::MoveRight,
                Key::Up => KeyAction::Recall(HistoryKey::Up),
                Key::Down => KeyAction::Recall(HistoryKey::Down),
                Key::Esc => KeyAction::SwitchTo(InputMode::Normal),
                Key::Other => KeyAction::Nothing,
            }
        } else {
            KeyAction::Nothing
        },
    }
}

/// The mode after `action` in `mode`.
pub open spec fn mode_after(mode: InputMode, action: KeyAction) -> InputMode {
    match action {
        KeyAction::SwitchTo(next) => next,
        _ => mode,
    }
}

/// What `key` does in `mode`; `pressed` says whether the key went down.
pub fn on_key(mode: InputMode, key: Key, pressed: bool) -> (action: KeyAction)
    ensures
        action == action_of(mode, key, pressed),
{
    match mode {
        InputMode::Normal => match key {
            Key::Char(c) => {
                if c == 'e' {
                    KeyAction::SwitchTo(InputMode::Editing)
                } else if c == 'q' {
                    KeyAction::Quit
                } else {
                    KeyAction::Nothing
                }
            },
            _ => KeyAction::Nothing,
        },
        InputMode::Editing => {
            if !pressed {
                return KeyAction::Nothing;
            }
            match key {
                Key::Enter => KeyAction::Submit,
                Key::Char(to_insert) => KeyAction::Insert(to_insert),
                Key::Backspace => KeyAction::DeletePrevChar,
                Key::Left => KeyAction::MoveLeft,
                Key::Right => KeyAction::MoveRight,
                Key::Up => KeyAction::Recall(HistoryKey::Up),
                Key::Down => KeyAction::Recall(HistoryKey::Down),
                Key::Esc => KeyAction::SwitchTo(InputMode::Normal),
                Key::Other => KeyAction::Nothing,
            }
        },
    }
}

impl InputMode {
    /// The mode after `action`.
    pub fn after(self, action: KeyAction) -> (mode: InputMode)
        ensures
            mode == mode_after(self, action),
    {
        match action {
            KeyAction::SwitchTo(next) => next,
            _ => self,
        }
    }
}

} // verus!
