use vstd::prelude::*;

verus! {

/// A key the editor reacts to.
#[derive(Clone, Copy, Debug, PartialEq, Eq, Structural, Hash)]
pub enum Key {
    Char(char),
    Ctrl(char),
    Backspace,
    Delete,
    Left,
    Right,
    Up,
    Down,
    Esc,
    InvalidKey,
}

/// The code of a key press as the terminal reports it.
#[derive(Clone, Copy, Debug, PartialEq, Eq, Structural, Hash)]
pub enum KeyCode {
    Char(char),
    Enter,
    Tab,
    Backspace,
    Delete,
    Left,
    Right,
    Up,
    Down,
    Esc,
    Other,
}

/// A character key, with or without the control modifier.
pub fn map_key_with_modifiers(control: bool, c: char) -> (r: Key)
    ensures
        r == (if control { Key::Ctrl(c) } else { Key::Char(c) }),
{
    if control {
        Key::Ctrl(c)
    } else {
        Key::Char(c)
    }
}

/// The key for a key code, `control` telling whether the control modifier was held.
pub open spec fn key_of(code: KeyCode, control: bool) -> Key {
    match code {
        KeyCode::Char(c) => if control { Key::Ctrl(c) } else { Key::Char(c) },
        KeyCode::Enter => if control { Key::Ctrl('\n') } else { Key::Char('\n') },
        KeyCode::Tab => if control { Key::Ctrl('\t') } else { Key::Char('\t') },
        KeyCode::Backspace => Key::Backspace,
        KeyCode::Delete => Key::Delete,
        KeyCode::Left => Key::Left,
        KeyCode::Right => Key::Right,
        KeyCode::Up => Key::Up,
        KeyCode::Down => Key::Down,
        KeyCode::Esc => Key::Esc,
        KeyCode::Other => Key::InvalidKey,
    }
}

impl Key {
    /// The key for a key press: Enter is the character `'\n'`, Tab the character `'\t'`.
    pub fn from_key_code(code: KeyCode, control: bool) -> (r: Key)
        ensures
            r == key_of(code, control),
    {
        match code {
            KeyCode::Char(c) => map_key_with_modifiers(control, c),
            KeyCode::Enter => map_key_with_modifiers(control, '\n'),
            KeyCode::Tab => map_key_with_modifiers(control, '\t'),
            KeyCode::Backspace => Key::Backspace,
            KeyCode::Delete => Key::Delete,
            KeyCode::Left => Key::Left,
            KeyCode::Right => Key::Right,
            KeyCode::Up => Key::Up,
            KeyCode::Down => Key::Down,
            KeyCode::Esc => Key::Esc,
            KeyCode::Other => Key::InvalidKey,
        }
    }
}

} // verus!
