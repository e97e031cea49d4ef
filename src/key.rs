//! Key presses as the library sees them: a key code, modifier bits, the kind
//! of press and the keyboard state bits, kept in a normal form so that two
//! presses are the same exactly when their fields are equal.

use vstd::prelude::*;

verus! {

/// Modifier bit for Shift.
pub const SHIFT: u8 = 0x01;
/// Modifier bit for Control.
pub const CONTROL: u8 = 0x02;
/// Modifier bit for Alt.
pub const ALT: u8 = 0x04;
/// Modifier bit for Super.
pub const SUPER: u8 = 0x08;
/// Modifier bit for Hyper.
pub const HYPER: u8 = 0x10;
/// Modifier bit for Meta.
pub const META: u8 = 0x20;

/// The key that was pressed.
#[derive(Debug, Clone, Copy, PartialEq, Eq, Structural, Hash)]
pub enum KeyCode {
    Backspace,
    Enter,
    Left,
    Right,
    Up,
    Down,
    Home,
    End,
    PageUp,
    PageDown,
    Tab,
    BackTab,
    Delete,
    Insert,
    F(u8),
    Char(char),
    Null,
    Esc,
    CapsLock,
    ScrollLock,
    NumLock,
    PrintScreen,
    Pause,
    Menu,
    KeypadBegin,
    /// A media key, by its position in the terminal library's list of media
    /// keys.
    Media(u8),
    /// A lone modifier key, by its position in the terminal library's list
    /// of modifier keys.
    Modifier(u8),
}

/// Whether a key went down, repeated or came up.
#[derive(Debug, Clone, Copy, PartialEq, Eq, Structural, Hash)]
pub enum KeyKind {
    Press,
    Repeat,
    Release,
}

/// A physical key press, in normal form (see `is_normal`).
#[derive(Debug, Clone, Copy, PartialEq, Eq, Structural, Hash)]
pub struct Key {
    pub code: KeyCode,
    pub modifiers: u8,
    pub kind: KeyKind,
    pub state: u8,
}

pub open spec fn is_ascii_lower(c: char) -> bool {
    'a' <= c && c <= 'z'
}

pub open spec fn is_ascii_upper(c: char) -> bool {
    'A' <= c && c <= 'Z'
}

/// The ASCII upper-case form of a character; other characters are kept.
pub open spec fn upper_of(c: char) -> char {
    if is_ascii_lower(c) {
        ((c as u32) - 32) as char
    } else {
        c
    }
}

/// The ASCII upper-case form of a character; other characters are kept.
fn ascii_upper(c: char) -> (r: char)
    ensures
        r == upper_of(c),
{
    if 'a' <= c && c <= 'z' {
        let b = c as u8;
        assert(b as u32 == c as u32);
        ((b - 32) as u8) as char
    } else {
        c
    }
}

/// A key press with the case of a letter and the Shift bit made to agree:
/// an upper-case ASCII letter carries Shift, and a character pressed with
/// Shift is upper-case.
pub open spec fn normalize(code: KeyCode, modifiers: u8) -> (KeyCode, u8) {
    match code {
        KeyCode::Char(c) => if is_ascii_upper(c) {
            (code, modifiers | SHIFT)
        } else if modifiers & SHIFT != 0 {
            (KeyCode::Char(upper_of(c)), modifiers)
        } else {
            (code, modifiers)
        },
        _ => (code, modifiers),
    }
}

impl Key {
    /// Whether the key press is in normal form.
    pub open spec fn is_normal(self) -> bool {
        normalize(self.code, self.modifiers) == (self.code, self.modifiers)
    }

    /// A key press of the given kind and state, brought to normal form.
    pub fn with_kind(code: KeyCode, modifiers: u8, kind: KeyKind, state: u8) -> (r: Key)
        ensures
            (r.code, r.modifiers) == normalize(code, modifiers),
            r.kind == kind,
            r.state == state,
    {
        match code {
            KeyCode::Char(c) => {
                if 'A' <= c && c <= 'Z' {
                    Key { code, modifiers: modifiers | SHIFT, kind, state }
                } else if modifiers & SHIFT != 0 {
                    let u = ascii_upper(c);
                    Key { code: KeyCode::Char(u), modifiers, kind, state }
                } else {
                    Key { code, modifiers, kind, state }
                }
            },
            _ => Key { code, modifiers, kind, state },
        }
    }

    /// A plain key press (kind `Press`, no state bits), brought to normal form.
    pub fn new(code: KeyCode, modifiers: u8) -> (r: Key)
        ensures
            (r.code, r.modifiers) == normalize(code, modifiers),
            r.kind == KeyKind::Press,
            r.state == 0,
    {
        Key::with_kind(code, modifiers, KeyKind::Press, 0)
    }

    /// A plain press of a character key without modifiers.
    pub fn char(c: char) -> (r: Key)
        ensures
            (r.code, r.modifiers) == normalize(KeyCode::Char(c), 0),
            r.kind == KeyKind::Press,
            r.state == 0,
    {
        Key::new(KeyCode::Char(c), 0)
    }
}

/// Whether two chords hold the same keys in the same order.
pub fn same_chord(a: &Vec<Key>, b: &Vec<Key>) -> (r: bool)
    ensures
        r == (a@ == b@),
{
    if a.len() != b.len() {
        return false;
    }
    let mut i: usize = 0;
    while i < a.len()
        invariant
            a.len() == b.len(),
            i <= a.len(),
            forall|j: int| 0 <= j < i ==> a@[j] == b@[j],
        decreases a.len() - i,
    {
        if a[i] != b[i] {
            return false;
        }
        i = i + 1;
    }
    assert(a@ =~= b@);
    true
}

} // verus!
