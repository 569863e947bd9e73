//! The events that the state machines consume: keys, and the commands of the
//! notebook.

use crate::data::{Directory, DirectoryId, Note};
use vstd::prelude::*;

verus! {

/// A digit key.
#[derive(Clone, Copy, Debug, PartialEq, Eq)]
pub enum NumKey {
    Zero,
    One,
    Two,
    Three,
    Four,
    Five,
    Six,
    Seven,
    Eight,
    Nine,
}

impl NumKey {
    /// The digit as a number.
    pub open spec fn digit(self) -> nat {
        match self {
            NumKey::Zero => 0,
            NumKey::One => 1,
            NumKey::Two => 2,
            NumKey::Three => 3,
            NumKey::Four => 4,
            NumKey::Five => 5,
            NumKey::Six => 6,
            NumKey::Seven => 7,
            NumKey::Eight => 8,
            NumKey::Nine => 9,
        }
    }

    /// The digit as a number.
    pub fn value(self) -> (value: usize)
        ensures
            value == self.digit(),
    {
        match self {
            NumKey::Zero => 0,
            NumKey::One => 1,
            NumKey::Two => 2,
            NumKey::Three => 3,
            NumKey::Four => 4,
            NumKey::Five => 5,
            NumKey::Six => 6,
            NumKey::Seven => 7,
            NumKey::Eight => 8,
            NumKey::Nine => 9,
        }
    }
}

/// A key, as the state machines know it.
#[derive(Clone, Copy, Debug, PartialEq, Eq)]
pub enum KeyEvent {
    B,
    C,
    D,
    E,
    H,
    J,
    K,
    L,
    M,
    V,
    W,
    Y,
    Num(NumKey),
    Esc,
}

/// The key that a character stands for: a letter for the key of that name,
/// a digit for its digit key; nothing for every other character.
pub open spec fn key_for(c: char) -> Option<KeyEvent> {
    if c == 'b' {
        Some(KeyEvent::B)
    } else if c == 'c' {
        Some(KeyEvent::C)
    } else if c == 'd' {
        Some(KeyEvent::D)
    } else if c == 'e' {
        Some(KeyEvent::E)
    } else if c == 'h' {
        Some(KeyEvent::H)
    } else if c == 'j' {
        Some(KeyEvent::J)
    } else if c == 'k' {
        Some(KeyEvent::K)
    } else if c == 'l' {
        Some(KeyEvent::L)
    } else if c == 'm' {
        Some(KeyEvent::M)
    } else if c == 'v' {
        Some(KeyEvent::V)
    } else if c == 'w' {
        Some(KeyEvent::W)
    } else if c == 'y' {
        Some(KeyEvent::Y)
    } else if c == '\u{1b}' {
        Some(KeyEvent::Esc)
    } else {
        match digit_for(c) {
            Some(key) => Some(KeyEvent::Num(key)),
            None => None,
        }
    }
}

/// The digit key that a character stands for, if it is a digit.
pub open spec fn digit_for(c: char) -> Option<NumKey> {
    if c == '0' {
        Some(NumKey::Zero)
    } else if c == '1' {
        Some(NumKey::One)
    } else if c == '2' {
        Some(NumKey::Two)
    } else if c == '3' {
        Some(NumKey::Three)
    } else if c == '4' {
        Some(NumKey::Four)
    } else if c == '5' {
        Some(NumKey::Five)
    } else if c == '6' {
        Some(NumKey::Six)
    } else if c == '7' {
        Some(NumKey::Seven)
    } else if c == '8' {
        Some(NumKey::Eight)
    } else if c == '9' {
        Some(NumKey::Nine)
    } else {
        None
    }
}

impl NumKey {
    /// The digit key that a character stands for, if it is a digit.
    pub fn of(c: char) -> (key: Option<NumKey>)
        ensures
            key == digit_for(c),
            key matches Some(digit) ==> digit.digit() == c as u32 - '0' as u32,
    {
        match c {
            '0' => Some(NumKey::Zero),
            '1' => Some(NumKey::One),
            '2' => Some(NumKey::Two),
            '3' => Some(NumKey::Three),
            '4' => Some(NumKey::Four),
            '5' => Some(NumKey::Five),
            '6' => Some(NumKey::Six),
            '7' => Some(NumKey::Seven),
            '8' => Some(NumKey::Eight),
            '9' => Some(NumKey::Nine),
            _ => None,
        }
    }
}

impl KeyEvent {
    /// The key that a character stands for, if it stands for one. The
    /// escape character stands for the escape key.
    pub fn of(c: char) -> (key: Option<KeyEvent>)
        ensures
            key == key_for(c),
    {
        match c {
            'b' => Some(KeyEvent::B),
            'c' => Some(KeyEvent::C),
            'd' => Some(KeyEvent::D),
            'e' => Some(KeyEvent::E),
            'h' => Some(KeyEvent::H),
            'j' => Some(KeyEvent::J),
            'k' => Some(KeyEvent::K),
            'l' => Some(KeyEvent::L),
            'm' => Some(KeyEvent::M),
            'v' => Some(KeyEvent::V),
            'w' => Some(KeyEvent::W),
            'y' => Some(KeyEvent::Y),
            '\u{1b}' => Some(KeyEvent::Esc),
            _ => match NumKey::of(c) {
                Some(key) => Some(KeyEvent::Num(key)),
                None => None,
            },
        }
    }
}

/// A command to the notebook.
#[derive(Debug, PartialEq, Eq)]
pub enum NotebookEvent {
    SelectNote(Note),
    SelectDirectory(Directory),
    EditNote,
    BrowseNoteTree,
    UpdateNoteContent(String),
    OpenDirectory(DirectoryId),
    CloseDirectory(DirectoryId),
    RenameNote(String),
    RenameDirectory(String),
    RemoveNote,
    RemoveDirectory,
    AddNote(String),
    AddDirectory(String),
}

/// What the entry screen can be asked.
#[derive(Clone, Copy, Debug, PartialEq, Eq)]
pub enum EntryEvent {
    OpenNotebook,
}

/// One input to the state machines. Each is consumed by one dispatch.
#[derive(Debug, PartialEq, Eq)]
pub enum Event {
    Key(KeyEvent),
    Entry(EntryEvent),
    Notebook(NotebookEvent),
}

} // verus!
