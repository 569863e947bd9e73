//! Single steps of the cursor: where each kind of step leads on a text,
//! and what a word is. This is what the text area does when its cursor is
//! moved.

use crate::buffer::{min, Pos, Text};
use vstd::prelude::*;

verus! {

/// One step that the text area can take with its cursor.
#[derive(Clone, Copy, Debug, PartialEq, Eq)]
pub enum CursorMove {
    /// One character on; from the end of a line to the head of the next.
    Forward,
    /// One line up, the column kept as far as the line reaches.
    Up,
    /// One line down, the column kept as far as the line reaches.
    Down,
    /// To the head of the line.
    Head,
    /// To the end of the line.
    End,
    /// To the first line.
    Top,
    /// To the last line.
    Bottom,
    /// To the start of the next word.
    WordForward,
    /// To the end of the word, or of the next.
    WordEnd,
    /// To the start of the word, or of the one before.
    WordBack,
    /// To the given row and column, as far as the text reaches.
    Jump(u16, u16),
}

/// The three classes of characters between which a word boundary lies.
pub enum CharKind {
    Space,
    Punct,
    Other,
}

/// The character has the Unicode property White_Space: it is one of the
/// control characters from the tabulator to the carriage return, the space,
/// the next-line character, the no-break space, the Ogham space mark, one
/// of the spaces from the en quad to the hair space, the line or the
/// paragraph separator, the narrow no-break space, the medium mathematical
/// space or the ideographic space.
pub open spec fn is_white_space(c: char) -> bool {
    ||| '\u{9}' <= c <= '\u{d}'
    ||| c == ' '
    ||| c == '\u{85}'
    ||| c == '\u{a0}'
    ||| c == '\u{1680}'
    ||| '\u{2000}' <= c <= '\u{200a}'
    ||| c == '\u{2028}'
    ||| c == '\u{2029}'
    ||| c == '\u{202f}'
    ||| c == '\u{205f}'
    ||| c == '\u{3000}'
}

/// `char::is_whitespace`: says whether the character has the Unicode
/// property White_Space.
pub assume_specification[ char::is_whitespace ](c: char) -> (white: bool)
    ensures
        white == is_white_space(c),
;

/// The punctuation of ASCII: the printable characters that are neither
/// letters, digits nor the space.
pub open spec fn is_ascii_punctuation(c: char) -> bool {
    ||| '!' <= c <= '/'
    ||| ':' <= c <= '@'
    ||| '[' <= c <= '`'
    ||| '{' <= c <= '~'
}

/// The class of a character: white space, punctuation of ASCII, or any
/// other.
pub open spec fn char_kind(c: char) -> CharKind {
    if is_white_space(c) {
        CharKind::Space
    } else if is_ascii_punctuation(c) {
        CharKind::Punct
    } else {
        CharKind::Other
    }
}

/// A word starts at `i`: the character there is no white space, and is the
/// first of the line or of another class than the one before it.
pub open spec fn word_starts_at(line: Seq<char>, i: int) -> bool {
    &&& 0 <= i < line.len()
    &&& char_kind(line[i]) != CharKind::Space
    &&& (i == 0 || char_kind(line[i - 1]) != char_kind(line[i]))
}

/// A word ends at `i`: the character there is no white space, and is the
/// last of the line or of another class than the one after it.
pub open spec fn word_ends_at(line: Seq<char>, i: int) -> bool {
    &&& 0 <= i < line.len()
    &&& char_kind(line[i]) != CharKind::Space
    &&& (i == line.len() - 1 || char_kind(line[i + 1]) != char_kind(line[i]))
}

/// The first column from `from` on at which a word starts.
pub open spec fn word_start_from(line: Seq<char>, from: int) -> Option<int>
    decreases line.len() - from,
{
    if from < 0 || from >= line.len() {
        None
    } else if word_starts_at(line, from) {
        Some(from)
    } else {
        word_start_from(line, from + 1)
    }
}

/// The first column from `from` on at which a word ends.
pub open spec fn word_end_from(line: Seq<char>, from: int) -> Option<int>
    decreases line.len() - from,
{
    if from < 0 || from >= line.len() {
        None
    } else if word_ends_at(line, from) {
        Some(from)
    } else {
        word_end_from(line, from + 1)
    }
}

/// The last column up to `upto` at which a word starts.
pub open spec fn word_start_upto(line: Seq<char>, upto: int) -> Option<int>
    decreases upto + 1,
{
    if upto < 0 {
        None
    } else if word_starts_at(line, upto) {
        Some(upto)
    } else {
        word_start_upto(line, upto - 1)
    }
}

/// The end of the first word on the lines below `row`; where there is none,
/// the end of the last line.
pub open spec fn word_end_below(lines: Text, row: int) -> Pos
    decreases lines.len() - row,
{
    if row < 0 || row >= lines.len() - 1 {
        (row, lines[row].len() as int)
    } else {
        match word_end_from(lines[row + 1], 0) {
            Some(col) => (row + 1, col),
            None => word_end_below(lines, row + 1),
        }
    }
}

/// The place that a jump to `row` and `col` reaches: the row at most the
/// last one, the column at most the length of that row's line.
pub open spec fn jump_target(lines: Text, row: int, col: int) -> Pos {
    let r = min(row, lines.len() - 1);
    (r, min(col, lines[r].len() as int))
}

/// Where one step `m` leads from `at`. A step that cannot be taken (up from
/// the first line, down from the last, forward from the end of the text)
/// leads nowhere: the result is `at`.
pub open spec fn step_target(m: CursorMove, lines: Text, at: Pos) -> Pos {
    let (row, col) = at;
    let len = lines[row].len() as int;
    match m {
        CursorMove::Forward => if col < len {
            (row, col + 1)
        } else if row + 1 < lines.len() {
            (row + 1, 0)
        } else {
            at
        },
        CursorMove::Up => if row == 0 {
            at
        } else {
            jump_target(lines, row - 1, col)
        },
        CursorMove::Down => if row + 1 < lines.len() {
            jump_target(lines, row + 1, col)
        } else {
            at
        },
        CursorMove::Head => (row, 0),
        CursorMove::End => (row, len),
        CursorMove::Top => jump_target(lines, 0, col),
        CursorMove::Bottom => jump_target(lines, lines.len() - 1, col),
        CursorMove::WordForward => match word_start_from(lines[row], col + 1) {
            Some(c) => (row, c),
            None => if row + 1 < lines.len() {
                (row + 1, 0)
            } else {
                (row, len)
            },
        },
        CursorMove::WordEnd => match word_end_from(lines[row], col + 1) {
            Some(c) => (row, c),
            None => word_end_below(lines, row),
        },
        CursorMove::WordBack => match word_start_upto(lines[row], col - 1) {
            Some(c) => (row, c),
            None => if row > 0 {
                (row - 1, lines[row - 1].len() as int)
            } else {
                (row, 0)
            },
        },
        CursorMove::Jump(r, c) => jump_target(lines, r as int, c as int),
    }
}

} // verus!
