//! Motions: where a motion with a count leads on a buffer, and the
//! functions that move the cursor of the text area there.

use crate::buffer::{min, pos_valid, Buffer, Pos, Text};
use crate::step::{
    is_white_space, jump_target, step_target, word_end_below, word_end_from, word_start_from,
    word_start_upto, word_starts_at, word_ends_at, CursorMove,
};
use crate::text::pos_of;
use crate::textarea::{cursor, move_cursor, Area};
use vstd::prelude::*;
use vstd::string::StrSliceExecFns;

verus! {

/// The first column from `from` on that holds no white space; 0 where there
/// is none.
pub open spec fn non_blank_from(line: Seq<char>, from: int) -> int
    decreases line.len() - from,
{
    if from < 0 || from >= line.len() {
        0
    } else if !is_white_space(line[from]) {
        from
    } else {
        non_blank_from(line, from + 1)
    }
}

/// The column of the first character of `line` that is no white space; 0 for
/// a line of white space only.
pub open spec fn first_non_blank(line: Seq<char>) -> int {
    non_blank_from(line, 0)
}

/// A motion of the editor: a family of cursor movements, most of them taking
/// a count.
#[derive(Clone, Copy, Debug, PartialEq, Eq)]
pub enum Motion {
    /// `n` characters on, at most to the end of the line.
    Forward,
    /// `n` characters back, at most to the head of the line.
    Back,
    /// `n` lines down, at most to the last line.
    Down,
    /// `n` lines up, at most to the first line.
    Up,
    /// `n` times to the start of the next word.
    WordForward,
    /// `n` times to the next end of a word.
    WordEnd,
    /// `n` times to the start of a word before.
    WordBack,
    /// To line `n`, counted from 1, and then to the start of the next word.
    ToLine,
    /// To the head of the line. Takes no count.
    LineStart,
    /// To the end of the line. Takes no count.
    LineEnd,
    /// To the first character of the line that is no white space. Takes no
    /// count.
    LineNonEmptyStart,
    /// To the first line. Takes no count.
    Top,
    /// To the last line. Takes no count.
    Bottom,
}

impl Motion {
    /// The motion repeats, or reaches, by its count.
    pub open spec fn counted(self) -> bool {
        match self {
            Motion::LineStart | Motion::LineEnd | Motion::LineNonEmptyStart | Motion::Top
            | Motion::Bottom => false,
            _ => true,
        }
    }
}

impl Buffer {
    /// The buffer after one step `m` of the cursor.
    pub open spec fn step(self, m: CursorMove) -> Buffer {
        self.at(step_target(m, self.lines, self.cursor))
    }

    /// The buffer after `n` steps `m`, each taken from where the one before
    /// it led.
    pub open spec fn steps(self, m: CursorMove, n: nat) -> Buffer
        decreases n,
    {
        if n == 0 {
            self
        } else {
            self.steps(m, (n - 1) as nat).step(m)
        }
    }

    /// The buffer after a jump to `row` and `col`, as far as the text reaches.
    pub open spec fn jump(self, row: int, col: int) -> Buffer {
        self.at(jump_target(self.lines, row, col))
    }

    /// Where motion `m` with count `n` leads from the cursor.
    pub open spec fn resolve(self, m: Motion, n: nat) -> Pos {
        let (row, col) = self.cursor;
        match m {
            Motion::Forward => (row, min(col + n, self.line().len() as int)),
            Motion::Back => (
                row,
                if col < n {
                    0
                } else {
                    col - n
                },
            ),
            Motion::Down => jump_target(self.lines, row + n, col),
            Motion::Up => jump_target(
                self.lines,
                if row < n {
                    0
                } else {
                    row - n
                },
                col,
            ),
            Motion::WordForward => self.steps(CursorMove::WordForward, n).cursor,
            Motion::WordEnd => self.steps(CursorMove::WordEnd, n).cursor,
            Motion::WordBack => self.steps(CursorMove::WordBack, n).cursor,
            Motion::ToLine => if n == 0 {
                self.cursor
            } else {
                self.jump(n - 1, 0).step(CursorMove::WordForward).cursor
            },
            Motion::LineStart => (row, 0),
            Motion::LineEnd => (row, self.line().len() as int),
            Motion::LineNonEmptyStart => (row, first_non_blank(self.line())),
            Motion::Top => jump_target(self.lines, 0, col),
            Motion::Bottom => jump_target(self.lines, self.last_row(), col),
        }
    }

    /// The buffer after motion `m` with count `n`: the cursor has moved,
    /// nothing else has changed.
    pub open spec fn moved(self, m: Motion, n: nat) -> Buffer {
        self.at(self.resolve(m, n))
    }
}

/// A start of a word found from `from` on lies from `from` on, on the line.
pub proof fn lemma_word_start_from_bounds(line: Seq<char>, from: int)
    ensures
        word_start_from(line, from) matches Some(c) ==> from <= c < line.len(),
    decreases line.len() - from,
{
    if 0 <= from < line.len() && !word_starts_at(line, from) {
        lemma_word_start_from_bounds(line, from + 1);
    }
}

/// An end of a word found from `from` on lies from `from` on, on the line.
pub proof fn lemma_word_end_from_bounds(line: Seq<char>, from: int)
    ensures
        word_end_from(line, from) matches Some(c) ==> from <= c < line.len(),
    decreases line.len() - from,
{
    if 0 <= from < line.len() && !word_ends_at(line, from) {
        lemma_word_end_from_bounds(line, from + 1);
    }
}

/// A start of a word found up to `upto` lies at most there, on the line.
pub proof fn lemma_word_start_upto_bounds(line: Seq<char>, upto: int)
    ensures
        word_start_upto(line, upto) matches Some(c) ==> 0 <= c <= upto && c < line.len(),
    decreases upto + 1,
{
    if upto >= 0 && !word_starts_at(line, upto) {
        lemma_word_start_upto_bounds(line, upto - 1);
    }
}

/// The end of a word found below a row of the text is a valid position.
pub proof fn lemma_word_end_below_valid(lines: Text, row: int)
    requires
        0 <= row < lines.len(),
    ensures
        pos_valid(lines, word_end_below(lines, row)),
    decreases lines.len() - row,
{
    if row < lines.len() - 1 {
        lemma_word_end_from_bounds(lines[row + 1], 0);
        if word_end_from(lines[row + 1], 0) is None {
            lemma_word_end_below_valid(lines, row + 1);
        }
    }
}

/// The first column without white space lies on the line.
pub proof fn lemma_non_blank_from_bounds(line: Seq<char>, from: int)
    ensures
        0 <= non_blank_from(line, from) <= line.len(),
        non_blank_from(line, from) < line.len() || line.len() == 0,
    decreases line.len() - from,
{
    if 0 <= from < line.len() && is_white_space(line[from]) {
        lemma_non_blank_from_bounds(line, from + 1);
    }
}

/// Behind white space only, the next word starts at the first character that
/// is no white space.
pub proof fn lemma_word_start_after_blanks(line: Seq<char>, from: int)
    requires
        1 <= from,
        forall|k: int| 0 <= k < from && k < line.len() ==> is_white_space(#[trigger] line[k]),
    ensures
        match word_start_from(line, from) {
            Some(c) => c == non_blank_from(line, from) && from <= c < line.len(),
            None => non_blank_from(line, from) == 0,
        },
    decreases line.len() - from,
{
    if from < line.len() {
        if is_white_space(line[from]) {
            lemma_word_start_after_blanks(line, from + 1);
        }
    }
}

/// A jump leads to a valid position.
pub proof fn lemma_jump_valid(lines: Text, row: int, col: int)
    requires
        lines.len() >= 1,
        0 <= row,
        0 <= col,
    ensures
        pos_valid(lines, jump_target(lines, row, col)),
{
}

/// Every step leads from a valid position to a valid position.
pub proof fn lemma_step_valid(m: CursorMove, lines: Text, at: Pos)
    requires
        pos_valid(lines, at),
    ensures
        pos_valid(lines, step_target(m, lines, at)),
{
    let (row, col) = at;
    lemma_word_start_from_bounds(lines[row], col + 1);
    lemma_word_end_from_bounds(lines[row], col + 1);
    lemma_word_start_upto_bounds(lines[row], col - 1);
    lemma_word_end_below_valid(lines, row);
}

/// Steps keep a buffer valid and change nothing but the cursor.
pub proof fn lemma_steps_wf(b: Buffer, m: CursorMove, n: nat)
    requires
        b.wf(),
    ensures
        b.steps(m, n).wf(),
        b.steps(m, n) == b.at(b.steps(m, n).cursor),
    decreases n,
{
    if n > 0 {
        lemma_steps_wf(b, m, (n - 1) as nat);
        let c = b.steps(m, (n - 1) as nat);
        lemma_step_valid(m, c.lines, c.cursor);
    }
}

/// Every motion, with every count, leads from a valid buffer to a valid
/// position of it: onto a line, and on that line at most one past its end.
pub proof fn law_motion_stays_on_text(b: Buffer, m: Motion, n: nat)
    requires
        b.wf(),
    ensures
        pos_valid(b.lines, b.resolve(m, n)),
        b.moved(m, n).wf(),
{
    match m {
        Motion::WordForward => lemma_steps_wf(b, CursorMove::WordForward, n),
        Motion::WordEnd => lemma_steps_wf(b, CursorMove::WordEnd, n),
        Motion::WordBack => lemma_steps_wf(b, CursorMove::WordBack, n),
        Motion::ToLine => {
            if n > 0 {
                let c = b.jump(n - 1, 0);
                lemma_step_valid(CursorMove::WordForward, c.lines, c.cursor);
            }
        },
        Motion::LineNonEmptyStart => lemma_non_blank_from_bounds(b.line(), 0),
        _ => {},
    }
}

/// A counted motion with count 0 leads nowhere: the cursor stays where it is.
pub proof fn law_count_zero_moves_nothing(b: Buffer, m: Motion)
    requires
        b.wf(),
        m.counted(),
    ensures
        b.resolve(m, 0) == b.cursor,
        b.moved(m, 0) == b,
{
}


/// Where `n` characters forward lead: along the line, at most to its end.
pub fn cursor_move_forward(editor: &Area, n: usize) -> (target: (usize, usize))
    requires
        editor@.wf(),
    ensures
        pos_of(target) == editor@.resolve(Motion::Forward, n as nat),
{
    let (row, col) = cursor(editor);
    let len = editor.line_len(row);
    if n >= len - col {
        (row, len)
    } else {
        (row, col + n)
    }
}

/// Where `n` characters back lead: along the line, at most to its head.
pub fn cursor_move_back(editor: &Area, n: usize) -> (target: (usize, usize))
    requires
        editor@.wf(),
    ensures
        pos_of(target) == editor@.resolve(Motion::Back, n as nat),
{
    let (row, col) = cursor(editor);
    if col < n {
        (row, 0)
    } else {
        (row, col - n)
    }
}

/// Where `n` lines down lead: at most to the last line, in the same column
/// as far as that line reaches.
pub fn cursor_move_down(editor: &Area, n: usize) -> (target: (usize, usize))
    requires
        editor@.wf(),
    ensures
        pos_of(target) == editor@.resolve(Motion::Down, n as nat),
{
    let (row, col) = cursor(editor);
    let count = editor.line_count();
    let target_row = if n >= count - row {
        count - 1
    } else {
        row + n
    };
    let len = editor.line_len(target_row);
    if col < len {
        (target_row, col)
    } else {
        (target_row, len)
    }
}

/// Where `n` lines up lead: at most to the first line, in the same column as
/// far as that line reaches.
pub fn cursor_move_up(editor: &Area, n: usize) -> (target: (usize, usize))
    requires
        editor@.wf(),
    ensures
        pos_of(target) == editor@.resolve(Motion::Up, n as nat),
{
    let (row, col) = cursor(editor);
    let target_row = if row < n {
        0
    } else {
        row - n
    };
    let len = editor.line_len(target_row);
    if col < len {
        (target_row, col)
    } else {
        (target_row, len)
    }
}

/// Puts the cursor at `row` and `col`, as far as the text reaches: on the
/// last line if `row` is beyond it, at the end of the line if `col` is.
///
/// The text area jumps by 16-bit numbers. A place beyond them is reached on
/// foot: down from the first line, then along the line.
pub fn jump_to(editor: &mut Area, row: usize, col: usize)
    requires
        old(editor)@.wf(),
    ensures
        final(editor)@ == old(editor)@.jump(row as int, col as int),
        final(editor)@.wf(),
{
    if row <= 0xffff && col <= 0xffff {
        move_cursor(editor, CursorMove::Jump(row as u16, col as u16));
    } else {
        let count = editor.line_count();
        let target_row = if row < count {
            row
        } else {
            count - 1
        };
        move_cursor(editor, CursorMove::Jump(0, 0));
        let mut r: usize = 0;
        while r < target_row
            invariant
                r <= target_row < count,
                count == old(editor)@.lines.len(),
                old(editor)@.wf(),
                editor@ == old(editor)@.at((r as int, 0int)),
            decreases target_row - r,
        {
            move_cursor(editor, CursorMove::Down);
            r += 1;
        }
        let len = editor.line_len(target_row);
        if col >= len {
            move_cursor(editor, CursorMove::End);
        } else {
            let mut c: usize = 0;
            while c < col
                invariant
                    c <= col < len,
                    target_row < count,
                    count == old(editor)@.lines.len(),
                    len == old(editor)@.lines[target_row as int].len(),
                    old(editor)@.wf(),
                    editor@ == old(editor)@.at((target_row as int, c as int)),
                decreases col - c,
            {
                move_cursor(editor, CursorMove::Forward);
                c += 1;
            }
        }
    }
}

/// Once a step leads nowhere, no number of further steps leads anywhere.
pub proof fn lemma_steps_rest(b: Buffer, m: CursorMove, i: nat, n: nat)
    requires
        i <= n,
        b.steps(m, i).step(m) == b.steps(m, i),
    ensures
        b.steps(m, n) == b.steps(m, i),
    decreases n - i,
{
    if i < n {
        lemma_steps_rest(b, m, i, (n - 1) as nat);
    }
}

/// Takes the step `m` with the cursor `n` times, each from where the one
/// before it led. Stops as soon as a step leads nowhere, since none after
/// it would lead anywhere.
pub fn move_cursor_times(editor: &mut Area, m: CursorMove, n: usize)
    requires
        old(editor)@.wf(),
    ensures
        final(editor)@ == old(editor)@.steps(m, n as nat),
        final(editor)@.wf(),
{
    let mut i: usize = 0;
    let mut moving = true;
    proof {
        lemma_steps_wf(old(editor)@, m, 0);
    }
    while i < n && moving
        invariant
            i <= n,
            old(editor)@.wf(),
            editor@.wf(),
            editor@ == old(editor)@.steps(m, i as nat),
            !moving ==> editor@.step(m) == editor@,
        decreases n - i,
    {
        let before = cursor(editor);
        proof {
            lemma_steps_wf(old(editor)@, m, (i + 1) as nat);
        }
        move_cursor(editor, m);
        let after = cursor(editor);
        moving = before.0 != after.0 || before.1 != after.1;
        i += 1;
    }
    proof {
        if i < n {
            lemma_steps_rest(old(editor)@, m, i as nat, n as nat);
        }
    }
}

/// Moves `n` times to the next end of a word.
pub fn move_cursor_word_end(editor: &mut Area, n: usize)
    requires
        old(editor)@.wf(),
    ensures
        final(editor)@ == old(editor)@.moved(Motion::WordEnd, n as nat),
        final(editor)@.wf(),
{
    proof {
        lemma_steps_wf(old(editor)@, CursorMove::WordEnd, n as nat);
    }
    move_cursor_times(editor, CursorMove::WordEnd, n);
}

/// Moves `n` times to the start of a word before the cursor.
pub fn move_cursor_word_back(editor: &mut Area, n: usize)
    requires
        old(editor)@.wf(),
    ensures
        final(editor)@ == old(editor)@.moved(Motion::WordBack, n as nat),
        final(editor)@.wf(),
{
    proof {
        lemma_steps_wf(old(editor)@, CursorMove::WordBack, n as nat);
    }
    move_cursor_times(editor, CursorMove::WordBack, n);
}

/// Moves `n` times to the start of the next word.
pub fn move_cursor_word_forward(editor: &mut Area, n: usize)
    requires
        old(editor)@.wf(),
    ensures
        final(editor)@ == old(editor)@.moved(Motion::WordForward, n as nat),
        final(editor)@.wf(),
{
    proof {
        lemma_steps_wf(old(editor)@, CursorMove::WordForward, n as nat);
    }
    move_cursor_times(editor, CursorMove::WordForward, n);
}

/// Puts the cursor on the first character of its line that is no white
/// space; at the head of a line that holds white space only.
pub fn move_cursor_to_line_non_empty_start(editor: &mut Area)
    requires
        old(editor)@.wf(),
    ensures
        final(editor)@ == old(editor)@.moved(Motion::LineNonEmptyStart, 0),
        final(editor)@.wf(),
{
    move_cursor(editor, CursorMove::Head);
    let (row, _) = cursor(editor);
    let text = match editor.line(row) {
        Some(text) => text,
        None => {
            return ;
        },
    };
    let len = text.as_str().unicode_len();
    proof {
        lemma_non_blank_from_bounds(text@, 0);
    }
    if len > 0 && text.as_str().get_char(0).is_whitespace() {
        proof {
            lemma_word_start_after_blanks(text@, 1);
        }
        move_cursor(editor, CursorMove::WordForward);
        let (reached_row, reached_col) = cursor(editor);
        if reached_row != row || reached_col >= len {
            jump_to(editor, row, 0);
        }
    }
}

/// Puts the cursor on line `n`, counted from 1 and at most the last, and
/// from the head of that line takes one step to the start of the next word.
/// With `n` zero nothing moves.
pub fn move_cursor_to_line(editor: &mut Area, n: usize)
    requires
        old(editor)@.wf(),
    ensures
        final(editor)@ == old(editor)@.moved(Motion::ToLine, n as nat),
        final(editor)@.wf(),
{
    proof {
        law_motion_stays_on_text(old(editor)@, Motion::ToLine, n as nat);
    }
    if n > 0 {
        jump_to(editor, n - 1, 0);
        move_cursor(editor, CursorMove::WordForward);
    }
}

/// Moves the cursor by motion `m` with count `n`. Nothing but the cursor
/// changes, and it stays on the text.
pub fn move_cursor_by(editor: &mut Area, m: Motion, n: usize)
    requires
        old(editor)@.wf(),
    ensures
        final(editor)@ == old(editor)@.moved(m, n as nat),
        final(editor)@.wf(),
{
    proof {
        law_motion_stays_on_text(old(editor)@, m, n as nat);
    }
    match m {
        Motion::Forward => {
            let target = cursor_move_forward(editor, n);
            jump_to(editor, target.0, target.1);
        },
        Motion::Back => {
            let target = cursor_move_back(editor, n);
            jump_to(editor, target.0, target.1);
        },
        Motion::Down => {
            let target = cursor_move_down(editor, n);
            jump_to(editor, target.0, target.1);
        },
        Motion::Up => {
            let target = cursor_move_up(editor, n);
            jump_to(editor, target.0, target.1);
        },
        Motion::WordForward => move_cursor_word_forward(editor, n),
        Motion::WordEnd => move_cursor_word_end(editor, n),
        Motion::WordBack => move_cursor_word_back(editor, n),
        Motion::ToLine => move_cursor_to_line(editor, n),
        Motion::LineStart => move_cursor(editor, CursorMove::Head),
        Motion::LineEnd => move_cursor(editor, CursorMove::End),
        Motion::LineNonEmptyStart => move_cursor_to_line_non_empty_start(editor),
        Motion::Top => move_cursor(editor, CursorMove::Top),
        Motion::Bottom => move_cursor(editor, CursorMove::Bottom),
    }
}

} // verus!
