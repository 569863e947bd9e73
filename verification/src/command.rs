//! The editing commands: what each does to the buffer, stated over the
//! buffer model, and the functions that carry them out on the text area.

use crate::buffer::{pos_before, Buffer};
use crate::motion::{
    cursor_move_down, cursor_move_forward, jump_to, move_cursor_to_line_non_empty_start,
    move_cursor_word_back, move_cursor_word_end, Motion,
};
use crate::step::CursorMove;
use crate::text::pieces;
use crate::textarea::Area;
use vstd::prelude::*;

verus! {

/// The count that a command works with: a count of 0 stands for 1.
pub open spec fn at_least_one(n: nat) -> nat {
    if n == 0 {
        1
    } else {
        n
    }
}

impl Buffer {
    /// The buffer with `n` whole lines selected, from the line of the cursor
    /// down, the last line at most.
    pub open spec fn select_lines(self, n: nat) -> Buffer {
        self.step(CursorMove::Head).start_selection().moved(
            Motion::Down,
            (at_least_one(n) - 1) as nat,
        ).step(CursorMove::End)
    }

    /// The selected lines become the yanked text, and the selection is given
    /// up. Where nothing is selected, the lines are one empty line, and the
    /// yanked text becomes one empty piece.
    pub open spec fn copy_lines(self) -> Buffer {
        if self.selection() is None {
            self.cancel_selection().yanked(seq![Seq::<char>::empty()])
        } else {
            self.copy()
        }
    }

    /// The selected lines are cut out and become the yanked text. Where
    /// nothing is selected, the lines are one empty line, and the yanked
    /// text becomes one empty piece.
    pub open spec fn cut_lines(self) -> Buffer {
        if self.selection() is None {
            self.cancel_selection().yanked(seq![Seq::<char>::empty()])
        } else {
            self.cut()
        }
    }

    /// `n` lines from the cursor's line down are yanked; the cursor stays.
    pub open spec fn yank_lines(self, n: nat) -> Buffer {
        self.select_lines(n).copy_lines().jump(self.row(), self.col())
    }

    /// `n` lines from the cursor's line down are cut out with their line
    /// breaks; the cursor goes to the first character that is no white
    /// space of the line that takes their place.
    pub open spec fn delete_lines(self, n: nat) -> Buffer {
        let emptied = self.select_lines(n).cut_lines();
        let joined = if self.row() == 0 {
            emptied.step(CursorMove::Down).step(CursorMove::Head).delete_char()
        } else {
            emptied.delete_char().step(CursorMove::Down)
        };
        joined.moved(Motion::LineNonEmptyStart, 0)
    }

    /// The text of `n` lines from the cursor's line down is cut out; one
    /// empty line stays in their place, with the cursor on it.
    pub open spec fn delete_lines_and_insert(self, n: nat) -> Buffer {
        self.select_lines(n).cut_lines()
    }

    /// `n` characters from the cursor on are cut out, at most to the end of
    /// the line.
    pub open spec fn delete_chars(self, n: nat) -> Buffer {
        self.start_selection().moved(Motion::Forward, at_least_one(n)).cut()
    }

    /// The word under the cursor is cut out, and with it the text up to the
    /// end of the `n`th word from there.
    pub open spec fn delete_inside_word(self, n: nat) -> Buffer {
        let probe = self.step(CursorMove::WordBack).step(CursorMove::WordEnd).cursor;
        let from = if pos_before(probe, self.cursor) {
            self
        } else {
            self.step(CursorMove::WordBack)
        };
        from.start_selection().moved(Motion::WordEnd, at_least_one(n)).step(
            CursorMove::Forward,
        ).cut()
    }

    /// The text from the cursor through the `n`th end of a word is cut out.
    pub open spec fn delete_word_end(self, n: nat) -> Buffer {
        self.start_selection().moved(Motion::WordEnd, at_least_one(n)).step(
            CursorMove::Forward,
        ).cut()
    }

    /// The text from the `n`th start of a word before the cursor up to the
    /// cursor is cut out.
    pub open spec fn delete_word_back(self, n: nat) -> Buffer {
        self.start_selection().moved(Motion::WordBack, at_least_one(n)).cut()
    }

    /// The text from the head of the line up to the cursor is cut out.
    pub open spec fn delete_line_start(self) -> Buffer {
        self.start_selection().step(CursorMove::Head).cut()
    }

    /// The text from the cursor to the end of the line is cut out; with `n`
    /// above 1, to the end of the line `n - 1` lines further down.
    pub open spec fn delete_line_end(self, n: nat) -> Buffer {
        self.start_selection().moved(Motion::Down, (at_least_one(n) - 1) as nat).step(
            CursorMove::End,
        ).cut()
    }

    /// A new empty line below the cursor's line, with the cursor on it.
    pub open spec fn open_line_below(self) -> Buffer {
        self.step(CursorMove::End).insert_newline()
    }

    /// A new empty line above the cursor's line, with the cursor on it.
    pub open spec fn open_line_above(self) -> Buffer {
        self.step(CursorMove::Head).insert_newline().step(CursorMove::Up)
    }

    /// The yanked text as new lines below the cursor's line; the cursor goes
    /// to the first character that is no white space of the last of them.
    pub open spec fn paste_lines(self) -> Buffer {
        self.open_line_below().paste().moved(Motion::LineNonEmptyStart, 0)
    }

    /// The selection made anew from its earlier end to its later end, with
    /// the cursor one step past the later end, so that the character there
    /// belongs to it. Without a selection nothing changes.
    pub open spec fn reselect_for_yank(self) -> Buffer {
        match self.selection_range() {
            None => self,
            Some((begin, end)) => self.cancel_selection().jump(begin.0, begin.1).start_selection().jump(
                end.0,
                end.1,
            ).step(CursorMove::Forward),
        }
    }
}

fn count_of(n: usize) -> (count: usize)
    ensures
        count == at_least_one(n as nat),
{
    if n == 0 {
        1
    } else {
        n
    }
}

fn select_lines(editor: &mut Area, n: usize)
    requires
        old(editor)@.wf(),
    ensures
        final(editor)@ == old(editor)@.select_lines(n as nat),
        final(editor)@.wf(),
{
    editor.move_cursor(CursorMove::Head);
    editor.start_selection();
    let target = cursor_move_down(editor, count_of(n) - 1);
    jump_to(editor, target.0, target.1);
    editor.move_cursor(CursorMove::End);
}

/// Gives the selection up and makes one empty piece the yanked text.
fn yank_empty_line(editor: &mut Area)
    requires
        old(editor)@.wf(),
    ensures
        final(editor)@ == old(editor)@.cancel_selection().yanked(seq![Seq::<char>::empty()]),
        final(editor)@.wf(),
{
    editor.cancel_selection();
    proof {
        reveal_strlit("");
        assert(""@ =~= Seq::<char>::empty());
        assert(pieces(""@) =~= seq![Seq::<char>::empty()]);
    }
    editor.set_yank_text("");
}

/// Makes the selected lines the yanked text; one empty line, where nothing
/// is selected.
fn copy_lines(editor: &mut Area)
    requires
        old(editor)@.wf(),
    ensures
        final(editor)@ == old(editor)@.copy_lines(),
        final(editor)@.wf(),
{
    if editor.nothing_selected() {
        yank_empty_line(editor);
    } else {
        editor.copy();
    }
}

/// Cuts the selected lines out and makes them the yanked text; one empty
/// line, where nothing is selected.
fn cut_lines(editor: &mut Area)
    requires
        old(editor)@.wf(),
    ensures
        final(editor)@ == old(editor)@.cut_lines(),
        final(editor)@.wf(),
{
    if editor.nothing_selected() {
        yank_empty_line(editor);
    } else {
        editor.cut();
    }
}

/// Yanks `n` lines from the cursor's line down, a count of 0 standing for 1,
/// and leaves text, cursor and history as they are.
pub fn yank_lines(editor: &mut Area, n: usize)
    requires
        old(editor)@.wf(),
    ensures
        final(editor)@ == old(editor)@.yank_lines(n as nat),
        final(editor)@.wf(),
{
    let at = editor.cursor();
    select_lines(editor, n);
    copy_lines(editor);
    jump_to(editor, at.0, at.1);
}

/// Cuts `n` lines out, from the cursor's line down, a count of 0 standing
/// for 1.
pub fn delete_lines(editor: &mut Area, n: usize)
    requires
        old(editor)@.wf(),
    ensures
        final(editor)@ == old(editor)@.delete_lines(n as nat),
        final(editor)@.wf(),
{
    let (row, _) = editor.cursor();
    select_lines(editor, n);
    cut_lines(editor);
    if row == 0 {
        editor.move_cursor(CursorMove::Down);
        editor.move_cursor(CursorMove::Head);
        editor.delete_char();
    } else {
        editor.delete_char();
        editor.move_cursor(CursorMove::Down);
    }
    move_cursor_to_line_non_empty_start(editor);
}

/// Cuts the text of `n` lines out, from the cursor's line down, and leaves
/// one empty line to write on.
pub fn delete_lines_and_insert(editor: &mut Area, n: usize)
    requires
        old(editor)@.wf(),
    ensures
        final(editor)@ == old(editor)@.delete_lines_and_insert(n as nat),
        final(editor)@.wf(),
{
    select_lines(editor, n);
    cut_lines(editor);
}

/// Cuts `n` characters out, from the cursor on, a count of 0 standing for 1.
pub fn delete_chars(editor: &mut Area, n: usize)
    requires
        old(editor)@.wf(),
    ensures
        final(editor)@ == old(editor)@.delete_chars(n as nat),
        final(editor)@.wf(),
{
    editor.start_selection();
    let target = cursor_move_forward(editor, count_of(n));
    jump_to(editor, target.0, target.1);
    editor.cut();
}

/// Cuts the word under the cursor out, through the end of the `n`th word.
pub fn delete_inside_word(editor: &mut Area, n: usize)
    requires
        old(editor)@.wf(),
    ensures
        final(editor)@ == old(editor)@.delete_inside_word(n as nat),
        final(editor)@.wf(),
{
    let at = editor.cursor();
    editor.move_cursor(CursorMove::WordBack);
    editor.move_cursor(CursorMove::WordEnd);
    let probe = editor.cursor();
    jump_to(editor, at.0, at.1);
    if !(probe.0 < at.0 || (probe.0 == at.0 && probe.1 < at.1)) {
        editor.move_cursor(CursorMove::WordBack);
    }
    editor.start_selection();
    move_cursor_word_end(editor, count_of(n));
    editor.move_cursor(CursorMove::Forward);
    editor.cut();
}

/// Cuts the text out from the cursor through the `n`th end of a word.
pub fn delete_word_end(editor: &mut Area, n: usize)
    requires
        old(editor)@.wf(),
    ensures
        final(editor)@ == old(editor)@.delete_word_end(n as nat),
        final(editor)@.wf(),
{
    editor.start_selection();
    move_cursor_word_end(editor, count_of(n));
    editor.move_cursor(CursorMove::Forward);
    editor.cut();
}

/// Cuts the text out from the `n`th start of a word before the cursor up to
/// the cursor.
pub fn delete_word_back(editor: &mut Area, n: usize)
    requires
        old(editor)@.wf(),
    ensures
        final(editor)@ == old(editor)@.delete_word_back(n as nat),
        final(editor)@.wf(),
{
    editor.start_selection();
    move_cursor_word_back(editor, count_of(n));
    editor.cut();
}

/// Cuts the text out from the head of the line up to the cursor.
pub fn delete_line_start(editor: &mut Area)
    requires
        old(editor)@.wf(),
    ensures
        final(editor)@ == old(editor)@.delete_line_start(),
        final(editor)@.wf(),
{
    editor.start_selection();
    editor.move_cursor(CursorMove::Head);
    editor.cut();
}

/// Cuts the text out from the cursor to the end of the line, or of the line
/// `n - 1` lines further down.
pub fn delete_line_end(editor: &mut Area, n: usize)
    requires
        old(editor)@.wf(),
    ensures
        final(editor)@ == old(editor)@.delete_line_end(n as nat),
        final(editor)@.wf(),
{
    editor.start_selection();
    let target = cursor_move_down(editor, count_of(n) - 1);
    jump_to(editor, target.0, target.1);
    editor.move_cursor(CursorMove::End);
    editor.cut();
}

/// Opens an empty line below the cursor's line and puts the cursor on it.
pub fn open_line_below(editor: &mut Area)
    requires
        old(editor)@.wf(),
    ensures
        final(editor)@ == old(editor)@.open_line_below(),
        final(editor)@.wf(),
{
    editor.move_cursor(CursorMove::End);
    editor.insert_newline();
}

/// Opens an empty line above the cursor's line and puts the cursor on it.
pub fn open_line_above(editor: &mut Area)
    requires
        old(editor)@.wf(),
    ensures
        final(editor)@ == old(editor)@.open_line_above(),
        final(editor)@.wf(),
{
    editor.move_cursor(CursorMove::Head);
    editor.insert_newline();
    editor.move_cursor(CursorMove::Up);
}

/// Pastes the yanked text as new lines below the cursor's line.
pub fn paste_lines(editor: &mut Area)
    requires
        old(editor)@.wf(),
    ensures
        final(editor)@ == old(editor)@.paste_lines(),
        final(editor)@.wf(),
{
    open_line_below(editor);
    editor.paste();
    move_cursor_to_line_non_empty_start(editor);
}

/// Makes the selection anew so that yanking or cutting it takes the
/// character under its later end too. Without a selection nothing changes.
pub fn reselect_for_yank(editor: &mut Area)
    requires
        old(editor)@.wf(),
    ensures
        final(editor)@ == old(editor)@.reselect_for_yank(),
        final(editor)@.wf(),
{
    match editor.selection_range() {
        None => {},
        Some((begin, end)) => {
            editor.cancel_selection();
            jump_to(editor, begin.0, begin.1);
            editor.start_selection();
            jump_to(editor, end.0, end.1);
            editor.move_cursor(CursorMove::Forward);
        },
    }
}

} // verus!
