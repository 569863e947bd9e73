//! The text area of `tui_textarea`: the buffer that the editing engine works
//! on. Its operations are stated here over the buffer model and are taken
//! on trust; everything built on them is proved.

use crate::buffer::{text_clean, Buffer, Edit};
use crate::step::{step_target, CursorMove};
use crate::text::{content_lines, joined, pieces, pos_of, text_of};
use tui_textarea::TextArea;
use vstd::prelude::*;

verus! {

/// A text area of `tui_textarea`, kept whole. What it holds is known only
/// through the functions below.
#[verifier::external_body]
pub struct Area {
    inner: TextArea<'static>,
}

/// The lines that a text area holds, each as its characters.
pub uninterp spec fn text_lines(area: Area) -> Seq<Seq<char>>;

/// The cursor of a text area: row, and column counted in characters.
pub uninterp spec fn text_cursor(area: Area) -> (int, int);

/// Where the selection of a text area began, while one is being made.
pub uninterp spec fn text_anchor(area: Area) -> Option<(int, int)>;

/// The text that a text area has yanked: one element for a piece of a line,
/// more for a run of lines.
pub uninterp spec fn text_yank(area: Area) -> Seq<Seq<char>>;

/// The changes that the history of a text area holds, oldest first.
pub uninterp spec fn text_edits(area: Area) -> Seq<Edit>;

/// How many of those changes are in effect.
pub uninterp spec fn text_applied(area: Area) -> int;

/// How many changes the history of a text area keeps at most.
pub uninterp spec fn text_limit(area: Area) -> int;

impl View for Area {
    type V = Buffer;

    open spec fn view(&self) -> Buffer {
        Buffer {
            lines: text_lines(*self),
            cursor: text_cursor(*self),
            anchor: text_anchor(*self),
            yank: text_yank(*self),
            edits: text_edits(*self),
            applied: text_applied(*self),
            limit: text_limit(*self),
        }
    }
}

/// `str::lines`: the lines of a text, without their line endings.
#[verifier::external_body]
pub(crate) fn split_lines(content: &str) -> (lines: Vec<String>)
    ensures
        text_of(lines@) == content_lines(content@),
{
    content.lines().map(String::from).collect()
}

/// `TextArea::new`: a text area over the given lines, or over one empty line
/// if there is none, with the cursor at the start, no selection, an empty
/// piece as yanked text, and an empty history that keeps 50 changes.
#[verifier::external_body]
pub(crate) fn new_area(lines: Vec<String>) -> (area: Area)
    requires
        text_clean(text_of(lines@)),
    ensures
        text_lines(area) == Buffer::fresh(text_of(lines@)).lines,
        text_cursor(area) == (0int, 0int),
        text_anchor(area) is None,
        text_yank(area) == seq![Seq::<char>::empty()],
        text_edits(area) == Seq::<Edit>::empty(),
        text_applied(area) == 0,
        text_limit(area) == 50,
{
    Area { inner: TextArea::new(lines) }
}

/// `TextArea::lines`: a copy of the lines that the text area holds, in
/// order.
#[verifier::external_body]
pub(crate) fn lines(area: &Area) -> (lines: Vec<String>)
    ensures
        text_of(lines@) == text_lines(*area),
{
    area.inner.lines().to_vec()
}

/// `TextArea::cursor`: the cursor's row and column.
#[verifier::external_body]
pub(crate) fn cursor(area: &Area) -> (at: (usize, usize))
    ensures
        pos_of(at) == text_cursor(*area),
{
    area.inner.cursor()
}

/// `TextArea::selection_range`: while a selection is being made, its two
/// ends, the earlier first.
#[verifier::external_body]
pub(crate) fn selection_range(area: &Area) -> (range: Option<((usize, usize), (usize, usize))>)
    ensures
        range is Some == text_anchor(*area) is Some,
        range matches Some((start, end)) ==> area@.selection_range() == Some(
            (pos_of(start), pos_of(end)),
        ),
{
    area.inner.selection_range()
}

/// `TextArea::yank_text`: the yanked text as one string, its lines joined by
/// line feeds.
#[verifier::external_body]
pub(crate) fn yank_text(area: &Area) -> (text: String)
    ensures
        text@ == joined(text_yank(*area)),
{
    area.inner.yank_text()
}

/// `TextArea::set_yank_text`: the yanked text becomes the pieces that the
/// line feeds part `text` into, each without a carriage return at its end.
/// Nothing else changes.
#[verifier::external_body]
pub(crate) fn set_yank_text(area: &mut Area, text: &str)
    ensures
        final(area)@ == old(area)@.yanked(pieces(text@)),
{
    area.inner.set_yank_text(text)
}

/// `TextArea::move_cursor`: the cursor takes the step `m`, to where
/// `step_target` says; a step that cannot be taken leaves it where it is.
/// Nothing else changes, and a selection that is being made goes on.
#[verifier::external_body]
pub(crate) fn move_cursor(area: &mut Area, m: CursorMove)
    requires
        old(area)@.wf(),
    ensures
        final(area)@ == old(area)@.at(step_target(m, old(area)@.lines, old(area)@.cursor)),
{
    area.inner.move_cursor(
        match m {
            CursorMove::Forward => tui_textarea::CursorMove::Forward,
            CursorMove::Up => tui_textarea::CursorMove::Up,
            CursorMove::Down => tui_textarea::CursorMove::Down,
            CursorMove::Head => tui_textarea::CursorMove::Head,
            CursorMove::End => tui_textarea::CursorMove::End,
            CursorMove::Top => tui_textarea::CursorMove::Top,
            CursorMove::Bottom => tui_textarea::CursorMove::Bottom,
            CursorMove::WordForward => tui_textarea::CursorMove::WordForward,
            CursorMove::WordEnd => tui_textarea::CursorMove::WordEnd,
            CursorMove::WordBack => tui_textarea::CursorMove::WordBack,
            CursorMove::Jump(row, col) => tui_textarea::CursorMove::Jump(row, col),
        },
    )
}

/// `TextArea::start_selection`: a selection begins at the cursor.
#[verifier::external_body]
pub(crate) fn start_selection(area: &mut Area)
    ensures
        final(area)@ == old(area)@.start_selection(),
{
    area.inner.start_selection()
}

/// `TextArea::cancel_selection`: the selection is given up.
#[verifier::external_body]
pub(crate) fn cancel_selection(area: &mut Area)
    ensures
        final(area)@ == old(area)@.cancel_selection(),
{
    area.inner.cancel_selection()
}

/// `TextArea::copy`: the selected text becomes the yanked text, and the
/// selection is given up. Text, cursor and history stay. With nothing
/// selected the yanked text stays too.
#[verifier::external_body]
pub(crate) fn copy(area: &mut Area)
    requires
        old(area)@.wf(),
    ensures
        final(area)@ == old(area)@.copy(),
{
    area.inner.copy()
}

/// `TextArea::cut`: the selected text is taken out and becomes the yanked
/// text; the cursor goes to where it began, and the history records the
/// change, to be undone with the cursor at the end of what was cut. With
/// nothing selected only the selection is given up.
#[verifier::external_body]
pub(crate) fn cut(area: &mut Area)
    requires
        old(area)@.wf(),
    ensures
        final(area)@ == old(area)@.cut(),
{
    area.inner.cut();
}

/// `TextArea::insert_char`: selected text is deleted, then the character
/// goes in at the cursor; a line feed or a carriage return splits the line
/// instead. The history records the deletion and the insertion, each as a
/// change of its own.
#[verifier::external_body]
pub(crate) fn insert_char(area: &mut Area, c: char)
    requires
        old(area)@.wf(),
    ensures
        final(area)@ == old(area)@.insert_char(c),
{
    area.inner.insert_char(c)
}

/// `TextArea::insert_newline`: selected text is deleted, then the line is
/// split at the cursor, which goes to the head of the new line. The history
/// records the deletion and the split, each as a change of its own.
#[verifier::external_body]
pub(crate) fn insert_newline(area: &mut Area)
    requires
        old(area)@.wf(),
    ensures
        final(area)@ == old(area)@.insert_newline(),
{
    area.inner.insert_newline()
}

/// `TextArea::delete_char`: selected text is deleted; without any, the
/// character before the cursor, or at the head of a line the line break
/// before it, and at the head of the text nothing. The history records
/// what was deleted.
#[verifier::external_body]
pub(crate) fn delete_char(area: &mut Area)
    requires
        old(area)@.wf(),
    ensures
        final(area)@ == old(area)@.delete_char(),
{
    area.inner.delete_char();
}

/// `TextArea::paste`: selected text is deleted, then the yanked text is put
/// in at the cursor, which goes to its end; an empty piece puts nothing in.
/// The history records the deletion and the insertion, each as a change of
/// its own.
#[verifier::external_body]
pub(crate) fn paste(area: &mut Area)
    requires
        old(area)@.wf(),
    ensures
        final(area)@ == old(area)@.insert_yanked(),
{
    area.inner.paste();
}

/// `TextArea::undo`: the last change in effect is taken back: the text and
/// the cursor become what they were before it, and the selection is given
/// up. With no change in effect nothing happens.
#[verifier::external_body]
pub(crate) fn undo(area: &mut Area)
    requires
        old(area)@.wf(),
    ensures
        final(area)@ == old(area)@.undo(),
{
    area.inner.undo();
}

/// `TextArea::redo`: the change taken back last is made again: the text and
/// the cursor become what they were after it, and the selection is given
/// up. With no change taken back nothing happens.
#[verifier::external_body]
pub(crate) fn redo(area: &mut Area)
    requires
        old(area)@.wf(),
    ensures
        final(area)@ == old(area)@.redo(),
{
    area.inner.redo();
}

} // verus!
