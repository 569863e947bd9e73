//! The mathematical model of a text buffer: lines of characters, a cursor, an
//! optional selection anchor, the yanked text, and a bounded linear history.
//!
//! Everything here is specification. The executable buffer is the text area
//! of `tui_textarea`; its operations are stated over this model.

use vstd::prelude::*;

verus! {

/// A position in a buffer: row, then column counted in characters.
pub type Pos = (int, int);

/// The text of a buffer, or a piece cut out of one: one sequence per line.
pub type Text = Seq<Seq<char>>;

/// `a` comes strictly before `b` in reading order.
pub open spec fn pos_before(a: Pos, b: Pos) -> bool {
    a.0 < b.0 || (a.0 == b.0 && a.1 < b.1)
}

/// `p` is a place where a cursor may stand: on a line, at most one past its
/// last character.
pub open spec fn pos_valid(lines: Text, p: Pos) -> bool {
    0 <= p.0 < lines.len() && 0 <= p.1 <= lines[p.0].len()
}

/// The smaller of two numbers.
pub open spec fn min(a: int, b: int) -> int {
    if a <= b {
        a
    } else {
        b
    }
}

/// The text from `start` up to, not including, `end`. One element when both
/// are on one line; else the rest of the first line, the lines between, and
/// the head of the last line.
pub open spec fn text_between(lines: Text, start: Pos, end: Pos) -> Text {
    if start.0 == end.0 {
        seq![lines[start.0].subrange(start.1, end.1)]
    } else {
        seq![lines[start.0].skip(start.1)] + lines.subrange(start.0 + 1, end.0) + seq![
            lines[end.0].take(end.1),
        ]
    }
}

/// The lines with the text from `start` up to `end` taken out: what is left
/// of the first and of the last line is joined into one.
pub open spec fn without_range(lines: Text, start: Pos, end: Pos) -> Text {
    lines.take(start.0) + seq![lines[start.0].take(start.1) + lines[end.0].skip(end.1)]
        + lines.skip(end.0 + 1)
}

/// The lines with `text` put in at `at`. A text of one element goes into the
/// line; a longer one splits the line at `at` and puts its own lines between.
pub open spec fn with_text(lines: Text, at: Pos, text: Text) -> Text {
    let head = lines[at.0].take(at.1);
    let tail = lines[at.0].skip(at.1);
    if text.len() == 1 {
        lines.take(at.0) + seq![head + text[0] + tail] + lines.skip(at.0 + 1)
    } else {
        lines.take(at.0) + seq![head + text[0]] + text.subrange(1, text.len() - 1) + seq![
            text.last() + tail,
        ] + lines.skip(at.0 + 1)
    }
}

/// Where the cursor stands after `text` was put in at `at`.
pub open spec fn after_text(at: Pos, text: Text) -> Pos {
    if text.len() == 1 {
        (at.0, at.1 + text[0].len())
    } else {
        (at.0 + text.len() - 1, text.last().len() as int)
    }
}

/// No line of `text` holds a line feed.
pub open spec fn text_clean(text: Text) -> bool {
    forall|i: int, j: int|
        0 <= i < text.len() && 0 <= j < text[i].len() ==> (#[trigger] text[i][j]) != '\n'
}

/// One recorded change: the lines and the cursor to go back to, and the
/// lines and the cursor to go forward to.
pub struct Edit {
    pub lines_before: Text,
    pub cursor_before: Pos,
    pub lines_after: Text,
    pub cursor_after: Pos,
}

impl Edit {
    /// Both ends of the change are texts that a buffer can hold, each with
    /// its cursor on it.
    pub open spec fn wf(self) -> bool {
        &&& pos_valid(self.lines_before, self.cursor_before)
        &&& text_clean(self.lines_before)
        &&& pos_valid(self.lines_after, self.cursor_after)
        &&& text_clean(self.lines_after)
    }
}

/// The model of a text buffer.
pub struct Buffer {
    /// The lines, never none.
    pub lines: Text,
    pub cursor: Pos,
    /// The fixed end of a selection, while one is being made.
    pub anchor: Option<Pos>,
    /// The text last cut or copied: one element for a piece of a line, more
    /// for a run of lines.
    pub yank: Text,
    /// The recorded changes, oldest first.
    pub edits: Seq<Edit>,
    /// How many of `edits` are in effect: those before this index can be
    /// undone, those from it on can be redone.
    pub applied: int,
    /// The most changes that are kept.
    pub limit: int,
}

impl Buffer {
    /// The validity of a buffer: at least one line, the cursor and the anchor
    /// on the text, a yanked text of at least one element, no line feed
    /// inside a line, and a history within its limit, of valid changes, with
    /// its index inside it.
    pub open spec fn wf(self) -> bool {
        &&& pos_valid(self.lines, self.cursor)
        &&& text_clean(self.lines)
        &&& (self.anchor matches Some(a) ==> pos_valid(self.lines, a))
        &&& self.yank.len() >= 1
        &&& text_clean(self.yank)
        &&& 0 <= self.applied <= self.edits.len() <= self.limit
        &&& forall|i: int| 0 <= i < self.edits.len() ==> (#[trigger] self.edits[i]).wf()
    }

    /// A fresh buffer over `lines`, or over one empty line if there is none.
    pub open spec fn fresh(lines: Text) -> Buffer {
        Buffer {
            lines: if lines.len() == 0 {
                seq![Seq::<char>::empty()]
            } else {
                lines
            },
            cursor: (0, 0),
            anchor: None,
            yank: seq![Seq::<char>::empty()],
            edits: Seq::empty(),
            applied: 0,
            limit: 50,
        }
    }

    /// The row of the cursor.
    pub open spec fn row(self) -> int {
        self.cursor.0
    }

    /// The column of the cursor.
    pub open spec fn col(self) -> int {
        self.cursor.1
    }

    /// The line under the cursor.
    pub open spec fn line(self) -> Seq<char> {
        self.lines[self.cursor.0]
    }

    /// The row of the last line.
    pub open spec fn last_row(self) -> int {
        self.lines.len() - 1
    }

    /// The buffer with the cursor at `p`, nothing else changed.
    pub open spec fn at(self, p: Pos) -> Buffer {
        Buffer { cursor: p, ..self }
    }

    /// The selection as the editing operations take it: from the earlier of
    /// anchor and cursor to the later, and none when they coincide.
    pub open spec fn selection(self) -> Option<(Pos, Pos)> {
        match self.anchor {
            None => None,
            Some(a) => if a == self.cursor {
                None
            } else if pos_before(a, self.cursor) {
                Some((a, self.cursor))
            } else {
                Some((self.cursor, a))
            },
        }
    }

    /// The selection as it is reported: from the earlier of anchor and cursor
    /// to the later, also when they coincide.
    pub open spec fn selection_range(self) -> Option<(Pos, Pos)> {
        match self.anchor {
            None => None,
            Some(a) => if pos_before(self.cursor, a) {
                Some((self.cursor, a))
            } else {
                Some((a, self.cursor))
            },
        }
    }

    /// The buffer with a selection begun at the cursor.
    pub open spec fn start_selection(self) -> Buffer {
        Buffer { anchor: Some(self.cursor), ..self }
    }

    /// The buffer with the selection given up.
    pub open spec fn cancel_selection(self) -> Buffer {
        Buffer { anchor: None, ..self }
    }

    /// The history after one more change is recorded. A full history first
    /// loses its oldest entry; what could still be redone is forgotten.
    pub open spec fn recorded(self, edit: Edit) -> Buffer {
        if self.limit == 0 {
            self
        } else {
            let full = self.edits.len() == self.limit;
            let edits = if full {
                self.edits.skip(1)
            } else {
                self.edits
            };
            let applied = if full && self.applied > 0 {
                self.applied - 1
            } else {
                self.applied
            };
            Buffer { edits: edits.take(applied).push(edit), applied: applied + 1, ..self }
        }
    }

    /// The buffer with `lines` and `cursor` changed, and that change recorded.
    pub open spec fn edited(self, lines: Text, cursor: Pos, cursor_before: Pos) -> Buffer {
        Buffer { lines, cursor, ..self }.recorded(
            Edit {
                lines_before: self.lines,
                cursor_before,
                lines_after: lines,
                cursor_after: cursor,
            },
        )
    }

    /// The selection is given up; if there was text in it, the text is taken
    /// out, the cursor goes to where it began, and, if `keep` says so, the
    /// text becomes the yanked text. Undoing puts the cursor at its end.
    pub open spec fn delete_selection(self, keep: bool) -> Buffer {
        match self.selection() {
            None => self.cancel_selection(),
            Some((start, end)) => Buffer {
                anchor: None,
                yank: if keep {
                    text_between(self.lines, start, end)
                } else {
                    self.yank
                },
                ..self
            }.edited(without_range(self.lines, start, end), start, end),
        }
    }

    /// The selected text is taken out and becomes the yanked text.
    pub open spec fn cut(self) -> Buffer {
        self.delete_selection(true)
    }

    /// The selection is given up; if there was text in it, it becomes the
    /// yanked text. Lines and cursor stay.
    pub open spec fn copy(self) -> Buffer {
        match self.selection() {
            None => self.cancel_selection(),
            Some((start, end)) => Buffer {
                anchor: None,
                yank: text_between(self.lines, start, end),
                ..self
            },
        }
    }

    /// A selection is deleted first; then the line under the cursor is split
    /// at the cursor, which goes to the head of the new line.
    pub open spec fn insert_newline(self) -> Buffer {
        let b = self.delete_selection(false);
        let lines = b.lines.take(b.row()) + seq![b.line().take(b.col()), b.line().skip(b.col())]
            + b.lines.skip(b.row() + 1);
        b.edited(lines, (b.row() + 1, 0), b.cursor)
    }

    /// A line feed or a carriage return splits the line as `insert_newline`
    /// does. Any other character goes in at the cursor, after a selection
    /// was deleted, and the cursor goes past it.
    pub open spec fn insert_char(self, c: char) -> Buffer {
        if c == '\n' || c == '\r' {
            self.insert_newline()
        } else {
            let b = self.delete_selection(false);
            let line = b.line().take(b.col()).push(c) + b.line().skip(b.col());
            b.edited(b.lines.update(b.row(), line), (b.row(), b.col() + 1), b.cursor)
        }
    }

    /// With text selected, the selection is deleted. Else the character
    /// before the cursor is deleted; at the head of a line that is the line
    /// break before it, and at the head of the buffer nothing.
    pub open spec fn delete_char(self) -> Buffer {
        if self.selection() is Some {
            self.delete_selection(false)
        } else {
            let b = self.cancel_selection();
            if b.col() > 0 {
                let line = b.line().take(b.col() - 1) + b.line().skip(b.col());
                b.edited(b.lines.update(b.row(), line), (b.row(), b.col() - 1), b.cursor)
            } else if b.row() > 0 {
                let above = b.lines[b.row() - 1];
                let lines = b.lines.take(b.row() - 1) + seq![above + b.line()] + b.lines.skip(
                    b.row() + 1,
                );
                b.edited(lines, (b.row() - 1, above.len() as int), b.cursor)
            } else {
                b
            }
        }
    }

    /// The buffer with `text` as its yanked text, nothing else changed.
    pub open spec fn yanked(self, text: Text) -> Buffer {
        Buffer { yank: text, ..self }
    }

    /// The yanked text is one empty piece: nothing was yanked yet, or what
    /// was yanked last is one empty line.
    pub open spec fn nothing_yanked(self) -> bool {
        self.yank.len() == 1 && self.yank[0].len() == 0
    }

    /// A selection is deleted first; then the yanked text is put in at the
    /// cursor, which goes to its end. An empty piece changes nothing more.
    pub open spec fn insert_yanked(self) -> Buffer {
        let b = self.delete_selection(false);
        if b.nothing_yanked() {
            b
        } else {
            b.edited(with_text(b.lines, b.cursor, b.yank), after_text(b.cursor, b.yank), b.cursor)
        }
    }

    /// Where the yanked text is one empty piece, nothing changes. Else
    /// selected text is deleted, and the yanked text is put in at the cursor,
    /// which goes to its end.
    pub open spec fn paste(self) -> Buffer {
        if self.nothing_yanked() {
            self
        } else {
            self.insert_yanked()
        }
    }

    /// The last change in effect is taken back, and the selection given up;
    /// with no change in effect nothing happens.
    pub open spec fn undo(self) -> Buffer {
        if self.applied <= 0 {
            self
        } else {
            let edit = self.edits[self.applied - 1];
            Buffer {
                lines: edit.lines_before,
                cursor: edit.cursor_before,
                anchor: None,
                applied: self.applied - 1,
                ..self
            }
        }
    }

    /// The change taken back last is made again, and the selection given up;
    /// with none to make again nothing happens.
    pub open spec fn redo(self) -> Buffer {
        if self.applied >= self.edits.len() {
            self
        } else {
            let edit = self.edits[self.applied];
            Buffer {
                lines: edit.lines_after,
                cursor: edit.cursor_after,
                anchor: None,
                applied: self.applied + 1,
                ..self
            }
        }
    }
}


/// Recording a valid change keeps a buffer valid.
pub proof fn lemma_recorded_wf(b: Buffer, edit: Edit)
    requires
        b.wf(),
        edit.wf(),
    ensures
        b.recorded(edit).wf(),
        b.recorded(edit).lines == b.lines,
        b.recorded(edit).cursor == b.cursor,
        b.recorded(edit).anchor == b.anchor,
        b.recorded(edit).yank == b.yank,
        b.recorded(edit).limit == b.limit,
{
}

/// A change to valid lines and a valid cursor, with no selection being made,
/// keeps a buffer valid.
pub proof fn lemma_edited_wf(b: Buffer, lines: Text, cursor: Pos, cursor_before: Pos)
    requires
        b.wf(),
        b.anchor is None,
        pos_valid(lines, cursor),
        text_clean(lines),
        pos_valid(b.lines, cursor_before),
    ensures
        b.edited(lines, cursor, cursor_before).wf(),
        b.edited(lines, cursor, cursor_before).lines == lines,
        b.edited(lines, cursor, cursor_before).cursor == cursor,
        b.edited(lines, cursor, cursor_before).anchor is None,
        b.edited(lines, cursor, cursor_before).yank == b.yank,
        b.edited(lines, cursor, cursor_before).limit == b.limit,
{
    let edit = Edit {
        lines_before: b.lines,
        cursor_before,
        lines_after: lines,
        cursor_after: cursor,
    };
    lemma_recorded_wf(Buffer { lines, cursor, ..b }, edit);
}

/// The ends of a selection are valid positions, the first before the second.
pub proof fn lemma_selection_valid(b: Buffer)
    requires
        b.wf(),
    ensures
        b.selection() matches Some((start, end)) ==> pos_valid(b.lines, start) && pos_valid(
            b.lines,
            end,
        ) && pos_before(start, end),
{
}

/// Text taken from clean lines is clean, and has at least one element.
pub proof fn lemma_text_between_clean(lines: Text, start: Pos, end: Pos)
    requires
        text_clean(lines),
        pos_valid(lines, start),
        pos_valid(lines, end),
        pos_before(start, end),
    ensures
        text_clean(text_between(lines, start, end)),
        text_between(lines, start, end).len() == end.0 - start.0 + 1,
{
    let t = text_between(lines, start, end);
    assert forall|i: int, j: int| 0 <= i < t.len() && 0 <= j < t[i].len() implies (#[trigger] t[i][j])
        != '\n' by {}
}

/// Clean lines with a range taken out are clean, and the start of the range
/// is a valid position in them.
pub proof fn lemma_without_range_clean(lines: Text, start: Pos, end: Pos)
    requires
        text_clean(lines),
        pos_valid(lines, start),
        pos_valid(lines, end),
        pos_before(start, end),
    ensures
        text_clean(without_range(lines, start, end)),
        pos_valid(without_range(lines, start, end), start),
        without_range(lines, start, end).len() == lines.len() - (end.0 - start.0),
{
    let t = without_range(lines, start, end);
    assert forall|i: int, j: int| 0 <= i < t.len() && 0 <= j < t[i].len() implies (#[trigger] t[i][j])
        != '\n' by {}
}

/// Clean lines with a clean text put in are clean, and the place after the
/// text is a valid position in them.
pub proof fn lemma_with_text_clean(lines: Text, at: Pos, text: Text)
    requires
        text_clean(lines),
        pos_valid(lines, at),
        text_clean(text),
        text.len() >= 1,
    ensures
        text_clean(with_text(lines, at, text)),
        pos_valid(with_text(lines, at, text), after_text(at, text)),
        with_text(lines, at, text).len() == lines.len() + text.len() - 1,
{
    let t = with_text(lines, at, text);
    let n = text.len() as int;
    assert forall|i: int, j: int| 0 <= i < t.len() && 0 <= j < t[i].len() implies (#[trigger] t[i][j])
        != '\n' by {}
}

/// Giving up or deleting the selection keeps a buffer valid, and leaves no
/// selection.
pub proof fn lemma_delete_selection_wf(b: Buffer, keep: bool)
    requires
        b.wf(),
    ensures
        b.delete_selection(keep).wf(),
        b.delete_selection(keep).anchor is None,
        b.delete_selection(keep).limit == b.limit,
        !keep ==> b.delete_selection(keep).yank == b.yank,
{
    lemma_selection_valid(b);
    match b.selection() {
        None => {},
        Some((start, end)) => {
            lemma_text_between_clean(b.lines, start, end);
            lemma_without_range_clean(b.lines, start, end);
            let c = Buffer {
                anchor: None,
                yank: if keep {
                    text_between(b.lines, start, end)
                } else {
                    b.yank
                },
                ..b
            };
            lemma_edited_wf(c, without_range(b.lines, start, end), start, end);
        },
    }
}

/// Cutting keeps a buffer valid, and leaves no selection.
pub proof fn lemma_cut_wf(b: Buffer)
    requires
        b.wf(),
    ensures
        b.cut().wf(),
        b.cut().anchor is None,
{
    lemma_delete_selection_wf(b, true);
}

/// Copying keeps a buffer valid, with its text and cursor, and leaves no
/// selection.
pub proof fn lemma_copy_wf(b: Buffer)
    requires
        b.wf(),
    ensures
        b.copy().wf(),
        b.copy().anchor is None,
        b.copy().lines == b.lines,
        b.copy().cursor == b.cursor,
{
    lemma_selection_valid(b);
    match b.selection() {
        None => {},
        Some((start, end)) => {
            lemma_text_between_clean(b.lines, start, end);
        },
    }
}

/// Splitting a line keeps a buffer valid, and leaves no selection.
pub proof fn lemma_insert_newline_wf(b: Buffer)
    requires
        b.wf(),
    ensures
        b.insert_newline().wf(),
        b.insert_newline().anchor is None,
{
    lemma_delete_selection_wf(b, false);
    let c = b.delete_selection(false);
    let lines = c.lines.take(c.row()) + seq![c.line().take(c.col()), c.line().skip(c.col())]
        + c.lines.skip(c.row() + 1);
    assert forall|i: int, j: int| 0 <= i < lines.len() && 0 <= j < lines[i].len() implies (
    #[trigger] lines[i][j]) != '\n' by {}
    lemma_edited_wf(c, lines, (c.row() + 1, 0), c.cursor);
}

/// Putting a character in keeps a buffer valid, and leaves no selection.
pub proof fn lemma_insert_char_wf(b: Buffer, c: char)
    requires
        b.wf(),
    ensures
        b.insert_char(c).wf(),
        b.insert_char(c).anchor is None,
{
    lemma_insert_newline_wf(b);
    lemma_delete_selection_wf(b, false);
    if c != '\n' && c != '\r' {
        let d = b.delete_selection(false);
        let line = d.line().take(d.col()).push(c) + d.line().skip(d.col());
        let lines = d.lines.update(d.row(), line);
        assert forall|i: int, j: int| 0 <= i < lines.len() && 0 <= j < lines[i].len() implies (
        #[trigger] lines[i][j]) != '\n' by {}
        lemma_edited_wf(d, lines, (d.row(), d.col() + 1), d.cursor);
    }
}

/// Deleting a character keeps a buffer valid, and leaves no selection.
pub proof fn lemma_delete_char_wf(b: Buffer)
    requires
        b.wf(),
    ensures
        b.delete_char().wf(),
        b.delete_char().anchor is None,
{
    lemma_delete_selection_wf(b, false);
    if b.selection() is None {
        let c = b.cancel_selection();
        if c.col() > 0 {
            let line = c.line().take(c.col() - 1) + c.line().skip(c.col());
            let lines = c.lines.update(c.row(), line);
            assert forall|i: int, j: int| 0 <= i < lines.len() && 0 <= j < lines[i].len() implies (
            #[trigger] lines[i][j]) != '\n' by {}
            lemma_edited_wf(c, lines, (c.row(), c.col() - 1), c.cursor);
        } else if c.row() > 0 {
            let above = c.lines[c.row() - 1];
            let lines = c.lines.take(c.row() - 1) + seq![above + c.line()] + c.lines.skip(
                c.row() + 1,
            );
            assert forall|i: int, j: int| 0 <= i < lines.len() && 0 <= j < lines[i].len() implies (
            #[trigger] lines[i][j]) != '\n' by {}
            lemma_edited_wf(c, lines, (c.row() - 1, above.len() as int), c.cursor);
        }
    }
}

/// Putting the yanked text in keeps a buffer valid, with its yanked text,
/// and leaves no selection.
pub proof fn lemma_insert_yanked_wf(b: Buffer)
    requires
        b.wf(),
    ensures
        b.insert_yanked().wf(),
        b.insert_yanked().anchor is None,
        b.insert_yanked().yank == b.yank,
{
    lemma_delete_selection_wf(b, false);
    let c = b.delete_selection(false);
    if !c.nothing_yanked() {
        lemma_with_text_clean(c.lines, c.cursor, c.yank);
        lemma_edited_wf(c, with_text(c.lines, c.cursor, c.yank), after_text(c.cursor, c.yank), c.cursor);
    }
}

/// Pasting keeps a buffer valid, with its yanked text.
pub proof fn lemma_paste_wf(b: Buffer)
    requires
        b.wf(),
    ensures
        b.paste().wf(),
        b.paste().yank == b.yank,
{
    lemma_insert_yanked_wf(b);
}

/// Undoing keeps a buffer valid.
pub proof fn lemma_undo_wf(b: Buffer)
    requires
        b.wf(),
    ensures
        b.undo().wf(),
{
}

/// Redoing keeps a buffer valid.
pub proof fn lemma_redo_wf(b: Buffer)
    requires
        b.wf(),
    ensures
        b.redo().wf(),
{
}

} // verus!
