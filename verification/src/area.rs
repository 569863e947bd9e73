//! The operations of the text buffer, as the editing commands use them.
//! Each one keeps the buffer valid and says exactly what it turns the buffer
//! into.

use crate::buffer::{
    lemma_copy_wf, lemma_cut_wf, lemma_delete_char_wf, lemma_insert_char_wf,
    lemma_insert_newline_wf, lemma_paste_wf, lemma_redo_wf, lemma_undo_wf, Buffer,
};
use crate::motion::lemma_step_valid;
use crate::step::CursorMove;
use crate::textarea;
use crate::text::{
    content_lines, joined, lemma_content_lines_clean, lemma_joined_empty, lemma_pieces_clean,
    pieces, pos_of, text_of,
};
use crate::textarea::Area;
use vstd::prelude::*;
use vstd::string::{StrSliceExecFns, StringExecFns};

verus! {

impl Area {
    /// A buffer over the lines of `content`, the cursor at its start, with
    /// nothing selected, nothing yanked and nothing to undo. An empty
    /// content gives one empty line.
    pub fn open(content: &str) -> (area: Area)
        ensures
            area@ == Buffer::fresh(content_lines(content@)),
            area@.wf(),
    {
        let lines = textarea::split_lines(content);
        proof {
            lemma_content_lines_clean(content@);
        }
        textarea::new_area(lines)
    }

    /// How many lines the buffer holds: at least one.
    pub fn line_count(&self) -> (count: usize)
        ensures
            count == self@.lines.len(),
    {
        textarea::lines(self).len()
    }

    /// A copy of the line at `row`; `None` past the last line.
    pub fn line(&self, row: usize) -> (line: Option<String>)
        ensures
            match line {
                Some(text) => row < self@.lines.len() && text@ == self@.lines[row as int],
                None => row >= self@.lines.len(),
            },
    {
        let lines = textarea::lines(self);
        if row < lines.len() {
            assert(text_of(lines@)[row as int] == lines@[row as int]@);
            Some(lines[row].clone())
        } else {
            None
        }
    }

    /// The length of the line at `row`, in characters.
    pub fn line_len(&self, row: usize) -> (len: usize)
        requires
            row < self@.lines.len(),
        ensures
            len == self@.lines[row as int].len(),
    {
        let lines = textarea::lines(self);
        assert(text_of(lines@)[row as int] == lines@[row as int]@);
        lines[row].as_str().unicode_len()
    }

    /// A copy of all the lines, in order.
    pub fn lines(&self) -> (lines: Vec<String>)
        ensures
            text_of(lines@) == self@.lines,
    {
        textarea::lines(self)
    }

    /// The whole text as one string, a line feed between each two lines.
    pub fn content(&self) -> (content: String)
        ensures
            content@ == joined(self@.lines),
    {
        let lines = textarea::lines(self);
        let count = lines.len();
        let mut content = String::from_str("");
        proof {
            reveal_strlit("");
            reveal_strlit("\n");
        }
        let mut row: usize = 0;
        while row < count
            invariant
                row <= count,
                count == lines@.len(),
                text_of(lines@) == self@.lines,
                content@ == joined(self@.lines.take(row as int)),
                "\n"@ == seq!['\n'],
            decreases count - row,
        {
            if row > 0 {
                content.append("\n");
            }
            assert(text_of(lines@)[row as int] == lines@[row as int]@);
            content.append(lines[row].as_str());
            proof {
                let taken = self@.lines.take(row + 1);
                assert(taken.drop_last() =~= self@.lines.take(row as int));
            }
            row += 1;
        }
        assert(self@.lines.take(count as int) =~= self@.lines);
        content
    }

    /// The cursor: row, and column counted in characters.
    pub fn cursor(&self) -> (at: (usize, usize))
        ensures
            pos_of(at) == self@.cursor,
    {
        textarea::cursor(self)
    }

    /// While a selection is being made, its two ends, the earlier first;
    /// they coincide while the cursor is on the anchor.
    pub fn selection_range(&self) -> (range: Option<((usize, usize), (usize, usize))>)
        ensures
            match range {
                Some((start, end)) => self@.selection_range() == Some((pos_of(start), pos_of(end))),
                None => self@.selection_range() is None,
            },
    {
        textarea::selection_range(self)
    }

    /// The yanked text as one string, a line feed between each two lines.
    pub fn yank_text(&self) -> (text: String)
        ensures
            text@ == joined(self@.yank),
    {
        textarea::yank_text(self)
    }

    /// Says whether no text is selected: no selection is being made, or the
    /// cursor is on the anchor.
    pub fn nothing_selected(&self) -> (nothing: bool)
        ensures
            nothing == self@.selection() is None,
    {
        match textarea::selection_range(self) {
            Some((start, end)) => start.0 == end.0 && start.1 == end.1,
            None => true,
        }
    }

    /// Makes the pieces that the line feeds part `text` into the yanked
    /// text, each without a carriage return at its end. An empty text yanks
    /// one empty piece. Nothing else changes.
    pub fn set_yank_text(&mut self, text: &str)
        requires
            old(self)@.wf(),
        ensures
            final(self)@ == old(self)@.yanked(pieces(text@)),
            final(self)@.wf(),
    {
        proof {
            lemma_pieces_clean(text@);
        }
        textarea::set_yank_text(self, text);
    }

    /// Says whether the yanked text is one empty piece: nothing was yanked
    /// yet, or what was yanked last is one empty line.
    pub fn nothing_yanked(&self) -> (nothing: bool)
        requires
            self@.wf(),
        ensures
            nothing == self@.nothing_yanked(),
    {
        proof {
            lemma_joined_empty(self@.yank);
        }
        textarea::yank_text(self).as_str().is_empty()
    }

    /// Takes one step with the cursor. Nothing else changes; a selection
    /// that is being made goes on.
    pub fn move_cursor(&mut self, m: CursorMove)
        requires
            old(self)@.wf(),
        ensures
            final(self)@ == old(self)@.step(m),
            final(self)@.wf(),
    {
        proof {
            lemma_step_valid(m, self@.lines, self@.cursor);
        }
        textarea::move_cursor(self, m);
    }

    /// Begins a selection at the cursor.
    pub fn start_selection(&mut self)
        requires
            old(self)@.wf(),
        ensures
            final(self)@ == old(self)@.start_selection(),
            final(self)@.wf(),
    {
        textarea::start_selection(self);
    }

    /// Gives the selection up; the text stays.
    pub fn cancel_selection(&mut self)
        requires
            old(self)@.wf(),
        ensures
            final(self)@ == old(self)@.cancel_selection(),
            final(self)@.wf(),
    {
        textarea::cancel_selection(self);
    }

    /// Makes the selected text the yanked text and gives the selection up.
    /// With nothing selected the yanked text stays what it was.
    pub fn copy(&mut self)
        requires
            old(self)@.wf(),
        ensures
            final(self)@ == old(self)@.copy(),
            final(self)@.wf(),
    {
        proof {
            lemma_copy_wf(self@);
        }
        textarea::copy(self);
    }

    /// Takes the selected text out, makes it the yanked text and puts the
    /// cursor where it began. With nothing selected only the selection is
    /// given up.
    pub fn cut(&mut self)
        requires
            old(self)@.wf(),
        ensures
            final(self)@ == old(self)@.cut(),
            final(self)@.wf(),
    {
        proof {
            lemma_cut_wf(self@);
        }
        textarea::cut(self);
    }

    /// Deletes selected text, then puts the character in at the cursor and
    /// the cursor past it. A line feed or a carriage return splits the line
    /// at the cursor instead.
    pub fn insert_char(&mut self, c: char)
        requires
            old(self)@.wf(),
        ensures
            final(self)@ == old(self)@.insert_char(c),
            final(self)@.wf(),
    {
        proof {
            lemma_insert_char_wf(self@, c);
        }
        textarea::insert_char(self, c);
    }

    /// Deletes selected text, then splits the line at the cursor and puts
    /// the cursor at the head of the new line.
    pub fn insert_newline(&mut self)
        requires
            old(self)@.wf(),
        ensures
            final(self)@ == old(self)@.insert_newline(),
            final(self)@.wf(),
    {
        proof {
            lemma_insert_newline_wf(self@);
        }
        textarea::insert_newline(self);
    }

    /// Deletes selected text; with none, the character before the cursor, or
    /// at the head of a line the line break before it. At the head of the
    /// buffer nothing is deleted.
    pub fn delete_char(&mut self)
        requires
            old(self)@.wf(),
        ensures
            final(self)@ == old(self)@.delete_char(),
            final(self)@.wf(),
    {
        proof {
            lemma_delete_char_wf(self@);
        }
        textarea::delete_char(self);
    }

    /// Puts the yanked text in at the cursor, which goes to its end;
    /// selected text is deleted first. Where the yanked text is one empty
    /// piece nothing changes, and what is selected stays selected.
    pub fn paste(&mut self)
        requires
            old(self)@.wf(),
        ensures
            final(self)@ == old(self)@.paste(),
            final(self)@.wf(),
    {
        proof {
            lemma_paste_wf(self@);
        }
        if !self.nothing_yanked() {
            textarea::paste(self);
        }
    }

    /// Takes the last change back: the text and the cursor are what they
    /// were before it. With no change to take back nothing happens.
    pub fn undo(&mut self)
        requires
            old(self)@.wf(),
        ensures
            final(self)@ == old(self)@.undo(),
            final(self)@.wf(),
    {
        proof {
            lemma_undo_wf(self@);
        }
        textarea::undo(self);
    }

    /// Makes the change taken back last again. With none nothing happens.
    pub fn redo(&mut self)
        requires
            old(self)@.wf(),
        ensures
            final(self)@ == old(self)@.redo(),
            final(self)@.wf(),
    {
        proof {
            lemma_redo_wf(self@);
        }
        textarea::redo(self);
    }
}

} // verus!
