//! The editor: a text buffer with the switches that belong to it, and the
//! interpreter that carries out the transitions of normal and visual mode
//! on it.

use crate::buffer::Buffer;
use crate::command::{
    delete_chars, delete_inside_word, delete_line_end, delete_line_start, delete_lines,
    delete_lines_and_insert, delete_word_back, delete_word_end, open_line_above, open_line_below,
    paste_lines, reselect_for_yank, yank_lines,
};
use crate::motion::{move_cursor_by, Motion};
use crate::step::CursorMove;
use crate::text::content_lines;
use crate::textarea::Area;
use crate::transition::{NormalModeTransition, VisualModeTransition};
use vstd::prelude::*;

verus! {

/// The text buffer of the note that is open, and what the editing modes
/// remember beside it.
pub struct Editor {
    pub area: Area,
    /// The text last yanked was whole lines, so that pasting puts it below
    /// the cursor's line as lines of its own.
    pub line_yanked: bool,
    pub show_line_number: bool,
    pub show_browser: bool,
}

/// The model of an editor.
pub struct EditorView {
    pub buffer: Buffer,
    pub line_yanked: bool,
    pub show_line_number: bool,
    pub show_browser: bool,
}

impl View for Editor {
    type V = EditorView;

    open spec fn view(&self) -> EditorView {
        EditorView {
            buffer: self.area@,
            line_yanked: self.line_yanked,
            show_line_number: self.show_line_number,
            show_browser: self.show_browser,
        }
    }
}

impl EditorView {
    /// The validity of the editor: that of its buffer.
    pub open spec fn wf(self) -> bool {
        self.buffer.wf()
    }

    /// The editor with its buffer turned into `buffer`.
    pub open spec fn with(self, buffer: Buffer) -> EditorView {
        EditorView { buffer, ..self }
    }

    /// The editor with its buffer turned into `buffer` by a command that
    /// yanked whole lines, or did not.
    pub open spec fn yanked(self, buffer: Buffer, lines: bool) -> EditorView {
        EditorView { buffer, line_yanked: lines, ..self }
    }

    /// The editor after a transition of normal mode.
    pub open spec fn normal(self, transition: NormalModeTransition) -> EditorView {
        let b = self.buffer;
        match transition {
            NormalModeTransition::IdleMode => self.with(b.cancel_selection()),
            NormalModeTransition::ToggleMode
            | NormalModeTransition::NumberingMode
            | NormalModeTransition::GatewayMode
            | NormalModeTransition::YankMode
            | NormalModeTransition::DeleteMode
            | NormalModeTransition::DeleteInsideMode
            | NormalModeTransition::ChangeMode
            | NormalModeTransition::ChangeInsideMode
            | NormalModeTransition::InsertAtCursor => self,
            NormalModeTransition::ToggleLineNumbers => EditorView {
                show_line_number: !self.show_line_number,
                ..self
            },
            NormalModeTransition::ToggleBrowser => EditorView {
                show_browser: !self.show_browser,
                ..self
            },
            NormalModeTransition::MoveCursorDown(n) => self.with(b.moved(Motion::Down, n as nat)),
            NormalModeTransition::MoveCursorUp(n) => self.with(b.moved(Motion::Up, n as nat)),
            NormalModeTransition::MoveCursorBack(n) => self.with(b.moved(Motion::Back, n as nat)),
            NormalModeTransition::MoveCursorForward(n) => self.with(
                b.moved(Motion::Forward, n as nat),
            ),
            NormalModeTransition::MoveCursorWordForward(n) => self.with(
                b.moved(Motion::WordForward, n as nat),
            ),
            NormalModeTransition::MoveCursorWordEnd(n) => self.with(
                b.moved(Motion::WordEnd, n as nat),
            ),
            NormalModeTransition::MoveCursorWordBack(n) => self.with(
                b.moved(Motion::WordBack, n as nat),
            ),
            NormalModeTransition::MoveCursorLineStart => self.with(b.moved(Motion::LineStart, 0)),
            NormalModeTransition::MoveCursorLineEnd => self.with(b.moved(Motion::LineEnd, 0)),
            NormalModeTransition::MoveCursorLineNonEmptyStart => self.with(
                b.moved(Motion::LineNonEmptyStart, 0),
            ),
            NormalModeTransition::MoveCursorTop => self.with(b.moved(Motion::Top, 0)),
            NormalModeTransition::MoveCursorBottom => self.with(b.moved(Motion::Bottom, 0)),
            NormalModeTransition::MoveCursorToLine(n) => self.with(
                b.moved(Motion::ToLine, n as nat),
            ),
            NormalModeTransition::InsertNewLineBelow => self.with(b.open_line_below()),
            NormalModeTransition::InsertNewLineAbove => self.with(b.open_line_above()),
            NormalModeTransition::InsertAtLineStart => self.with(b.step(CursorMove::Head)),
            NormalModeTransition::InsertAfterCursor => self.with(b.step(CursorMove::Forward)),
            NormalModeTransition::InsertAtLineEnd => self.with(b.step(CursorMove::End)),
            NormalModeTransition::DeleteChars(n) => self.with(b.delete_chars(n as nat)),
            NormalModeTransition::Paste => self.with(
                if self.line_yanked {
                    b.paste_lines()
                } else {
                    b.paste()
                },
            ),
            NormalModeTransition::Undo => self.with(b.undo()),
            NormalModeTransition::Redo => self.with(b.redo()),
            NormalModeTransition::YankLines(n) => self.yanked(b.yank_lines(n as nat), true),
            NormalModeTransition::DeleteLines(n) => self.yanked(b.delete_lines(n as nat), true),
            NormalModeTransition::DeleteLinesAndInsert(n) => self.yanked(
                b.delete_lines_and_insert(n as nat),
                true,
            ),
            NormalModeTransition::DeleteInsideWord(n) => self.yanked(
                b.delete_inside_word(n as nat),
                false,
            ),
            NormalModeTransition::DeleteWordEnd(n) => self.yanked(
                b.delete_word_end(n as nat),
                false,
            ),
            NormalModeTransition::DeleteWordBack(n) => self.yanked(
                b.delete_word_back(n as nat),
                false,
            ),
            NormalModeTransition::DeleteLineStart => self.yanked(b.delete_line_start(), false),
            NormalModeTransition::DeleteLineEnd(n) => self.yanked(
                b.delete_line_end(n as nat),
                false,
            ),
        }
    }

    /// The editor after a transition of visual mode.
    pub open spec fn visual(self, transition: VisualModeTransition) -> EditorView {
        let b = self.buffer;
        match transition {
            VisualModeTransition::IdleMode => self.with(b.start_selection()),
            VisualModeTransition::NumberingMode | VisualModeTransition::GatewayMode => self,
            VisualModeTransition::MoveCursorDown(n) => self.with(b.moved(Motion::Down, n as nat)),
            VisualModeTransition::MoveCursorUp(n) => self.with(b.moved(Motion::Up, n as nat)),
            VisualModeTransition::MoveCursorBack(n) => self.with(b.moved(Motion::Back, n as nat)),
            VisualModeTransition::MoveCursorForward(n) => self.with(
                b.moved(Motion::Forward, n as nat),
            ),
            VisualModeTransition::MoveCursorWordForward(n) => self.with(
                b.moved(Motion::WordForward, n as nat),
            ),
            VisualModeTransition::MoveCursorWordEnd(n) => self.with(
                b.moved(Motion::WordEnd, n as nat),
            ),
            VisualModeTransition::MoveCursorWordBack(n) => self.with(
                b.moved(Motion::WordBack, n as nat),
            ),
            VisualModeTransition::MoveCursorLineStart => self.with(b.moved(Motion::LineStart, 0)),
            VisualModeTransition::MoveCursorLineEnd => self.with(b.moved(Motion::LineEnd, 0)),
            VisualModeTransition::MoveCursorLineNonEmptyStart => self.with(
                b.moved(Motion::LineNonEmptyStart, 0),
            ),
            VisualModeTransition::MoveCursorTop => self.with(b.moved(Motion::Top, 0)),
            VisualModeTransition::MoveCursorBottom => self.with(b.moved(Motion::Bottom, 0)),
            VisualModeTransition::MoveCursorToLine(n) => self.with(
                b.moved(Motion::ToLine, n as nat),
            ),
            VisualModeTransition::YankSelection => self.yanked(
                b.reselect_for_yank().copy(),
                false,
            ),
            VisualModeTransition::DeleteSelection
            | VisualModeTransition::DeleteSelectionAndInsertMode => self.yanked(
                b.reselect_for_yank().cut(),
                false,
            ),
        }
    }
}

impl Editor {
    /// An editor over the lines of `content`, with the cursor at the start
    /// and every switch off.
    pub fn open(content: &str) -> (editor: Editor)
        ensures
            editor@.wf(),
            editor@.buffer == Buffer::fresh(content_lines(content@)),
            !editor.line_yanked,
            !editor.show_line_number,
            !editor.show_browser,
    {
        Editor {
            area: Area::open(content),
            line_yanked: false,
            show_line_number: false,
            show_browser: false,
        }
    }

    /// Carries out a transition of normal mode. The buffer stays valid, so
    /// the cursor stays on the text whatever the counts are.
    ///
    /// Pasting goes by what was yanked last. After whole lines were yanked
    /// or cut, they are put below the cursor's line as lines of their own,
    /// also where they are one empty line. Else the yanked text is put in
    /// at the cursor, and with nothing yanked nothing changes.
    pub fn handle_normal_mode_transition(&mut self, transition: NormalModeTransition)
        requires
            old(self)@.wf(),
        ensures
            final(self)@ == old(self)@.normal(transition),
            final(self)@.wf(),
    {
        match transition {
            NormalModeTransition::IdleMode => {
                self.area.cancel_selection();
            },
            NormalModeTransition::ToggleMode
            | NormalModeTransition::NumberingMode
            | NormalModeTransition::GatewayMode
            | NormalModeTransition::YankMode
            | NormalModeTransition::DeleteMode
            | NormalModeTransition::DeleteInsideMode
            | NormalModeTransition::ChangeMode
            | NormalModeTransition::ChangeInsideMode
            | NormalModeTransition::InsertAtCursor => {},
            NormalModeTransition::ToggleLineNumbers => {
                self.show_line_number = !self.show_line_number;
            },
            NormalModeTransition::ToggleBrowser => {
                self.show_browser = !self.show_browser;
            },
            NormalModeTransition::MoveCursorDown(n) => {
                move_cursor_by(&mut self.area, Motion::Down, n);
            },
            NormalModeTransition::MoveCursorUp(n) => {
                move_cursor_by(&mut self.area, Motion::Up, n);
            },
            NormalModeTransition::MoveCursorBack(n) => {
                move_cursor_by(&mut self.area, Motion::Back, n);
            },
            NormalModeTransition::MoveCursorForward(n) => {
                move_cursor_by(&mut self.area, Motion::Forward, n);
            },
            NormalModeTransition::MoveCursorWordForward(n) => {
                move_cursor_by(&mut self.area, Motion::WordForward, n);
            },
            NormalModeTransition::MoveCursorWordEnd(n) => {
                move_cursor_by(&mut self.area, Motion::WordEnd, n);
            },
            NormalModeTransition::MoveCursorWordBack(n) => {
                move_cursor_by(&mut self.area, Motion::WordBack, n);
            },
            NormalModeTransition::MoveCursorLineStart => {
                move_cursor_by(&mut self.area, Motion::LineStart, 0);
            },
            NormalModeTransition::MoveCursorLineEnd => {
                move_cursor_by(&mut self.area, Motion::LineEnd, 0);
            },
            NormalModeTransition::MoveCursorLineNonEmptyStart => {
                move_cursor_by(&mut self.area, Motion::LineNonEmptyStart, 0);
            },
            NormalModeTransition::MoveCursorTop => {
                move_cursor_by(&mut self.area, Motion::Top, 0);
            },
            NormalModeTransition::MoveCursorBottom => {
                move_cursor_by(&mut self.area, Motion::Bottom, 0);
            },
            NormalModeTransition::MoveCursorToLine(n) => {
                move_cursor_by(&mut self.area, Motion::ToLine, n);
            },
            NormalModeTransition::InsertNewLineBelow => {
                open_line_below(&mut self.area);
            },
            NormalModeTransition::InsertNewLineAbove => {
                open_line_above(&mut self.area);
            },
            NormalModeTransition::InsertAtLineStart => {
                self.area.move_cursor(CursorMove::Head);
            },
            NormalModeTransition::InsertAfterCursor => {
                self.area.move_cursor(CursorMove::Forward);
            },
            NormalModeTransition::InsertAtLineEnd => {
                self.area.move_cursor(CursorMove::End);
            },
            NormalModeTransition::DeleteChars(n) => {
                delete_chars(&mut self.area, n);
            },
            NormalModeTransition::Paste => {
                if self.line_yanked {
                    paste_lines(&mut self.area);
                } else {
                    self.area.paste();
                }
            },
            NormalModeTransition::Undo => {
                self.area.undo();
            },
            NormalModeTransition::Redo => {
                self.area.redo();
            },
            NormalModeTransition::YankLines(n) => {
                yank_lines(&mut self.area, n);
                self.line_yanked = true;
            },
            NormalModeTransition::DeleteLines(n) => {
                delete_lines(&mut self.area, n);
                self.line_yanked = true;
            },
            NormalModeTransition::DeleteLinesAndInsert(n) => {
                delete_lines_and_insert(&mut self.area, n);
                self.line_yanked = true;
            },
            NormalModeTransition::DeleteInsideWord(n) => {
                delete_inside_word(&mut self.area, n);
                self.line_yanked = false;
            },
            NormalModeTransition::DeleteWordEnd(n) => {
                delete_word_end(&mut self.area, n);
                self.line_yanked = false;
            },
            NormalModeTransition::DeleteWordBack(n) => {
                delete_word_back(&mut self.area, n);
                self.line_yanked = false;
            },
            NormalModeTransition::DeleteLineStart => {
                delete_line_start(&mut self.area);
                self.line_yanked = false;
            },
            NormalModeTransition::DeleteLineEnd(n) => {
                delete_line_end(&mut self.area, n);
                self.line_yanked = false;
            },
        }
    }

    /// Carries out a transition of visual mode: motions move the live end of
    /// the selection, and yanking or deleting takes the selection with the
    /// character under its later end.
    pub fn handle_visual_mode_transition(&mut self, transition: VisualModeTransition)
        requires
            old(self)@.wf(),
        ensures
            final(self)@ == old(self)@.visual(transition),
            final(self)@.wf(),
    {
        match transition {
            VisualModeTransition::IdleMode => {
                self.area.start_selection();
            },
            VisualModeTransition::NumberingMode | VisualModeTransition::GatewayMode => {},
            VisualModeTransition::MoveCursorDown(n) => {
                move_cursor_by(&mut self.area, Motion::Down, n);
            },
            VisualModeTransition::MoveCursorUp(n) => {
                move_cursor_by(&mut self.area, Motion::Up, n);
            },
            VisualModeTransition::MoveCursorBack(n) => {
                move_cursor_by(&mut self.area, Motion::Back, n);
            },
            VisualModeTransition::MoveCursorForward(n) => {
                move_cursor_by(&mut self.area, Motion::Forward, n);
            },
            VisualModeTransition::MoveCursorWordForward(n) => {
                move_cursor_by(&mut self.area, Motion::WordForward, n);
            },
            VisualModeTransition::MoveCursorWordEnd(n) => {
                move_cursor_by(&mut self.area, Motion::WordEnd, n);
            },
            VisualModeTransition::MoveCursorWordBack(n) => {
                move_cursor_by(&mut self.area, Motion::WordBack, n);
            },
            VisualModeTransition::MoveCursorLineStart => {
                move_cursor_by(&mut self.area, Motion::LineStart, 0);
            },
            VisualModeTransition::MoveCursorLineEnd => {
                move_cursor_by(&mut self.area, Motion::LineEnd, 0);
            },
            VisualModeTransition::MoveCursorLineNonEmptyStart => {
                move_cursor_by(&mut self.area, Motion::LineNonEmptyStart, 0);
            },
            VisualModeTransition::MoveCursorTop => {
                move_cursor_by(&mut self.area, Motion::Top, 0);
            },
            VisualModeTransition::MoveCursorBottom => {
                move_cursor_by(&mut self.area, Motion::Bottom, 0);
            },
            VisualModeTransition::MoveCursorToLine(n) => {
                move_cursor_by(&mut self.area, Motion::ToLine, n);
            },
            VisualModeTransition::YankSelection => {
                reselect_for_yank(&mut self.area);
                self.area.copy();
                self.line_yanked = false;
            },
            VisualModeTransition::DeleteSelection
            | VisualModeTransition::DeleteSelectionAndInsertMode => {
                reselect_for_yank(&mut self.area);
                self.area.cut();
                self.line_yanked = false;
            },
        }
    }
}

} // verus!
