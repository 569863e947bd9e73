//! Transitions: what one dispatched event amounts to, for whoever shows the
//! notebook.

use crate::data::{Directory, DirectoryId, Note};
use crate::event::Event;
use vstd::prelude::*;

verus! {

/// What an event in normal mode amounts to.
#[derive(Clone, Copy, Debug, PartialEq, Eq)]
pub enum NormalModeTransition {
    IdleMode,
    ToggleMode,
    NumberingMode,
    GatewayMode,
    YankMode,
    DeleteMode,
    DeleteInsideMode,
    ChangeMode,
    ChangeInsideMode,
    ToggleLineNumbers,
    ToggleBrowser,
    MoveCursorDown(usize),
    MoveCursorUp(usize),
    MoveCursorBack(usize),
    MoveCursorForward(usize),
    MoveCursorWordForward(usize),
    MoveCursorWordEnd(usize),
    MoveCursorWordBack(usize),
    MoveCursorLineStart,
    MoveCursorLineEnd,
    MoveCursorLineNonEmptyStart,
    MoveCursorTop,
    MoveCursorBottom,
    MoveCursorToLine(usize),
    InsertNewLineBelow,
    InsertNewLineAbove,
    InsertAtCursor,
    InsertAtLineStart,
    InsertAfterCursor,
    InsertAtLineEnd,
    DeleteChars(usize),
    Paste,
    Undo,
    Redo,
    YankLines(usize),
    DeleteLines(usize),
    DeleteLinesAndInsert(usize),
    DeleteInsideWord(usize),
    DeleteWordEnd(usize),
    DeleteWordBack(usize),
    DeleteLineStart,
    DeleteLineEnd(usize),
}

/// What an event in visual mode amounts to.
#[derive(Clone, Copy, Debug, PartialEq, Eq)]
pub enum VisualModeTransition {
    IdleMode,
    NumberingMode,
    GatewayMode,
    MoveCursorDown(usize),
    MoveCursorUp(usize),
    MoveCursorBack(usize),
    MoveCursorForward(usize),
    MoveCursorWordForward(usize),
    MoveCursorWordEnd(usize),
    MoveCursorWordBack(usize),
    MoveCursorLineStart,
    MoveCursorLineEnd,
    MoveCursorLineNonEmptyStart,
    MoveCursorTop,
    MoveCursorBottom,
    MoveCursorToLine(usize),
    YankSelection,
    DeleteSelection,
    DeleteSelectionAndInsertMode,
}

/// What an event amounts to for the notebook.
#[derive(Debug, PartialEq, Eq)]
pub enum NotebookTransition {
    /// Nothing to show.
    Nothing,
    /// The event has no meaning in the state it came to.
    Inedible(Event),
    /// Something to tell the user.
    Alert(String),
    OpenDirectory { id: DirectoryId, notes: Vec<Note>, directories: Vec<Directory> },
    CloseDirectory(DirectoryId),
    OpenNote(Note),
    /// Editing has stopped; the text of the note is to be saved.
    ViewMode(Note),
    /// The text of the note is stored; the note is shown as it is now.
    UpdateNoteContent(Note),
    BrowseNoteTree,
    RemoveNote { note: Note, selected_directory: Directory },
    RemoveDirectory { directory: Directory, selected_directory: Directory },
    RenameNote(Note),
    RenameDirectory(Directory),
    AddNote(Note),
    AddDirectory(Directory),
    SelectNext(usize),
    SelectPrev(usize),
    ShowNoteActionsDialog,
    ShowDirectoryActionsDialog,
    EditingNormalMode(NormalModeTransition),
    EditingVisualMode(VisualModeTransition),
}

/// What an event amounts to on the entry screen.
#[derive(Debug, PartialEq, Eq)]
pub enum EntryTransition {
    OpenNotebook,
    Inedible(Event),
    /// Nothing to show.
    Nothing,
}

/// What one dispatched event amounts to.
#[derive(Debug, PartialEq, Eq)]
pub enum Transition {
    Entry(EntryTransition),
    Notebook(NotebookTransition),
    Log(String),
    Error(String),
}

} // verus!
