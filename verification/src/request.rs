//! What the notebook asks of the database, and what the database answers.
//! The notebook never reaches the database itself: a dispatch hands out a
//! request, and goes on when the reply is handed back.

use crate::data::{Directory, DirectoryId, Note, NoteId};
use crate::transition::NotebookTransition;
use vstd::prelude::*;

verus! {

/// One call to make on the database.
#[derive(Debug, PartialEq, Eq)]
pub enum Request {
    /// Store the text of a note.
    UpdateNoteContent { note_id: NoteId, content: String },
    /// Fetch the notes and the directories that lie directly in a directory.
    FetchChildren { directory_id: DirectoryId },
    AddNote { directory_id: DirectoryId, name: String },
    AddDirectory { parent_id: DirectoryId, name: String },
    RenameNote { note_id: NoteId, name: String },
    RenameDirectory { directory_id: DirectoryId, name: String },
    RemoveNote { note_id: NoteId },
    /// Remove a directory with all that lies in it.
    RemoveDirectory { directory_id: DirectoryId },
}

/// What the database answered to a request.
#[derive(Debug, PartialEq, Eq)]
pub enum Reply {
    /// The call was made, and has nothing to hand back.
    Done,
    Children { notes: Vec<Note>, directories: Vec<Directory> },
    Note(Note),
    Directory(Directory),
    /// The call failed: what the database said.
    Failed(String),
}

/// How far a dispatch has come: it ends in a transition, or it needs the
/// database first.
#[derive(Debug, PartialEq, Eq)]
pub enum Step {
    Transition(NotebookTransition),
    Request(Request),
}

} // verus!
