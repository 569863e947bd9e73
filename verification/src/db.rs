//! The database, seen from the notebook: the statements that are made on
//! it, and what it answers. Nothing here reaches a database; whoever does
//! takes a statement, makes it, and hands the answer back.

pub mod directory;
pub mod store;

use crate::data::{Directory, DirectoryId};
use vstd::prelude::*;

verus! {

/// One statement on the tables of directories and notes.
#[derive(Debug, PartialEq, Eq)]
pub enum Statement {
    /// Select the directory with this identifier.
    SelectDirectory { id: DirectoryId },
    /// Select the directories that lie directly in this directory.
    SelectDirectories { parent_id: DirectoryId },
    /// Insert this directory.
    InsertDirectory { directory: Directory },
    /// Delete the notes that lie directly in this directory.
    DeleteNotes { directory_id: DirectoryId },
    /// Delete the directory with this identifier.
    DeleteDirectory { id: DirectoryId },
    /// Put the directory with this identifier into another directory.
    MoveDirectory { id: DirectoryId, parent_id: DirectoryId },
    /// Give the directory with this identifier another name.
    RenameDirectory { id: DirectoryId, name: String },
    /// Have the storage write out what has changed.
    Sync,
}

/// What the database answers to a statement.
#[derive(Debug, PartialEq, Eq)]
pub enum Answer {
    /// The statement was made.
    Done,
    /// The directories that a selection found, in the order of the table.
    Directories(Vec<Directory>),
    /// The statement failed: what the database said.
    Failed(String),
}

/// The model of an answer.
pub enum AnswerView {
    Done,
    Directories(Seq<Directory>),
    Failed(Seq<char>),
}

impl View for Answer {
    type V = AnswerView;

    open spec fn view(&self) -> AnswerView {
        match self {
            Answer::Done => AnswerView::Done,
            Answer::Directories(found) => AnswerView::Directories(found@),
            Answer::Failed(message) => AnswerView::Failed(message@),
        }
    }
}

} // verus!
