//! Notes and directories, as the database hands them over.

use vstd::prelude::*;

verus! {

/// The identifier of a directory: a unique string, later ones sorting after
/// earlier ones.
pub type DirectoryId = String;

/// The identifier of a note.
pub type NoteId = String;

/// A directory of notes. Only the root has no parent.
#[derive(Debug, PartialEq, Eq)]
pub struct Directory {
    pub id: DirectoryId,
    pub parent_id: Option<DirectoryId>,
    pub name: String,
}

/// A note: it lies in one directory and holds a text, which may be empty.
#[derive(Debug, PartialEq, Eq)]
pub struct Note {
    pub id: NoteId,
    pub directory_id: DirectoryId,
    pub name: String,
    pub content: String,
}

impl Clone for Directory {
    fn clone(&self) -> (copy: Directory)
        ensures
            copy == *self,
    {
        Directory {
            id: self.id.clone(),
            parent_id: match &self.parent_id {
                Some(id) => Some(id.clone()),
                None => None,
            },
            name: self.name.clone(),
        }
    }
}

impl Clone for Note {
    fn clone(&self) -> (copy: Note)
        ensures
            copy == *self,
    {
        Note {
            id: self.id.clone(),
            directory_id: self.directory_id.clone(),
            name: self.name.clone(),
            content: self.content.clone(),
        }
    }
}

} // verus!
