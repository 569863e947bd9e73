//! The state of the notebook: what is selected, what is being edited, and
//! which of the browsing and editing states is the current one.

use crate::data::{Directory, Note};
use crate::error::Error;
use crate::request::Step;
use crate::editing_normal_mode::VimState;
use crate::tree::{Tree, TreeItem};
use vstd::prelude::*;
use vstd::string::StringExecFns;

verus! {

/// The state of visual mode: idle, or taking the digits of a count.
#[derive(Clone, Copy, Debug, PartialEq, Eq)]
pub enum VimVisualState {
    Idle,
    Numbering(usize),
}

/// The states of the notebook. The first five browse the tree, the last
/// three edit the note that is open.
#[derive(Clone, Copy, Debug, PartialEq, Eq)]
pub enum InnerState {
    NoteSelected,
    DirectorySelected,
    NoteTreeNumber(usize),
    NoteMoreActions,
    DirectoryMoreActions,
    EditingNormalMode(VimState),
    EditingVisualMode(VimVisualState),
    EditingInsertMode,
}

impl InnerState {
    /// The state browses the tree.
    pub open spec fn browsing(self) -> bool {
        match self {
            InnerState::NoteSelected
            | InnerState::DirectorySelected
            | InnerState::NoteTreeNumber(_)
            | InnerState::NoteMoreActions
            | InnerState::DirectoryMoreActions => true,
            _ => false,
        }
    }

    /// The state edits a note.
    pub open spec fn editing(self) -> bool {
        !self.browsing()
    }
}

/// The item of the tree that is selected.
#[derive(Debug, PartialEq, Eq)]
pub enum SelectedItem {
    Note(Note),
    Directory(Directory),
}

/// What the notebook has asked of the database and waits for.
#[derive(Debug, PartialEq, Eq)]
pub enum Pending {
    /// The text of the open note is being stored.
    UpdateNoteContent { content: String },
    /// The children of a directory are being fetched to show it open.
    OpenDirectory { directory: Directory },
    /// A note is being added to a directory.
    AddNote { directory: Directory },
    /// A directory is being added to a directory.
    AddDirectory { directory: Directory },
    /// A note is being renamed.
    RenameNote { note: Note, name: String, directory: Directory },
    /// A directory is being renamed.
    RenameDirectory { directory: Directory, name: String, parent: Directory },
    /// A note is being removed from a directory.
    RemoveNote { note: Note, directory: Directory },
    /// A directory is being removed from its parent.
    RemoveDirectory { directory: Directory, parent: Directory },
    /// After a note was added to it, the children of a directory are being
    /// fetched again.
    ShowAddedNote { note: Note, directory: Directory },
    /// After a directory was added to it, the children of a directory are
    /// being fetched again.
    ShowAddedDirectory { added: Directory, directory: Directory },
    /// After a note in it was renamed, the children of a directory are being
    /// fetched again.
    ShowRenamedNote { note: Note, directory: Directory },
    /// After a directory in it was renamed, the children of a directory are
    /// being fetched again.
    ShowRenamedDirectory { renamed: Directory, parent: Directory },
    /// After a note was removed from it, the children of a directory are
    /// being fetched again.
    ShowRemovedNote { note: Note, directory: Directory },
    /// After a directory was removed from it, the children of a directory
    /// are being fetched again.
    ShowRemovedDirectory { directory: Directory, parent: Directory },
}

/// The state of the notebook.
#[derive(Debug, PartialEq, Eq)]
pub struct NotebookState {
    /// The tree of directories and notes, as far as it is open.
    pub root: Tree,
    pub selected: SelectedItem,
    /// The note that is open in the editor, if any.
    pub editing: Option<Note>,
    pub inner_state: InnerState,
    /// What the database has been asked and has not answered yet.
    pub pending: Option<Pending>,
}

/// What an error says when an event has no rule in the state it came to.
pub const NO_RULE: &'static str = "no rule for this event in this state";

/// What an error says when an event needs an open note and there is none.
pub const NO_NOTE: &'static str = "no note is open";

/// What an error says when an event needs the selected item in the tree and
/// the tree does not show it.
pub const NOT_SHOWN: &'static str = "the tree does not show the selected item";

/// What an error says when the database answers what was not asked.
pub const WRONG_REPLY: &'static str = "the reply does not answer the request";

/// What an alert says when the root directory is to be renamed or removed.
pub const ROOT_STAYS: &'static str = "the root directory stays as it is";

/// The result owed is the step `step`.
pub open spec fn is_step(result: Result<Step, Error>, step: Step) -> bool {
    result == Ok::<Step, Error>(step)
}

/// The result owed is the error of a missing rule or a missing part, with
/// the message `message`.
pub open spec fn is_wip(result: Result<Step, Error>, message: &str) -> bool {
    result matches Err(Error::Wip(text)) && text@ == message@
}

/// The result owed is a storage error with the message `message`.
pub open spec fn is_storage(result: Result<Step, Error>, message: Seq<char>) -> bool {
    result matches Err(Error::Storage(text)) && text@ == message
}

pub(crate) fn wip(message: &str) -> (result: Result<Step, Error>)
    ensures
        is_wip(result, message),
{
    Err(Error::Wip(String::from_str(message)))
}

impl NotebookState {
    /// The validity of the state: the tree is valid, a state that selects a
    /// note has a note selected and one that selects a directory a
    /// directory, and an editing state has a note open.
    pub open spec fn wf(&self) -> bool {
        &&& self.root.wf()
        &&& self.inner_state is NoteSelected ==> self.selected is Note
        &&& self.inner_state is NoteMoreActions ==> self.selected is Note
        &&& self.inner_state is DirectorySelected ==> self.selected is Directory
        &&& self.inner_state is DirectoryMoreActions ==> self.selected is Directory
        &&& self.inner_state.editing() ==> self.editing is Some
    }

    /// The tree of a notebook that has just been opened: only its root,
    /// closed.
    pub open spec fn fresh_tree(root: Directory) -> Seq<TreeItem> {
        seq![TreeItem::Directory { value: root, depth: 0, opened: false }]
    }

    /// The state of a notebook that has just been opened: the tree shows
    /// only its root, and the root is selected.
    pub fn new(root: Directory) -> (state: NotebookState)
        ensures
            state.wf(),
            state.root@ == NotebookState::fresh_tree(root),
            state.selected == SelectedItem::Directory(root),
            state.editing is None,
            state.inner_state == InnerState::DirectorySelected,
            state.pending is None,
    {
        NotebookState {
            root: Tree::new(root.clone()),
            selected: SelectedItem::Directory(root),
            editing: None,
            inner_state: InnerState::DirectorySelected,
            pending: None,
        }
    }
}

} // verus!
