//! What is shown of the notebook: the items of the tree with the one that
//! is selected, the editor, and which of the browsing and editing screens
//! is up.

use crate::data::Note;
use crate::editor::{Editor, EditorView};
use crate::event::{Event, NotebookEvent};
use crate::state::InnerState;
use crate::editing_normal_mode::VimState;
use crate::text::content_lines;
use crate::textarea::Area;
use crate::buffer::Buffer;
use crate::tree::{item_from, Tree, TreeItem};
use vstd::prelude::*;

verus! {

/// The screen of the notebook that is up.
#[derive(Clone, Copy, Debug, PartialEq, Eq)]
pub enum ContextState {
    NoteTreeBrowsing,
    NoteTreeNumbering,
    NoteActionsDialog,
    DirectoryActionsDialog,
    EditorNormalMode { idle: bool },
    EditorVisualMode,
    EditorInsertMode,
}

/// The screen that goes with a state of the notebook.
pub open spec fn screen_of(inner_state: InnerState) -> ContextState {
    match inner_state {
        InnerState::NoteSelected | InnerState::DirectorySelected => ContextState::NoteTreeBrowsing,
        InnerState::NoteTreeNumber(_) => ContextState::NoteTreeNumbering,
        InnerState::NoteMoreActions => ContextState::NoteActionsDialog,
        InnerState::DirectoryMoreActions => ContextState::DirectoryActionsDialog,
        InnerState::EditingNormalMode(VimState::Idle) => ContextState::EditorNormalMode { idle: true },
        InnerState::EditingNormalMode(_) => ContextState::EditorNormalMode { idle: false },
        InnerState::EditingVisualMode(_) => ContextState::EditorVisualMode,
        InnerState::EditingInsertMode => ContextState::EditorInsertMode,
    }
}

/// The screen that goes with a state of the notebook.
pub fn screen(inner_state: InnerState) -> (state: ContextState)
    ensures
        state == screen_of(inner_state),
{
    match inner_state {
        InnerState::NoteSelected | InnerState::DirectorySelected => ContextState::NoteTreeBrowsing,
        InnerState::NoteTreeNumber(_) => ContextState::NoteTreeNumbering,
        InnerState::NoteMoreActions => ContextState::NoteActionsDialog,
        InnerState::DirectoryMoreActions => ContextState::DirectoryActionsDialog,
        InnerState::EditingNormalMode(VimState::Idle) => ContextState::EditorNormalMode { idle: true },
        InnerState::EditingNormalMode(_) => ContextState::EditorNormalMode { idle: false },
        InnerState::EditingVisualMode(_) => ContextState::EditorVisualMode,
        InnerState::EditingInsertMode => ContextState::EditorInsertMode,
    }
}

/// The event that tells the notebook that `item` is selected.
pub open spec fn selecting(item: TreeItem) -> Event {
    match item {
        TreeItem::Directory { value, .. } => Event::Notebook(NotebookEvent::SelectDirectory(value)),
        TreeItem::Note { value, .. } => Event::Notebook(NotebookEvent::SelectNote(value)),
    }
}

/// The index `n` items after `selected`, at most the last of `count` items.
pub open spec fn next_index(selected: usize, n: usize, count: nat) -> usize {
    if selected + n < count {
        (selected + n) as usize
    } else if count > 0 {
        (count - 1) as usize
    } else {
        0
    }
}

/// The index `n` items before `selected`, at least the first.
pub open spec fn prev_index(selected: usize, n: usize) -> usize {
    if n <= selected {
        (selected - n) as usize
    } else {
        0
    }
}

/// The index of the first item with identifier `id`; `selected` if there is
/// none.
pub open spec fn index_of(items: Seq<TreeItem>, id: Seq<char>, selected: usize) -> usize {
    if item_from(items, id, 0) < items.len() {
        item_from(items, id, 0) as usize
    } else {
        selected
    }
}

/// What is shown of the notebook.
pub struct NotebookContext {
    pub state: ContextState,
    /// The items of the tree, in the order in which they are shown.
    pub tree_items: Vec<TreeItem>,
    /// The index of the item that is selected.
    pub selected: usize,
    /// The note whose text is in the editor.
    pub opened_note: Option<Note>,
    pub editor: Editor,
}

impl NotebookContext {
    /// The validity of the context: the editor is valid, and the selection
    /// is on an item, or at 0 while there are no items.
    pub open spec fn wf(&self) -> bool {
        &&& self.editor@.wf()
        &&& self.selected < self.tree_items@.len() || self.selected == 0
    }

    /// A context that shows no items yet, with an empty editor.
    pub fn new() -> (context: NotebookContext)
        ensures
            context.wf(),
            context.state == ContextState::NoteTreeBrowsing,
            context.tree_items@.len() == 0,
            context.selected == 0,
            context.opened_note is None,
            context.editor@.buffer == Buffer::fresh(content_lines(""@)),
    {
        NotebookContext {
            state: ContextState::NoteTreeBrowsing,
            tree_items: Vec::new(),
            selected: 0,
            opened_note: None,
            editor: Editor::open(""),
        }
    }

    /// Shows the items of `root`. The selection stays at its index, or goes
    /// to the last item if the tree has become shorter than that.
    pub fn update_items(&mut self, root: &Tree)
        requires
            old(self).wf(),
        ensures
            final(self).wf(),
            final(self).tree_items@ == root@,
            final(self).selected == next_index(old(self).selected, 0, root@.len()),
            final(self).state == old(self).state,
            final(self).opened_note == old(self).opened_note,
            final(self).editor == old(self).editor,
    {
        let copy = root.clone();
        self.tree_items = copy.items;
        let count = self.tree_items.len();
        if self.selected >= count {
            self.selected = if count > 0 {
                count - 1
            } else {
                0
            };
        }
    }

    /// Selects the item with identifier `id`; if none is shown, the
    /// selection stays.
    pub fn select_item(&mut self, id: &String)
        requires
            old(self).wf(),
        ensures
            final(self).wf(),
            final(self).selected == index_of(old(self).tree_items@, id@, old(self).selected),
            final(self).tree_items == old(self).tree_items,
            final(self).state == old(self).state,
            final(self).opened_note == old(self).opened_note,
            final(self).editor == old(self).editor,
    {
        let mut i: usize = 0;
        while i < self.tree_items.len()
            invariant
                i <= self.tree_items.len(),
                *self == *old(self),
                old(self).wf(),
                item_from(self.tree_items@, id@, 0) == item_from(self.tree_items@, id@, i as int),
            decreases self.tree_items.len() - i,
        {
            let found = match &self.tree_items[i] {
                TreeItem::Directory { value, .. } => value.id == *id,
                TreeItem::Note { value, .. } => value.id == *id,
            };
            if found {
                self.selected = i;
                return ;
            }
            i += 1;
        }
    }

    /// Moves the selection `n` items on, at most to the last item.
    pub fn select_next(&mut self, n: usize)
        requires
            old(self).wf(),
        ensures
            final(self).wf(),
            final(self).selected == next_index(
                old(self).selected,
                n,
                old(self).tree_items@.len(),
            ),
            final(self).tree_items == old(self).tree_items,
            final(self).state == old(self).state,
            final(self).opened_note == old(self).opened_note,
            final(self).editor == old(self).editor,
    {
        let count = self.tree_items.len();
        if count == 0 {
            self.selected = 0;
        } else if n >= count - self.selected {
            self.selected = count - 1;
        } else {
            self.selected = self.selected + n;
        }
    }

    /// Moves the selection `n` items back, at most to the first item.
    pub fn select_prev(&mut self, n: usize)
        requires
            old(self).wf(),
        ensures
            final(self).wf(),
            final(self).selected == prev_index(old(self).selected, n),
            final(self).tree_items == old(self).tree_items,
            final(self).state == old(self).state,
            final(self).opened_note == old(self).opened_note,
            final(self).editor == old(self).editor,
    {
        if n <= self.selected {
            self.selected = self.selected - n;
        } else {
            self.selected = 0;
        }
    }

    /// The item that is selected; `None` while no items are shown.
    pub fn selected(&self) -> (item: Option<TreeItem>)
        requires
            self.wf(),
        ensures
            match item {
                Some(item) => self.selected < self.tree_items@.len() && item
                    == self.tree_items@[self.selected as int],
                None => self.tree_items@.len() == 0,
            },
    {
        if self.selected < self.tree_items.len() {
            Some(self.tree_items[self.selected].clone())
        } else {
            None
        }
    }

    /// Types a character into the note, if the insert screen is up: selected
    /// text is deleted, the character goes in at the cursor, and a line feed
    /// or a carriage return splits the line. On every other screen nothing
    /// happens. Says whether the character was typed.
    pub fn type_char(&mut self, c: char) -> (typed: bool)
        requires
            old(self).wf(),
        ensures
            final(self).wf(),
            typed == (old(self).state == ContextState::EditorInsertMode),
            final(self).editor@ == if typed {
                old(self).editor@.with(old(self).editor@.buffer.insert_char(c))
            } else {
                old(self).editor@
            },
            final(self).tree_items == old(self).tree_items,
            final(self).selected == old(self).selected,
            final(self).state == old(self).state,
            final(self).opened_note == old(self).opened_note,
    {
        match self.state {
            ContextState::EditorInsertMode => {
                self.editor.area.insert_char(c);
                true
            },
            _ => false,
        }
    }

    /// Puts the text of `note` into the editor, with the cursor at its
    /// start, nothing selected and nothing to undo. The switches of the
    /// editor stay as they are.
    pub fn open_note(&mut self, note: Note)
        requires
            old(self).wf(),
        ensures
            final(self).wf(),
            final(self).opened_note == Some(note),
            final(self).editor@ == (EditorView {
                buffer: Buffer::fresh(content_lines(note.content@)),
                ..old(self).editor@
            }),
            final(self).tree_items == old(self).tree_items,
            final(self).selected == old(self).selected,
            final(self).state == old(self).state,
    {
        self.editor.area = Area::open(note.content.as_str());
        self.opened_note = Some(note);
    }
}

} // verus!
