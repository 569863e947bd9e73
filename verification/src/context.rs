//! What is shown: the screen of the entry or of the notebook, the last
//! message, and an alert while one is up. The transitions that a dispatch
//! ends in are carried out here; where one calls for another event, that
//! event is handed back to whoever runs the dispatch.

pub mod notebook;

use crate::buffer::Buffer;
use crate::context::notebook::{
    index_of, next_index, prev_index, screen, screen_of, selecting, NotebookContext,
};
use crate::data::Note;
use crate::editor::EditorView;
use crate::event::{Event, NotebookEvent};
use crate::glues::{Glues, State};
use crate::state::NotebookState;
use crate::text::{content_lines, joined};
use crate::transition::{EntryTransition, NotebookTransition, Transition};
use crate::tree::TreeItem;
use vstd::prelude::*;

verus! {

/// The screen that is up.
#[derive(Clone, Copy, Debug, PartialEq, Eq)]
pub enum ContextState {
    Entry,
    Notebook,
}

/// What is shown.
pub struct Context {
    pub state: ContextState,
    pub notebook: NotebookContext,
    /// The last message, with the time at which it came.
    pub last_log: Option<(String, u64)>,
    /// The alert that is up.
    pub alert: Option<String>,
}

/// The context `after` shows the items `items` with the item at `selected`
/// selected, and is `before` in all else but its screen.
pub open spec fn lists(
    before: NotebookContext,
    after: NotebookContext,
    items: Seq<TreeItem>,
    selected: usize,
) -> bool {
    &&& after.tree_items@ == items
    &&& after.selected == selected
    &&& after.opened_note == before.opened_note
    &&& after.editor == before.editor
}

/// The context `after` has the item at `selected` selected, and is `before`
/// in all else but its screen.
pub open spec fn selects(before: NotebookContext, after: NotebookContext, selected: usize) -> bool {
    &&& after.tree_items == before.tree_items
    &&& after.selected == selected
    &&& after.opened_note == before.opened_note
    &&& after.editor == before.editor
}

/// The context `after` has an editor whose model is `editor`, and is
/// `before` in all else but its screen.
pub open spec fn edits(before: NotebookContext, after: NotebookContext, editor: EditorView) -> bool {
    &&& after.tree_items == before.tree_items
    &&& after.selected == before.selected
    &&& after.opened_note == before.opened_note
    &&& after.editor@ == editor
}

/// The event that tells the notebook which item is selected, if any is.
pub open spec fn selecting_at(items: Seq<TreeItem>, selected: usize) -> Option<Event> {
    if selected < items.len() {
        Some(selecting(items[selected as int]))
    } else {
        None
    }
}

/// What carrying out a transition of the notebook owes: how the context
/// `after` relates to the context `before`, given the tree `root` of the
/// notebook, and which event `follow` is to be dispatched next.
pub open spec fn notebook_handled(
    before: NotebookContext,
    root: Seq<TreeItem>,
    transition: NotebookTransition,
    after: NotebookContext,
    follow: Option<Event>,
) -> bool {
    let kept = next_index(before.selected, 0, root.len());
    match transition {
        NotebookTransition::OpenDirectory { .. }
        | NotebookTransition::RenameNote(_)
        | NotebookTransition::RenameDirectory(_) => lists(before, after, root, kept) && follow is None,
        NotebookTransition::CloseDirectory(id) => {
            lists(before, after, root, index_of(root, id@, kept)) && follow is None
        },
        NotebookTransition::RemoveNote { selected_directory, .. }
        | NotebookTransition::RemoveDirectory { selected_directory, .. } => {
            lists(before, after, root, index_of(root, selected_directory.id@, kept)) && follow is None
        },
        NotebookTransition::AddNote(note) => {
            lists(before, after, root, index_of(root, note.id@, kept)) && follow is None
        },
        NotebookTransition::AddDirectory(directory) => {
            lists(before, after, root, index_of(root, directory.id@, kept)) && follow is None
        },
        NotebookTransition::OpenNote(note) => {
            &&& after.tree_items == before.tree_items
            &&& after.selected == before.selected
            &&& after.opened_note == Some(note)
            &&& after.editor@ == (EditorView {
                buffer: Buffer::fresh(content_lines(note.content@)),
                ..before.editor@
            })
            &&& follow is None
        },
        NotebookTransition::ViewMode(_) => {
            &&& selects(before, after, before.selected)
            &&& follow matches Some(Event::Notebook(NotebookEvent::UpdateNoteContent(content)))
            &&& content@ == joined(before.editor@.buffer.lines)
        },
        NotebookTransition::SelectNext(n) => {
            let selected = next_index(before.selected, n, before.tree_items@.len());
            selects(before, after, selected) && follow == selecting_at(before.tree_items@, selected)
        },
        NotebookTransition::SelectPrev(n) => {
            let selected = prev_index(before.selected, n);
            selects(before, after, selected) && follow == selecting_at(before.tree_items@, selected)
        },
        NotebookTransition::EditingNormalMode(editing) => {
            edits(before, after, before.editor@.normal(editing)) && follow is None
        },
        NotebookTransition::EditingVisualMode(editing) => {
            edits(before, after, before.editor@.visual(editing)) && follow is None
        },
        _ => selects(before, after, before.selected) && follow is None,
    }
}

impl Context {
    /// The validity of the context: that of what it shows of the notebook.
    pub open spec fn wf(&self) -> bool {
        self.notebook.wf()
    }

    /// The context of the entry screen, with nothing to show yet.
    pub fn new() -> (context: Context)
        ensures
            context.wf(),
            context.state == ContextState::Entry,
            context.last_log is None,
            context.alert is None,
            context.notebook.tree_items@.len() == 0,
    {
        Context { state: ContextState::Entry, notebook: NotebookContext::new(), last_log: None, alert: None }
    }

    /// Carries out a transition. `now` is the time, which goes with a
    /// message that is kept. Hands back the event to dispatch next, if the
    /// transition calls for one.
    pub fn handle_transition(&mut self, glues: &Glues, transition: Transition, now: u64) -> (follow:
        Option<Event>)
        requires
            old(self).wf(),
            glues.wf(),
            transition is Notebook ==> glues.state is Notebook,
            transition matches Transition::Entry(EntryTransition::OpenNotebook) ==> glues.state is Notebook,
        ensures
            final(self).wf(),
            match transition {
                Transition::Entry(entry) => entry_handled(*old(self), *glues, entry, *final(self))
                    && follow is None,
                Transition::Notebook(shown) => {
                    &&& glues.state matches State::Notebook(notebook)
                    &&& final(self).state == old(self).state
                    &&& final(self).last_log == old(self).last_log
                    &&& final(self).alert == (match shown {
                        NotebookTransition::Alert(message) => Some(message),
                        _ => old(self).alert,
                    })
                    &&& final(self).notebook.state == screen_of(notebook.inner_state)
                    &&& notebook_handled(
                        old(self).notebook,
                        notebook.root@,
                        shown,
                        final(self).notebook,
                        follow,
                    )
                },
                Transition::Log(message) => {
                    &&& *final(self) == Context { last_log: Some((message, now)), ..*old(self) }
                    &&& follow is None
                },
                Transition::Error(message) => {
                    &&& *final(self) == Context { alert: Some(message), ..*old(self) }
                    &&& follow is None
                },
            },
    {
        match transition {
            Transition::Entry(entry) => {
                self.handle_entry_transition(glues, entry);
                None
            },
            Transition::Notebook(shown) => match &glues.state {
                State::Notebook(notebook) => self.handle_notebook_transition(notebook, shown),
                State::Entry(_) => None,
            },
            Transition::Log(message) => {
                self.last_log = Some((message, now));
                None
            },
            Transition::Error(message) => {
                self.alert = Some(message);
                None
            },
        }
    }

    /// Carries out a transition of the entry screen: when the notebook
    /// opens, its screen comes up and shows its tree.
    pub fn handle_entry_transition(&mut self, glues: &Glues, transition: EntryTransition)
        requires
            old(self).wf(),
            transition is OpenNotebook ==> glues.state is Notebook,
        ensures
            final(self).wf(),
            entry_handled(*old(self), *glues, transition, *final(self)),
    {
        match transition {
            EntryTransition::OpenNotebook => match &glues.state {
                State::Notebook(notebook) => {
                    self.state = ContextState::Notebook;
                    self.notebook.update_items(&notebook.root);
                },
                State::Entry(_) => {},
            },
            EntryTransition::Inedible(_) => {},
            EntryTransition::Nothing => {},
        }
    }

    /// Carries out a transition of the notebook: the screen that goes with
    /// the notebook's state comes up, the tree is shown anew where it has
    /// changed, the item that the transition names is selected, and a
    /// transition of an editing mode goes to the editor. Hands back the event
    /// to dispatch next: the text of the editor to store when editing stops,
    /// and the item that is selected after the selection was moved.
    pub fn handle_notebook_transition(
        &mut self,
        notebook: &NotebookState,
        transition: NotebookTransition,
    ) -> (follow: Option<Event>)
        requires
            old(self).wf(),
        ensures
            final(self).wf(),
            final(self).state == old(self).state,
            final(self).last_log == old(self).last_log,
            final(self).alert == (match transition {
                NotebookTransition::Alert(message) => Some(message),
                _ => old(self).alert,
            }),
            final(self).notebook.state == screen_of(notebook.inner_state),
            notebook_handled(old(self).notebook, notebook.root@, transition, final(self).notebook, follow),
    {
        self.notebook.state = screen(notebook.inner_state);
        match transition {
            NotebookTransition::OpenDirectory { .. }
            | NotebookTransition::RenameNote(_)
            | NotebookTransition::RenameDirectory(_) => {
                self.notebook.update_items(&notebook.root);
                None
            },
            NotebookTransition::CloseDirectory(id) => {
                self.notebook.update_items(&notebook.root);
                self.notebook.select_item(&id);
                None
            },
            NotebookTransition::RemoveNote { selected_directory, .. }
            | NotebookTransition::RemoveDirectory { selected_directory, .. } => {
                self.notebook.update_items(&notebook.root);
                self.notebook.select_item(&selected_directory.id);
                None
            },
            NotebookTransition::AddNote(note) => {
                self.notebook.update_items(&notebook.root);
                self.notebook.select_item(&note.id);
                None
            },
            NotebookTransition::AddDirectory(directory) => {
                self.notebook.update_items(&notebook.root);
                self.notebook.select_item(&directory.id);
                None
            },
            NotebookTransition::OpenNote(note) => {
                self.notebook.open_note(note);
                None
            },
            NotebookTransition::ViewMode(_) => Some(self.save()),
            NotebookTransition::SelectNext(n) => {
                self.notebook.select_next(n);
                self.selecting()
            },
            NotebookTransition::SelectPrev(n) => {
                self.notebook.select_prev(n);
                self.selecting()
            },
            NotebookTransition::EditingNormalMode(editing) => {
                self.notebook.editor.handle_normal_mode_transition(editing);
                None
            },
            NotebookTransition::EditingVisualMode(editing) => {
                self.notebook.editor.handle_visual_mode_transition(editing);
                None
            },
            NotebookTransition::Alert(message) => {
                self.alert = Some(message);
                None
            },
            _ => None,
        }
    }

    /// The event that tells the notebook which item is selected.
    fn selecting(&self) -> (event: Option<Event>)
        requires
            self.wf(),
        ensures
            event == selecting_at(self.notebook.tree_items@, self.notebook.selected),
    {
        match self.notebook.selected() {
            Some(TreeItem::Directory { value, .. }) => Some(
                Event::Notebook(NotebookEvent::SelectDirectory(value)),
            ),
            Some(TreeItem::Note { value, .. }) => Some(Event::Notebook(NotebookEvent::SelectNote(value))),
            None => None,
        }
    }

    /// The event that has the text of the editor stored: its lines, with a
    /// line feed between each two.
    pub fn save(&self) -> (event: Event)
        ensures
            event matches Event::Notebook(NotebookEvent::UpdateNoteContent(content)) && content@
                == joined(self.notebook.editor@.buffer.lines),
    {
        Event::Notebook(NotebookEvent::UpdateNoteContent(self.notebook.editor.area.content()))
    }
}

/// What carrying out a transition of the entry screen owes.
pub open spec fn entry_handled(
    before: Context,
    glues: Glues,
    transition: EntryTransition,
    after: Context,
) -> bool {
    match (transition, glues.state) {
        (EntryTransition::OpenNotebook, State::Notebook(notebook)) => {
            &&& after.state == ContextState::Notebook
            &&& after.last_log == before.last_log
            &&& after.alert == before.alert
            &&& after.notebook.state == before.notebook.state
            &&& lists(
                before.notebook,
                after.notebook,
                notebook.root@,
                next_index(before.notebook.selected, 0, notebook.root@.len()),
            )
        },
        _ => after == before,
    }
}

} // verus!
