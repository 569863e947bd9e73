//! The notebook as a state machine: every event goes to the rules of the
//! current state, and what needs the database is asked of whoever runs the
//! dispatch, who hands the reply back.

use crate::data::{Directory, Note};
use crate::editing_normal_mode;
use crate::editing_normal_mode::{count_with, idle_outcome, in_state, numbering_outcome, VimState};
use crate::editing_visual_mode;
use crate::editing_visual_mode::visual_outcome;
use crate::error::Error;
use crate::event::{Event, KeyEvent, NotebookEvent, NumKey};
use crate::request::{Reply, Request, Step};
use crate::state::{
    is_step, is_storage, is_wip, wip, InnerState, NotebookState, Pending, SelectedItem,
    VimVisualState, NOT_SHOWN, NO_NOTE, NO_RULE, ROOT_STAYS, WRONG_REPLY,
};
use crate::transition::NotebookTransition;
use crate::tree::{closed_at, directory_from, directory_of, opened_at};
use vstd::prelude::*;
use vstd::string::StringExecFns;

verus! {

/// The browsing state that goes with what is selected.
pub open spec fn browsing_state(selected: SelectedItem) -> InnerState {
    match selected {
        SelectedItem::Note(_) => InnerState::NoteSelected,
        SelectedItem::Directory(_) => InnerState::DirectorySelected,
    }
}

/// The state `after` is `before` but for its current state, with a request
/// to the database under way.
pub open spec fn asks(
    before: NotebookState,
    after: NotebookState,
    result: Result<Step, Error>,
    pending: Pending,
    request: Request,
) -> bool {
    &&& after == NotebookState { pending: Some(pending), ..before }
    &&& is_step(result, Step::Request(request))
}

/// The state `after` is `before` with the current state `inner_state`, and
/// the dispatch ends in `transition`.
pub open spec fn moves(
    before: NotebookState,
    after: NotebookState,
    result: Result<Step, Error>,
    inner_state: InnerState,
    transition: NotebookTransition,
) -> bool {
    &&& after == in_state(before, inner_state)
    &&& is_step(result, Step::Transition(transition))
}

/// Nothing changes, and the dispatch fails for want of a rule or a part.
pub open spec fn refuses(
    before: NotebookState,
    after: NotebookState,
    result: Result<Step, Error>,
    message: &str,
) -> bool {
    after == before && is_wip(result, message)
}

/// What consuming `event` owes while a note or a directory is selected in
/// the tree.
pub open spec fn browsing_outcome(
    before: NotebookState,
    event: Event,
    after: NotebookState,
    result: Result<Step, Error>,
) -> bool {
    match event {
        Event::Notebook(NotebookEvent::SelectNote(note)) => {
            &&& after == NotebookState {
                selected: SelectedItem::Note(note),
                inner_state: InnerState::NoteSelected,
                ..before
            }
            &&& is_step(result, Step::Transition(NotebookTransition::Nothing))
        },
        Event::Notebook(NotebookEvent::SelectDirectory(directory)) => {
            &&& after == NotebookState {
                selected: SelectedItem::Directory(directory),
                inner_state: InnerState::DirectorySelected,
                ..before
            }
            &&& is_step(result, Step::Transition(NotebookTransition::Nothing))
        },
        Event::Notebook(NotebookEvent::OpenDirectory(id)) => match directory_of(before.root@, id@) {
            Some(directory) => asks(
                before,
                after,
                result,
                Pending::OpenDirectory { directory },
                Request::FetchChildren { directory_id: id },
            ),
            None => refuses(before, after, result, NOT_SHOWN),
        },
        Event::Notebook(NotebookEvent::CloseDirectory(id)) => match directory_of(before.root@, id@) {
            Some(directory) => {
                &&& after.root@ == closed_at(before.root@, directory_from(before.root@, id@, 0))
                &&& after.selected == SelectedItem::Directory(directory)
                &&& after.inner_state == InnerState::DirectorySelected
                &&& after.editing == before.editing
                &&& after.pending == before.pending
                &&& is_step(result, Step::Transition(NotebookTransition::CloseDirectory(id)))
            },
            None => refuses(before, after, result, NOT_SHOWN),
        },
        Event::Notebook(NotebookEvent::EditNote) => match before.selected {
            SelectedItem::Note(note) => {
                &&& after == NotebookState {
                    editing: Some(note),
                    inner_state: InnerState::EditingNormalMode(VimState::Idle),
                    ..before
                }
                &&& is_step(result, Step::Transition(NotebookTransition::OpenNote(note)))
            },
            SelectedItem::Directory(_) => refuses(before, after, result, NO_RULE),
        },
        Event::Key(KeyEvent::J) => moves(
            before,
            after,
            result,
            before.inner_state,
            NotebookTransition::SelectNext(1),
        ),
        Event::Key(KeyEvent::K) => moves(
            before,
            after,
            result,
            before.inner_state,
            NotebookTransition::SelectPrev(1),
        ),
        Event::Key(KeyEvent::Num(NumKey::Zero)) => moves(
            before,
            after,
            result,
            before.inner_state,
            NotebookTransition::Inedible(event),
        ),
        Event::Key(KeyEvent::Num(key)) => moves(
            before,
            after,
            result,
            InnerState::NoteTreeNumber(key.digit() as usize),
            NotebookTransition::Nothing,
        ),
        Event::Key(KeyEvent::M) => match before.selected {
            SelectedItem::Note(_) => moves(
                before,
                after,
                result,
                InnerState::NoteMoreActions,
                NotebookTransition::ShowNoteActionsDialog,
            ),
            SelectedItem::Directory(_) => moves(
                before,
                after,
                result,
                InnerState::DirectoryMoreActions,
                NotebookTransition::ShowDirectoryActionsDialog,
            ),
        },
        Event::Key(_) => moves(
            before,
            after,
            result,
            before.inner_state,
            NotebookTransition::Inedible(event),
        ),
        _ => refuses(before, after, result, NO_RULE),
    }
}

/// What consuming `event` owes while the tree takes a count, which has come
/// to `n`.
pub open spec fn tree_number_outcome(
    before: NotebookState,
    n: usize,
    event: Event,
    after: NotebookState,
    result: Result<Step, Error>,
) -> bool {
    let back = browsing_state(before.selected);
    match event {
        Event::Key(KeyEvent::Num(key)) => moves(
            before,
            after,
            result,
            InnerState::NoteTreeNumber(count_with(n as nat, key.digit()) as usize),
            NotebookTransition::Nothing,
        ),
        Event::Key(KeyEvent::J) => moves(
            before,
            after,
            result,
            back,
            NotebookTransition::SelectNext(n),
        ),
        Event::Key(KeyEvent::K) => moves(
            before,
            after,
            result,
            back,
            NotebookTransition::SelectPrev(n),
        ),
        Event::Key(KeyEvent::Esc) => moves(before, after, result, back, NotebookTransition::Nothing),
        Event::Key(_) => moves(
            before,
            after,
            result,
            before.inner_state,
            NotebookTransition::Inedible(event),
        ),
        _ => refuses(before, after, result, NO_RULE),
    }
}

/// What consuming `event` owes while the actions on the selected note are
/// offered.
pub open spec fn note_actions_outcome(
    before: NotebookState,
    event: Event,
    after: NotebookState,
    result: Result<Step, Error>,
) -> bool {
    match (before.selected, event) {
        (_, Event::Key(KeyEvent::Esc)) => moves(
            before,
            after,
            result,
            browsing_state(before.selected),
            NotebookTransition::Nothing,
        ),
        (_, Event::Key(_)) => moves(
            before,
            after,
            result,
            before.inner_state,
            NotebookTransition::Inedible(event),
        ),
        (SelectedItem::Note(note), Event::Notebook(NotebookEvent::RenameNote(name))) => match directory_of(
            before.root@,
            note.directory_id@,
        ) {
            Some(directory) => asks(
                before,
                after,
                result,
                Pending::RenameNote { note, name, directory },
                Request::RenameNote { note_id: note.id, name },
            ),
            None => refuses(before, after, result, NOT_SHOWN),
        },
        (SelectedItem::Note(note), Event::Notebook(NotebookEvent::RemoveNote)) => match directory_of(
            before.root@,
            note.directory_id@,
        ) {
            Some(directory) => asks(
                before,
                after,
                result,
                Pending::RemoveNote { note, directory },
                Request::RemoveNote { note_id: note.id },
            ),
            None => refuses(before, after, result, NOT_SHOWN),
        },
        _ => refuses(before, after, result, NO_RULE),
    }
}

/// What renaming or removing the selected directory owes: the root stays as
/// it is, which an alert says; every other directory needs its parent in
/// the tree.
pub open spec fn directory_change_outcome(
    before: NotebookState,
    directory: Directory,
    after: NotebookState,
    result: Result<Step, Error>,
    rename: Option<String>,
) -> bool {
    match directory.parent_id {
        None => {
            &&& after == in_state(before, InnerState::DirectorySelected)
            &&& result matches Ok(Step::Transition(NotebookTransition::Alert(text))) && text@
                == ROOT_STAYS@
        },
        Some(parent_id) => match directory_of(before.root@, parent_id@) {
            Some(parent) => match rename {
                Some(name) => asks(
                    before,
                    after,
                    result,
                    Pending::RenameDirectory { directory, name, parent },
                    Request::RenameDirectory { directory_id: directory.id, name },
                ),
                None => asks(
                    before,
                    after,
                    result,
                    Pending::RemoveDirectory { directory, parent },
                    Request::RemoveDirectory { directory_id: directory.id },
                ),
            },
            None => refuses(before, after, result, NOT_SHOWN),
        },
    }
}

/// What consuming `event` owes while the actions on the selected directory
/// are offered.
pub open spec fn directory_actions_outcome(
    before: NotebookState,
    event: Event,
    after: NotebookState,
    result: Result<Step, Error>,
) -> bool {
    match (before.selected, event) {
        (_, Event::Key(KeyEvent::Esc)) => moves(
            before,
            after,
            result,
            browsing_state(before.selected),
            NotebookTransition::Nothing,
        ),
        (_, Event::Key(_)) => moves(
            before,
            after,
            result,
            before.inner_state,
            NotebookTransition::Inedible(event),
        ),
        (SelectedItem::Directory(directory), Event::Notebook(NotebookEvent::AddNote(name))) => asks(
            before,
            after,
            result,
            Pending::AddNote { directory },
            Request::AddNote { directory_id: directory.id, name },
        ),
        (
            SelectedItem::Directory(directory),
            Event::Notebook(NotebookEvent::AddDirectory(name)),
        ) => asks(
            before,
            after,
            result,
            Pending::AddDirectory { directory },
            Request::AddDirectory { parent_id: directory.id, name },
        ),
        (
            SelectedItem::Directory(directory),
            Event::Notebook(NotebookEvent::RenameDirectory(name)),
        ) => directory_change_outcome(before, directory, after, result, Some(name)),
        (SelectedItem::Directory(directory), Event::Notebook(NotebookEvent::RemoveDirectory)) => directory_change_outcome(
            before,
            directory,
            after,
            result,
            None,
        ),
        _ => refuses(before, after, result, NO_RULE),
    }
}

/// What consuming `event` owes in insert mode.
pub open spec fn insert_outcome(
    before: NotebookState,
    event: Event,
    after: NotebookState,
    result: Result<Step, Error>,
) -> bool {
    match (before.editing, event) {
        (Some(note), Event::Key(KeyEvent::Esc)) => moves(
            before,
            after,
            result,
            InnerState::EditingNormalMode(VimState::Idle),
            NotebookTransition::ViewMode(note),
        ),
        (Some(note), Event::Notebook(NotebookEvent::UpdateNoteContent(content))) => asks(
            before,
            after,
            result,
            Pending::UpdateNoteContent { content },
            Request::UpdateNoteContent { note_id: note.id, content },
        ),
        (Some(_), Event::Key(_)) => moves(
            before,
            after,
            result,
            before.inner_state,
            NotebookTransition::Inedible(event),
        ),
        (Some(_), _) => refuses(before, after, result, NO_RULE),
        (None, _) => refuses(before, after, result, NO_NOTE),
    }
}

/// What consuming `event` owes, by the current state.
pub open spec fn outcome(
    before: NotebookState,
    event: Event,
    after: NotebookState,
    result: Result<Step, Error>,
) -> bool {
    match before.inner_state {
        InnerState::NoteSelected | InnerState::DirectorySelected => browsing_outcome(
            before,
            event,
            after,
            result,
        ),
        InnerState::NoteTreeNumber(n) => tree_number_outcome(before, n, event, after, result),
        InnerState::NoteMoreActions => note_actions_outcome(before, event, after, result),
        InnerState::DirectoryMoreActions => directory_actions_outcome(before, event, after, result),
        InnerState::EditingNormalMode(VimState::Idle) => idle_outcome(before, event, after, result),
        InnerState::EditingNormalMode(VimState::Numbering(n)) => numbering_outcome(
            before,
            n,
            event,
            after,
            result,
        ),
        InnerState::EditingVisualMode(vim_state) => visual_outcome(
            before,
            vim_state,
            event,
            after,
            result,
        ),
        InnerState::EditingInsertMode => insert_outcome(before, event, after, result),
    }
}

/// The count that the current state is taking, if it takes one.
pub open spec fn count_taken(inner_state: InnerState) -> Option<usize> {
    match inner_state {
        InnerState::NoteTreeNumber(n) => Some(n),
        InnerState::EditingNormalMode(VimState::Numbering(n)) => Some(n),
        InnerState::EditingVisualMode(VimVisualState::Numbering(n)) => Some(n),
        _ => None,
    }
}

/// The event can be consumed: no digit would take a count beyond the
/// largest number that the machine holds.
pub open spec fn count_fits(inner_state: InnerState, event: Event) -> bool {
    count_taken(inner_state) matches Some(n) ==> (event matches Event::Key(KeyEvent::Num(key))
        ==> count_with(n as nat, key.digit()) <= usize::MAX)
}

fn transition(shown: NotebookTransition) -> (result: Result<Step, Error>)
    ensures
        is_step(result, Step::Transition(shown)),
{
    Ok(Step::Transition(shown))
}

impl SelectedItem {
    /// The browsing state that goes with the selection.
    pub fn browsing_state(&self) -> (inner_state: InnerState)
        ensures
            inner_state == browsing_state(*self),
    {
        match self {
            SelectedItem::Note(_) => InnerState::NoteSelected,
            SelectedItem::Directory(_) => InnerState::DirectorySelected,
        }
    }
}

impl NotebookState {
    /// Consumes one event, by the rules of the current state. The dispatch
    /// ends in a transition, or hands out a request to the database, whose
    /// reply `resume` takes. The tree takes a count only from a browsing
    /// state.
    pub fn consume(&mut self, event: Event) -> (result: Result<Step, Error>)
        requires
            old(self).wf(),
            old(self).pending is None,
            count_fits(old(self).inner_state, event),
        ensures
            final(self).wf(),
            outcome(*old(self), event, *final(self), result),
            final(self).inner_state is NoteTreeNumber ==> old(self).inner_state.browsing(),
            final(self).pending is Some == (result matches Ok(Step::Request(_))),
    {
        match self.inner_state {
            InnerState::NoteSelected | InnerState::DirectorySelected => self.consume_browsing(event),
            InnerState::NoteTreeNumber(n) => self.consume_tree_number(n, event),
            InnerState::NoteMoreActions => self.consume_note_actions(event),
            InnerState::DirectoryMoreActions => self.consume_directory_actions(event),
            InnerState::EditingNormalMode(vim_state) => editing_normal_mode::consume(
                self,
                vim_state,
                event,
            ),
            InnerState::EditingVisualMode(vim_state) => editing_visual_mode::consume(
                self,
                vim_state,
                event,
            ),
            InnerState::EditingInsertMode => self.consume_insert(event),
        }
    }

    /// Consumes an event while a note or a directory is selected in the
    /// tree. The digits from 1 to 9 begin a count; the digit 0 begins none
    /// and is inedible.
    pub fn consume_browsing(&mut self, event: Event) -> (result: Result<Step, Error>)
        requires
            old(self).wf(),
            old(self).pending is None,
            old(self).inner_state is NoteSelected || old(self).inner_state is DirectorySelected,
        ensures
            final(self).wf(),
            browsing_outcome(*old(self), event, *final(self), result),
            final(self).pending is Some == (result matches Ok(Step::Request(_))),
    {
        match event {
            Event::Notebook(NotebookEvent::SelectNote(note)) => {
                self.selected = SelectedItem::Note(note);
                self.inner_state = InnerState::NoteSelected;
                transition(NotebookTransition::Nothing)
            },
            Event::Notebook(NotebookEvent::SelectDirectory(directory)) => {
                self.selected = SelectedItem::Directory(directory);
                self.inner_state = InnerState::DirectorySelected;
                transition(NotebookTransition::Nothing)
            },
            Event::Notebook(NotebookEvent::OpenDirectory(id)) => {
                match self.root.directory(&id) {
                    Some(directory) => {
                        self.pending = Some(Pending::OpenDirectory { directory });
                        Ok(Step::Request(Request::FetchChildren { directory_id: id }))
                    },
                    None => wip(NOT_SHOWN),
                }
            },
            Event::Notebook(NotebookEvent::CloseDirectory(id)) => {
                match self.root.directory(&id) {
                    Some(directory) => {
                        self.root.close(&id);
                        self.selected = SelectedItem::Directory(directory);
                        self.inner_state = InnerState::DirectorySelected;
                        transition(NotebookTransition::CloseDirectory(id))
                    },
                    None => wip(NOT_SHOWN),
                }
            },
            Event::Notebook(NotebookEvent::EditNote) => {
                let note = match &self.selected {
                    SelectedItem::Note(note) => note.clone(),
                    SelectedItem::Directory(_) => {
                        return wip(NO_RULE);
                    },
                };
                self.editing = Some(note.clone());
                self.inner_state = InnerState::EditingNormalMode(VimState::Idle);
                transition(NotebookTransition::OpenNote(note))
            },
            Event::Key(KeyEvent::J) => transition(NotebookTransition::SelectNext(1)),
            Event::Key(KeyEvent::K) => transition(NotebookTransition::SelectPrev(1)),
            Event::Key(KeyEvent::Num(NumKey::Zero)) => transition(
                NotebookTransition::Inedible(Event::Key(KeyEvent::Num(NumKey::Zero))),
            ),
            Event::Key(KeyEvent::Num(key)) => {
                self.inner_state = InnerState::NoteTreeNumber(key.value());
                transition(NotebookTransition::Nothing)
            },
            Event::Key(KeyEvent::M) => {
                match &self.selected {
                    SelectedItem::Note(_) => {
                        self.inner_state = InnerState::NoteMoreActions;
                        transition(NotebookTransition::ShowNoteActionsDialog)
                    },
                    SelectedItem::Directory(_) => {
                        self.inner_state = InnerState::DirectoryMoreActions;
                        transition(NotebookTransition::ShowDirectoryActionsDialog)
                    },
                }
            },
            Event::Key(key) => transition(NotebookTransition::Inedible(Event::Key(key))),
            _ => wip(NO_RULE),
        }
    }

    /// Consumes an event while the tree takes a count, which has come to
    /// `n`.
    pub fn consume_tree_number(&mut self, n: usize, event: Event) -> (result: Result<Step, Error>)
        requires
            old(self).wf(),
            old(self).pending is None,
            old(self).inner_state == InnerState::NoteTreeNumber(n),
            event matches Event::Key(KeyEvent::Num(key)) ==> count_with(n as nat, key.digit())
                <= usize::MAX,
        ensures
            final(self).wf(),
            tree_number_outcome(*old(self), n, event, *final(self), result),
            final(self).pending is None,
            result is Ok ==> result matches Ok(Step::Transition(_)),
    {
        match event {
            Event::Key(KeyEvent::Num(key)) => {
                self.inner_state = InnerState::NoteTreeNumber(key.value() + n * 10);
                transition(NotebookTransition::Nothing)
            },
            Event::Key(KeyEvent::J) => {
                self.inner_state = self.selected.browsing_state();
                transition(NotebookTransition::SelectNext(n))
            },
            Event::Key(KeyEvent::K) => {
                self.inner_state = self.selected.browsing_state();
                transition(NotebookTransition::SelectPrev(n))
            },
            Event::Key(KeyEvent::Esc) => {
                self.inner_state = self.selected.browsing_state();
                transition(NotebookTransition::Nothing)
            },
            Event::Key(key) => transition(NotebookTransition::Inedible(Event::Key(key))),
            _ => wip(NO_RULE),
        }
    }

    /// Consumes an event while the actions on the selected note are offered.
    pub fn consume_note_actions(&mut self, event: Event) -> (result: Result<Step, Error>)
        requires
            old(self).wf(),
            old(self).pending is None,
            old(self).inner_state is NoteMoreActions,
        ensures
            final(self).wf(),
            note_actions_outcome(*old(self), event, *final(self), result),
            final(self).pending is Some == (result matches Ok(Step::Request(_))),
    {
        match event {
            Event::Key(KeyEvent::Esc) => {
                self.inner_state = self.selected.browsing_state();
                transition(NotebookTransition::Nothing)
            },
            Event::Key(key) => transition(NotebookTransition::Inedible(Event::Key(key))),
            Event::Notebook(NotebookEvent::RenameNote(name)) => {
                let note = match &self.selected {
                    SelectedItem::Note(note) => note.clone(),
                    SelectedItem::Directory(_) => {
                        return wip(NO_RULE);
                    },
                };
                match self.root.directory(&note.directory_id) {
                    Some(directory) => {
                        let note_id = note.id.clone();
                        self.pending = Some(Pending::RenameNote { note, name: name.clone(), directory });
                        Ok(Step::Request(Request::RenameNote { note_id, name }))
                    },
                    None => wip(NOT_SHOWN),
                }
            },
            Event::Notebook(NotebookEvent::RemoveNote) => {
                let note = match &self.selected {
                    SelectedItem::Note(note) => note.clone(),
                    SelectedItem::Directory(_) => {
                        return wip(NO_RULE);
                    },
                };
                match self.root.directory(&note.directory_id) {
                    Some(directory) => {
                        let note_id = note.id.clone();
                        self.pending = Some(Pending::RemoveNote { note, directory });
                        Ok(Step::Request(Request::RemoveNote { note_id }))
                    },
                    None => wip(NOT_SHOWN),
                }
            },
            _ => wip(NO_RULE),
        }
    }

    fn change_directory(&mut self, directory: Directory, rename: Option<String>) -> (result: Result<
        Step,
        Error,
    >)
        requires
            old(self).wf(),
            old(self).pending is None,
            old(self).selected is Directory,
        ensures
            final(self).wf(),
            directory_change_outcome(*old(self), directory, *final(self), result, rename),
            final(self).pending is Some == (result matches Ok(Step::Request(_))),
    {
        let parent_id = match &directory.parent_id {
            Some(parent_id) => parent_id.clone(),
            None => {
                self.inner_state = InnerState::DirectorySelected;
                return Ok(Step::Transition(NotebookTransition::Alert(String::from_str(ROOT_STAYS))));
            },
        };
        match self.root.directory(&parent_id) {
            Some(parent) => {
                let directory_id = directory.id.clone();
                match rename {
                    Some(name) => {
                        self.pending = Some(
                            Pending::RenameDirectory { directory, name: name.clone(), parent },
                        );
                        Ok(Step::Request(Request::RenameDirectory { directory_id, name }))
                    },
                    None => {
                        self.pending = Some(Pending::RemoveDirectory { directory, parent });
                        Ok(Step::Request(Request::RemoveDirectory { directory_id }))
                    },
                }
            },
            None => wip(NOT_SHOWN),
        }
    }

    /// Consumes an event while the actions on the selected directory are
    /// offered.
    pub fn consume_directory_actions(&mut self, event: Event) -> (result: Result<Step, Error>)
        requires
            old(self).wf(),
            old(self).pending is None,
            old(self).inner_state is DirectoryMoreActions,
        ensures
            final(self).wf(),
            directory_actions_outcome(*old(self), event, *final(self), result),
            final(self).pending is Some == (result matches Ok(Step::Request(_))),
    {
        let directory = match &self.selected {
            SelectedItem::Directory(directory) => directory.clone(),
            SelectedItem::Note(_) => {
                return wip(NO_RULE);
            },
        };
        match event {
            Event::Key(KeyEvent::Esc) => {
                self.inner_state = self.selected.browsing_state();
                transition(NotebookTransition::Nothing)
            },
            Event::Key(key) => transition(NotebookTransition::Inedible(Event::Key(key))),
            Event::Notebook(NotebookEvent::AddNote(name)) => {
                let directory_id = directory.id.clone();
                self.pending = Some(Pending::AddNote { directory });
                Ok(Step::Request(Request::AddNote { directory_id, name }))
            },
            Event::Notebook(NotebookEvent::AddDirectory(name)) => {
                let parent_id = directory.id.clone();
                self.pending = Some(Pending::AddDirectory { directory });
                Ok(Step::Request(Request::AddDirectory { parent_id, name }))
            },
            Event::Notebook(NotebookEvent::RenameDirectory(name)) => self.change_directory(
                directory,
                Some(name),
            ),
            Event::Notebook(NotebookEvent::RemoveDirectory) => self.change_directory(directory, None),
            _ => wip(NO_RULE),
        }
    }

    /// Consumes an event in insert mode.
    pub fn consume_insert(&mut self, event: Event) -> (result: Result<Step, Error>)
        requires
            old(self).wf(),
            old(self).pending is None,
            old(self).inner_state is EditingInsertMode,
        ensures
            final(self).wf(),
            insert_outcome(*old(self), event, *final(self), result),
            final(self).pending is Some == (result matches Ok(Step::Request(_))),
    {
        let note = match &self.editing {
            Some(note) => note.clone(),
            None => {
                return wip(NO_NOTE);
            },
        };
        match event {
            Event::Key(KeyEvent::Esc) => {
                self.inner_state = InnerState::EditingNormalMode(VimState::Idle);
                transition(NotebookTransition::ViewMode(note))
            },
            Event::Notebook(NotebookEvent::UpdateNoteContent(content)) => {
                self.pending = Some(Pending::UpdateNoteContent { content: content.clone() });
                Ok(Step::Request(Request::UpdateNoteContent { note_id: note.id, content }))
            },
            Event::Key(key) => transition(NotebookTransition::Inedible(Event::Key(key))),
            _ => wip(NO_RULE),
        }
    }
}


/// The state `after` shows the directory `directory` open on the children
/// that were fetched, has `selected` selected, and waits for nothing more.
pub open spec fn shows(
    before: NotebookState,
    after: NotebookState,
    directory: Directory,
    notes: Vec<Note>,
    directories: Vec<Directory>,
    selected: SelectedItem,
) -> bool {
    &&& after.root@ == opened_at(
        before.root@,
        directory_from(before.root@, directory.id@, 0),
        notes@,
        directories@,
    )
    &&& after.selected == selected
    &&& after.inner_state == browsing_state(selected)
    &&& after.editing == before.editing
    &&& after.pending is None
}

/// The state `after` waits for `pending`, and is `before` in all else; the
/// children of `directory` are asked for.
pub open spec fn asks_children(
    before: NotebookState,
    after: NotebookState,
    result: Result<Step, Error>,
    pending: Pending,
    directory: Directory,
) -> bool {
    &&& after == NotebookState { pending: Some(pending), ..before }
    &&& is_step(result, Step::Request(Request::FetchChildren { directory_id: directory.id }))
}

/// The directory whose children are fetched again to show what a request
/// has changed, the item to select then, and the transition to end in.
pub open spec fn to_show(pending: Pending) -> Option<(Directory, SelectedItem, NotebookTransition)> {
    match pending {
        Pending::ShowAddedNote { note, directory } => Some(
            (directory, SelectedItem::Note(note), NotebookTransition::AddNote(note)),
        ),
        Pending::ShowAddedDirectory { added, directory } => Some(
            (directory, SelectedItem::Directory(added), NotebookTransition::AddDirectory(added)),
        ),
        Pending::ShowRenamedNote { note, directory } => Some(
            (directory, SelectedItem::Note(note), NotebookTransition::RenameNote(note)),
        ),
        Pending::ShowRenamedDirectory { renamed, parent } => Some(
            (parent, SelectedItem::Directory(renamed), NotebookTransition::RenameDirectory(renamed)),
        ),
        Pending::ShowRemovedNote { note, directory } => Some(
            (
                directory,
                SelectedItem::Directory(directory),
                NotebookTransition::RemoveNote { note, selected_directory: directory },
            ),
        ),
        Pending::ShowRemovedDirectory { directory, parent } => Some(
            (
                parent,
                SelectedItem::Directory(parent),
                NotebookTransition::RemoveDirectory { directory, selected_directory: parent },
            ),
        ),
        _ => None,
    }
}

/// What taking the reply `reply` owes, where the notebook waits for
/// `pending`.
pub open spec fn resume_outcome(
    before: NotebookState,
    pending: Pending,
    reply: Reply,
    after: NotebookState,
    result: Result<Step, Error>,
) -> bool {
    let settled = NotebookState { pending: None, ..before };
    match (pending, reply) {
        (_, Reply::Failed(message)) => after == settled && is_storage(result, message@),
        (Pending::UpdateNoteContent { content }, Reply::Done) => match before.editing {
            Some(note) => {
                let stored = Note { content, ..note };
                &&& after == NotebookState { editing: Some(stored), ..settled }
                &&& is_step(result, Step::Transition(NotebookTransition::UpdateNoteContent(stored)))
            },
            None => after == settled && is_wip(result, NO_NOTE),
        },
        (Pending::OpenDirectory { directory }, Reply::Children { notes, directories }) => {
            if directory_from(before.root@, directory.id@, 0) < before.root@.len() {
                &&& shows(
                    before,
                    after,
                    directory,
                    notes,
                    directories,
                    SelectedItem::Directory(directory),
                )
                &&& is_step(
                    result,
                    Step::Transition(
                        NotebookTransition::OpenDirectory { id: directory.id, notes, directories },
                    ),
                )
            } else {
                after == settled && is_wip(result, NOT_SHOWN)
            }
        },
        (Pending::AddNote { directory }, Reply::Note(note)) => asks_children(
            before,
            after,
            result,
            Pending::ShowAddedNote { note, directory },
            directory,
        ),
        (Pending::AddDirectory { directory }, Reply::Directory(added)) => asks_children(
            before,
            after,
            result,
            Pending::ShowAddedDirectory { added, directory },
            directory,
        ),
        (Pending::RenameNote { note, name, directory }, Reply::Done) => asks_children(
            before,
            after,
            result,
            Pending::ShowRenamedNote { note: Note { name, ..note }, directory },
            directory,
        ),
        (Pending::RenameDirectory { directory, name, parent }, Reply::Done) => asks_children(
            before,
            after,
            result,
            Pending::ShowRenamedDirectory { renamed: Directory { name, ..directory }, parent },
            parent,
        ),
        (Pending::RemoveNote { note, directory }, Reply::Done) => asks_children(
            before,
            after,
            result,
            Pending::ShowRemovedNote { note, directory },
            directory,
        ),
        (Pending::RemoveDirectory { directory, parent }, Reply::Done) => asks_children(
            before,
            after,
            result,
            Pending::ShowRemovedDirectory { directory, parent },
            parent,
        ),
        (_, Reply::Children { notes, directories }) => match to_show(pending) {
            Some((directory, selected, shown)) => {
                if directory_from(before.root@, directory.id@, 0) < before.root@.len() {
                    &&& shows(before, after, directory, notes, directories, selected)
                    &&& is_step(result, Step::Transition(shown))
                } else {
                    after == settled && is_wip(result, NOT_SHOWN)
                }
            },
            None => after == settled && is_wip(result, WRONG_REPLY),
        },
        _ => after == settled && is_wip(result, WRONG_REPLY),
    }
}

impl NotebookState {
    /// Shows `directory` open on the children that were fetched, and selects
    /// `selected`.
    fn show(
        &mut self,
        directory: &Directory,
        notes: &Vec<Note>,
        directories: &Vec<Directory>,
        selected: SelectedItem,
    ) -> (shown: bool)
        requires
            old(self).root.wf(),
            old(self).pending is None,
        ensures
            shown == (directory_from(old(self).root@, directory.id@, 0) < old(self).root@.len()),
            shown ==> shows(*old(self), *final(self), *directory, *notes, *directories, selected),
            shown ==> final(self).root.wf(),
            !shown ==> *final(self) == *old(self),
    {
        if self.root.directory_position(&directory.id).is_none() {
            return false;
        }
        self.root.open(&directory.id, notes, directories);
        self.inner_state = selected.browsing_state();
        self.selected = selected;
        true
    }

    /// Takes the reply of the database to the request that is under way. A
    /// failure of the database comes back as a storage error with its
    /// message. A request that changed the tree is followed by a fetch of
    /// the children of the directory it changed; when they arrive the tree
    /// shows them, the item that the change concerns is selected (after a
    /// removal, the directory that the item lay in), and the dispatch ends
    /// in the transition of the change.
    pub fn resume(&mut self, reply: Reply) -> (result: Result<Step, Error>)
        requires
            old(self).wf(),
            old(self).pending is Some,
        ensures
            final(self).wf(),
            resume_outcome(*old(self), old(self).pending->0, reply, *final(self), result),
            final(self).pending is Some == (result matches Ok(Step::Request(_))),
            final(self).inner_state is NoteTreeNumber ==> old(self).inner_state is NoteTreeNumber,
    {
        let pending = match self.pending.take() {
            Some(pending) => pending,
            None => {
                return wip(WRONG_REPLY);
            },
        };
        match (pending, reply) {
            (_, Reply::Failed(message)) => Err(Error::Storage(message)),
            (Pending::UpdateNoteContent { content }, Reply::Done) => {
                let stored = match &self.editing {
                    Some(note) => Note {
                        id: note.id.clone(),
                        directory_id: note.directory_id.clone(),
                        name: note.name.clone(),
                        content,
                    },
                    None => {
                        return wip(NO_NOTE);
                    },
                };
                self.editing = Some(stored.clone());
                Ok(Step::Transition(NotebookTransition::UpdateNoteContent(stored)))
            },
            (Pending::OpenDirectory { directory }, Reply::Children { notes, directories }) => {
                let selected = SelectedItem::Directory(directory.clone());
                if self.show(&directory, &notes, &directories, selected) {
                    Ok(
                        Step::Transition(
                            NotebookTransition::OpenDirectory { id: directory.id, notes, directories },
                        ),
                    )
                } else {
                    wip(NOT_SHOWN)
                }
            },
            (Pending::AddNote { directory }, Reply::Note(note)) => {
                let directory_id = directory.id.clone();
                self.pending = Some(Pending::ShowAddedNote { note, directory });
                Ok(Step::Request(Request::FetchChildren { directory_id }))
            },
            (Pending::AddDirectory { directory }, Reply::Directory(added)) => {
                let directory_id = directory.id.clone();
                self.pending = Some(Pending::ShowAddedDirectory { added, directory });
                Ok(Step::Request(Request::FetchChildren { directory_id }))
            },
            (Pending::RenameNote { note, name, directory }, Reply::Done) => {
                let directory_id = directory.id.clone();
                let note = Note {
                    id: note.id,
                    directory_id: note.directory_id,
                    name,
                    content: note.content,
                };
                self.pending = Some(Pending::ShowRenamedNote { note, directory });
                Ok(Step::Request(Request::FetchChildren { directory_id }))
            },
            (Pending::RenameDirectory { directory, name, parent }, Reply::Done) => {
                let directory_id = parent.id.clone();
                let renamed = Directory { id: directory.id, parent_id: directory.parent_id, name };
                self.pending = Some(Pending::ShowRenamedDirectory { renamed, parent });
                Ok(Step::Request(Request::FetchChildren { directory_id }))
            },
            (Pending::RemoveNote { note, directory }, Reply::Done) => {
                let directory_id = directory.id.clone();
                self.pending = Some(Pending::ShowRemovedNote { note, directory });
                Ok(Step::Request(Request::FetchChildren { directory_id }))
            },
            (Pending::RemoveDirectory { directory, parent }, Reply::Done) => {
                let directory_id = parent.id.clone();
                self.pending = Some(Pending::ShowRemovedDirectory { directory, parent });
                Ok(Step::Request(Request::FetchChildren { directory_id }))
            },
            (Pending::ShowAddedNote { note, directory }, Reply::Children { notes, directories }) => {
                if self.show(&directory, &notes, &directories, SelectedItem::Note(note.clone())) {
                    Ok(Step::Transition(NotebookTransition::AddNote(note)))
                } else {
                    wip(NOT_SHOWN)
                }
            },
            (
                Pending::ShowAddedDirectory { added, directory },
                Reply::Children { notes, directories },
            ) => {
                if self.show(&directory, &notes, &directories, SelectedItem::Directory(added.clone())) {
                    Ok(Step::Transition(NotebookTransition::AddDirectory(added)))
                } else {
                    wip(NOT_SHOWN)
                }
            },
            (Pending::ShowRenamedNote { note, directory }, Reply::Children { notes, directories }) => {
                if self.show(&directory, &notes, &directories, SelectedItem::Note(note.clone())) {
                    Ok(Step::Transition(NotebookTransition::RenameNote(note)))
                } else {
                    wip(NOT_SHOWN)
                }
            },
            (
                Pending::ShowRenamedDirectory { renamed, parent },
                Reply::Children { notes, directories },
            ) => {
                if self.show(&parent, &notes, &directories, SelectedItem::Directory(renamed.clone())) {
                    Ok(Step::Transition(NotebookTransition::RenameDirectory(renamed)))
                } else {
                    wip(NOT_SHOWN)
                }
            },
            (Pending::ShowRemovedNote { note, directory }, Reply::Children { notes, directories }) => {
                if self.show(
                    &directory,
                    &notes,
                    &directories,
                    SelectedItem::Directory(directory.clone()),
                ) {
                    Ok(
                        Step::Transition(
                            NotebookTransition::RemoveNote { note, selected_directory: directory },
                        ),
                    )
                } else {
                    wip(NOT_SHOWN)
                }
            },
            (
                Pending::ShowRemovedDirectory { directory, parent },
                Reply::Children { notes, directories },
            ) => {
                if self.show(&parent, &notes, &directories, SelectedItem::Directory(parent.clone())) {
                    Ok(
                        Step::Transition(
                            NotebookTransition::RemoveDirectory { directory, selected_directory: parent },
                        ),
                    )
                } else {
                    wip(NOT_SHOWN)
                }
            },
            _ => wip(WRONG_REPLY),
        }
    }
}

} // verus!
