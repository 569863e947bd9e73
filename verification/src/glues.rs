//! The whole machine: the entry screen, and behind it the notebook.

use crate::data::Directory;
use crate::error::Error;
use crate::event::{EntryEvent, Event};
use crate::notebook::{count_fits, outcome, resume_outcome};
use crate::request::{Reply, Request, Step};
use crate::state::{InnerState, NotebookState, SelectedItem, NO_RULE, WRONG_REPLY};
use crate::transition::{EntryTransition, Transition};
use vstd::prelude::*;
use vstd::string::StringExecFns;

verus! {

/// The state of the entry screen. There is one.
#[derive(Clone, Copy, Debug, PartialEq, Eq)]
pub enum EntryState {
    Initial,
}

/// The state of the machine: on the entry screen, or in the notebook.
#[derive(Debug, PartialEq, Eq)]
pub enum State {
    Entry(EntryState),
    Notebook(NotebookState),
}

/// How far a dispatch has come: it ends in a transition, or it needs the
/// database first.
#[derive(Debug, PartialEq, Eq)]
pub enum Dispatch {
    Transition(Transition),
    Request(Request),
}

/// The machine, with the root directory of the notebook that it opens.
#[derive(Debug, PartialEq, Eq)]
pub struct Glues {
    pub root: Directory,
    pub state: State,
}

/// The result of the whole machine comes from the notebook: it is an error,
/// a request, or a transition of the notebook.
pub open spec fn of_notebook(result: Result<Dispatch, Error>) -> bool {
    result matches Ok(Dispatch::Transition(transition)) ==> transition is Notebook
}

/// What the notebook said, where the result of the whole machine comes from
/// the notebook.
pub open spec fn lowered(result: Result<Dispatch, Error>) -> Result<Step, Error> {
    match result {
        Ok(Dispatch::Transition(Transition::Notebook(transition))) => Ok(Step::Transition(transition)),
        Ok(Dispatch::Request(request)) => Ok(Step::Request(request)),
        Err(error) => Err(error),
        _ => arbitrary(),
    }
}

fn lift(inner: Result<Step, Error>) -> (result: Result<Dispatch, Error>)
    ensures
        of_notebook(result),
        lowered(result) == inner,
{
    match inner {
        Ok(Step::Transition(transition)) => Ok(Dispatch::Transition(Transition::Notebook(transition))),
        Ok(Step::Request(request)) => Ok(Dispatch::Request(request)),
        Err(error) => Err(error),
    }
}

impl Glues {
    /// The validity of the machine: that of the notebook, once it is open.
    pub open spec fn wf(&self) -> bool {
        self.state matches State::Notebook(notebook) ==> notebook.wf()
    }

    /// The database has been asked and has not answered yet.
    pub open spec fn waiting(&self) -> bool {
        self.state matches State::Notebook(notebook) && notebook.pending is Some
    }

    /// The event can be consumed: no digit would take a count beyond the
    /// largest number that the machine holds.
    pub open spec fn takes(&self, event: Event) -> bool {
        self.state matches State::Notebook(notebook) ==> count_fits(notebook.inner_state, event)
    }

    /// The machine on its entry screen.
    pub fn new(root: Directory) -> (glues: Glues)
        ensures
            glues.wf(),
            !glues.waiting(),
            glues.root == root,
            glues.state == State::Entry(EntryState::Initial),
    {
        Glues { root, state: State::Entry(EntryState::Initial) }
    }

    /// Dispatches one event. On the entry screen the event that opens the
    /// notebook leads into the notebook, with the root selected; a key is
    /// inedible; anything else has no rule. In the notebook the event goes
    /// to the notebook's rules.
    pub fn dispatch(&mut self, event: Event) -> (result: Result<Dispatch, Error>)
        requires
            old(self).wf(),
            !old(self).waiting(),
            old(self).takes(event),
        ensures
            final(self).wf(),
            final(self).root == old(self).root,
            match old(self).state {
                State::Entry(_) => match event {
                    Event::Entry(EntryEvent::OpenNotebook) => {
                        &&& final(self).state matches State::Notebook(notebook)
                        &&& notebook.root@ == NotebookState::fresh_tree(old(self).root)
                        &&& notebook.selected == SelectedItem::Directory(old(self).root)
                        &&& notebook.editing is None
                        &&& notebook.inner_state == InnerState::DirectorySelected
                        &&& notebook.pending is None
                        &&& result == Ok::<Dispatch, Error>(
                            Dispatch::Transition(Transition::Entry(EntryTransition::OpenNotebook)),
                        )
                    },
                    Event::Key(_) => {
                        &&& final(self).state == old(self).state
                        &&& result == Ok::<Dispatch, Error>(
                            Dispatch::Transition(Transition::Entry(EntryTransition::Inedible(event))),
                        )
                    },
                    _ => {
                        &&& final(self).state == old(self).state
                        &&& result matches Err(Error::Wip(text)) && text@ == NO_RULE@
                    },
                },
                State::Notebook(before) => {
                    &&& final(self).state matches State::Notebook(after)
                    &&& of_notebook(result)
                    &&& outcome(before, event, after, lowered(result))
                },
            },
            final(self).waiting() == (result matches Ok(Dispatch::Request(_))),
    {
        match &mut self.state {
            State::Entry(_) => match event {
                Event::Entry(EntryEvent::OpenNotebook) => {
                    self.state = State::Notebook(NotebookState::new(self.root.clone()));
                    Ok(Dispatch::Transition(Transition::Entry(EntryTransition::OpenNotebook)))
                },
                Event::Key(key) => Ok(
                    Dispatch::Transition(Transition::Entry(EntryTransition::Inedible(Event::Key(key)))),
                ),
                _ => Err(Error::Wip(String::from_str(NO_RULE))),
            },
            State::Notebook(notebook) => {
                let inner = notebook.consume(event);
                lift(inner)
            },
        }
    }

    /// Hands the reply of the database to the notebook, which waits for it.
    pub fn resume(&mut self, reply: Reply) -> (result: Result<Dispatch, Error>)
        requires
            old(self).wf(),
            old(self).waiting(),
        ensures
            final(self).wf(),
            final(self).root == old(self).root,
            of_notebook(result),
            old(self).state matches State::Notebook(before) && final(self).state matches State::Notebook(
                after,
            ) && resume_outcome(before, before.pending->0, reply, after, lowered(result)),
            final(self).waiting() == (result matches Ok(Dispatch::Request(_))),
    {
        match &mut self.state {
            State::Entry(_) => Err(Error::Wip(String::from_str(WRONG_REPLY))),
            State::Notebook(notebook) => {
                let inner = notebook.resume(reply);
                lift(inner)
            },
        }
    }
}

} // verus!
