//! Normal mode: what each event does while a note is open and no text is
//! being typed or selected.

use crate::error::Error;
use crate::event::{Event, KeyEvent, NotebookEvent, NumKey};
use crate::request::{Request, Step};
use crate::state::{
    is_step, is_wip, wip, InnerState, NotebookState, Pending, SelectedItem, VimVisualState, NO_NOTE,
    NO_RULE,
};
use crate::transition::{NormalModeTransition, NotebookTransition, VisualModeTransition};
use vstd::prelude::*;

verus! {

/// The state of normal mode: idle, or taking the digits of a count.
#[derive(Clone, Copy, Debug, PartialEq, Eq)]
pub enum VimState {
    Idle,
    Numbering(usize),
}

/// The count after one more digit: the digits so far, read as a decimal
/// number, with `digit` behind them.
pub open spec fn count_with(count: nat, digit: nat) -> nat {
    digit + count * 10
}

/// The step that ends a dispatch in a transition of normal mode.
pub open spec fn normal(transition: NormalModeTransition) -> Step {
    Step::Transition(NotebookTransition::EditingNormalMode(transition))
}

/// The state with `inner_state` as its current state.
pub open spec fn in_state(state: NotebookState, inner_state: InnerState) -> NotebookState {
    NotebookState { inner_state, ..state }
}

/// What the motion keys of normal mode amount to with count `n`; nothing for
/// every other key.
pub open spec fn motion_of(key: KeyEvent, n: usize) -> Option<NormalModeTransition> {
    match key {
        KeyEvent::J => Some(NormalModeTransition::MoveCursorDown(n)),
        KeyEvent::K => Some(NormalModeTransition::MoveCursorUp(n)),
        KeyEvent::H => Some(NormalModeTransition::MoveCursorBack(n)),
        KeyEvent::L => Some(NormalModeTransition::MoveCursorForward(n)),
        _ => None,
    }
}

/// Consumes an event in normal mode. In the idle state the digits from 1
/// to 9 begin a count, motion keys move by one, and the commands of the notebook select,
/// edit, browse or store; while a count is taken, digits go on with it,
/// motion keys move by it, and escape gives it up. A key without a meaning
/// comes back as inedible, and leaves the state as it is.
pub fn consume(state: &mut NotebookState, vim_state: VimState, event: Event) -> (result: Result<
    Step,
    Error,
>)
    requires
        old(state).pending is None,
        vim_state matches VimState::Numbering(n) ==> (event matches Event::Key(KeyEvent::Num(key))
            ==> count_with(n as nat, key.digit()) <= usize::MAX),
    ensures
        match vim_state {
            VimState::Idle => idle_outcome(*old(state), event, *final(state), result),
            VimState::Numbering(n) => numbering_outcome(
                *old(state),
                n,
                event,
                *final(state),
                result,
            ),
        },
{
    match vim_state {
        VimState::Idle => consume_idle(state, event),
        VimState::Numbering(n) => consume_numbering(state, n, event),
    }
}

/// What consuming `event` in the idle state of normal mode owes: the state
/// `after` and the result `result`, given the state `before`.
pub open spec fn idle_outcome(
    before: NotebookState,
    event: Event,
    after: NotebookState,
    result: Result<Step, Error>,
) -> bool {
    match event {
        Event::Notebook(NotebookEvent::SelectNote(note)) => {
            &&& after == NotebookState {
                selected: SelectedItem::Note(note),
                inner_state: InnerState::NoteSelected,
                ..before
            }
            &&& is_step(result, Step::Transition(NotebookTransition::Nothing))
        },
        Event::Notebook(NotebookEvent::SelectDirectory(directory)) => {
            &&& after == NotebookState {
                selected: SelectedItem::Directory(directory),
                inner_state: InnerState::DirectorySelected,
                ..before
            }
            &&& is_step(result, Step::Transition(NotebookTransition::Nothing))
        },
        Event::Notebook(NotebookEvent::UpdateNoteContent(content)) => match before.editing {
            Some(note) => {
                &&& after == NotebookState {
                    pending: Some(Pending::UpdateNoteContent { content }),
                    ..before
                }
                &&& is_step(
                    result,
                    Step::Request(Request::UpdateNoteContent { note_id: note.id, content }),
                )
            },
            None => after == before && is_wip(result, NO_NOTE),
        },
        Event::Key(KeyEvent::E) | Event::Notebook(NotebookEvent::EditNote) => {
            &&& after == in_state(before, InnerState::EditingInsertMode)
            &&& is_step(result, normal(NormalModeTransition::InsertAtCursor))
        },
        Event::Key(KeyEvent::B) | Event::Notebook(NotebookEvent::BrowseNoteTree) => match before.editing {
            Some(note) => {
                &&& after == NotebookState {
                    selected: SelectedItem::Note(note),
                    inner_state: InnerState::NoteSelected,
                    ..before
                }
                &&& is_step(result, Step::Transition(NotebookTransition::BrowseNoteTree))
            },
            None => after == before && is_wip(result, NO_NOTE),
        },
        Event::Key(KeyEvent::Num(NumKey::Zero)) => {
            &&& after == before
            &&& is_step(result, Step::Transition(NotebookTransition::Inedible(event)))
        },
        Event::Key(KeyEvent::Num(key)) => {
            &&& after == in_state(
                before,
                InnerState::EditingNormalMode(VimState::Numbering(key.digit() as usize)),
            )
            &&& is_step(result, normal(NormalModeTransition::NumberingMode))
        },
        Event::Key(KeyEvent::W) => {
            &&& after == before
            &&& is_step(result, normal(NormalModeTransition::MoveCursorWordForward(1)))
        },
        Event::Key(KeyEvent::V) => {
            &&& after == in_state(before, InnerState::EditingVisualMode(VimVisualState::Idle))
            &&& is_step(
                result,
                Step::Transition(
                    NotebookTransition::EditingVisualMode(VisualModeTransition::IdleMode),
                ),
            )
        },
        Event::Key(key) => {
            &&& after == before
            &&& is_step(
                result,
                match motion_of(key, 1) {
                    Some(motion) => normal(motion),
                    None => Step::Transition(NotebookTransition::Inedible(event)),
                },
            )
        },
        _ => after == before && is_wip(result, NO_RULE),
    }
}

/// What consuming `event` owes while normal mode takes a count, which has
/// come to `n`.
pub open spec fn numbering_outcome(
    before: NotebookState,
    n: usize,
    event: Event,
    after: NotebookState,
    result: Result<Step, Error>,
) -> bool {
    match event {
        Event::Key(KeyEvent::Num(key)) => {
            &&& after == in_state(
                before,
                InnerState::EditingNormalMode(
                    VimState::Numbering(count_with(n as nat, key.digit()) as usize),
                ),
            )
            &&& is_step(result, Step::Transition(NotebookTransition::Nothing))
        },
        Event::Key(KeyEvent::Esc) => {
            &&& after == in_state(before, InnerState::EditingNormalMode(VimState::Idle))
            &&& is_step(result, normal(NormalModeTransition::IdleMode))
        },
        Event::Key(key) => match motion_of(key, n) {
            Some(motion) => {
                &&& after == in_state(before, InnerState::EditingNormalMode(VimState::Idle))
                &&& is_step(result, normal(motion))
            },
            None => {
                &&& after == before
                &&& is_step(result, Step::Transition(NotebookTransition::Inedible(event)))
            },
        },
        _ => after == before && is_wip(result, NO_RULE),
    }
}

fn emit(transition: NormalModeTransition) -> (result: Result<Step, Error>)
    ensures
        is_step(result, normal(transition)),
{
    Ok(Step::Transition(NotebookTransition::EditingNormalMode(transition)))
}

/// Consumes an event in the idle state of normal mode. A digit from 1 to 9
/// begins a count; the digit 0 begins none and is inedible. The motion keys
/// move by one, `w` one word forward, `v` begins a selection, `e` leads to
/// insert mode and `b` back to the tree. Any other key is inedible and
/// leaves the state as it is.
pub fn consume_idle(state: &mut NotebookState, event: Event) -> (result: Result<Step, Error>)
    ensures
        idle_outcome(*old(state), event, *final(state), result),
{
    match event {
        Event::Notebook(NotebookEvent::SelectNote(note)) => {
            state.selected = SelectedItem::Note(note);
            state.inner_state = InnerState::NoteSelected;
            Ok(Step::Transition(NotebookTransition::Nothing))
        },
        Event::Notebook(NotebookEvent::SelectDirectory(directory)) => {
            state.selected = SelectedItem::Directory(directory);
            state.inner_state = InnerState::DirectorySelected;
            Ok(Step::Transition(NotebookTransition::Nothing))
        },
        Event::Notebook(NotebookEvent::UpdateNoteContent(content)) => {
            let note_id = match &state.editing {
                Some(note) => note.id.clone(),
                None => {
                    return wip(NO_NOTE);
                },
            };
            state.pending = Some(Pending::UpdateNoteContent { content: content.clone() });
            Ok(Step::Request(Request::UpdateNoteContent { note_id, content }))
        },
        Event::Key(KeyEvent::E) | Event::Notebook(NotebookEvent::EditNote) => {
            state.inner_state = InnerState::EditingInsertMode;
            emit(NormalModeTransition::InsertAtCursor)
        },
        Event::Key(KeyEvent::B) | Event::Notebook(NotebookEvent::BrowseNoteTree) => {
            let note = match &state.editing {
                Some(note) => note.clone(),
                None => {
                    return wip(NO_NOTE);
                },
            };
            state.selected = SelectedItem::Note(note);
            state.inner_state = InnerState::NoteSelected;
            Ok(Step::Transition(NotebookTransition::BrowseNoteTree))
        },
        Event::Key(KeyEvent::Num(NumKey::Zero)) => Ok(
            Step::Transition(NotebookTransition::Inedible(Event::Key(KeyEvent::Num(NumKey::Zero)))),
        ),
        Event::Key(KeyEvent::Num(key)) => {
            state.inner_state = InnerState::EditingNormalMode(VimState::Numbering(key.value()));
            emit(NormalModeTransition::NumberingMode)
        },
        Event::Key(KeyEvent::J) => emit(NormalModeTransition::MoveCursorDown(1)),
        Event::Key(KeyEvent::K) => emit(NormalModeTransition::MoveCursorUp(1)),
        Event::Key(KeyEvent::H) => emit(NormalModeTransition::MoveCursorBack(1)),
        Event::Key(KeyEvent::L) => emit(NormalModeTransition::MoveCursorForward(1)),
        Event::Key(KeyEvent::W) => emit(NormalModeTransition::MoveCursorWordForward(1)),
        Event::Key(KeyEvent::V) => {
            state.inner_state = InnerState::EditingVisualMode(VimVisualState::Idle);
            Ok(Step::Transition(NotebookTransition::EditingVisualMode(VisualModeTransition::IdleMode)))
        },
        Event::Key(key) => Ok(Step::Transition(NotebookTransition::Inedible(Event::Key(key)))),
        _ => wip(NO_RULE),
    }
}

/// Consumes an event while normal mode takes a count, which has come to
/// `n`. A digit, 0 too, goes behind the digits so far; a motion key moves by
/// the count and ends it; escape gives it up. Any other key is inedible and
/// leaves the count as it is.
pub fn consume_numbering(state: &mut NotebookState, n: usize, event: Event) -> (result: Result<
    Step,
    Error,
>)
    requires
        event matches Event::Key(KeyEvent::Num(key)) ==> count_with(n as nat, key.digit())
            <= usize::MAX,
    ensures
        numbering_outcome(*old(state), n, event, *final(state), result),
{
    match event {
        Event::Key(KeyEvent::Num(key)) => {
            state.inner_state = InnerState::EditingNormalMode(
                VimState::Numbering(key.value() + n * 10),
            );
            Ok(Step::Transition(NotebookTransition::Nothing))
        },
        Event::Key(KeyEvent::J) => {
            state.inner_state = InnerState::EditingNormalMode(VimState::Idle);
            emit(NormalModeTransition::MoveCursorDown(n))
        },
        Event::Key(KeyEvent::K) => {
            state.inner_state = InnerState::EditingNormalMode(VimState::Idle);
            emit(NormalModeTransition::MoveCursorUp(n))
        },
        Event::Key(KeyEvent::H) => {
            state.inner_state = InnerState::EditingNormalMode(VimState::Idle);
            emit(NormalModeTransition::MoveCursorBack(n))
        },
        Event::Key(KeyEvent::L) => {
            state.inner_state = InnerState::EditingNormalMode(VimState::Idle);
            emit(NormalModeTransition::MoveCursorForward(n))
        },
        Event::Key(KeyEvent::Esc) => {
            state.inner_state = InnerState::EditingNormalMode(VimState::Idle);
            emit(NormalModeTransition::IdleMode)
        },
        Event::Key(key) => Ok(Step::Transition(NotebookTransition::Inedible(Event::Key(key)))),
        _ => wip(NO_RULE),
    }
}

} // verus!
