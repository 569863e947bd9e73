//! Visual mode: what each event does while text is being selected.

use crate::editing_normal_mode::{count_with, in_state, VimState};
use crate::error::Error;
use crate::event::{Event, KeyEvent, NumKey};
use crate::request::Step;
use crate::state::{is_step, is_wip, wip, InnerState, NotebookState, VimVisualState, NO_RULE};
use crate::transition::{NormalModeTransition, NotebookTransition, VisualModeTransition};
use vstd::prelude::*;

verus! {

/// The step that ends a dispatch in a transition of visual mode.
pub open spec fn visual(transition: VisualModeTransition) -> Step {
    Step::Transition(NotebookTransition::EditingVisualMode(transition))
}

/// What the motion keys of visual mode amount to with count `n`; nothing for
/// every other key.
pub open spec fn visual_motion_of(key: KeyEvent, n: usize) -> Option<VisualModeTransition> {
    match key {
        KeyEvent::J => Some(VisualModeTransition::MoveCursorDown(n)),
        KeyEvent::K => Some(VisualModeTransition::MoveCursorUp(n)),
        KeyEvent::H => Some(VisualModeTransition::MoveCursorBack(n)),
        KeyEvent::L => Some(VisualModeTransition::MoveCursorForward(n)),
        KeyEvent::W => Some(VisualModeTransition::MoveCursorWordForward(n)),
        _ => None,
    }
}

/// What consuming `event` in visual mode owes.
pub open spec fn visual_outcome(
    before: NotebookState,
    vim_state: VimVisualState,
    event: Event,
    after: NotebookState,
    result: Result<Step, Error>,
) -> bool {
    let normal_idle = in_state(before, InnerState::EditingNormalMode(VimState::Idle));
    let visual_idle = in_state(before, InnerState::EditingVisualMode(VimVisualState::Idle));
    match (vim_state, event) {
        (VimVisualState::Idle, Event::Key(KeyEvent::Num(NumKey::Zero))) => {
            &&& after == before
            &&& is_step(result, Step::Transition(NotebookTransition::Inedible(event)))
        },
        (VimVisualState::Idle, Event::Key(KeyEvent::Num(key))) => {
            &&& after == in_state(
                before,
                InnerState::EditingVisualMode(VimVisualState::Numbering(key.digit() as usize)),
            )
            &&& is_step(result, visual(VisualModeTransition::NumberingMode))
        },
        (VimVisualState::Numbering(n), Event::Key(KeyEvent::Num(key))) => {
            &&& after == in_state(
                before,
                InnerState::EditingVisualMode(
                    VimVisualState::Numbering(count_with(n as nat, key.digit()) as usize),
                ),
            )
            &&& is_step(result, Step::Transition(NotebookTransition::Nothing))
        },
        (VimVisualState::Idle, Event::Key(KeyEvent::Esc)) => {
            &&& after == normal_idle
            &&& is_step(
                result,
                Step::Transition(NotebookTransition::EditingNormalMode(NormalModeTransition::IdleMode)),
            )
        },
        (VimVisualState::Numbering(_), Event::Key(KeyEvent::Esc)) => {
            &&& after == visual_idle
            &&& is_step(result, Step::Transition(NotebookTransition::Nothing))
        },
        (VimVisualState::Idle, Event::Key(KeyEvent::Y)) => {
            &&& after == normal_idle
            &&& is_step(result, visual(VisualModeTransition::YankSelection))
        },
        (VimVisualState::Idle, Event::Key(KeyEvent::D)) => {
            &&& after == normal_idle
            &&& is_step(result, visual(VisualModeTransition::DeleteSelection))
        },
        (VimVisualState::Idle, Event::Key(KeyEvent::C)) => {
            &&& after == in_state(before, InnerState::EditingInsertMode)
            &&& is_step(result, visual(VisualModeTransition::DeleteSelectionAndInsertMode))
        },
        (_, Event::Key(key)) => {
            let n = match vim_state {
                VimVisualState::Idle => 1usize,
                VimVisualState::Numbering(n) => n,
            };
            match visual_motion_of(key, n) {
                Some(motion) => after == visual_idle && is_step(result, visual(motion)),
                None => {
                    &&& after == before
                    &&& is_step(result, Step::Transition(NotebookTransition::Inedible(event)))
                },
            }
        },
        _ => after == before && is_wip(result, NO_RULE),
    }
}

fn emit(transition: VisualModeTransition) -> (result: Result<Step, Error>)
    ensures
        is_step(result, visual(transition)),
{
    Ok(Step::Transition(NotebookTransition::EditingVisualMode(transition)))
}

/// Consumes an event in visual mode. The digits from 1 to 9 begin a count,
/// and every digit goes on with one; the digit 0 begins none and is
/// inedible. Motion keys move the live end of the selection, by one or by
/// the count that was taken; yanking and deleting lead back to normal mode,
/// changing leads to insert mode, and escape gives the selection up and
/// leads back to normal mode.
pub fn consume(state: &mut NotebookState, vim_state: VimVisualState, event: Event) -> (result:
    Result<Step, Error>)
    requires
        vim_state matches VimVisualState::Numbering(n) ==> (event matches Event::Key(
            KeyEvent::Num(key),
        ) ==> count_with(n as nat, key.digit()) <= usize::MAX),
    ensures
        visual_outcome(*old(state), vim_state, event, *final(state), result),
{
    let n = match vim_state {
        VimVisualState::Idle => 1,
        VimVisualState::Numbering(n) => n,
    };
    let idle = match vim_state {
        VimVisualState::Idle => true,
        VimVisualState::Numbering(_) => false,
    };
    match event {
        Event::Key(KeyEvent::Num(key)) => {
            if idle {
                match key {
                    NumKey::Zero => Ok(
                        Step::Transition(NotebookTransition::Inedible(Event::Key(KeyEvent::Num(key)))),
                    ),
                    _ => {
                        state.inner_state = InnerState::EditingVisualMode(
                            VimVisualState::Numbering(key.value()),
                        );
                        emit(VisualModeTransition::NumberingMode)
                    },
                }
            } else {
                state.inner_state = InnerState::EditingVisualMode(
                    VimVisualState::Numbering(key.value() + n * 10),
                );
                Ok(Step::Transition(NotebookTransition::Nothing))
            }
        },
        Event::Key(KeyEvent::Esc) => {
            if idle {
                state.inner_state = InnerState::EditingNormalMode(VimState::Idle);
                Ok(Step::Transition(NotebookTransition::EditingNormalMode(NormalModeTransition::IdleMode)))
            } else {
                state.inner_state = InnerState::EditingVisualMode(VimVisualState::Idle);
                Ok(Step::Transition(NotebookTransition::Nothing))
            }
        },
        Event::Key(KeyEvent::J) => {
            state.inner_state = InnerState::EditingVisualMode(VimVisualState::Idle);
            emit(VisualModeTransition::MoveCursorDown(n))
        },
        Event::Key(KeyEvent::K) => {
            state.inner_state = InnerState::EditingVisualMode(VimVisualState::Idle);
            emit(VisualModeTransition::MoveCursorUp(n))
        },
        Event::Key(KeyEvent::H) => {
            state.inner_state = InnerState::EditingVisualMode(VimVisualState::Idle);
            emit(VisualModeTransition::MoveCursorBack(n))
        },
        Event::Key(KeyEvent::L) => {
            state.inner_state = InnerState::EditingVisualMode(VimVisualState::Idle);
            emit(VisualModeTransition::MoveCursorForward(n))
        },
        Event::Key(KeyEvent::W) => {
            state.inner_state = InnerState::EditingVisualMode(VimVisualState::Idle);
            emit(VisualModeTransition::MoveCursorWordForward(n))
        },
        Event::Key(key) => {
            if idle {
                match key {
                    KeyEvent::Y => {
                        state.inner_state = InnerState::EditingNormalMode(VimState::Idle);
                        return emit(VisualModeTransition::YankSelection);
                    },
                    KeyEvent::D => {
                        state.inner_state = InnerState::EditingNormalMode(VimState::Idle);
                        return emit(VisualModeTransition::DeleteSelection);
                    },
                    KeyEvent::C => {
                        state.inner_state = InnerState::EditingInsertMode;
                        return emit(VisualModeTransition::DeleteSelectionAndInsertMode);
                    },
                    _ => {},
                }
            }
            Ok(Step::Transition(NotebookTransition::Inedible(Event::Key(key))))
        },
        _ => wip(NO_RULE),
    }
}

} // verus!
