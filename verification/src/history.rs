//! Undo over the buffer model: every recorded change is taken back by one
//! undo, so a run of operations is taken back by as many undos as it
//! recorded changes.

use crate::buffer::{
    after_text, lemma_copy_wf, lemma_cut_wf, lemma_delete_char_wf, lemma_delete_selection_wf,
    lemma_insert_char_wf, lemma_insert_newline_wf, lemma_insert_yanked_wf, lemma_undo_wf, text_between, with_text,
    without_range, Buffer, Pos, Text,
};
use crate::motion::{lemma_jump_valid, lemma_step_valid};
use crate::step::CursorMove;
use vstd::prelude::*;

verus! {

/// An operation of the text buffer, but for undo and redo.
pub enum Operation {
    Move(CursorMove),
    MoveTo(nat, nat),
    StartSelection,
    CancelSelection,
    Copy,
    Cut,
    InsertChar(char),
    InsertNewline,
    DeleteChar,
    Paste,
}

impl Buffer {
    /// The buffer after one operation.
    pub open spec fn apply(self, op: Operation) -> Buffer {
        match op {
            Operation::Move(m) => self.step(m),
            Operation::MoveTo(row, col) => self.jump(row as int, col as int),
            Operation::StartSelection => self.start_selection(),
            Operation::CancelSelection => self.cancel_selection(),
            Operation::Copy => self.copy(),
            Operation::Cut => self.cut(),
            Operation::InsertChar(c) => self.insert_char(c),
            Operation::InsertNewline => self.insert_newline(),
            Operation::DeleteChar => self.delete_char(),
            Operation::Paste => self.paste(),
        }
    }

    /// The buffer after a run of operations, the first of them first.
    pub open spec fn apply_all(self, ops: Seq<Operation>) -> Buffer
        decreases ops.len(),
    {
        if ops.len() == 0 {
            self
        } else {
            self.apply_all(ops.drop_last()).apply(ops.last())
        }
    }

    /// How many changes one operation makes to the text, and records: one
    /// for selected text that it deletes, and one for what it then puts in
    /// or takes out.
    pub open spec fn changes(self, op: Operation) -> nat {
        let selected: nat = if self.selection() is Some {
            1
        } else {
            0
        };
        match op {
            Operation::Cut => selected,
            Operation::InsertChar(_) | Operation::InsertNewline => selected + 1,
            Operation::DeleteChar => if selected == 1 || self.cursor != (0int, 0int) {
                1
            } else {
                0
            },
            Operation::Paste => if self.nothing_yanked() {
                0
            } else {
                selected + 1
            },
            _ => 0,
        }
    }

    /// How many changes a run of operations makes.
    pub open spec fn changes_all(self, ops: Seq<Operation>) -> nat
        decreases ops.len(),
    {
        if ops.len() == 0 {
            0
        } else {
            self.changes_all(ops.drop_last()) + self.apply_all(ops.drop_last()).changes(ops.last())
        }
    }

    /// The buffer after `k` undos.
    pub open spec fn undo_times(self, k: nat) -> Buffer
        decreases k,
    {
        if k == 0 {
            self
        } else {
            self.undo().undo_times((k - 1) as nat)
        }
    }

    /// Where an undo puts the cursor after the next change to the text: at
    /// the end of the selected text, if there is any, else where it is.
    pub open spec fn cursor_to_restore(self) -> Pos {
        match self.selection() {
            Some((_, end)) => end,
            None => self.cursor,
        }
    }

    /// The text that `k` undos lead back to.
    pub open spec fn text_back(self, k: nat) -> Text {
        if k == 0 {
            self.lines
        } else {
            self.edits[self.applied - k].lines_before
        }
    }

    /// The cursor that `k` undos lead back to, for `k` above 0.
    pub open spec fn cursor_back(self, k: nat) -> Pos {
        self.edits[self.applied - k].cursor_before
    }

    /// The last `k` changes are all in the history, and nothing is left to
    /// redo.
    pub open spec fn holds_last(self, k: nat) -> bool {
        k == 0 || (k <= self.applied && self.edits.len() == self.applied)
    }
}

/// `k` undos, where the history holds that many changes in effect, lead to
/// the text and the cursor from before the `k`th last of them.
pub proof fn lemma_undo_times(b: Buffer, k: nat)
    requires
        b.wf(),
        k <= b.applied,
    ensures
        b.undo_times(k).lines == b.text_back(k),
        k >= 1 ==> b.undo_times(k).cursor == b.cursor_back(k),
        b.undo_times(k).wf(),
    decreases k,
{
    if k >= 1 {
        lemma_undo_wf(b);
        lemma_undo_times(b.undo(), (k - 1) as nat);
    }
}

/// One more change, recorded where the last `k` changes are in the history
/// and one more has room: the last `k + 1` are in the history, and lead
/// back to the same text and cursor; to the text and the cursor before this
/// change if it is the first.
proof fn lemma_edited_back(b: Buffer, lines: Text, cursor: Pos, cursor_before: Pos, k: nat)
    requires
        b.wf(),
        b.holds_last(k),
        k + 1 <= b.limit,
    ensures
        b.edited(lines, cursor, cursor_before).holds_last(k + 1),
        b.edited(lines, cursor, cursor_before).text_back(k + 1) == b.text_back(k),
        b.edited(lines, cursor, cursor_before).cursor_back(k + 1) == if k == 0 {
            cursor_before
        } else {
            b.cursor_back(k)
        },
{
}

/// Deleting the selection keeps what the last `k` changes lead back to, and
/// adds one change if text was selected.
proof fn lemma_delete_selection_back(b: Buffer, keep: bool, k: nat)
    requires
        b.wf(),
        b.holds_last(k),
        k + 1 <= b.limit,
    ensures
        ({
            let after = b.delete_selection(keep);
            let n: nat = if b.selection() is Some {
                k + 1
            } else {
                k
            };
            &&& after.holds_last(n)
            &&& after.text_back(n) == b.text_back(k)
            &&& n >= 1 ==> after.cursor_back(n) == if k == 0 {
                b.cursor_to_restore()
            } else {
                b.cursor_back(k)
            }
            &&& after.selection() is None
            &&& after.cursor_to_restore() == after.cursor
            &&& after.limit == b.limit
            &&& n == k ==> after.cursor == b.cursor
        }),
{
    match b.selection() {
        None => {},
        Some((start, end)) => {
            let c = Buffer {
                anchor: None,
                yank: if keep {
                    text_between(b.lines, start, end)
                } else {
                    b.yank
                },
                ..b
            };
            lemma_edited_back(c, without_range(b.lines, start, end), start, end, k);
        },
    }
}

/// One operation keeps what the last `k` changes lead back to, and adds the
/// changes that it makes.
pub proof fn lemma_apply_back(b: Buffer, op: Operation, k: nat)
    requires
        b.wf(),
        b.holds_last(k),
        k + b.changes(op) <= b.limit,
    ensures
        ({
            let after = b.apply(op);
            let n = k + b.changes(op);
            &&& after.wf()
            &&& after.limit == b.limit
            &&& after.holds_last(n)
            &&& after.text_back(n) == b.text_back(k)
            &&& n >= 1 ==> after.cursor_back(n) == if k == 0 {
                b.cursor_to_restore()
            } else {
                b.cursor_back(k)
            }
        }),
{
    match op {
        Operation::Move(m) => {
            lemma_step_valid(m, b.lines, b.cursor);
        },
        Operation::MoveTo(row, col) => {
            lemma_jump_valid(b.lines, row as int, col as int);
        },
        Operation::StartSelection => {},
        Operation::CancelSelection => {},
        Operation::Copy => {
            lemma_copy_wf(b);
        },
        Operation::Cut => {
            lemma_cut_wf(b);
            if b.selection() is Some {
                lemma_delete_selection_back(b, true, k);
            }
        },
        Operation::InsertChar(_) | Operation::InsertNewline => {
            lemma_insert_newline_wf(b);
            lemma_delete_selection_wf(b, false);
            lemma_delete_selection_back(b, false, k);
            let c = b.delete_selection(false);
            let n: nat = if b.selection() is Some {
                k + 1
            } else {
                k
            };
            let split = c.lines.take(c.row()) + seq![
                c.line().take(c.col()),
                c.line().skip(c.col()),
            ] + c.lines.skip(c.row() + 1);
            lemma_edited_back(c, split, (c.row() + 1, 0), c.cursor, n);
            if let Operation::InsertChar(letter) = op {
                lemma_insert_char_wf(b, letter);
                let line = c.line().take(c.col()).push(letter) + c.line().skip(c.col());
                lemma_edited_back(
                    c,
                    c.lines.update(c.row(), line),
                    (c.row(), c.col() + 1),
                    c.cursor,
                    n,
                );
            }
        },
        Operation::DeleteChar => {
            lemma_delete_char_wf(b);
            if b.selection() is Some {
                lemma_delete_selection_back(b, false, k);
            } else {
                let c = b.cancel_selection();
                if c.col() > 0 {
                    let line = c.line().take(c.col() - 1) + c.line().skip(c.col());
                    lemma_edited_back(
                        c,
                        c.lines.update(c.row(), line),
                        (c.row(), c.col() - 1),
                        c.cursor,
                        k,
                    );
                } else if c.row() > 0 {
                    let above = c.lines[c.row() - 1];
                    let lines = c.lines.take(c.row() - 1) + seq![above + c.line()] + c.lines.skip(
                        c.row() + 1,
                    );
                    lemma_edited_back(c, lines, (c.row() - 1, above.len() as int), c.cursor, k);
                }
            }
        },
        Operation::Paste => {
            if !b.nothing_yanked() {
                lemma_insert_yanked_wf(b);
                lemma_delete_selection_wf(b, false);
                let c = b.delete_selection(false);
                let n: nat = if b.selection() is Some {
                    k + 1
                } else {
                    k
                };
                lemma_delete_selection_back(b, false, k);
                lemma_edited_back(
                    c,
                    with_text(c.lines, c.cursor, c.yank),
                    after_text(c.cursor, c.yank),
                    c.cursor,
                    n,
                );
            }
        },
    }
}

/// A run of operations from a valid buffer, with room in the history for
/// the changes it makes: all of them are in the history, and lead back to
/// the text of the buffer.
pub proof fn lemma_run_back(b: Buffer, ops: Seq<Operation>)
    requires
        b.wf(),
        b.changes_all(ops) <= b.limit,
    ensures
        ({
            let after = b.apply_all(ops);
            let n = b.changes_all(ops);
            &&& after.wf()
            &&& after.limit == b.limit
            &&& after.holds_last(n)
            &&& after.text_back(n) == b.lines
            &&& (ops.len() > 0 && b.changes(ops[0]) >= 1) ==> n >= 1 && after.cursor_back(n)
                == b.cursor_to_restore()
        }),
    decreases ops.len(),
{
    if ops.len() > 0 {
        let before = ops.drop_last();
        lemma_run_back(b, before);
        lemma_apply_back(b.apply_all(before), ops.last(), b.changes_all(before));
    }
}

/// Undo takes a run of operations back: after any run of operations on a
/// valid buffer, as many undos as the run made changes to the text restore
/// the text as it was, provided that the history has room for that many
/// changes.
pub proof fn law_undo_restores_text(b: Buffer, ops: Seq<Operation>)
    requires
        b.wf(),
        b.changes_all(ops) <= b.limit,
    ensures
        b.apply_all(ops).undo_times(b.changes_all(ops)).lines == b.lines,
{
    lemma_run_back(b, ops);
    lemma_undo_times(b.apply_all(ops), b.changes_all(ops));
}

/// Undo restores the cursor too, where the run begins with a change to the
/// text and no selected text ends elsewhere than at the cursor: an undo puts
/// the cursor at the end of text that was selected and deleted.
pub proof fn law_undo_restores_cursor(b: Buffer, ops: Seq<Operation>)
    requires
        b.wf(),
        b.changes_all(ops) <= b.limit,
        ops.len() > 0,
        b.changes(ops[0]) >= 1,
        b.cursor_to_restore() == b.cursor,
    ensures
        b.apply_all(ops).undo_times(b.changes_all(ops)).cursor == b.cursor,
{
    lemma_run_back(b, ops);
    lemma_undo_times(b.apply_all(ops), b.changes_all(ops));
}


/// Every operation of the run makes exactly one change to the text.
pub open spec fn each_changes_once(b: Buffer, ops: Seq<Operation>) -> bool {
    forall|i: int| 0 <= i < ops.len() ==> b.apply_all(ops.take(i)).changes(#[trigger] ops[i]) == 1
}

/// A run of which every operation makes one change makes as many changes as
/// it has operations.
pub proof fn lemma_changes_once(b: Buffer, ops: Seq<Operation>)
    requires
        each_changes_once(b, ops),
    ensures
        b.changes_all(ops) == ops.len(),
    decreases ops.len(),
{
    if ops.len() > 0 {
        let before = ops.drop_last();
        assert forall|i: int| 0 <= i < before.len() implies b.apply_all(before.take(i)).changes(
            #[trigger] before[i],
        ) == 1 by {
            assert(before.take(i) =~= ops.take(i));
        }
        lemma_changes_once(b, before);
    }
}

/// Undo and redo are linear: after a run of operations that each change the
/// text once, as many undos as the run has operations restore the text and
/// the cursor as they were, provided that the history keeps that many
/// changes, and that no selected text ends elsewhere than at the cursor.
pub proof fn law_undo_restores_run(b: Buffer, ops: Seq<Operation>)
    requires
        b.wf(),
        each_changes_once(b, ops),
        ops.len() <= b.limit,
        b.cursor_to_restore() == b.cursor,
    ensures
        b.apply_all(ops).undo_times(ops.len()).lines == b.lines,
        b.apply_all(ops).undo_times(ops.len()).cursor == b.cursor,
{
    lemma_changes_once(b, ops);
    law_undo_restores_text(b, ops);
    if ops.len() > 0 {
        law_undo_restores_cursor(b, ops);
    }
}

} // verus!
