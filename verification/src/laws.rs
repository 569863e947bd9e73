//! What holds of the editing commands whatever the buffer is.

use crate::buffer::{
    lemma_cut_wf, min, pos_valid, text_between, with_text, without_range, Buffer, Pos,
};
use crate::editor::EditorView;
use crate::transition::NormalModeTransition;
use crate::command::at_least_one;
use crate::motion::first_non_blank;
use crate::step::{step_target, CursorMove};
use vstd::prelude::*;

verus! {

/// How many lines a command with count `n` takes from the cursor's line
/// down: the count, a count of 0 standing for 1, or as many as there are.
pub open spec fn lines_taken(b: Buffer, n: nat) -> int {
    if b.row() + at_least_one(n) <= b.lines.len() {
        at_least_one(n) as int
    } else {
        b.lines.len() - b.row()
    }
}

/// Yanking lines leaves the text, the cursor and the history as they are,
/// gives up the selection, and makes the lines taken the yanked text: one
/// empty piece, where they are one empty line.
pub proof fn law_yank_lines(b: Buffer, n: nat)
    requires
        b.wf(),
    ensures
        b.yank_lines(n) == (Buffer {
            anchor: None,
            yank: b.lines.subrange(b.row(), b.row() + lines_taken(b, n)),
            ..b
        }),
{
    let k = lines_taken(b, n);
    let r = b.row();
    let selected = b.select_lines(n);
    let last = r + k - 1;
    if k == 1 && b.line().len() == 0 {
        assert(b.lines[r] =~= Seq::<char>::empty());
        assert(seq![Seq::<char>::empty()] =~= b.lines.subrange(r, r + 1));
    } else {
        let taken = text_between(b.lines, (r, 0int), selected.cursor);
        if k == 1 {
            assert(b.lines[r].subrange(0, b.lines[r].len() as int) =~= b.lines[r]);
            assert(taken =~= b.lines.subrange(r, r + 1));
        } else {
            assert(b.lines[r].skip(0) =~= b.lines[r]);
            assert(b.lines[last].take(b.lines[last].len() as int) =~= b.lines[last]);
            assert(taken =~= b.lines.subrange(r, r + k));
        }
    }
}

/// Pasting yanked lines, with no selection being made, puts the yanked text
/// as lines of its own right below the cursor's line, and leaves every
/// other line as it is. The cursor goes to the last of the new lines, on its
/// first character that is no white space.
pub proof fn law_paste_lines(b: Buffer)
    requires
        b.wf(),
        b.anchor is None,
    ensures
        b.paste_lines().lines == b.lines.take(b.row() + 1) + b.yank + b.lines.skip(b.row() + 1),
        b.paste_lines().cursor == (
            b.row() + b.yank.len(),
            first_non_blank(b.yank.last()),
        ),
        b.paste_lines().yank == b.yank,
        b.paste_lines().anchor is None,
{
    let r = b.row();
    let opened = b.open_line_below();
    let ended = b.step(CursorMove::End);
    let c = ended.delete_selection(false);
    let split = c.lines.take(r) + seq![c.line().take(c.col()), c.line().skip(c.col())]
        + c.lines.skip(r + 1);
    assert(c.line().take(c.col()) =~= b.lines[r]);
    assert(c.line().skip(c.col()) =~= Seq::<char>::empty());
    assert(opened.lines == split);
    assert(opened.cursor == (r + 1, 0int));
    let expected = b.lines.take(r + 1) + b.yank + b.lines.skip(r + 1);
    if !b.nothing_yanked() {
        let put = with_text(split, (r + 1, 0int), b.yank);
        assert(split[r + 1].take(0) =~= Seq::<char>::empty());
        assert(split[r + 1].skip(0) =~= Seq::<char>::empty());
        assert(put =~= expected);
    }
}

/// Yank and paste: after `n` lines were yanked from buffer `b`, a paste of
/// lines in a buffer `later` that holds the same text and the same yanked
/// text, with the cursor on any line of it and no selection being made,
/// puts those lines, as they were, right below the cursor's line, and
/// leaves every other line in its place.
pub proof fn law_yank_then_paste(b: Buffer, n: nat, later: Buffer)
    requires
        b.wf(),
        later.wf(),
        later.lines == b.yank_lines(n).lines,
        later.yank == b.yank_lines(n).yank,
        later.anchor is None,
    ensures
        later.paste_lines().lines == b.lines.take(later.row() + 1) + b.lines.subrange(
            b.row(),
            b.row() + lines_taken(b, n),
        ) + b.lines.skip(later.row() + 1),
{
    law_yank_lines(b, n);
    law_paste_lines(later);
}

/// The round trip of yank and paste in normal mode: after the transition
/// that yanks `n` lines, with the cursor moved to any place `at` of the
/// text, the transition that pastes puts the lines yanked, as they were,
/// right below the cursor's line. Every other line keeps its text and its
/// place among the others, the text grows by as many lines as were yanked,
/// and the cursor goes to the last of the new lines, onto its first
/// character that is no white space.
pub proof fn law_yank_paste_round_trip(editor: EditorView, n: usize, at: Pos)
    requires
        editor.wf(),
        pos_valid(editor.buffer.lines, at),
    ensures
        ({
            let lines = editor.buffer.lines;
            let row = editor.buffer.row();
            let taken = lines.subrange(row, row + lines_taken(editor.buffer, n as nat));
            let yanked = editor.normal(NormalModeTransition::YankLines(n));
            let moved = yanked.with(yanked.buffer.at(at));
            let pasted = moved.normal(NormalModeTransition::Paste);
            &&& yanked.buffer.lines == lines
            &&& pasted.buffer.lines == lines.take(at.0 + 1) + taken + lines.skip(at.0 + 1)
            &&& pasted.buffer.lines.len() == lines.len() + taken.len()
            &&& pasted.buffer.cursor == (at.0 + taken.len(), first_non_blank(taken.last()))
        }),
{
    let b = editor.buffer;
    law_yank_lines(b, n as nat);
    let later = b.yank_lines(n as nat).at(at);
    law_paste_lines(later);
}

/// A new line below: with no selection being made, the text gets one empty
/// line right below the cursor's line, and the cursor goes to it. Every
/// other line stays as it is.
pub proof fn law_open_line_below(b: Buffer)
    requires
        b.wf(),
        b.anchor is None,
    ensures
        b.open_line_below().lines == b.lines.take(b.row() + 1) + seq![Seq::<char>::empty()]
            + b.lines.skip(b.row() + 1),
        b.open_line_below().cursor == (b.row() + 1, 0int),
        b.open_line_below().yank == b.yank,
        b.open_line_below().anchor is None,
{
    let r = b.row();
    let c = b.step(CursorMove::End).delete_selection(false);
    assert(c.line().take(c.col()) =~= b.lines[r]);
    assert(c.line().skip(c.col()) =~= Seq::<char>::empty());
}

/// A new line above: with no selection being made, the text gets one empty
/// line right above the cursor's line, and the cursor goes to it. Every
/// other line stays as it is.
pub proof fn law_open_line_above(b: Buffer)
    requires
        b.wf(),
        b.anchor is None,
    ensures
        b.open_line_above().lines == b.lines.take(b.row()) + seq![Seq::<char>::empty()]
            + b.lines.skip(b.row()),
        b.open_line_above().cursor == (b.row(), 0int),
        b.open_line_above().yank == b.yank,
        b.open_line_above().anchor is None,
{
    let r = b.row();
    let c = b.step(CursorMove::Head).delete_selection(false);
    assert(c.line().take(c.col()) =~= Seq::<char>::empty());
    assert(c.line().skip(c.col()) =~= b.lines[r]);
}

/// The text without the `k` lines from row `r` on; one empty line where
/// that leaves none.
pub open spec fn without_lines(lines: Seq<Seq<char>>, r: int, k: int) -> Seq<Seq<char>> {
    if k >= lines.len() {
        seq![Seq::<char>::empty()]
    } else {
        lines.take(r) + lines.skip(r + k)
    }
}

/// Cutting `n` lines out leaves one empty line in their place, with the
/// cursor on it and no selection, and makes them the yanked text: one empty
/// piece, where they are one empty line.
pub proof fn law_delete_lines_and_insert(b: Buffer, n: nat)
    requires
        b.wf(),
    ensures
        ({
            let k = lines_taken(b, n);
            let cut = b.delete_lines_and_insert(n);
            &&& cut.lines == b.lines.take(b.row()) + seq![Seq::<char>::empty()] + b.lines.skip(
                b.row() + k,
            )
            &&& cut.cursor == (b.row(), 0int)
            &&& cut.yank == b.lines.subrange(b.row(), b.row() + k)
            &&& cut.anchor is None
            &&& cut.wf()
        }),
{
    let k = lines_taken(b, n);
    let r = b.row();
    let last = r + k - 1;
    let selected = b.select_lines(n);
    let gap = b.lines.take(r) + seq![Seq::<char>::empty()] + b.lines.skip(r + k);
    assert(selected.wf());
    if k == 1 && b.line().len() == 0 {
        assert(b.lines[r] =~= Seq::<char>::empty());
        assert(seq![Seq::<char>::empty()] =~= b.lines.subrange(r, r + 1));
        assert(selected.lines =~= gap);
    } else {
        lemma_cut_wf(selected);
        let taken = text_between(b.lines, (r, 0int), selected.cursor);
        let cut = without_range(b.lines, (r, 0int), selected.cursor);
        assert(b.lines[r].take(0) + b.lines[last].skip(b.lines[last].len() as int)
            =~= Seq::<char>::empty());
        assert(cut =~= gap);
        if k == 1 {
            assert(b.lines[r].subrange(0, b.lines[r].len() as int) =~= b.lines[r]);
            assert(taken =~= b.lines.subrange(r, r + 1));
        } else {
            assert(b.lines[r].skip(0) =~= b.lines[r]);
            assert(b.lines[last].take(b.lines[last].len() as int) =~= b.lines[last]);
            assert(taken =~= b.lines.subrange(r, r + k));
        }
    }
}

/// Deleting lines takes the lines out with their line breaks, and makes
/// them the yanked text: one empty piece, where they are one empty line.
/// The cursor goes to the line that takes their place, or to the last line
/// if they were the last, onto its first character that is no white space.
/// No selection is left.
pub proof fn law_delete_lines(b: Buffer, n: nat)
    requires
        b.wf(),
    ensures
        ({
            let k = lines_taken(b, n);
            let left = without_lines(b.lines, b.row(), k);
            let row = if b.row() < left.len() {
                b.row()
            } else {
                left.len() - 1
            };
            &&& b.delete_lines(n).lines == left
            &&& b.delete_lines(n).cursor == (row, first_non_blank(left[row]))
            &&& b.delete_lines(n).yank == b.lines.subrange(b.row(), b.row() + k)
            &&& b.delete_lines(n).anchor is None
        }),
{
    let k = lines_taken(b, n);
    let r = b.row();
    law_delete_lines_and_insert(b, n);
    let emptied = b.delete_lines_and_insert(n);
    let gap = emptied.lines;
    let left = without_lines(b.lines, r, k);
    if r == 0 {
        let down = emptied.step(CursorMove::Down).step(CursorMove::Head);
        let joined = down.delete_char();
        if gap.len() > 1 {
            assert(gap[0] + gap[1] =~= gap[1]);
            assert(gap.take(0) + seq![gap[0] + gap[1]] + gap.skip(2) =~= left);
            assert(joined.lines == left);
        } else {
            assert(gap =~= left);
        }
    } else {
        let joined = emptied.delete_char();
        assert(gap[r - 1] + gap[r] =~= b.lines[r - 1]);
        assert(gap.take(r - 1) + seq![gap[r - 1] + gap[r]] + gap.skip(r + 1) =~= left);
        assert(joined.lines == left);
    }
}

/// The selection made anew for yanking reaches from the earlier of anchor
/// and cursor to one step past the later of them; the text stays.
pub proof fn law_reselect_for_yank(b: Buffer)
    requires
        b.wf(),
    ensures
        b.reselect_for_yank() == match b.selection_range() {
            Some((begin, end)) => Buffer {
                anchor: Some(begin),
                cursor: step_target(CursorMove::Forward, b.lines, end),
                ..b
            },
            None => b,
        },
{
}

/// The text with the characters of line `row` from column `from` up to
/// column `to` taken out.
pub open spec fn without_chars(lines: Seq<Seq<char>>, row: int, from: int, to: int) -> Seq<
    Seq<char>,
> {
    lines.update(row, lines[row].take(from) + lines[row].skip(to))
}

/// Deleting characters cuts `n` characters out of the cursor's line, from
/// the cursor on, a count of 0 standing for 1, and at most as many as the
/// line has from there. They become the yanked text, and the cursor stays.
/// At the end of the line nothing is cut and nothing yanked.
pub proof fn law_delete_chars(b: Buffer, n: nat)
    requires
        b.wf(),
    ensures
        ({
            let to = min(b.col() + at_least_one(n), b.line().len() as int);
            &&& b.delete_chars(n).lines == without_chars(b.lines, b.row(), b.col(), to)
            &&& b.delete_chars(n).cursor == b.cursor
            &&& b.delete_chars(n).anchor is None
            &&& b.delete_chars(n).yank == if to == b.col() {
                b.yank
            } else {
                seq![b.line().subrange(b.col(), to)]
            }
        }),
{
    let to = min(b.col() + at_least_one(n), b.line().len() as int);
    if to == b.col() {
        assert(b.line().take(b.col()) + b.line().skip(to) =~= b.line());
    }
}

/// Deleting to the start of the line cuts the text out from the head of the
/// line up to the cursor, makes it the yanked text, and puts the cursor at
/// the head. At the head of the line nothing is cut and nothing yanked.
pub proof fn law_delete_line_start(b: Buffer)
    requires
        b.wf(),
    ensures
        b.delete_line_start().lines == without_chars(b.lines, b.row(), 0, b.col()),
        b.delete_line_start().cursor == (b.row(), 0int),
        b.delete_line_start().anchor is None,
        b.delete_line_start().yank == if b.col() == 0 {
            b.yank
        } else {
            seq![b.line().subrange(0, b.col())]
        },
{
    if b.col() == 0 {
        assert(b.line().take(0) + b.line().skip(0) =~= b.line());
    }
}

/// Deleting to the end of the line, with a count of 0 or 1, cuts the text
/// out from the cursor to the end of the line, makes it the yanked text,
/// and leaves the cursor where it is. At the end of the line nothing is cut
/// and nothing yanked.
pub proof fn law_delete_line_end(b: Buffer, n: nat)
    requires
        b.wf(),
        n <= 1,
    ensures
        b.delete_line_end(n).lines == without_chars(
            b.lines,
            b.row(),
            b.col(),
            b.line().len() as int,
        ),
        b.delete_line_end(n).cursor == b.cursor,
        b.delete_line_end(n).anchor is None,
        b.delete_line_end(n).yank == if b.col() == b.line().len() {
            b.yank
        } else {
            seq![b.line().subrange(b.col(), b.line().len() as int)]
        },
{
    let len = b.line().len() as int;
    if b.col() == len {
        assert(b.line().take(len) + b.line().skip(len) =~= b.line());
    }
}

} // verus!
