//! Texts as sequences of lines: how a content falls into lines, and how
//! lines join into a content.

use crate::buffer::{text_clean, Pos, Text};
use vstd::prelude::*;

verus! {

/// The index of the first line feed in a text; the length of the text if
/// it holds none.
pub open spec fn first_line_feed(content: Seq<char>) -> nat
    decreases content.len(),
{
    if content.len() == 0 || content[0] == '\n' {
        0
    } else {
        1 + first_line_feed(content.skip(1))
    }
}

/// A line without the carriage return at its end, if it has one there.
pub open spec fn without_return(line: Seq<char>) -> Seq<char> {
    if line.len() > 0 && line.last() == '\r' {
        line.drop_last()
    } else {
        line
    }
}

/// The lines of a text. A line ends with a line feed, or with a carriage
/// return and a line feed, neither of which belongs to the line; the text
/// after the last line feed is a line of its own, unless it is empty.
pub open spec fn content_lines(content: Seq<char>) -> Seq<Seq<char>>
    decreases content.len(),
{
    if content.len() == 0 {
        Seq::empty()
    } else {
        let end = first_line_feed(content);
        if end >= content.len() {
            seq![content]
        } else {
            seq![without_return(content.take(end as int))] + content_lines(
                content.skip(end as int + 1),
            )
        }
    }
}

/// The pieces that the line feeds of a text part it into, each without the
/// carriage return at its end, if it has one there. A text without a line
/// feed is one piece, an empty text one empty piece.
pub open spec fn pieces(content: Seq<char>) -> Seq<Seq<char>>
    decreases content.len(),
{
    let end = first_line_feed(content);
    if end >= content.len() {
        seq![without_return(content)]
    } else {
        seq![without_return(content.take(end as int))] + pieces(content.skip(end as int + 1))
    }
}

/// The first line feed lies in the text or at its end, and no line feed
/// lies before it.
pub proof fn lemma_first_line_feed(content: Seq<char>)
    ensures
        0 <= first_line_feed(content) <= content.len(),
        first_line_feed(content) < content.len() ==> content[first_line_feed(content) as int]
            == '\n',
        forall|i: int| 0 <= i < first_line_feed(content) ==> content[i] != '\n',
    decreases content.len(),
{
    if !(content.len() == 0 || content[0] == '\n') {
        lemma_first_line_feed(content.skip(1));
        assert forall|i: int| 0 <= i < first_line_feed(content) implies content[i] != '\n' by {
            if i > 0 {
                assert(content.skip(1)[i - 1] == content[i]);
            }
        }
    }
}

/// No line of a text holds a line feed.
pub proof fn lemma_content_lines_clean(content: Seq<char>)
    ensures
        text_clean(content_lines(content)),
    decreases content.len(),
{
    if content.len() > 0 {
        lemma_first_line_feed(content);
        let end = first_line_feed(content);
        if end < content.len() {
            lemma_content_lines_clean(content.skip(end as int + 1));
            let first = without_return(content.take(end as int));
            let rest = content_lines(content.skip(end as int + 1));
            let all = seq![first] + rest;
            assert forall|i: int, j: int| 0 <= i < all.len() && 0 <= j < all[i].len() implies (
            #[trigger] all[i][j]) != '\n' by {}
        }
    }
}

/// A text falls into at least one piece, and no piece holds a line feed.
pub proof fn lemma_pieces_clean(content: Seq<char>)
    ensures
        pieces(content).len() >= 1,
        text_clean(pieces(content)),
    decreases content.len(),
{
    lemma_first_line_feed(content);
    let end = first_line_feed(content);
    if end < content.len() {
        lemma_pieces_clean(content.skip(end as int + 1));
        let first = without_return(content.take(end as int));
        let rest = pieces(content.skip(end as int + 1));
        let all = seq![first] + rest;
        assert forall|i: int, j: int| 0 <= i < all.len() && 0 <= j < all[i].len() implies (
        #[trigger] all[i][j]) != '\n' by {
            if i == 0 {
                assert(all[0][j] == content[j]);
            } else {
                assert(all[i][j] == rest[i - 1][j]);
            }
        }
    } else {
        let only = seq![without_return(content)];
        assert forall|i: int, j: int| 0 <= i < only.len() && 0 <= j < only[i].len() implies (
        #[trigger] only[i][j]) != '\n' by {
            assert(only[0][j] == content[j]);
        }
    }
}

/// The strings of a vector as a text.
pub open spec fn text_of(lines: Seq<String>) -> Text {
    Seq::new(lines.len(), |i: int| lines[i]@)
}

/// A text as one sequence of characters, a line feed between each two lines.
pub open spec fn joined(text: Text) -> Seq<char>
    decreases text.len(),
{
    if text.len() == 0 {
        Seq::empty()
    } else if text.len() == 1 {
        text[0]
    } else {
        joined(text.drop_last()) + seq!['\n'] + text.last()
    }
}

/// A text joined is empty only if it is one empty piece, or nothing.
pub proof fn lemma_joined_empty(text: Text)
    ensures
        joined(text).len() == 0 <==> (text.len() == 0 || (text.len() == 1 && text[0].len() == 0)),
{
    if text.len() >= 2 {}
}

/// A position given in machine numbers, as a position of the model.
pub open spec fn pos_of(at: (usize, usize)) -> Pos {
    (at.0 as int, at.1 as int)
}

} // verus!
