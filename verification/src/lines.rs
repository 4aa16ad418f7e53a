//! Splitting text into lines.

use vstd::prelude::*;

verus! {

/// The character that ends a line.
pub const LINE_FEED: char = '\n';

/// The character that is dropped where it stands right before a line feed.
pub const CARRIAGE_RETURN: char = '\r';

/// The number of characters of `text` before its first line feed: the length
/// of `text` where it holds none.
pub open spec fn first_line_len(text: Seq<char>) -> nat
    decreases text.len(),
{
    if text.len() == 0 || text[0] == LINE_FEED {
        0
    } else {
        1 + first_line_len(text.drop_first())
    }
}

/// A line without the carriage return at its end, if it has one there.
pub open spec fn without_return(line: Seq<char>) -> Seq<char> {
    if line.len() > 0 && line.last() == CARRIAGE_RETURN {
        line.drop_last()
    } else {
        line
    }
}

/// The lines of a text. A line ends at a line feed, or at a carriage return
/// directly followed by one; neither belongs to the line. What follows the
/// last line feed is a line of its own unless it is empty, and it keeps a
/// carriage return at its end.
pub open spec fn lines_of(text: Seq<char>) -> Seq<Seq<char>>
    decreases text.len(),
{
    let end = first_line_len(text) as int;
    if text.len() == 0 {
        Seq::empty()
    } else if end >= text.len() {
        seq![text]
    } else {
        seq![without_return(text.take(end))] + lines_of(text.skip(end + 1))
    }
}

/// The first line feed is not behind the end of the text, and no line feed
/// stands before it.
pub proof fn lemma_first_line_len(text: Seq<char>)
    ensures
        first_line_len(text) <= text.len(),
        forall|i: int| 0 <= i < first_line_len(text) ==> text[i] != LINE_FEED,
        first_line_len(text) < text.len() ==> text[first_line_len(text) as int] == LINE_FEED,
    decreases text.len(),
{
    if text.len() == 0 || text[0] == LINE_FEED {
    } else {
        lemma_first_line_len(text.drop_first());
        assert forall|i: int| 0 <= i < first_line_len(text) implies text[i] != LINE_FEED by {
            if i > 0 {
                assert(text[i] == text.drop_first()[i - 1]);
            }
        }
    }
}

/// Where a run of characters without a line feed is followed by a line feed
/// or by nothing, the first line is that run.
pub proof fn lemma_first_line_len_is(text: Seq<char>, n: int)
    requires
        0 <= n <= text.len(),
        forall|i: int| 0 <= i < n ==> text[i] != LINE_FEED,
        n < text.len() ==> text[n] == LINE_FEED,
    ensures
        first_line_len(text) == n,
{
    lemma_first_line_len(text);
}

/// A text that ends with a line feed, behind a run of characters without
/// one, has that run as its first line; its other lines are those of what
/// follows the line feed.
pub proof fn lemma_lines_of_terminated(line: Seq<char>, rest: Seq<char>)
    requires
        !line.contains(LINE_FEED),
    ensures
        lines_of(line + seq![LINE_FEED] + rest) == seq![without_return(line)] + lines_of(rest),
{
    let text = line + seq![LINE_FEED] + rest;
    let end = line.len() as int;
    assert forall|i: int| 0 <= i < end implies text[i] != LINE_FEED by {
        assert(line.contains(text[i]));
    }
    lemma_first_line_len_is(text, end);
    assert(text.take(end) =~= line);
    assert(text.skip(end + 1) =~= rest);
}

/// A text without a line feed is one line, or none where it is empty.
pub proof fn lemma_lines_of_unterminated(line: Seq<char>)
    requires
        !line.contains(LINE_FEED),
    ensures
        lines_of(line) == if line.len() == 0 {
            Seq::<Seq<char>>::empty()
        } else {
            seq![line]
        },
{
    assert forall|i: int| 0 <= i < line.len() implies line[i] != LINE_FEED by {
        assert(line.contains(line[i]));
    }
    lemma_first_line_len_is(line, line.len() as int);
}

/// Whether a text is a whole number of lines: it is empty, or its last
/// character is a line feed.
pub open spec fn ends_lines(text: Seq<char>) -> bool {
    text.len() == 0 || text.last() == LINE_FEED
}

/// Behind a whole number of lines, the lines of what follows are found as if
/// it stood alone: the lines of the whole are those of the first part, then
/// those of the second.
pub proof fn lemma_lines_of_concat(head: Seq<char>, tail: Seq<char>)
    requires
        ends_lines(head),
    ensures
        lines_of(head + tail) == lines_of(head) + lines_of(tail),
    decreases head.len(),
{
    if head.len() == 0 {
        assert(head + tail =~= tail);
    } else {
        lemma_first_line_len(head);
        let end = first_line_len(head) as int;
        let line = head.take(end);
        let rest = head.skip(end + 1);
        assert(head + tail =~= line + seq![LINE_FEED] + (rest + tail));
        lemma_lines_of_concat(rest, tail);
        lemma_lines_of_terminated(line, rest);
        lemma_lines_of_terminated(line, rest + tail);
        assert(seq![without_return(line)] + (lines_of(rest) + lines_of(tail)) =~= (seq![
            without_return(line),
        ] + lines_of(rest)) + lines_of(tail));
    }
}

/// The characters read into a line so far: those already stored, and the
/// carriage return that is held back until the next character is known.
spec fn pending_line(stored: Seq<char>, held_return: bool) -> Seq<char> {
    if held_return {
        stored.push(CARRIAGE_RETURN)
    } else {
        stored
    }
}

/// Splits a text into its lines.
pub fn split_lines(text: &str) -> (lines: Vec<String>)
    ensures
        lines.deep_view() == lines_of(text@),
{
    let mut lines: Vec<String> = Vec::new();
    let mut current = String::new();
    let mut held_return = false;
    proof {
        assert(text@.skip(0) =~= text@);
    }
    for c in it: text.chars()
        invariant
            it.seq() == text@,
            !pending_line(current@, held_return).contains(LINE_FEED),
            !held_return ==> without_return(current@) == current@,
            lines_of(text@) == lines.deep_view() + lines_of(
                pending_line(current@, held_return) + text@.skip(it.index()),
            ),
    {
        let ghost pending = pending_line(current@, held_return);
        let ghost index = it.index();
        let ghost rest = text@.skip(index + 1);
        let ghost done = lines.deep_view();
        if c == LINE_FEED {
            proof {
                assert(pending + text@.skip(index) =~= pending + seq![LINE_FEED] + rest);
                lemma_lines_of_terminated(pending, rest);
                assert(without_return(pending) == current@);
            }
            lines.push(current);
            current = String::new();
            held_return = false;
            proof {
                assert(done + (seq![without_return(pending)] + lines_of(rest))
                    =~= lines.deep_view() + lines_of(rest));
            }
        } else {
            if held_return {
                current.push(CARRIAGE_RETURN);
            }
            if c == CARRIAGE_RETURN {
                held_return = true;
            } else {
                held_return = false;
                current.push(c);
            }
            proof {
                let next = pending_line(current@, held_return);
                assert(next + rest =~= pending + text@.skip(index));
                assert forall|i: int| 0 <= i < next.len() implies next[i] != LINE_FEED by {
                    if i < pending.len() {
                        assert(pending.contains(pending[i]));
                    }
                }
            }
        }
    }
    if held_return {
        current.push(CARRIAGE_RETURN);
    }
    proof {
        lemma_lines_of_unterminated(current@);
    }
    if !current.as_str().is_empty() {
        lines.push(current);
    }
    lines
}

} // verus!
