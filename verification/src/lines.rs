//! Text as lines: splitting at line breaks and counting the lines a
//! terminal shows.

use vstd::prelude::*;
use vstd::string::StrSliceExecFns;

verus! {

/// The pieces of `text` between its line breaks: one more than it has
/// breaks, the last one empty where the text ends in a break.
pub open spec fn split(text: Seq<char>) -> Seq<Seq<char>>
    decreases text.len(),
{
    if text.len() == 0 {
        seq![Seq::empty()]
    } else {
        let head = split(text.drop_last());
        if text.last() == '\n' {
            head.push(Seq::empty())
        } else {
            head.update(head.len() - 1, head.last().push(text.last()))
        }
    }
}

/// The number of line breaks in `text`.
pub open spec fn breaks(text: Seq<char>) -> nat
    decreases text.len(),
{
    if text.len() == 0 {
        0
    } else {
        breaks(text.drop_last()) + if text.last() == '\n' {
            1nat
        } else {
            0nat
        }
    }
}

/// The number of lines that `text` takes on a terminal: one for each line
/// break, and one more for what follows the last break, if anything does.
pub open spec fn height(text: Seq<char>) -> nat {
    breaks(text) + if text.len() > 0 && text.last() != '\n' {
        1nat
    } else {
        0nat
    }
}

/// The strings of `lines` as mathematical values.
pub open spec fn texts(lines: Seq<String>) -> Seq<Seq<char>> {
    Seq::new(lines.len(), |i: int| lines[i]@)
}

/// A text has no more line breaks than characters.
pub proof fn lemma_breaks_bound(text: Seq<char>)
    ensures
        breaks(text) <= text.len(),
    decreases text.len(),
{
    if text.len() > 0 {
        lemma_breaks_bound(text.drop_last());
    }
}

/// Splits `text` at its line breaks.
pub fn split_lines(text: &str) -> (lines: Vec<String>)
    ensures
        texts(lines@) == split(text@),
        lines@.len() > 0,
{
    let mut done: Vec<String> = Vec::new();
    let mut current = String::new();
    let mut rest = text.chars();
    assert(texts(done@).push(current@) =~= split(text@.subrange(0, 0)));
    for c in iter: rest
        invariant
            iter.seq() == text@,
            texts(done@).push(current@) == split(text@.subrange(0, iter.index())),
    {
        let ghost seen = text@.subrange(0, iter.index());
        let ghost next = text@.subrange(0, iter.index() + 1);
        assert(next.drop_last() =~= seen);
        assert(next.last() == c);
        if c == '\n' {
            let finished = current;
            done.push(finished);
            current = String::new();
            assert(texts(done@).push(current@) =~= split(seen).push(Seq::empty()));
        } else {
            let ghost before = current@;
            current.push(c);
            assert(texts(done@).push(current@) =~= split(seen).update(
                split(seen).len() - 1,
                before.push(c),
            ));
        }
    }
    assert(text@.subrange(0, text@.len() as int) =~= text@);
    let ghost last = current@;
    done.push(current);
    assert(texts(done@) =~= texts(done@.drop_last()).push(last));
    done
}

/// Counts the lines that `text` takes on a terminal.
pub fn count_lines(text: &str) -> (count: usize)
    ensures
        count == height(text@),
{
    let length = text.unicode_len();
    let mut count: usize = 0;
    let mut ends_in_break = true;
    let mut rest = text.chars();
    for c in iter: rest
        invariant
            iter.seq() == text@,
            length == text@.len(),
            count == breaks(text@.subrange(0, iter.index())),
            ends_in_break == (iter.index() == 0 || text@[iter.index() - 1] == '\n'),
    {
        let ghost seen = text@.subrange(0, iter.index());
        let ghost next = text@.subrange(0, iter.index() + 1);
        assert(next.drop_last() =~= seen);
        assert(next.last() == c);
        proof {
            lemma_breaks_bound(next);
        }
        if c == '\n' {
            count = count + 1;
            ends_in_break = true;
        } else {
            ends_in_break = false;
        }
    }
    assert(text@.subrange(0, text@.len() as int) =~= text@);
    proof {
        lemma_breaks_bound(text@);
    }
    if ends_in_break {
        count
    } else {
        assert(breaks(text@) < text@.len()) by {
            lemma_breaks_bound(text@.drop_last());
        }
        count + 1
    }
}

} // verus!
