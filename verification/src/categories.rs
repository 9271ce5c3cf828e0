//! The list of categories as one block of text, a category to a line.
//!
//! Any line is a category, the empty line too: a text that ends in a line
//! feed has an empty category last, and the empty text is the one empty
//! category.

use crate::session::texts;
use vstd::prelude::*;
use vstd::string::*;

verus! {

/// The lines of `text`: what stands between its line feeds, so always one
/// line more than it has line feeds.
pub open spec fn split_lines(text: Seq<char>) -> Seq<Seq<char>>
    decreases text.len(),
{
    if text.len() == 0 {
        seq![Seq::empty()]
    } else {
        let before = split_lines(text.drop_last());
        if text.last() == '\n' {
            before.push(Seq::empty())
        } else {
            before.drop_last().push(before.last().push(text.last()))
        }
    }
}

/// The lines put together, with a line feed between any two.
pub open spec fn join_lines(lines: Seq<Seq<char>>) -> Seq<char>
    decreases lines.len(),
{
    if lines.len() == 0 {
        Seq::empty()
    } else if lines.len() == 1 {
        lines[0]
    } else {
        join_lines(lines.drop_last()) + seq!['\n'] + lines.last()
    }
}

/// No line feed stands in `line`.
pub open spec fn is_one_line(line: Seq<char>) -> bool {
    forall|at: int| 0 <= at < line.len() ==> #[trigger] line[at] != '\n'
}

/// The categories that a text lists, one to a line.
pub fn categories_from_text(text: &str) -> (categories: Vec<String>)
    ensures
        texts(categories@) == split_lines(text@),
{
    let n: usize = text.unicode_len();
    let mut lines: Vec<String> = Vec::new();
    let mut start: usize = 0;
    let mut at: usize = 0;
    assert(text@.take(0) =~= Seq::<char>::empty());
    assert(texts(lines@).push(text@.subrange(0, 0)) =~= seq![Seq::<char>::empty()]);
    while at < n
        invariant
            start <= at <= n,
            n == text@.len(),
            split_lines(text@.take(at as int)) == texts(lines@).push(
                text@.subrange(start as int, at as int),
            ),
        decreases n - at,
    {
        let ghost before = texts(lines@);
        let ghost line = text@.subrange(start as int, at as int);
        assert(text@.take(at + 1).drop_last() =~= text@.take(at as int));
        assert(before.push(line).drop_last() =~= before);
        if text.get_char(at) == '\n' {
            lines.push(text.substring_char(start, at).to_owned());
            start = at + 1;
            assert(texts(lines@) =~= before.push(line));
            assert(text@.subrange(start as int, at + 1) =~= Seq::<char>::empty());
        } else {
            assert(text@.subrange(start as int, at + 1) =~= line.push(text@[at as int]));
        }
        at += 1;
    }
    assert(text@.take(n as int) =~= text@);
    let ghost before = texts(lines@);
    lines.push(text.substring_char(start, n).to_owned());
    assert(texts(lines@) =~= before.push(text@.subrange(start as int, n as int)));
    lines
}

/// The text that lists the categories, one to a line.
pub fn categories_to_text(categories: &Vec<String>) -> (text: String)
    ensures
        text@ == join_lines(texts(categories@)),
{
    let n: usize = categories.len();
    let mut text = String::new();
    let mut at: usize = 0;
    proof {
        reveal_strlit("\n");
        assert(texts(categories@).take(0) =~= Seq::<Seq<char>>::empty());
    }
    while at < n
        invariant
            at <= n,
            n == categories@.len(),
            "\n"@ == seq!['\n'],
            text@ == join_lines(texts(categories@).take(at as int)),
        decreases n - at,
    {
        let ghost so_far = texts(categories@).take(at as int);
        assert(texts(categories@).take(at + 1).drop_last() =~= so_far);
        if at > 0 {
            text.append("\n");
        }
        text.append(categories[at].as_str());
        assert(text@ =~= join_lines(texts(categories@).take(at + 1)));
        at += 1;
    }
    assert(texts(categories@).take(n as int) =~= texts(categories@));
    text
}

/// A text always has a first line.
pub proof fn text_has_a_line(text: Seq<char>)
    ensures
        split_lines(text).len() >= 1,
    decreases text.len(),
{
    if text.len() > 0 {
        text_has_a_line(text.drop_last());
    }
}

/// Writing the lines of a text back gives the text.
pub proof fn join_undoes_split(text: Seq<char>)
    ensures
        join_lines(split_lines(text)) == text,
    decreases text.len(),
{
    if text.len() == 0 {
        assert(join_lines(split_lines(text)) =~= text);
    } else {
        let front = text.drop_last();
        let before = split_lines(front);
        text_has_a_line(front);
        join_undoes_split(front);
        assert(text =~= front.push(text.last()));
        if text.last() == '\n' {
            assert(before.push(Seq::<char>::empty()).drop_last() =~= before);
            assert(join_lines(split_lines(text)) =~= text);
        } else {
            let grown = before.drop_last().push(before.last().push(text.last()));
            assert(grown.drop_last() =~= before.drop_last());
            assert(join_lines(split_lines(text)) =~= text);
        }
    }
}

/// Adding one line's worth of text to a text adds it to the last line.
proof fn split_of_longer_line(text: Seq<char>, more: Seq<char>)
    requires
        is_one_line(more),
    ensures
        split_lines(text).len() >= 1,
        split_lines(text + more) == split_lines(text).drop_last().push(
            split_lines(text).last() + more,
        ),
    decreases more.len(),
{
    text_has_a_line(text);
    let lines = split_lines(text);
    if more.len() == 0 {
        assert(text + more =~= text);
        assert(lines.last() + more =~= lines.last());
        assert(lines.drop_last().push(lines.last()) =~= lines);
    } else {
        let whole = text + more;
        let shorter = more.drop_last();
        assert(whole.drop_last() =~= text + shorter);
        assert(whole.last() == more[more.len() - 1]);
        assert forall|at: int| 0 <= at < shorter.len() implies #[trigger] shorter[at] != '\n' by {
            assert(more[at] != '\n');
        }
        split_of_longer_line(text, shorter);
        let before = split_lines(text + shorter);
        assert(before.drop_last() =~= lines.drop_last());
        assert(before.last().push(whole.last()) =~= lines.last() + more);
    }
}

/// Reading back a list of categories written as text gives the list, as
/// long as there is at least one category and none holds a line feed.
pub proof fn split_undoes_join(lines: Seq<Seq<char>>)
    requires
        lines.len() >= 1,
        forall|at: int| 0 <= at < lines.len() ==> is_one_line(#[trigger] lines[at]),
    ensures
        split_lines(join_lines(lines)) == lines,
    decreases lines.len(),
{
    if lines.len() == 1 {
        split_of_longer_line(Seq::<char>::empty(), lines[0]);
        assert(Seq::<char>::empty() + lines[0] =~= lines[0]);
        assert(Seq::<char>::empty() + lines[0] =~= join_lines(lines));
        assert(split_lines(join_lines(lines)) =~= lines);
    } else {
        let front = lines.drop_last();
        assert forall|at: int| 0 <= at < front.len() implies is_one_line(#[trigger] front[at]) by {
            assert(is_one_line(lines[at]));
        }
        split_undoes_join(front);
        let head = join_lines(front) + seq!['\n'];
        assert(head.drop_last() =~= join_lines(front));
        assert(split_lines(head) == front.push(Seq::<char>::empty()));
        assert(is_one_line(lines[lines.len() - 1]));
        split_of_longer_line(head, lines.last());
        assert(join_lines(lines) =~= head + lines.last());
        assert(split_lines(join_lines(lines)) =~= lines);
    }
}

} // verus!
