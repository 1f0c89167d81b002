//! Text layout: cutting a string down to a display width and breaking it
//! into lines. Widths are counted in characters.

use vstd::prelude::*;
use vstd::string::*;

verus! {

/// The three dots that mark a cut.
pub open spec fn ellipsis() -> Seq<char> {
    seq!['.', '.', '.']
}

/// `text` cut down to `max_width` characters. A width of three or less
/// leaves room for the dots alone; a text that fits stays as it is;
/// otherwise the first `max_width - 3` characters are followed by the dots.
pub open spec fn truncated(text: Seq<char>, max_width: nat) -> Seq<char> {
    if max_width <= 3 {
        ellipsis()
    } else if text.len() <= max_width {
        text
    } else {
        text.take(max_width - 3) + ellipsis()
    }
}

/// `text` broken into lines of at most `max_width` characters, every line
/// but the last filled up. Width zero gives no line at all; a text that
/// fits, the empty one too, gives exactly one line.
pub open spec fn wrapped(text: Seq<char>, max_width: nat) -> Seq<Seq<char>>
    decreases text.len(),
{
    if max_width == 0 {
        Seq::empty()
    } else if text.len() <= max_width {
        seq![text]
    } else {
        seq![text.take(max_width as int)] + wrapped(text.skip(max_width as int), max_width)
    }
}

/// The lines written one after another.
pub open spec fn glued(lines: Seq<Seq<char>>) -> Seq<char>
    decreases lines.len(),
{
    if lines.len() == 0 {
        Seq::empty()
    } else {
        lines[0] + glued(lines.drop_first())
    }
}

/// Wrapping loses nothing and makes no line too long: for a width of at
/// least one, the lines put together give the text back, no line has more
/// characters than the width, and only the text that fits on one line
/// gives a single line.
pub proof fn lemma_wrapped_gives_text_back(text: Seq<char>, max_width: nat)
    requires
        max_width > 0,
    ensures
        glued(wrapped(text, max_width)) == text,
        forall|i: int|
            0 <= i < wrapped(text, max_width).len() ==> (#[trigger] wrapped(
                text,
                max_width,
            )[i]).len() <= max_width,
        wrapped(text, max_width).len() >= 1,
        wrapped(text, max_width).len() == 1 <==> text.len() <= max_width,
    decreases text.len(),
{
    if text.len() <= max_width {
        let one = seq![text];
        assert(one.drop_first().len() == 0);
        assert(glued(one.drop_first()) =~= Seq::<char>::empty());
        assert(glued(one) =~= text);
    } else {
        let head = text.take(max_width as int);
        let rest = text.skip(max_width as int);
        lemma_wrapped_gives_text_back(rest, max_width);
        let lines = wrapped(text, max_width);
        assert(lines =~= seq![head] + wrapped(rest, max_width));
        assert(lines.drop_first() =~= wrapped(rest, max_width));
        assert(glued(lines) =~= head + rest);
        assert(head + rest =~= text);
        assert forall|i: int| 0 <= i < lines.len() implies (#[trigger] lines[i]).len()
            <= max_width by {
            if i > 0 {
                assert(lines[i] == wrapped(rest, max_width)[i - 1]);
            }
        }
    }
}

/// Truncating never gives more characters than asked for, except that the
/// dots alone are given for any width below three.
pub proof fn lemma_truncated_fits(text: Seq<char>, max_width: nat)
    ensures
        max_width >= 3 ==> truncated(text, max_width).len() <= max_width,
        max_width < 3 ==> truncated(text, max_width) == ellipsis(),
        max_width > 3 && text.len() <= max_width ==> truncated(text, max_width) == text,
{
}

/// Truncates `text` to `max_width` characters, ending a cut text in "...".
pub fn truncate_text(text: &str, max_width: usize) -> (out: String)
    ensures
        out@ == truncated(text@, max_width as nat),
{
    if max_width <= 3 {
        proof {
            reveal_strlit("...");
        }
        let out = "...".to_owned();
        assert(out@ =~= ellipsis());
        return out;
    }
    let count = text.unicode_len();
    if count <= max_width {
        text.to_owned()
    } else {
        proof {
            reveal_strlit("...");
        }
        let head = text.substring_char(0, max_width - 3);
        let mut out = head.to_owned();
        out.append("...");
        assert(out@ =~= text@.take(max_width - 3) + ellipsis());
        out
    }
}

/// Breaks `text` into lines of at most `max_width` characters.
pub fn wrap_text(text: &str, max_width: usize) -> (lines: Vec<String>)
    ensures
        lines.deep_view() == wrapped(text@, max_width as nat),
{
    let mut lines: Vec<String> = Vec::new();
    if max_width == 0 {
        assert(lines.deep_view() =~= wrapped(text@, 0));
        return lines;
    }
    let count = text.unicode_len();
    if count <= max_width {
        lines.push(text.to_owned());
        assert(lines.deep_view() =~= seq![text@]);
        return lines;
    }
    let mut start: usize = 0;
    assert(text@.skip(0) =~= text@);
    while start < count
        invariant
            max_width > 0,
            count == text@.len(),
            start <= count,
            start < count ==> lines.deep_view() + wrapped(
                text@.skip(start as int),
                max_width as nat,
            ) =~= wrapped(text@, max_width as nat),
            start == count ==> lines.deep_view() =~= wrapped(text@, max_width as nat),
        decreases count - start,
    {
        let end: usize = if count - start <= max_width {
            count
        } else {
            start + max_width
        };
        let line = text.substring_char(start, end).to_owned();
        let ghost before = lines.deep_view();
        let ghost rest = text@.skip(start as int);
        lines.push(line);
        proof {
            assert(lines.deep_view() =~= before.push(text@.subrange(start as int, end as int)));
            if end == count {
                assert(rest.len() <= max_width);
                assert(text@.subrange(start as int, end as int) =~= rest);
                assert(wrapped(rest, max_width as nat) =~= seq![rest]);
            } else {
                assert(rest.take(max_width as int) =~= text@.subrange(start as int, end as int));
                assert(rest.skip(max_width as int) =~= text@.skip(end as int));
            }
        }
        start = end;
    }
    lines
}

} // verus!
