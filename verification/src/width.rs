use crate::line::{LineView, LogLine};
use cursive::utils::markup::StyledString;
use vstd::prelude::*;

verus! {

/// The number of terminal columns that `text` takes when shown.
pub uninterp spec fn display_width(text: Seq<char>) -> usize;

/// `cursive::utils::markup::StyledString::width`, on the plain styled string
/// made of `text`: the number of terminal columns the text takes. What that
/// number is for given characters (their Unicode widths) is not stated; it is
/// named by `display_width`.
#[verifier::external_body]
fn text_width(text: &str) -> (width: usize)
    ensures
        width == display_width(text@),
{
    StyledString::plain(text).width()
}

/// The width of a styled line: the sum of the widths of its spans, saturated
/// at `usize::MAX`.
pub open spec fn line_width(line: LineView) -> usize
    decreases line.len(),
{
    if line.len() == 0 {
        0
    } else {
        let sum = line_width(line.drop_last()) + display_width(line.last().0);
        if sum > usize::MAX {
            usize::MAX
        } else {
            sum as usize
        }
    }
}

impl LogLine {
    /// The number of terminal columns the line takes: the sum of the widths of
    /// its spans.
    pub fn width(&self) -> (width: usize)
        ensures
            width == line_width(self@),
    {
        let mut width: usize = 0;
        let mut i: usize = 0;
        while i < self.spans.len()
            invariant
                i <= self.spans.len(),
                width == line_width(self@.take(i as int)),
            decreases self.spans.len() - i,
        {
            let w = text_width(self.spans[i].text.as_str());
            proof {
                assert(self@.take(i + 1).drop_last() =~= self@.take(i as int));
            }
            width = width.saturating_add(w);
            i = i + 1;
        }
        proof {
            assert(self@.take(i as int) =~= self@);
        }
        width
    }
}

/// A line of one span takes exactly the columns of that span's text,
/// whatever its style.
pub proof fn lemma_line_width_single(span: (Seq<char>, crate::line::SpanStyle))
    ensures
        line_width(seq![span]) == display_width(span.0),
{
    let line = seq![span];
    assert(line.drop_last() =~= Seq::<(Seq<char>, crate::line::SpanStyle)>::empty());
    assert(line_width(line.drop_last()) == 0);
    assert(line.last() == span);
}

/// A line takes at least the columns of each of its spans, whatever their
/// styles.
pub proof fn lemma_line_width_covers_spans(line: LineView, i: int)
    requires
        0 <= i < line.len(),
    ensures
        line_width(line) >= display_width(line[i].0),
    decreases line.len(),
{
    if i < line.len() - 1 {
        lemma_line_width_covers_spans(line.drop_last(), i);
        assert(line.drop_last()[i] == line[i]);
    }
}

/// The width of a line does not depend on the styles of its spans:
/// restyling one span leaves it unchanged.
pub proof fn lemma_line_width_ignores_style(line: LineView, i: int, style: crate::line::SpanStyle)
    requires
        0 <= i < line.len(),
    ensures
        line_width(line.update(i, (line[i].0, style))) == line_width(line),
    decreases line.len(),
{
    let restyled = line.update(i, (line[i].0, style));
    if i < line.len() - 1 {
        lemma_line_width_ignores_style(line.drop_last(), i, style);
        assert(restyled.drop_last() =~= line.drop_last().update(i, (line.drop_last()[i].0, style)));
        assert(restyled.last() == line.last());
    } else {
        assert(restyled.drop_last() =~= line.drop_last());
    }
}

/// The width of two lines joined is the sum of their widths, saturated at
/// `usize::MAX`.
pub proof fn lemma_line_width_concat(first: LineView, second: LineView)
    ensures
        line_width(first + second) == if line_width(first) + line_width(second) > usize::MAX {
            usize::MAX
        } else {
            (line_width(first) + line_width(second)) as usize
        },
    decreases second.len(),
{
    if second.len() == 0 {
        assert(first + second =~= first);
    } else {
        lemma_line_width_concat(first, second.drop_last());
        assert((first + second).drop_last() =~= first + second.drop_last());
        assert((first + second).last() == second.last());
    }
}

} // verus!
