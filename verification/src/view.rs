use crate::buffer::LogBuffer;
use crate::line::LineView;
use crate::width::line_width;
use vstd::prelude::*;

verus! {

/// A size on the terminal: `x` columns by `y` rows.
#[derive(Clone, Copy, Debug, PartialEq, Eq, Structural)]
pub struct Size {
    pub x: usize,
    pub y: usize,
}

/// The view that shows the log lines held by a buffer. It holds no state of
/// its own, so any number of views may show the same buffer.
#[derive(Clone, Copy, Debug, PartialEq, Eq, Structural)]
pub struct FlexiLoggerView;

/// How many of `len` lines are skipped when `height` rows are available:
/// only the newest lines are shown.
pub open spec fn first_shown(len: nat, height: nat) -> nat {
    if len > height {
        (len - height) as nat
    } else {
        0
    }
}

/// The index of the line shown in each row, top to bottom.
pub open spec fn shown_lines(len: nat, height: nat) -> Seq<usize> {
    Seq::new((len - first_shown(len, height)) as nat, |row: int| (first_shown(len, height) + row) as usize)
}

/// The widest of the lines, or 1 when there are none.
pub open spec fn content_width(lines: Seq<LineView>) -> usize
    decreases lines.len(),
{
    if lines.len() == 0 {
        1
    } else if lines.len() == 1 {
        line_width(lines[0])
    } else {
        let rest = content_width(lines.drop_last());
        let last = line_width(lines.last());
        if rest >= last {
            rest
        } else {
            last
        }
    }
}

/// The larger of two numbers.
pub open spec fn larger(a: usize, b: usize) -> usize {
    if a >= b {
        a
    } else {
        b
    }
}

/// The size the view asks for: wide enough for the widest line and tall
/// enough for every line, and never less than the constraint it is offered.
pub open spec fn spec_required_size(lines: Seq<LineView>, constraint: Size) -> Size {
    Size {
        x: larger(content_width(lines), constraint.x),
        y: larger(lines.len() as usize, constraint.y),
    }
}

impl FlexiLoggerView {
    /// Which lines are drawn when `height` rows are available: the index in
    /// `logs` of the line drawn in each row, from the top row down. Only the
    /// newest lines that fit are drawn, oldest at the top.
    pub fn draw(&self, logs: &LogBuffer, height: usize) -> (rows: Vec<usize>)
        ensures
            rows@ == shown_lines(logs.lines().len(), height as nat),
    {
        let len = logs.len();
        let skipped = len.saturating_sub(height);
        let mut rows: Vec<usize> = Vec::new();
        let mut index = skipped;
        while index < len
            invariant
                skipped <= index <= len,
                len == logs.lines().len(),
                skipped == first_shown(len as nat, height as nat),
                rows@ =~= shown_lines(len as nat, height as nat).take(index - skipped),
            decreases len - index,
        {
            rows.push(index);
            index = index + 1;
        }
        assert(rows@ =~= shown_lines(len as nat, height as nat));
        rows
    }

    /// The size the view asks for under `constraint`: the width of the
    /// widest line (1 when there are none) and the number of lines, each
    /// raised to the constraint where that is larger.
    pub fn required_size(&mut self, logs: &LogBuffer, constraint: Size) -> (size: Size)
        ensures
            size == spec_required_size(logs.lines(), constraint),
    {
        let len = logs.len();
        let mut widest: usize = 1;
        let mut i: usize = 0;
        while i < len
            invariant
                i <= len,
                len == logs.lines().len(),
                widest == content_width(logs.lines().take(i as int)),
            decreases len - i,
        {
            let line = logs.get(i);
            let w = match line {
                Some(l) => l.width(),
                None => 0,
            };
            proof {
                let lines = logs.lines();
                assert(lines.take(i + 1).drop_last() =~= lines.take(i as int));
                assert(lines.take(i + 1).last() == lines[i as int]);
                if i == 0 {
                    assert(lines.take(1)[0] == lines[0]);
                }
            }
            if i == 0 || w > widest {
                widest = w;
            }
            i = i + 1;
        }
        proof {
            assert(logs.lines().take(len as int) =~= logs.lines());
        }
        let width = if widest >= constraint.x { widest } else { constraint.x };
        let height = if len >= constraint.y { len } else { constraint.y };
        Size { x: width, y: height }
    }
}

/// Drawing shows as many lines as fit and no more: `min(len, height)` rows,
/// holding consecutive lines in order, the last row holding the newest line.
pub proof fn lemma_draw_shows_newest(len: nat, height: nat)
    requires
        len <= usize::MAX,
    ensures
        shown_lines(len, height).len() == if len <= height { len } else { height },
        forall|row: int|
            0 <= row < shown_lines(len, height).len() ==> #[trigger] shown_lines(len, height)[row] < len,
        forall|row: int|
            0 < row < shown_lines(len, height).len() ==> #[trigger] shown_lines(len, height)[row]
                == shown_lines(len, height)[row - 1] + 1,
        len > 0 && height > 0 ==> shown_lines(len, height).last() == len - 1,
{
}

/// The size the view asks for covers the constraint it is offered, every
/// line (in rows) and the widest line (in columns).
pub proof fn lemma_required_size_covers(lines: Seq<LineView>, constraint: Size)
    requires
        lines.len() <= usize::MAX,
    ensures
        spec_required_size(lines, constraint).x >= constraint.x,
        spec_required_size(lines, constraint).y >= constraint.y,
        spec_required_size(lines, constraint).y >= lines.len(),
        forall|i: int|
            0 <= i < lines.len() ==> line_width(#[trigger] lines[i]) <= spec_required_size(lines, constraint).x,
{
    lemma_content_width_is_widest(lines);
}

/// The content width is at least the width of every line, and it is the
/// width of one of them when there is any.
pub proof fn lemma_content_width_is_widest(lines: Seq<LineView>)
    ensures
        forall|i: int| 0 <= i < lines.len() ==> line_width(#[trigger] lines[i]) <= content_width(lines),
        lines.len() > 0 ==> exists|i: int| 0 <= i < lines.len() && line_width(#[trigger] lines[i]) == content_width(lines),
    decreases lines.len(),
{
    if lines.len() > 1 {
        let rest = lines.drop_last();
        lemma_content_width_is_widest(rest);
        assert forall|i: int| 0 <= i < lines.len() implies line_width(#[trigger] lines[i]) <= content_width(lines) by {
            if i < lines.len() - 1 {
                assert(lines[i] == rest[i]);
            }
        }
        if content_width(rest) >= line_width(lines.last()) {
            let j = choose|j: int| 0 <= j < rest.len() && line_width(#[trigger] rest[j]) == content_width(rest);
            assert(lines[j] == rest[j]);
        } else {
            assert(line_width(lines[lines.len() - 1]) == content_width(lines));
        }
    } else if lines.len() == 1 {
        assert(line_width(lines[0]) == content_width(lines));
    }
}

} // verus!
