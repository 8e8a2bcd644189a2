use vstd::prelude::*;
use crate::token::TextCoord;
use crate::token::Span;

verus! {

/// The 1-based line number of position `i` in `src`: one more than the number
/// of newlines strictly before `i`.
pub open spec fn line_at(src: Seq<char>, i: int) -> int
    decreases i,
{
    if i <= 0 {
        1
    } else if src[i - 1] == '\n' {
        line_at(src, i - 1) + 1
    } else {
        line_at(src, i - 1)
    }
}

/// The position of the first character of the line that position `i` lies on:
/// one past the last newline strictly before `i`, or 0 when there is none.
pub open spec fn line_start_at(src: Seq<char>, i: int) -> int
    decreases i,
{
    if i <= 0 {
        0
    } else if src[i - 1] == '\n' {
        i
    } else {
        line_start_at(src, i - 1)
    }
}

/// The line/column coordinate of position `i` in `src`; columns are 1-based.
pub open spec fn coord_at(src: Seq<char>, i: int) -> TextCoord {
    TextCoord {
        line_number: line_at(src, i) as usize,
        column: (i - line_start_at(src, i) + 1) as usize,
    }
}

/// The span of the region `[start, end)` of `src`.
pub open spec fn span_at(src: Seq<char>, start: int, end: int) -> Span {
    Span { start: coord_at(src, start), end: coord_at(src, end) }
}

/// Line numbers and line starts stay within the position they are taken at.
pub proof fn lemma_coord_bounds(src: Seq<char>, i: int)
    requires
        0 <= i,
    ensures
        1 <= line_at(src, i) <= i + 1,
        0 <= line_start_at(src, i) <= i,
    decreases i,
{
    if i > 0 {
        lemma_coord_bounds(src, i - 1);
    }
}

/// Stepping over a character that is not a newline changes neither the line
/// number nor the line start.
pub proof fn lemma_coord_step_no_newline(src: Seq<char>, i: int)
    requires
        0 <= i < src.len(),
        src[i] != '\n',
    ensures
        line_at(src, i + 1) == line_at(src, i),
        line_start_at(src, i + 1) == line_start_at(src, i),
{
}

/// Stepping over a newline increments the line number and moves the line
/// start to just past the newline.
pub proof fn lemma_coord_step_newline(src: Seq<char>, i: int)
    requires
        0 <= i < src.len(),
        src[i] == '\n',
    ensures
        line_at(src, i + 1) == line_at(src, i) + 1,
        line_start_at(src, i + 1) == i + 1,
{
}

} // verus!
