//! Positions in the source text.
//!
//! Lines are counted from zero; a column is a byte offset into its line.

use vstd::prelude::*;

verus! {

/// Where something starts: the line and the column of its first byte.
#[derive(Debug, Clone, Copy, PartialEq, Eq, Structural)]
pub struct Start {
    pub line: usize,
    pub column: usize,
}

/// Where something ends: the line and the column just past its last byte,
/// or no column where it runs to the end of the line.
#[derive(Debug, Clone, Copy, PartialEq, Eq, Structural)]
pub struct End {
    pub line: usize,
    pub column: Option<usize>,
}

/// A stretch of source text, from `start` up to but not including `end`.
#[derive(Debug, Clone, Copy, PartialEq, Eq, Structural)]
pub struct Range {
    pub start: Start,
    pub end: End,
}

impl Start {
    pub fn new(line: usize, column: usize) -> (start: Self)
        ensures
            start == (Start { line, column }),
    {
        Start { line, column }
    }
}

impl End {
    pub fn new(line: usize, column: Option<usize>) -> (end: Self)
        ensures
            end == (End { line, column }),
    {
        End { line, column }
    }
}

impl Range {
    pub fn new(start: Start, end: End) -> (range: Self)
        ensures
            range == (Range { start, end }),
    {
        Range { start, end }
    }

    /// The range on one line from column `start` to column `end`.
    pub open spec fn single_line(line: usize, start: usize, end: Option<usize>) -> Range {
        Range { start: Start { line, column: start }, end: End { line, column: end } }
    }

    pub fn new_single_line(line: usize, start: usize, end: Option<usize>) -> (range: Range)
        ensures
            range == Range::single_line(line, start, end),
    {
        Range { start: Start { line, column: start }, end: End { line, column: end } }
    }

    /// The range from the start of `self` to the end of `rhs`.
    pub open spec fn spec_join(self, rhs: Range) -> Range {
        Range { start: self.start, end: rhs.end }
    }

    /// The range from the start of `self` to the end of `rhs`.
    pub fn join(self, rhs: Range) -> (range: Range)
        ensures
            range == self.spec_join(rhs),
    {
        Range { start: self.start, end: rhs.end }
    }
}

/// Joining ranges is associative: only the first start and the last end
/// remain.
pub proof fn join_is_associative(a: Range, b: Range, c: Range)
    ensures
        a.spec_join(b).spec_join(c) == a.spec_join(b.spec_join(c)),
        a.spec_join(b).spec_join(c) == a.spec_join(c),
{
}

} // verus!
