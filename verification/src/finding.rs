//! A match of a lint in a source buffer: what was found, and where.

use vstd::prelude::*;

verus! {

/// A position in a source buffer, counted from zero.
#[derive(Clone, Copy, Debug, PartialEq, Eq, Structural)]
pub struct Point {
    /// The line of the position.
    pub row: usize,
    /// The column of the position.
    pub col: usize,
}

impl Default for Point {
    fn default() -> (point: Self)
        ensures
            point.row == 0,
            point.col == 0,
    {
        Point { row: 0, col: 0 }
    }
}

/// A stretch of a source buffer, in bytes and in lines and columns. The two
/// are taken as they are given; neither is checked against the other or
/// against a buffer.
#[derive(Debug, PartialEq, Eq)]
pub struct Range {
    /// The bytes of the stretch, the end excluded.
    pub bytes: std::ops::Range<usize>,
    /// Where the stretch starts.
    pub start_point: Point,
    /// Where the stretch ends.
    pub end_point: Point,
}

impl Clone for Range {
    fn clone(&self) -> (copy: Self)
        ensures
            copy == *self,
    {
        Range {
            bytes: std::ops::Range { start: self.bytes.start, end: self.bytes.end },
            start_point: self.start_point,
            end_point: self.end_point,
        }
    }
}

/// One match of a lint.
#[derive(Debug)]
pub struct LintMatch {
    /// The name of the lint that matched.
    pub lint_name: String,
    /// What the lint has to say about the match.
    pub message: String,
    /// Where the match lies.
    pub range: Range,
}

impl Clone for LintMatch {
    fn clone(&self) -> (copy: Self)
        ensures
            copy == *self,
    {
        LintMatch {
            lint_name: self.lint_name.clone(),
            message: self.message.clone(),
            range: self.range.clone(),
        }
    }
}

} // verus!
