//! Character ranges over the scanned source.

use vstd::prelude::*;

verus! {

/// A half-open character range `[start, end)` over the source text,
/// together with the literal text of the covered range.
///
/// For every token but the end-of-input token, `end - start` equals the
/// length of `literal` (see [`TextSpan::wf`]); the end-of-input token
/// carries an empty range at the final offset with a single sentinel
/// null character as its literal.
#[derive(Debug, Clone, PartialEq)]
pub struct TextSpan {
    pub start: usize,
    pub end: usize,
    pub literal: String,
}

impl TextSpan {
    /// The range is ordered and the literal covers exactly `end - start` characters.
    pub open spec fn wf(&self) -> bool {
        self.start <= self.end && self.end - self.start == self.literal@.len()
    }

    pub fn new(start: usize, end: usize, literal: String) -> (span: Self)
        ensures
            span.start == start,
            span.end == end,
            span.literal == literal,
    {
        Self { start, end, literal }
    }

    /// The number of characters the range covers.
    pub fn length(&self) -> (n: usize)
        requires
            self.start <= self.end,
        ensures
            n == self.end - self.start,
    {
        self.end - self.start
    }
}

} // verus!
