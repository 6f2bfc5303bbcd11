//! Places in source code.

use vstd::prelude::*;

verus! {

/// A range of bytes in a source.
#[derive(Debug, Clone, Copy, PartialEq, Eq, Structural)]
pub struct Span {
    /// The first byte of the span.
    pub start: u32,
    /// One past the last byte of the span.
    pub end: u32,
}

impl Span {
    /// The smallest span that covers both spans.
    pub open spec fn joined(self, other: Span) -> Span {
        Span {
            start: if self.start <= other.start {
                self.start
            } else {
                other.start
            },
            end: if self.end >= other.end {
                self.end
            } else {
                other.end
            },
        }
    }

    /// Construct a span.
    pub fn new(start: u32, end: u32) -> (span: Span)
        ensures
            span == (Span { start, end }),
    {
        Span { start, end }
    }

    /// Join two spans into the smallest span that covers both.
    pub fn join(self, other: Span) -> (span: Span)
        ensures
            span == self.joined(other),
    {
        let start = if self.start <= other.start {
            self.start
        } else {
            other.start
        };

        let end = if self.end >= other.end {
            self.end
        } else {
            other.end
        };

        Span { start, end }
    }
}

} // verus!
