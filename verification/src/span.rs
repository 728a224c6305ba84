//! Byte spans into a module's source text.

use vstd::prelude::*;

verus! {

/// A half-open interval `[start, end)` of byte offsets into the source text
/// of one module.
#[derive(Debug, Clone, Copy, PartialEq, Eq, Structural)]
pub struct SrcSpan {
    pub start: u32,
    pub end: u32,
}

impl SrcSpan {
    /// A span never ends before it starts.
    pub open spec fn wf(self) -> bool {
        self.start <= self.end
    }

    /// Whether `byte_index` lies inside the span. The end offset is outside.
    pub open spec fn covers(self, byte_index: int) -> bool {
        self.start <= byte_index < self.end
    }

    /// Whether every offset of `inner` also lies in `self`.
    pub open spec fn encloses(self, inner: SrcSpan) -> bool {
        self.start <= inner.start && inner.end <= self.end
    }

    /// Whether the two spans share no offset.
    pub open spec fn disjoint(self, other: SrcSpan) -> bool {
        self.end <= other.start || other.end <= self.start
    }

    pub fn new(start: u32, end: u32) -> (span: SrcSpan)
        ensures
            span.start == start,
            span.end == end,
    {
        SrcSpan { start, end }
    }

    pub fn contains(&self, byte_index: u32) -> (inside: bool)
        ensures
            inside == self.covers(byte_index as int),
    {
        self.start <= byte_index && byte_index < self.end
    }
}

} // verus!
