//! Byte ranges in the text of one file.

use vstd::prelude::*;

verus! {

/// A half-open interval `[start, end)` of byte offsets in one file's text.
///
/// Every value has `start <= end`; the fields are private so that no value
/// can be made otherwise. The range `[0, 0)` is what a diagnostic carries
/// when it has no precise location.
#[derive(Clone, Copy, Debug, PartialEq, Eq, Hash)]
pub struct SourceRange {
    start: u32,
    end: u32,
}

impl SourceRange {
    #[verifier::type_invariant]
    spec fn ordered(self) -> bool {
        self.start <= self.end
    }

    /// The range `[start, end)` as a value of specifications.
    pub closed spec fn span(start: u32, end: u32) -> SourceRange {
        SourceRange { start, end }
    }

    /// The offset of the first byte of the range.
    pub closed spec fn spec_start(&self) -> u32 {
        self.start
    }

    /// The offset just behind the last byte of the range.
    pub closed spec fn spec_end(&self) -> u32 {
        self.end
    }

    /// The range without a location, `[0, 0)`.
    pub open spec fn spec_default() -> SourceRange {
        SourceRange::span(0, 0)
    }

    /// The smallest range that contains both `self` and `other`.
    pub open spec fn spec_cover(self, other: SourceRange) -> SourceRange {
        SourceRange::span(
            if self.start() <= other.start() {
                self.start()
            } else {
                other.start()
            },
            if self.end() >= other.end() {
                self.end()
            } else {
                other.end()
            },
        )
    }

    /// The bounds of `span(start, end)` are `start` and `end`.
    pub proof fn lemma_span(start: u32, end: u32)
        ensures
            SourceRange::span(start, end).start() == start,
            SourceRange::span(start, end).end() == end,
    {
    }

    /// A cover starts where the earlier of the two starts, and ends where the
    /// later of the two ends.
    pub proof fn lemma_cover_bounds(self, other: SourceRange)
        ensures
            self.spec_cover(other).start() == if self.start() <= other.start() {
                self.start()
            } else {
                other.start()
            },
            self.spec_cover(other).end() == if self.end() >= other.end() {
                self.end()
            } else {
                other.end()
            },
            self.spec_cover(other) == other.spec_cover(self),
    {
    }

    /// The range `[start, end)`, or `None` where `end` lies before `start`.
    pub fn new(start: u32, end: u32) -> (r: Option<SourceRange>)
        ensures
            r == if start <= end {
                Some(SourceRange::span(start, end))
            } else {
                None
            },
    {
        if start <= end {
            Some(SourceRange { start, end })
        } else {
            None
        }
    }

    /// The offset of the first byte of the range.
    #[verifier::when_used_as_spec(spec_start)]
    pub fn start(&self) -> (s: u32)
        ensures
            s == self.start(),
    {
        self.start
    }

    /// The offset just behind the last byte of the range.
    #[verifier::when_used_as_spec(spec_end)]
    pub fn end(&self) -> (e: u32)
        ensures
            e == self.end(),
    {
        self.end
    }

    /// The smallest range that contains both `self` and `other`.
    pub fn cover(self, other: SourceRange) -> (r: SourceRange)
        ensures
            r == self.spec_cover(other),
    {
        proof {
            use_type_invariant(self);
            use_type_invariant(other);
        }
        text_range_cover(self, other)
    }
}

impl Default for SourceRange {
    /// The range without a location, `[0, 0)`.
    fn default() -> (r: SourceRange)
        ensures
            r == SourceRange::spec_default(),
    {
        SourceRange { start: 0, end: 0 }
    }
}

/// `rowan::TextRange::cover` on the two ranges, each rebuilt with
/// `TextRange::new` from its bounds.
///
/// Trusted, not proved: the result starts at the smaller of the two starts
/// and ends at the larger of the two ends. `TextRange::new` panics on a start
/// behind its end, which the precondition leaves out.
#[verifier::external_body]
fn text_range_cover(a: SourceRange, b: SourceRange) -> (r: SourceRange)
    requires
        a.start() <= a.end(),
        b.start() <= b.end(),
    ensures
        r.start() == if a.start() <= b.start() {
            a.start()
        } else {
            b.start()
        },
        r.end() == if a.end() >= b.end() {
            a.end()
        } else {
            b.end()
        },
{
    let a = rowan::TextRange::new(a.start.into(), a.end.into());
    let b = rowan::TextRange::new(b.start.into(), b.end.into());
    let c = a.cover(b);
    SourceRange { start: c.start().into(), end: c.end().into() }
}

} // verus!
