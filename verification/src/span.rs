//! Byte spans into a source text.

use vstd::prelude::*;

use crate::text::{decimal, decimal_text};

verus! {

/// A region of source code, given by a start and an end byte offset.
///
/// Every span satisfies `start <= end`.
#[derive(Clone, Copy, Debug, PartialEq, Eq, Structural)]
pub struct Span {
    start: u32,
    end: u32,
}

impl Span {
    #[verifier::type_invariant]
    spec fn well_formed(self) -> bool {
        self.start <= self.end
    }

    /// The start offset.
    pub closed spec fn lo(self) -> u32 {
        self.start
    }

    /// The end offset.
    pub closed spec fn hi(self) -> u32 {
        self.end
    }

    /// The span from `start` to `end`.
    pub closed spec fn spec_new(start: u32, end: u32) -> Span {
        Span { start, end }
    }

    /// The smallest span that covers both spans.
    pub open spec fn spec_merge(self, other: Span) -> Span {
        Span::spec_new(
            if self.lo() <= other.lo() { self.lo() } else { other.lo() },
            if self.hi() >= other.hi() { self.hi() } else { other.hi() },
        )
    }

    pub broadcast proof fn lemma_spec_new(start: u32, end: u32)
        ensures
            #[trigger] Span::spec_new(start, end).lo() == start,
            Span::spec_new(start, end).hi() == end,
    {
    }

    /// Two spans with the same offsets are equal.
    pub proof fn lemma_span_ext(a: Span, b: Span)
        requires
            a.lo() == b.lo(),
            a.hi() == b.hi(),
        ensures
            a == b,
    {
    }

    /// Creates the span from `start` to `end`.
    pub fn new(start: u32, end: u32) -> (res: Span)
        requires
            start <= end,
        ensures
            res == Span::spec_new(start, end),
    {
        let (s, e) = codespan_span_bounds(start, end);
        Span { start: s, end: e }
    }

    /// The empty span at the start of a source.
    pub fn initial() -> (res: Span)
        ensures
            res == Span::spec_new(0, 0),
    {
        Span { start: 0, end: 0 }
    }

    /// The start offset.
    pub fn start(self) -> (res: u32)
        ensures
            res == self.lo(),
            res <= self.hi(),
    {
        proof {
            use_type_invariant(self);
        }
        self.start
    }

    /// The end offset.
    pub fn end(self) -> (res: u32)
        ensures
            res == self.hi(),
            self.lo() <= res,
    {
        proof {
            use_type_invariant(self);
        }
        self.end
    }

    /// Combines two spans by taking the start of the earlier span and the end of the later one.
    pub fn merge(self, other: Span) -> (res: Span)
        ensures
            res == self.spec_merge(other),
    {
        proof {
            use_type_invariant(self);
            use_type_invariant(other);
        }
        let (s, e) = codespan_merge_bounds(self.start, self.end, other.start, other.end);
        Span { start: s, end: e }
    }
}

/// The text in which `Debug` writes a span.
pub open spec fn span_debug_text(s: Span) -> Seq<char> {
    "Span { start: "@ + decimal_text(s.lo() as nat) + ", end: "@ + decimal_text(s.hi() as nat)
        + " }"@
}

impl Span {
    /// The span as `Debug` writes it.
    pub fn debug_text(self) -> (res: String)
        ensures
            res@ == span_debug_text(self),
    {
        let mut s = String::from_str("Span { start: ");
        let a = decimal(self.start());
        s.append(a.as_str());
        s.append(", end: ");
        let b = decimal(self.end());
        s.append(b.as_str());
        s.append(" }");
        s
    }
}

impl Default for Span {
    fn default() -> (res: Span)
        ensures
            res == Span::spec_new(0, 0),
    {
        Span::initial()
    }
}

/// Calls `codespan::Span::new(start, end)` and reads back the start and end of the span
/// that it built. `Span::new` asserts `end >= start`, hence the `requires`; it stores
/// both offsets unchanged.
#[verifier::external_body]
fn codespan_span_bounds(start: u32, end: u32) -> (res: (u32, u32))
    requires
        start <= end,
    ensures
        res == (start, end),
{
    let span = codespan::Span::new(start, end);
    (span.start().0, span.end().0)
}

/// Calls `codespan::Span::merge` on the spans `[s1, e1)` and `[s2, e2)` and reads back the
/// result. Its source takes the minimum of the starts and the maximum of the ends; the two
/// `Span::new` calls that build its arguments assert `e1 >= s1` and `e2 >= s2`.
#[verifier::external_body]
fn codespan_merge_bounds(s1: u32, e1: u32, s2: u32, e2: u32) -> (res: (u32, u32))
    requires
        s1 <= e1,
        s2 <= e2,
    ensures
        res.0 == (if s1 <= s2 { s1 } else { s2 }),
        res.1 == (if e1 >= e2 { e1 } else { e2 }),
{
    let merged = codespan::Span::new(s1, e1).merge(codespan::Span::new(s2, e2));
    (merged.start().0, merged.end().0)
}

/// Merging two spans gives the same span in either order.
pub proof fn law_merge_commutative(a: Span, b: Span)
    ensures
        a.spec_merge(b) == b.spec_merge(a),
{
}

/// Merging a span with itself gives the span back.
pub proof fn law_merge_idempotent(a: Span)
    ensures
        a.spec_merge(a) == a,
{
}

/// Merging is associative.
pub proof fn law_merge_associative(a: Span, b: Span, c: Span)
    ensures
        a.spec_merge(b).spec_merge(c) == a.spec_merge(b.spec_merge(c)),
{
}

/// The merge of two spans covers both of them.
pub proof fn law_merge_covers(a: Span, b: Span)
    ensures
        a.spec_merge(b).lo() <= a.lo(),
        a.spec_merge(b).lo() <= b.lo(),
        a.spec_merge(b).hi() >= a.hi(),
        a.spec_merge(b).hi() >= b.hi(),
{
}

} // verus!
