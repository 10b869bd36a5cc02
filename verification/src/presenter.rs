//! The layout of a window: where on screen each laid-out range of text
//! stands.

use crate::input_view::{span_of, Span};
use pathfinder_geometry::rect::RectF;
use std::ops::Range;
use vstd::prelude::*;

verus! {

/// `pathfinder_geometry::rect::RectF`, an axis-aligned rectangle of four
/// floats. The library hands such rectangles on and never looks inside one.
#[verifier::external_type_specification]
#[verifier::external_body]
pub struct ExRectF(RectF);

/// A range of text and the rectangle at which layout has put it.
pub struct Placement {
    pub start: usize,
    pub end: usize,
    pub rect: RectF,
}

impl Placement {
    /// The span of text that is placed.
    pub open spec fn span(self) -> Span {
        Span { start: self.start as int, end: self.end as int }
    }
}

/// The rectangle of `span` among `placements`, a later placement of a span
/// going before an earlier one.
pub open spec fn lookup(placements: Seq<Placement>, span: Span) -> Option<RectF>
    decreases placements.len(),
{
    if placements.len() == 0 {
        None
    } else if placements.last().span() == span {
        Some(placements.last().rect)
    } else {
        lookup(placements.drop_last(), span)
    }
}

/// The owner of a window's layout.
pub struct Presenter {
    placements: Vec<Placement>,
}

impl Presenter {
    /// The rectangle at which the current layout shows `span`, or `None`
    /// where it shows no such span.
    pub closed spec fn rect_of(&self, span: Span) -> Option<RectF> {
        lookup(self.placements@, span)
    }

    /// A presenter that has laid out nothing.
    pub fn new() -> (presenter: Presenter)
        ensures
            forall|span: Span| presenter.rect_of(span) is None,
    {
        Presenter { placements: Vec::new() }
    }

    /// Records that layout shows `range` at `rect`.
    pub fn place(&mut self, range: Range<usize>, rect: RectF)
        ensures
            forall|span: Span|
                #![trigger final(self).rect_of(span)]
                final(self).rect_of(span) == if span == span_of(range) {
                    Some(rect)
                } else {
                    old(self).rect_of(span)
                },
    {
        let ghost before = self.placements@;
        self.placements.push(Placement { start: range.start, end: range.end, rect });
        proof {
            assert(self.placements@.drop_last() =~= before);
        }
    }

    /// The rectangle of `range` in the current layout.
    pub fn rect_for_text_range(&self, range: Range<usize>) -> (rect: Option<RectF>)
        ensures
            rect == self.rect_of(span_of(range)),
    {
        let mut i: usize = self.placements.len();
        proof {
            assert(self.placements@.take(i as int) =~= self.placements@);
        }
        while i > 0
            invariant
                i <= self.placements.len(),
                lookup(self.placements@, span_of(range)) == lookup(
                    self.placements@.take(i as int),
                    span_of(range),
                ),
            decreases i,
        {
            i = i - 1;
            proof {
                assert(self.placements@.take(i + 1).drop_last() =~= self.placements@.take(
                    i as int,
                ));
            }
            if self.placements[i].start == range.start && self.placements[i].end == range.end {
                return Some(self.placements[i].rect);
            }
        }
        None
    }
}

} // verus!
