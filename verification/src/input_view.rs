//! What a view must offer to take part in text input, and what the six
//! operations mean on the text that it holds.

use crate::utf16::{decode, encode, text_of};
use std::ops::Range;
use vstd::prelude::*;

verus! {

/// A half-open span of UTF-16 units, `start` up to but not including `end`.
pub struct Span {
    pub start: int,
    pub end: int,
}

/// The span that a range of offsets denotes.
pub open spec fn span_of(range: Range<usize>) -> Span {
    Span { start: range.start as int, end: range.end as int }
}

/// The span of an optional range.
pub open spec fn opt_span(range: Option<Range<usize>>) -> Option<Span> {
    match range {
        Some(r) => Some(span_of(r)),
        None => None,
    }
}

/// What the text-input protocol can see of a view: its text as UTF-16 units,
/// its selection, and the text under composition.
#[verifier::ext_equal]
pub struct TextModel {
    pub text: Seq<u16>,
    pub selected: Option<Span>,
    pub marked: Option<Span>,
}

impl TextModel {
    /// `span` cut back to the text: both ends at most the text's length, and
    /// the end not before the start.
    pub open spec fn clip(self, span: Span) -> Span {
        let len = self.text.len() as int;
        let start = if span.start <= len {
            span.start
        } else {
            len
        };
        let end = if span.end <= len {
            span.end
        } else {
            len
        };
        Span { start, end: if end < start { start } else { end } }
    }

    /// Where a replacement lands: the given range; without one the text under
    /// composition; without that the selection; without that the end of the
    /// text.
    pub open spec fn target(self, range: Option<Span>) -> Span {
        match range {
            Some(r) => self.clip(r),
            None => match self.marked {
                Some(m) => self.clip(m),
                None => match self.selected {
                    Some(s) => self.clip(s),
                    None => Span { start: self.text.len() as int, end: self.text.len() as int },
                },
            },
        }
    }

    /// The text with the units of `at` exchanged for `units`.
    pub open spec fn splice(self, at: Span, units: Seq<u16>) -> Seq<u16> {
        self.text.subrange(0, at.start) + units + self.text.subrange(
            at.end,
            self.text.len() as int,
        )
    }

    /// The text of `span`: `None` where the span does not lie in the text or
    /// cuts a surrogate pair.
    pub open spec fn text_in(self, span: Span) -> Option<Seq<char>> {
        if 0 <= span.start <= span.end <= self.text.len() {
            decode(self.text.subrange(span.start, span.end))
        } else {
            None
        }
    }

    /// After a replacement: the new units stand at the target, the caret
    /// behind them, and nothing is under composition.
    pub open spec fn replace(self, range: Option<Span>, units: Seq<u16>) -> TextModel {
        let at = self.target(range);
        let caret = at.start + units.len();
        TextModel {
            text: self.splice(at, units),
            selected: Some(Span { start: caret, end: caret }),
            marked: None,
        }
    }

    /// After composition has ended: the text stays and nothing is marked.
    pub open spec fn unmark(self) -> TextModel {
        TextModel { marked: None, ..self }
    }

    /// The selection that a replace-and-mark leaves: `selection` counted from
    /// the start of the new units and cut back to them, or the caret behind
    /// them.
    pub open spec fn selection_in_marked(
        start: int,
        len: int,
        selection: Option<Span>,
    ) -> Span {
        match selection {
            Some(s) => {
                let from = if s.start <= len {
                    s.start
                } else {
                    len
                };
                let to = if s.end <= len {
                    s.end
                } else {
                    len
                };
                Span { start: start + from, end: start + if to < from { from } else { to } }
            },
            None => Span { start: start + len, end: start + len },
        }
    }

    /// After a replace-and-mark: the new units stand at the target and are
    /// under composition (nothing is, where there are none).
    pub open spec fn replace_and_mark(
        self,
        range: Option<Span>,
        units: Seq<u16>,
        selection: Option<Span>,
    ) -> TextModel {
        let at = self.target(range);
        let len = units.len() as int;
        TextModel {
            text: self.splice(at, units),
            selected: Some(Self::selection_in_marked(at.start, len, selection)),
            marked: if len > 0 {
                Some(Span { start: at.start, end: at.start + len })
            } else {
                None
            },
        }
    }
}

/// The text-editing capability of a view. The bridge reaches the focused view
/// through this interface alone.
pub trait InputView: Sized {
    /// What the protocol sees of this view.
    spec fn model(&self) -> TextModel;

    /// The text of `range`.
    fn text_for_range(&self, range: Range<usize>) -> (text: Option<String>)
        ensures
            text_of(text) == self.model().text_in(span_of(range)),
    ;

    /// The selection.
    fn selected_text_range(&self) -> (range: Option<Range<usize>>)
        ensures
            opt_span(range) == self.model().selected,
    ;

    /// The text under composition.
    fn marked_text_range(&self) -> (range: Option<Range<usize>>)
        ensures
            opt_span(range) == self.model().marked,
    ;

    /// Puts `text` in place of `range`.
    fn replace_text_in_range(&mut self, range: Option<Range<usize>>, text: &str)
        ensures
            final(self).model() == old(self).model().replace(opt_span(range), encode(text@)),
    ;

    /// Ends composition.
    fn unmark_text(&mut self)
        ensures
            final(self).model() == old(self).model().unmark(),
    ;

    /// Puts `new_text` in place of `range` and leaves it under composition.
    fn replace_and_mark_text_in_range(
        &mut self,
        range: Option<Range<usize>>,
        new_text: &str,
        new_selected_range: Option<Range<usize>>,
    )
        ensures
            final(self).model() == old(self).model().replace_and_mark(
                opt_span(range),
                encode(new_text@),
                opt_span(new_selected_range),
            ),
    ;
}

} // verus!
