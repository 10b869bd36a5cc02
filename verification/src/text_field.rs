//! A plain text field: the simplest view that can hold focus and take text
//! input.

use crate::input_view::{opt_span, span_of, InputView, Span, TextModel};
use crate::utf16::{decode, decode_utf16, encode, encode_utf16, text_of};
use std::ops::Range;
use vstd::prelude::*;
use vstd::slice::slice_subrange;

verus! {

/// A text held as UTF-16 units, with a selection and the span under
/// composition.
pub struct TextField {
    text: Vec<u16>,
    selected: Option<(usize, usize)>,
    marked: Option<(usize, usize)>,
}

/// The span of an optional pair of offsets.
pub open spec fn pair_span(pair: Option<(usize, usize)>) -> Option<Span> {
    match pair {
        Some(p) => Some(Span { start: p.0 as int, end: p.1 as int }),
        None => None,
    }
}

/// Appends `src[from..to]` to `out`.
fn append_range(out: &mut Vec<u16>, src: &Vec<u16>, from: usize, to: usize)
    requires
        from <= to <= src.len(),
    ensures
        final(out)@ == old(out)@ + src@.subrange(from as int, to as int),
{
    let mut i: usize = from;
    proof {
        assert(out@ + src@.subrange(from as int, from as int) =~= out@);
    }
    while i < to
        invariant
            from <= i <= to <= src.len(),
            out@ == old(out)@ + src@.subrange(from as int, i as int),
        decreases to - i,
    {
        out.push(src[i]);
        proof {
            assert(src@.subrange(from as int, i + 1) =~= src@.subrange(from as int, i as int).push(
                src@[i as int],
            ));
        }
        i = i + 1;
    }
}

/// The pair of offsets of an optional range.
fn to_pair(range: Option<Range<usize>>) -> (pair: Option<(usize, usize)>)
    ensures
        pair_span(pair) == opt_span(range),
{
    match range {
        Some(r) => Some((r.start, r.end)),
        None => None,
    }
}

/// The range of an optional pair of offsets.
fn to_range(pair: Option<(usize, usize)>) -> (range: Option<Range<usize>>)
    ensures
        opt_span(range) == pair_span(pair),
{
    match pair {
        Some(p) => Some(p.0..p.1),
        None => None,
    }
}

impl TextField {
    /// What the protocol sees of the field.
    pub closed spec fn spec_model(&self) -> TextModel {
        TextModel {
            text: self.text@,
            selected: pair_span(self.selected),
            marked: pair_span(self.marked),
        }
    }

    /// A field that holds `text`, with no selection and nothing under
    /// composition.
    pub fn new(text: &str) -> (field: TextField)
        ensures
            field.model() == (TextModel { text: encode(text@), selected: None, marked: None }),
    {
        TextField { text: encode_utf16(text), selected: None, marked: None }
    }

    /// The number of UTF-16 units that the field holds.
    pub fn len_utf16(&self) -> (len: usize)
        ensures
            len == self.model().text.len(),
    {
        self.text.len()
    }

    /// The whole text, or `None` where the units are no valid UTF-16.
    pub fn text(&self) -> (text: Option<String>)
        ensures
            text_of(text) == decode(self.model().text),
    {
        decode_utf16(self.text.as_slice())
    }

    /// Sets the selection.
    pub fn select(&mut self, range: Option<Range<usize>>)
        ensures
            final(self).model() == (TextModel { selected: opt_span(range), ..old(self).model() }),
    {
        self.selected = to_pair(range);
    }

    /// The offsets of `span`, cut back to the text.
    fn clip(&self, span: (usize, usize)) -> (at: (usize, usize))
        ensures
            (Span { start: at.0 as int, end: at.1 as int }) == self.spec_model().clip(
                Span { start: span.0 as int, end: span.1 as int },
            ),
            at.0 <= at.1 <= self.text.len(),
    {
        let len = self.text.len();
        let start = if span.0 <= len {
            span.0
        } else {
            len
        };
        let end = if span.1 <= len {
            span.1
        } else {
            len
        };
        (
            start,
            if end < start {
                start
            } else {
                end
            },
        )
    }

    /// The offsets at which a replacement lands.
    fn target(&self, range: Option<(usize, usize)>) -> (at: (usize, usize))
        ensures
            (Span { start: at.0 as int, end: at.1 as int }) == self.spec_model().target(
                pair_span(range),
            ),
            at.0 <= at.1 <= self.text.len(),
    {
        match range {
            Some(r) => self.clip(r),
            None => match self.marked {
                Some(m) => self.clip(m),
                None => match self.selected {
                    Some(s) => self.clip(s),
                    None => (self.text.len(), self.text.len()),
                },
            },
        }
    }

    /// Exchanges the units of `at` for `units`.
    fn splice(&mut self, at: (usize, usize), units: &Vec<u16>)
        requires
            at.0 <= at.1 <= old(self).text.len(),
        ensures
            final(self).text@ == old(self).spec_model().splice(
                Span { start: at.0 as int, end: at.1 as int },
                units@,
            ),
            final(self).selected == old(self).selected,
            final(self).marked == old(self).marked,
            at.0 + units.len() <= final(self).text.len(),
    {
        let mut text: Vec<u16> = Vec::new();
        append_range(&mut text, &self.text, 0, at.0);
        append_range(&mut text, units, 0, units.len());
        append_range(&mut text, &self.text, at.1, self.text.len());
        proof {
            assert(units@.subrange(0, units@.len() as int) =~= units@);
            assert(text@ =~= Seq::<u16>::empty() + self.text@.subrange(0, at.0 as int) + units@
                + self.text@.subrange(at.1 as int, self.text@.len() as int));
            assert(text@ =~= self.spec_model().splice(
                Span { start: at.0 as int, end: at.1 as int },
                units@,
            ));
        }
        self.text = text;
    }
}

impl InputView for TextField {
    open spec fn model(&self) -> TextModel {
        self.spec_model()
    }

    fn text_for_range(&self, range: Range<usize>) -> (text: Option<String>) {
        if range.start <= range.end && range.end <= self.text.len() {
            decode_utf16(slice_subrange(self.text.as_slice(), range.start, range.end))
        } else {
            None
        }
    }

    fn selected_text_range(&self) -> (range: Option<Range<usize>>) {
        to_range(self.selected)
    }

    fn marked_text_range(&self) -> (range: Option<Range<usize>>) {
        to_range(self.marked)
    }

    fn replace_text_in_range(&mut self, range: Option<Range<usize>>, text: &str) {
        let units = encode_utf16(text);
        let at = self.target(to_pair(range));
        self.splice(at, &units);
        let caret = at.0 + units.len();
        self.selected = Some((caret, caret));
        self.marked = None;
    }

    fn unmark_text(&mut self) {
        self.marked = None;
    }

    fn replace_and_mark_text_in_range(
        &mut self,
        range: Option<Range<usize>>,
        new_text: &str,
        new_selected_range: Option<Range<usize>>,
    ) {
        let units = encode_utf16(new_text);
        let len = units.len();
        let at = self.target(to_pair(range));
        self.splice(at, &units);
        let selected = match new_selected_range {
            Some(s) => {
                let from = if s.start <= len {
                    s.start
                } else {
                    len
                };
                let to = if s.end <= len {
                    s.end
                } else {
                    len
                };
                (
                    at.0 + from,
                    at.0 + if to < from {
                        from
                    } else {
                        to
                    },
                )
            },
            None => (at.0 + len, at.0 + len),
        };
        self.selected = Some(selected);
        self.marked = if len > 0 {
            Some((at.0, at.0 + len))
        } else {
            None
        };
    }
}

} // verus!
