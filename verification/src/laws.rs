//! What holds of the operations taken together.

use crate::handler::WindowInputHandler;
use crate::input_view::{InputView, Span, TextModel};
use crate::utf16::{decode, encode, encode_char, lemma_decode_encode, lemma_encode_len};
use vstd::prelude::*;

verus! {

/// While a writer holds the application state, every query answers nothing
/// and every update leaves the handler as it was.
pub proof fn lemma_writer_shuts_out_all<V: InputView>(
    handler: WindowInputHandler<V>,
    post: WindowInputHandler<V>,
    span: Span,
    change: spec_fn(TextModel) -> TextModel,
)
    requires
        handler.app.is_borrowed_mut(),
    ensures
        handler.read_target() is None,
        handler.update_target() is None,
        handler.spec_text_for_range(span) is None,
        handler.spec_selected_text_range() is None,
        handler.spec_marked_text_range() is None,
        handler.spec_rect_for_range(span) is None,
        handler.updated(post, change) ==> post == handler,
{
}

/// While readers hold the application state, every update leaves the handler
/// as it was.
pub proof fn lemma_readers_shut_out_updates<V: InputView>(
    handler: WindowInputHandler<V>,
    post: WindowInputHandler<V>,
    change: spec_fn(TextModel) -> TextModel,
)
    requires
        handler.app.is_borrowed(),
    ensures
        handler.update_target() is None,
        handler.updated(post, change) ==> post == handler,
{
}

/// In a window where no view holds focus, every query of a view answers
/// nothing and every update leaves the handler as it was.
pub proof fn lemma_no_focus_no_effect<V: InputView>(
    handler: WindowInputHandler<V>,
    post: WindowInputHandler<V>,
    span: Span,
    change: spec_fn(TextModel) -> TextModel,
)
    requires
        handler.focused_view() is None,
    ensures
        handler.read_target() is None,
        handler.update_target() is None,
        handler.spec_text_for_range(span) is None,
        handler.spec_selected_text_range() is None,
        handler.spec_marked_text_range() is None,
        handler.updated(post, change) ==> post == handler,
{
}

/// An update that reaches a view leaves a handler that the next query
/// reaches the same view through, now showing what the update made of it.
pub proof fn lemma_update_then_read<V: InputView>(
    pre: WindowInputHandler<V>,
    post: WindowInputHandler<V>,
    change: spec_fn(TextModel) -> TextModel,
)
    requires
        pre.update_target() is Some,
        pre.updated(post, change),
    ensures
        post.read_target() is Some,
        post.update_target() is Some,
        post.read_target()->0.model() == change(pre.update_target()->0.model()),
{
    let window = pre.app.value()@[pre.window_id];
    let id = pre.focused_id();
    let view = post.app.value()@[pre.window_id].views[id];
    assert(post.app.value()@.contains_key(pre.window_id));
    assert(window.views.insert(id, view).contains_key(id));
}

/// After `text` has been put in place of a range that starts inside the
/// focused view's text or at its end, a query for as many units from the
/// start of that range as `text` takes answers `text`.
pub proof fn lemma_replace_then_query<V: InputView>(
    pre: WindowInputHandler<V>,
    post: WindowInputHandler<V>,
    range: Span,
    text: Seq<char>,
)
    requires
        pre.update_target() is Some,
        0 <= range.start <= pre.update_target()->0.model().text.len(),
        pre.updated(post, |m: TextModel| m.replace(Some(range), encode(text))),
    ensures
        post.spec_text_for_range(
            Span { start: range.start, end: range.start + encode(text).len() },
        ) == Some(text),
{
    let change = |m: TextModel| m.replace(Some(range), encode(text));
    lemma_update_then_read(pre, post, change);
    let before = pre.update_target()->0.model();
    let after = post.read_target()->0.model();
    let units = encode(text);
    assert(after == before.replace(Some(range), units));
    assert(before.target(Some(range)).start == range.start);
    assert(after.text.subrange(range.start, range.start + units.len()) =~= units);
    lemma_decode_encode(text);
}

/// After a replace-and-mark that reached a view, the text that was put in is
/// under composition, if there is any. After an unmark that follows a
/// replace-and-mark, a query for the span under composition answers nothing,
/// unless the two did not reach the view and something was marked before.
pub proof fn lemma_mark_then_unmark<V: InputView>(
    pre: WindowInputHandler<V>,
    marked: WindowInputHandler<V>,
    post: WindowInputHandler<V>,
    range: Option<Span>,
    text: Seq<char>,
    selection: Option<Span>,
)
    requires
        pre.updated(marked, |m: TextModel| m.replace_and_mark(range, encode(text), selection)),
        marked.updated(post, |m: TextModel| m.unmark()),
    ensures
        pre.update_target() is Some && text.len() > 0 ==> marked.spec_marked_text_range() is Some,
        pre.update_target() is Some || pre.spec_marked_text_range() is None
            ==> post.spec_marked_text_range() is None,
{
    if pre.update_target() is Some {
        lemma_update_then_read(
            pre,
            marked,
            |m: TextModel| m.replace_and_mark(range, encode(text), selection),
        );
        lemma_update_then_read(marked, post, |m: TextModel| m.unmark());
        lemma_encode_len(text);
    }
}

/// A character above `0xFFFF` takes two units. A view that holds it at
/// `start` answers with it for the range of both units, and answers nothing
/// for the range of either unit alone.
pub proof fn lemma_pair_is_addressed_whole(model: TextModel, start: int, c: char)
    requires
        c as u32 >= 0x10000,
        0 <= start,
        start + 2 <= model.text.len(),
        model.text.subrange(start, start + 2) == encode_char(c),
    ensures
        encode_char(c).len() == 2,
        model.text_in(Span { start, end: start + 2 }) == Some(seq![c]),
        model.text_in(Span { start, end: start + 1 }) is None,
        model.text_in(Span { start: start + 1, end: start + 2 }) is None,
{
    let pair = encode_char(c);
    assert(encode(seq![c]) =~= pair) by {
        reveal_with_fuel(encode, 2);
        assert(seq![c].skip(1) =~= Seq::<char>::empty());
    }
    lemma_decode_encode(seq![c]);
    let high = model.text.subrange(start, start + 1);
    let low = model.text.subrange(start + 1, start + 2);
    assert(high[0] == pair[0]);
    assert(low[0] == pair[1]);
    assert(decode(high) is None);
    assert(decode(low) is None);
}

} // verus!
