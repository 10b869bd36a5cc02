//! The bridge itself: the text-input operations of one window, each routed
//! to the view that holds focus there.

use crate::app::{focused_view_of, AppCell, AppContext, WindowContext, WindowModel};
use crate::input_view::{opt_span, span_of, InputView, Span, TextModel};
use crate::utf16::{encode, text_of};
use pathfinder_geometry::rect::RectF;
use std::ops::Range;
use vstd::prelude::*;

verus! {

broadcast use vstd::std_specs::hash::group_hash_axioms;

/// The text-input protocol, as the platform calls it. Ranges count UTF-16
/// units. No operation fails: one that cannot be carried out answers `None`
/// or does nothing.
pub trait InputHandler {
    /// The text of `range`.
    fn text_for_range(&self, range: Range<usize>) -> Option<String>;

    /// The selection.
    fn selected_text_range(&self) -> Option<Range<usize>>;

    /// Puts `text` in place of `range`, or of the selection where `range` is
    /// `None`.
    fn replace_text_in_range(&mut self, range: Option<Range<usize>>, text: &str);

    /// The text under composition.
    fn marked_text_range(&self) -> Option<Range<usize>>;

    /// Ends composition.
    fn unmark_text(&mut self);

    /// Puts `new_text` in place of `range` and leaves it under composition.
    fn replace_and_mark_text_in_range(
        &mut self,
        range: Option<Range<usize>>,
        new_text: &str,
        new_selected_range: Option<Range<usize>>,
    );

    /// The rectangle at which `range_utf16` stands on screen.
    fn rect_for_range(&self, range_utf16: Range<usize>) -> Option<RectF>;
}

/// The text-input handler of one window. It keeps nothing between calls but
/// the application state and the window's id.
pub struct WindowInputHandler<V> {
    pub app: AppCell<V>,
    pub window_id: usize,
}

impl<V> WindowInputHandler<V> {
    /// The view that holds focus in this window, whoever holds the state.
    pub open spec fn focused_view(&self) -> Option<V> {
        focused_view_of(self.app.value()@, self.window_id)
    }

    /// The view that a read reaches: the focused one, unless a writer holds
    /// the state.
    pub open spec fn read_target(&self) -> Option<V> {
        if self.app.is_borrowed_mut() {
            None
        } else {
            self.focused_view()
        }
    }

    /// The view that an update reaches: the focused one, unless anyone holds
    /// the state.
    pub open spec fn update_target(&self) -> Option<V> {
        if self.app.is_borrowed() {
            None
        } else {
            self.focused_view()
        }
    }

    /// The id of the focused view, where `focused_view` is `Some`.
    pub open spec fn focused_id(&self) -> usize {
        self.app.value()@[self.window_id].focused->0
    }

    /// Whether `cx` is what an update of this window starts from: the window
    /// as it stands, without the focused view, which the update holds apart.
    pub open spec fn hands_out(&self, cx: WindowContext<V>) -> bool {
        let window = self.app.value()@[self.window_id];
        &&& cx.window_id == self.window_id
        &&& cx.window@ == WindowModel { views: window.views.remove(self.focused_id()), ..window }
    }

    /// Whether `post` is this handler after an update that left `view` and
    /// `cx` behind: the view is back in the window under its id, the window
    /// back in the application, and nothing else has changed.
    pub open spec fn takes_back(&self, post: Self, view: V, cx: WindowContext<V>) -> bool {
        &&& post.window_id == self.window_id
        &&& !post.app.is_borrowed()
        &&& post.app.value()@ == self.app.value()@.insert(
            self.window_id,
            WindowModel { views: cx.window@.views.insert(self.focused_id(), view), ..cx.window@ },
        )
    }

    /// Runs `f` on the focused view of this window and on the application
    /// state, both for reading. Answers `None`, without running `f`, while a
    /// writer holds the state or no view is focused.
    pub fn read_focused_view<T, F>(&self, f: F) -> (result: Option<T>) where
        F: FnOnce(&V, &AppContext<V>) -> T,

        requires
            self.read_target() matches Some(view) ==> call_requires(
                f,
                (&view, &self.app.value()),
            ),
        ensures
            match result {
                Some(t) => self.read_target() matches Some(view) && call_ensures(
                    f,
                    (&view, &self.app.value()),
                    t,
                ),
                None => self.read_target() is None,
            },
            self.app.is_borrowed_mut() ==> result is None,
            self.focused_view() is None ==> result is None,
    {
        let app = self.app.try_borrow()?;
        let view_id = app.focused_view_id(self.window_id)?;
        let view = app.get_view(self.window_id, view_id)?;
        let result = f(view, app);
        Some(result)
    }

    /// Runs `f` on the focused view of this window, for writing. `f` also
    /// gets the window, which it may change, and the view's id. Answers
    /// `None`, without running `f` and without changing anything, while
    /// anyone holds the state or no view is focused.
    pub fn update_focused_view<T, F>(&mut self, f: F) -> (result: Option<T>) where
        F: FnOnce(&mut V, &mut WindowContext<V>, usize) -> T,

        requires
            old(self).update_target() matches Some(view) ==> forall|
                v: &mut V,
                cx: &mut WindowContext<V>,
            |
                *v == view && old(self).hands_out(*cx) ==> #[trigger] call_requires(
                    f,
                    (v, cx, old(self).focused_id()),
                ),
        ensures
            result is Some <==> old(self).update_target() is Some,
            result is None ==> *final(self) == *old(self),
            result matches Some(t) ==> exists|v: &mut V, cx: &mut WindowContext<V>|
                {
                    &&& Some(*v) == old(self).update_target()
                    &&& old(self).hands_out(*cx)
                    &&& #[trigger] call_ensures(f, (v, cx, old(self).focused_id()), t)
                    &&& old(self).takes_back(*final(self), *final(v), *final(cx))
                },
            old(self).app.is_borrowed() ==> result is None,
            old(self).focused_view() is None ==> result is None,
    {
        let window_id = self.window_id;
        let ghost before = self.app.value()@;
        let app = self.app.try_borrow_mut()?;
        let view_id = app.focused_view_id(window_id)?;
        if app.get_view(window_id, view_id).is_none() {
            return None;
        }
        let removed = app.windows.remove(&window_id);
        let mut window = match removed {
            Some(window) => window,
            None => {
                return None;
            },
        };
        let taken = window.views.remove(&view_id);
        let mut view = match taken {
            Some(view) => view,
            None => {
                return None;
            },
        };
        let mut cx = WindowContext { window_id, window };
        proof {
            assert(view_id == old(self).focused_id());
            assert(old(self).update_target() == Some(view));
            assert(cx.window@ =~= WindowModel {
                views: before[window_id].views.remove(view_id),
                ..before[window_id]
            });
            assert(old(self).hands_out(cx));
        }
        let t = f(&mut view, &mut cx, view_id);
        let ghost view_left = view;
        let ghost cx_left = cx;
        let mut window = cx.window;
        window.views.insert(view_id, view);
        app.windows.insert(window_id, window);
        proof {
            assert(app@ =~= before.insert(
                window_id,
                WindowModel {
                    views: cx_left.window@.views.insert(view_id, view_left),
                    ..cx_left.window@
                },
            ));
        }
        let result = Some(t);
        proof {
            assert(old(self).takes_back(*self, view_left, cx_left));
            assert(result->0 == t);
            assert(exists|v: &mut V, cx: &mut WindowContext<V>|
                {
                    &&& Some(*v) == old(self).update_target()
                    &&& old(self).hands_out(*cx)
                    &&& #[trigger] call_ensures(f, (v, cx, old(self).focused_id()), result->0)
                    &&& old(self).takes_back(*self, *final(v), *final(cx))
                });
        }
        result
    }
}

impl<V: InputView> WindowInputHandler<V> {
    /// What a read of the focused view's text in `span` answers.
    pub open spec fn spec_text_for_range(&self, span: Span) -> Option<Seq<char>> {
        match self.read_target() {
            Some(view) => view.model().text_in(span),
            None => None,
        }
    }

    /// What a read of the selection answers.
    pub open spec fn spec_selected_text_range(&self) -> Option<Span> {
        match self.read_target() {
            Some(view) => view.model().selected,
            None => None,
        }
    }

    /// What a read of the span under composition answers.
    pub open spec fn spec_marked_text_range(&self) -> Option<Span> {
        match self.read_target() {
            Some(view) => view.model().marked,
            None => None,
        }
    }

    /// Whether `post` is this handler after the focused view has come to show
    /// `model`: the view stands in the same place, and nothing else has
    /// changed.
    pub open spec fn focused_view_became(&self, post: Self, model: TextModel) -> bool {
        let window = self.app.value()@[self.window_id];
        let id = self.focused_id();
        let view = post.app.value()@[self.window_id].views[id];
        &&& post.window_id == self.window_id
        &&& !post.app.is_borrowed()
        &&& view.model() == model
        &&& post.app.value()@ == self.app.value()@.insert(
            self.window_id,
            WindowModel { views: window.views.insert(id, view), ..window },
        )
    }

    /// Whether `post` is this handler after an update that was to leave the
    /// focused view showing `change` of what it showed: just that where an
    /// update reaches a view, and no change at all where it reaches none.
    pub open spec fn updated(&self, post: Self, change: spec_fn(TextModel) -> TextModel) -> bool {
        match self.update_target() {
            Some(view) => self.focused_view_became(post, change(view.model())),
            None => post == *self,
        }
    }

    /// An update that changes the view as `change` says and leaves the window
    /// alone leaves the handler as `updated` says.
    proof fn lemma_view_back_in_place<F>(
        &self,
        post: Self,
        change: spec_fn(TextModel) -> TextModel,
        f: F,
        t: (),
    ) where F: FnOnce(&mut V, &mut WindowContext<V>, usize) -> ()
        requires
            self.update_target() is Some,
            forall|v: &mut V, cx: &mut WindowContext<V>, id: usize|
                #[trigger] call_ensures(f, (v, cx, id), t) ==> final(v).model() == change(
                    v.model(),
                ) && *final(cx) == *cx,
            exists|v: &mut V, cx: &mut WindowContext<V>|
                {
                    &&& Some(*v) == self.update_target()
                    &&& self.hands_out(*cx)
                    &&& #[trigger] call_ensures(f, (v, cx, self.focused_id()), t)
                    &&& self.takes_back(post, *final(v), *final(cx))
                },
        ensures
            self.updated(post, change),
    {
        let (v, cx) = choose|v: &mut V, cx: &mut WindowContext<V>|
            {
                &&& Some(*v) == self.update_target()
                &&& self.hands_out(*cx)
                &&& #[trigger] call_ensures(f, (v, cx, self.focused_id()), t)
                &&& self.takes_back(post, *final(v), *final(cx))
            };
        let window = self.app.value()@[self.window_id];
        let id = self.focused_id();
        assert(window.views.remove(id).insert(id, *final(v)) =~= window.views.insert(
            id,
            *final(v),
        ));
    }

    /// What a query for the rectangle of `span` answers: what the window's
    /// presenter shows it at, and `None` while a writer holds the state or
    /// the window or its presenter is missing.
    pub open spec fn spec_rect_for_range(&self, span: Span) -> Option<RectF> {
        let app = self.app.value()@;
        if self.app.is_borrowed_mut() || !app.contains_key(self.window_id) {
            None
        } else {
            match app[self.window_id].presenter {
                Some(presenter) => presenter.rect_of(span),
                None => None,
            }
        }
    }
}

impl<V: InputView> InputHandler for WindowInputHandler<V> {
    /// The text of `range` in the focused view.
    fn text_for_range(&self, range: Range<usize>) -> (text: Option<String>)
        ensures
            text_of(text) == self.spec_text_for_range(span_of(range)),
            self.app.is_borrowed_mut() ==> text is None,
            self.focused_view() is None ==> text is None,
    {
        let ghost span = span_of(range);
        let read = |view: &V, _app: &AppContext<V>| -> (text: Option<String>)
            ensures
                text_of(text) == view.model().text_in(span),
            {
                view.text_for_range(range)
            };
        let found = self.read_focused_view(read);
        match found {
            Some(text) => text,
            None => None,
        }
    }

    /// The selection of the focused view.
    fn selected_text_range(&self) -> (range: Option<Range<usize>>)
        ensures
            opt_span(range) == self.spec_selected_text_range(),
            self.app.is_borrowed_mut() ==> range is None,
            self.focused_view() is None ==> range is None,
    {
        let read = |view: &V, _app: &AppContext<V>| -> (range: Option<Range<usize>>)
            ensures
                opt_span(range) == view.model().selected,
            {
                view.selected_text_range()
            };
        let found = self.read_focused_view(read);
        match found {
            Some(range) => range,
            None => None,
        }
    }

    /// Puts `text` in place of `range` in the focused view.
    fn replace_text_in_range(&mut self, range: Option<Range<usize>>, text: &str)
        ensures
            old(self).updated(
                *final(self),
                |m: TextModel| m.replace(opt_span(range), encode(text@)),
            ),
            old(self).app.is_borrowed() ==> *final(self) == *old(self),
            old(self).focused_view() is None ==> *final(self) == *old(self),
    {
        let ghost span = opt_span(range);
        let update = |view: &mut V, cx: &mut WindowContext<V>, _view_id: usize|
            ensures
                final(view).model() == old(view).model().replace(span, encode(text@)),
                *final(cx) == *old(cx),
            {
                view.replace_text_in_range(range, text);
            };
        let done = self.update_focused_view(update);
        proof {
            if done is Some {
                old(self).lemma_view_back_in_place(
                    *self,
                    |m: TextModel| m.replace(opt_span(range), encode(text@)),
                    update,
                    done->0,
                );
            }
        }
    }

    /// The span under composition in the focused view.
    fn marked_text_range(&self) -> (range: Option<Range<usize>>)
        ensures
            opt_span(range) == self.spec_marked_text_range(),
            self.app.is_borrowed_mut() ==> range is None,
            self.focused_view() is None ==> range is None,
    {
        let read = |view: &V, _app: &AppContext<V>| -> (range: Option<Range<usize>>)
            ensures
                opt_span(range) == view.model().marked,
            {
                view.marked_text_range()
            };
        let found = self.read_focused_view(read);
        match found {
            Some(range) => range,
            None => None,
        }
    }

    /// Ends composition in the focused view.
    fn unmark_text(&mut self)
        ensures
            old(self).updated(*final(self), |m: TextModel| m.unmark()),
            old(self).app.is_borrowed() ==> *final(self) == *old(self),
            old(self).focused_view() is None ==> *final(self) == *old(self),
    {
        let update = |view: &mut V, cx: &mut WindowContext<V>, _view_id: usize|
            ensures
                final(view).model() == old(view).model().unmark(),
                *final(cx) == *old(cx),
            {
                view.unmark_text();
            };
        let done = self.update_focused_view(update);
        proof {
            if done is Some {
                old(self).lemma_view_back_in_place(
                    *self,
                    |m: TextModel| m.unmark(),
                    update,
                    done->0,
                );
            }
        }
    }

    /// Puts `new_text` in place of `range` in the focused view and leaves it
    /// under composition, with `new_selected_range` selected inside it.
    fn replace_and_mark_text_in_range(
        &mut self,
        range: Option<Range<usize>>,
        new_text: &str,
        new_selected_range: Option<Range<usize>>,
    )
        ensures
            old(self).updated(
                *final(self),
                |m: TextModel|
                    m.replace_and_mark(
                        opt_span(range),
                        encode(new_text@),
                        opt_span(new_selected_range),
                    ),
            ),
            old(self).app.is_borrowed() ==> *final(self) == *old(self),
            old(self).focused_view() is None ==> *final(self) == *old(self),
    {
        let ghost span = opt_span(range);
        let ghost selection = opt_span(new_selected_range);
        let update = |view: &mut V, cx: &mut WindowContext<V>, _view_id: usize|
            ensures
                final(view).model() == old(view).model().replace_and_mark(
                    span,
                    encode(new_text@),
                    selection,
                ),
                *final(cx) == *old(cx),
            {
                view.replace_and_mark_text_in_range(range, new_text, new_selected_range);
            };
        let done = self.update_focused_view(update);
        proof {
            if done is Some {
                old(self).lemma_view_back_in_place(
                    *self,
                    |m: TextModel|
                        m.replace_and_mark(
                            opt_span(range),
                            encode(new_text@),
                            opt_span(new_selected_range),
                        ),
                    update,
                    done->0,
                );
            }
        }
    }

    /// The rectangle at which the window's layout shows `range_utf16`. Like
    /// every other operation this one gives way to a writer: it answers
    /// `None` and does not wait.
    fn rect_for_range(&self, range_utf16: Range<usize>) -> (rect: Option<RectF>)
        ensures
            rect == self.spec_rect_for_range(span_of(range_utf16)),
            self.app.is_borrowed_mut() ==> rect is None,
    {
        let app = self.app.try_borrow()?;
        let presenter = app.presenter(self.window_id)?;
        presenter.rect_for_text_range(range_utf16)
    }
}

} // verus!
