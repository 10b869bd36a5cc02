//! The application state that the bridge reads and changes: windows, their
//! views and focus, and the cell that guards access to all of it.

use crate::presenter::Presenter;
use std::collections::HashMap;
use vstd::prelude::*;

verus! {

broadcast use vstd::std_specs::hash::group_hash_axioms;

/// A window: the views in it, which of them holds focus, and its layout.
pub struct Window<V> {
    pub focused_view_id: Option<usize>,
    pub views: HashMap<usize, V>,
    pub presenter: Option<Presenter>,
}

/// What a window holds.
#[verifier::ext_equal]
pub struct WindowModel<V> {
    pub focused: Option<usize>,
    pub views: Map<usize, V>,
    pub presenter: Option<Presenter>,
}

impl<V> View for Window<V> {
    type V = WindowModel<V>;

    open spec fn view(&self) -> WindowModel<V> {
        WindowModel {
            focused: self.focused_view_id,
            views: self.views@,
            presenter: self.presenter,
        }
    }
}

impl<V> WindowModel<V> {
    /// The view that holds focus: `None` where none does, or where the one
    /// named is not in the window.
    pub open spec fn focused_view(self) -> Option<V> {
        match self.focused {
            Some(id) => if self.views.contains_key(id) {
                Some(self.views[id])
            } else {
                None
            },
            None => None,
        }
    }
}

/// All windows of the application, by their ids.
pub struct AppContext<V> {
    pub windows: HashMap<usize, Window<V>>,
}

impl<V> View for AppContext<V> {
    type V = Map<usize, WindowModel<V>>;

    open spec fn view(&self) -> Map<usize, WindowModel<V>> {
        Map::new(|id: usize| self.windows@.contains_key(id), |id: usize| self.windows@[id]@)
    }
}

/// The view that holds focus in window `window_id` of `app`.
pub open spec fn focused_view_of<V>(app: Map<usize, WindowModel<V>>, window_id: usize) -> Option<
    V,
> {
    if app.contains_key(window_id) {
        app[window_id].focused_view()
    } else {
        None
    }
}

impl<V> AppContext<V> {
    /// An application without windows.
    pub fn new() -> (app: AppContext<V>)
        ensures
            app@ == Map::<usize, WindowModel<V>>::empty(),
    {
        let app = AppContext { windows: HashMap::new() };
        proof {
            assert(app@ =~= Map::<usize, WindowModel<V>>::empty());
        }
        app
    }

    /// Opens window `window_id`, empty: without views, focus or layout. A
    /// window that had this id is gone.
    pub fn add_window(&mut self, window_id: usize)
        ensures
            final(self)@ == old(self)@.insert(
                window_id,
                WindowModel { focused: None, views: Map::empty(), presenter: None },
            ),
    {
        let window = Window { focused_view_id: None, views: HashMap::new(), presenter: None };
        self.windows.insert(window_id, window);
        proof {
            assert(window@ =~= WindowModel { focused: None, views: Map::empty(), presenter: None });
            assert(self@ =~= old(self)@.insert(window_id, window@));
        }
    }

    /// Puts `view` into the window under `view_id`, in place of a view that
    /// had this id. Answers `false`, and changes nothing, where there is no
    /// such window.
    pub fn add_view(&mut self, window_id: usize, view_id: usize, view: V) -> (added: bool)
        ensures
            added == old(self)@.contains_key(window_id),
            added ==> final(self)@ == old(self)@.insert(
                window_id,
                WindowModel {
                    views: old(self)@[window_id].views.insert(view_id, view),
                    ..old(self)@[window_id]
                },
            ),
            !added ==> *final(self) == *old(self),
    {
        if !self.windows.contains_key(&window_id) {
            return false;
        }
        match self.windows.remove(&window_id) {
            Some(window) => {
                let mut window = window;
                window.views.insert(view_id, view);
                self.windows.insert(window_id, window);
                proof {
                    assert(window@ =~= WindowModel {
                        views: old(self)@[window_id].views.insert(view_id, view),
                        ..old(self)@[window_id]
                    });
                    assert(self@ =~= old(self)@.insert(window_id, window@));
                }
                true
            },
            None => false,
        }
    }

    /// Gives focus in the window to the view `view_id`, or to none. Answers
    /// `false`, and changes nothing, where there is no such window.
    pub fn set_focus(&mut self, window_id: usize, view_id: Option<usize>) -> (set: bool)
        ensures
            set == old(self)@.contains_key(window_id),
            set ==> final(self)@ == old(self)@.insert(
                window_id,
                WindowModel { focused: view_id, ..old(self)@[window_id] },
            ),
            !set ==> *final(self) == *old(self),
    {
        if !self.windows.contains_key(&window_id) {
            return false;
        }
        match self.windows.remove(&window_id) {
            Some(window) => {
                let mut window = window;
                window.focused_view_id = view_id;
                self.windows.insert(window_id, window);
                proof {
                    assert(window@ =~= WindowModel {
                        focused: view_id,
                        ..old(self)@[window_id]
                    });
                    assert(self@ =~= old(self)@.insert(window_id, window@));
                }
                true
            },
            None => false,
        }
    }

    /// Gives the window its layout, or takes it away. Answers `false`, and
    /// changes nothing, where there is no such window.
    pub fn set_presenter(&mut self, window_id: usize, presenter: Option<Presenter>) -> (set:
        bool)
        ensures
            set == old(self)@.contains_key(window_id),
            set ==> final(self)@ == old(self)@.insert(
                window_id,
                WindowModel { presenter, ..old(self)@[window_id] },
            ),
            !set ==> *final(self) == *old(self),
    {
        if !self.windows.contains_key(&window_id) {
            return false;
        }
        match self.windows.remove(&window_id) {
            Some(window) => {
                let mut window = window;
                window.presenter = presenter;
                self.windows.insert(window_id, window);
                proof {
                    assert(window@ =~= WindowModel { presenter, ..old(self)@[window_id] });
                    assert(self@ =~= old(self)@.insert(window_id, window@));
                }
                true
            },
            None => false,
        }
    }

    /// The id of the view that holds focus in the window.
    pub fn focused_view_id(&self, window_id: usize) -> (id: Option<usize>)
        ensures
            id == if self@.contains_key(window_id) {
                self@[window_id].focused
            } else {
                None
            },
    {
        match self.windows.get(&window_id) {
            Some(window) => window.focused_view_id,
            None => None,
        }
    }

    /// The view `view_id` of the window.
    pub fn get_view(&self, window_id: usize, view_id: usize) -> (view: Option<&V>)
        ensures
            view == if self@.contains_key(window_id) && self@[window_id].views.contains_key(
                view_id,
            ) {
                Some(&self@[window_id].views[view_id])
            } else {
                None
            },
    {
        match self.windows.get(&window_id) {
            Some(window) => window.views.get(&view_id),
            None => None,
        }
    }

    /// The layout of the window.
    pub fn presenter(&self, window_id: usize) -> (presenter: Option<&Presenter>)
        ensures
            presenter == if self@.contains_key(window_id) {
                match self@[window_id].presenter {
                    Some(p) => Some(&p),
                    None => None,
                }
            } else {
                None
            },
    {
        match self.windows.get(&window_id) {
            Some(window) => window.presenter.as_ref(),
            None => None,
        }
    }
}

/// The window that an update works in, taken out of the application for as
/// long as the update runs.
pub struct WindowContext<V> {
    pub window_id: usize,
    pub window: Window<V>,
}

/// The application state behind its guard. The guard records who holds
/// access from one call to the next: any number of readers or one writer.
/// `try_borrow` and `try_borrow_mut` hand the state out for the length of a
/// borrow. An attempt that a holder stands in the way of fails at once;
/// nothing ever waits.
pub struct AppCell<V> {
    readers: usize,
    writer: bool,
    value: AppContext<V>,
}

impl<V> AppCell<V> {
    /// The state in the cell.
    pub closed spec fn value(&self) -> AppContext<V> {
        self.value
    }

    /// How many readers hold access.
    pub closed spec fn readers(&self) -> nat {
        self.readers as nat
    }

    /// Whether a writer holds access.
    pub closed spec fn is_borrowed_mut(&self) -> bool {
        self.writer
    }

    /// Whether anyone holds access.
    pub open spec fn is_borrowed(&self) -> bool {
        self.is_borrowed_mut() || self.readers() > 0
    }

    /// A cell around `value` that nobody holds.
    pub fn new(value: AppContext<V>) -> (cell: AppCell<V>)
        ensures
            cell.value() == value,
            !cell.is_borrowed(),
    {
        AppCell { readers: 0, writer: false, value }
    }

    /// Takes access as one more reader, as a caller does that goes on to
    /// read the state. Answers `false`, and changes nothing, while a writer
    /// holds the state or the count of readers is full.
    pub fn acquire_shared(&mut self) -> (held: bool)
        ensures
            held == (!old(self).is_borrowed_mut() && old(self).readers() < usize::MAX),
            held ==> {
                &&& final(self).readers() == old(self).readers() + 1
                &&& !final(self).is_borrowed_mut()
                &&& final(self).value() == old(self).value()
            },
            !held ==> *final(self) == *old(self),
    {
        if self.writer || self.readers == usize::MAX {
            false
        } else {
            self.readers = self.readers + 1;
            true
        }
    }

    /// Gives back the access of one reader. Answers `false`, and changes
    /// nothing, where no reader holds any.
    pub fn release_shared(&mut self) -> (released: bool)
        ensures
            released == (old(self).readers() > 0),
            released ==> {
                &&& final(self).readers() == old(self).readers() - 1
                &&& final(self).is_borrowed_mut() == old(self).is_borrowed_mut()
                &&& final(self).value() == old(self).value()
            },
            !released ==> *final(self) == *old(self),
    {
        if self.readers > 0 {
            self.readers = self.readers - 1;
            true
        } else {
            false
        }
    }

    /// Takes access as the writer, as a caller does that goes on to change
    /// the state. Answers `false`, and changes nothing, while anyone holds
    /// the state.
    pub fn acquire_exclusive(&mut self) -> (held: bool)
        ensures
            held == !old(self).is_borrowed(),
            held ==> {
                &&& final(self).is_borrowed_mut()
                &&& final(self).readers() == 0
                &&& final(self).value() == old(self).value()
            },
            !held ==> *final(self) == *old(self),
    {
        if self.writer || self.readers > 0 {
            false
        } else {
            self.writer = true;
            true
        }
    }

    /// Gives back the writer's access. Answers `false`, and changes nothing,
    /// where no writer holds any.
    pub fn release_exclusive(&mut self) -> (released: bool)
        ensures
            released == old(self).is_borrowed_mut(),
            released ==> {
                &&& !final(self).is_borrowed_mut()
                &&& final(self).readers() == old(self).readers()
                &&& final(self).value() == old(self).value()
            },
            !released ==> *final(self) == *old(self),
    {
        if self.writer {
            self.writer = false;
            true
        } else {
            false
        }
    }

    /// The state for reading: `None` while a writer holds it.
    pub fn try_borrow(&self) -> (app: Option<&AppContext<V>>)
        ensures
            app == if self.is_borrowed_mut() {
                None
            } else {
                Some(&self.value())
            },
    {
        if self.writer {
            None
        } else {
            Some(&self.value)
        }
    }

    /// The state for writing: `None` while anyone holds it.
    pub fn try_borrow_mut(&mut self) -> (app: Option<&mut AppContext<V>>)
        ensures
            match app {
                Some(app) => {
                    &&& !old(self).is_borrowed()
                    &&& *app == old(self).value()
                    &&& final(self).value() == *final(app)
                    &&& !final(self).is_borrowed()
                    &&& *final(app) == *app ==> *final(self) == *old(self)
                },
                None => old(self).is_borrowed() && *final(self) == *old(self),
            },
    {
        if self.writer || self.readers > 0 {
            None
        } else {
            Some(&mut self.value)
        }
    }
}

} // verus!
