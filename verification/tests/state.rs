use text_input_bridge::{AppCell, AppContext, Presenter, TextField};

#[test]
fn new_app_has_no_windows() {
    let app = AppContext::<TextField>::new();
    assert_eq!(app.focused_view_id(1), None);
    assert!(app.get_view(1, 1).is_none());
    assert!(app.presenter(1).is_none());
}

#[test]
fn add_window_opens_an_empty_window() {
    let mut app = AppContext::<TextField>::new();
    app.add_window(3);
    assert_eq!(app.focused_view_id(3), None);
    assert!(app.get_view(3, 0).is_none());
    assert!(app.presenter(3).is_none());
    assert!(app.windows.contains_key(&3));
}

#[test]
fn add_window_again_empties_it() {
    let mut app = AppContext::new();
    app.add_window(3);
    app.add_view(3, 1, TextField::new("x"));
    app.set_focus(3, Some(1));
    app.add_window(3);
    assert_eq!(app.focused_view_id(3), None);
    assert!(app.get_view(3, 1).is_none());
}

#[test]
fn add_view_needs_the_window() {
    let mut app = AppContext::new();
    assert!(!app.add_view(3, 1, TextField::new("x")));
    assert!(app.get_view(3, 1).is_none());
    app.add_window(3);
    assert!(app.add_view(3, 1, TextField::new("x")));
    assert_eq!(app.get_view(3, 1).unwrap().text(), Some("x".to_string()));
    assert!(app.get_view(3, 2).is_none());
    assert!(app.get_view(4, 1).is_none());
}

#[test]
fn add_view_replaces_a_view_of_the_same_id() {
    let mut app = AppContext::new();
    app.add_window(3);
    app.add_view(3, 1, TextField::new("x"));
    app.add_view(3, 1, TextField::new("y"));
    assert_eq!(app.get_view(3, 1).unwrap().text(), Some("y".to_string()));
}

#[test]
fn set_focus_needs_the_window() {
    let mut app = AppContext::<TextField>::new();
    assert!(!app.set_focus(3, Some(1)));
    app.add_window(3);
    assert!(app.set_focus(3, Some(1)));
    assert_eq!(app.focused_view_id(3), Some(1));
    assert!(app.set_focus(3, None));
    assert_eq!(app.focused_view_id(3), None);
}

#[test]
fn set_presenter_needs_the_window() {
    let mut app = AppContext::<TextField>::new();
    assert!(!app.set_presenter(3, Some(Presenter::new())));
    app.add_window(3);
    assert!(app.set_presenter(3, Some(Presenter::new())));
    assert!(app.presenter(3).is_some());
    assert!(app.set_presenter(3, None));
    assert!(app.presenter(3).is_none());
}

#[test]
fn new_cell_is_free() {
    let mut cell = AppCell::new(AppContext::<TextField>::new());
    assert!(cell.try_borrow().is_some());
    assert!(cell.try_borrow_mut().is_some());
}

#[test]
fn writer_shuts_out_everyone() {
    let mut cell = AppCell::new(AppContext::<TextField>::new());
    assert!(cell.acquire_exclusive());
    assert!(cell.try_borrow().is_none());
    assert!(cell.try_borrow_mut().is_none());
    assert!(!cell.acquire_exclusive());
    assert!(!cell.acquire_shared());
    assert!(!cell.release_shared());
    assert!(cell.release_exclusive());
    assert!(!cell.release_exclusive());
    assert!(cell.try_borrow().is_some());
    assert!(cell.try_borrow_mut().is_some());
}

#[test]
fn readers_shut_out_writers_only() {
    let mut cell = AppCell::new(AppContext::<TextField>::new());
    assert!(cell.acquire_shared());
    assert!(cell.acquire_shared());
    assert!(cell.try_borrow().is_some());
    assert!(cell.try_borrow_mut().is_none());
    assert!(!cell.acquire_exclusive());
    assert!(!cell.release_exclusive());
    assert!(cell.release_shared());
    assert!(cell.try_borrow_mut().is_none());
    assert!(cell.release_shared());
    assert!(!cell.release_shared());
    assert!(cell.try_borrow_mut().is_some());
    assert!(cell.acquire_exclusive());
}

#[test]
fn try_borrow_mut_gives_the_state_to_change() {
    let mut cell = AppCell::new(AppContext::<TextField>::new());
    cell.try_borrow_mut().unwrap().add_window(9);
    cell.try_borrow_mut().unwrap().set_focus(9, Some(4));
    assert_eq!(cell.try_borrow().unwrap().focused_view_id(9), Some(4));
}
