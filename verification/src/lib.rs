//! A bridge between a platform's text-input machinery and the view that holds
//! keyboard focus inside a window.
//!
//! The platform addresses text by half-open ranges of UTF-16 code units. Every
//! operation first asks for access to the shared application state and answers
//! with "nothing" when that access is already taken or when no view is focused.

pub mod utf16;
pub mod input_view;
pub mod text_field;
pub mod presenter;
pub mod app;
pub mod handler;
pub mod laws;

pub use app::{AppCell, AppContext, Window, WindowContext};
pub use handler::{InputHandler, WindowInputHandler};
pub use input_view::InputView;
pub use presenter::Presenter;
pub use text_field::TextField;
