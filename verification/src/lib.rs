//! A windowed terminal application: a stack of windows, one of them active,
//! driven by a render, update and event loop.
//!
//! The library holds the window stack and every decision of the loop. Drawing
//! to the terminal and waiting for input are left to a driver, which performs
//! one [`Action`] at a time and reports back with a [`Report`].

pub mod application;
pub mod default_window;
pub mod laws;
pub mod model;
pub mod terminal;
pub mod window;

pub use application::{Action, Application, Report, POLL_BUDGET_MILLIS};
pub use default_window::DefaultWindow;
pub use model::AppState;
pub use terminal::Event;
pub use window::{MutateResult, Window};
