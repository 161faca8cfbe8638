//! The window that an application starts with.

use vstd::prelude::*;
use crate::window::{MutateResult, Window};

verus! {

/// A window without state and without operations: a place holder for the
/// window that the application is to start with. It is not implemented, so
/// none of its operations can be called, and an application must not render,
/// update or send an event to a stack in which it would be called on.
#[derive(Debug, Clone, PartialEq, PartialOrd, Default)]
pub struct DefaultWindow {}

impl Window for DefaultWindow {
    open spec fn implemented(&self) -> bool {
        false
    }

    fn render(&self, frame: &mut ratatui::Frame<'_>) {
        unreached()
    }

    fn step(&self) -> MutateResult<Self> {
        unreached()
    }

    fn on_focus_gained(&self) -> MutateResult<Self> {
        unreached()
    }

    fn on_focus_lost(&self) -> MutateResult<Self> {
        unreached()
    }

    fn on_key(&self, key: crossterm::event::KeyEvent) -> MutateResult<Self> {
        unreached()
    }

    fn on_mouse(&self, mouse: crossterm::event::MouseEvent) -> MutateResult<Self> {
        unreached()
    }

    fn on_paste(&self, data: String) -> MutateResult<Self> {
        unreached()
    }

    fn on_resize(&self, columns: u16, rows: u16) -> MutateResult<Self> {
        unreached()
    }
}

} // verus!
