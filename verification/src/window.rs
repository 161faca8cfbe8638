//! The contract between the application and the windows it holds.

use vstd::prelude::*;
use crate::terminal::Event;

verus! {

/// What a window asks for after one of its operations.
///
/// A window never changes in place. To change, it hands back the window that
/// is to stand in its slot from now on.
#[derive(Debug, PartialEq, Eq)]
pub enum MutateResult<W> {
    /// The window stays as it is.
    Unchanged,
    /// The window is replaced by the one given.
    Changed(W),
}

/// A screen or panel of the application.
///
/// Every operation reads the window and leaves it as it is. Each handler is a
/// function of the window and of the event alone: its `spec_` companion names
/// what it returns, and the contracts of the application are stated over those
/// names. An implementation that is verified defines the companions; one that
/// is not may leave them out.
///
/// A window whose operations are not in place says so in
/// [`Window::implemented`]. Every operation asks for an implemented window, so
/// that no operation of such a window can be called.
pub trait Window: Sized {
    /// Whether the operations of this window are in place. They are unless an
    /// implementation says otherwise.
    open spec fn implemented(&self) -> bool {
        true
    }

    /// What [`Window::step`] returns.
    open spec fn spec_step(&self) -> MutateResult<Self> {
        arbitrary()
    }

    /// What [`Window::on_focus_gained`] returns.
    open spec fn spec_on_focus_gained(&self) -> MutateResult<Self> {
        arbitrary()
    }

    /// What [`Window::on_focus_lost`] returns.
    open spec fn spec_on_focus_lost(&self) -> MutateResult<Self> {
        arbitrary()
    }

    /// What [`Window::on_key`] returns.
    open spec fn spec_on_key(&self, key: crossterm::event::KeyEvent) -> MutateResult<Self> {
        arbitrary()
    }

    /// What [`Window::on_mouse`] returns.
    open spec fn spec_on_mouse(&self, mouse: crossterm::event::MouseEvent) -> MutateResult<Self> {
        arbitrary()
    }

    /// What [`Window::on_paste`] returns for the pasted text.
    open spec fn spec_on_paste(&self, data: Seq<char>) -> MutateResult<Self> {
        arbitrary()
    }

    /// What [`Window::on_resize`] returns.
    open spec fn spec_on_resize(&self, columns: u16, rows: u16) -> MutateResult<Self> {
        arbitrary()
    }

    /// The frame once [`Window::render`] has drawn onto it.
    open spec fn spec_render<'a>(&self, frame: ratatui::Frame<'a>) -> ratatui::Frame<'a> {
        arbitrary()
    }

    /// Renders the window onto the frame.
    fn render(&self, frame: &mut ratatui::Frame<'_>)
        requires
            self.implemented(),
        ensures
            *final(frame) == self.spec_render(*old(frame)),
    ;

    /// Performs an update step if needed.
    fn step(&self) -> (mutation: MutateResult<Self>)
        requires
            self.implemented(),
        ensures
            mutation == self.spec_step(),
    ;

    /// The terminal gained focus.
    fn on_focus_gained(&self) -> (mutation: MutateResult<Self>)
        requires
            self.implemented(),
        ensures
            mutation == self.spec_on_focus_gained(),
    ;

    /// The terminal lost focus.
    fn on_focus_lost(&self) -> (mutation: MutateResult<Self>)
        requires
            self.implemented(),
        ensures
            mutation == self.spec_on_focus_lost(),
    ;

    /// A single key event with additional pressed modifiers.
    fn on_key(&self, key: crossterm::event::KeyEvent) -> (mutation: MutateResult<Self>)
        requires
            self.implemented(),
        ensures
            mutation == self.spec_on_key(key),
    ;

    /// A single mouse event with additional pressed modifiers.
    fn on_mouse(&self, mouse: crossterm::event::MouseEvent) -> (mutation: MutateResult<Self>)
        requires
            self.implemented(),
        ensures
            mutation == self.spec_on_mouse(mouse),
    ;

    /// A string that was pasted into the terminal. Only emitted if bracketed
    /// paste has been enabled.
    fn on_paste(&self, data: String) -> (mutation: MutateResult<Self>)
        requires
            self.implemented(),
        ensures
            mutation == self.spec_on_paste(data@),
    ;

    /// A resize event with new dimensions after resize (columns, rows).
    /// Resize events can occur in batches.
    fn on_resize(&self, columns: u16, rows: u16) -> (mutation: MutateResult<Self>)
        requires
            self.implemented(),
        ensures
            mutation == self.spec_on_resize(columns, rows),
    ;
}

/// The window that a slot holds once `mutation` has been installed over
/// `current`.
pub open spec fn installed<W>(current: W, mutation: MutateResult<W>) -> W {
    match mutation {
        MutateResult::Unchanged => current,
        MutateResult::Changed(next) => next,
    }
}

/// What `window` answers to `event`: the result of the one handler that the
/// event's variant selects.
pub open spec fn reaction<W: Window>(window: W, event: Event) -> MutateResult<W> {
    match event {
        Event::FocusGained => window.spec_on_focus_gained(),
        Event::FocusLost => window.spec_on_focus_lost(),
        Event::Key(key) => window.spec_on_key(key),
        Event::Mouse(mouse) => window.spec_on_mouse(mouse),
        Event::Paste(data) => window.spec_on_paste(data@),
        Event::Resize(columns, rows) => window.spec_on_resize(columns, rows),
    }
}

/// Hands `event` to the handler of `window` that its variant selects, and to
/// no other, and returns what that handler asks for. The window has to be
/// implemented.
pub fn deliver<W: Window>(window: &W, event: Event) -> (mutation: MutateResult<W>)
    requires
        window.implemented(),
    ensures
        mutation == reaction(*window, event),
{
    match event {
        Event::FocusGained => window.on_focus_gained(),
        Event::FocusLost => window.on_focus_lost(),
        Event::Key(key) => window.on_key(key),
        Event::Mouse(mouse) => window.on_mouse(mouse),
        Event::Paste(data) => window.on_paste(data),
        Event::Resize(columns, rows) => window.on_resize(columns, rows),
    }
}

} // verus!
