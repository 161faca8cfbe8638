//! What the terminal hands to the application: input events and the surface
//! that one frame is drawn on.

use vstd::prelude::*;

verus! {

/// `crossterm::event::KeyEvent`: one key press or release with its modifiers.
///
/// Nothing is known of its contents here. The application carries it from
/// [`Event::Key`] to [`crate::window::Window::on_key`] untouched.
#[verifier::external_type_specification]
#[verifier::external_body]
pub struct ExKeyEvent(crossterm::event::KeyEvent);

/// `crossterm::event::MouseEvent`: one mouse action with its position and
/// modifiers.
///
/// Nothing is known of its contents here. The application carries it from
/// [`Event::Mouse`] to [`crate::window::Window::on_mouse`] untouched.
#[verifier::external_type_specification]
#[verifier::external_body]
pub struct ExMouseEvent(crossterm::event::MouseEvent);

/// `ratatui::Frame`: the drawing surface of a single frame.
///
/// Nothing is known of its contents here. The application hands it to each
/// window's [`crate::window::Window::render`] in turn.
#[verifier::external_type_specification]
#[verifier::external_body]
pub struct ExFrame<'a>(ratatui::Frame<'a>);

/// One event from the terminal.
#[derive(Debug)]
pub enum Event {
    /// The terminal gained focus.
    FocusGained,
    /// The terminal lost focus.
    FocusLost,
    /// A single key event with additional pressed modifiers.
    Key(crossterm::event::KeyEvent),
    /// A single mouse event with additional pressed modifiers.
    Mouse(crossterm::event::MouseEvent),
    /// A string that was pasted into the terminal. Only emitted if bracketed
    /// paste has been enabled.
    Paste(String),
    /// New dimensions after a resize, as columns and rows. Resize events can
    /// occur in batches.
    Resize(u16, u16),
}

} // verus!
