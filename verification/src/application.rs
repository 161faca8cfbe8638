//! The application: the window stack and the loop that drives it.

use vstd::prelude::*;
use crate::model::{rendered, AppState};
use crate::terminal::Event;
use crate::window::deliver;

pub use crate::window::{MutateResult, Window};

verus! {

/// How long the loop waits for input in one tick, in milliseconds: a sixtieth
/// of a second, which bounds the idle frame rate without busy waiting.
pub const POLL_BUDGET_MILLIS: u64 = 1000 / 60;

/// Work on the terminal that the loop asks of its driver.
#[derive(Debug, Clone, Copy, PartialEq, Eq)]
pub enum Action {
    /// Draw one frame: obtain the frame's surface and pass it to
    /// [`Application::render`].
    Draw,
    /// Wait for input for at most this many milliseconds.
    Poll(u64),
    /// Read the event that is ready.
    Read,
    /// Leave the loop: the application has exited.
    Exit,
}

/// What the driver reports to the loop.
#[derive(Debug)]
pub enum Report {
    /// The loop is entered; nothing has been done yet.
    Entered,
    /// The frame has been drawn.
    Drawn,
    /// The wait for input is over; `true` if an event is ready.
    Polled(bool),
    /// The event that was read.
    Received(Event),
}

/// The state of the running program: the exit flag, the index of the active
/// window and the stack of resident windows.
pub struct Application<W> {
    exit: bool,
    active_window: usize,
    windows: Vec<W>,
}

impl<W> View for Application<W> {
    type V = AppState<W>;

    closed spec fn view(&self) -> AppState<W> {
        AppState {
            exit: self.exit,
            active_window: self.active_window as nat,
            windows: self.windows@,
        }
    }
}

impl<W: Window> Application<W> {
    /// Appends `window` to the stack and makes it the active window.
    pub fn push_window(&mut self, window: W)
        ensures
            final(self)@ == old(self)@.pushed(window),
    {
        let index: usize = self.windows.len();
        self.windows.push(window);
        self.active_window = index;
    }

    /// A running application without windows.
    pub fn new() -> (app: Self)
        ensures
            app@ == AppState::<W>::initial(),
    {
        Application { exit: false, active_window: 0, windows: Vec::new() }
    }

    /// The event phase of one tick: dispatches `event` to the active window,
    /// and to no other, and puts the window that it hands back, if any, in the
    /// active slot. Without an active window the application is set to exit.
    /// The active window, if there is one, has to be implemented.
    pub fn handle_events(&mut self, event: Event)
        requires
            old(self)@.active_implemented(),
        ensures
            final(self)@ == old(self)@.dispatched(event),
    {
        let mutation = match self.get_active_window() {
            None => {
                self.exit = true;
                MutateResult::Unchanged
            },
            Some(window) => deliver(window, event),
        };
        if let MutateResult::Changed(new_active_window) = mutation {
            self.replace_active_window(new_active_window);
        }
    }

    /// The active window, or `None` where the active index is out of range.
    pub fn get_active_window(&self) -> (active: Option<&W>)
        ensures
            match active {
                Some(window) => self@.active() == Some(*window),
                None => self@.active() is None,
            },
    {
        if self.windows.len() <= self.active_window {
            None
        } else {
            Some(&self.windows[self.active_window])
        }
    }

    /// Overwrites the active slot with `window`, and no other slot. Does
    /// nothing where the active index is out of range.
    pub fn replace_active_window(&mut self, window: W)
        ensures
            final(self)@ == old(self)@.replaced_active(window),
    {
        if self.active_window < self.windows.len() {
            self.windows[self.active_window] = window;
        }
    }

    /// Whether the application has exited. Once it has, it stays so.
    pub fn has_exited(&self) -> (exited: bool)
        ensures
            exited == self@.exit,
    {
        self.exit
    }

    /// The index of the window that receives events.
    pub fn active_window(&self) -> (index: usize)
        ensures
            index == self@.active_window,
    {
        self.active_window
    }

    /// The number of resident windows.
    pub fn window_count(&self) -> (count: usize)
        ensures
            count == self@.windows.len(),
    {
        self.windows.len()
    }

    /// The window in slot `index`, or `None` past the end of the stack.
    pub fn window(&self, index: usize) -> (window: Option<&W>)
        ensures
            match window {
                Some(window) => index < self@.windows.len() && *window == self@.windows[index as int],
                None => index >= self@.windows.len(),
            },
    {
        if index < self.windows.len() {
            Some(&self.windows[index])
        } else {
            None
        }
    }

    /// The render phase of one tick: every resident window, active or not,
    /// draws itself onto `frame`, first to last, so that a window pushed later
    /// draws over those pushed before it. Every window has to be implemented.
    pub fn render(&self, frame: &mut ratatui::Frame<'_>)
        requires
            self@.all_implemented(),
        ensures
            *final(frame) == rendered(self@.windows, *old(frame)),
    {
        let count: usize = self.windows.len();
        let mut index: usize = 0;
        while index < count
            invariant
                index <= count,
                count == self.windows.len(),
                self@.all_implemented(),
                *frame == rendered(self.windows@.take(index as int), *old(frame)),
            decreases count - index,
        {
            assert(self@.windows[index as int].implemented());
            self.windows[index].render(frame);
            proof {
                let drawn = self.windows@.take(index + 1);
                assert(drawn.drop_last() =~= self.windows@.take(index as int));
            }
            index = index + 1;
        }
        assert(self.windows@.take(count as int) =~= self.windows@);
    }

    /// The update phase of one tick: every resident window, active or not,
    /// takes one step, first to last, and a window that asks to be replaced is
    /// replaced in its own slot. Every window has to be implemented.
    pub fn update(&mut self)
        requires
            old(self)@.all_implemented(),
        ensures
            final(self)@ == old(self)@.updated(),
    {
        let count: usize = self.windows.len();
        let mut index: usize = 0;
        while index < count
            invariant
                index <= count,
                count == old(self).windows.len(),
                self.windows.len() == count,
                self.exit == old(self).exit,
                self.active_window == old(self).active_window,
                forall|i: int|
                    0 <= i < index ==> self.windows[i] == #[trigger] old(self)@.updated().windows[i],
                forall|i: int| index <= i < count ==> self.windows[i] == old(self).windows[i],
                old(self)@.all_implemented(),
            decreases count - index,
        {
            assert(self.windows[index as int] == old(self)@.windows[index as int]);
            if let MutateResult::Changed(new_window) = self.windows[index].step() {
                self.windows[index] = new_window;
            }
            index = index + 1;
        }
        assert(self.windows@ =~= old(self)@.updated().windows);
    }

    /// One transition of the application loop.
    ///
    /// The loop alternates work on the terminal with decisions. The decisions
    /// are taken here; the work is named by the [`Action`] that is returned,
    /// and its outcome comes back as the next call's `report`. A tick runs
    /// [`Action::Draw`], the update phase, [`Action::Poll`] and, where an
    /// event is ready, [`Action::Read`] and the event phase. Once the
    /// application has exited, every report is answered with [`Action::Exit`]
    /// and changes nothing.
    ///
    /// The windows that the report makes the loop call on have to be
    /// implemented: every window for [`Report::Drawn`], which starts the
    /// update phase, and the active window for [`Report::Received`].
    pub fn application_loop(&mut self, report: Report) -> (action: Action)
        requires
            old(self)@.admits(report),
        ensures
            final(self)@ == old(self)@.advanced(report),
            action == old(self)@.next_action(report),
    {
        if self.exit {
            return Action::Exit;
        }
        match report {
            Report::Entered => Action::Draw,
            Report::Drawn => {
                self.update();
                Action::Poll(POLL_BUDGET_MILLIS)
            },
            Report::Polled(ready) => {
                if ready {
                    Action::Read
                } else {
                    Action::Draw
                }
            },
            Report::Received(event) => {
                self.handle_events(event);
                if self.exit {
                    Action::Exit
                } else {
                    Action::Draw
                }
            },
        }
    }
}

} // verus!
