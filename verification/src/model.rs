//! The application as a mathematical value, and the loop as a transition
//! function over it.

use vstd::prelude::*;
use crate::application::{Action, Report, POLL_BUDGET_MILLIS};
use crate::terminal::Event;
use crate::window::{installed, reaction, MutateResult, Window};

verus! {

/// The frame once each of `windows` has drawn onto it, first to last.
pub open spec fn rendered<'a, W: Window>(windows: Seq<W>, frame: ratatui::Frame<'a>) -> ratatui::Frame<'a>
    decreases windows.len(),
{
    if windows.len() == 0 {
        frame
    } else {
        windows.last().spec_render(rendered(windows.drop_last(), frame))
    }
}

/// The state of an application: the exit flag, the active index and the
/// window stack.
pub ghost struct AppState<W> {
    /// Set once the application is to exit; never reset.
    pub exit: bool,
    /// The index of the window that receives events.
    pub active_window: nat,
    /// The resident windows, in the order in which they were pushed.
    pub windows: Seq<W>,
}

impl<W: Window> AppState<W> {
    /// The state of a new application: running, with no window.
    pub open spec fn initial() -> Self {
        AppState { exit: false, active_window: 0, windows: Seq::empty() }
    }

    /// Whether the active index points into the stack.
    pub open spec fn has_active(self) -> bool {
        self.active_window < self.windows.len()
    }

    /// The active window, if the active index points into the stack.
    pub open spec fn active(self) -> Option<W> {
        if self.has_active() {
            Some(self.windows[self.active_window as int])
        } else {
            None
        }
    }

    /// Whether every resident window is implemented: what the render phase
    /// and the update phase ask for, since both call on every window.
    pub open spec fn all_implemented(self) -> bool {
        forall|i: int| 0 <= i < self.windows.len() ==> (#[trigger] self.windows[i]).implemented()
    }

    /// Whether the active window, if there is one, is implemented: what the
    /// event phase asks for, since it calls on that window alone.
    pub open spec fn active_implemented(self) -> bool {
        self.has_active() ==> self.windows[self.active_window as int].implemented()
    }

    /// Whether the loop can take in `report`: the windows that the report
    /// makes it call on are implemented. An application that has exited calls
    /// on none.
    pub open spec fn admits(self, report: Report) -> bool {
        self.exit || match report {
            Report::Entered => true,
            Report::Drawn => self.all_implemented(),
            Report::Polled(_) => true,
            Report::Received(_) => self.active_implemented(),
        }
    }

    /// The state after `window` is appended and made active.
    pub open spec fn pushed(self, window: W) -> Self {
        AppState {
            exit: self.exit,
            active_window: self.windows.len(),
            windows: self.windows.push(window),
        }
    }

    /// The state after each of `windows` is pushed, first to last.
    pub open spec fn pushed_all(self, windows: Seq<W>) -> Self
        decreases windows.len(),
    {
        if windows.len() == 0 {
            self
        } else {
            self.pushed_all(windows.drop_last()).pushed(windows.last())
        }
    }

    /// The state after `window` is put in the active slot: unchanged where
    /// there is no active window.
    pub open spec fn replaced_active(self, window: W) -> Self {
        if self.has_active() {
            AppState {
                exit: self.exit,
                active_window: self.active_window,
                windows: self.windows.update(self.active_window as int, window),
            }
        } else {
            self
        }
    }

    /// The state after the active window's `mutation` is applied.
    pub open spec fn applied(self, mutation: MutateResult<W>) -> Self {
        match mutation {
            MutateResult::Unchanged => self,
            MutateResult::Changed(window) => self.replaced_active(window),
        }
    }

    /// The state after the update phase: every window has taken one step, and
    /// each slot holds what its own window asked for.
    pub open spec fn updated(self) -> Self {
        AppState {
            exit: self.exit,
            active_window: self.active_window,
            windows: Seq::new(
                self.windows.len(),
                |i: int| installed(self.windows[i], self.windows[i].spec_step()),
            ),
        }
    }

    /// The state after `event` is dispatched. Without an active window the
    /// exit flag is set and nothing else changes. Otherwise the active window
    /// alone receives the event, and what it asks for is applied.
    pub open spec fn dispatched(self, event: Event) -> Self {
        match self.active() {
            None => AppState { exit: true, active_window: self.active_window, windows: self.windows },
            Some(window) => self.applied(reaction(window, event)),
        }
    }

    /// The state after the loop has taken in `report`.
    pub open spec fn advanced(self, report: Report) -> Self {
        if self.exit {
            self
        } else {
            match report {
                Report::Entered => self,
                Report::Drawn => self.updated(),
                Report::Polled(_) => self,
                Report::Received(event) => self.dispatched(event),
            }
        }
    }

    /// What the loop asks for in answer to `report`.
    pub open spec fn next_action(self, report: Report) -> Action {
        if self.exit {
            Action::Exit
        } else {
            match report {
                Report::Entered => Action::Draw,
                Report::Drawn => Action::Poll(POLL_BUDGET_MILLIS),
                Report::Polled(ready) => if ready {
                    Action::Read
                } else {
                    Action::Draw
                },
                Report::Received(event) => if self.dispatched(event).exit {
                    Action::Exit
                } else {
                    Action::Draw
                },
            }
        }
    }

    /// The state after the loop has taken in each of `reports`, first to last.
    pub open spec fn advanced_all(self, reports: Seq<Report>) -> Self
        decreases reports.len(),
    {
        if reports.len() == 0 {
            self
        } else {
            self.advanced_all(reports.drop_last()).advanced(reports.last())
        }
    }
}

} // verus!
