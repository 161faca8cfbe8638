use crossterm::event::{KeyCode, KeyEvent, KeyModifiers, MouseEvent};
use ratatui::Frame;
use tui_windows::{Action, Application, Event, MutateResult, Report, Window, POLL_BUDGET_MILLIS};

/// A window that counts its steps and the keys it was sent.
#[derive(Debug, Clone, PartialEq)]
struct Tally {
    steps: u32,
    keys: u32,
}

impl Tally {
    fn new() -> Self {
        Tally { steps: 0, keys: 0 }
    }
}

impl Window for Tally {
    fn render(&self, _frame: &mut Frame<'_>) {}

    fn step(&self) -> MutateResult<Self> {
        MutateResult::Changed(Tally { steps: self.steps + 1, keys: self.keys })
    }

    fn on_focus_gained(&self) -> MutateResult<Self> {
        MutateResult::Unchanged
    }

    fn on_focus_lost(&self) -> MutateResult<Self> {
        MutateResult::Unchanged
    }

    fn on_key(&self, _key: KeyEvent) -> MutateResult<Self> {
        MutateResult::Changed(Tally { steps: self.steps, keys: self.keys + 1 })
    }

    fn on_mouse(&self, _mouse: MouseEvent) -> MutateResult<Self> {
        MutateResult::Unchanged
    }

    fn on_paste(&self, _data: String) -> MutateResult<Self> {
        MutateResult::Unchanged
    }

    fn on_resize(&self, _columns: u16, _rows: u16) -> MutateResult<Self> {
        MutateResult::Unchanged
    }
}

fn any_key() -> Event {
    Event::Key(KeyEvent::new(KeyCode::Char('k'), KeyModifiers::NONE))
}

fn is_draw(action: &Action) -> bool {
    matches!(action, Action::Draw)
}

fn is_exit(action: &Action) -> bool {
    matches!(action, Action::Exit)
}

#[test]
fn poll_budget_is_a_sixtieth_of_a_second() {
    assert_eq!(POLL_BUDGET_MILLIS, 16);
}

#[test]
fn entering_the_loop_asks_for_a_frame() {
    let mut app = Application::new();
    app.push_window(Tally::new());
    assert!(is_draw(&app.application_loop(Report::Entered)));
    assert_eq!(app.window(0), Some(&Tally { steps: 0, keys: 0 }));
}

#[test]
fn a_drawn_frame_is_followed_by_the_update_phase_and_a_poll() {
    let mut app = Application::new();
    app.push_window(Tally::new());
    let action = app.application_loop(Report::Drawn);
    assert!(matches!(action, Action::Poll(16)));
    assert_eq!(app.window(0), Some(&Tally { steps: 1, keys: 0 }));
}

#[test]
fn a_poll_without_event_starts_the_next_tick() {
    let mut app = Application::new();
    app.push_window(Tally::new());
    assert!(is_draw(&app.application_loop(Report::Polled(false))));
    assert_eq!(app.window(0), Some(&Tally { steps: 0, keys: 0 }));
    assert!(!app.has_exited());
}

#[test]
fn a_poll_with_event_asks_to_read_it() {
    let mut app = Application::new();
    app.push_window(Tally::new());
    assert!(matches!(app.application_loop(Report::Polled(true)), Action::Read));
    assert_eq!(app.window(0), Some(&Tally { steps: 0, keys: 0 }));
}

#[test]
fn a_received_event_is_dispatched_before_the_next_tick() {
    let mut app = Application::new();
    app.push_window(Tally::new());
    assert!(is_draw(&app.application_loop(Report::Received(any_key()))));
    assert_eq!(app.window(0), Some(&Tally { steps: 0, keys: 1 }));
    assert!(!app.has_exited());
}

#[test]
fn ticks_without_events_step_the_windows_once_each() {
    let mut app = Application::new();
    app.push_window(Tally::new());
    app.push_window(Tally::new());
    let mut action = app.application_loop(Report::Entered);
    for _ in 0..3 {
        assert!(is_draw(&action));
        action = app.application_loop(Report::Drawn);
        assert!(matches!(action, Action::Poll(16)));
        action = app.application_loop(Report::Polled(false));
    }
    assert!(is_draw(&action));
    assert_eq!(app.window(0), Some(&Tally { steps: 3, keys: 0 }));
    assert_eq!(app.window(1), Some(&Tally { steps: 3, keys: 0 }));
}

#[test]
fn a_tick_with_an_event_dispatches_one_event_to_the_active_window() {
    let mut app = Application::new();
    app.push_window(Tally::new());
    app.push_window(Tally::new());
    assert!(is_draw(&app.application_loop(Report::Entered)));
    assert!(matches!(app.application_loop(Report::Drawn), Action::Poll(_)));
    assert!(matches!(app.application_loop(Report::Polled(true)), Action::Read));
    assert!(is_draw(&app.application_loop(Report::Received(any_key()))));
    assert_eq!(app.window(0), Some(&Tally { steps: 1, keys: 0 }));
    assert_eq!(app.window(1), Some(&Tally { steps: 1, keys: 1 }));
}

#[test]
fn the_loop_exits_when_an_event_finds_no_active_window() {
    let mut app: Application<Tally> = Application::new();
    assert!(is_draw(&app.application_loop(Report::Entered)));
    assert!(matches!(app.application_loop(Report::Drawn), Action::Poll(16)));
    assert!(matches!(app.application_loop(Report::Polled(true)), Action::Read));
    assert!(!app.has_exited());
    assert!(is_exit(&app.application_loop(Report::Received(Event::FocusGained))));
    assert!(app.has_exited());
}

#[test]
fn the_loop_keeps_running_without_events_even_with_no_window() {
    let mut app: Application<Tally> = Application::new();
    let mut action = app.application_loop(Report::Entered);
    for _ in 0..10 {
        assert!(is_draw(&action));
        app.application_loop(Report::Drawn);
        action = app.application_loop(Report::Polled(false));
    }
    assert!(!app.has_exited());
}

#[test]
fn exit_after_an_event_without_active_window_ends_all_cycles() {
    let mut app = Application::new();
    // The event phase runs while the stack is still empty.
    app.handle_events(Event::Resize(80, 24));
    assert!(app.has_exited());
    app.push_window(Tally::new());
    // From here on the loop asks for nothing but to be left.
    assert!(is_exit(&app.application_loop(Report::Entered)));
    assert!(is_exit(&app.application_loop(Report::Drawn)));
    assert!(is_exit(&app.application_loop(Report::Polled(true))));
    assert!(is_exit(&app.application_loop(Report::Polled(false))));
    assert!(is_exit(&app.application_loop(Report::Received(any_key()))));
    // No window was stepped and no event was delivered.
    assert_eq!(app.window(0), Some(&Tally { steps: 0, keys: 0 }));
    assert_eq!(app.window_count(), 1);
    assert_eq!(app.active_window(), 0);
    assert!(app.has_exited());
}

#[test]
fn a_window_pushed_in_time_keeps_the_loop_running() {
    let mut app = Application::new();
    app.push_window(Tally::new());
    for _ in 0..4 {
        assert!(is_draw(&app.application_loop(Report::Received(Event::FocusLost))));
    }
    assert!(!app.has_exited());
}
